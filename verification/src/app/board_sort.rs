//! The order of the projects list: the live (or archived) boards arranged by
//! the list's sort field and direction. The model keeps boards in the order
//! they were stored, which is their position and creation order, and keeps
//! no archival times, so a sort by position, creation or archival follows
//! that order (backwards when descending); a sort by name arranges the
//! boards by their names, stably.

use super::model::{board_ids_where_archived, Board, BoardSortField, EntityId, SortOrder};
use vstd::prelude::*;

verus! {

/// Positions in `boards`, in stored order, of the live (or archived) boards.
pub open spec fn board_indices_where(boards: Seq<Board>, archived: bool) -> Seq<usize>
    decreases boards.len(),
{
    if boards.len() == 0 {
        seq![]
    } else {
        let rest = board_indices_where(boards.drop_last(), archived);
        if boards.last().archived == archived {
            rest.push((boards.len() - 1) as usize)
        } else {
            rest
        }
    }
}

/// `a` comes strictly before `b` in the lexicographic order of characters.
pub open spec fn chars_before(a: Seq<char>, b: Seq<char>) -> bool
    decreases a.len(),
{
    if a.len() == 0 {
        b.len() > 0
    } else if b.len() == 0 {
        false
    } else if (a[0] as u32) == (b[0] as u32) {
        chars_before(a.drop_first(), b.drop_first())
    } else {
        (a[0] as u32) < (b[0] as u32)
    }
}

/// In a name sort in `order`, board `x` goes before board `y`.
pub open spec fn name_goes_before(boards: Seq<Board>, x: usize, y: usize, order: SortOrder) -> bool {
    match order {
        SortOrder::Ascending => chars_before(boards[x as int].name@, boards[y as int].name@),
        SortOrder::Descending => chars_before(boards[y as int].name@, boards[x as int].name@),
    }
}

/// `sorted` with board `x` inserted after every board it does not go
/// before (so boards with equal names keep their stored order).
pub open spec fn insert_by_name(sorted: Seq<usize>, x: usize, boards: Seq<Board>, order: SortOrder) -> Seq<usize>
    decreases sorted.len(),
{
    if sorted.len() == 0 {
        seq![x]
    } else if name_goes_before(boards, x, sorted.last(), order) {
        insert_by_name(sorted.drop_last(), x, boards, order).push(sorted.last())
    } else {
        sorted.push(x)
    }
}

/// The boards of `s` sorted by name in `order`, stably.
pub open spec fn sort_by_name(s: Seq<usize>, boards: Seq<Board>, order: SortOrder) -> Seq<usize>
    decreases s.len(),
{
    if s.len() == 0 {
        seq![]
    } else {
        insert_by_name(sort_by_name(s.drop_last(), boards, order), s.last(), boards, order)
    }
}

/// `s` backwards.
pub open spec fn backwards(s: Seq<usize>) -> Seq<usize> {
    Seq::new(s.len(), |k: int| s[s.len() - 1 - k])
}

/// Positions of the live (or archived) boards in the order the projects
/// list shows them under `sort`: by name, stably, for a name sort; for the
/// other fields in stored order (the boards' position and creation order),
/// backwards when descending.
pub open spec fn arranged_board_indices(
    boards: Seq<Board>,
    archived: bool,
    sort: (BoardSortField, SortOrder),
) -> Seq<usize> {
    let s = board_indices_where(boards, archived);
    if sort.0 == BoardSortField::Name {
        sort_by_name(s, boards, sort.1)
    } else if sort.1 == SortOrder::Descending {
        backwards(s)
    } else {
        s
    }
}

/// Ids of the boards the projects list shows under `sort`.
pub open spec fn shown_boards(boards: Seq<Board>, archived: bool, sort: (BoardSortField, SortOrder)) -> Seq<EntityId> {
    let a = arranged_board_indices(boards, archived, sort);
    Seq::new(a.len(), |k: int| boards[a[k] as int].id)
}

proof fn lemma_indices_where(boards: Seq<Board>, archived: bool)
    requires
        boards.len() <= usize::MAX,
    ensures
        board_indices_where(boards, archived).len() == board_ids_where_archived(boards, archived).len(),
        forall|k: int|
            0 <= k < board_indices_where(boards, archived).len() ==> (#[trigger] board_indices_where(
                boards,
                archived,
            )[k]) < boards.len() && boards[board_indices_where(boards, archived)[k] as int].id
                == board_ids_where_archived(boards, archived)[k],
    decreases boards.len(),
{
    if boards.len() > 0 {
        lemma_indices_where(boards.drop_last(), archived);
        let rest = board_indices_where(boards.drop_last(), archived);
        assert forall|k: int| 0 <= k < rest.len() implies boards[rest[k] as int] == boards.drop_last()[rest[k] as int] by {}
    }
}

proof fn lemma_insert_len(sorted: Seq<usize>, x: usize, boards: Seq<Board>, order: SortOrder)
    ensures
        insert_by_name(sorted, x, boards, order).len() == sorted.len() + 1,
        forall|k: int|
            0 <= k < insert_by_name(sorted, x, boards, order).len() ==> (#[trigger] insert_by_name(
                sorted,
                x,
                boards,
                order,
            )[k] == x || sorted.contains(insert_by_name(sorted, x, boards, order)[k])),
    decreases sorted.len(),
{
    if sorted.len() > 0 && name_goes_before(boards, x, sorted.last(), order) {
        lemma_insert_len(sorted.drop_last(), x, boards, order);
        let r = insert_by_name(sorted, x, boards, order);
        let r0 = insert_by_name(sorted.drop_last(), x, boards, order);
        assert forall|k: int| 0 <= k < r.len() implies (#[trigger] r[k] == x || sorted.contains(r[k])) by {
            if k < r0.len() {
                assert(r[k] == r0[k]);
                if r0[k] != x {
                    let j = choose|j: int| 0 <= j < sorted.drop_last().len() && sorted.drop_last()[j] == r0[k];
                    assert(sorted[j] == r0[k]);
                }
            } else {
                assert(r[k] == sorted[sorted.len() - 1]);
            }
        }
    } else if sorted.len() > 0 {
        let r = insert_by_name(sorted, x, boards, order);
        assert forall|k: int| 0 <= k < r.len() implies (#[trigger] r[k] == x || sorted.contains(r[k])) by {
            if k < sorted.len() {
                assert(r[k] == sorted[k]);
            }
        }
    }
}

proof fn lemma_sort_len(s: Seq<usize>, boards: Seq<Board>, order: SortOrder, bound: nat)
    requires
        forall|k: int| 0 <= k < s.len() ==> (#[trigger] s[k]) < bound,
    ensures
        sort_by_name(s, boards, order).len() == s.len(),
        forall|k: int| 0 <= k < sort_by_name(s, boards, order).len() ==> (#[trigger] sort_by_name(s, boards, order)[k]) < bound,
    decreases s.len(),
{
    if s.len() > 0 {
        let t = sort_by_name(s.drop_last(), boards, order);
        lemma_sort_len(s.drop_last(), boards, order, bound);
        lemma_insert_len(t, s.last(), boards, order);
        let r = sort_by_name(s, boards, order);
        assert forall|k: int| 0 <= k < r.len() implies (#[trigger] r[k]) < bound by {
            if r[k] != s.last() {
                let j = choose|j: int| 0 <= j < t.len() && t[j] == r[k];
                assert(t[j] < bound);
            }
        }
    }
}

/// The list shows as many boards as are live (or archived), each a board of
/// the model.
pub proof fn lemma_arranged(boards: Seq<Board>, archived: bool, sort: (BoardSortField, SortOrder))
    requires
        boards.len() <= usize::MAX,
    ensures
        arranged_board_indices(boards, archived, sort).len() == board_ids_where_archived(boards, archived).len(),
        shown_boards(boards, archived, sort).len() == board_ids_where_archived(boards, archived).len(),
        forall|k: int|
            0 <= k < arranged_board_indices(boards, archived, sort).len() ==> (#[trigger] arranged_board_indices(
                boards,
                archived,
                sort,
            )[k]) < boards.len(),
{
    lemma_indices_where(boards, archived);
    let s = board_indices_where(boards, archived);
    lemma_sort_len(s, boards, sort.1, boards.len());
    let a = arranged_board_indices(boards, archived, sort);
    assert forall|k: int| 0 <= k < a.len() implies (#[trigger] a[k]) < boards.len() by {
        if sort.0 != BoardSortField::Name && sort.1 == SortOrder::Descending {
            assert(a[k] == s[s.len() - 1 - k]);
        }
    }
}

/// `s` with `x` inserted at `j`, when `x` goes before the boards from `j`
/// on and not before the one just ahead of `j`.
proof fn lemma_insert_at(s: Seq<usize>, x: usize, boards: Seq<Board>, order: SortOrder, j: int)
    requires
        0 <= j <= s.len(),
        forall|k: int| j <= k < s.len() ==> name_goes_before(boards, x, #[trigger] s[k], order),
        j > 0 ==> !name_goes_before(boards, x, s[j - 1], order),
    ensures
        insert_by_name(s, x, boards, order) == s.take(j) + seq![x] + s.skip(j),
    decreases s.len(),
{
    if s.len() == 0 {
        assert(s.take(j) + seq![x] + s.skip(j) =~= seq![x]);
    } else if j < s.len() {
        assert(name_goes_before(boards, x, s[s.len() - 1], order));
        let d = s.drop_last();
        assert forall|k: int| j <= k < d.len() implies name_goes_before(boards, x, #[trigger] d[k], order) by {
            assert(d[k] == s[k]);
        }
        if j > 0 {
            assert(d[j - 1] == s[j - 1]);
        }
        lemma_insert_at(d, x, boards, order, j);
        assert(s.take(j) + seq![x] + s.skip(j) =~= (d.take(j) + seq![x] + d.skip(j)).push(s.last()));
    } else {
        assert(s.take(j) + seq![x] + s.skip(j) =~= s.push(x));
    }
}

/// Whether `a` comes strictly before `b` in the lexicographic order of
/// characters.
fn str_before(a: &str, b: &str) -> (r: bool)
    ensures
        r == chars_before(a@, b@),
{
    let la = a.unicode_len();
    let lb = b.unicode_len();
    let mut i: usize = 0;
    assert(a@.skip(0) =~= a@);
    assert(b@.skip(0) =~= b@);
    while i < la && i < lb
        invariant
            la == a@.len(),
            lb == b@.len(),
            i <= la,
            i <= lb,
            chars_before(a@, b@) == chars_before(a@.skip(i as int), b@.skip(i as int)),
        decreases la - i,
    {
        let ca = a.get_char(i);
        let cb = b.get_char(i);
        let ua = ca as u32;
        let ub = cb as u32;
        if ua != ub {
            proof {
                assert(a@.skip(i as int)[0] == ca);
                assert(b@.skip(i as int)[0] == cb);
            }
            return ua < ub;
        }
        proof {
            assert(a@.skip(i as int)[0] == ca);
            assert(b@.skip(i as int)[0] == cb);
            assert(a@.skip(i as int).drop_first() =~= a@.skip(i + 1));
            assert(b@.skip(i as int).drop_first() =~= b@.skip(i + 1));
        }
        i = i + 1;
    }
    i == la && i < lb
}

/// In a name sort in `order`, board `x` goes before board `y`.
fn goes_before(boards: &Vec<Board>, x: usize, y: usize, order: SortOrder) -> (r: bool)
    requires
        x < boards@.len(),
        y < boards@.len(),
    ensures
        r == name_goes_before(boards@, x, y, order),
{
    match order {
        SortOrder::Ascending => str_before(boards[x].name.as_str(), boards[y].name.as_str()),
        SortOrder::Descending => str_before(boards[y].name.as_str(), boards[x].name.as_str()),
    }
}

/// Positions, in stored order, of the live (or archived) boards.
fn indices_where(boards: &Vec<Board>, archived: bool) -> (r: Vec<usize>)
    ensures
        r@ == board_indices_where(boards@, archived),
{
    let mut r: Vec<usize> = Vec::new();
    let mut i: usize = 0;
    while i < boards.len()
        invariant
            i <= boards@.len(),
            r@ == board_indices_where(boards@.take(i as int), archived),
        decreases boards@.len() - i,
    {
        assert(boards@.take(i + 1).drop_last() =~= boards@.take(i as int));
        if boards[i].archived == archived {
            r.push(i);
        }
        i = i + 1;
    }
    assert(boards@.take(boards@.len() as int) =~= boards@);
    r
}

/// Ids of the boards the projects list shows under `sort`.
pub fn shown_board_ids(boards: &Vec<Board>, archived: bool, sort: (BoardSortField, SortOrder)) -> (r: Vec<EntityId>)
    ensures
        r@ == shown_boards(boards@, archived, sort),
        r@.len() == board_ids_where_archived(boards@, archived).len(),
        r@.len() <= boards@.len(),
{
    let n = boards.len();
    assert(boards@.len() <= usize::MAX);
    proof {
        lemma_arranged(boards@, archived, sort);
        lemma_indices_where(boards@, archived);
        lemma_ids_where_bounded(boards@, archived);
    }
    let s = indices_where(boards, archived);
    let ghost spec_s = s@;
    let arranged: Vec<usize> = if sort.0 == BoardSortField::Name {
        let mut res: Vec<usize> = Vec::new();
        let mut i: usize = 0;
        while i < s.len()
            invariant
                i <= s@.len(),
                s@ == spec_s,
                spec_s == board_indices_where(boards@, archived),
                forall|k: int| 0 <= k < s@.len() ==> (#[trigger] s@[k]) < boards@.len(),
                res@ == sort_by_name(s@.take(i as int), boards@, sort.1),
                forall|k: int| 0 <= k < res@.len() ==> (#[trigger] res@[k]) < boards@.len(),
                res@.len() == i,
            decreases s@.len() - i,
        {
            let x = s[i];
            proof {
                assert(s@.take(i + 1).drop_last() =~= s@.take(i as int));
                assert(s@.take(i + 1).last() == x);
            }
            let mut j: usize = res.len();
            while j > 0 && goes_before(boards, x, res[j - 1], sort.1)
                invariant
                    j <= res@.len(),
                    x < boards@.len(),
                    forall|k: int| 0 <= k < res@.len() ==> (#[trigger] res@[k]) < boards@.len(),
                    forall|k: int| j <= k < res@.len() ==> name_goes_before(boards@, x, #[trigger] res@[k], sort.1),
                decreases j,
            {
                j = j - 1;
            }
            proof {
                lemma_insert_at(res@, x, boards@, sort.1, j as int);
            }
            let ghost before = res@;
            res.insert(j, x);
            proof {
                assert(res@ =~= before.take(j as int) + seq![x] + before.skip(j as int));
                assert forall|k: int| 0 <= k < res@.len() implies (#[trigger] res@[k]) < boards@.len() by {
                    if k < j {
                        assert(res@[k] == before[k]);
                    } else if k > j {
                        assert(res@[k] == before[k - 1]);
                    }
                }
            }
            i = i + 1;
        }
        proof {
            assert(s@.take(s@.len() as int) =~= s@);
        }
        res
    } else if sort.1 == SortOrder::Descending {
        let mut res: Vec<usize> = Vec::new();
        let mut k: usize = s.len();
        while k > 0
            invariant
                k <= s@.len(),
                res@.len() == s@.len() - k,
                forall|m: int| 0 <= m < res@.len() ==> #[trigger] res@[m] == s@[s@.len() - 1 - m],
            decreases k,
        {
            k = k - 1;
            res.push(s[k]);
        }
        proof {
            assert(res@ =~= backwards(s@));
        }
        res
    } else {
        s
    };
    let ghost a = arranged@;
    assert(a == arranged_board_indices(boards@, archived, sort));
    let mut r: Vec<EntityId> = Vec::new();
    let mut k: usize = 0;
    while k < arranged.len()
        invariant
            k <= arranged@.len(),
            arranged@ == a,
            a == arranged_board_indices(boards@, archived, sort),
            forall|m: int| 0 <= m < a.len() ==> (#[trigger] a[m]) < boards@.len(),
            r@.len() == k,
            forall|m: int| 0 <= m < k ==> #[trigger] r@[m] == boards@[a[m] as int].id,
        decreases arranged@.len() - k,
    {
        let bi = arranged[k];
        r.push(boards[bi].id);
        k = k + 1;
    }
    assert(r@ =~= shown_boards(boards@, archived, sort));
    r
}

/// Sorted by a field other than the name, ascending, the list shows the
/// boards in stored order.
pub proof fn lemma_stored_order(boards: Seq<Board>, archived: bool, sort: (BoardSortField, SortOrder))
    requires
        boards.len() <= usize::MAX,
        sort.0 != BoardSortField::Name,
        sort.1 == SortOrder::Ascending,
    ensures
        shown_boards(boards, archived, sort) == board_ids_where_archived(boards, archived),
{
    lemma_indices_where(boards, archived);
    assert(shown_boards(boards, archived, sort) =~= board_ids_where_archived(boards, archived));
}

proof fn lemma_ids_where_bounded(boards: Seq<Board>, archived: bool)
    ensures
        board_ids_where_archived(boards, archived).len() <= boards.len(),
    decreases boards.len(),
{
    if boards.len() > 0 {
        lemma_ids_where_bounded(boards.drop_last(), archived);
    }
}

proof fn lemma_chars_before_asymmetric(a: Seq<char>, b: Seq<char>)
    ensures
        chars_before(a, b) ==> !chars_before(b, a),
    decreases a.len(),
{
    if a.len() > 0 && b.len() > 0 && (a[0] as u32) == (b[0] as u32) {
        lemma_chars_before_asymmetric(a.drop_first(), b.drop_first());
    }
}

/// Not coming before is transitive: the order of characters is total.
proof fn lemma_chars_not_before_transitive(a: Seq<char>, b: Seq<char>, c: Seq<char>)
    ensures
        !chars_before(a, b) && !chars_before(b, c) ==> !chars_before(a, c),
    decreases a.len(),
{
    if a.len() > 0 && b.len() > 0 && c.len() > 0 && (a[0] as u32) == (b[0] as u32) && (b[0] as u32) == (
    c[0] as u32) {
        lemma_chars_not_before_transitive(a.drop_first(), b.drop_first(), c.drop_first());
    }
}

/// In `s`, no board goes before one listed ahead of it.
pub open spec fn name_sorted(s: Seq<usize>, boards: Seq<Board>, order: SortOrder) -> bool {
    forall|k: int, l: int| 0 <= k < l < s.len() ==> !name_goes_before(boards, #[trigger] s[l], #[trigger] s[k], order)
}

proof fn lemma_goes_before_facts(boards: Seq<Board>, x: usize, y: usize, z: usize, order: SortOrder)
    ensures
        name_goes_before(boards, x, y, order) ==> !name_goes_before(boards, y, x, order),
        !name_goes_before(boards, x, y, order) && !name_goes_before(boards, y, z, order) ==> !name_goes_before(
            boards,
            x,
            z,
            order,
        ),
{
    let nx = boards[x as int].name@;
    let ny = boards[y as int].name@;
    let nz = boards[z as int].name@;
    match order {
        SortOrder::Ascending => {
            lemma_chars_before_asymmetric(nx, ny);
            lemma_chars_not_before_transitive(nx, ny, nz);
        },
        SortOrder::Descending => {
            lemma_chars_before_asymmetric(ny, nx);
            lemma_chars_not_before_transitive(nz, ny, nx);
        },
    }
}

proof fn lemma_insert_sorted(s: Seq<usize>, x: usize, boards: Seq<Board>, order: SortOrder)
    requires
        name_sorted(s, boards, order),
    ensures
        name_sorted(insert_by_name(s, x, boards, order), boards, order),
    decreases s.len(),
{
    if s.len() > 0 {
        let last = s.last();
        let d = s.drop_last();
        let r = insert_by_name(s, x, boards, order);
        if name_goes_before(boards, x, last, order) {
            assert(name_sorted(d, boards, order)) by {
                assert forall|k: int, l: int| 0 <= k < l < d.len() implies !name_goes_before(
                    boards,
                    #[trigger] d[l],
                    #[trigger] d[k],
                    order,
                ) by {
                    assert(d[l] == s[l] && d[k] == s[k]);
                }
            }
            lemma_insert_sorted(d, x, boards, order);
            lemma_insert_len(d, x, boards, order);
            let r0 = insert_by_name(d, x, boards, order);
            assert forall|k: int, l: int| 0 <= k < l < r.len() implies !name_goes_before(
                boards,
                #[trigger] r[l],
                #[trigger] r[k],
                order,
            ) by {
                assert(r[k] == r0[k]);
                if l < r0.len() {
                    assert(r[l] == r0[l]);
                } else {
                    assert(r[l] == last);
                    if r0[k] == x {
                        lemma_goes_before_facts(boards, x, last, last, order);
                    } else {
                        let j = choose|j: int| 0 <= j < d.len() && d[j] == r0[k];
                        assert(s[j] == d[j]);
                        assert(!name_goes_before(boards, s[s.len() - 1], s[j], order));
                    }
                }
            }
        } else {
            assert forall|k: int, l: int| 0 <= k < l < r.len() implies !name_goes_before(
                boards,
                #[trigger] r[l],
                #[trigger] r[k],
                order,
            ) by {
                assert(r[k] == s[k]);
                if l < s.len() {
                    assert(r[l] == s[l]);
                } else {
                    assert(r[l] == x);
                    if k < s.len() - 1 {
                        assert(!name_goes_before(boards, s[s.len() - 1], s[k], order));
                        lemma_goes_before_facts(boards, x, last, s[k], order);
                    }
                }
            }
        }
    }
}

proof fn lemma_sort_sorted(s: Seq<usize>, boards: Seq<Board>, order: SortOrder)
    ensures
        name_sorted(sort_by_name(s, boards, order), boards, order),
    decreases s.len(),
{
    if s.len() > 0 {
        lemma_sort_sorted(s.drop_last(), boards, order);
        lemma_insert_sorted(sort_by_name(s.drop_last(), boards, order), s.last(), boards, order);
    }
}

/// Sorted by name, the projects list never shows a board after one whose
/// name it comes before (ascending: no name is followed by a name that comes
/// before it; descending: by a name that comes after it).
pub proof fn law_name_sort_orders_names(boards: Seq<Board>, archived: bool, order: SortOrder)
    ensures
        ({
            let a = arranged_board_indices(boards, archived, (BoardSortField::Name, order));
            forall|k: int, l: int|
                0 <= k < l < a.len() ==> match order {
                    SortOrder::Ascending => !chars_before(
                        boards[#[trigger] a[l] as int].name@,
                        boards[#[trigger] a[k] as int].name@,
                    ),
                    SortOrder::Descending => !chars_before(boards[a[k] as int].name@, boards[a[l] as int].name@),
                }
        }),
{
    lemma_sort_sorted(board_indices_where(boards, archived), boards, order);
}

proof fn lemma_flip_counts(boards: Seq<Board>, i: int, a: bool)
    requires
        0 <= i < boards.len(),
        boards[i].archived != a,
    ensures
        board_ids_where_archived(boards.update(i, Board { archived: a, ..boards[i] }), a).len()
            == board_ids_where_archived(boards, a).len() + 1,
        board_ids_where_archived(boards.update(i, Board { archived: a, ..boards[i] }), !a).len() + 1
            == board_ids_where_archived(boards, !a).len(),
    decreases boards.len(),
{
    let upd = boards.update(i, Board { archived: a, ..boards[i] });
    if i == boards.len() - 1 {
        assert(upd.drop_last() =~= boards.drop_last());
    } else {
        lemma_flip_counts(boards.drop_last(), i, a);
        assert(upd.drop_last() =~= boards.drop_last().update(i, Board { archived: a, ..boards[i] }));
    }
}

/// Archiving a live board (or restoring an archived one) takes one board
/// off the list it was on and adds one to the other, whatever the sort: so
/// after archiving the highlighted board of `n` live boards at row `r`, the
/// clamped highlight is none when it was the only one and row
/// `min(r, n - 2)` otherwise.
pub proof fn law_archive_moves_one_board(
    boards: Seq<Board>,
    i: int,
    archive: bool,
    sort: (BoardSortField, SortOrder),
    other_sort: (BoardSortField, SortOrder),
    row: usize,
)
    requires
        boards.len() <= usize::MAX,
        0 <= i < boards.len(),
        boards[i].archived != archive,
    ensures
        ({
            let n = shown_boards(boards, !archive, other_sort).len();
            super::board_handlers::clamped_row(
                row,
                shown_boards(boards.update(i, Board { archived: archive, ..boards[i] }), !archive, other_sort).len(),
            ) == if n == 1 {
                None
            } else if row < n - 1 {
                Some(row)
            } else {
                Some((n - 2) as usize)
            }
        }),
        shown_boards(boards.update(i, Board { archived: archive, ..boards[i] }), archive, sort).len()
            == shown_boards(boards, archive, sort).len() + 1,
        shown_boards(boards.update(i, Board { archived: archive, ..boards[i] }), !archive, other_sort).len() + 1
            == shown_boards(boards, !archive, other_sort).len(),
{
    let upd = boards.update(i, Board { archived: archive, ..boards[i] });
    lemma_flip_counts(boards, i, archive);
    lemma_arranged(boards, archive, sort);
    lemma_arranged(upd, archive, sort);
    lemma_arranged(boards, !archive, other_sort);
    lemma_arranged(upd, !archive, other_sort);
}

/// `a` and `b` have the same characters (code points) at their first `k`
/// places and first differ there: either both go on and `a`'s character is
/// the smaller, or `a` ends there and `b` goes on.
pub open spec fn first_difference_favours(a: Seq<char>, b: Seq<char>, k: int) -> bool {
    &&& 0 <= k <= a.len()
    &&& k <= b.len()
    &&& forall|j: int| 0 <= j < k ==> (#[trigger] a[j] as u32) == (b[j] as u32)
    &&& ((k < a.len() && k < b.len() && (a[k] as u32) < (b[k] as u32)) || (k == a.len() && k < b.len()))
}

proof fn lemma_shift_difference(a: Seq<char>, b: Seq<char>, k: int)
    requires
        a.len() > 0,
        b.len() > 0,
        (a[0] as u32) == (b[0] as u32),
        0 <= k,
    ensures
        first_difference_favours(a, b, k + 1) == first_difference_favours(a.drop_first(), b.drop_first(), k),
{
    let a1 = a.drop_first();
    let b1 = b.drop_first();
    if first_difference_favours(a, b, k + 1) {
        assert forall|j: int| 0 <= j < k implies (#[trigger] a1[j] as u32) == (b1[j] as u32) by {
            assert(a[j + 1] == a1[j]);
            assert(b[j + 1] == b1[j]);
        }
    }
    if first_difference_favours(a1, b1, k) {
        assert forall|j: int| 0 <= j < k + 1 implies (#[trigger] a[j] as u32) == (b[j] as u32) by {
            if j > 0 {
                assert(a[j] == a1[j - 1]);
                assert(b[j] == b1[j - 1]);
            }
        }
    }
}

/// The name order is the lexicographic order of the whole names, character
/// by character: `a` comes before `b` exactly when, at the first place they
/// differ, `a`'s character is the smaller or `a` has ended while `b` goes on.
pub proof fn law_name_order_is_lexicographic(a: Seq<char>, b: Seq<char>)
    ensures
        chars_before(a, b) <==> exists|k: int| first_difference_favours(a, b, k),
    decreases a.len(),
{
    if a.len() == 0 {
        if b.len() > 0 {
            assert(first_difference_favours(a, b, 0));
        }
    } else if b.len() == 0 {
    } else if (a[0] as u32) == (b[0] as u32) {
        law_name_order_is_lexicographic(a.drop_first(), b.drop_first());
        if chars_before(a, b) {
            let k = choose|k: int| first_difference_favours(a.drop_first(), b.drop_first(), k);
            lemma_shift_difference(a, b, k);
            assert(first_difference_favours(a, b, k + 1));
        }
        if exists|k: int| first_difference_favours(a, b, k) {
            let k = choose|k: int| first_difference_favours(a, b, k);
            assert(k != 0);
            lemma_shift_difference(a, b, k - 1);
            assert(first_difference_favours(a.drop_first(), b.drop_first(), k - 1));
        }
    } else {
        if (a[0] as u32) < (b[0] as u32) {
            assert(first_difference_favours(a, b, 0));
        }
        if exists|k: int| first_difference_favours(a, b, k) {
            let k = choose|k: int| first_difference_favours(a, b, k);
            if k > 0 {
                assert((a[0] as u32) == (b[0] as u32));
            }
        }
    }
}

/// Names sharing a prefix are ordered by what follows it.
pub proof fn law_name_order_skips_common_prefix(p: Seq<char>, a: Seq<char>, b: Seq<char>)
    ensures
        chars_before(p + a, p + b) == chars_before(a, b),
    decreases p.len(),
{
    if p.len() > 0 {
        let q = p.drop_first();
        assert((p + a).drop_first() =~= q + a);
        assert((p + b).drop_first() =~= q + b);
        assert((p + a)[0] == (p + b)[0]);
        assert(((p + a)[0] as u32) == ((p + b)[0] as u32));
        law_name_order_skips_common_prefix(q, a, b);
    } else {
        assert(p + a =~= a);
        assert(p + b =~= b);
    }
}

} // verus!
