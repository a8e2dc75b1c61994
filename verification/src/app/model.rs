//! The in-memory snapshot of the kanban data the handlers read: boards,
//! columns, cards, archived-card markers, sprints and the parent/child graph.
//! Entities are identified by their 128-bit ids.

use vstd::prelude::*;

verus! {

/// 128-bit entity id (the value of a UUID).
pub type EntityId = u128;

#[derive(Debug, Clone, Copy, PartialEq, Eq, Structural)]
pub enum TaskListView {
    Flat,
    GroupedByColumn,
    ColumnView,
}

impl TaskListView {
    /// The layout a board gets when nothing else is chosen.
    pub fn default_view() -> (r: TaskListView)
        ensures
            r == TaskListView::Flat,
    {
        TaskListView::Flat
    }
}

/// Direction of a sort.
#[derive(Debug, Clone, Copy, PartialEq, Eq, Structural)]
pub enum SortOrder {
    Ascending,
    Descending,
}

/// The other direction.
pub open spec fn toggled_order(o: SortOrder) -> SortOrder {
    match o {
        SortOrder::Ascending => SortOrder::Descending,
        SortOrder::Descending => SortOrder::Ascending,
    }
}

/// Reversing a sort twice gives back the direction it had.
pub proof fn law_toggled_twice_restores(o: SortOrder)
    ensures
        toggled_order(toggled_order(o)) == o,
{
}

impl SortOrder {
    /// The other direction.
    pub fn toggled(self) -> (r: SortOrder)
        ensures
            r == toggled_order(self),
    {
        match self {
            SortOrder::Ascending => SortOrder::Descending,
            SortOrder::Descending => SortOrder::Ascending,
        }
    }
}

/// What a board's task list is sorted by, in the order of the field picker.
#[derive(Debug, Clone, Copy, PartialEq, Eq, Structural)]
pub enum SortField {
    Default,
    Priority,
    Points,
    Status,
    Position,
}

/// What the projects list is sorted by, in the order of the field picker.
#[derive(Debug, Clone, Copy, PartialEq, Eq, Structural)]
pub enum BoardSortField {
    Position,
    Name,
    CreatedAt,
    ArchivedAt,
}

/// Rows of the task sort-field picker.
pub const SORT_FIELD_COUNT: usize = 5;

/// Rows of the projects sort-field picker.
pub const BOARD_SORT_FIELD_COUNT: usize = 4;

/// Row of `f` in the task sort-field picker.
pub open spec fn sort_field_row(f: SortField) -> usize {
    match f {
        SortField::Default => 0,
        SortField::Priority => 1,
        SortField::Points => 2,
        SortField::Status => 3,
        SortField::Position => 4,
    }
}

/// Row of `f` in the projects sort-field picker.
pub open spec fn board_sort_field_row(f: BoardSortField) -> usize {
    match f {
        BoardSortField::Position => 0,
        BoardSortField::Name => 1,
        BoardSortField::CreatedAt => 2,
        BoardSortField::ArchivedAt => 3,
    }
}

/// The projects sort field on row `row` of the picker (`row` below
/// `BOARD_SORT_FIELD_COUNT`).
pub open spec fn board_sort_field_on_row(row: usize) -> BoardSortField {
    if row == 0 {
        BoardSortField::Position
    } else if row == 1 {
        BoardSortField::Name
    } else if row == 2 {
        BoardSortField::CreatedAt
    } else {
        BoardSortField::ArchivedAt
    }
}

/// The task sort field on row `row` of the picker (`row` below
/// `SORT_FIELD_COUNT`).
pub open spec fn sort_field_on_row(row: usize) -> SortField {
    if row == 0 {
        SortField::Default
    } else if row == 1 {
        SortField::Priority
    } else if row == 2 {
        SortField::Points
    } else if row == 3 {
        SortField::Status
    } else {
        SortField::Position
    }
}

/// Row of `f` in the task sort-field picker.
pub fn popup_index_of_sort_field(f: SortField) -> (r: usize)
    ensures
        r == sort_field_row(f),
        r < SORT_FIELD_COUNT,
{
    match f {
        SortField::Default => 0,
        SortField::Priority => 1,
        SortField::Points => 2,
        SortField::Status => 3,
        SortField::Position => 4,
    }
}

/// The task sort field on row `row` of the picker, if there is one.
pub fn sort_field_at_popup_index(row: usize) -> (r: Option<SortField>)
    ensures
        match r {
            Some(f) => row < SORT_FIELD_COUNT && sort_field_row(f) == row && f == sort_field_on_row(row),
            None => row >= SORT_FIELD_COUNT,
        },
{
    if row == 0 {
        Some(SortField::Default)
    } else if row == 1 {
        Some(SortField::Priority)
    } else if row == 2 {
        Some(SortField::Points)
    } else if row == 3 {
        Some(SortField::Status)
    } else if row == 4 {
        Some(SortField::Position)
    } else {
        None
    }
}

/// Row of `f` in the projects sort-field picker.
pub fn popup_index_of_board_sort_field(f: BoardSortField) -> (r: usize)
    ensures
        r == board_sort_field_row(f),
        r < BOARD_SORT_FIELD_COUNT,
{
    match f {
        BoardSortField::Position => 0,
        BoardSortField::Name => 1,
        BoardSortField::CreatedAt => 2,
        BoardSortField::ArchivedAt => 3,
    }
}

/// The projects sort field on row `row` of the picker, if there is one.
pub fn board_sort_field_at_popup_index(row: usize) -> (r: Option<BoardSortField>)
    ensures
        match r {
            Some(f) => row < BOARD_SORT_FIELD_COUNT && board_sort_field_row(f) == row && f == board_sort_field_on_row(
                row,
            ),
            None => row >= BOARD_SORT_FIELD_COUNT,
        },
{
    if row == 0 {
        Some(BoardSortField::Position)
    } else if row == 1 {
        Some(BoardSortField::Name)
    } else if row == 2 {
        Some(BoardSortField::CreatedAt)
    } else if row == 3 {
        Some(BoardSortField::ArchivedAt)
    } else {
        None
    }
}

#[derive(Debug)]
pub struct Board {
    pub id: EntityId,
    pub name: String,
    pub archived: bool,
    pub task_list_view: TaskListView,
    pub active_sprint_id: Option<EntityId>,
    /// Prefix of the branch names of the board's cards.
    pub sprint_prefix: Option<String>,
    /// What the board's task list is sorted by, and in which direction.
    pub task_sort_field: SortField,
    pub task_sort_order: SortOrder,
}

#[derive(Debug)]
pub struct Column {
    pub id: EntityId,
    pub board_id: EntityId,
    pub name: String,
    pub position: i32,
    /// Creation time, in milliseconds since the epoch; orders columns that
    /// share a position.
    pub created_at: i64,
}

/// Priority of a card, lowest first.
#[derive(Debug, Clone, Copy, PartialEq, Eq, Structural)]
pub enum CardPriority {
    Low,
    Medium,
    High,
    Critical,
}

impl CardPriority {
    /// Row of this priority in the priority picker.
    pub open spec fn picker_row(self) -> usize {
        match self {
            CardPriority::Low => 0,
            CardPriority::Medium => 1,
            CardPriority::High => 2,
            CardPriority::Critical => 3,
        }
    }

    pub fn picker_index(&self) -> (r: usize)
        ensures
            r == self.picker_row(),
    {
        match self {
            CardPriority::Low => 0,
            CardPriority::Medium => 1,
            CardPriority::High => 2,
            CardPriority::Critical => 3,
        }
    }

    /// Priority of picker row `row` (Medium past the last row).
    pub open spec fn of_row(row: usize) -> CardPriority {
        if row == 0 {
            CardPriority::Low
        } else if row == 1 {
            CardPriority::Medium
        } else if row == 2 {
            CardPriority::High
        } else if row == 3 {
            CardPriority::Critical
        } else {
            CardPriority::Medium
        }
    }

    pub fn from_row(row: usize) -> (r: CardPriority)
        ensures
            r == CardPriority::of_row(row),
    {
        match row {
            0 => CardPriority::Low,
            1 => CardPriority::Medium,
            2 => CardPriority::High,
            3 => CardPriority::Critical,
            _ => CardPriority::Medium,
        }
    }
}

/// Whether a card is done.
#[derive(Debug, Clone, Copy, PartialEq, Eq, Structural)]
pub enum CardStatus {
    Todo,
    Done,
}

#[derive(Debug)]
pub struct Card {
    pub id: EntityId,
    pub column_id: EntityId,
    pub title: String,
    pub position: i32,
    pub priority: CardPriority,
    pub status: CardStatus,
    pub sprint_id: Option<EntityId>,
    /// Story points, 1 to 5, when estimated.
    pub points: Option<u8>,
}

/// Marks a card as archived; the card itself stays in place.
#[derive(Debug, Clone, Copy)]
pub struct ArchivedCard {
    pub card_id: EntityId,
    pub board_id: EntityId,
}

/// Where a sprint is in its life.
#[derive(Debug, Clone, Copy, PartialEq, Eq, Structural)]
pub enum SprintStatus {
    Planning,
    Active,
    Completed,
    Cancelled,
}

#[derive(Debug)]
pub struct Sprint {
    pub id: EntityId,
    pub board_id: EntityId,
    pub status: SprintStatus,
    /// Name given at creation, if any.
    pub name: Option<String>,
    /// Prefix of the sprint's names, overriding the board's.
    pub prefix: Option<String>,
    /// Prefix of the branch names of the sprint's cards, overriding the board's.
    pub card_prefix: Option<String>,
}

/// Snapshot of the store.
#[derive(Debug)]
pub struct KanbanModel {
    pub boards: Vec<Board>,
    pub columns: Vec<Column>,
    pub cards: Vec<Card>,
    pub archived_cards: Vec<ArchivedCard>,
    pub sprints: Vec<Sprint>,
    /// Parent -> child edges.
    pub edges: Vec<(EntityId, EntityId)>,
}

// ---------------------------------------------------------------------------
// Lookups
// ---------------------------------------------------------------------------

/// Index of the first board with `id`.
pub open spec fn board_index(boards: Seq<Board>, id: EntityId) -> Option<int>
    decreases boards.len(),
{
    if boards.len() == 0 {
        None
    } else {
        match board_index(boards.drop_last(), id) {
            Some(i) => Some(i),
            None => if boards.last().id == id {
                Some(boards.len() - 1)
            } else {
                None
            },
        }
    }
}

pub proof fn lemma_board_index(boards: Seq<Board>, id: EntityId)
    ensures
        match board_index(boards, id) {
            Some(i) => 0 <= i < boards.len() && boards[i].id == id && forall|j: int|
                0 <= j < i ==> (#[trigger] boards[j]).id != id,
            None => forall|j: int| 0 <= j < boards.len() ==> (#[trigger] boards[j]).id != id,
        },
    decreases boards.len(),
{
    if boards.len() > 0 {
        lemma_board_index(boards.drop_last(), id);
        assert forall|j: int| 0 <= j < boards.len() - 1 implies (#[trigger] boards[j]) == boards.drop_last()[j] by {}
    }
}

/// Index of the first card with `id`.
pub open spec fn card_index(cards: Seq<Card>, id: EntityId) -> Option<int>
    decreases cards.len(),
{
    if cards.len() == 0 {
        None
    } else {
        match card_index(cards.drop_last(), id) {
            Some(i) => Some(i),
            None => if cards.last().id == id {
                Some(cards.len() - 1)
            } else {
                None
            },
        }
    }
}

pub proof fn lemma_card_index(cards: Seq<Card>, id: EntityId)
    ensures
        match card_index(cards, id) {
            Some(i) => 0 <= i < cards.len() && cards[i].id == id && forall|j: int|
                0 <= j < i ==> (#[trigger] cards[j]).id != id,
            None => forall|j: int| 0 <= j < cards.len() ==> (#[trigger] cards[j]).id != id,
        },
    decreases cards.len(),
{
    if cards.len() > 0 {
        lemma_card_index(cards.drop_last(), id);
        assert forall|j: int| 0 <= j < cards.len() - 1 implies (#[trigger] cards[j]) == cards.drop_last()[j] by {}
    }
}

/// Board owning the first column with `column_id`.
pub open spec fn column_board(columns: Seq<Column>, column_id: EntityId) -> Option<EntityId>
    decreases columns.len(),
{
    if columns.len() == 0 {
        None
    } else {
        match column_board(columns.drop_last(), column_id) {
            Some(b) => Some(b),
            None => if columns.last().id == column_id {
                Some(columns.last().board_id)
            } else {
                None
            },
        }
    }
}

/// Ids of the columns of `board_id`.
pub open spec fn board_column_ids(columns: Seq<Column>, board_id: EntityId) -> Set<EntityId> {
    Set::new(|c: EntityId| exists|i: int| 0 <= i < columns.len() && #[trigger] columns[i].board_id == board_id && columns[i].id == c)
}

/// Number of elements of `s` satisfying `p`.
pub open spec fn count_where<A>(s: Seq<A>, p: spec_fn(A) -> bool) -> nat
    decreases s.len(),
{
    if s.len() == 0 {
        0
    } else {
        count_where(s.drop_last(), p) + if p(s.last()) { 1nat } else { 0nat }
    }
}

pub proof fn lemma_count_where_bounded<A>(s: Seq<A>, p: spec_fn(A) -> bool)
    ensures
        count_where(s, p) <= s.len(),
    decreases s.len(),
{
    if s.len() > 0 {
        lemma_count_where_bounded(s.drop_last(), p);
    }
}

/// Ids, in stored order, of the boards that are (or are not) archived.
pub open spec fn board_ids_where_archived(boards: Seq<Board>, archived: bool) -> Seq<EntityId>
    decreases boards.len(),
{
    if boards.len() == 0 {
        seq![]
    } else {
        let rest = board_ids_where_archived(boards.drop_last(), archived);
        if boards.last().archived == archived {
            rest.push(boards.last().id)
        } else {
            rest
        }
    }
}

/// Whether a card carries an archive marker.
pub open spec fn is_archived_card(markers: Seq<ArchivedCard>, card_id: EntityId) -> bool {
    exists|i: int| 0 <= i < markers.len() && #[trigger] markers[i].card_id == card_id
}

// ---------------------------------------------------------------------------
// The parent/child graph
// ---------------------------------------------------------------------------

/// `to` can be reached from `from` over at most `steps` edges (at least one).
pub open spec fn reaches(edges: Seq<(EntityId, EntityId)>, from: EntityId, to: EntityId, steps: nat) -> bool
    decreases steps,
{
    if steps == 0 {
        false
    } else {
        exists|i: int|
            0 <= i < edges.len() && (#[trigger] edges[i]).0 == from && (edges[i].1 == to || reaches(
                edges,
                edges[i].1,
                to,
                (steps - 1) as nat,
            ))
    }
}

/// `to` is a descendant of `from`: reachable over one or more parent -> child edges.
pub open spec fn is_descendant(edges: Seq<(EntityId, EntityId)>, from: EntityId, to: EntityId) -> bool {
    exists|steps: nat| reaches(edges, from, to, steps)
}

/// The edges turned around (child -> parent).
pub open spec fn flipped(edges: Seq<(EntityId, EntityId)>) -> Seq<(EntityId, EntityId)> {
    edges.map_values(|e: (EntityId, EntityId)| (e.1, e.0))
}

/// `to` is an ancestor of `from`.
pub open spec fn is_ancestor(edges: Seq<(EntityId, EntityId)>, from: EntityId, to: EntityId) -> bool {
    is_descendant(edges, to, from)
}

/// Direct children of `card`, in edge order.
pub open spec fn children_of(edges: Seq<(EntityId, EntityId)>, card: EntityId) -> Seq<EntityId>
    decreases edges.len(),
{
    if edges.len() == 0 {
        seq![]
    } else {
        let rest = children_of(edges.drop_last(), card);
        if edges.last().0 == card {
            rest.push(edges.last().1)
        } else {
            rest
        }
    }
}

/// Direct parents of `card`, in edge order.
pub open spec fn parents_of(edges: Seq<(EntityId, EntityId)>, card: EntityId) -> Seq<EntityId> {
    children_of(flipped(edges), card)
}

pub(crate) proof fn lemma_reaches_monotone(edges: Seq<(EntityId, EntityId)>, from: EntityId, to: EntityId, n: nat, m: nat)
    requires
        reaches(edges, from, to, n),
        n <= m,
    ensures
        reaches(edges, from, to, m),
    decreases n,
{
    let i = choose|i: int|
        0 <= i < edges.len() && (#[trigger] edges[i]).0 == from && (edges[i].1 == to || reaches(
            edges,
            edges[i].1,
            to,
            (n - 1) as nat,
        ));
    if edges[i].1 != to {
        lemma_reaches_monotone(edges, edges[i].1, to, (n - 1) as nat, (m - 1) as nat);
    }
    assert(0 <= i < edges.len() && edges[i].0 == from && (edges[i].1 == to || reaches(
        edges,
        edges[i].1,
        to,
        (m - 1) as nat,
    )));
}

/// A path followed by one more edge is a path.
proof fn lemma_reaches_extend(
    edges: Seq<(EntityId, EntityId)>,
    from: EntityId,
    mid: EntityId,
    to: EntityId,
    n: nat,
    k: int,
)
    requires
        reaches(edges, from, mid, n),
        0 <= k < edges.len(),
        edges[k] == (mid, to),
    ensures
        reaches(edges, from, to, n + 1),
    decreases n,
{
    let i = choose|i: int|
        0 <= i < edges.len() && (#[trigger] edges[i]).0 == from && (edges[i].1 == mid || reaches(
            edges,
            edges[i].1,
            mid,
            (n - 1) as nat,
        ));
    if edges[i].1 == mid {
        assert(reaches(edges, mid, to, 1)) by {
            assert(edges[k].0 == mid && edges[k].1 == to);
        }
        lemma_reaches_monotone(edges, mid, to, 1, n);
    } else {
        lemma_reaches_extend(edges, edges[i].1, mid, to, (n - 1) as nat, k);
    }
    assert(edges[i].0 == from && reaches(edges, edges[i].1, to, n));
}

/// Adding the edge `parent -> child` puts `child` on a cycle only when
/// `child` already was on one, is `parent` itself, or already reaches
/// `parent`.
pub(crate) proof fn lemma_new_edge_paths(
    edges: Seq<(EntityId, EntityId)>,
    parent: EntityId,
    child: EntityId,
    from: EntityId,
    to: EntityId,
    n: nat,
)
    requires
        reaches(edges.push((parent, child)), from, to, n),
    ensures
        is_descendant(edges, from, to) || from == parent || is_descendant(edges, from, parent),
    decreases n,
{
    let new_edges = edges.push((parent, child));
    let i = choose|i: int|
        0 <= i < new_edges.len() && (#[trigger] new_edges[i]).0 == from && (new_edges[i].1 == to || reaches(
            new_edges,
            new_edges[i].1,
            to,
            (n - 1) as nat,
        ));
    if i == edges.len() {
        assert(from == parent);
    } else {
        assert(new_edges[i] == edges[i]);
        let w = edges[i].1;
        if w == to {
            assert(reaches(edges, from, to, 1));
        } else {
            lemma_new_edge_paths(edges, parent, child, w, to, (n - 1) as nat);
            if is_descendant(edges, w, to) {
                let m = choose|m: nat| reaches(edges, w, to, m);
                assert(reaches(edges, from, to, m + 1));
            } else if w == parent {
                assert(reaches(edges, from, parent, 1));
            } else {
                let m = choose|m: nat| reaches(edges, w, parent, m);
                assert(reaches(edges, from, parent, m + 1));
            }
        }
    }
}

/// Attaching a parent that is neither the card itself nor one of its
/// descendants never puts the card on a cycle.
pub proof fn law_attach_parent_keeps_card_off_cycles(
    edges: Seq<(EntityId, EntityId)>,
    parent: EntityId,
    card: EntityId,
)
    requires
        !is_descendant(edges, card, card),
        parent != card,
        !is_descendant(edges, card, parent),
    ensures
        !is_descendant(edges.push((parent, card)), card, card),
{
    if is_descendant(edges.push((parent, card)), card, card) {
        let n = choose|n: nat| reaches(edges.push((parent, card)), card, card, n);
        lemma_new_edge_paths(edges, parent, card, card, card, n);
    }
}

/// Paths of the graph with the edge `parent -> child` added: a path either
/// existed before, or ends at `child`, or continues from `child`.
pub(crate) proof fn lemma_new_edge_paths_from_child(
    edges: Seq<(EntityId, EntityId)>,
    parent: EntityId,
    child: EntityId,
    from: EntityId,
    to: EntityId,
    n: nat,
)
    requires
        reaches(edges.push((parent, child)), from, to, n),
    ensures
        is_descendant(edges, from, to) || child == to || is_descendant(edges, child, to),
    decreases n,
{
    let new_edges = edges.push((parent, child));
    let i = choose|i: int|
        0 <= i < new_edges.len() && (#[trigger] new_edges[i]).0 == from && (new_edges[i].1 == to || reaches(
            new_edges,
            new_edges[i].1,
            to,
            (n - 1) as nat,
        ));
    let w = new_edges[i].1;
    if i == edges.len() {
        if w != to {
            lemma_new_edge_paths_from_child(edges, parent, child, w, to, (n - 1) as nat);
        }
    } else {
        assert(new_edges[i] == edges[i]);
        if w == to {
            assert(reaches(edges, from, to, 1));
        } else {
            lemma_new_edge_paths_from_child(edges, parent, child, w, to, (n - 1) as nat);
            if is_descendant(edges, w, to) {
                let m = choose|m: nat| reaches(edges, w, to, m);
                assert(reaches(edges, from, to, m + 1));
            }
        }
    }
}

/// Attaching a child that is neither the card itself nor one of its
/// ancestors never puts the card on a cycle.
pub proof fn law_attach_child_keeps_card_off_cycles(
    edges: Seq<(EntityId, EntityId)>,
    card: EntityId,
    child: EntityId,
)
    requires
        !is_descendant(edges, card, card),
        child != card,
        !is_ancestor(edges, card, child),
    ensures
        !is_descendant(edges.push((card, child)), card, card),
{
    if is_descendant(edges.push((card, child)), card, card) {
        let n = choose|n: nat| reaches(edges.push((card, child)), card, card, n);
        lemma_new_edge_paths_from_child(edges, card, child, card, card, n);
    }
}

/// Turning every edge around turns every path around.
pub proof fn lemma_reaches_flipped(edges: Seq<(EntityId, EntityId)>, from: EntityId, to: EntityId, n: nat)
    requires
        reaches(edges, from, to, n),
    ensures
        reaches(flipped(edges), to, from, n),
    decreases n,
{
    let f = flipped(edges);
    let i = choose|i: int|
        0 <= i < edges.len() && (#[trigger] edges[i]).0 == from && (edges[i].1 == to || reaches(
            edges,
            edges[i].1,
            to,
            (n - 1) as nat,
        ));
    assert(f[i] == (edges[i].1, edges[i].0));
    let w = edges[i].1;
    if w == to {
        assert(reaches(f, to, from, 1));
        lemma_reaches_monotone(f, to, from, 1, n);
    } else {
        lemma_reaches_flipped(edges, w, to, (n - 1) as nat);
        lemma_reaches_extend(f, to, w, from, (n - 1) as nat, i);
    }
}

pub proof fn lemma_flipped_twice(edges: Seq<(EntityId, EntityId)>)
    ensures
        flipped(flipped(edges)) == edges,
{
    assert(flipped(flipped(edges)) =~= edges);
}

/// Ancestors are the descendants over the turned-around edges.
pub proof fn lemma_ancestor_is_flipped_descendant(edges: Seq<(EntityId, EntityId)>, from: EntityId, to: EntityId)
    ensures
        is_ancestor(edges, from, to) <==> is_descendant(flipped(edges), from, to),
{
    if is_ancestor(edges, from, to) {
        let n = choose|n: nat| reaches(edges, to, from, n);
        lemma_reaches_flipped(edges, to, from, n);
    }
    if is_descendant(flipped(edges), from, to) {
        let n = choose|n: nat| reaches(flipped(edges), from, to, n);
        lemma_reaches_flipped(flipped(edges), from, to, n);
        lemma_flipped_twice(edges);
    }
}


// ---------------------------------------------------------------------------
// Graph queries
// ---------------------------------------------------------------------------

/// Whether `ids` holds `id`.
pub fn contains_id(ids: &Vec<EntityId>, id: EntityId) -> (r: bool)
    ensures
        r == ids@.contains(id),
{
    let mut i: usize = 0;
    while i < ids.len()
        invariant
            i <= ids@.len(),
            forall|j: int| 0 <= j < i ==> ids@[j] != id,
        decreases ids@.len() - i,
    {
        if ids[i] == id {
            return true;
        }
        i = i + 1;
    }
    false
}

/// The targets of the edges.
pub open spec fn edge_targets(edges: Seq<(EntityId, EntityId)>) -> Set<EntityId> {
    edges.map_values(|e: (EntityId, EntityId)| e.1).to_set()
}

proof fn lemma_distinct_targets_bounded(edges: Seq<(EntityId, EntityId)>, ids: Seq<EntityId>)
    requires
        ids.no_duplicates(),
        forall|x: EntityId| ids.contains(x) ==> #[trigger] edge_targets(edges).contains(x),
    ensures
        ids.len() <= edges.len(),
{
    let targets = edges.map_values(|e: (EntityId, EntityId)| e.1);
    ids.unique_seq_to_set();
    targets.lemma_cardinality_of_set();
    assert forall|x: EntityId| ids.to_set().contains(x) implies targets.to_set().contains(x) by {
        assert(ids.contains(x));
        assert(edge_targets(edges).contains(x));
    }
    assert(ids.to_set().subset_of(targets.to_set()));
    vstd::set_lib::lemma_len_subset(ids.to_set(), targets.to_set());
}

/// A set closed under the edges leaving `root` or its own members holds all
/// descendants of `root`.
proof fn lemma_closed_holds_descendants(
    edges: Seq<(EntityId, EntityId)>,
    root: EntityId,
    ids: Seq<EntityId>,
    from: EntityId,
    to: EntityId,
    n: nat,
)
    requires
        forall|k: int|
            0 <= k < edges.len() && ((#[trigger] edges[k]).0 == root || ids.contains(edges[k].0)) ==> ids.contains(
                edges[k].1,
            ),
        from == root || ids.contains(from),
        reaches(edges, from, to, n),
    ensures
        ids.contains(to),
    decreases n,
{
    let i = choose|i: int|
        0 <= i < edges.len() && (#[trigger] edges[i]).0 == from && (edges[i].1 == to || reaches(
            edges,
            edges[i].1,
            to,
            (n - 1) as nat,
        ));
    if edges[i].1 != to {
        lemma_closed_holds_descendants(edges, root, ids, edges[i].1, to, (n - 1) as nat);
    }
}

/// All descendants of `card`, each once.
pub fn descendants(edges: &Vec<(EntityId, EntityId)>, card: EntityId) -> (r: Vec<EntityId>)
    ensures
        r@.no_duplicates(),
        forall|x: EntityId| r@.contains(x) <==> is_descendant(edges@, card, x),
{
    let mut result: Vec<EntityId> = Vec::new();
    loop
        invariant
            result@.no_duplicates(),
            forall|x: EntityId| result@.contains(x) ==> is_descendant(edges@, card, x),
            forall|x: EntityId| result@.contains(x) ==> #[trigger] edge_targets(edges@).contains(x),
            result@.len() <= edges@.len(),
        ensures
            result@.no_duplicates(),
            forall|x: EntityId| result@.contains(x) ==> is_descendant(edges@, card, x),
            forall|k: int|
                0 <= k < edges@.len() && ((#[trigger] edges@[k]).0 == card || result@.contains(edges@[k].0))
                    ==> result@.contains(edges@[k].1),
        decreases edges@.len() - result@.len(),
    {
        let ghost start = result@;
        let mut changed = false;
        let mut k: usize = 0;
        while k < edges.len()
            invariant
                k <= edges@.len(),
                result@.no_duplicates(),
                forall|x: EntityId| result@.contains(x) ==> is_descendant(edges@, card, x),
                forall|x: EntityId| result@.contains(x) ==> #[trigger] edge_targets(edges@).contains(x),
                result@.len() <= edges@.len(),
                !changed ==> result@ == start,
                changed ==> result@.len() > start.len(),
                !changed ==> forall|j: int|
                    0 <= j < k && ((#[trigger] edges@[j]).0 == card || start.contains(edges@[j].0))
                        ==> start.contains(edges@[j].1),
            decreases edges@.len() - k,
        {
            let (p, c) = edges[k];
            if (p == card || contains_id(&result, p)) && !contains_id(&result, c) {
                proof {
                    assert(edges@[k as int] == (p, c));
                    if p == card {
                        assert(reaches(edges@, card, c, 1));
                    } else {
                        let n = choose|n: nat| reaches(edges@, card, p, n);
                        lemma_reaches_extend(edges@, card, p, c, n, k as int);
                        assert(reaches(edges@, card, c, n + 1));
                    }
                    assert(is_descendant(edges@, card, c));
                    assert(edges@.map_values(|e: (EntityId, EntityId)| e.1)[k as int] == c);
                    assert(edge_targets(edges@).contains(c));
                }
                let ghost before = result@;
                result.push(c);
                proof {
                    assert forall|x: EntityId| result@.contains(x) implies before.contains(x) || x == c by {
                        if result@.contains(x) {
                            let j = choose|j: int| 0 <= j < result@.len() && result@[j] == x;
                            if j < before.len() {
                                assert(before[j] == x);
                            }
                        }
                    }
                    assert forall|x: EntityId| result@.contains(x) implies is_descendant(edges@, card, x) by {
                        if result@.contains(x) {
                            let j = choose|j: int| 0 <= j < result@.len() && result@[j] == x;
                            if j < before.len() {
                                assert(before[j] == x);
                                assert(before.contains(x));
                            }
                        }
                    }
                    assert forall|x: EntityId| result@.contains(x) implies #[trigger] edge_targets(
                        edges@,
                    ).contains(x) by {}
                    lemma_distinct_targets_bounded(edges@, result@);
                }
                changed = true;
            }
            k = k + 1;
        }
        if !changed {
            break;
        }
    }
    proof {
        assert forall|x: EntityId| is_descendant(edges@, card, x) implies result@.contains(x) by {
            let n = choose|n: nat| reaches(edges@, card, x, n);
            lemma_closed_holds_descendants(edges@, card, result@, card, x, n);
        }
    }
    result
}

/// The edges turned around.
pub fn flip_edges(edges: &Vec<(EntityId, EntityId)>) -> (r: Vec<(EntityId, EntityId)>)
    ensures
        r@ == flipped(edges@),
{
    let mut r: Vec<(EntityId, EntityId)> = Vec::new();
    let mut i: usize = 0;
    while i < edges.len()
        invariant
            i <= edges@.len(),
            r@ == flipped(edges@.take(i as int)),
        decreases edges@.len() - i,
    {
        let (p, c) = edges[i];
        r.push((c, p));
        assert(flipped(edges@.take(i + 1)) =~= flipped(edges@.take(i as int)).push((c, p)));
        i = i + 1;
    }
    assert(edges@.take(edges@.len() as int) =~= edges@);
    r
}

/// All ancestors of `card`, each once.
pub fn ancestors(edges: &Vec<(EntityId, EntityId)>, card: EntityId) -> (r: Vec<EntityId>)
    ensures
        r@.no_duplicates(),
        forall|x: EntityId| r@.contains(x) <==> is_ancestor(edges@, card, x),
{
    let turned = flip_edges(edges);
    let r = descendants(&turned, card);
    proof {
        assert forall|x: EntityId| r@.contains(x) <==> is_ancestor(edges@, card, x) by {
            lemma_ancestor_is_flipped_descendant(edges@, card, x);
        }
    }
    r
}

/// Direct children of `card`, in edge order.
pub fn children(edges: &Vec<(EntityId, EntityId)>, card: EntityId) -> (r: Vec<EntityId>)
    ensures
        r@ == children_of(edges@, card),
{
    let mut r: Vec<EntityId> = Vec::new();
    let mut i: usize = 0;
    while i < edges.len()
        invariant
            i <= edges@.len(),
            r@ == children_of(edges@.take(i as int), card),
        decreases edges@.len() - i,
    {
        assert(edges@.take(i + 1).drop_last() =~= edges@.take(i as int));
        let (p, c) = edges[i];
        if p == card {
            r.push(c);
        }
        i = i + 1;
    }
    assert(edges@.take(edges@.len() as int) =~= edges@);
    r
}

/// Direct parents of `card`, in edge order.
pub fn parents(edges: &Vec<(EntityId, EntityId)>, card: EntityId) -> (r: Vec<EntityId>)
    ensures
        r@ == parents_of(edges@, card),
{
    let turned = flip_edges(edges);
    children(&turned, card)
}


// ---------------------------------------------------------------------------
// Model queries
// ---------------------------------------------------------------------------

impl KanbanModel {
    pub fn new() -> (r: Self)
        ensures
            r.boards@.len() == 0,
            r.columns@.len() == 0,
            r.cards@.len() == 0,
            r.archived_cards@.len() == 0,
            r.sprints@.len() == 0,
            r.edges@.len() == 0,
    {
        KanbanModel {
            boards: Vec::new(),
            columns: Vec::new(),
            cards: Vec::new(),
            archived_cards: Vec::new(),
            sprints: Vec::new(),
            edges: Vec::new(),
        }
    }

    /// Index of the board with `id`.
    pub fn board_by_id(&self, id: EntityId) -> (r: Option<usize>)
        ensures
            match r {
                Some(i) => board_index(self.boards@, id) == Some(i as int),
                None => board_index(self.boards@, id).is_none(),
            },
            match r {
                Some(i) => i < self.boards@.len() && self.boards@[i as int].id == id,
                None => true,
            },
    {
        proof {
            lemma_board_index(self.boards@, id);
        }
        let mut i: usize = 0;
        while i < self.boards.len()
            invariant
                i <= self.boards@.len(),
                forall|j: int| 0 <= j < i ==> (#[trigger] self.boards@[j]).id != id,
                match board_index(self.boards@, id) {
                    Some(k) => 0 <= k < self.boards@.len() && self.boards@[k].id == id && forall|j: int|
                        0 <= j < k ==> (#[trigger] self.boards@[j]).id != id,
                    None => forall|j: int| 0 <= j < self.boards@.len() ==> (#[trigger] self.boards@[j]).id != id,
                },
            decreases self.boards@.len() - i,
        {
            if self.boards[i].id == id {
                return Some(i);
            }
            i = i + 1;
        }
        None
    }

    /// Index of the card with `id`.
    pub fn card_by_id(&self, id: EntityId) -> (r: Option<usize>)
        ensures
            match r {
                Some(i) => card_index(self.cards@, id) == Some(i as int),
                None => card_index(self.cards@, id).is_none(),
            },
            match r {
                Some(i) => i < self.cards@.len() && self.cards@[i as int].id == id,
                None => true,
            },
    {
        proof {
            lemma_card_index(self.cards@, id);
        }
        let mut i: usize = 0;
        while i < self.cards.len()
            invariant
                i <= self.cards@.len(),
                forall|j: int| 0 <= j < i ==> (#[trigger] self.cards@[j]).id != id,
                match card_index(self.cards@, id) {
                    Some(k) => 0 <= k < self.cards@.len() && self.cards@[k].id == id && forall|j: int|
                        0 <= j < k ==> (#[trigger] self.cards@[j]).id != id,
                    None => forall|j: int| 0 <= j < self.cards@.len() ==> (#[trigger] self.cards@[j]).id != id,
                },
            decreases self.cards@.len() - i,
        {
            if self.cards[i].id == id {
                return Some(i);
            }
            i = i + 1;
        }
        None
    }

    /// Board owning column `column_id`.
    pub fn board_of_column(&self, column_id: EntityId) -> (r: Option<EntityId>)
        ensures
            r == column_board(self.columns@, column_id),
    {
        let mut found: Option<EntityId> = None;
        let mut i: usize = 0;
        while i < self.columns.len()
            invariant
                i <= self.columns@.len(),
                found == column_board(self.columns@.take(i as int), column_id),
            decreases self.columns@.len() - i,
        {
            assert(self.columns@.take(i + 1).drop_last() =~= self.columns@.take(i as int));
            if found.is_none() && self.columns[i].id == column_id {
                found = Some(self.columns[i].board_id);
            }
            i = i + 1;
        }
        assert(self.columns@.take(self.columns@.len() as int) =~= self.columns@);
        found
    }

    /// Ids, in stored order, of the live (or the archived) boards.
    pub fn displayed_board_ids(&self, archived: bool) -> (r: Vec<EntityId>)
        ensures
            r@ == board_ids_where_archived(self.boards@, archived),
            r@.len() <= self.boards@.len(),
    {
        let mut r: Vec<EntityId> = Vec::new();
        let mut i: usize = 0;
        while i < self.boards.len()
            invariant
                i <= self.boards@.len(),
                r@ == board_ids_where_archived(self.boards@.take(i as int), archived),
                r@.len() <= i,
            decreases self.boards@.len() - i,
        {
            assert(self.boards@.take(i + 1).drop_last() =~= self.boards@.take(i as int));
            if self.boards[i].archived == archived {
                r.push(self.boards[i].id);
            }
            i = i + 1;
        }
        assert(self.boards@.take(self.boards@.len() as int) =~= self.boards@);
        r
    }

    /// Number of sprints of `board_id`.
    pub fn sprint_count_for_board(&self, board_id: EntityId) -> (r: usize)
        ensures
            r == count_where(self.sprints@, |s: Sprint| s.board_id == board_id),
    {
        let ghost p = |s: Sprint| s.board_id == board_id;
        let mut n: usize = 0;
        let mut i: usize = 0;
        while i < self.sprints.len()
            invariant
                i <= self.sprints@.len(),
                p == (|s: Sprint| s.board_id == board_id),
                n == count_where(self.sprints@.take(i as int), p),
                n <= i,
            decreases self.sprints@.len() - i,
        {
            assert(self.sprints@.take(i + 1).drop_last() =~= self.sprints@.take(i as int));
            if self.sprints[i].board_id == board_id {
                n = n + 1;
            }
            i = i + 1;
        }
        assert(self.sprints@.take(self.sprints@.len() as int) =~= self.sprints@);
        n
    }

    /// Number of columns of `board_id`.
    pub fn column_count_for_board(&self, board_id: EntityId) -> (r: usize)
        ensures
            r == count_where(self.columns@, |c: Column| c.board_id == board_id),
    {
        let ghost p = |c: Column| c.board_id == board_id;
        let mut n: usize = 0;
        let mut i: usize = 0;
        while i < self.columns.len()
            invariant
                i <= self.columns@.len(),
                p == (|c: Column| c.board_id == board_id),
                n == count_where(self.columns@.take(i as int), p),
                n <= i,
            decreases self.columns@.len() - i,
        {
            assert(self.columns@.take(i + 1).drop_last() =~= self.columns@.take(i as int));
            if self.columns[i].board_id == board_id {
                n = n + 1;
            }
            i = i + 1;
        }
        assert(self.columns@.take(self.columns@.len() as int) =~= self.columns@);
        n
    }

    /// Ids of the columns of `board_id`, in stored order.
    pub fn column_ids_for_board(&self, board_id: EntityId) -> (r: Vec<EntityId>)
        ensures
            forall|c: EntityId| r@.contains(c) <==> board_column_ids(self.columns@, board_id).contains(c),
    {
        let mut r: Vec<EntityId> = Vec::new();
        let mut i: usize = 0;
        while i < self.columns.len()
            invariant
                i <= self.columns@.len(),
                forall|c: EntityId|
                    r@.contains(c) <==> exists|j: int|
                        0 <= j < i && #[trigger] self.columns@[j].board_id == board_id && self.columns@[j].id == c,
            decreases self.columns@.len() - i,
        {
            let ghost before = r@;
            if self.columns[i].board_id == board_id {
                r.push(self.columns[i].id);
                proof {
                    assert forall|c: EntityId|
                        r@.contains(c) <==> exists|j: int|
                            0 <= j < i + 1 && #[trigger] self.columns@[j].board_id == board_id && self.columns@[j].id
                                == c by {
                        if r@.contains(c) && c != self.columns@[i as int].id {
                            let k = choose|k: int| 0 <= k < r@.len() && r@[k] == c;
                            assert(before[k] == c);
                            assert(before.contains(c));
                        }
                        if c == self.columns@[i as int].id {
                            assert(r@[r@.len() - 1] == c);
                        }
                        if exists|j: int|
                            0 <= j < i && #[trigger] self.columns@[j].board_id == board_id && self.columns@[j].id == c {
                            assert(before.contains(c));
                            let k = choose|k: int| 0 <= k < before.len() && before[k] == c;
                            assert(r@[k] == c);
                        }
                    }
                }
            }
            i = i + 1;
        }
        r
    }

    /// Whether card `card_id` carries an archive marker.
    pub fn is_card_archived(&self, card_id: EntityId) -> (r: bool)
        ensures
            r == is_archived_card(self.archived_cards@, card_id),
    {
        let mut i: usize = 0;
        while i < self.archived_cards.len()
            invariant
                i <= self.archived_cards@.len(),
                forall|j: int| 0 <= j < i ==> (#[trigger] self.archived_cards@[j]).card_id != card_id,
            decreases self.archived_cards@.len() - i,
        {
            if self.archived_cards[i].card_id == card_id {
                return true;
            }
            i = i + 1;
        }
        false
    }
}


// ---------------------------------------------------------------------------
// Store operations
// ---------------------------------------------------------------------------

/// Why a store operation was refused.
#[derive(Debug, Clone, Copy, PartialEq, Eq, Structural)]
pub enum StoreError {
    BoardNotFound,
}

/// Cards of the columns in `columns`.
pub open spec fn in_columns(cols: Set<EntityId>) -> spec_fn(Card) -> bool {
    |c: Card| cols.contains(c.column_id)
}

/// Ids of the cards kept by a board deletion are those outside the board's columns.
pub open spec fn removed_card(cards: Seq<Card>, cols: Set<EntityId>, id: EntityId) -> bool {
    exists|i: int| 0 <= i < cards.len() && #[trigger] cards[i].id == id && cols.contains(cards[i].column_id)
}

/// `boards` with board `bi`'s tasks sorted by `field` in `order`.
pub open spec fn with_task_sort(boards: Seq<Board>, bi: int, field: SortField, order: SortOrder) -> Seq<Board> {
    boards.update(bi, Board { task_sort_field: field, task_sort_order: order, ..boards[bi] })
}

impl KanbanModel {
    /// Sorts the tasks of board `bi` by `field` in `order`.
    pub fn set_board_task_sort(&mut self, bi: usize, field: SortField, order: SortOrder)
        requires
            bi < old(self).boards@.len(),
        ensures
            final(self).boards@ == with_task_sort(old(self).boards@, bi as int, field, order),
            final(self).columns == old(self).columns,
            final(self).cards == old(self).cards,
            final(self).archived_cards == old(self).archived_cards,
            final(self).sprints == old(self).sprints,
            final(self).edges == old(self).edges,
    {
        let ghost before = self.boards@;
        {
            let b = &mut self.boards[bi];
            b.task_sort_field = field;
            b.task_sort_order = order;
        }
        proof {
            assert(self.boards@ =~= with_task_sort(before, bi as int, field, order));
        }
    }
}

impl KanbanModel {
    /// Marks board `board_id` archived (or live again).
    pub fn set_board_archived(&mut self, board_id: EntityId, archived: bool) -> (r: Result<(), StoreError>)
        ensures
            match board_index(old(self).boards@, board_id) {
                Some(i) => r is Ok && final(self).boards@ == old(self).boards@.update(
                    i,
                    Board { archived: archived, ..old(self).boards@[i] },
                ),
                None => r == Err::<(), StoreError>(StoreError::BoardNotFound) && *final(self) == *old(self),
            },
            final(self).columns@ == old(self).columns@,
            final(self).cards@ == old(self).cards@,
            final(self).archived_cards@ == old(self).archived_cards@,
            final(self).sprints@ == old(self).sprints@,
            final(self).edges@ == old(self).edges@,
    {
        match self.board_by_id(board_id) {
            Some(i) => {
                let mut board = self.boards.remove(i);
                board.archived = archived;
                self.boards.insert(i, board);
                Ok(())
            },
            None => Err(StoreError::BoardNotFound),
        }
    }

    /// Deletes board `board_id` with its columns, their cards, its archived
    /// cards, its sprints and the relationship edges of the deleted cards.
    pub fn delete_board_subtree(&mut self, board_id: EntityId) -> (r: Result<(), StoreError>)
        ensures
            board_index(old(self).boards@, board_id).is_none() ==> r == Err::<(), StoreError>(
                StoreError::BoardNotFound,
            ) && *final(self) == *old(self),
            board_index(old(self).boards@, board_id).is_some() ==> {
                let cols = board_column_ids(old(self).columns@, board_id);
                &&& r is Ok
                &&& final(self).boards@ == old(self).boards@.filter(|b: Board| b.id != board_id)
                &&& final(self).columns@ == old(self).columns@.filter(|c: Column| c.board_id != board_id)
                &&& final(self).cards@ == old(self).cards@.filter(|c: Card| !cols.contains(c.column_id))
                &&& final(self).archived_cards@ == old(self).archived_cards@.filter(
                    |a: ArchivedCard| a.board_id != board_id,
                )
                &&& final(self).sprints@ == old(self).sprints@.filter(|s: Sprint| s.board_id != board_id)
                &&& final(self).edges@ == old(self).edges@.filter(
                    |e: (EntityId, EntityId)|
                        !removed_card(old(self).cards@, cols, e.0) && !removed_card(old(self).cards@, cols, e.1),
                )
            },
    {
        if self.board_by_id(board_id).is_none() {
            return Err(StoreError::BoardNotFound);
        }
        let col_ids = self.column_ids_for_board(board_id);
        let ghost cols = board_column_ids(self.columns@, board_id);
        let ghost old_cards = self.cards@;

        // ids of the deleted cards
        let mut removed: Vec<EntityId> = Vec::new();
        let mut k: usize = 0;
        while k < self.cards.len()
            invariant
                k <= self.cards@.len(),
                self.cards@ == old_cards,
                forall|x: EntityId| col_ids@.contains(x) <==> cols.contains(x),
                forall|x: EntityId|
                    removed@.contains(x) <==> exists|j: int|
                        0 <= j < k && #[trigger] self.cards@[j].id == x && cols.contains(self.cards@[j].column_id),
            decreases self.cards@.len() - k,
        {
            let ghost before = removed@;
            if contains_id(&col_ids, self.cards[k].column_id) {
                removed.push(self.cards[k].id);
                proof {
                    assert forall|x: EntityId|
                        removed@.contains(x) <==> exists|j: int|
                            0 <= j < k + 1 && #[trigger] self.cards@[j].id == x && cols.contains(self.cards@[j].column_id) by {
                        assert(before.contains(x) <==> exists|j: int|
                            0 <= j < k && #[trigger] self.cards@[j].id == x && cols.contains(self.cards@[j].column_id));
                        assert(cols.contains(self.cards@[k as int].column_id));
                        if removed@.contains(x) {
                            let m = choose|m: int| 0 <= m < removed@.len() && removed@[m] == x;
                            if m < before.len() {
                                assert(before[m] == x);
                                assert(before.contains(x));
                            } else {
                                assert(self.cards@[k as int].id == x);
                            }
                        }
                        if exists|j: int|
                            0 <= j < k + 1 && #[trigger] self.cards@[j].id == x && cols.contains(self.cards@[j].column_id) {
                            let j = choose|j: int|
                                0 <= j < k + 1 && #[trigger] self.cards@[j].id == x && cols.contains(
                                    self.cards@[j].column_id,
                                );
                            if j < k {
                                assert(before.contains(x));
                                let m = choose|m: int| 0 <= m < before.len() && before[m] == x;
                                assert(removed@[m] == x);
                            } else {
                                assert(removed@[before.len() as int] == x);
                            }
                        }
                    }
                }
            } else {
                proof {
                    assert forall|x: EntityId|
                        removed@.contains(x) <==> exists|j: int|
                            0 <= j < k + 1 && #[trigger] self.cards@[j].id == x && cols.contains(self.cards@[j].column_id) by {
                        if exists|j: int|
                            0 <= j < k + 1 && #[trigger] self.cards@[j].id == x && cols.contains(self.cards@[j].column_id) {
                            let j = choose|j: int|
                                0 <= j < k + 1 && #[trigger] self.cards@[j].id == x && cols.contains(
                                    self.cards@[j].column_id,
                                );
                            if j == k {
                                assert(col_ids@.contains(self.cards@[k as int].column_id));
                            }
                        }
                    }
                }
            }
            k = k + 1;
        }

        // boards
        let mut boards = Vec::new();
        std::mem::swap(&mut boards, &mut self.boards);
        let ghost src = boards@;
        let ghost pred = |b: Board| b.id != board_id;
        let mut kept_boards: Vec<Board> = Vec::new();
        for b in it: boards.into_iter()
            invariant
                it.seq() == src,
                pred == (|b: Board| b.id != board_id),
                kept_boards@ == src.take(it.index() as int).filter(pred),
        {
            proof {
                let i = it.index();
                assert(b == src[i as int]);
                assert(src.take(i + 1) =~= src.take(i as int).push(b));
                src.take(i as int).lemma_filter_push(b, pred);
            }
            if b.id != board_id {
                kept_boards.push(b);
            }
        }
        proof {
            assert(src.take(src.len() as int) =~= src);
        }
        self.boards = kept_boards;

        // columns
        let mut columns = Vec::new();
        std::mem::swap(&mut columns, &mut self.columns);
        let ghost src = columns@;
        let ghost pred = |c: Column| c.board_id != board_id;
        let mut kept_columns: Vec<Column> = Vec::new();
        for c in it: columns.into_iter()
            invariant
                it.seq() == src,
                pred == (|c: Column| c.board_id != board_id),
                kept_columns@ == src.take(it.index() as int).filter(pred),
        {
            proof {
                let i = it.index();
                assert(c == src[i as int]);
                assert(src.take(i + 1) =~= src.take(i as int).push(c));
                src.take(i as int).lemma_filter_push(c, pred);
            }
            if c.board_id != board_id {
                kept_columns.push(c);
            }
        }
        proof {
            assert(src.take(src.len() as int) =~= src);
        }
        self.columns = kept_columns;

        // cards
        let mut cards = Vec::new();
        std::mem::swap(&mut cards, &mut self.cards);
        let ghost src = cards@;
        let ghost pred = |c: Card| !cols.contains(c.column_id);
        let mut kept_cards: Vec<Card> = Vec::new();
        for c in it: cards.into_iter()
            invariant
                it.seq() == src,
                pred == (|c: Card| !cols.contains(c.column_id)),
                forall|x: EntityId| col_ids@.contains(x) <==> cols.contains(x),
                kept_cards@ == src.take(it.index() as int).filter(pred),
        {
            proof {
                let i = it.index();
                assert(c == src[i as int]);
                assert(src.take(i + 1) =~= src.take(i as int).push(c));
                src.take(i as int).lemma_filter_push(c, pred);
            }
            if !contains_id(&col_ids, c.column_id) {
                kept_cards.push(c);
            }
        }
        proof {
            assert(src.take(src.len() as int) =~= src);
        }
        self.cards = kept_cards;

        // archived markers
        let mut markers = Vec::new();
        std::mem::swap(&mut markers, &mut self.archived_cards);
        let ghost src = markers@;
        let ghost pred = |a: ArchivedCard| a.board_id != board_id;
        let mut kept_markers: Vec<ArchivedCard> = Vec::new();
        for a in it: markers.into_iter()
            invariant
                it.seq() == src,
                pred == (|a: ArchivedCard| a.board_id != board_id),
                kept_markers@ == src.take(it.index() as int).filter(pred),
        {
            proof {
                let i = it.index();
                assert(a == src[i as int]);
                assert(src.take(i + 1) =~= src.take(i as int).push(a));
                src.take(i as int).lemma_filter_push(a, pred);
            }
            if a.board_id != board_id {
                kept_markers.push(a);
            }
        }
        proof {
            assert(src.take(src.len() as int) =~= src);
        }
        self.archived_cards = kept_markers;

        // sprints
        let mut sprints = Vec::new();
        std::mem::swap(&mut sprints, &mut self.sprints);
        let ghost src = sprints@;
        let ghost pred = |s: Sprint| s.board_id != board_id;
        let mut kept_sprints: Vec<Sprint> = Vec::new();
        for s in it: sprints.into_iter()
            invariant
                it.seq() == src,
                pred == (|s: Sprint| s.board_id != board_id),
                kept_sprints@ == src.take(it.index() as int).filter(pred),
        {
            proof {
                let i = it.index();
                assert(s == src[i as int]);
                assert(src.take(i + 1) =~= src.take(i as int).push(s));
                src.take(i as int).lemma_filter_push(s, pred);
            }
            if s.board_id != board_id {
                kept_sprints.push(s);
            }
        }
        proof {
            assert(src.take(src.len() as int) =~= src);
        }
        self.sprints = kept_sprints;

        // edges of the deleted cards
        let mut edges = Vec::new();
        std::mem::swap(&mut edges, &mut self.edges);
        let ghost src = edges@;
        let ghost pred = |e: (EntityId, EntityId)|
            !removed_card(old_cards, cols, e.0) && !removed_card(old_cards, cols, e.1);
        let mut kept_edges: Vec<(EntityId, EntityId)> = Vec::new();
        for e in it: edges.into_iter()
            invariant
                it.seq() == src,
                pred == (|e: (EntityId, EntityId)|
                    !removed_card(old_cards, cols, e.0) && !removed_card(old_cards, cols, e.1)),
                forall|x: EntityId| removed@.contains(x) <==> removed_card(old_cards, cols, x),
                kept_edges@ == src.take(it.index() as int).filter(pred),
        {
            proof {
                let i = it.index();
                assert(e == src[i as int]);
                assert(src.take(i + 1) =~= src.take(i as int).push(e));
                src.take(i as int).lemma_filter_push(e, pred);
            }
            if !contains_id(&removed, e.0) && !contains_id(&removed, e.1) {
                kept_edges.push(e);
            }
        }
        proof {
            assert(src.take(src.len() as int) =~= src);
        }
        self.edges = kept_edges;
        Ok(())
    }
}

} // verus!
