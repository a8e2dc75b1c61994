//! Page boundaries for half-viewport jumping (Ctrl+U / Ctrl+D) and the
//! column-header accounting used by the grouped task list.

use vstd::prelude::*;

verus! {

/// Page boundary with start index and end index (exclusive).
#[derive(Debug, Clone, Copy)]
pub struct PageBoundary {
    pub start: usize,
    pub end: usize,
}

impl PageBoundary {
    pub open spec fn covers(self, index: int) -> bool {
        self.start <= index < self.end
    }

    pub open spec fn width(self) -> nat {
        if self.end >= self.start {
            (self.end - self.start) as nat
        } else {
            0
        }
    }

    pub fn contains(&self, index: usize) -> (r: bool)
        ensures
            r == self.covers(index as int),
    {
        index >= self.start && index < self.end
    }

    pub fn size(&self) -> (r: usize)
        ensures
            r == self.width(),
    {
        if self.end >= self.start {
            self.end - self.start
        } else {
            0
        }
    }
}

/// A column header is drawn in the viewport `[scroll_offset, scroll_offset + viewport_height)`
/// when at least one card of its column (`(start_index, card_count)`) lies in that range.
pub open spec fn header_visible(boundary: (usize, usize), scroll_offset: int, viewport_height: int) -> bool {
    &&& boundary.0 < scroll_offset + viewport_height
    &&& boundary.0 + boundary.1 > scroll_offset
}

/// Number of column headers drawn in a viewport.
pub open spec fn headers_in_viewport(
    boundaries: Seq<(usize, usize)>,
    scroll_offset: int,
    viewport_height: int,
) -> nat
    decreases boundaries.len(),
{
    if boundaries.len() == 0 {
        0
    } else {
        headers_in_viewport(boundaries.drop_last(), scroll_offset, viewport_height) + if header_visible(
            boundaries.last(),
            scroll_offset,
            viewport_height,
        ) {
            1nat
        } else {
            0nat
        }
    }
}

/// Column boundaries whose end index fits in a `usize`.
pub open spec fn boundaries_fit(boundaries: Seq<(usize, usize)>) -> bool {
    forall|i: int| 0 <= i < boundaries.len() ==> #[trigger] boundaries[i].0 + boundaries[i].1 <= usize::MAX
}

pub proof fn lemma_headers_bounded(boundaries: Seq<(usize, usize)>, scroll_offset: int, viewport_height: int)
    ensures
        headers_in_viewport(boundaries, scroll_offset, viewport_height) <= boundaries.len(),
    decreases boundaries.len(),
{
    if boundaries.len() > 0 {
        lemma_headers_bounded(boundaries.drop_last(), scroll_offset, viewport_height);
    }
}

/// Count how many column headers will appear in the viewport.
/// A boundary is relevant if any of its cards appear in the visible range.
pub fn count_headers_in_viewport(
    column_boundaries: &[(usize, usize)],
    scroll_offset: usize,
    viewport_height: usize,
) -> (count: usize)
    requires
        scroll_offset + viewport_height <= usize::MAX,
        boundaries_fit(column_boundaries@),
    ensures
        count == headers_in_viewport(column_boundaries@, scroll_offset as int, viewport_height as int),
{
    if column_boundaries.len() == 0 {
        return 0;
    }
    let viewport_end = scroll_offset + viewport_height;
    let mut count: usize = 0;
    let mut i: usize = 0;
    while i < column_boundaries.len()
        invariant
            i <= column_boundaries@.len(),
            viewport_end == scroll_offset + viewport_height,
            boundaries_fit(column_boundaries@),
            count == headers_in_viewport(
                column_boundaries@.take(i as int),
                scroll_offset as int,
                viewport_height as int,
            ),
            count <= i,
        decreases column_boundaries@.len() - i,
    {
        let (start_index, card_count) = column_boundaries[i];
        assert(column_boundaries@.take(i + 1).drop_last() =~= column_boundaries@.take(i as int));
        assert(column_boundaries@[i as int].0 + column_boundaries@[i as int].1 <= usize::MAX);
        let boundary_end = start_index + card_count;
        if start_index < viewport_end && boundary_end > scroll_offset {
            count = count + 1;
        }
        i = i + 1;
    }
    assert(column_boundaries@.take(column_boundaries@.len() as int) =~= column_boundaries@);
    count
}


/// Size of the first page: one line is taken by the "below" indicator.
pub open spec fn first_page_size_for(viewport_height: nat) -> nat {
    if viewport_height >= 2 { (viewport_height - 1) as nat } else { 1 }
}

/// Size of a middle page: both indicators are drawn.
pub open spec fn middle_page_size_for(viewport_height: nat) -> nat {
    if viewport_height >= 3 { (viewport_height - 2) as nat } else { 1 }
}

pub open spec fn min_nat(a: nat, b: nat) -> nat {
    if a <= b { a } else { b }
}

pub open spec fn page(start: nat, end: nat) -> PageBoundary {
    PageBoundary { start: start as usize, end: end as usize }
}

/// Pages after the first one, starting at `current`: a page is a last page
/// (up to `viewport_height - 1` items) once the remainder fits, otherwise a
/// middle page of `viewport_height - 2` items.
pub open spec fn pages_from(current: nat, total: nat, viewport_height: nat) -> Seq<PageBoundary>
    decreases total - current,
{
    if current >= total {
        seq![]
    } else {
        let remaining = (total - current) as nat;
        let page_size = if remaining <= first_page_size_for(viewport_height) {
            first_page_size_for(viewport_height)
        } else {
            middle_page_size_for(viewport_height)
        };
        let end = min_nat(current + page_size, total);
        seq![page(current, end)].add(pages_from(end, total, viewport_height))
    }
}

/// The variable-sized pages of a list of `total` items in a viewport of
/// `viewport_height` lines.
pub open spec fn page_boundaries(total: nat, viewport_height: nat) -> Seq<PageBoundary> {
    if total == 0 || viewport_height == 0 {
        seq![]
    } else {
        let first_end = min_nat(first_page_size_for(viewport_height), total);
        seq![page(0, first_end)].add(pages_from(first_end, total, viewport_height))
    }
}

/// Compute variable-sized page boundaries for jumping navigation.
///
/// Pages are sized based on position:
/// - First page: viewport_height - 1 (only "below" indicator)
/// - Middle pages: viewport_height - 2 (both indicators)
/// - Last page: remaining items (only "above" indicator, can use up to viewport_height - 1)
pub fn compute_page_boundaries(total_items: usize, viewport_height: usize) -> (pages: Vec<PageBoundary>)
    requires
        total_items + viewport_height <= usize::MAX,
    ensures
        pages@ == page_boundaries(total_items as nat, viewport_height as nat),
{
    if total_items == 0 || viewport_height == 0 {
        return Vec::new();
    }
    let ghost vh = viewport_height as nat;
    let ghost total = total_items as nat;

    let mut pages: Vec<PageBoundary> = Vec::new();

    let first_page_size: usize = if viewport_height >= 2 { viewport_height - 1 } else { 1 };
    let first_page_end: usize = if first_page_size <= total_items { first_page_size } else { total_items };
    pages.push(PageBoundary { start: 0, end: first_page_end });
    let mut current_idx: usize = first_page_end;

    let middle_page_size: usize = if viewport_height >= 3 { viewport_height - 2 } else { 1 };
    let last_page_max_size: usize = first_page_size;

    assert(pages@ == seq![page(0, first_page_end as nat)]);
    while current_idx < total_items
        invariant
            current_idx <= total_items,
            total_items + viewport_height <= usize::MAX,
            vh == viewport_height,
            total == total_items,
            total > 0,
            vh > 0,
            middle_page_size == middle_page_size_for(vh),
            last_page_max_size == first_page_size_for(vh),
            last_page_max_size <= viewport_height,
            middle_page_size <= viewport_height,
            pages@.add(pages_from(current_idx as nat, total, vh)) == page_boundaries(total, vh),
        decreases total_items - current_idx,
    {
        let remaining = total_items - current_idx;
        let is_last_page = remaining <= last_page_max_size;
        let page_size = if is_last_page { last_page_max_size } else { middle_page_size };
        let sum = current_idx + page_size;
        let page_end = if sum <= total_items { sum } else { total_items };
        let ghost before = pages@;
        pages.push(PageBoundary { start: current_idx, end: page_end });
        proof {
            let rest = pages_from(page_end as nat, total, vh);
            assert(pages_from(current_idx as nat, total, vh) == seq![page(current_idx as nat, page_end as nat)].add(rest));
            assert(pages@ =~= before.push(page(current_idx as nat, page_end as nat)));
            assert(pages@.add(rest) =~= before.add(seq![page(current_idx as nat, page_end as nat)].add(rest)));
        }
        current_idx = page_end;
    }
    proof {
        assert(pages_from(current_idx as nat, total, vh) == Seq::<PageBoundary>::empty());
        assert(pages@.add(Seq::<PageBoundary>::empty()) =~= pages@);
    }
    pages
}


/// Pages of the grouped view starting at `current`: the base size of a page
/// shrinks by the number of column headers drawn over its range, and every
/// page holds at least one card.
pub open spec fn header_pages_from(
    current: nat,
    total: nat,
    viewport_height: nat,
    boundaries: Seq<(usize, usize)>,
    is_first: bool,
) -> Seq<PageBoundary>
    decreases total - current,
{
    if current >= total {
        seq![]
    } else {
        let remaining = (total - current) as nat;
        let base_size = if is_first {
            first_page_size_for(viewport_height)
        } else if remaining <= first_page_size_for(viewport_height) {
            first_page_size_for(viewport_height)
        } else {
            middle_page_size_for(viewport_height)
        };
        let headers = headers_in_viewport(boundaries, current as int, base_size as int);
        let adjusted = if base_size >= headers { (base_size - headers) as nat } else { 0nat };
        let actual = if adjusted >= 1 { adjusted } else { 1nat };
        let end = min_nat(current + actual, total);
        seq![page(current, end)].add(header_pages_from(end, total, viewport_height, boundaries, false))
    }
}

/// The pages of the grouped view (column headers take viewport lines).
pub open spec fn header_page_boundaries(
    total: nat,
    viewport_height: nat,
    boundaries: Seq<(usize, usize)>,
) -> Seq<PageBoundary> {
    if total == 0 || viewport_height == 0 {
        seq![]
    } else {
        header_pages_from(0, total, viewport_height, boundaries, true)
    }
}

/// Compute page boundaries for grouped view, accounting for column headers causing overflow
///
/// Headers take up viewport space, so we need to dynamically reduce page sizes
/// to ensure cards don't spill into the next page when rendered.
pub fn compute_page_boundaries_with_headers(
    total_items: usize,
    viewport_height: usize,
    column_boundaries: &[(usize, usize)],
) -> (pages: Vec<PageBoundary>)
    requires
        total_items + viewport_height <= usize::MAX,
        boundaries_fit(column_boundaries@),
    ensures
        pages@ == header_page_boundaries(total_items as nat, viewport_height as nat, column_boundaries@),
{
    if total_items == 0 || viewport_height == 0 {
        return Vec::new();
    }
    let ghost vh = viewport_height as nat;
    let ghost total = total_items as nat;
    let ghost bs = column_boundaries@;

    let mut pages: Vec<PageBoundary> = Vec::new();
    let mut current_idx: usize = 0;
    let first_page_base: usize = if viewport_height >= 2 { viewport_height - 1 } else { 1 };
    let middle_page_base: usize = if viewport_height >= 3 { viewport_height - 2 } else { 1 };
    let last_page_base: usize = first_page_base;

    let mut is_first_page = true;

    while current_idx < total_items
        invariant
            current_idx <= total_items,
            total_items + viewport_height <= usize::MAX,
            vh == viewport_height,
            total == total_items,
            bs == column_boundaries@,
            boundaries_fit(column_boundaries@),
            total > 0,
            vh > 0,
            first_page_base == first_page_size_for(vh),
            middle_page_base == middle_page_size_for(vh),
            last_page_base == first_page_size_for(vh),
            first_page_base <= viewport_height,
            middle_page_base <= viewport_height,
            pages@.add(header_pages_from(current_idx as nat, total, vh, bs, is_first_page))
                == header_page_boundaries(total, vh, bs),
        decreases total_items - current_idx,
    {
        let remaining = total_items - current_idx;
        let is_last_page = remaining <= last_page_base;
        let base_size = if is_first_page {
            first_page_base
        } else if is_last_page {
            last_page_base
        } else {
            middle_page_base
        };

        let headers_count = count_headers_in_viewport(column_boundaries, current_idx, base_size);
        let adjusted_size = if base_size >= headers_count { base_size - headers_count } else { 0 };
        let actual_size = if adjusted_size >= 1 { adjusted_size } else { 1 };

        let sum = current_idx + actual_size;
        let page_end = if sum <= total_items { sum } else { total_items };
        let ghost before = pages@;
        pages.push(PageBoundary { start: current_idx, end: page_end });
        proof {
            let rest = header_pages_from(page_end as nat, total, vh, bs, false);
            assert(header_pages_from(current_idx as nat, total, vh, bs, is_first_page)
                == seq![page(current_idx as nat, page_end as nat)].add(rest));
            assert(pages@ =~= before.push(page(current_idx as nat, page_end as nat)));
            assert(pages@.add(rest) =~= before.add(seq![page(current_idx as nat, page_end as nat)].add(rest)));
        }
        current_idx = page_end;
        is_first_page = false;
    }
    proof {
        assert(header_pages_from(current_idx as nat, total, vh, bs, is_first_page) == Seq::<PageBoundary>::empty());
        assert(pages@.add(Seq::<PageBoundary>::empty()) =~= pages@);
    }
    pages
}

/// Page `i` is the first page covering `index`.
pub open spec fn first_cover(pages: Seq<PageBoundary>, index: int, i: int) -> bool {
    &&& 0 <= i < pages.len()
    &&& pages[i].covers(index)
    &&& forall|j: int| 0 <= j < i ==> !(#[trigger] pages[j].covers(index))
}

/// The first page covering `index`, if any.
pub open spec fn page_of(pages: Seq<PageBoundary>, index: int) -> Option<int> {
    if exists|i: int| first_cover(pages, index, i) {
        Some(choose|i: int| first_cover(pages, index, i))
    } else {
        None
    }
}

proof fn lemma_first_cover_unique(pages: Seq<PageBoundary>, index: int, i: int)
    requires
        first_cover(pages, index, i),
    ensures
        page_of(pages, index) == Some(i),
{
    let k = choose|k: int| first_cover(pages, index, k);
    if k < i {
        assert(!pages[k].covers(index));
    } else if i < k {
        assert(!pages[i].covers(index));
    }
}

/// Find which page contains the given index
pub fn find_current_page(pages: &[PageBoundary], index: usize) -> (r: Option<usize>)
    ensures
        match r {
            Some(i) => page_of(pages@, index as int) == Some(i as int),
            None => page_of(pages@, index as int).is_none(),
        },
        match r {
            Some(i) => i < pages@.len() && pages@[i as int].covers(index as int) && forall|j: int|
                0 <= j < i ==> !(#[trigger] pages@[j].covers(index as int)),
            None => forall|j: int| 0 <= j < pages@.len() ==> !(#[trigger] pages@[j].covers(index as int)),
        },
{
    let mut i: usize = 0;
    while i < pages.len()
        invariant
            i <= pages@.len(),
            forall|j: int| 0 <= j < i ==> !(#[trigger] pages@[j].covers(index as int)),
        decreases pages@.len() - i,
    {
        if pages[i].contains(index) {
            proof {
                lemma_first_cover_unique(pages@, index as int, i as int);
            }
            return Some(i);
        }
        i = i + 1;
    }
    proof {
        if exists|k: int| first_cover(pages@, index as int, k) {
            let k = choose|k: int| first_cover(pages@, index as int, k);
            assert(!pages@[k].covers(index as int));
        }
    }
    None
}


/// Largest end index over all pages (0 when there are none).
pub open spec fn max_page_end(pages: Seq<PageBoundary>) -> nat
    decreases pages.len(),
{
    if pages.len() == 0 {
        0
    } else {
        let rest = max_page_end(pages.drop_last());
        if pages.last().end as nat >= rest {
            pages.last().end as nat
        } else {
            rest
        }
    }
}

/// Target of a page-down jump: top -> middle -> bottom -> top of the next page,
/// never past the last item.
pub open spec fn jump_down_target(pages: Seq<PageBoundary>, current: int, page_idx: int) -> int {
    let p = pages[page_idx];
    let size = p.width() as int;
    let position = current - p.start;
    if size == 0 {
        current
    } else {
        let raw = if position < size / 2 {
            p.start + size / 2
        } else if position < size - 1 {
            p.end - 1
        } else if page_idx < pages.len() - 1 {
            pages[page_idx + 1].start as int
        } else {
            current
        };
        let cap = if max_page_end(pages) >= 1 { max_page_end(pages) - 1 } else { 0 };
        if raw <= cap { raw } else { cap }
    }
}

/// Target of a page-up jump: bottom -> middle -> top -> bottom of the previous page.
pub open spec fn jump_up_target(pages: Seq<PageBoundary>, current: int, page_idx: int) -> int {
    let p = pages[page_idx];
    let size = p.width() as int;
    let position = current - p.start;
    if size == 0 {
        current
    } else if position > size / 2 {
        p.start + size / 2
    } else if position > 0 {
        p.start as int
    } else if page_idx > 0 {
        pages[page_idx - 1].end - 1
    } else {
        current
    }
}

/// Largest page end, as computed by the jump functions.
fn largest_page_end(pages: &[PageBoundary]) -> (r: usize)
    ensures
        r == max_page_end(pages@),
{
    let mut best: usize = 0;
    let mut i: usize = 0;
    while i < pages.len()
        invariant
            i <= pages@.len(),
            best == max_page_end(pages@.take(i as int)),
        decreases pages@.len() - i,
    {
        assert(pages@.take(i + 1).drop_last() =~= pages@.take(i as int));
        if pages[i].end >= best {
            best = pages[i].end;
        }
        i = i + 1;
    }
    assert(pages@.take(pages@.len() as int) =~= pages@);
    best
}

/// Calculate jump target for page-down navigation (Ctrl+D style)
/// Implements three-level navigation: top -> middle -> bottom -> next page
pub fn calculate_jump_target_down(
    pages: &[PageBoundary],
    current_index: usize,
    current_page_idx: usize,
) -> (target: usize)
    requires
        current_page_idx < pages@.len(),
        pages@[current_page_idx as int].start <= current_index,
    ensures
        target == jump_down_target(pages@, current_index as int, current_page_idx as int),
{
    let current_page = pages[current_page_idx];
    let position_in_page = current_index - current_page.start;
    let page_size = current_page.size();

    if page_size == 0 {
        return current_index;
    }

    let raw = if position_in_page < page_size / 2 {
        current_page.start + page_size / 2
    } else if position_in_page < page_size - 1 {
        current_page.end - 1
    } else if current_page_idx < pages.len() - 1 {
        pages[current_page_idx + 1].start
    } else {
        current_index
    };
    let largest = largest_page_end(pages);
    let cap = if largest >= 1 { largest - 1 } else { 0 };
    if raw <= cap { raw } else { cap }
}

/// The previous page of a page-up jump from the top of a page must not be
/// empty at index 0 (its last index is computed as `end - 1`).
pub open spec fn jump_up_defined(pages: Seq<PageBoundary>, current: int, page_idx: int) -> bool {
    let p = pages[page_idx];
    (p.width() > 0 && current == p.start && page_idx > 0) ==> pages[page_idx - 1].end >= 1
}

/// Calculate jump target for page-up navigation (Ctrl+U style)
/// Implements three-level navigation: bottom -> middle -> top -> previous page
pub fn calculate_jump_target_up(
    pages: &[PageBoundary],
    current_index: usize,
    current_page_idx: usize,
) -> (target: usize)
    requires
        current_page_idx < pages@.len(),
        pages@[current_page_idx as int].start <= current_index,
        jump_up_defined(pages@, current_index as int, current_page_idx as int),
    ensures
        target == jump_up_target(pages@, current_index as int, current_page_idx as int),
{
    let current_page = pages[current_page_idx];
    let position_in_page = current_index - current_page.start;
    let page_size = current_page.size();

    if page_size == 0 {
        return current_index;
    }

    if position_in_page > page_size / 2 {
        current_page.start + page_size / 2
    } else if position_in_page > 0 {
        current_page.start
    } else if current_page_idx > 0 {
        pages[current_page_idx - 1].end - 1
    } else {
        current_index
    }
}


/// `pages` cover `[from, total)` in order: consecutive, non-empty, without gaps.
pub open spec fn tiles(pages: Seq<PageBoundary>, from: int, total: int) -> bool {
    &&& pages.len() == 0 ==> from == total
    &&& pages.len() > 0 ==> pages[0].start == from && pages.last().end == total
    &&& forall|i: int| 0 <= i < pages.len() ==> (#[trigger] pages[i]).start < pages[i].end
    &&& forall|i: int| 0 <= i < pages.len() - 1 ==> (#[trigger] pages[i]).end == pages[i + 1].start
}

/// Every page holds between `lo` and `hi` items.
pub open spec fn widths_within(pages: Seq<PageBoundary>, lo: nat, hi: nat) -> bool {
    forall|i: int| 0 <= i < pages.len() ==> lo <= (#[trigger] pages[i]).width() <= hi
}

proof fn lemma_cons_tiles(p: PageBoundary, rest: Seq<PageBoundary>, total: int, lo: nat, hi: nat)
    requires
        p.start < p.end,
        tiles(rest, p.end as int, total),
        widths_within(rest, lo, hi),
        lo <= p.width() <= hi,
    ensures
        tiles(seq![p].add(rest), p.start as int, total),
        widths_within(seq![p].add(rest), lo, hi),
{
    let s = seq![p].add(rest);
    assert(s[0] == p);
    assert forall|i: int| 1 <= i < s.len() implies #[trigger] s[i] == rest[i - 1] by {}
    if rest.len() == 0 {
        assert(s.last() == p);
    } else {
        assert(s.last() == rest.last());
    }
    assert forall|i: int| 0 <= i < s.len() - 1 implies (#[trigger] s[i]).end == s[i + 1].start by {
        if i == 0 {
            assert(s[1] == rest[0]);
        } else {
            assert(s[i] == rest[i - 1]);
            assert(s[i + 1] == rest[i]);
        }
    }
    assert forall|i: int| 0 <= i < s.len() implies (#[trigger] s[i]).start < s[i].end && lo <= s[i].width()
        <= hi by {
        if i > 0 {
            assert(s[i] == rest[i - 1]);
        }
    }
}

proof fn lemma_pages_from_tile(current: nat, total: nat, viewport_height: nat)
    requires
        current <= total,
        total <= usize::MAX,
    ensures
        tiles(pages_from(current, total, viewport_height), current as int, total as int),
        widths_within(pages_from(current, total, viewport_height), 1, first_page_size_for(viewport_height)),
    decreases total - current,
{
    if current < total {
        let remaining = (total - current) as nat;
        let page_size = if remaining <= first_page_size_for(viewport_height) {
            first_page_size_for(viewport_height)
        } else {
            middle_page_size_for(viewport_height)
        };
        let end = min_nat(current + page_size, total);
        lemma_pages_from_tile(end, total, viewport_height);
        lemma_cons_tiles(
            page(current, end),
            pages_from(end, total, viewport_height),
            total as int,
            1,
            first_page_size_for(viewport_height),
        );
    }
}

proof fn lemma_header_pages_from_tile(
    current: nat,
    total: nat,
    viewport_height: nat,
    boundaries: Seq<(usize, usize)>,
    is_first: bool,
)
    requires
        current <= total,
        total <= usize::MAX,
    ensures
        tiles(header_pages_from(current, total, viewport_height, boundaries, is_first), current as int, total as int),
        widths_within(
            header_pages_from(current, total, viewport_height, boundaries, is_first),
            1,
            first_page_size_for(viewport_height),
        ),
    decreases total - current,
{
    if current < total {
        let remaining = (total - current) as nat;
        let base_size = if is_first {
            first_page_size_for(viewport_height)
        } else if remaining <= first_page_size_for(viewport_height) {
            first_page_size_for(viewport_height)
        } else {
            middle_page_size_for(viewport_height)
        };
        let headers = headers_in_viewport(boundaries, current as int, base_size as int);
        let adjusted = if base_size >= headers { (base_size - headers) as nat } else { 0nat };
        let actual = if adjusted >= 1 { adjusted } else { 1nat };
        let end = min_nat(current + actual, total);
        lemma_header_pages_from_tile(end, total, viewport_height, boundaries, false);
        lemma_cons_tiles(
            page(current, end),
            header_pages_from(end, total, viewport_height, boundaries, false),
            total as int,
            1,
            first_page_size_for(viewport_height),
        );
    }
}

/// The pages of a list cover every item exactly once, in order; each page
/// holds at least one and at most `viewport_height - 1` items (one item when
/// the viewport has a single line); there are no pages when the list or the
/// viewport is empty.
pub proof fn law_page_boundaries_tile(total: nat, viewport_height: nat)
    requires
        total <= usize::MAX,
    ensures
        (total == 0 || viewport_height == 0) <==> page_boundaries(total, viewport_height).len() == 0,
        viewport_height > 0 ==> tiles(page_boundaries(total, viewport_height), 0, total as int),
        widths_within(page_boundaries(total, viewport_height), 1, first_page_size_for(viewport_height)),
{
    if total > 0 && viewport_height > 0 {
        let first_end = min_nat(first_page_size_for(viewport_height), total);
        lemma_pages_from_tile(first_end, total, viewport_height);
        lemma_cons_tiles(
            page(0, first_end),
            pages_from(first_end, total, viewport_height),
            total as int,
            1,
            first_page_size_for(viewport_height),
        );
    } else if total == 0 && viewport_height > 0 {
        assert(tiles(page_boundaries(total, viewport_height), 0, total as int));
    }
}

/// The first page holds `viewport_height - 1` items (or all of them when
/// fewer); every page strictly between the first and the last holds
/// `viewport_height - 2` items and starts more than `viewport_height - 1`
/// items before the end (else it would be the last page).
pub proof fn law_page_sizes(total: nat, viewport_height: nat)
    requires
        total <= usize::MAX,
        total > 0,
        viewport_height > 0,
    ensures
        page_boundaries(total, viewport_height)[0].width() == min_nat(first_page_size_for(viewport_height), total),
        forall|i: int|
            0 < i < page_boundaries(total, viewport_height).len() - 1 ==> (#[trigger] page_boundaries(
                total,
                viewport_height,
            )[i]).width() == middle_page_size_for(viewport_height) && total - page_boundaries(
                total,
                viewport_height,
            )[i].start > first_page_size_for(viewport_height),
{
    let first_end = min_nat(first_page_size_for(viewport_height), total);
    let pages = page_boundaries(total, viewport_height);
    lemma_middle_pages(first_end, total, viewport_height);
    let rest = pages_from(first_end, total, viewport_height);
    assert forall|i: int| 0 < i < pages.len() - 1 implies (#[trigger] pages[i]).width() == middle_page_size_for(
        viewport_height,
    ) && total - pages[i].start > first_page_size_for(viewport_height) by {
        assert(pages[i] == rest[i - 1]);
    }
}

proof fn lemma_middle_pages(current: nat, total: nat, viewport_height: nat)
    requires
        current <= total,
        total <= usize::MAX,
    ensures
        forall|i: int|
            0 <= i < pages_from(current, total, viewport_height).len() - 1 ==> (#[trigger] pages_from(
                current,
                total,
                viewport_height,
            )[i]).width() == middle_page_size_for(viewport_height) && total - pages_from(
                current,
                total,
                viewport_height,
            )[i].start > first_page_size_for(viewport_height),
    decreases total - current,
{
    if current < total {
        let s = pages_from(current, total, viewport_height);
        let remaining = (total - current) as nat;
        let page_size = if remaining <= first_page_size_for(viewport_height) {
            first_page_size_for(viewport_height)
        } else {
            middle_page_size_for(viewport_height)
        };
        let end = min_nat(current + page_size, total);
        let rest = pages_from(end, total, viewport_height);
        lemma_middle_pages(end, total, viewport_height);
        assert forall|i: int| 0 <= i < s.len() - 1 implies (#[trigger] s[i]).width() == middle_page_size_for(
            viewport_height,
        ) && total - s[i].start > first_page_size_for(viewport_height) by {
            if i == 0 {
                // the first of these pages is followed by another one, so the
                // remainder did not fit in a last page
                assert(rest.len() > 0);
                if remaining <= first_page_size_for(viewport_height) {
                    assert(end == total);
                    assert(rest.len() == 0);
                }
            } else {
                assert(s[i] == rest[i - 1]);
            }
        }
    }
}

/// The grouped pages also cover every item exactly once, in order, and
/// every page holds at least one card, however many headers the viewport
/// shows.
pub proof fn law_header_page_boundaries_tile(total: nat, viewport_height: nat, boundaries: Seq<(usize, usize)>)
    requires
        total <= usize::MAX,
    ensures
        (total == 0 || viewport_height == 0) <==> header_page_boundaries(total, viewport_height, boundaries).len()
            == 0,
        viewport_height > 0 ==> tiles(header_page_boundaries(total, viewport_height, boundaries), 0, total as int),
        widths_within(
            header_page_boundaries(total, viewport_height, boundaries),
            1,
            first_page_size_for(viewport_height),
        ),
{
    if total > 0 && viewport_height > 0 {
        lemma_header_pages_from_tile(0, total, viewport_height, boundaries, true);
    }
}


proof fn lemma_tiled_ordered(pages: Seq<PageBoundary>, from: int, total: int, i: int, j: int)
    requires
        tiles(pages, from, total),
        0 <= i < j < pages.len(),
    ensures
        pages[i].end <= pages[j].start,
    decreases j - i,
{
    if j > i + 1 {
        lemma_tiled_ordered(pages, from, total, i, j - 1);
        assert(pages[j - 1].start < pages[j - 1].end);
        assert(pages[j - 1].end == pages[j].start);
    } else {
        assert(pages[i].end == pages[i + 1].start);
    }
}

proof fn lemma_tiled_bounds(pages: Seq<PageBoundary>, from: int, total: int, i: int)
    requires
        tiles(pages, from, total),
        0 <= i < pages.len(),
    ensures
        from <= pages[i].start < pages[i].end <= total,
{
    if i > 0 {
        lemma_tiled_ordered(pages, from, total, 0, i);
        assert(pages[0].start < pages[0].end);
    }
    if i < pages.len() - 1 {
        lemma_tiled_ordered(pages, from, total, i, pages.len() - 1);
        assert(pages.last().start < pages.last().end);
    }
}

proof fn lemma_tiled_max_end(pages: Seq<PageBoundary>, from: int, total: int)
    requires
        tiles(pages, from, total),
        pages.len() > 0,
    ensures
        max_page_end(pages) == total,
{
    let rest = pages.drop_last();
    assert forall|i: int| 0 <= i < rest.len() implies (#[trigger] rest[i]).end <= total by {
        lemma_tiled_bounds(pages, from, total, i);
        assert(rest[i] == pages[i]);
    }
    lemma_max_end_at_most(rest, total);
    assert(pages.last().end == total);
}

proof fn lemma_max_end_at_most(pages: Seq<PageBoundary>, bound: int)
    requires
        forall|i: int| 0 <= i < pages.len() ==> (#[trigger] pages[i]).end <= bound,
    ensures
        max_page_end(pages) <= bound || pages.len() == 0,
        max_page_end(pages) <= if bound >= 0 { bound } else { 0 },
    decreases pages.len(),
{
    if pages.len() > 0 {
        let rest = pages.drop_last();
        assert forall|i: int| 0 <= i < rest.len() implies (#[trigger] rest[i]).end <= bound by {
            assert(rest[i] == pages[i]);
        }
        lemma_max_end_at_most(rest, bound);
    }
}

/// Every index of a tiled list lies on exactly one page; indices outside the
/// list lie on none.
pub proof fn law_tiled_pages_locate(pages: Seq<PageBoundary>, total: int, index: int)
    requires
        tiles(pages, 0, total),
    ensures
        (exists|i: int| 0 <= i < pages.len() && #[trigger] pages[i].covers(index)) <==> 0 <= index < total,
        forall|i: int, j: int|
            0 <= i < pages.len() && 0 <= j < pages.len() && #[trigger] pages[i].covers(index)
                && #[trigger] pages[j].covers(index) ==> i == j,
{
    assert forall|i: int, j: int|
        0 <= i < pages.len() && 0 <= j < pages.len() && #[trigger] pages[i].covers(index)
            && #[trigger] pages[j].covers(index) implies i == j by {
        if i < j {
            lemma_tiled_ordered(pages, 0, total, i, j);
        } else if j < i {
            lemma_tiled_ordered(pages, 0, total, j, i);
        }
    }
    if exists|i: int| 0 <= i < pages.len() && #[trigger] pages[i].covers(index) {
        let i = choose|i: int| 0 <= i < pages.len() && #[trigger] pages[i].covers(index);
        lemma_tiled_bounds(pages, 0, total, i);
    }
    if 0 <= index < total {
        let k = lemma_find_covering(pages, 0, total, index);
        assert(pages[k].covers(index));
    }
}

proof fn lemma_find_covering(pages: Seq<PageBoundary>, from: int, total: int, index: int) -> (k: int)
    requires
        tiles(pages, from, total),
        from <= index < total,
    ensures
        0 <= k < pages.len(),
        pages[k].covers(index),
    decreases pages.len(),
{
    if index < pages[0].end {
        0
    } else {
        let rest = pages.drop_first();
        assert forall|i: int| 0 <= i < rest.len() implies (#[trigger] rest[i]) == pages[i + 1] by {}
        assert(rest.len() > 0) by {
            if rest.len() == 0 {
                assert(pages.last() == pages[0]);
            }
        }
        assert(rest.last() == pages.last());
        assert forall|i: int| 0 <= i < rest.len() - 1 implies (#[trigger] rest[i]).end == rest[i + 1].start by {
            assert(rest[i] == pages[i + 1]);
            assert(rest[i + 1] == pages[i + 2]);
        }
        assert(rest[0].start == pages[0].end) by {
            assert(rest[0] == pages[1]);
        }
        let k = lemma_find_covering(rest, pages[0].end as int, total, index);
        k + 1
    }
}

/// A page-down jump never moves backwards and never leaves the list; a
/// page-up jump never moves forwards, never leaves the list, and is always
/// defined on a tiled list.
pub proof fn law_jump_targets_in_range(pages: Seq<PageBoundary>, total: int, current: int, page_idx: int)
    requires
        tiles(pages, 0, total),
        0 <= page_idx < pages.len(),
        pages[page_idx].covers(current),
    ensures
        current <= jump_down_target(pages, current, page_idx) < total,
        jump_up_defined(pages, current, page_idx),
        0 <= jump_up_target(pages, current, page_idx) <= current,
{
    lemma_tiled_bounds(pages, 0, total, page_idx);
    lemma_tiled_max_end(pages, 0, total);
    if page_idx > 0 {
        lemma_tiled_bounds(pages, 0, total, page_idx - 1);
        assert(pages[page_idx - 1].end == pages[page_idx].start);
    }
    if page_idx < pages.len() - 1 {
        assert(pages[page_idx].end == pages[page_idx + 1].start);
    }
}

/// A wider viewport over the same offset never shows fewer column headers.
pub proof fn law_headers_monotone_in_height(
    boundaries: Seq<(usize, usize)>,
    scroll_offset: int,
    height1: int,
    height2: int,
)
    requires
        height1 <= height2,
    ensures
        headers_in_viewport(boundaries, scroll_offset, height1) <= headers_in_viewport(
            boundaries,
            scroll_offset,
            height2,
        ),
        headers_in_viewport(boundaries, scroll_offset, height1) <= boundaries.len(),
    decreases boundaries.len(),
{
    lemma_headers_bounded(boundaries, scroll_offset, height1);
    if boundaries.len() > 0 {
        law_headers_monotone_in_height(boundaries.drop_last(), scroll_offset, height1, height2);
    }
}

proof fn lemma_no_header_pages(current: nat, total: nat, viewport_height: nat)
    requires
        current <= total,
        viewport_height > 0,
    ensures
        header_pages_from(current, total, viewport_height, seq![], false) == pages_from(
            current,
            total,
            viewport_height,
        ),
    decreases total - current,
{
    if current < total {
        let remaining = (total - current) as nat;
        let base_size = if remaining <= first_page_size_for(viewport_height) {
            first_page_size_for(viewport_height)
        } else {
            middle_page_size_for(viewport_height)
        };
        assert(headers_in_viewport(seq![], current as int, base_size as int) == 0);
        let end = min_nat(current + base_size, total);
        lemma_no_header_pages(end, total, viewport_height);
    }
}

/// Without column headers, the grouped pages are the plain pages.
pub proof fn law_pages_without_headers(total: nat, viewport_height: nat)
    ensures
        header_page_boundaries(total, viewport_height, seq![]) == page_boundaries(total, viewport_height),
{
    if total > 0 && viewport_height > 0 {
        let fp = first_page_size_for(viewport_height);
        assert(headers_in_viewport(seq![], 0, fp as int) == 0);
        let end = min_nat(fp, total);
        lemma_no_header_pages(end, total, viewport_height);
        assert(header_pages_from(0, total, viewport_height, seq![], true) =~= seq![page(0, end)].add(
            pages_from(end, total, viewport_height),
        ));
    }
}

/// Base size of the grouped page that starts at `start`: `viewport_height - 1`
/// for the first page and for a page that can hold the rest of the list,
/// `viewport_height - 2` otherwise.
pub open spec fn header_page_base(total: nat, viewport_height: nat, start: nat, first: bool) -> nat {
    if first || total - start <= first_page_size_for(viewport_height) {
        first_page_size_for(viewport_height)
    } else {
        middle_page_size_for(viewport_height)
    }
}

/// Size of the grouped page that starts at `start`: its base size less the
/// column headers drawn over it, at least one, and no more than what is left.
pub open spec fn header_page_width(
    total: nat,
    viewport_height: nat,
    boundaries: Seq<(usize, usize)>,
    start: nat,
    first: bool,
) -> nat {
    let base = header_page_base(total, viewport_height, start, first);
    let headers = headers_in_viewport(boundaries, start as int, base as int);
    let adjusted = if base >= headers { (base - headers) as nat } else { 0nat };
    let actual = if adjusted >= 1 { adjusted } else { 1nat };
    min_nat(actual, (total - start) as nat)
}

proof fn lemma_header_page_widths(
    current: nat,
    total: nat,
    viewport_height: nat,
    boundaries: Seq<(usize, usize)>,
    is_first: bool,
)
    requires
        current <= total,
        total <= usize::MAX,
    ensures
        forall|i: int|
            0 <= i < header_pages_from(current, total, viewport_height, boundaries, is_first).len() ==> (
            #[trigger] header_pages_from(current, total, viewport_height, boundaries, is_first)[i]).width()
                == header_page_width(
                total,
                viewport_height,
                boundaries,
                header_pages_from(current, total, viewport_height, boundaries, is_first)[i].start as nat,
                is_first && i == 0,
            ),
    decreases total - current,
{
    if current < total {
        let s = header_pages_from(current, total, viewport_height, boundaries, is_first);
        let base_size = header_page_base(total, viewport_height, current, is_first);
        let headers = headers_in_viewport(boundaries, current as int, base_size as int);
        let adjusted = if base_size >= headers { (base_size - headers) as nat } else { 0nat };
        let actual = if adjusted >= 1 { adjusted } else { 1nat };
        let end = min_nat(current + actual, total);
        let rest = header_pages_from(end, total, viewport_height, boundaries, false);
        lemma_header_page_widths(end, total, viewport_height, boundaries, false);
        assert forall|i: int| 0 <= i < s.len() implies (#[trigger] s[i]).width() == header_page_width(
            total,
            viewport_height,
            boundaries,
            s[i].start as nat,
            is_first && i == 0,
        ) by {
            if i > 0 {
                assert(s[i] == rest[i - 1]);
            }
        }
    }
}

/// Each grouped page holds its base size less the headers drawn over it
/// (at least one card, no more than what is left): the first page has base
/// `viewport_height - 1`, a later page `viewport_height - 1` when the rest
/// of the list fits in it and `viewport_height - 2` otherwise.
pub proof fn law_header_page_sizes(total: nat, viewport_height: nat, boundaries: Seq<(usize, usize)>)
    requires
        total <= usize::MAX,
    ensures
        forall|i: int|
            0 <= i < header_page_boundaries(total, viewport_height, boundaries).len() ==> (
            #[trigger] header_page_boundaries(total, viewport_height, boundaries)[i]).width() == header_page_width(
                total,
                viewport_height,
                boundaries,
                header_page_boundaries(total, viewport_height, boundaries)[i].start as nat,
                i == 0,
            ),
{
    if total > 0 && viewport_height > 0 {
        lemma_header_page_widths(0, total, viewport_height, boundaries, true);
    }
}

/// A page-down jump from row `current` of page `page_idx` goes to the middle
/// of the page, to its last row, to the first row of the next page, or stays
/// put, and it stays put only on the last row of the last page; the target
/// lies on the same page or the next one.
pub proof fn law_jump_down_candidates(pages: Seq<PageBoundary>, total: int, current: int, page_idx: int)
    requires
        tiles(pages, 0, total),
        0 <= page_idx < pages.len(),
        pages[page_idx].covers(current),
    ensures
        ({
            let p = pages[page_idx];
            let r = jump_down_target(pages, current, page_idx);
            &&& r == p.start + p.width() / 2 || r == p.end - 1 || (page_idx + 1 < pages.len() && r
                == pages[page_idx + 1].start) || r == current
            &&& (r == current <==> (current == p.end - 1 && page_idx == pages.len() - 1))
            &&& (page_of(pages, r) == Some(page_idx) || page_of(pages, r) == Some(page_idx + 1))
        }),
{
    lemma_tiled_bounds(pages, 0, total, page_idx);
    lemma_tiled_max_end(pages, 0, total);
    let p = pages[page_idx];
    let r = jump_down_target(pages, current, page_idx);
    if page_idx + 1 < pages.len() {
        lemma_tiled_bounds(pages, 0, total, page_idx + 1);
        assert(p.end == pages[page_idx + 1].start);
    }
    law_tiled_pages_locate(pages, total, r);
    if p.covers(r) {
        lemma_first_cover_here(pages, total, r, page_idx);
    } else {
        assert(pages[page_idx + 1].covers(r));
        lemma_first_cover_here(pages, total, r, page_idx + 1);
    }
}

proof fn lemma_first_cover_here(pages: Seq<PageBoundary>, total: int, index: int, i: int)
    requires
        tiles(pages, 0, total),
        0 <= i < pages.len(),
        pages[i].covers(index),
    ensures
        page_of(pages, index) == Some(i),
{
    law_tiled_pages_locate(pages, total, index);
    assert forall|j: int| 0 <= j < i implies !(#[trigger] pages[j].covers(index)) by {
        if pages[j].covers(index) {
            assert(j == i);
        }
    }
    lemma_first_cover_unique(pages, index, i);
}

/// Page-up undoes page-down: from the top, the middle or the last row of a
/// page, a page-down jump that moves is followed by a page-up jump (from the
/// page the target lies on) back to the row it started from.
pub proof fn law_jump_up_undoes_jump_down(pages: Seq<PageBoundary>, total: int, current: int, page_idx: int)
    requires
        tiles(pages, 0, total),
        0 <= page_idx < pages.len(),
        current == pages[page_idx].start || current == pages[page_idx].start + pages[page_idx].width() / 2
            || current == pages[page_idx].end - 1,
        jump_down_target(pages, current, page_idx) != current,
    ensures
        ({
            let r = jump_down_target(pages, current, page_idx);
            let k = if r < pages[page_idx].end {
                page_idx
            } else {
                page_idx + 1
            };
            &&& 0 <= k < pages.len()
            &&& pages[k].covers(r)
            &&& jump_up_target(pages, r, k) == current
        }),
{
    lemma_tiled_bounds(pages, 0, total, page_idx);
    lemma_tiled_max_end(pages, 0, total);
    if page_idx + 1 < pages.len() {
        lemma_tiled_bounds(pages, 0, total, page_idx + 1);
        assert(pages[page_idx].end == pages[page_idx + 1].start);
    }
}

} // verus!
