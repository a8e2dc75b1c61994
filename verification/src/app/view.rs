//! The task-list layouts of the active board: one flat list, one list per
//! column (kanban), or one list grouped under column headers.

use super::components::{kept_offset, lemma_position_of, position_of, resynced_selection, CardList, CardListId};
use super::model::EntityId;
use super::model::TaskListView;
use vstd::prelude::*;

verus! {

/// Largest viewport, in lines (terminal heights are 16-bit).
pub const MAX_VIEWPORT_HEIGHT: usize = 65535;

/// The task lists shown for the active board.
#[derive(Debug)]
pub struct ViewState {
    /// Lines available to a task list.
    pub viewport_height: usize,
    /// Which layout is in use.
    pub layout: TaskListView,
    /// Flat and grouped layouts: one list. Kanban layout: one list per column.
    pub lists: Vec<CardList>,
    /// Kanban layout: the focused column.
    pub active_column: usize,
    /// Grouped layout: `(start_index, card_count)` of each column's run of cards.
    pub column_boundaries: Vec<(usize, usize)>,
}

impl ViewState {
    pub open spec fn well_formed(&self) -> bool {
        &&& self.viewport_height <= MAX_VIEWPORT_HEIGHT
        &&& self.layout != TaskListView::ColumnView ==> self.lists@.len() == 1
        &&& self.layout == TaskListView::ColumnView ==> (self.lists@.len() == 0 || self.active_column
            < self.lists@.len())
        &&& forall|i: int|
            0 <= i < self.lists@.len() ==> (#[trigger] self.lists@[i]).cards@.len() + MAX_VIEWPORT_HEIGHT
                <= usize::MAX && self.lists@[i].well_formed() && self.lists@[i].scroll_offset
                <= self.lists@[i].cards@.len()
        &&& forall|i: int|
            0 <= i < self.column_boundaries@.len() ==> (#[trigger] self.column_boundaries@[i]).0
                + self.column_boundaries@[i].1 <= usize::MAX
    }

    /// Position of the active list in `lists`.
    pub open spec fn active_index(&self) -> int {
        if self.layout == TaskListView::ColumnView {
            self.active_column as int
        } else {
            0
        }
    }

    pub open spec fn has_active_list(&self) -> bool {
        0 <= self.active_index() < self.lists@.len()
    }

    pub open spec fn active_list(&self) -> CardList
        recommends
            self.has_active_list(),
    {
        self.lists@[self.active_index()]
    }

    /// A freshly switched-to layout: no lists yet in the kanban layout, one
    /// empty list otherwise.
    pub open spec fn is_fresh(&self, viewport_height: usize, layout: TaskListView) -> bool {
        &&& self.viewport_height == viewport_height
        &&& self.layout == layout
        &&& self.active_column == 0
        &&& self.column_boundaries@.len() == 0
        &&& layout == TaskListView::ColumnView ==> self.lists@.len() == 0
        &&& layout != TaskListView::ColumnView ==> self.lists@.len() == 1 && self.lists@[0].id == CardListId::All
            && self.lists@[0].cards@.len() == 0 && self.lists@[0].selected.is_none() && self.lists@[0].scroll_offset
            == 0
    }

    pub fn new(viewport_height: usize, layout: TaskListView) -> (r: Self)
        requires
            viewport_height <= MAX_VIEWPORT_HEIGHT,
        ensures
            r.viewport_height == viewport_height,
            r.layout == layout,
            r.active_column == 0,
            r.column_boundaries@.len() == 0,
            layout == TaskListView::ColumnView ==> r.lists@.len() == 0,
            layout != TaskListView::ColumnView ==> r.lists@.len() == 1 && r.lists@[0].id == CardListId::All
                && r.lists@[0].cards@.len() == 0 && r.lists@[0].selected.is_none(),
            r.is_fresh(viewport_height, layout),
            r.well_formed(),
    {
        let mut lists: Vec<CardList> = Vec::new();
        match layout {
            TaskListView::ColumnView => {},
            _ => {
                lists.push(CardList::new(CardListId::All));
            },
        }
        ViewState { viewport_height, layout, lists, active_column: 0, column_boundaries: Vec::new() }
    }

    /// Index of the active list, when there is one.
    pub fn active_list_index(&self) -> (r: Option<usize>)
        ensures
            match r {
                Some(i) => self.has_active_list() && i == self.active_index(),
                None => !self.has_active_list(),
            },
    {
        let idx = match self.layout {
            TaskListView::ColumnView => self.active_column,
            _ => 0,
        };
        if idx < self.lists.len() {
            Some(idx)
        } else {
            None
        }
    }

    /// Number of task lists (columns in the kanban layout).
    pub fn list_count(&self) -> (r: usize)
        ensures
            r == self.lists@.len(),
    {
        self.lists.len()
    }

    /// Length of the active list (0 when there is none).
    pub fn active_len(&self) -> (r: usize)
        ensures
            r == if self.has_active_list() {
                self.active_list().cards@.len()
            } else {
                0
            },
    {
        match self.active_list_index() {
            Some(i) => self.lists[i].len(),
            None => 0,
        }
    }

    /// Selected card of the active list.
    pub open spec fn active_selected_card_spec(&self) -> Option<u128> {
        if self.has_active_list() {
            self.active_list().selected_card()
        } else {
            None
        }
    }

    /// Selected card of the active list.
    pub fn active_selected_card(&self) -> (r: Option<u128>)
        ensures
            r == self.active_selected_card_spec(),
            r == if self.has_active_list() {
                self.active_list().selected_card()
            } else {
                None
            },
    {
        match self.active_list_index() {
            Some(i) => self.lists[i].get_selected_card_id(),
            None => None,
        }
    }

    /// After moving to another column: an empty list is cleared, otherwise
    /// its last row (when asked for) or, without a selection, its first row
    /// is selected.
    pub open spec fn entered_column(list: CardList, select_last: bool) -> CardList {
        if list.cards@.len() == 0 {
            CardList { selected: None, scroll_offset: 0, ..list }
        } else if select_last {
            CardList { selected: Some((list.cards@.len() - 1) as usize), ..list }
        } else if list.selected.is_none() {
            CardList { selected: Some(0usize), ..list }
        } else {
            list
        }
    }

    /// `after` is `before` moved to column `target`, which is entered.
    pub open spec fn moved_to_column(before: ViewState, after: ViewState, target: int, select_last: bool) -> bool {
        &&& after.viewport_height == before.viewport_height
        &&& after.layout == before.layout
        &&& after.column_boundaries@ == before.column_boundaries@
        &&& after.active_column == target
        &&& after.lists@ == before.lists@.update(target, ViewState::entered_column(before.lists@[target], select_last))
    }

    /// Result of a move to the column on the left: only in the kanban
    /// layout, and only when there is one.
    pub open spec fn stepped_left(before: ViewState, after: ViewState, select_last: bool) -> bool {
        if before.layout == TaskListView::ColumnView && before.active_column > 0 && before.lists@.len() > 0 {
            ViewState::moved_to_column(before, after, before.active_column - 1, select_last)
        } else {
            after == before
        }
    }

    /// Result of a move to the column on the right.
    pub open spec fn stepped_right(before: ViewState, after: ViewState, select_last: bool) -> bool {
        if before.layout == TaskListView::ColumnView && before.active_column + 1 < before.lists@.len() {
            ViewState::moved_to_column(before, after, before.active_column + 1, select_last)
        } else {
            after == before
        }
    }

    fn enter_column(list: &mut CardList, select_last: bool)
        ensures
            final(list).id == ViewState::entered_column(*old(list), select_last).id,
            final(list).cards == ViewState::entered_column(*old(list), select_last).cards,
            final(list).selected == ViewState::entered_column(*old(list), select_last).selected,
            final(list).scroll_offset == ViewState::entered_column(*old(list), select_last).scroll_offset,
    {
        if list.is_empty() {
            list.clear();
        } else if select_last {
            let last = list.len() - 1;
            list.set_selected_index(Some(last));
        } else if list.get_selected_index().is_none() {
            list.set_selected_index(Some(0));
        }
    }

    /// Kanban layout: focus the column to the left. Other layouts have no
    /// columns to move between.
    pub fn navigate_left(&mut self, select_last: bool) -> (moved: bool)
        requires
            old(self).well_formed(),
        ensures
            moved == (old(self).layout == TaskListView::ColumnView && old(self).active_column > 0
                && old(self).lists@.len() > 0),
            final(self).viewport_height == old(self).viewport_height,
            final(self).layout == old(self).layout,
            final(self).column_boundaries@ == old(self).column_boundaries@,
            final(self).lists@.len() == old(self).lists@.len(),
            moved ==> final(self).active_column == old(self).active_column - 1,
            !moved ==> final(self).active_column == old(self).active_column && final(self).lists@ == old(self).lists@,
            moved ==> forall|i: int|
                0 <= i < old(self).lists@.len() && i != final(self).active_column ==> final(self).lists@[i]
                    == old(self).lists@[i],
            moved ==> final(self).lists@[final(self).active_column as int].cards@ == old(self).lists@[final(self).active_column as int].cards@,
            moved ==> final(self).lists@[final(self).active_column as int].selected == ViewState::entered_column(
                old(self).lists@[final(self).active_column as int],
                select_last,
            ).selected,
            ViewState::stepped_left(*old(self), *final(self), select_last),
            final(self).well_formed(),
    {
        match self.layout {
            TaskListView::ColumnView => {},
            _ => {
                return false;
            },
        }
        if self.active_column > 0 && self.lists.len() > 0 {
            self.active_column = self.active_column - 1;
            let i = self.active_column;
            Self::enter_column(&mut self.lists[i], select_last);
            assert(self.lists@[i as int] == ViewState::entered_column(old(self).lists@[i as int], select_last));
            assert(self.lists@ =~= old(self).lists@.update(i as int, ViewState::entered_column(old(self).lists@[i as int], select_last)));
            true
        } else {
            false
        }
    }

    /// Kanban layout: focus the column to the right.
    pub fn navigate_right(&mut self, select_last: bool) -> (moved: bool)
        requires
            old(self).well_formed(),
        ensures
            moved == (old(self).layout == TaskListView::ColumnView && old(self).active_column + 1 < old(self).lists@.len()),
            final(self).viewport_height == old(self).viewport_height,
            final(self).layout == old(self).layout,
            final(self).column_boundaries@ == old(self).column_boundaries@,
            final(self).lists@.len() == old(self).lists@.len(),
            moved ==> final(self).active_column == old(self).active_column + 1,
            !moved ==> final(self).active_column == old(self).active_column && final(self).lists@ == old(self).lists@,
            moved ==> forall|i: int|
                0 <= i < old(self).lists@.len() && i != final(self).active_column ==> final(self).lists@[i]
                    == old(self).lists@[i],
            moved ==> final(self).lists@[final(self).active_column as int].cards@ == old(self).lists@[final(self).active_column as int].cards@,
            moved ==> final(self).lists@[final(self).active_column as int].selected == ViewState::entered_column(
                old(self).lists@[final(self).active_column as int],
                select_last,
            ).selected,
            ViewState::stepped_right(*old(self), *final(self), select_last),
            final(self).well_formed(),
    {
        match self.layout {
            TaskListView::ColumnView => {},
            _ => {
                return false;
            },
        }
        if self.lists.len() > 0 && self.active_column < self.lists.len() - 1 {
            self.active_column = self.active_column + 1;
            let i = self.active_column;
            Self::enter_column(&mut self.lists[i], select_last);
            assert(self.lists@[i as int] == ViewState::entered_column(old(self).lists@[i as int], select_last));
            assert(self.lists@ =~= old(self).lists@.update(i as int, ViewState::entered_column(old(self).lists@[i as int], select_last)));
            true
        } else {
            false
        }
    }

    /// Kanban layout: focus column `index` when it exists.
    pub fn set_active_column_index(&mut self, index: usize)
        requires
            old(self).well_formed(),
        ensures
            final(self).viewport_height == old(self).viewport_height,
            final(self).layout == old(self).layout,
            final(self).lists@ == old(self).lists@,
            final(self).column_boundaries@ == old(self).column_boundaries@,
            final(self).active_column == if index < old(self).lists@.len() {
                index
            } else {
                old(self).active_column
            },
            final(self).well_formed(),
    {
        if index < self.lists.len() {
            self.active_column = index;
        }
    }
}


/// The cards of `columns`, one column after another.
pub open spec fn concat_cards(columns: Seq<(EntityId, Vec<EntityId>)>) -> Seq<EntityId>
    decreases columns.len(),
{
    if columns.len() == 0 {
        Seq::empty()
    } else {
        concat_cards(columns.drop_last()) + columns.last().1@
    }
}

/// `(start_index, card_count)` of the run of each column that has cards, in
/// `concat_cards(columns)`; columns without cards get no run.
pub open spec fn column_runs(columns: Seq<(EntityId, Vec<EntityId>)>) -> Seq<(usize, usize)>
    decreases columns.len(),
{
    if columns.len() == 0 {
        Seq::empty()
    } else {
        let earlier = columns.drop_last();
        let n = columns.last().1@.len();
        if n > 0 {
            column_runs(earlier).push((concat_cards(earlier).len() as usize, n as usize))
        } else {
            column_runs(earlier)
        }
    }
}

/// Position of the first list with `id`.
pub open spec fn list_position(lists: Seq<CardList>, id: CardListId) -> Option<int>
    decreases lists.len(),
{
    if lists.len() == 0 {
        None
    } else {
        match list_position(lists.drop_last(), id) {
            Some(i) => Some(i),
            None => if lists.last().id == id {
                Some(lists.len() - 1)
            } else {
                None
            },
        }
    }
}

/// The card that the list of `column` had selected before a refresh.
pub open spec fn previous_selection(lists: Seq<CardList>, column: EntityId) -> Option<EntityId> {
    match list_position(lists, CardListId::Column(column)) {
        Some(i) => lists[i].selected_card(),
        None => None,
    }
}

/// The scroll offset that the list of `column` had before a refresh.
pub open spec fn previous_offset(lists: Seq<CardList>, column: EntityId) -> usize {
    match list_position(lists, CardListId::Column(column)) {
        Some(i) => lists[i].scroll_offset,
        None => 0,
    }
}

/// `list` is the list of `column` rebuilt with `cards`, when `lists` were
/// shown before: the selection stays on the same card when it is still
/// there, and the scroll offset carries over.
pub open spec fn refreshed_column(lists: Seq<CardList>, column: EntityId, cards: Seq<EntityId>, list: CardList) -> bool {
    &&& list.id == CardListId::Column(column)
    &&& list.cards@ == cards
    &&& list.selected == resynced_selection(previous_selection(lists, column), cards)
    &&& list.scroll_offset == kept_offset(previous_offset(lists, column), cards.len())
}

/// `list` is `before` given the cards `cards`.
pub open spec fn refreshed_list(before: CardList, cards: Seq<EntityId>, list: CardList) -> bool {
    &&& list.id == before.id
    &&& list.cards@ == cards
    &&& list.selected == resynced_selection(before.selected_card(), cards)
    &&& list.scroll_offset == kept_offset(before.scroll_offset, cards.len())
}

pub proof fn lemma_list_position(lists: Seq<CardList>, id: CardListId)
    ensures
        match list_position(lists, id) {
            Some(i) => 0 <= i < lists.len() && lists[i].id == id && forall|j: int| 0 <= j < i ==> lists[j].id != id,
            None => forall|j: int| 0 <= j < lists.len() ==> lists[j].id != id,
        },
    decreases lists.len(),
{
    if lists.len() > 0 {
        lemma_list_position(lists.drop_last(), id);
        assert forall|j: int| 0 <= j < lists.len() - 1 implies lists[j] == lists.drop_last()[j] by {}
    }
}

/// A prefix of the columns contributes a prefix of the cards.
pub proof fn lemma_concat_prefix(columns: Seq<(EntityId, Vec<EntityId>)>, k: int)
    requires
        0 <= k <= columns.len(),
    ensures
        concat_cards(columns.take(k)).len() <= concat_cards(columns).len(),
        columns.take(k).len() == k,
    decreases columns.len(),
{
    if k == columns.len() {
        assert(columns.take(k) =~= columns);
    } else {
        assert(columns.take(k) =~= columns.drop_last().take(k));
        lemma_concat_prefix(columns.drop_last(), k);
    }
}

/// Each column has no more cards than all the columns together.
pub proof fn lemma_column_within_concat(columns: Seq<(EntityId, Vec<EntityId>)>, j: int)
    requires
        0 <= j < columns.len(),
    ensures
        columns[j].1@.len() <= concat_cards(columns).len(),
{
    lemma_concat_prefix(columns, j + 1);
    assert(columns.take(j + 1).drop_last() =~= columns.take(j));
    assert(columns.take(j + 1).last() == columns[j]);
}

/// A refresh keeps a column's selected card selected while the card is
/// still in the column.
pub proof fn law_refresh_keeps_selected_card(
    before: Seq<CardList>,
    column: EntityId,
    cards: Seq<EntityId>,
    list: CardList,
)
    requires
        refreshed_column(before, column, cards, list),
        cards.len() <= usize::MAX,
        previous_selection(before, column) matches Some(c) && cards.contains(c),
    ensures
        list.selected_card() == previous_selection(before, column),
{
    let c = previous_selection(before, column)->0;
    lemma_position_of(cards, c);
    let i = position_of(cards, c)->0;
    assert(list.selected == Some(i as usize));
    assert(list.cards@[i] == c);
}

/// The same for the single list of the flat and grouped layouts.
pub proof fn law_list_refresh_keeps_selected_card(before: CardList, cards: Seq<EntityId>, list: CardList)
    requires
        refreshed_list(before, cards, list),
        cards.len() <= usize::MAX,
        before.selected_card() matches Some(c) && cards.contains(c),
    ensures
        list.selected_card() == before.selected_card(),
{
    let c = before.selected_card()->0;
    lemma_position_of(cards, c);
    let i = position_of(cards, c)->0;
    assert(list.selected == Some(i as usize));
    assert(list.cards@[i] == c);
}

/// First position of a list with `id`.
fn find_list(lists: &Vec<CardList>, id: CardListId) -> (r: Option<usize>)
    ensures
        match r {
            Some(i) => list_position(lists@, id) == Some(i as int),
            None => list_position(lists@, id).is_none(),
        },
{
    proof {
        lemma_list_position(lists@, id);
    }
    let mut i: usize = 0;
    while i < lists.len()
        invariant
            i <= lists@.len(),
            forall|j: int| 0 <= j < i ==> lists@[j].id != id,
            match list_position(lists@, id) {
                Some(k) => 0 <= k < lists@.len() && lists@[k].id == id && forall|j: int| 0 <= j < k ==> lists@[j].id != id,
                None => forall|j: int| 0 <= j < lists@.len() ==> lists@[j].id != id,
            },
        decreases lists@.len() - i,
    {
        if lists[i].id == id {
            return Some(i);
        }
        i = i + 1;
    }
    None
}

impl ViewState {
    /// Kanban layout: the focused column.
    pub fn get_active_column_index(&self) -> (r: usize)
        ensures
            r == self.active_column,
    {
        self.active_column
    }

    /// Grouped layout: `(start_index, card_count)` of each column's run.
    pub fn get_column_boundaries(&self) -> (r: &[(usize, usize)])
        ensures
            r@ == self.column_boundaries@,
    {
        self.column_boundaries.as_slice()
    }

    /// The list of column `column` rebuilt with `cards`, carrying over the
    /// selected card and the scroll offset of its list in `lists`.
    fn rebuild_column(lists: &Vec<CardList>, column: EntityId, cards: Vec<EntityId>) -> (r: CardList)
        ensures
            refreshed_column(lists@, column, cards@, r),
            r.well_formed(),
            r.scroll_offset <= r.cards@.len(),
    {
        proof {
            lemma_list_position(lists@, CardListId::Column(column));
        }
        let existing = find_list(lists, CardListId::Column(column));
        let (prev_card, prev_offset) = match existing {
            Some(i) => (lists[i].get_selected_card_id(), lists[i].scroll_offset),
            None => (None, 0),
        };
        let mut list = CardList::new(CardListId::Column(column));
        list.update_cards(cards);
        if let Some(card) = prev_card {
            list.select_card(card);
        }
        let n = list.len();
        let offset = if prev_offset > n {
            n
        } else {
            prev_offset
        };
        list.set_scroll_offset(offset);
        list
    }

    /// Fills the task lists from the cards the task query matched:
    /// `board_cards` for the whole board (flat layout) and `columns`, the
    /// board's columns in display order with their cards (kanban and grouped
    /// layouts). Kanban: one list per column, each keeping its selected card
    /// and scroll offset, and the focus clamped to the last column. Grouped:
    /// one list of all the columns' cards, with a run per column that has
    /// cards.
    pub fn refresh_lists(&mut self, board_cards: Vec<EntityId>, columns: Vec<(EntityId, Vec<EntityId>)>)
        requires
            old(self).well_formed(),
            board_cards@.len() + MAX_VIEWPORT_HEIGHT <= usize::MAX,
            concat_cards(columns@).len() + MAX_VIEWPORT_HEIGHT <= usize::MAX,
        ensures
            final(self).well_formed(),
            final(self).viewport_height == old(self).viewport_height,
            final(self).layout == old(self).layout,
            old(self).layout == TaskListView::Flat ==> {
                &&& final(self).lists@.len() == 1
                &&& refreshed_list(old(self).lists@[0], board_cards@, final(self).lists@[0])
                &&& final(self).active_column == old(self).active_column
                &&& final(self).column_boundaries@ == old(self).column_boundaries@
            },
            old(self).layout == TaskListView::GroupedByColumn ==> {
                &&& final(self).lists@.len() == 1
                &&& refreshed_list(old(self).lists@[0], concat_cards(columns@), final(self).lists@[0])
                &&& final(self).active_column == old(self).active_column
                &&& final(self).column_boundaries@ == column_runs(columns@)
            },
            old(self).layout == TaskListView::ColumnView ==> {
                &&& final(self).lists@.len() == columns@.len()
                &&& forall|i: int|
                    0 <= i < columns@.len() ==> refreshed_column(
                        old(self).lists@,
                        columns@[i].0,
                        columns@[i].1@,
                        #[trigger] final(self).lists@[i],
                    )
                &&& final(self).active_column == if old(self).active_column >= columns@.len() {
                    if columns@.len() == 0 {
                        0
                    } else {
                        (columns@.len() - 1) as usize
                    }
                } else {
                    old(self).active_column
                }
                &&& final(self).column_boundaries@ == old(self).column_boundaries@
            },
    {
        match self.layout {
            TaskListView::Flat => {
                self.lists[0].update_cards(board_cards);
            },
            TaskListView::GroupedByColumn => {
                let mut unified: Vec<EntityId> = Vec::new();
                let mut runs: Vec<(usize, usize)> = Vec::new();
                let mut i: usize = 0;
                while i < columns.len()
                    invariant
                        i <= columns@.len(),
                        unified@ == concat_cards(columns@.take(i as int)),
                        runs@ == column_runs(columns@.take(i as int)),
                        concat_cards(columns@).len() + MAX_VIEWPORT_HEIGHT <= usize::MAX,
                        forall|j: int|
                            0 <= j < runs@.len() ==> (#[trigger] runs@[j]).0 + runs@[j].1 <= unified@.len(),
                    decreases columns@.len() - i,
                {
                    proof {
                        lemma_concat_prefix(columns@, i + 1);
                        assert(columns@.take(i + 1).drop_last() =~= columns@.take(i as int));
                        assert(columns@.take(i + 1).last() == columns@[i as int]);
                    }
                    let n = columns[i].1.len();
                    if n > 0 {
                        runs.push((unified.len(), n));
                        let mut cards = columns[i].1.clone();
                        unified.append(&mut cards);
                    }
                    i = i + 1;
                }
                proof {
                    assert(columns@.take(columns@.len() as int) =~= columns@);
                }
                self.lists[0].update_cards(unified);
                self.column_boundaries = runs;
            },
            TaskListView::ColumnView => {
                let mut rebuilt: Vec<CardList> = Vec::new();
                let mut i: usize = 0;
                while i < columns.len()
                    invariant
                        i <= columns@.len(),
                        rebuilt@.len() == i,
                        concat_cards(columns@).len() + MAX_VIEWPORT_HEIGHT <= usize::MAX,
                        forall|j: int|
                            0 <= j < i ==> refreshed_column(
                                self.lists@,
                                columns@[j].0,
                                columns@[j].1@,
                                #[trigger] rebuilt@[j],
                            ) && rebuilt@[j].well_formed() && rebuilt@[j].scroll_offset <= rebuilt@[j].cards@.len()
                                && rebuilt@[j].cards@.len() + MAX_VIEWPORT_HEIGHT <= usize::MAX,
                    decreases columns@.len() - i,
                {
                    proof {
                        lemma_column_within_concat(columns@, i as int);
                    }
                    let cards = columns[i].1.clone();
                    let list = Self::rebuild_column(&self.lists, columns[i].0, cards);
                    rebuilt.push(list);
                    i = i + 1;
                }
                self.lists = rebuilt;
                if self.active_column >= self.lists.len() {
                    self.active_column = if self.lists.len() == 0 {
                        0
                    } else {
                        self.lists.len() - 1
                    };
                }
            },
        }
    }
}

} // verus!
