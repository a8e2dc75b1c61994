//! List components: the projects list, the task lists and the selection of
//! a popup list.

use super::model::{contains_id, EntityId};
use vstd::prelude::*;

verus! {

/// Selected row of a list popup.
#[derive(Debug, Clone, Copy, PartialEq, Eq, Structural)]
pub struct ListSelection {
    pub selected: Option<usize>,
}

impl ListSelection {
    pub fn new() -> (r: Self)
        ensures
            r.selected.is_none(),
    {
        ListSelection { selected: None }
    }

    pub fn get(&self) -> (r: Option<usize>)
        ensures
            r == self.selected,
    {
        self.selected
    }

    pub fn set(&mut self, selected: Option<usize>)
        ensures
            final(self).selected == selected,
    {
        self.selected = selected;
    }

    pub fn clear(&mut self)
        ensures
            final(self).selected.is_none(),
    {
        self.selected = None;
    }

    /// Moves one row down among `count` rows, staying on the last row; with
    /// nothing selected, selects the first row.
    pub fn next(&mut self, count: usize)
        ensures
            final(self).selected == next_row(old(self).selected, count),
    {
        self.selected = match self.selected {
            None => if count > 0 {
                Some(0)
            } else {
                None
            },
            Some(i) => if i < count && count - i > 1 {
                Some(i + 1)
            } else {
                Some(i)
            },
        };
    }

    /// Moves one row up, staying on the first row.
    pub fn prev(&mut self)
        ensures
            final(self).selected == prev_row(old(self).selected),
    {
        self.selected = match self.selected {
            None => None,
            Some(i) => if i > 0 {
                Some(i - 1)
            } else {
                Some(0)
            },
        };
    }
}

pub open spec fn next_row(selected: Option<usize>, count: usize) -> Option<usize> {
    match selected {
        None => if count > 0 {
            Some(0usize)
        } else {
            None
        },
        Some(i) => if i + 1 < count {
            Some((i + 1) as usize)
        } else {
            Some(i)
        },
    }
}

pub open spec fn prev_row(selected: Option<usize>) -> Option<usize> {
    match selected {
        None => None,
        Some(i) => if i > 0 {
            Some((i - 1) as usize)
        } else {
            Some(0usize)
        },
    }
}

/// A scrolling list of rows (the relationship panels of the card detail
/// view, the columns of the project detail view): how many rows it has,
/// which one is selected, and how far it is scrolled.
#[derive(Debug, Clone, Copy, PartialEq, Eq, Structural)]
pub struct ScrollList {
    pub item_count: usize,
    pub selection: ListSelection,
    pub scroll_offset: usize,
}

/// `l` resized to `count` rows: a selection past the end moves to the last
/// row, or is dropped when there are none.
pub open spec fn recounted(l: ScrollList, count: usize) -> ScrollList {
    ScrollList {
        item_count: count,
        selection: ListSelection { selected: clamp_selection(l.selection.selected, count) },
        ..l
    }
}

/// `l` with `selected` as its selection.
pub open spec fn reselected(l: ScrollList, selected: Option<usize>) -> ScrollList {
    ScrollList { selection: ListSelection { selected }, ..l }
}

/// Rows left for entries in a viewport of `raw` lines showing `count`
/// entries scrolled to `offset`, after the "above" indicator (when
/// scrolled) and the "below" indicator (when entries remain below).
pub open spec fn entry_rows(raw: int, offset: int, count: int) -> int {
    let available = if offset > 0 {
        if raw >= 1 {
            raw - 1
        } else {
            0
        }
    } else {
        raw
    };
    if offset + available < count {
        if available >= 1 {
            available - 1
        } else {
            0
        }
    } else {
        available
    }
}

impl ScrollList {
    pub fn new() -> (r: Self)
        ensures
            r.item_count == 0,
            r.selection.selected.is_none(),
            r.scroll_offset == 0,
    {
        ScrollList { item_count: 0, selection: ListSelection::new(), scroll_offset: 0 }
    }

    /// Sets the number of rows; a selection past the end moves to the last
    /// row, or is cleared when there are none.
    pub fn update_item_count(&mut self, count: usize)
        ensures
            *final(self) == recounted(*old(self), count),
            final(self).item_count == count,
            final(self).selection.selected == clamp_selection(old(self).selection.selected, count),
    {
        self.item_count = count;
        self.selection.selected = match self.selection.selected {
            None => None,
            Some(i) => if i < count {
                Some(i)
            } else if count > 0 {
                Some(count - 1)
            } else {
                None
            },
        };
    }

    /// Entry rows of a viewport of `raw` lines.
    pub fn get_adjusted_viewport_height(&self, raw: usize) -> (r: usize)
        ensures
            r == entry_rows(raw as int, self.scroll_offset as int, self.item_count as int),
    {
        let available = if self.scroll_offset > 0 {
            if raw >= 1 {
                raw - 1
            } else {
                0
            }
        } else {
            raw
        };
        if self.scroll_offset < self.item_count && self.item_count - self.scroll_offset > available {
            if available >= 1 {
                available - 1
            } else {
                0
            }
        } else {
            available
        }
    }

    /// Moves one row down; returns whether it was already on the last row
    /// (or the list is empty), in which case nothing moves.
    pub fn navigate_down(&mut self) -> (at_bottom: bool)
        ensures
            at_bottom == row_below(old(self).selection.selected, old(self).item_count as nat).is_none(),
            *final(self) == if at_bottom {
                *old(self)
            } else {
                reselected(*old(self), row_below(old(self).selection.selected, old(self).item_count as nat))
            },
    {
        match row_below_exec(self.selection.selected, self.item_count) {
            Some(i) => {
                self.selection.selected = Some(i);
                false
            },
            None => true,
        }
    }

    /// Moves one row up; returns whether it was already on the first row
    /// (or nothing is selected in an empty list), in which case nothing moves.
    pub fn navigate_up(&mut self) -> (at_top: bool)
        ensures
            at_top == row_above(old(self).selection.selected, old(self).item_count as nat).is_none(),
            *final(self) == if at_top {
                *old(self)
            } else {
                reselected(*old(self), row_above(old(self).selection.selected, old(self).item_count as nat))
            },
    {
        match row_above_exec(self.selection.selected, self.item_count) {
            Some(i) => {
                self.selection.selected = Some(i);
                false
            },
            None => true,
        }
    }

    /// Scrolls just enough to show the selected row in `height` rows.
    pub fn ensure_selected_visible(&mut self, height: usize)
        ensures
            *final(self) == (ScrollList {
                scroll_offset: visible_offset(old(self).selection.selected, old(self).scroll_offset, height),
                ..*old(self)
            }),
    {
        if let Some(s) = self.selection.selected {
            if s < self.scroll_offset {
                self.scroll_offset = s;
            } else if height > 0 && s - self.scroll_offset >= height {
                self.scroll_offset = (s - height) + 1;
            }
        }
    }
}

pub open spec fn clamp_selection(selected: Option<usize>, count: usize) -> Option<usize> {
    match selected {
        None => None,
        Some(i) => if i < count {
            Some(i)
        } else if count > 0 {
            Some((count - 1) as usize)
        } else {
            None
        },
    }
}

/// Position of the first occurrence of `id`.
pub open spec fn position_of(ids: Seq<EntityId>, id: EntityId) -> Option<int>
    decreases ids.len(),
{
    if ids.len() == 0 {
        None
    } else {
        match position_of(ids.drop_last(), id) {
            Some(i) => Some(i),
            None => if ids.last() == id {
                Some(ids.len() - 1)
            } else {
                None
            },
        }
    }
}

pub proof fn lemma_position_of(ids: Seq<EntityId>, id: EntityId)
    ensures
        match position_of(ids, id) {
            Some(i) => 0 <= i < ids.len() && ids[i] == id && forall|j: int| 0 <= j < i ==> ids[j] != id,
            None => !ids.contains(id),
        },
    decreases ids.len(),
{
    if ids.len() > 0 {
        lemma_position_of(ids.drop_last(), id);
        assert forall|j: int| 0 <= j < ids.len() - 1 implies ids[j] == ids.drop_last()[j] by {}
        if position_of(ids.drop_last(), id).is_none() && ids.last() != id {
            assert forall|j: int| 0 <= j < ids.len() implies ids[j] != id by {
                if j < ids.len() - 1 {
                    assert(ids[j] == ids.drop_last()[j]);
                    assert(!ids.drop_last().contains(id));
                }
            }
        }
    }
}

/// First position of `id` in `ids`.
pub fn find_position(ids: &Vec<EntityId>, id: EntityId) -> (r: Option<usize>)
    ensures
        match r {
            Some(i) => position_of(ids@, id) == Some(i as int),
            None => position_of(ids@, id).is_none(),
        },
{
    proof {
        lemma_position_of(ids@, id);
    }
    let mut i: usize = 0;
    while i < ids.len()
        invariant
            i <= ids@.len(),
            forall|j: int| 0 <= j < i ==> ids@[j] != id,
            match position_of(ids@, id) {
                Some(k) => 0 <= k < ids@.len() && ids@[k] == id && forall|j: int| 0 <= j < k ==> ids@[j] != id,
                None => !ids@.contains(id),
            },
        decreases ids@.len() - i,
    {
        if ids[i] == id {
            return Some(i);
        }
        i = i + 1;
    }
    None
}

/// The projects panel: the ids of the displayed boards, the highlighted row
/// and the scroll offset.
#[derive(Debug)]
pub struct BoardList {
    pub ids: Vec<EntityId>,
    pub selected: Option<usize>,
    pub scroll_offset: usize,
}

impl BoardList {
    /// The highlighted row lies inside the list.
    pub open spec fn well_formed(&self) -> bool {
        match self.selected {
            Some(i) => i < self.ids@.len(),
            None => true,
        }
    }

    pub open spec fn selected_id(&self) -> Option<EntityId> {
        match self.selected {
            Some(i) => if i < self.ids@.len() {
                Some(self.ids@[i as int])
            } else {
                None
            },
            None => None,
        }
    }

    pub fn new() -> (r: Self)
        ensures
            r.ids@.len() == 0,
            r.selected.is_none(),
            r.scroll_offset == 0,
            r.well_formed(),
    {
        BoardList { ids: Vec::new(), selected: None, scroll_offset: 0 }
    }

    pub fn len(&self) -> (r: usize)
        ensures
            r == self.ids@.len(),
    {
        self.ids.len()
    }

    pub fn is_empty(&self) -> (r: bool)
        ensures
            r == (self.ids@.len() == 0),
    {
        self.ids.len() == 0
    }

    pub fn get_selected_index(&self) -> (r: Option<usize>)
        ensures
            r == self.selected,
    {
        self.selected
    }

    pub fn get_selected_board_id(&self) -> (r: Option<EntityId>)
        ensures
            r == self.selected_id(),
    {
        match self.selected {
            Some(i) => if i < self.ids.len() {
                Some(self.ids[i])
            } else {
                None
            },
            None => None,
        }
    }

    /// Replaces the displayed boards, keeping the highlight on the same board
    /// when it is still listed, else on the first board (none when empty).
    pub fn update_boards(&mut self, ids: Vec<EntityId>)
        ensures
            final(self).ids@ == ids@,
            final(self).selected == resynced_selection(old(self).selected_id(), ids@),
            final(self).scroll_offset == old(self).scroll_offset,
            final(self).well_formed(),
    {
        let previous = self.get_selected_board_id();
        let selected = match previous {
            Some(id) => match find_position(&ids, id) {
                Some(i) => Some(i),
                None => if ids.len() > 0 {
                    Some(0)
                } else {
                    None
                },
            },
            None => if ids.len() > 0 {
                Some(0)
            } else {
                None
            },
        };
        proof {
            if let Some(id) = previous {
                lemma_position_of(ids@, id);
            }
        }
        self.ids = ids;
        self.selected = selected;
    }

    /// Highlights `id` when it is listed.
    pub fn select_board(&mut self, id: EntityId)
        requires
            old(self).well_formed(),
        ensures
            final(self).ids@ == old(self).ids@,
            final(self).scroll_offset == old(self).scroll_offset,
            final(self).selected == match position_of(old(self).ids@, id) {
                Some(i) => Some(i as usize),
                None => old(self).selected,
            },
            final(self).well_formed(),
    {
        proof {
            lemma_position_of(self.ids@, id);
        }
        if let Some(i) = find_position(&self.ids, id) {
            self.selected = Some(i);
        }
    }

    /// Highlights row `index` when it exists.
    pub fn jump_to(&mut self, index: usize)
        requires
            old(self).well_formed(),
        ensures
            final(self).ids@ == old(self).ids@,
            final(self).scroll_offset == old(self).scroll_offset,
            final(self).selected == if index < old(self).ids@.len() {
                Some(index)
            } else {
                old(self).selected
            },
            final(self).well_formed(),
    {
        if index < self.ids.len() {
            self.selected = Some(index);
        }
    }

    pub fn set_selected_index(&mut self, selected: Option<usize>)
        requires
            match selected {
                Some(i) => i < old(self).ids@.len(),
                None => true,
            },
        ensures
            final(self).ids@ == old(self).ids@,
            final(self).scroll_offset == old(self).scroll_offset,
            final(self).selected == selected,
            final(self).well_formed(),
    {
        self.selected = selected;
    }

    /// Moves the highlight one row down; returns whether it was already on
    /// the last row (or the list is empty), in which case nothing moves.
    pub fn navigate_down(&mut self) -> (at_bottom: bool)
        requires
            old(self).well_formed(),
        ensures
            at_bottom == row_below(old(self).selected, old(self).ids@.len()).is_none(),
            final(self).ids@ == old(self).ids@,
            final(self).scroll_offset == old(self).scroll_offset,
            final(self).selected == if at_bottom {
                old(self).selected
            } else {
                row_below(old(self).selected, old(self).ids@.len())
            },
            final(self).well_formed(),
    {
        match row_below_exec(self.selected, self.ids.len()) {
            Some(i) => {
                self.selected = Some(i);
                false
            },
            None => true,
        }
    }

    /// Moves the highlight one row up; returns whether it was already on
    /// the first row (or the list is empty), in which case nothing moves.
    pub fn navigate_up(&mut self) -> (at_top: bool)
        requires
            old(self).well_formed(),
        ensures
            at_top == row_above(old(self).selected, old(self).ids@.len()).is_none(),
            final(self).ids@ == old(self).ids@,
            final(self).scroll_offset == old(self).scroll_offset,
            final(self).selected == if at_top {
                old(self).selected
            } else {
                row_above(old(self).selected, old(self).ids@.len())
            },
            final(self).well_formed(),
    {
        match row_above_exec(self.selected, self.ids.len()) {
            Some(i) => {
                self.selected = Some(i);
                false
            },
            None => true,
        }
    }

    /// Highlights the first row, when there is one.
    pub fn jump_to_top(&mut self)
        requires
            old(self).well_formed(),
        ensures
            final(self).ids@ == old(self).ids@,
            final(self).scroll_offset == old(self).scroll_offset,
            final(self).selected == if old(self).ids@.len() > 0 {
                Some(0usize)
            } else {
                old(self).selected
            },
            final(self).well_formed(),
    {
        self.jump_to(0);
    }

    /// Highlights the last row, when there is one.
    pub fn jump_to_bottom(&mut self)
        requires
            old(self).well_formed(),
        ensures
            final(self).ids@ == old(self).ids@,
            final(self).scroll_offset == old(self).scroll_offset,
            final(self).selected == if old(self).ids@.len() > 0 {
                Some((old(self).ids@.len() - 1) as usize)
            } else {
                old(self).selected
            },
            final(self).well_formed(),
    {
        if self.ids.len() > 0 {
            let last = self.ids.len() - 1;
            self.jump_to(last);
        }
    }

    pub fn set_scroll_offset(&mut self, offset: usize)
        ensures
            final(self).ids@ == old(self).ids@,
            final(self).selected == old(self).selected,
            final(self).scroll_offset == offset,
    {
        self.scroll_offset = offset;
    }
}

/// Row below `selected` among `len` rows: the first row when nothing is
/// selected, none when already on the last row or when there are no rows.
pub open spec fn row_below(selected: Option<usize>, len: nat) -> Option<usize> {
    match selected {
        None => if len > 0 {
            Some(0usize)
        } else {
            None
        },
        Some(i) => if i + 1 < len {
            Some((i + 1) as usize)
        } else {
            None
        },
    }
}

/// Row above `selected` among `len` rows: the first row when nothing is
/// selected, none when already on the first row or when there are no rows.
pub open spec fn row_above(selected: Option<usize>, len: nat) -> Option<usize> {
    match selected {
        None => if len > 0 {
            Some(0usize)
        } else {
            None
        },
        Some(i) => if i > 0 {
            Some((i - 1) as usize)
        } else {
            None
        },
    }
}

fn row_below_exec(selected: Option<usize>, len: usize) -> (r: Option<usize>)
    ensures
        r == row_below(selected, len as nat),
{
    match selected {
        None => if len > 0 {
            Some(0)
        } else {
            None
        },
        Some(i) => if i < len && len - i > 1 {
            Some(i + 1)
        } else {
            None
        },
    }
}

fn row_above_exec(selected: Option<usize>, len: usize) -> (r: Option<usize>)
    ensures
        r == row_above(selected, len as nat),
{
    match selected {
        None => if len > 0 {
            Some(0)
        } else {
            None
        },
        Some(i) => if i > 0 {
            Some(i - 1)
        } else {
            None
        },
    }
}

/// Highlight after the displayed boards were replaced by `ids`.
pub open spec fn resynced_selection(previous: Option<EntityId>, ids: Seq<EntityId>) -> Option<usize> {
    let first = if ids.len() > 0 {
        Some(0usize)
    } else {
        None
    };
    match previous {
        Some(id) => match position_of(ids, id) {
            Some(i) => Some(i as usize),
            None => first,
        },
        None => first,
    }
}

/// Which cards a task list shows: all of the board, or one column.
#[derive(Debug, Clone, Copy, PartialEq, Eq, Structural)]
pub enum CardListId {
    All,
    Column(EntityId),
}

/// A task list: its cards, the selected row and the scroll offset.
#[derive(Debug)]
pub struct CardList {
    pub id: CardListId,
    pub cards: Vec<EntityId>,
    pub selected: Option<usize>,
    pub scroll_offset: usize,
}

/// Scroll offset that keeps row `selected` in a viewport of `height` rows.
pub open spec fn visible_offset(selected: Option<usize>, offset: usize, height: usize) -> usize {
    match selected {
        Some(s) => if s < offset {
            s
        } else if height > 0 && s >= offset + height {
            (s + 1 - height) as usize
        } else {
            offset
        },
        None => offset,
    }
}

impl CardList {
    pub open spec fn well_formed(&self) -> bool {
        match self.selected {
            Some(i) => i < self.cards@.len(),
            None => true,
        }
    }

    pub open spec fn selected_card(&self) -> Option<EntityId> {
        match self.selected {
            Some(i) => if i < self.cards@.len() {
                Some(self.cards@[i as int])
            } else {
                None
            },
            None => None,
        }
    }

    pub fn new(id: CardListId) -> (r: Self)
        ensures
            r.id == id,
            r.cards@.len() == 0,
            r.selected.is_none(),
            r.scroll_offset == 0,
    {
        CardList { id, cards: Vec::new(), selected: None, scroll_offset: 0 }
    }

    pub fn len(&self) -> (r: usize)
        ensures
            r == self.cards@.len(),
    {
        self.cards.len()
    }

    pub fn is_empty(&self) -> (r: bool)
        ensures
            r == (self.cards@.len() == 0),
    {
        self.cards.len() == 0
    }

    pub fn get_selected_index(&self) -> (r: Option<usize>)
        ensures
            r == self.selected,
    {
        self.selected
    }

    pub fn get_selected_card_id(&self) -> (r: Option<EntityId>)
        ensures
            r == self.selected_card(),
    {
        match self.selected {
            Some(i) => if i < self.cards.len() {
                Some(self.cards[i])
            } else {
                None
            },
            None => None,
        }
    }

    /// Drops the selection and scrolls back to the top.
    pub fn clear(&mut self)
        ensures
            final(self).id == old(self).id,
            final(self).cards == old(self).cards,
            final(self).selected.is_none(),
            final(self).scroll_offset == 0,
    {
        self.selected = None;
        self.scroll_offset = 0;
    }

    pub fn set_selected_index(&mut self, selected: Option<usize>)
        ensures
            final(self).id == old(self).id,
            final(self).cards == old(self).cards,
            final(self).selected == selected,
            final(self).scroll_offset == old(self).scroll_offset,
    {
        self.selected = selected;
    }

    /// Selects row `index` when it exists.
    pub fn jump_to(&mut self, index: usize)
        ensures
            final(self).id == old(self).id,
            final(self).cards == old(self).cards,
            final(self).selected == if index < old(self).cards@.len() {
                Some(index)
            } else {
                old(self).selected
            },
            final(self).scroll_offset == old(self).scroll_offset,
    {
        if index < self.cards.len() {
            self.selected = Some(index);
        }
    }

    pub fn set_scroll_offset(&mut self, offset: usize)
        ensures
            final(self).id == old(self).id,
            final(self).cards == old(self).cards,
            final(self).selected == old(self).selected,
            final(self).scroll_offset == offset,
    {
        self.scroll_offset = offset;
    }

    /// Scrolls just enough to show the selected row in `height` rows.
    pub fn ensure_selected_visible(&mut self, height: usize)
        ensures
            final(self).id == old(self).id,
            final(self).cards == old(self).cards,
            final(self).selected == old(self).selected,
            final(self).scroll_offset == visible_offset(old(self).selected, old(self).scroll_offset, height),
    {
        if let Some(s) = self.selected {
            if s < self.scroll_offset {
                self.scroll_offset = s;
            } else if height > 0 && s - self.scroll_offset >= height {
                self.scroll_offset = (s - height) + 1;
            }
        }
    }

    /// Moves the selection one row down; returns whether it was already on
    /// the last row (or the list is empty), in which case nothing moves.
    pub fn navigate_down(&mut self) -> (at_bottom: bool)
        ensures
            at_bottom == row_below(old(self).selected, old(self).cards@.len()).is_none(),
            final(self).id == old(self).id,
            final(self).cards == old(self).cards,
            final(self).scroll_offset == old(self).scroll_offset,
            final(self).selected == if at_bottom {
                old(self).selected
            } else {
                row_below(old(self).selected, old(self).cards@.len())
            },
    {
        match row_below_exec(self.selected, self.cards.len()) {
            Some(i) => {
                self.selected = Some(i);
                false
            },
            None => true,
        }
    }

    /// Moves the selection one row up; returns whether it was already on
    /// the first row (or the list is empty), in which case nothing moves.
    pub fn navigate_up(&mut self) -> (at_top: bool)
        ensures
            at_top == row_above(old(self).selected, old(self).cards@.len()).is_none(),
            final(self).id == old(self).id,
            final(self).cards == old(self).cards,
            final(self).scroll_offset == old(self).scroll_offset,
            final(self).selected == if at_top {
                old(self).selected
            } else {
                row_above(old(self).selected, old(self).cards@.len())
            },
    {
        match row_above_exec(self.selected, self.cards.len()) {
            Some(i) => {
                self.selected = Some(i);
                false
            },
            None => true,
        }
    }

    /// Whether the list shows `id`.
    pub fn contains_card(&self, id: EntityId) -> (r: bool)
        ensures
            r == self.cards@.contains(id),
    {
        contains_id(&self.cards, id)
    }

    /// Replaces the listed cards, keeping the selection on the same card
    /// when it is still listed, else on the first card (none when empty);
    /// the scroll offset is kept, but never past the end of the new list.
    pub fn update_cards(&mut self, ids: Vec<EntityId>)
        ensures
            final(self).id == old(self).id,
            final(self).cards@ == ids@,
            final(self).selected == resynced_selection(old(self).selected_card(), ids@),
            final(self).scroll_offset == kept_offset(old(self).scroll_offset, ids@.len()),
            final(self).well_formed(),
    {
        let previous = self.get_selected_card_id();
        let selected = match previous {
            Some(id) => match find_position(&ids, id) {
                Some(i) => Some(i),
                None => if ids.len() > 0 {
                    Some(0)
                } else {
                    None
                },
            },
            None => if ids.len() > 0 {
                Some(0)
            } else {
                None
            },
        };
        proof {
            if let Some(id) = previous {
                lemma_position_of(ids@, id);
            }
        }
        if self.scroll_offset > ids.len() {
            self.scroll_offset = ids.len();
        }
        self.cards = ids;
        self.selected = selected;
    }

    /// Selects the row of card `id` when it is listed.
    pub fn select_card(&mut self, id: EntityId)
        requires
            old(self).well_formed(),
        ensures
            final(self).id == old(self).id,
            final(self).cards == old(self).cards,
            final(self).scroll_offset == old(self).scroll_offset,
            final(self).selected == match position_of(old(self).cards@, id) {
                Some(i) => Some(i as usize),
                None => old(self).selected,
            },
            final(self).well_formed(),
    {
        proof {
            lemma_position_of(self.cards@, id);
        }
        if let Some(i) = find_position(&self.cards, id) {
            self.selected = Some(i);
        }
    }
}

/// A scroll offset carried over to a list of `len` rows.
pub open spec fn kept_offset(offset: usize, len: nat) -> usize {
    if offset > len {
        len as usize
    } else {
        offset
    }
}

} // verus!
