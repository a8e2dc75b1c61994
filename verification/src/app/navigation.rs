//! Moving around the two panels: focus, row-by-row moves, jumps to either
//! end, kanban columns, and the three-level half-viewport jumps.

use super::components::{clamp_selection, resynced_selection, row_above, row_below, visible_offset, CardList};
use super::model::{board_index, card_index, children_of, parents_of, TaskListView};
use super::modes::{AppMode, Focus};
use super::state::{insert_id, untouched, with_id, App, FilterState, FocusState, SelectionState, Touched};
use super::view::ViewState;
use super::task_query::{fresh_tasks_shown, lemma_first_fill, lemma_query_reads};
use crate::pagination::{
    calculate_jump_target_down, calculate_jump_target_up, compute_page_boundaries,
    compute_page_boundaries_with_headers, count_headers_in_viewport, find_current_page,
    header_page_boundaries, headers_in_viewport, jump_down_target, jump_up_target,
    law_header_page_boundaries_tile, law_jump_targets_in_range, law_page_boundaries_tile, page_boundaries,
    page_of, tiles, PageBoundary,
};
use vstd::prelude::*;

verus! {

/// `a - b`, or 0 when `b` is larger.
pub open spec fn sat_sub(a: int, b: int) -> int {
    if a >= b {
        a - b
    } else {
        0
    }
}

/// Rows left for cards in a viewport of `viewport_height` lines showing a
/// task list of `len` cards scrolled to `offset`: one line goes to the
/// "above" indicator when scrolled, one to the "below" indicator when cards
/// remain under the visible ones, and in the grouped layout one to each
/// column header drawn (counted once on the space left by the indicator,
/// then again on the card rows that estimate leaves).
pub open spec fn card_rows_for(
    viewport_height: int,
    grouped: bool,
    boundaries: Seq<(usize, usize)>,
    offset: int,
    len: int,
) -> int {
    let above = if offset > 0 {
        1int
    } else {
        0int
    };
    let available = sat_sub(viewport_height, above);
    let headers = if grouped {
        let initial = headers_in_viewport(boundaries, offset, available) as int;
        headers_in_viewport(boundaries, offset, sat_sub(available, initial)) as int
    } else {
        0int
    };
    let slots = sat_sub(available, headers);
    let below = if offset + slots < len {
        1int
    } else {
        0int
    };
    sat_sub(slots, below)
}

impl ViewState {
    /// Card rows of the active list's viewport (the raw viewport height when
    /// there is no active list).
    pub open spec fn adjusted_height(&self) -> int {
        if self.has_active_list() {
            card_rows_for(
                self.viewport_height as int,
                self.layout == TaskListView::GroupedByColumn,
                self.column_boundaries@,
                self.active_list().scroll_offset as int,
                self.active_list().cards@.len() as int,
            )
        } else {
            self.viewport_height as int
        }
    }
}

/// Selection of a task list after a one-row move (down when `down`); it
/// stays put at the edge.
pub open spec fn stepped_selection(l: CardList, down: bool) -> Option<usize> {
    let step = if down {
        row_below(l.selected, l.cards@.len())
    } else {
        row_above(l.selected, l.cards@.len())
    };
    if step.is_none() {
        l.selected
    } else {
        step
    }
}

/// Whether a one-row move (down when `down`) finds the list already at its edge.
pub open spec fn at_edge(l: CardList, down: bool) -> bool {
    if down {
        row_below(l.selected, l.cards@.len()).is_none()
    } else {
        row_above(l.selected, l.cards@.len()).is_none()
    }
}

/// The active list of `view` after a one-row move: the selection steps,
/// the list scrolls it into the card rows of the viewport, and scrolls
/// again when that scroll changed the number of card rows.
pub open spec fn list_after_step(view: ViewState, down: bool) -> CardList {
    let l = view.active_list();
    let sel = stepped_selection(l, down);
    let h0 = view.adjusted_height();
    let off1 = visible_offset(sel, l.scroll_offset, h0 as usize);
    let h1 = card_rows_for(
        view.viewport_height as int,
        view.layout == TaskListView::GroupedByColumn,
        view.column_boundaries@,
        off1 as int,
        l.cards@.len() as int,
    );
    let off2 = if h1 != h0 {
        visible_offset(sel, off1, h1 as usize)
    } else {
        off1
    };
    CardList { selected: sel, scroll_offset: off2, ..l }
}

/// The card a task list selects, when it is a card of the model.
pub open spec fn model_card_of(app: App, l: CardList) -> Option<u128> {
    match l.selected_card() {
        Some(id) => if super::model::card_index(app.model.cards@, id).is_some() {
            Some(id)
        } else {
            None
        },
        None => None,
    }
}

impl App {
    /// The active board shows its tasks as kanban columns.
    pub open spec fn kanban_active(&self) -> bool {
        match self.active_board_index() {
            Some(i) => self.model.boards@[i].task_list_view == TaskListView::ColumnView,
            None => false,
        }
    }

    /// Kanban columns apply to the active board only; without one the
    /// projects list stays visible beside the tasks.
    pub fn is_kanban_view(&self) -> (r: bool)
        ensures
            r == self.kanban_active(),
    {
        match self.active_board() {
            Some(i) => self.model.boards[i].task_list_view == TaskListView::ColumnView,
            None => false,
        }
    }

    /// Focuses the projects panel, or the tasks panel when a board is active.
    pub fn handle_focus_switch(&mut self, focus_target: Focus)
        ensures
            old(self).unchanged_except(final(self), (Touched { focus: true, ..untouched() })),
            old(self).well_formed() ==> final(self).well_formed(),
            final(self).focus.active == match focus_target {
                Focus::Boards => Focus::Boards,
                Focus::Cards => if old(self).selection.active_board_id.is_some() {
                    Focus::Cards
                } else {
                    old(self).focus.active
                },
            },
            final(self).focus.card_focus == old(self).focus.card_focus,
            final(self).focus.board_focus == old(self).focus.board_focus,
            final(self).focus.settings_focus == old(self).focus.settings_focus,
    {
        match focus_target {
            Focus::Boards => {
                self.focus.active = Focus::Boards;
            },
            Focus::Cards => {
                if self.selection.active_board_id.is_some() {
                    self.focus.active = Focus::Cards;
                }
            },
        }
    }

    /// Card rows of the active task list's viewport, as the renderer lays
    /// them out (indicators and, in the grouped layout, column headers).
    pub fn get_adjusted_viewport_height(&self) -> (r: usize)
        requires
            self.view.well_formed(),
        ensures
            r == self.view.adjusted_height(),
    {
        let raw = self.view.viewport_height;
        match self.view.active_list_index() {
            None => raw,
            Some(li) => {
                let list = &self.view.lists[li];
                assert(self.view.lists@[li as int] == *list);
                let offset = list.scroll_offset;
                let len = list.len();
                let above: usize = if offset > 0 {
                    1
                } else {
                    0
                };
                let available = if raw >= above {
                    raw - above
                } else {
                    0
                };
                let grouped = match self.view.layout {
                    TaskListView::GroupedByColumn => true,
                    _ => false,
                };
                let header_overhead: usize = if grouped {
                    let bounds = self.view.column_boundaries.as_slice();
                    let initial = count_headers_in_viewport(bounds, offset, available);
                    let slots0 = if available >= initial {
                        available - initial
                    } else {
                        0
                    };
                    count_headers_in_viewport(bounds, offset, slots0)
                } else {
                    0
                };
                let slots = if available >= header_overhead {
                    available - header_overhead
                } else {
                    0
                };
                let below: usize = if offset + slots < len {
                    1
                } else {
                    0
                };
                if slots >= below {
                    slots - below
                } else {
                    0
                }
            },
        }
    }

    /// Kanban layout with the tasks panel focused: focus the column to the left.
    pub fn handle_kanban_column_left(&mut self)
        requires
            old(self).well_formed(),
        ensures
            old(self).unchanged_except(final(self), (Touched { view: true, ..untouched() })),
            !(old(self).kanban_active() && old(self).focus.active == Focus::Cards) ==> final(self).view
                == old(self).view,
            old(self).kanban_active() && old(self).focus.active == Focus::Cards ==> ViewState::stepped_left(
                old(self).view,
                final(self).view,
                false,
            ),
            final(self).well_formed(),
    {
        if !self.is_kanban_view() || self.focus.active != Focus::Cards {
            return;
        }
        self.view.navigate_left(false);
    }

    /// Kanban layout with the tasks panel focused: focus the column to the right.
    pub fn handle_kanban_column_right(&mut self)
        requires
            old(self).well_formed(),
        ensures
            old(self).unchanged_except(final(self), (Touched { view: true, ..untouched() })),
            !(old(self).kanban_active() && old(self).focus.active == Focus::Cards) ==> final(self).view
                == old(self).view,
            old(self).kanban_active() && old(self).focus.active == Focus::Cards ==> ViewState::stepped_right(
                old(self).view,
                final(self).view,
                false,
            ),
            final(self).well_formed(),
    {
        if !self.is_kanban_view() || self.focus.active != Focus::Cards {
            return;
        }
        self.view.navigate_right(false);
    }

    /// A digit key: in the kanban layout with the tasks panel focused it
    /// focuses column `index` (when it exists), selecting its first card if
    /// nothing is selected and scrolling the selection into view; otherwise
    /// 0 focuses the projects panel and 1 the tasks panel.
    pub fn handle_column_or_focus_switch(&mut self, index: usize)
        requires
            old(self).well_formed(),
        ensures
            final(self).well_formed(),
            old(self).kanban_active() && old(self).focus.active == Focus::Cards ==> {
                &&& old(self).unchanged_except(final(self), (Touched { view: true, ..untouched() }))
                &&& index >= old(self).view.lists@.len() ==> final(self).view == old(self).view
                &&& index < old(self).view.lists@.len() ==> {
                    let v = old(self).view;
                    let l = v.lists@[index as int];
                    let sel = if l.cards@.len() == 0 {
                        None
                    } else if l.selected.is_none() {
                        Some(0usize)
                    } else {
                        l.selected
                    };
                    let off = if l.cards@.len() == 0 {
                        0usize
                    } else {
                        l.scroll_offset
                    };
                    &&& final(self).view.viewport_height == v.viewport_height
                    &&& final(self).view.layout == v.layout
                    &&& final(self).view.column_boundaries@ == v.column_boundaries@
                    &&& final(self).view.active_column == index
                    &&& final(self).view.lists@ == v.lists@.update(
                        index as int,
                        CardList { selected: sel, scroll_offset: visible_offset(sel, off, v.viewport_height), ..l },
                    )
                }
            },
            !(old(self).kanban_active() && old(self).focus.active == Focus::Cards) ==> {
                &&& old(self).unchanged_except(final(self), (Touched { focus: true, ..untouched() }))
                &&& final(self).focus.card_focus == old(self).focus.card_focus
                &&& final(self).focus.board_focus == old(self).focus.board_focus
                &&& final(self).focus.settings_focus == old(self).focus.settings_focus
                &&& final(self).focus.active == if index == 0 {
                    Focus::Boards
                } else if index == 1 && old(self).selection.active_board_id.is_some() {
                    Focus::Cards
                } else {
                    old(self).focus.active
                }
            },
    {
        if self.is_kanban_view() && self.focus.active == Focus::Cards {
            let column_count = self.view.list_count();
            if index < column_count {
                self.view.set_active_column_index(index);
                let vh = self.view.viewport_height;
                let ghost before = self.view.lists@[index as int];
                let list = &mut self.view.lists[index];
                if list.is_empty() {
                    list.clear();
                } else if list.get_selected_index().is_none() {
                    list.set_selected_index(Some(0));
                }
                list.ensure_selected_visible(vh);
            }
        } else {
            if index == 0 {
                self.handle_focus_switch(Focus::Boards);
            } else if index == 1 {
                self.handle_focus_switch(Focus::Cards);
            }
        }
    }

    /// Esc on the main screen: closes an active search, else leaves
    /// selection mode (dropping the selection), else leaves the active board
    /// for the projects panel.
    pub fn handle_escape_key(&mut self)
        requires
            old(self).well_formed(),
        ensures
            final(self).well_formed(),
            old(self).filter.search.is_active ==> {
                &&& old(self).unchanged_except(final(self), (Touched { filter: true, ..untouched() }))
                &&& !final(self).filter.search.is_active
                &&& final(self).filter.hide_assigned_cards == old(self).filter.hide_assigned_cards
                &&& final(self).filter.active_sprint_filters == old(self).filter.active_sprint_filters
                &&& final(self).filter.dialog_state == old(self).filter.dialog_state
            },
            !old(self).filter.search.is_active && old(self).multi_select.selection_mode_active ==> {
                &&& old(self).unchanged_except(final(self), (Touched { multi_select: true, ..untouched() }))
                &&& !final(self).multi_select.selection_mode_active
                &&& final(self).multi_select.selected_cards@.len() == 0
                &&& final(self).multi_select.board_selection_mode_active
                    == old(self).multi_select.board_selection_mode_active
                &&& final(self).multi_select.selected_boards == old(self).multi_select.selected_boards
            },
            !old(self).filter.search.is_active && !old(self).multi_select.selection_mode_active ==> {
                if old(self).selection.active_board_id.is_some() {
                    &&& old(self).unchanged_except(
                        final(self),
                        (Touched { selection: true, focus: true, view: true, ..untouched() }),
                    )
                    &&& final(self).selection.active_board_id.is_none()
                    &&& final(self).selection.active_card_id == old(self).selection.active_card_id
                    &&& final(self).selection.card_navigation_history == old(self).selection.card_navigation_history
                    &&& final(self).focus.active == Focus::Boards
                    &&& final(self).focus.card_focus == old(self).focus.card_focus
                    &&& final(self).focus.board_focus == old(self).focus.board_focus
                    &&& final(self).view.is_fresh(old(self).view.viewport_height, TaskListView::GroupedByColumn)
                } else {
                    old(self).unchanged_except(final(self), untouched())
                }
            },
    {
        if self.filter.search.is_active {
            self.filter.search.is_active = false;
            return;
        }
        if self.multi_select.selection_mode_active {
            self.multi_select.selection_mode_active = false;
            self.multi_select.selected_cards = Vec::new();
            return;
        }
        if self.selection.active_board_id.is_some() {
            self.selection.active_board_id = None;
            self.focus.active = Focus::Boards;
            self.switch_view_strategy(TaskListView::GroupedByColumn);
        }
    }
}

/// `after` is `before` after a one-row move (down when `down`) in the
/// tasks panel: the active list steps and scrolls, the newly selected card
/// joins the selection in selection mode, and in the kanban layout a move
/// that found the list at its edge turns to the next column (down) or to
/// the last card of the previous one (up).
pub open spec fn stepped_in_tasks(before: App, after: App, down: bool) -> bool {
    let v = before.view;
    if v.has_active_list() {
        let ai = v.active_index();
        let l2 = list_after_step(v, down);
        let lists1 = v.lists@.update(ai, l2);
        let turn = at_edge(v.active_list(), down) && if down {
            v.layout == TaskListView::ColumnView && v.active_column + 1 < v.lists@.len()
        } else {
            v.layout == TaskListView::ColumnView && v.active_column > 0 && v.lists@.len() > 0
        };
        let target = if down {
            v.active_column + 1
        } else {
            v.active_column - 1
        };
        let ms = before.multi_select;
        &&& before.unchanged_except(&after, (Touched { view: true, multi_select: true, ..untouched() }))
        &&& after.multi_select.selection_mode_active == ms.selection_mode_active
        &&& after.multi_select.board_selection_mode_active == ms.board_selection_mode_active
        &&& after.multi_select.selected_boards == ms.selected_boards
        &&& after.multi_select.selected_cards@ == if ms.selection_mode_active {
            match model_card_of(before, l2) {
                Some(id) => with_id(ms.selected_cards@, id),
                None => ms.selected_cards@,
            }
        } else {
            ms.selected_cards@
        }
        &&& after.view.viewport_height == v.viewport_height
        &&& after.view.layout == v.layout
        &&& after.view.column_boundaries@ == v.column_boundaries@
        &&& if turn {
            &&& after.view.active_column == target
            &&& after.view.lists@ == lists1.update(target, ViewState::entered_column(lists1[target], !down))
        } else {
            &&& after.view.active_column == v.active_column
            &&& after.view.lists@ == lists1
        }
    } else {
        before.unchanged_except(&after, untouched())
    }
}

/// `after` is `before` after a one-row move (down when `down`) in the
/// projects panel; leaving the archived-boards view aside, the tasks panel
/// starts over in the grouped layout.
pub open spec fn stepped_in_boards(before: App, after: App, down: bool) -> bool {
    let b = before.board_list;
    let step = if down {
        row_below(b.selected, b.ids@.len())
    } else {
        row_above(b.selected, b.ids@.len())
    };
    &&& before.unchanged_except(&after, (Touched { board_list: true, view: true, ..untouched() }))
    &&& after.board_list.ids@ == b.ids@
    &&& after.board_list.scroll_offset == b.scroll_offset
    &&& after.board_list.selected == if step.is_none() {
        b.selected
    } else {
        step
    }
    &&& if before.mode == AppMode::ArchivedBoardsView {
        after.view == before.view
    } else {
        after.view.is_fresh(before.view.viewport_height, TaskListView::GroupedByColumn)
    }
}

impl App {
    /// Steps the active task list one row and scrolls the selection into
    /// its card rows; returns whether the list was already at its edge.
    #[verifier::rlimit(40)]
    fn step_active_list(&mut self, down: bool) -> (edge: bool)
        requires
            old(self).well_formed(),
        ensures
            old(self).unchanged_except(final(self), (Touched { view: true, ..untouched() })),
            final(self).well_formed(),
            final(self).view.viewport_height == old(self).view.viewport_height,
            final(self).view.layout == old(self).view.layout,
            final(self).view.active_column == old(self).view.active_column,
            final(self).view.column_boundaries@ == old(self).view.column_boundaries@,
            old(self).view.has_active_list() ==> edge == at_edge(old(self).view.active_list(), down)
                && final(self).view.lists@ == old(self).view.lists@.update(
                old(self).view.active_index(),
                list_after_step(old(self).view, down),
            ),
            !old(self).view.has_active_list() ==> !edge && final(self).view == old(self).view,
    {
        let initial = self.get_adjusted_viewport_height();
        match self.view.active_list_index() {
            None => false,
            Some(li) => {
                let ghost v = self.view;
                let edge = {
                    let list = &mut self.view.lists[li];
                    let e = if down {
                        list.navigate_down()
                    } else {
                        list.navigate_up()
                    };
                    list.ensure_selected_visible(initial);
                    e
                };
                assert(self.view.well_formed()) by {
                    assert forall|i: int| 0 <= i < self.view.lists@.len() implies (#[trigger] self.view.lists@[i]).cards@.len()
                        + super::view::MAX_VIEWPORT_HEIGHT <= usize::MAX && self.view.lists@[i].well_formed()
                        && self.view.lists@[i].scroll_offset <= self.view.lists@[i].cards@.len() by {
                        if i != li {
                            assert(self.view.lists@[i] == v.lists@[i]);
                        }
                    }
                }
                let after = self.get_adjusted_viewport_height();
                if after != initial {
                    self.view.lists[li].ensure_selected_visible(after);
                }
                proof {
                    let l2 = list_after_step(v, down);
                    assert(self.view.lists@[li as int] == l2);
                    assert(self.view.lists@ =~= v.lists@.update(li as int, l2));
                }
                edge
            },
        }
    }

    fn move_one_row(&mut self, down: bool)
        requires
            old(self).well_formed(),
        ensures
            final(self).well_formed(),
            old(self).focus.active == Focus::Boards ==> stepped_in_boards(*old(self), *final(self), down),
            old(self).focus.active == Focus::Cards ==> stepped_in_tasks(*old(self), *final(self), down),
    {
        match self.focus.active {
            Focus::Boards => {
                if down {
                    self.board_list.navigate_down();
                } else {
                    self.board_list.navigate_up();
                }
                if !self.mode.is_archived_boards_view() {
                    self.switch_view_strategy(TaskListView::GroupedByColumn);
                }
            },
            Focus::Cards => {
                let ghost before = *self;
                let edge = self.step_active_list(down);
                if self.multi_select.selection_mode_active {
                    if let Some(card) = self.get_selected_card_in_context() {
                        insert_id(&mut self.multi_select.selected_cards, card);
                    }
                }
                proof {
                    if before.view.has_active_list() {
                        assert(self.view.active_list() == list_after_step(before.view, down));
                    }
                }
                if edge {
                    if down {
                        self.view.navigate_right(false);
                    } else {
                        self.view.navigate_left(true);
                    }
                }
            },
        }
    }

    /// `j`/Down: one row down in the focused panel.
    pub fn handle_navigation_down(&mut self)
        requires
            old(self).well_formed(),
        ensures
            final(self).well_formed(),
            old(self).focus.active == Focus::Boards ==> stepped_in_boards(*old(self), *final(self), true),
            old(self).focus.active == Focus::Cards ==> stepped_in_tasks(*old(self), *final(self), true),
    {
        self.move_one_row(true);
    }

    /// `k`/Up: one row up in the focused panel.
    pub fn handle_navigation_up(&mut self)
        requires
            old(self).well_formed(),
        ensures
            final(self).well_formed(),
            old(self).focus.active == Focus::Boards ==> stepped_in_boards(*old(self), *final(self), false),
            old(self).focus.active == Focus::Cards ==> stepped_in_tasks(*old(self), *final(self), false),
    {
        self.move_one_row(false);
    }
}

/// A three-level half-viewport jump (down when `down`) from row `selected`
/// of a list of `len` rows over `pages`: the row to select and the scroll
/// offset (the start of the target's page when the jump changes page).
/// `None` when there is nothing to jump from.
pub open spec fn half_jump(
    pages: Seq<PageBoundary>,
    selected: Option<usize>,
    offset: usize,
    len: nat,
    down: bool,
) -> Option<(Option<usize>, usize)> {
    match selected {
        None => None,
        Some(cur) => match page_of(pages, cur as int) {
            None => None,
            Some(pi) => {
                let target = if down {
                    jump_down_target(pages, cur as int, pi)
                } else {
                    jump_up_target(pages, cur as int, pi)
                };
                let off = match page_of(pages, target) {
                    Some(ti) => if ti != pi {
                        pages[ti].start
                    } else {
                        offset
                    },
                    None => offset,
                };
                let sel = if target < len {
                    Some(target as usize)
                } else {
                    selected
                };
                Some((sel, off))
            },
        },
    }
}

/// Runs a half-viewport jump over pages that tile a list of `len` rows.
fn half_jump_exec(pages: &Vec<PageBoundary>, len: usize, selected: Option<usize>, offset: usize, down: bool) -> (r:
    Option<(Option<usize>, usize)>)
    requires
        tiles(pages@, 0, len as int),
    ensures
        r == half_jump(pages@, selected, offset, len as nat, down),
        match r {
            Some((sel, off)) => (off <= len || off == offset) && match sel {
                Some(i) => i < len,
                None => true,
            } && (sel.is_none() ==> selected.is_none()) && (selected.is_some() ==> sel.is_some()),
            None => true,
        },
        selected.is_some() && selected.unwrap() < len ==> r.is_some(),
{
    let cur = match selected {
        None => {
            return None;
        },
        Some(c) => c,
    };
    let pi = match find_current_page(pages.as_slice(), cur) {
        None => {
            proof {
                if cur < len {
                    crate::pagination::law_tiled_pages_locate(pages@, len as int, cur as int);
                    let k = choose|k: int| 0 <= k < pages@.len() && #[trigger] pages@[k].covers(cur as int);
                    assert(!pages@[k].covers(cur as int));
                }
            }
            return None;
        },
        Some(i) => i,
    };
    proof {
        law_jump_targets_in_range(pages@, len as int, cur as int, pi as int);
    }
    let target = if down {
        calculate_jump_target_down(pages.as_slice(), cur, pi)
    } else {
        calculate_jump_target_up(pages.as_slice(), cur, pi)
    };
    let off = match find_current_page(pages.as_slice(), target) {
        Some(ti) => if ti != pi {
            pages[ti].start
        } else {
            offset
        },
        None => offset,
    };
    let sel = if target < len {
        Some(target)
    } else {
        selected
    };
    proof {
        if off != offset {
            let ti = page_of(pages@, target as int).unwrap();
            assert(pages@[ti].covers(target as int));
        }
    }
    Some((sel, off))
}

impl App {
    /// The pages of the active task list (of `total` cards): header-aware
    /// when the active board and the layout are grouped by column.
    pub open spec fn pages_for_view(&self, total: nat) -> Seq<PageBoundary> {
        let grouped_board = match self.active_board_index() {
            Some(i) => self.model.boards@[i].task_list_view == TaskListView::GroupedByColumn,
            None => false,
        };
        if grouped_board && self.view.layout == TaskListView::GroupedByColumn {
            header_page_boundaries(total, self.view.viewport_height as nat, self.view.column_boundaries@)
        } else {
            page_boundaries(total, self.view.viewport_height as nat)
        }
    }

    fn compute_pages_for_current_view(&self, total_items: usize) -> (pages: Vec<PageBoundary>)
        requires
            self.view.well_formed(),
            total_items + super::view::MAX_VIEWPORT_HEIGHT <= usize::MAX,
        ensures
            pages@ == self.pages_for_view(total_items as nat),
            self.view.viewport_height > 0 ==> tiles(pages@, 0, total_items as int),
            pages@.len() == 0 <==> (total_items == 0 || self.view.viewport_height == 0),
    {
        proof {
            law_page_boundaries_tile(total_items as nat, self.view.viewport_height as nat);
            law_header_page_boundaries_tile(
                total_items as nat,
                self.view.viewport_height as nat,
                self.view.column_boundaries@,
            );
        }
        if let Some(bi) = self.active_board() {
            match self.model.boards[bi].task_list_view {
                TaskListView::GroupedByColumn => match self.view.layout {
                    TaskListView::GroupedByColumn => {
                        return compute_page_boundaries_with_headers(
                            total_items,
                            self.view.viewport_height,
                            self.view.column_boundaries.as_slice(),
                        );
                    },
                    _ => {},
                },
                _ => {},
            }
        }
        compute_page_boundaries(total_items, self.view.viewport_height)
    }

    /// The half-viewport jump of the projects panel.
    fn jump_board_list_half_viewport(&mut self, down: bool)
        requires
            old(self).well_formed(),
        ensures
            final(self).well_formed(),
            old(self).unchanged_except(final(self), (Touched { board_list: true, ..untouched() })),
            final(self).board_list.ids@ == old(self).board_list.ids@,
            ({
                let b = old(self).board_list;
                let hj = if b.ids@.len() == 0 || old(self).view.viewport_height == 0 {
                    None
                } else {
                    half_jump(
                        page_boundaries(b.ids@.len(), old(self).view.viewport_height as nat),
                        b.selected,
                        b.scroll_offset,
                        b.ids@.len(),
                        down,
                    )
                };
                match hj {
                    None => final(self).board_list.selected == b.selected && final(self).board_list.scroll_offset
                        == b.scroll_offset,
                    Some((sel, off)) => final(self).board_list.selected == sel && final(self).board_list.scroll_offset
                        == off,
                }
            }),
    {
        let total_items = self.board_list.len();
        if total_items == 0 {
            return;
        }
        let pages = compute_page_boundaries(total_items, self.view.viewport_height);
        proof {
            law_page_boundaries_tile(total_items as nat, self.view.viewport_height as nat);
        }
        if pages.len() == 0 {
            return;
        }
        let selected = self.board_list.get_selected_index();
        let offset = self.board_list.scroll_offset;
        if let Some((sel, off)) = half_jump_exec(&pages, total_items, selected, offset, down) {
            self.board_list.set_scroll_offset(off);
            if let Some(target) = sel {
                self.board_list.jump_to(target);
            }
        }
    }

    /// The half-viewport jump of the active task list.
    fn jump_task_list_half_viewport(&mut self, down: bool)
        requires
            old(self).well_formed(),
        ensures
            final(self).well_formed(),
            old(self).unchanged_except(final(self), (Touched { view: true, ..untouched() })),
            ({
                let v = old(self).view;
                if v.has_active_list() && v.active_list().cards@.len() > 0 && v.viewport_height > 0 {
                    let l = v.active_list();
                    let hj = half_jump(
                        old(self).pages_for_view(l.cards@.len()),
                        l.selected,
                        l.scroll_offset,
                        l.cards@.len(),
                        down,
                    );
                    &&& final(self).view.viewport_height == v.viewport_height
                    &&& final(self).view.layout == v.layout
                    &&& final(self).view.active_column == v.active_column
                    &&& final(self).view.column_boundaries@ == v.column_boundaries@
                    &&& final(self).view.lists@ == match hj {
                        None => v.lists@,
                        Some((sel, off)) => v.lists@.update(
                            v.active_index(),
                            CardList {
                                selected: sel,
                                scroll_offset: visible_offset(sel, off, v.adjusted_height() as usize),
                                ..l
                            },
                        ),
                    }
                } else {
                    final(self).view == v
                }
            }),
    {
        let total_items = self.view.active_len();
        if total_items == 0 {
            return;
        }
        let pages = self.compute_pages_for_current_view(total_items);
        let adjusted_viewport = self.get_adjusted_viewport_height();
        if pages.len() == 0 {
            return;
        }
        let li = self.view.active_list_index().unwrap();
        let ghost v = self.view;
        let selected = self.view.lists[li].get_selected_index();
        let offset = self.view.lists[li].scroll_offset;
        if let Some((sel, off)) = half_jump_exec(&pages, total_items, selected, offset, down) {
            let list = &mut self.view.lists[li];
            list.set_scroll_offset(off);
            if let Some(target) = sel {
                list.jump_to(target);
            }
            list.ensure_selected_visible(adjusted_viewport);
            proof {
                assert(self.view.lists@ =~= v.lists@.update(
                    li as int,
                    CardList {
                        selected: sel,
                        scroll_offset: visible_offset(sel, off, adjusted_viewport),
                        ..v.lists@[li as int]
                    },
                ));
                assert forall|i: int| 0 <= i < self.view.lists@.len() implies (#[trigger] self.view.lists@[i]).cards@.len()
                    + super::view::MAX_VIEWPORT_HEIGHT <= usize::MAX && self.view.lists@[i].well_formed()
                    && self.view.lists@[i].scroll_offset <= self.view.lists@[i].cards@.len() by {
                    if i != li {
                        assert(self.view.lists@[i] == v.lists@[i]);
                    }
                }
            }
        }
    }

    /// Ctrl+U: three-level jump up (bottom, middle, top, previous page) in
    /// the focused panel.
    pub fn handle_jump_half_viewport_up(&mut self)
        requires
            old(self).well_formed(),
        ensures
            final(self).well_formed(),
            old(self).focus.active == Focus::Boards ==> {
                let b = old(self).board_list;
                let hj = if b.ids@.len() == 0 || old(self).view.viewport_height == 0 {
                    None
                } else {
                    half_jump(
                        page_boundaries(b.ids@.len(), old(self).view.viewport_height as nat),
                        b.selected,
                        b.scroll_offset,
                        b.ids@.len(),
                        false,
                    )
                };
                &&& old(self).unchanged_except(final(self), (Touched { board_list: true, ..untouched() }))
                &&& final(self).board_list.ids@ == b.ids@
                &&& match hj {
                    None => final(self).board_list.selected == b.selected && final(self).board_list.scroll_offset
                        == b.scroll_offset,
                    Some((sel, off)) => final(self).board_list.selected == sel
                        && final(self).board_list.scroll_offset == off,
                }
            },
            old(self).focus.active == Focus::Cards ==> {
                let v = old(self).view;
                &&& old(self).unchanged_except(final(self), (Touched { view: true, ..untouched() }))
                &&& if v.has_active_list() && v.active_list().cards@.len() > 0 && v.viewport_height > 0 {
                    let l = v.active_list();
                    let hj = half_jump(
                        old(self).pages_for_view(l.cards@.len()),
                        l.selected,
                        l.scroll_offset,
                        l.cards@.len(),
                        false,
                    );
                    &&& final(self).view.active_column == v.active_column
                    &&& final(self).view.lists@ == match hj {
                        None => v.lists@,
                        Some((sel, off)) => v.lists@.update(
                            v.active_index(),
                            CardList {
                                selected: sel,
                                scroll_offset: visible_offset(sel, off, v.adjusted_height() as usize),
                                ..l
                            },
                        ),
                    }
                } else {
                    final(self).view == v
                }
            },
    {
        match self.focus.active {
            Focus::Boards => self.jump_board_list_half_viewport(false),
            Focus::Cards => self.jump_task_list_half_viewport(false),
        }
    }

    /// Ctrl+D: three-level jump down (top, middle, bottom, next page) in the
    /// focused panel, never past the last row.
    pub fn handle_jump_half_viewport_down(&mut self)
        requires
            old(self).well_formed(),
        ensures
            final(self).well_formed(),
            old(self).focus.active == Focus::Boards ==> {
                let b = old(self).board_list;
                let hj = if b.ids@.len() == 0 || old(self).view.viewport_height == 0 {
                    None
                } else {
                    half_jump(
                        page_boundaries(b.ids@.len(), old(self).view.viewport_height as nat),
                        b.selected,
                        b.scroll_offset,
                        b.ids@.len(),
                        true,
                    )
                };
                &&& old(self).unchanged_except(final(self), (Touched { board_list: true, ..untouched() }))
                &&& final(self).board_list.ids@ == b.ids@
                &&& match hj {
                    None => final(self).board_list.selected == b.selected && final(self).board_list.scroll_offset
                        == b.scroll_offset,
                    Some((sel, off)) => final(self).board_list.selected == sel
                        && final(self).board_list.scroll_offset == off,
                }
            },
            old(self).focus.active == Focus::Cards ==> {
                let v = old(self).view;
                &&& old(self).unchanged_except(final(self), (Touched { view: true, ..untouched() }))
                &&& if v.has_active_list() && v.active_list().cards@.len() > 0 && v.viewport_height > 0 {
                    let l = v.active_list();
                    let hj = half_jump(
                        old(self).pages_for_view(l.cards@.len()),
                        l.selected,
                        l.scroll_offset,
                        l.cards@.len(),
                        true,
                    );
                    &&& final(self).view.active_column == v.active_column
                    &&& final(self).view.lists@ == match hj {
                        None => v.lists@,
                        Some((sel, off)) => v.lists@.update(
                            v.active_index(),
                            CardList {
                                selected: sel,
                                scroll_offset: visible_offset(sel, off, v.adjusted_height() as usize),
                                ..l
                            },
                        ),
                    }
                } else {
                    final(self).view == v
                }
            },
    {
        match self.focus.active {
            Focus::Boards => self.jump_board_list_half_viewport(true),
            Focus::Cards => self.jump_task_list_half_viewport(true),
        }
    }
}

impl App {
    /// `gg`: the first row of the focused panel (the tasks panel scrolls it
    /// into its card rows; the projects panel starts the tasks panel over in
    /// the grouped layout).
    pub fn handle_jump_to_top(&mut self)
        requires
            old(self).well_formed(),
        ensures
            final(self).well_formed(),
            old(self).focus.active == Focus::Boards ==> {
                &&& old(self).unchanged_except(final(self), (Touched { board_list: true, view: true, ..untouched() }))
                &&& final(self).board_list.ids@ == old(self).board_list.ids@
                &&& final(self).board_list.scroll_offset == old(self).board_list.scroll_offset
                &&& final(self).board_list.selected == if old(self).board_list.ids@.len() > 0 {
                    Some(0usize)
                } else {
                    old(self).board_list.selected
                }
                &&& final(self).view.is_fresh(old(self).view.viewport_height, TaskListView::GroupedByColumn)
            },
            old(self).focus.active == Focus::Cards ==> {
                let v = old(self).view;
                &&& old(self).unchanged_except(final(self), (Touched { view: true, ..untouched() }))
                &&& if v.has_active_list() {
                    let l = v.active_list();
                    let sel = if l.cards@.len() > 0 {
                        Some(0usize)
                    } else {
                        l.selected
                    };
                    &&& final(self).view.viewport_height == v.viewport_height
                    &&& final(self).view.layout == v.layout
                    &&& final(self).view.active_column == v.active_column
                    &&& final(self).view.column_boundaries@ == v.column_boundaries@
                    &&& final(self).view.lists@ == v.lists@.update(
                        v.active_index(),
                        CardList {
                            selected: sel,
                            scroll_offset: visible_offset(sel, l.scroll_offset, v.adjusted_height() as usize),
                            ..l
                        },
                    )
                } else {
                    final(self).view == v
                }
            },
    {
        match self.focus.active {
            Focus::Boards => {
                self.board_list.jump_to_top();
                self.switch_view_strategy(TaskListView::GroupedByColumn);
            },
            Focus::Cards => {
                let adjusted_viewport = self.get_adjusted_viewport_height();
                self.jump_active_list_to(false, adjusted_viewport);
            },
        }
    }

    /// `G`: the last row of the focused panel.
    pub fn handle_jump_to_bottom(&mut self)
        requires
            old(self).well_formed(),
        ensures
            final(self).well_formed(),
            old(self).focus.active == Focus::Boards ==> {
                &&& old(self).unchanged_except(final(self), (Touched { board_list: true, view: true, ..untouched() }))
                &&& final(self).board_list.ids@ == old(self).board_list.ids@
                &&& final(self).board_list.scroll_offset == old(self).board_list.scroll_offset
                &&& final(self).board_list.selected == if old(self).board_list.ids@.len() > 0 {
                    Some((old(self).board_list.ids@.len() - 1) as usize)
                } else {
                    old(self).board_list.selected
                }
                &&& if old(self).mode == AppMode::ArchivedBoardsView {
                    final(self).view == old(self).view
                } else {
                    final(self).view.is_fresh(old(self).view.viewport_height, TaskListView::GroupedByColumn)
                }
            },
            old(self).focus.active == Focus::Cards ==> {
                let v = old(self).view;
                &&& old(self).unchanged_except(final(self), (Touched { view: true, ..untouched() }))
                &&& if v.has_active_list() {
                    let l = v.active_list();
                    let sel = if l.cards@.len() > 0 {
                        Some((l.cards@.len() - 1) as usize)
                    } else {
                        l.selected
                    };
                    &&& final(self).view.viewport_height == v.viewport_height
                    &&& final(self).view.layout == v.layout
                    &&& final(self).view.active_column == v.active_column
                    &&& final(self).view.column_boundaries@ == v.column_boundaries@
                    &&& final(self).view.lists@ == v.lists@.update(
                        v.active_index(),
                        CardList {
                            selected: sel,
                            scroll_offset: visible_offset(sel, l.scroll_offset, v.adjusted_height() as usize),
                            ..l
                        },
                    )
                } else {
                    final(self).view == v
                }
            },
    {
        match self.focus.active {
            Focus::Boards => {
                self.board_list.jump_to_bottom();
                if !self.mode.is_archived_boards_view() {
                    self.switch_view_strategy(TaskListView::GroupedByColumn);
                }
            },
            Focus::Cards => {
                let adjusted_viewport = self.get_adjusted_viewport_height();
                self.jump_active_list_to(true, adjusted_viewport);
            },
        }
    }

    /// Selects the first (or, `to_last`, the last) row of a non-empty active
    /// list, then scrolls the selection into `height` rows.
    fn jump_active_list_to(&mut self, to_last: bool, height: usize)
        requires
            old(self).well_formed(),
        ensures
            final(self).well_formed(),
            old(self).unchanged_except(final(self), (Touched { view: true, ..untouched() })),
            ({
                let v = old(self).view;
                if v.has_active_list() {
                    let l = v.active_list();
                    let sel = if l.cards@.len() > 0 {
                        if to_last {
                            Some((l.cards@.len() - 1) as usize)
                        } else {
                            Some(0usize)
                        }
                    } else {
                        l.selected
                    };
                    &&& final(self).view.viewport_height == v.viewport_height
                    &&& final(self).view.layout == v.layout
                    &&& final(self).view.active_column == v.active_column
                    &&& final(self).view.column_boundaries@ == v.column_boundaries@
                    &&& final(self).view.lists@ == v.lists@.update(
                        v.active_index(),
                        CardList { selected: sel, scroll_offset: visible_offset(sel, l.scroll_offset, height), ..l },
                    )
                } else {
                    final(self).view == v
                }
            }),
    {
        if let Some(li) = self.view.active_list_index() {
            let ghost v = self.view;
            let list = &mut self.view.lists[li];
            if !list.is_empty() {
                let target = if to_last {
                    list.len() - 1
                } else {
                    0
                };
                list.jump_to(target);
            }
            list.ensure_selected_visible(height);
            proof {
                assert forall|i: int| 0 <= i < self.view.lists@.len() implies (#[trigger] self.view.lists@[i]).cards@.len()
                    + super::view::MAX_VIEWPORT_HEIGHT <= usize::MAX && self.view.lists@[i].well_formed()
                    && self.view.lists@[i].scroll_offset <= self.view.lists@[i].cards@.len() by {
                    if i != li {
                        assert(self.view.lists@[i] == v.lists@[i]);
                    }
                }
                let l = v.lists@[li as int];
                let sel = if l.cards@.len() > 0 {
                    if to_last {
                        Some((l.cards@.len() - 1) as usize)
                    } else {
                        Some(0usize)
                    }
                } else {
                    l.selected
                };
                assert(self.view.lists@ =~= v.lists@.update(
                    li as int,
                    CardList { selected: sel, scroll_offset: visible_offset(sel, l.scroll_offset, height), ..l },
                ));
            }
        }
    }

    /// The board a press of Enter in the projects panel activates: the
    /// highlighted one, when it is a board of the model.
    pub open spec fn board_to_activate(&self) -> Option<u128> {
        match self.board_list.selected_id() {
            Some(id) => if board_index(self.model.boards@, id).is_some() {
                Some(id)
            } else {
                None
            },
            None => None,
        }
    }

    /// Enter/Space. In the projects panel: the highlighted board (live or
    /// archived alike) becomes the active board, the tasks panel switches
    /// to its layout, the projects panel is resynced, the first task is
    /// selected and the tasks panel takes the focus. In the tasks panel: the
    /// selected card opens in the detail view, with its relationship panels
    /// sized to its parents and children.
    pub fn handle_selection_activate(&mut self)
        requires
            old(self).well_formed(),
        ensures
            final(self).well_formed(),
            old(self).focus.active == Focus::Boards ==> match old(self).board_to_activate() {
                None => old(self).unchanged_except(final(self), untouched()),
                Some(id) => {
                    let board = old(self).model.boards@[board_index(old(self).model.boards@, id).unwrap()];
                    let layout = board.task_list_view;
                    &&& old(self).unchanged_except(
                        final(self),
                        (Touched { selection: true, focus: true, view: true, board_list: true, filter: true, ..untouched() }),
                    )
                    &&& final(self).filter == (FilterState {
                        current_sort_field: Some(board.task_sort_field),
                        current_sort_order: Some(board.task_sort_order),
                        ..old(self).filter
                    })
                    &&& final(self).selection == (SelectionState {
                        active_board_id: Some(id),
                        ..old(self).selection
                    })
                    &&& final(self).focus == (FocusState { active: Focus::Cards, ..old(self).focus })
                    &&& fresh_tasks_shown(*final(self), final(self).view, old(self).view.viewport_height, layout)
                    &&& final(self).board_list.ids@ == old(self).displayed_ids(old(self).base_mode())
                    &&& final(self).board_list.selected == resynced_selection(
                        old(self).board_list.selected_id(),
                        old(self).displayed_ids(old(self).base_mode()),
                    )
                },
            },
            old(self).focus.active == Focus::Cards ==> match old(self).selected_card_in_context() {
                None => old(self).unchanged_except(final(self), untouched()),
                Some(card) => {
                    let edges = old(self).model.edges@;
                    &&& old(self).unchanged_except(
                        final(self),
                        (Touched { selection: true, relationship: true, mode: true, ..untouched() }),
                    )
                    &&& final(self).selection == (SelectionState {
                        active_card_id: Some(card),
                        ..old(self).selection
                    })
                    &&& final(self).relationship.parents_list.item_count == parents_of(edges, card).len()
                    &&& final(self).relationship.parents_list.selection.selected == clamp_selection(
                        old(self).relationship.parents_list.selection.selected,
                        parents_of(edges, card).len() as usize,
                    )
                    &&& final(self).relationship.children_list.item_count == children_of(edges, card).len()
                    &&& final(self).relationship.children_list.selection.selected == clamp_selection(
                        old(self).relationship.children_list.selection.selected,
                        children_of(edges, card).len() as usize,
                    )
                    &&& final(self).mode == AppMode::CardDetail
                    &&& final(self).mode_stack@ == old(self).mode_stack@.push(old(self).mode)
                },
            },
    {
        match self.focus.active {
            Focus::Boards => {
                let chosen = match self.board_list.get_selected_board_id() {
                    Some(id) => match self.model.board_by_id(id) {
                        Some(bi) => Some(
                            (
                                id,
                                self.model.boards[bi].task_list_view,
                                self.model.boards[bi].task_sort_field,
                                self.model.boards[bi].task_sort_order,
                            ),
                        ),
                        None => None,
                    },
                    None => None,
                };
                if let Some((board_id, task_list_view, sort_field, sort_order)) = chosen {
                    self.selection.active_board_id = Some(board_id);
                    self.filter.current_sort_field = Some(sort_field);
                    self.filter.current_sort_order = Some(sort_order);
                    self.switch_view_strategy(task_list_view);
                    self.prepare_frame();
                    let ghost s1 = *self;
                    self.refresh_view();
                    let ghost s2 = *self;
                    self.select_first_task();
                    self.focus.active = Focus::Cards;
                    proof {
                        lemma_query_reads(s1, *self);
                        lemma_query_reads(s2, *self);
                        lemma_first_fill(s1, s2.view, self.view);
                    }
                }
            },
            Focus::Cards => {
                if let Some(card_id) = self.get_selected_card_in_context() {
                    self.set_active_card_or_clear(card_id);
                    self.refresh_relationship_counts();
                    self.push_mode(AppMode::CardDetail);
                }
            },
        }
    }
}

} // verus!
