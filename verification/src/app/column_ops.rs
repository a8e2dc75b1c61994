//! Creating, renaming and deleting the columns of the active board, and the
//! dialogs that ask for them.

use super::board_detail::{active_column_order, board_columns_ordered, column_count_of, lemma_board_columns_unique};
use super::components::{recounted, reselected};
use super::dialogs::{edited, string_of, trimmed, trimmed_chars};
use super::model::{is_archived_card, Card, Column, EntityId, KanbanModel};
use super::card_detail::popped;
use super::components::{next_row, prev_row, ListSelection};
use super::model::{Board, TaskListView};
use super::modes::{AppMode, BoardFocus, DialogMode, Focus, Key};
use super::state::{untouched, App, DialogInputState, FocusState, Touched};
use vstd::prelude::*;

verus! {

/// A fresh random id for a new entity (`uuid::Uuid::new_v4`). Nothing is
/// promised of the value.
#[verifier::external_body]
pub(crate) fn new_entity_id() -> (r: EntityId) {
    uuid::Uuid::new_v4().as_u128()
}

/// The current time in milliseconds since the epoch
/// (`chrono::Utc::now().timestamp_millis()`). Nothing is promised of the value.
#[verifier::external_body]
pub(crate) fn now_millis() -> (r: i64) {
    chrono::Utc::now().timestamp_millis()
}

/// Largest position among the columns of `board`, if it has any.
pub open spec fn max_column_position(columns: Seq<Column>, board: EntityId) -> Option<i32>
    decreases columns.len(),
{
    if columns.len() == 0 {
        None
    } else {
        let rest = max_column_position(columns.drop_last(), board);
        let c = columns.last();
        if c.board_id != board {
            rest
        } else {
            match rest {
                Some(m) => if m >= c.position {
                    Some(m)
                } else {
                    Some(c.position)
                },
                None => Some(c.position),
            }
        }
    }
}

/// Position of a new column of `board`: after the last one.
pub open spec fn next_column_position(columns: Seq<Column>, board: EntityId) -> int {
    match max_column_position(columns, board) {
        Some(m) => m + 1,
        None => 0,
    }
}

/// Column positions leave room for one more column.
pub open spec fn positions_bounded(columns: Seq<Column>) -> bool {
    forall|i: int| 0 <= i < columns.len() ==> (#[trigger] columns[i]).position < i32::MAX
}

/// `cards` with the live cards of column `from` moved to column `to`,
/// keeping their positions.
pub open spec fn cards_moved(cards: Seq<Card>, archived: Seq<super::model::ArchivedCard>, from: EntityId, to: EntityId) -> Seq<
    Card,
> {
    Seq::new(
        cards.len(),
        |i: int|
            if cards[i].column_id == from && !is_archived_card(archived, cards[i].id) {
                Card { column_id: to, ..cards[i] }
            } else {
                cards[i]
            },
    )
}

impl KanbanModel {
    fn max_column_position_of(&self, board: EntityId) -> (r: Option<i32>)
        ensures
            r == max_column_position(self.columns@, board),
    {
        let mut best: Option<i32> = None;
        let mut i: usize = 0;
        while i < self.columns.len()
            invariant
                i <= self.columns@.len(),
                best == max_column_position(self.columns@.take(i as int), board),
            decreases self.columns@.len() - i,
        {
            proof {
                assert(self.columns@.take(i + 1).drop_last() =~= self.columns@.take(i as int));
            }
            if self.columns[i].board_id == board {
                let p = self.columns[i].position;
                best = match best {
                    Some(m) => if m >= p {
                        Some(m)
                    } else {
                        Some(p)
                    },
                    None => Some(p),
                };
            }
            i = i + 1;
        }
        proof {
            assert(self.columns@.take(self.columns@.len() as int) =~= self.columns@);
        }
        best
    }

    /// Moves the live cards of column `from` to column `to`.
    fn move_column_cards(&mut self, from: EntityId, to: EntityId)
        ensures
            final(self).cards@ == cards_moved(old(self).cards@, old(self).archived_cards@, from, to),
            final(self).boards == old(self).boards,
            final(self).columns == old(self).columns,
            final(self).archived_cards == old(self).archived_cards,
            final(self).sprints == old(self).sprints,
            final(self).edges == old(self).edges,
    {
        let ghost start = self.cards@;
        let mut i: usize = 0;
        while i < self.cards.len()
            invariant
                i <= self.cards@.len(),
                self.cards@.len() == start.len(),
                self.boards == old(self).boards,
                self.columns == old(self).columns,
                self.archived_cards == old(self).archived_cards,
                self.sprints == old(self).sprints,
                self.edges == old(self).edges,
                start == old(self).cards@,
                forall|k: int| 0 <= k < i ==> self.cards@[k] == cards_moved(start, self.archived_cards@, from, to)[k],
                forall|k: int| i <= k < start.len() ==> self.cards@[k] == start[k],
            decreases self.cards@.len() - i,
        {
            if self.cards[i].column_id == from && !self.is_card_archived(self.cards[i].id) {
                let c = &mut self.cards[i];
                c.column_id = to;
            }
            i = i + 1;
        }
        proof {
            assert(self.cards@ =~= cards_moved(start, self.archived_cards@, from, to));
        }
    }

    /// Number of columns of `board` other than `column`.
    fn other_column_count(&self, board: EntityId, column: EntityId) -> (r: usize)
        ensures
            r == super::model::count_where(self.columns@, |c: Column| c.board_id == board && c.id != column),
    {
        let ghost p = |c: Column| c.board_id == board && c.id != column;
        let mut n: usize = 0;
        let mut i: usize = 0;
        while i < self.columns.len()
            invariant
                i <= self.columns@.len(),
                p == (|c: Column| c.board_id == board && c.id != column),
                n == super::model::count_where(self.columns@.take(i as int), p),
                n <= i,
            decreases self.columns@.len() - i,
        {
            assert(self.columns@.take(i + 1).drop_last() =~= self.columns@.take(i as int));
            if self.columns[i].board_id == board && self.columns[i].id != column {
                n = n + 1;
            }
            i = i + 1;
        }
        assert(self.columns@.take(self.columns@.len() as int) =~= self.columns@);
        n
    }
}

/// Layout of row `row` of the layout picker (flat past the last row).
pub open spec fn layout_of_row(row: usize) -> TaskListView {
    if row == 1 {
        TaskListView::GroupedByColumn
    } else if row == 2 {
        TaskListView::ColumnView
    } else {
        TaskListView::Flat
    }
}

/// Row of `view` in the layout picker.
pub open spec fn row_of_layout(view: TaskListView) -> usize {
    match view {
        TaskListView::Flat => 0,
        TaskListView::GroupedByColumn => 1,
        TaskListView::ColumnView => 2,
    }
}

/// `after` is `before` with the layout picker's row as given.
pub open spec fn layout_row_set(before: App, after: App, row: Option<usize>) -> bool {
    &&& before.unchanged_except(&after, (Touched { dialog_input: true, ..untouched() }))
    &&& after.dialog_input == (DialogInputState {
        task_list_view_selection: ListSelection { selected: row },
        ..before.dialog_input
    })
}

/// The layout picker closed and cleared.
pub open spec fn layout_picker_closed(before: App, after: App) -> bool {
    &&& before.unchanged_except(&after, (Touched { mode: true, dialog_input: true, ..untouched() }))
    &&& popped(before, after)
    &&& after.dialog_input == (DialogInputState {
        task_list_view_selection: ListSelection { selected: None },
        ..before.dialog_input
    })
}

/// The row the columns list selects after a deletion left `remaining`
/// columns, the deleted one having been row `row`.
pub open spec fn row_after_delete(row: usize, remaining: nat) -> Option<usize> {
    if remaining == 0 {
        None
    } else if row >= remaining {
        Some((remaining - 1) as usize)
    } else {
        Some(row)
    }
}

/// What Enter does in the create-column dialog (see `create_column`).
pub open spec fn column_created(before: App, after: App) -> bool {
    let name = trimmed(before.input@);
    match before.active_board_index() {
        Some(bi) => if name.len() > 0 {
            let board = before.model.boards@[bi].id;
            let n = column_count_of(before.model.columns@, board);
            let cols = after.model.columns@;
            &&& before.unchanged_except(&after, (Touched { model: true, dialog_input: true, ..untouched() }))
            &&& after.model == (KanbanModel { columns: after.model.columns, ..before.model })
            &&& cols.len() == before.model.columns@.len() + 1
            &&& cols.drop_last() =~= before.model.columns@
            &&& cols.last().board_id == board
            &&& cols.last().name@ == name
            &&& cols.last().position == next_column_position(before.model.columns@, board)
            &&& after.dialog_input == (DialogInputState {
                column_list: reselected(
                    recounted(before.dialog_input.column_list, (n + 1) as usize),
                    Some(n as usize),
                ),
                ..before.dialog_input
            })
        } else {
            before.unchanged_except(&after, untouched())
        },
        None => before.unchanged_except(&after, untouched()),
    }
}

/// What Enter does in the rename-column dialog (see `rename_column`).
pub open spec fn column_renamed(before: App, after: App) -> bool {
    let name = trimmed(before.input@);
    match before.selected_column() {
        Some(ci) => if name.len() > 0 {
            let cols = after.model.columns@;
            &&& before.unchanged_except(&after, (Touched { model: true, ..untouched() }))
            &&& after.model == (KanbanModel { columns: after.model.columns, ..before.model })
            &&& cols =~= before.model.columns@.update(ci, Column { name: cols[ci].name, ..before.model.columns@[ci] })
            &&& cols[ci].name@ == name
        } else {
            before.unchanged_except(&after, untouched())
        },
        None => before.unchanged_except(&after, untouched()),
    }
}

/// What a confirmed column deletion does (see `delete_column`).
pub open spec fn column_deleted(before: App, after: App) -> bool {
    match (active_column_order(before), before.selected_column()) {
        (Some(order), Some(ci)) => if order.len() > 1 {
            let m = before.model;
            let board = m.boards@[before.active_board_index().unwrap()].id;
            let target = m.columns@[ci];
            let first = m.columns@[order[0] as int];
            let remaining = super::model::count_where(
                m.columns@,
                |c: Column| c.board_id == board && c.id != target.id,
            );
            let row = before.dialog_input.column_list.selection.selected.unwrap();
            &&& before.unchanged_except(&after, (Touched { model: true, dialog_input: true, ..untouched() }))
            &&& after.model.columns@ =~= m.columns@.remove(ci)
            &&& after.model.cards@ =~= if first.id != target.id {
                cards_moved(m.cards@, m.archived_cards@, target.id, first.id)
            } else {
                m.cards@
            }
            &&& after.model.boards == m.boards
            &&& after.model.archived_cards == m.archived_cards
            &&& after.model.sprints == m.sprints
            &&& after.model.edges == m.edges
            &&& after.dialog_input == (DialogInputState {
                column_list: reselected(
                    recounted(before.dialog_input.column_list, remaining as usize),
                    row_after_delete(row, remaining),
                ),
                ..before.dialog_input
            })
        } else {
            before.unchanged_except(&after, untouched())
        },
        _ => before.unchanged_except(&after, untouched()),
    }
}

impl App {
    /// Enter in the create-column dialog: a column named by the trimmed
    /// input is added at the end of the active board's columns and
    /// selected; nothing happens for an empty name.
    pub fn create_column(&mut self)
        requires
            old(self).well_formed(),
            positions_bounded(old(self).model.columns@),
        ensures
            final(self).well_formed(),
            column_created(*old(self), *final(self)),
    {
        let Some(bi) = self.active_board() else {
            return;
        };
        let board_id = self.model.boards[bi].id;
        let name = trimmed_chars(&self.input);
        if name.len() == 0 {
            return;
        }
        let position = match self.model.max_column_position_of(board_id) {
            Some(m) => {
                proof {
                    lemma_max_position_is_a_position(self.model.columns@, board_id);
                }
                m + 1
            },
            None => 0,
        };
        let prior = self.model.column_count_for_board(board_id);
        proof {
            super::model::lemma_count_where_bounded(self.model.columns@, |c: Column| c.board_id == board_id);
        }
        let id = new_entity_id();
        let created_at = now_millis();
        let column = Column { id, board_id, name: string_of(&name), position, created_at };
        self.model.columns.push(column);
        assert(prior < self.model.columns.len());
        self.dialog_input.column_list.update_item_count(prior + 1);
        self.dialog_input.column_list.selection.set(Some(prior));
    }

    /// Enter in the rename-column dialog: the selected column takes the
    /// trimmed input as its name, unless it is empty.
    pub fn rename_column(&mut self)
        requires
            old(self).well_formed(),
        ensures
            final(self).well_formed(),
            column_renamed(*old(self), *final(self)),
    {
        let Some(k) = self.dialog_input.column_list.selection.get() else {
            return;
        };
        let Some(bi) = self.active_board() else {
            return;
        };
        let board_id = self.model.boards[bi].id;
        let all = self.sorted_board_columns(board_id);
        proof {
            let o = choose|o: Seq<usize>| board_columns_ordered(self.model.columns@, board_id, o);
            lemma_board_columns_unique(self.model.columns@, board_id, all@, o);
        }
        let order = self.listed_board_columns(&all);
        if k >= order.len() {
            return;
        }
        let ci = order[k];
        let name = trimmed_chars(&self.input);
        if name.len() == 0 {
            return;
        }
        let ghost before = self.model.columns@;
        let new_name = string_of(&name);
        {
            let c = &mut self.model.columns[ci];
            c.name = new_name;
        }
        proof {
            assert(self.model.columns@ =~= before.update(
                ci as int,
                Column { name: self.model.columns@[ci as int].name, ..before[ci as int] },
            ));
        }
    }

    /// Confirmed deletion of the selected column: its live cards move to
    /// the board's first column (keeping their positions), the column goes,
    /// and the columns list is resized with the selection kept in range. A
    /// board's last column is kept.
    pub fn delete_column(&mut self)
        requires
            old(self).well_formed(),
        ensures
            final(self).well_formed(),
            column_deleted(*old(self), *final(self)),
    {
        let Some(bi) = self.active_board() else {
            return;
        };
        let Some(row) = self.dialog_input.column_list.selection.get() else {
            return;
        };
        let board_id = self.model.boards[bi].id;
        let order = self.sorted_board_columns(board_id);
        proof {
            let o = choose|o: Seq<usize>| board_columns_ordered(self.model.columns@, board_id, o);
            lemma_board_columns_unique(self.model.columns@, board_id, order@, o);
        }
        let listed = self.listed_board_columns(&order);
        if order.len() <= 1 || row >= listed.len() {
            return;
        }
        let ci = listed[row];
        let target_id = self.model.columns[ci].id;
        let first_id = self.model.columns[order[0]].id;
        let remaining = self.model.other_column_count(board_id, target_id);
        if first_id != target_id {
            self.model.move_column_cards(target_id, first_id);
        }
        self.model.columns.remove(ci);
        self.dialog_input.column_list.update_item_count(remaining);
        let next = if remaining == 0 {
            None
        } else if row >= remaining {
            Some(remaining - 1)
        } else {
            Some(row)
        };
        self.dialog_input.column_list.selection.set(next);
    }

    /// A key in the create-column dialog: Enter creates the column, Enter
    /// and Esc close the dialog back to the columns section with an empty
    /// input, other keys edit the name.
    pub fn handle_create_column_dialog(&mut self, key: Key)
        requires
            old(self).well_formed(),
            positions_bounded(old(self).model.columns@),
        ensures
            final(self).well_formed(),
            match key {
                Key::Esc | Key::Enter => {
                    &&& super::card_detail::popped(*old(self), *final(self))
                    &&& final(self).focus == (FocusState { board_focus: BoardFocus::Columns, ..old(self).focus })
                    &&& final(self).input@.len() == 0
                    &&& key == Key::Enter ==> column_created(
                        *old(self),
                        App { mode: old(self).mode, mode_stack: old(self).mode_stack, focus: old(self).focus, input: old(self).input, ..*final(self) },
                    )
                    &&& key == Key::Esc ==> old(self).unchanged_except(
                        final(self),
                        (Touched { mode: true, focus: true, input: true, ..untouched() }),
                    )
                },
                _ => {
                    &&& old(self).unchanged_except(final(self), (Touched { input: true, ..untouched() }))
                    &&& final(self).input@ == edited(old(self).input@, key)
                },
            },
    {
        match key {
            Key::Esc => {
                self.pop_mode();
                self.focus.board_focus = BoardFocus::Columns;
                self.input = String::new();
            },
            Key::Enter => {
                self.create_column();
                self.pop_mode();
                self.focus.board_focus = BoardFocus::Columns;
                self.input = String::new();
            },
            _ => {
                super::dialogs::handle_dialog_input(&mut self.input, key);
            },
        }
    }

    /// A key in the rename-column dialog.
    pub fn handle_rename_column_dialog(&mut self, key: Key)
        requires
            old(self).well_formed(),
        ensures
            final(self).well_formed(),
            match key {
                Key::Esc | Key::Enter => {
                    &&& super::card_detail::popped(*old(self), *final(self))
                    &&& final(self).focus == (FocusState { board_focus: BoardFocus::Columns, ..old(self).focus })
                    &&& final(self).input@.len() == 0
                    &&& key == Key::Enter ==> column_renamed(
                        *old(self),
                        App { mode: old(self).mode, mode_stack: old(self).mode_stack, focus: old(self).focus, input: old(self).input, ..*final(self) },
                    )
                    &&& key == Key::Esc ==> old(self).unchanged_except(
                        final(self),
                        (Touched { mode: true, focus: true, input: true, ..untouched() }),
                    )
                },
                _ => {
                    &&& old(self).unchanged_except(final(self), (Touched { input: true, ..untouched() }))
                    &&& final(self).input@ == edited(old(self).input@, key)
                },
            },
    {
        match key {
            Key::Esc => {
                self.pop_mode();
                self.focus.board_focus = BoardFocus::Columns;
                self.input = String::new();
            },
            Key::Enter => {
                self.rename_column();
                self.pop_mode();
                self.focus.board_focus = BoardFocus::Columns;
                self.input = String::new();
            },
            _ => {
                super::dialogs::handle_dialog_input(&mut self.input, key);
            },
        }
    }

    /// The column delete confirmation: Enter or `y` deletes, `n`, `q` or
    /// Esc declines; both go back to the columns section.
    pub fn handle_delete_column_confirm_popup(&mut self, key: Key)
        requires
            old(self).well_formed(),
        ensures
            final(self).well_formed(),
            super::board_handlers::is_confirm_key(key) || super::board_handlers::is_cancel_key(key) ==> {
                &&& super::card_detail::popped(*old(self), *final(self))
                &&& final(self).focus == (FocusState { board_focus: BoardFocus::Columns, ..old(self).focus })
            },
            super::board_handlers::is_confirm_key(key) ==> column_deleted(
                *old(self),
                App { mode: old(self).mode, mode_stack: old(self).mode_stack, focus: old(self).focus, ..*final(self) },
            ),
            super::board_handlers::is_cancel_key(key) ==> old(self).unchanged_except(
                final(self),
                (Touched { mode: true, focus: true, ..untouched() }),
            ),
            !super::board_handlers::is_confirm_key(key) && !super::board_handlers::is_cancel_key(key) ==> old(
                self,
            ).unchanged_except(final(self), untouched()),
    {
        if super::board_handlers::is_confirm(key) {
            self.delete_column();
            self.pop_mode();
            self.focus.board_focus = BoardFocus::Columns;
        } else if super::board_handlers::is_cancel(key) {
            self.pop_mode();
            self.focus.board_focus = BoardFocus::Columns;
        }
    }

    /// `v` in the tasks panel: the layout picker opens on the active
    /// board's layout.
    pub fn handle_toggle_task_list_view(&mut self)
        requires
            old(self).well_formed(),
        ensures
            final(self).well_formed(),
            match (old(self).focus.active == Focus::Cards, old(self).active_board_index()) {
                (true, Some(bi)) => {
                    &&& old(self).unchanged_except(final(self), (Touched { mode: true, dialog_input: true, ..untouched() }))
                    &&& final(self).dialog_input == (DialogInputState {
                        task_list_view_selection: ListSelection {
                            selected: Some(row_of_layout(old(self).model.boards@[bi].task_list_view)),
                        },
                        ..old(self).dialog_input
                    })
                    &&& final(self).mode == AppMode::Dialog(DialogMode::SelectTaskListView)
                    &&& final(self).mode_stack@ == old(self).mode_stack@.push(old(self).mode)
                },
                _ => old(self).unchanged_except(final(self), untouched()),
            },
    {
        if self.focus.active != Focus::Cards {
            return;
        }
        if let Some(bi) = self.active_board() {
            let row: usize = match self.model.boards[bi].task_list_view {
                TaskListView::Flat => 0,
                TaskListView::GroupedByColumn => 1,
                TaskListView::ColumnView => 2,
            };
            self.dialog_input.task_list_view_selection.set(Some(row));
            self.open_dialog(DialogMode::SelectTaskListView);
        }
    }

    /// A key in the layout picker: `j`/`k` move; Enter or space gives the
    /// active board the picked layout, shows it, and keeps the card under the
    /// cursor selected; Enter, space and Esc close the picker and clear it.
    #[verifier::rlimit(40)]
    pub fn handle_select_task_list_view_popup(&mut self, key: Key)
        requires
            old(self).well_formed(),
        ensures
            final(self).well_formed(),
            match key {
                Key::Esc => layout_picker_closed(*old(self), *final(self)),
                Key::Char('j') | Key::Down => layout_row_set(
                    *old(self),
                    *final(self),
                    next_row(old(self).dialog_input.task_list_view_selection.selected, 3),
                ),
                Key::Char('k') | Key::Up => layout_row_set(
                    *old(self),
                    *final(self),
                    prev_row(old(self).dialog_input.task_list_view_selection.selected),
                ),
                Key::Enter | Key::Char(' ') => match (
                    old(self).dialog_input.task_list_view_selection.selected,
                    old(self).active_board_index(),
                ) {
                    (Some(row), Some(bi)) => {
                        let view = layout_of_row(row);
                        let boards = final(self).model.boards@;
                        &&& final(self).model == (KanbanModel { boards: final(self).model.boards, ..old(self).model })
                        &&& boards == old(self).model.boards@.update(
                            bi,
                            Board { task_list_view: view, ..old(self).model.boards@[bi] },
                        )
                        &&& final(self).view.layout == view
                        &&& final(self).view.viewport_height == old(self).view.viewport_height
                        &&& layout_picker_closed(
                            *old(self),
                            App { model: old(self).model, view: old(self).view, ..*final(self) },
                        )
                    },
                    _ => layout_picker_closed(*old(self), *final(self)),
                },
                _ => old(self).unchanged_except(final(self), untouched()),
            },
    {
        match key {
            Key::Esc => {
                self.pop_mode();
                self.dialog_input.task_list_view_selection.clear();
            },
            Key::Char('j') | Key::Down => {
                self.dialog_input.task_list_view_selection.next(3);
            },
            Key::Char('k') | Key::Up => {
                self.dialog_input.task_list_view_selection.prev();
            },
            Key::Enter | Key::Char(' ') => {
                if let Some(row) = self.dialog_input.task_list_view_selection.get() {
                    let view = if row == 1 {
                        TaskListView::GroupedByColumn
                    } else if row == 2 {
                        TaskListView::ColumnView
                    } else {
                        TaskListView::Flat
                    };
                    let selected = self.view.active_selected_card();
                    if let Some(bi) = self.active_board() {
                        let ghost before = self.model.boards@;
                        {
                            let b = &mut self.model.boards[bi];
                            b.task_list_view = view;
                        }
                        proof {
                            assert(self.model.boards@ =~= before.update(
                                bi as int,
                                Board { task_list_view: view, ..before[bi as int] },
                            ));
                        }
                        self.switch_view_strategy(view);
                        if let Some(card) = selected {
                            self.select_card_by_id(card);
                        }
                    }
                }
                self.pop_mode();
                self.dialog_input.task_list_view_selection.clear();
            },
            _ => {},
        }
    }
}

/// The largest position of a board's columns is one of their positions.
proof fn lemma_max_position_is_a_position(columns: Seq<Column>, board: EntityId)
    ensures
        max_column_position(columns, board) matches Some(m) ==> exists|i: int|
            0 <= i < columns.len() && (#[trigger] columns[i]).position == m,
    decreases columns.len(),
{
    if columns.len() > 0 {
        let rest = columns.drop_last();
        lemma_max_position_is_a_position(rest, board);
        if let Some(m) = max_column_position(rest, board) {
            let i = choose|i: int| 0 <= i < rest.len() && (#[trigger] rest[i]).position == m;
            assert(columns[i] == rest[i]);
        }
        assert(columns[columns.len() - 1] == columns.last());
    }
}

/// The largest column position of a board bounds every column of it and is
/// the position of one of them; a board with no column has none. So a new
/// column goes past every column of its board.
pub proof fn law_max_column_position_bounds_the_board(columns: Seq<Column>, board: EntityId)
    ensures
        forall|i: int| 0 <= i < columns.len() && (#[trigger] columns[i]).board_id == board ==> {
            &&& max_column_position(columns, board) is Some
            &&& columns[i].position <= max_column_position(columns, board).unwrap()
            &&& columns[i].position < next_column_position(columns, board)
        },
        match max_column_position(columns, board) {
            Some(m) => exists|i: int|
                0 <= i < columns.len() && (#[trigger] columns[i]).board_id == board && columns[i].position == m,
            None => forall|i: int| 0 <= i < columns.len() ==> (#[trigger] columns[i]).board_id != board,
        },
    decreases columns.len(),
{
    if columns.len() > 0 {
        let rest = columns.drop_last();
        law_max_column_position_bounds_the_board(rest, board);
        assert forall|i: int| 0 <= i < columns.len() && (#[trigger] columns[i]).board_id == board implies {
            &&& max_column_position(columns, board) is Some
            &&& columns[i].position <= max_column_position(columns, board).unwrap()
            &&& columns[i].position < next_column_position(columns, board)
        } by {
            if i < columns.len() - 1 {
                assert(columns[i] == rest[i]);
            }
        }
        match max_column_position(columns, board) {
            Some(m) => {
                if max_column_position(rest, board) == Some(m) {
                    let i = choose|i: int|
                        0 <= i < rest.len() && (#[trigger] rest[i]).board_id == board && rest[i].position == m;
                    assert(columns[i] == rest[i]);
                } else {
                    assert(columns[columns.len() - 1] == columns.last());
                }
            },
            None => {
                assert forall|i: int| 0 <= i < columns.len() implies (#[trigger] columns[i]).board_id != board by {
                    if i < columns.len() - 1 {
                        assert(columns[i] == rest[i]);
                    }
                }
            },
        }
    }
}

} // verus!
