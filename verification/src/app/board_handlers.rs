//! Key handlers of the projects panel.

use super::components::{resynced_selection, ListSelection};
use super::model::{
    lemma_board_index,
    Board, StoreError, TaskListView,
    board_column_ids, board_ids_where_archived, board_index, count_where, is_archived_card, ArchivedCard, Card,
    EntityId, Sprint, toggled_order, BoardSortField, SortOrder, BOARD_SORT_FIELD_COUNT, board_sort_field_row,
    popup_index_of_board_sort_field, board_sort_field_at_popup_index, board_sort_field_on_row,
};
use super::modes::{AppMode, BoardFocus, DialogMode, Focus, Key};
use super::state::{
    insert_id, untouched, with_id, App, BoardDeleteCounts, DialogInputState, FilterState, SelectionState, Touched,
};
use super::card_detail::popped;
use super::board_sort::{shown_board_ids, shown_boards};
use super::state::board_sort_of;
use super::components::{next_row, prev_row};
use vstd::prelude::*;

verus! {

/// Browsing the projects list (live or archived) with no board activated:
/// where the projects-list sort keys work.
pub open spec fn browsing_boards(app: App) -> bool {
    &&& app.selection.active_board_id.is_none()
    &&& app.focus.active == Focus::Boards
    &&& (app.mode == AppMode::ArchivedBoardsView || app.mode == AppMode::Normal)
}

/// `filter` with the live (or archived) projects list sorted by `sort`.
pub open spec fn with_board_sort(filter: FilterState, archived: bool, sort: (BoardSortField, SortOrder)) -> FilterState {
    if archived {
        FilterState { archived_board_sort: sort, ..filter }
    } else {
        FilterState { board_sort: sort, ..filter }
    }
}

/// The projects list of `after` shows the live (or archived) boards of
/// `before`, with the highlight kept on the same board.
pub open spec fn board_list_resynced(before: App, after: App, archived: bool) -> bool {
    let shown = shown_boards(before.model.boards@, archived, board_sort_of(after.filter, archived));
    &&& after.board_list.ids@ == shown
    &&& after.board_list.selected == resynced_selection(before.board_list.selected_id(), shown)
    &&& after.board_list.scroll_offset == before.board_list.scroll_offset
    &&& after.needs_redraw
}

/// The direction a confirming key of a sort-field picker gives: Enter or
/// Space on the field already in use reverses its direction (ascending when
/// it has none); otherwise `d` sorts descending and any other key ascending.
pub open spec fn picked_order(same_field: bool, current: Option<SortOrder>, key: Key) -> SortOrder {
    if same_field && (key == Key::Enter || key == Key::Char(' ')) {
        match current {
            Some(o) => toggled_order(o),
            None => SortOrder::Ascending,
        }
    } else if key == Key::Char('d') {
        SortOrder::Descending
    } else {
        SortOrder::Ascending
    }
}

/// What a confirming key does in the projects sort-field picker.
pub open spec fn board_sort_confirmed(before: App, after: App, key: Key, persist: bool) -> bool {
    let unchanged = before.unchanged_except(&after, untouched()) && !persist;
    match before.filter.board_sort_field_selection.selected {
        None => unchanged,
        Some(row) => if row >= BOARD_SORT_FIELD_COUNT {
            unchanged
        } else {
            let archived = before.base_mode() == AppMode::ArchivedBoardsView;
            let field = board_sort_field_on_row(row);
            let current = board_sort_of(before.filter, archived);
            let order = picked_order(current.0 == field, Some(current.1), key);
            let cleared = FilterState { board_sort_field_selection: ListSelection { selected: None }, ..before.filter };
            &&& before.unchanged_except(
                &after,
                (Touched { filter: true, board_list: true, redraw: true, mode: true, ..untouched() }),
            )
            &&& board_sort_field_row(field) == row
            &&& after.filter == with_board_sort(cleared, archived, (field, order))
            &&& board_list_resynced(before, after, archived)
            &&& popped(before, after)
            &&& persist == !archived
        },
    }
}

/// What a key does in the projects sort-field picker.
pub open spec fn order_boards_popup_handled(before: App, after: App, key: Key, persist: bool) -> bool {
    let moved = |row: Option<usize>|
        before.unchanged_except(&after, (Touched { filter: true, ..untouched() })) && after.filter == (FilterState {
            board_sort_field_selection: ListSelection { selected: row },
            ..before.filter
        }) && !persist;
    match key {
        Key::Esc => {
            &&& before.unchanged_except(&after, (Touched { filter: true, mode: true, ..untouched() }))
            &&& popped(before, after)
            &&& after.filter == (FilterState {
                board_sort_field_selection: ListSelection { selected: None },
                ..before.filter
            })
            &&& !persist
        },
        Key::Down | Key::Char('j') => moved(next_row(before.filter.board_sort_field_selection.selected, BOARD_SORT_FIELD_COUNT)),
        Key::Up | Key::Char('k') => moved(prev_row(before.filter.board_sort_field_selection.selected)),
        Key::Enter | Key::Char(' ') | Key::Char('a') | Key::Char('d') => board_sort_confirmed(before, after, key, persist),
        _ => before.unchanged_except(&after, untouched()) && !persist,
    }
}


/// Entity counts owned by a board: its distinct columns, the live cards in
/// them, its archived cards and its sprints.
pub open spec fn delete_counts_of(app: App, board_id: EntityId) -> (nat, nat, nat, nat) {
    let cols = board_column_ids(app.model.columns@, board_id);
    (
        cols.len(),
        count_where(
            app.model.cards@,
            |c: Card| cols.contains(c.column_id) && !is_archived_card(app.model.archived_cards@, c.id),
        ),
        count_where(app.model.archived_cards@, |a: ArchivedCard| a.board_id == board_id),
        count_where(app.model.sprints@, |s: Sprint| s.board_id == board_id),
    )
}

pub open spec fn counts_match(counts: BoardDeleteCounts, expected: (nat, nat, nat, nat)) -> bool {
    counts.columns == expected.0 && counts.cards == expected.1 && counts.archived == expected.2 && counts.sprints
        == expected.3
}

impl App {
    pub fn handle_board_selection_toggle(&mut self)
        requires
            old(self).well_formed(),
        ensures
            old(self).unchanged_except(final(self), (Touched { multi_select: true, ..untouched() })),
            final(self).multi_select.selection_mode_active == old(self).multi_select.selection_mode_active,
            final(self).multi_select.selected_cards@ == old(self).multi_select.selected_cards@,
            old(self).focus.active != Focus::Boards ==> final(self).multi_select == old(self).multi_select,
            old(self).focus.active == Focus::Boards && old(self).multi_select.board_selection_mode_active
                ==> !final(self).multi_select.board_selection_mode_active
                && final(self).multi_select.selected_boards@ == old(self).multi_select.selected_boards@,
            old(self).focus.active == Focus::Boards && !old(self).multi_select.board_selection_mode_active
                ==> final(self).multi_select.board_selection_mode_active
                && final(self).multi_select.selected_boards@ == match old(self).board_list.selected_id() {
                Some(id) => with_id(old(self).multi_select.selected_boards@, id),
                None => old(self).multi_select.selected_boards@,
            },
            final(self).well_formed(),
    {
        if self.focus.active == Focus::Boards {
            if self.multi_select.board_selection_mode_active {
                self.multi_select.board_selection_mode_active = false;
            } else {
                self.multi_select.board_selection_mode_active = true;
                if let Some(board_id) = self.board_list.get_selected_board_id() {
                    insert_id(&mut self.multi_select.selected_boards, board_id);
                }
            }
        }
    }

    pub fn handle_clear_board_selection(&mut self)
        requires
            old(self).well_formed(),
        ensures
            old(self).unchanged_except(final(self), (Touched { multi_select: true, ..untouched() })),
            final(self).multi_select.selected_boards@.len() == 0,
            final(self).multi_select.board_selection_mode_active == old(self).multi_select.board_selection_mode_active,
            final(self).multi_select.selection_mode_active == old(self).multi_select.selection_mode_active,
            final(self).multi_select.selected_cards@ == old(self).multi_select.selected_cards@,
            final(self).well_formed(),
    {
        self.multi_select.selected_boards.clear();
    }

    pub fn handle_select_all_boards_in_view(&mut self)
        requires
            old(self).well_formed(),
        ensures
            old(self).unchanged_except(final(self), (Touched { multi_select: true, ..untouched() })),
            final(self).multi_select.selection_mode_active == old(self).multi_select.selection_mode_active,
            final(self).multi_select.selected_cards@ == old(self).multi_select.selected_cards@,
            old(self).focus.active != Focus::Boards ==> final(self).multi_select == old(self).multi_select,
            old(self).focus.active == Focus::Boards ==> {
                &&& forall|x: EntityId|
                    final(self).multi_select.selected_boards@.contains(x) <==> (old(self).multi_select.selected_boards@.contains(x) || old(self).board_list.ids@.contains(x))
                &&& final(self).multi_select.board_selection_mode_active == (old(self).multi_select.board_selection_mode_active || old(self).board_list.ids@.len() > 0)
            },
            final(self).well_formed(),
    {
        if self.focus.active != Focus::Boards {
            return;
        }
        let ghost start = self.multi_select.selected_boards@;
        let mut i: usize = 0;
        while i < self.board_list.ids.len()
            invariant
                self.well_formed(),
                i <= self.board_list.ids@.len(),
                self.board_list == old(self).board_list,
                old(self).unchanged_except(self, (Touched { multi_select: true, ..untouched() })),
                self.multi_select.board_selection_mode_active == old(self).multi_select.board_selection_mode_active,
                self.multi_select.selection_mode_active == old(self).multi_select.selection_mode_active,
                self.multi_select.selected_cards@ == old(self).multi_select.selected_cards@,
                start == old(self).multi_select.selected_boards@,
                forall|x: EntityId|
                    #[trigger] self.multi_select.selected_boards@.contains(x) <==> (start.contains(x)
                        || self.board_list.ids@.take(i as int).contains(x)),
            decreases self.board_list.ids@.len() - i,
        {
            let id = self.board_list.ids[i];
            let ghost before = self.multi_select.selected_boards@;
            insert_id(&mut self.multi_select.selected_boards, id);
            proof {
                let ids = self.board_list.ids@;
                assert(ids.take(i + 1) =~= ids.take(i as int).push(id));
                assert forall|x: EntityId|
                    #[trigger] self.multi_select.selected_boards@.contains(x) <==> (start.contains(x)
                        || ids.take(i + 1).contains(x)) by {
                    assert(before.contains(x) <==> (start.contains(x) || ids.take(i as int).contains(x)));
                    assert(ids.take(i + 1).contains(x) <==> (ids.take(i as int).contains(x) || x == id)) by {
                        if ids.take(i + 1).contains(x) && x != id {
                            let j = choose|j: int| 0 <= j < i + 1 && #[trigger] ids.take(i + 1)[j] == x;
                            assert(ids.take(i as int)[j] == x);
                        }
                        if ids.take(i as int).contains(x) {
                            let j = choose|j: int| 0 <= j < i && #[trigger] ids.take(i as int)[j] == x;
                            assert(ids.take(i + 1)[j] == x);
                        }
                        if x == id {
                            assert(ids.take(i + 1)[i as int] == x);
                        }
                    }
                }
            }
            i = i + 1;
        }
        proof {
            assert(self.board_list.ids@.take(self.board_list.ids@.len() as int) =~= self.board_list.ids@);
        }
        if !self.board_list.is_empty() {
            self.multi_select.board_selection_mode_active = true;
        }
    }

    pub fn handle_create_board_key(&mut self)
        requires
            old(self).well_formed(),
        ensures
            old(self).focus.active != Focus::Boards ==> old(self).unchanged_except(final(self), untouched()),
            old(self).focus.active == Focus::Boards ==> {
                &&& old(self).unchanged_except(final(self), (Touched { mode: true, input: true, ..untouched() }))
                &&& final(self).mode == AppMode::Dialog(DialogMode::CreateBoard)
                &&& final(self).mode_stack@ == old(self).mode_stack@.push(old(self).mode)
                &&& final(self).input@.len() == 0
            },
            final(self).well_formed(),
    {
        if self.focus.active == Focus::Boards {
            self.open_dialog(DialogMode::CreateBoard);
            self.input = String::new();
        }
    }

    pub fn handle_rename_board_key(&mut self)
        requires
            old(self).well_formed(),
        ensures
            ({
                let target = match old(self).board_list.selected_id() {
                    Some(id) => board_index(old(self).model.boards@, id),
                    None => None,
                };
                &&& (old(self).focus.active != Focus::Boards || target.is_none()) ==> old(self).unchanged_except(
                    final(self),
                    untouched(),
                )
                &&& (old(self).focus.active == Focus::Boards && target.is_some()) ==> {
                    &&& old(self).unchanged_except(final(self), (Touched { mode: true, input: true, ..untouched() }))
                    &&& final(self).input@ == old(self).model.boards@[target.unwrap()].name@
                    &&& final(self).mode == AppMode::Dialog(DialogMode::RenameBoard)
                    &&& final(self).mode_stack@ == old(self).mode_stack@.push(old(self).mode)
                }
            }),
            final(self).well_formed(),
    {
        if self.focus.active == Focus::Boards {
            if let Some(id) = self.board_list.get_selected_board_id() {
                if let Some(idx) = self.model.board_by_id(id) {
                    let name = self.model.boards[idx].name.clone();
                    self.input = name;
                    self.open_dialog(DialogMode::RenameBoard);
                }
            }
        }
    }

    pub fn handle_edit_board_key(&mut self)
        requires
            old(self).well_formed(),
        ensures
            (old(self).focus.active != Focus::Boards || old(self).board_list.selected_id().is_none()) ==> old(self).unchanged_except(final(self), untouched()),
            (old(self).focus.active == Focus::Boards && old(self).board_list.selected_id().is_some()) ==> {
                &&& old(self).unchanged_except(
                    final(self),
                    (Touched { mode: true, focus: true, selection: true, ..untouched() }),
                )
                &&& final(self).selection == (SelectionState {
                    active_board_id: old(self).board_list.selected_id(),
                    ..old(self).selection
                })
                &&& final(self).mode == AppMode::BoardDetail
                &&& final(self).mode_stack@ == old(self).mode_stack@.push(old(self).mode)
                &&& final(self).focus.board_focus == BoardFocus::Name
                &&& final(self).focus.active == old(self).focus.active
                &&& final(self).focus.card_focus == old(self).focus.card_focus
                &&& final(self).focus.settings_focus == old(self).focus.settings_focus
            },
            final(self).well_formed(),
    {
        if self.focus.active == Focus::Boards {
            // Opening a board's detail makes it the active board (by id), from
            // the currently displayed set, live or archived alike.
            if let Some(board_id) = self.board_list.get_selected_board_id() {
                self.selection.active_board_id = Some(board_id);
                self.push_mode(AppMode::BoardDetail);
                self.focus.board_focus = BoardFocus::Name;
            }
        }
    }

    /// Opens the import dialog over `files`, the `.json` files found in the
    /// working directory (sorted), when there is at least one.
    pub fn handle_import_board_key(&mut self, files: Vec<String>)
        requires
            old(self).well_formed(),
        ensures
            old(self).focus.active != Focus::Boards ==> old(self).unchanged_except(final(self), untouched()),
            old(self).focus.active == Focus::Boards && files@.len() == 0 ==> {
                &&& old(self).unchanged_except(final(self), (Touched { dialog_input: true, ..untouched() }))
                &&& final(self).dialog_input.import_files@.len() == 0
                &&& final(self).dialog_input == (DialogInputState {
                    import_files: final(self).dialog_input.import_files,
                    ..old(self).dialog_input
                })
            },
            old(self).focus.active == Focus::Boards && files@.len() > 0 ==> {
                &&& old(self).unchanged_except(final(self), (Touched { mode: true, dialog_input: true, ..untouched() }))
                &&& final(self).dialog_input.import_files@ == files@
                &&& final(self).dialog_input.import_selection.selected == Some(0usize)
                &&& final(self).dialog_input == (DialogInputState {
                    import_files: final(self).dialog_input.import_files,
                    import_selection: final(self).dialog_input.import_selection,
                    ..old(self).dialog_input
                })
                &&& final(self).mode == AppMode::Dialog(DialogMode::ImportBoard)
                &&& final(self).mode_stack@ == old(self).mode_stack@.push(old(self).mode)
            },
            final(self).well_formed(),
    {
        if self.focus.active == Focus::Boards {
            self.dialog_input.import_files = files;
            if self.dialog_input.import_files.len() > 0 {
                self.dialog_input.import_selection.set(Some(0));
                self.open_dialog(DialogMode::ImportBoard);
            }
        }
    }

    /// Entity counts owned by `board_id` (columns, live cards, archived
    /// cards, sprints), shown in the delete-confirmation dialog.
    pub fn board_delete_counts(&self, board_id: EntityId) -> (r: BoardDeleteCounts)
        ensures
            counts_match(r, delete_counts_of(*self, board_id)),
    {
        // distinct column ids of the board
        let col_ids = self.model.column_ids_for_board(board_id);
        let mut distinct: Vec<EntityId> = Vec::new();
        let mut i: usize = 0;
        while i < col_ids.len()
            invariant
                i <= col_ids@.len(),
                distinct@.no_duplicates(),
                distinct@.len() <= i,
                forall|x: EntityId|
                    distinct@.contains(x) <==> exists|j: int| 0 <= j < i && col_ids@[j] == x,
            decreases col_ids@.len() - i,
        {
            insert_id(&mut distinct, col_ids[i]);
            i = i + 1;
        }
        let ghost cols = board_column_ids(self.model.columns@, board_id);
        proof {
            assert forall|x: EntityId| distinct@.to_set().contains(x) <==> cols.contains(x) by {
                assert(col_ids@.contains(x) <==> exists|j: int|
                    0 <= j < col_ids@.len() && col_ids@[j] == x);
            }
            assert(distinct@.to_set() =~= cols);
            distinct@.unique_seq_to_set();
        }
        let columns = distinct.len();

        // live cards in those columns
        let ghost card_pred = |c: Card| cols.contains(c.column_id) && !is_archived_card(self.model.archived_cards@, c.id);
        let mut cards: usize = 0;
        let mut k: usize = 0;
        while k < self.model.cards.len()
            invariant
                k <= self.model.cards@.len(),
                card_pred == (|c: Card| cols.contains(c.column_id) && !is_archived_card(self.model.archived_cards@, c.id)),
                forall|x: EntityId| distinct@.contains(x) <==> cols.contains(x),
                cards == count_where(self.model.cards@.take(k as int), card_pred),
                cards <= k,
            decreases self.model.cards@.len() - k,
        {
            assert(self.model.cards@.take(k + 1).drop_last() =~= self.model.cards@.take(k as int));
            let col = self.model.cards[k].column_id;
            let id = self.model.cards[k].id;
            if super::model::contains_id(&distinct, col) && !self.model.is_card_archived(id) {
                cards = cards + 1;
            }
            k = k + 1;
        }
        assert(self.model.cards@.take(self.model.cards@.len() as int) =~= self.model.cards@);

        // archived cards of the board
        let ghost arch_pred = |a: ArchivedCard| a.board_id == board_id;
        let mut archived: usize = 0;
        let mut k: usize = 0;
        while k < self.model.archived_cards.len()
            invariant
                k <= self.model.archived_cards@.len(),
                arch_pred == (|a: ArchivedCard| a.board_id == board_id),
                archived == count_where(self.model.archived_cards@.take(k as int), arch_pred),
                archived <= k,
            decreases self.model.archived_cards@.len() - k,
        {
            assert(self.model.archived_cards@.take(k + 1).drop_last() =~= self.model.archived_cards@.take(k as int));
            if self.model.archived_cards[k].board_id == board_id {
                archived = archived + 1;
            }
            k = k + 1;
        }
        assert(self.model.archived_cards@.take(self.model.archived_cards@.len() as int) =~= self.model.archived_cards@);

        // sprints of the board
        let ghost sprint_pred = |s: Sprint| s.board_id == board_id;
        let mut sprints: usize = 0;
        let mut k: usize = 0;
        while k < self.model.sprints.len()
            invariant
                k <= self.model.sprints@.len(),
                sprint_pred == (|s: Sprint| s.board_id == board_id),
                sprints == count_where(self.model.sprints@.take(k as int), sprint_pred),
                sprints <= k,
            decreases self.model.sprints@.len() - k,
        {
            assert(self.model.sprints@.take(k + 1).drop_last() =~= self.model.sprints@.take(k as int));
            if self.model.sprints[k].board_id == board_id {
                sprints = sprints + 1;
            }
            k = k + 1;
        }
        assert(self.model.sprints@.take(self.model.sprints@.len() as int) =~= self.model.sprints@);

        BoardDeleteCounts { columns, cards, archived, sprints }
    }

    pub fn handle_delete_board_key(&mut self)
        requires
            old(self).well_formed(),
        ensures
            (old(self).focus.active != Focus::Boards || old(self).board_list.selected_id().is_none()) ==> old(self).unchanged_except(final(self), untouched()),
            (old(self).focus.active == Focus::Boards && old(self).board_list.selected_id().is_some()) ==> {
                &&& old(self).unchanged_except(final(self), (Touched { mode: true, dialog_input: true, ..untouched() }))
                &&& final(self).dialog_input.board_delete_counts matches Some(c) && counts_match(
                    c,
                    delete_counts_of(*old(self), old(self).board_list.selected_id().unwrap()),
                )
                &&& final(self).dialog_input.import_files == old(self).dialog_input.import_files
                &&& final(self).dialog_input.import_selection == old(self).dialog_input.import_selection
                &&& final(self).dialog_input.priority_selection == old(self).dialog_input.priority_selection
                &&& final(self).dialog_input.column_list == old(self).dialog_input.column_list
                &&& final(self).mode == AppMode::Dialog(DialogMode::DeleteBoardConfirm)
                &&& final(self).mode_stack@ == old(self).mode_stack@.push(old(self).mode)
            },
            final(self).well_formed(),
    {
        if self.focus.active == Focus::Boards {
            if let Some(board_id) = self.board_list.get_selected_board_id() {
                // Snapshot the counts once, here, rather than on every frame.
                self.dialog_input.board_delete_counts = Some(self.board_delete_counts(board_id));
                self.open_dialog(DialogMode::DeleteBoardConfirm);
            }
        }
    }

    /// Opens the permanent-delete confirmation for the highlighted archived
    /// board (`x` in the archived-projects view).
    pub fn handle_delete_archived_board_key(&mut self)
        requires
            old(self).well_formed(),
        ensures
            (old(self).mode != AppMode::ArchivedBoardsView || old(self).board_list.selected_id().is_none()) ==> old(self).unchanged_except(final(self), untouched()),
            (old(self).mode == AppMode::ArchivedBoardsView && old(self).board_list.selected_id().is_some()) ==> {
                &&& old(self).unchanged_except(final(self), (Touched { mode: true, dialog_input: true, ..untouched() }))
                &&& final(self).dialog_input.board_delete_counts matches Some(c) && counts_match(
                    c,
                    delete_counts_of(*old(self), old(self).board_list.selected_id().unwrap()),
                )
                &&& final(self).dialog_input.import_files == old(self).dialog_input.import_files
                &&& final(self).dialog_input.import_selection == old(self).dialog_input.import_selection
                &&& final(self).dialog_input.priority_selection == old(self).dialog_input.priority_selection
                &&& final(self).dialog_input.column_list == old(self).dialog_input.column_list
                &&& final(self).mode == AppMode::Dialog(DialogMode::DeletePermanentBoardConfirm)
                &&& final(self).mode_stack@ == old(self).mode_stack@.push(old(self).mode)
            },
            final(self).well_formed(),
    {
        if !self.mode.is_archived_boards_view() {
            return;
        }
        let Some(board_id) = self.board_list.get_selected_board_id() else {
            return;
        };
        self.dialog_input.board_delete_counts = Some(self.board_delete_counts(board_id));
        self.open_dialog(DialogMode::DeletePermanentBoardConfirm);
    }
}


/// Row to highlight after a list shrank to `len` rows: the same position,
/// clamped to the last row, or none when empty.
pub open spec fn clamped_row(index: usize, len: nat) -> Option<usize> {
    if len == 0 {
        None
    } else if index < len {
        Some(index)
    } else {
        Some((len - 1) as usize)
    }
}

/// Layout of the board that is still viewed, or the default layout.
pub open spec fn surviving_layout(app: App) -> TaskListView {
    match app.active_board_index() {
        Some(j) => app.model.boards@[j].task_list_view,
        None => TaskListView::Flat,
    }
}

/// Active board after `board_id` left the displayed set.
pub open spec fn active_after_removal(active: Option<EntityId>, board_id: EntityId) -> Option<EntityId> {
    if active == Some(board_id) {
        None
    } else {
        active
    }
}

impl App {
    /// The highlighted row index, or the first row.
    fn selected_row_or_first(&self) -> (r: usize)
        ensures
            r == match self.board_list.selected {
                Some(i) => i,
                None => 0,
            },
    {
        match self.board_list.get_selected_index() {
            Some(i) => i,
            None => 0,
        }
    }

    /// Highlights the row a removal vacated, clamped to the shrunken list.
    fn clamp_board_highlight(&mut self, index: usize)
        requires
            old(self).well_formed(),
        ensures
            old(self).unchanged_except(final(self), (Touched { board_list: true, ..untouched() })),
            final(self).board_list.ids@ == old(self).board_list.ids@,
            final(self).board_list.scroll_offset == old(self).board_list.scroll_offset,
            final(self).board_list.selected == clamped_row(index, old(self).board_list.ids@.len()),
            final(self).well_formed(),
    {
        let remaining = self.board_list.len();
        if remaining == 0 {
            self.board_list.set_selected_index(None);
        } else if index < remaining {
            self.board_list.set_selected_index(Some(index));
        } else {
            self.board_list.set_selected_index(Some(remaining - 1));
        }
    }

    /// Archives the highlighted board: it leaves the live list (its columns
    /// and cards stay in place) and appears in the archived-projects view.
    /// The highlight stays on the vacated position; the viewed board, when it
    /// was the archived one, is no longer viewed.
    pub fn delete_board(&mut self)
        requires
            old(self).well_formed(),
        ensures
            old(self).board_list.selected_id().is_none() ==> old(self).unchanged_except(final(self), untouched()),
            (match old(self).board_list.selected_id() {
                None => true,
                Some(id) => match board_index(old(self).model.boards@, id) {
                    None => old(self).unchanged_except(final(self), (Touched { error: true, ..untouched() }))
                        && final(self).error_message is Some,
                    Some(i) => {
                        let boards = old(self).model.boards@.update(
                            i,
                            Board { archived: true, ..old(self).model.boards@[i] },
                        );
                        let archived = old(self).base_mode() == AppMode::ArchivedBoardsView;
                        let shown = shown_boards(boards, archived, board_sort_of(old(self).filter, archived));
                        &&& old(self).unchanged_except(
                            final(self),
                            (Touched { model: true, board_list: true, selection: true, view: true, ..untouched() }),
                        )
                        &&& final(self).model.boards@ == boards
                        &&& final(self).model.columns@ == old(self).model.columns@
                        &&& final(self).model.cards@ == old(self).model.cards@
                        &&& final(self).model.archived_cards@ == old(self).model.archived_cards@
                        &&& final(self).model.sprints@ == old(self).model.sprints@
                        &&& final(self).model.edges@ == old(self).model.edges@
                        &&& final(self).board_list.ids@ == shown
                        &&& final(self).board_list.selected == clamped_row(
                            match old(self).board_list.selected {
                                Some(r) => r,
                                None => 0,
                            },
                            shown.len(),
                        )
                        &&& final(self).selection == (SelectionState {
                            active_board_id: active_after_removal(old(self).selection.active_board_id, id),
                            ..old(self).selection
                        })
                        &&& final(self).view.is_fresh(old(self).view.viewport_height, surviving_layout(*final(self)))
                    },
                },
            }),
            final(self).well_formed(),
    {
        let Some(board_id) = self.board_list.get_selected_board_id() else {
            return;
        };
        let idx = self.selected_row_or_first();

        match self.model.set_board_archived(board_id, true) {
            Ok(()) => {},
            Err(StoreError::BoardNotFound) => {
                self.set_error("Failed to archive board: board not found");
                return;
            },
        }
        proof {
            super::model::lemma_board_index(old(self).model.boards@, board_id);
        }
        assert(self.model.boards@.len() == old(self).model.boards@.len());
        self.prepare_frame();
        self.clamp_board_highlight(idx);

        // The viewed board is tracked by identity: stop viewing it when it
        // is the one archived.
        if self.selection.active_board_id == Some(board_id) {
            self.selection.active_board_id = None;
        }

        let layout = match self.active_board() {
            Some(j) => self.model.boards[j].task_list_view,
            None => TaskListView::default_view(),
        };
        self.switch_view_strategy(layout);
    }

    /// A key in the archive-board confirmation: Enter/`y` archives and
    /// closes, `n`/`q`/Esc closes; either way the count snapshot is dropped.
    pub fn handle_delete_board_confirm_popup(&mut self, key: Key)
        requires
            old(self).well_formed(),
        ensures
            !is_confirm_key(key) && !is_cancel_key(key) ==> old(self).unchanged_except(final(self), untouched()),
            is_cancel_key(key) ==> {
                &&& old(self).unchanged_except(final(self), (Touched { mode: true, dialog_input: true, ..untouched() }))
                &&& old(self).mode_stack@.len() > 0 ==> final(self).mode == old(self).mode_stack@.last()
                    && final(self).mode_stack@ == old(self).mode_stack@.drop_last()
                &&& old(self).mode_stack@.len() == 0 ==> final(self).mode == AppMode::Normal
                &&& final(self).dialog_input.board_delete_counts.is_none()
                &&& final(self).dialog_input.import_files == old(self).dialog_input.import_files
                &&& final(self).dialog_input.import_selection == old(self).dialog_input.import_selection
                &&& final(self).dialog_input.priority_selection == old(self).dialog_input.priority_selection
                &&& final(self).dialog_input.column_list == old(self).dialog_input.column_list
            },
            is_confirm_key(key) ==> {
                &&& old(self).mode_stack@.len() > 0 ==> final(self).mode == old(self).mode_stack@.last()
                    && final(self).mode_stack@ == old(self).mode_stack@.drop_last()
                &&& old(self).mode_stack@.len() == 0 ==> final(self).mode == AppMode::Normal
                &&& final(self).dialog_input.board_delete_counts.is_none()
                &&& (match old(self).board_list.selected_id() {
                    Some(id) => match board_index(old(self).model.boards@, id) {
                        Some(i) => final(self).model.boards@ == old(self).model.boards@.update(
                            i,
                            Board { archived: true, ..old(self).model.boards@[i] },
                        ),
                        None => true,
                    },
                    None => true,
                })
                &&& final(self).model.columns@ == old(self).model.columns@
                &&& final(self).model.cards@ == old(self).model.cards@
            },
            final(self).well_formed(),
    {
        if is_confirm(key) {
            self.delete_board();
            self.pop_mode();
            self.dialog_input.board_delete_counts = None;
        } else if is_cancel(key) {
            self.pop_mode();
            self.dialog_input.board_delete_counts = None;
        }
    }

    /// Toggles the projects panel between the live boards and the archived
    /// boards (from the projects panel or the archived view; otherwise a
    /// no-op). Either way no board stays viewed and the panel is resynced.
    pub fn handle_toggle_archived_boards_view(&mut self)
        requires
            old(self).well_formed(),
        ensures
            ({
                let entering = old(self).mode == AppMode::Normal && old(self).focus.active == Focus::Boards;
                let leaving = old(self).mode == AppMode::ArchivedBoardsView;
                let target = if entering {
                    AppMode::ArchivedBoardsView
                } else {
                    AppMode::Normal
                };
                let shown = shown_boards(old(self).model.boards@, entering, board_sort_of(old(self).filter, entering));
                &&& !entering && !leaving ==> old(self).unchanged_except(final(self), untouched())
                &&& (entering || leaving) ==> {
                    &&& old(self).unchanged_except(
                        final(self),
                        (Touched { mode: true, selection: true, board_list: true, redraw: true, ..untouched() }),
                    )
                    &&& final(self).mode == target
                    &&& final(self).mode_stack@ == old(self).mode_stack@
                    &&& final(self).selection == (SelectionState { active_board_id: None, ..old(self).selection })
                    &&& final(self).board_list.ids@ == shown
                    &&& final(self).board_list.selected == resynced_selection(old(self).board_list.selected_id(), shown)
                    &&& final(self).board_list.scroll_offset == old(self).board_list.scroll_offset
                    &&& final(self).needs_redraw
                }
            }),
            final(self).well_formed(),
    {
        let entering = self.mode.is_normal() && self.focus.active == Focus::Boards;
        let leaving = self.mode.is_archived_boards_view();
        if entering {
            self.mode = AppMode::ArchivedBoardsView;
        } else if leaving {
            self.mode = AppMode::Normal;
        } else {
            return;
        }
        // Toggling the displayed set returns to the projects list; no board
        // stays open.
        self.selection.active_board_id = None;
        self.prepare_frame();
        self.needs_redraw = true;
    }

    /// The board-sort affordances fire only while browsing the projects
    /// list (live or archived) with no board activated.
    pub fn board_sort_context_active(&self) -> (r: bool)
        ensures
            r == (self.selection.active_board_id.is_none() && self.focus.active == Focus::Boards && (self.mode
                == AppMode::ArchivedBoardsView || self.mode == AppMode::Normal)),
    {
        let browsing_boards = self.selection.active_board_id.is_none() && self.focus.active == Focus::Boards;
        browsing_boards && (self.mode.is_archived_boards_view() || self.mode.is_normal())
    }

    /// Sort of the live (or archived) projects list.
    pub fn board_sort(&self, archived: bool) -> (r: (BoardSortField, SortOrder))
        ensures
            r == board_sort_of(self.filter, archived),
    {
        if archived {
            self.filter.archived_board_sort
        } else {
            self.filter.board_sort
        }
    }

    /// `s` while browsing the projects list: reverses the sort direction of
    /// the list in view (live or archived, each kept apart) and re-syncs the
    /// list, keeping the highlight on the same board. Returns whether the
    /// live preference changed and is to be saved to the configuration
    /// (the archived one lasts for the session only).
    pub fn handle_toggle_board_sort_order(&mut self) -> (persist: bool)
        requires
            old(self).well_formed(),
        ensures
            final(self).well_formed(),
            !browsing_boards(*old(self)) ==> old(self).unchanged_except(final(self), untouched()) && !persist,
            browsing_boards(*old(self)) ==> {
                let archived = old(self).mode == AppMode::ArchivedBoardsView;
                let sort = board_sort_of(old(self).filter, archived);
                &&& old(self).unchanged_except(
                    final(self),
                    (Touched { filter: true, board_list: true, redraw: true, ..untouched() }),
                )
                &&& final(self).filter == with_board_sort(old(self).filter, archived, (sort.0, toggled_order(sort.1)))
                &&& board_list_resynced(*old(self), *final(self), archived)
                &&& persist == !archived
            },
    {
        if !self.board_sort_context_active() {
            return false;
        }
        let archived = self.mode.is_archived_boards_view();
        let (field, order) = self.board_sort(archived);
        self.set_board_sort(archived, field, order.toggled());
        !archived
    }

    /// Sorts the live (or archived) projects list by `field` in `order` and
    /// re-syncs the list, keeping the highlight on the same board.
    fn set_board_sort(&mut self, archived: bool, field: BoardSortField, order: SortOrder)
        requires
            old(self).well_formed(),
        ensures
            final(self).well_formed(),
            old(self).unchanged_except(final(self), (Touched { filter: true, board_list: true, redraw: true, ..untouched() })),
            final(self).filter == with_board_sort(old(self).filter, archived, (field, order)),
            board_list_resynced(*old(self), *final(self), archived),
    {
        if archived {
            self.filter.archived_board_sort = (field, order);
        } else {
            self.filter.board_sort = (field, order);
        }
        let ids = shown_board_ids(&self.model.boards, archived, (field, order));
        self.board_list.update_boards(ids);
        self.needs_redraw = true;
    }

    /// `o` while browsing the projects list: opens the projects sort-field
    /// picker on the row of the field the list in view is sorted by.
    pub fn handle_order_boards_key(&mut self)
        requires
            old(self).well_formed(),
        ensures
            final(self).well_formed(),
            !browsing_boards(*old(self)) ==> old(self).unchanged_except(final(self), untouched()),
            browsing_boards(*old(self)) ==> {
                let archived = old(self).mode == AppMode::ArchivedBoardsView;
                &&& old(self).unchanged_except(final(self), (Touched { filter: true, mode: true, ..untouched() }))
                &&& final(self).filter == (FilterState {
                    board_sort_field_selection: ListSelection {
                        selected: Some(board_sort_field_row(board_sort_of(old(self).filter, archived).0)),
                    },
                    ..old(self).filter
                })
                &&& final(self).mode == AppMode::Dialog(DialogMode::OrderBoards)
                &&& final(self).mode_stack@ == old(self).mode_stack@.push(old(self).mode)
            },
    {
        if !self.board_sort_context_active() {
            return;
        }
        let archived = self.mode.is_archived_boards_view();
        let (field, _) = self.board_sort(archived);
        let row = popup_index_of_board_sort_field(field);
        self.filter.board_sort_field_selection.set(Some(row));
        self.open_dialog(DialogMode::OrderBoards);
    }

    /// A key in the projects sort-field picker, which sorts the list the
    /// picker was opened over (live or archived). `j`/`k` move; Esc closes;
    /// Enter, Space, `a` or `d` on a field sorts the list by it and closes
    /// the picker: Enter or Space on the field in use reverses its
    /// direction, `d` sorts descending and the others ascending. Returns
    /// whether the live preference changed and is to be saved.
    pub fn handle_order_boards_popup(&mut self, key: Key) -> (persist: bool)
        requires
            old(self).well_formed(),
        ensures
            final(self).well_formed(),
            order_boards_popup_handled(*old(self), *final(self), key, persist),
    {
        match key {
            Key::Esc => {
                self.pop_mode();
                self.filter.board_sort_field_selection.clear();
                false
            },
            Key::Down => {
                self.filter.board_sort_field_selection.next(BOARD_SORT_FIELD_COUNT);
                false
            },
            Key::Up => {
                self.filter.board_sort_field_selection.prev();
                false
            },
            Key::Enter => self.confirm_board_sort(key),
            Key::Char(c) => {
                if c == 'j' {
                    self.filter.board_sort_field_selection.next(BOARD_SORT_FIELD_COUNT);
                    false
                } else if c == 'k' {
                    self.filter.board_sort_field_selection.prev();
                    false
                } else if c == ' ' || c == 'a' || c == 'd' {
                    self.confirm_board_sort(key)
                } else {
                    false
                }
            },
            _ => false,
        }
    }

    fn confirm_board_sort(&mut self, key: Key) -> (persist: bool)
        requires
            old(self).well_formed(),
        ensures
            final(self).well_formed(),
            board_sort_confirmed(*old(self), *final(self), key, persist),
    {
        let row = match self.filter.board_sort_field_selection.get() {
            Some(row) => row,
            None => {
                return false;
            },
        };
        let field = match board_sort_field_at_popup_index(row) {
            Some(f) => f,
            None => {
                return false;
            },
        };
        let archived = self.get_base_mode().is_archived_boards_view();
        let (current_field, current_order) = self.board_sort(archived);
        let toggles = current_field == field && (key == Key::Enter || key == Key::Char(' '));
        let order = if toggles {
            current_order.toggled()
        } else if key == Key::Char('d') {
            SortOrder::Descending
        } else {
            SortOrder::Ascending
        };
        self.set_board_sort(archived, field, order);
        self.pop_mode();
        self.filter.board_sort_field_selection.clear();
        !archived
    }

    /// Restores the highlighted archived board to the live set.
    pub fn handle_restore_board(&mut self)
        requires
            old(self).well_formed(),
        ensures
            (old(self).mode != AppMode::ArchivedBoardsView || old(self).board_list.selected_id().is_none()) ==> old(self).unchanged_except(final(self), untouched()),
            old(self).mode == AppMode::ArchivedBoardsView ==> (match old(self).board_list.selected_id() {
                None => true,
                Some(id) => match board_index(old(self).model.boards@, id) {
                    None => old(self).unchanged_except(final(self), (Touched { error: true, ..untouched() }))
                        && final(self).error_message is Some,
                    Some(i) => {
                        let boards = old(self).model.boards@.update(
                            i,
                            Board { archived: false, ..old(self).model.boards@[i] },
                        );
                        let shown = shown_boards(boards, true, board_sort_of(old(self).filter, true));
                        &&& old(self).unchanged_except(
                            final(self),
                            (Touched { model: true, board_list: true, selection: true, redraw: true, ..untouched() }),
                        )
                        &&& final(self).model.boards@ == boards
                        &&& final(self).model.columns@ == old(self).model.columns@
                        &&& final(self).model.cards@ == old(self).model.cards@
                        &&& final(self).model.archived_cards@ == old(self).model.archived_cards@
                        &&& final(self).model.sprints@ == old(self).model.sprints@
                        &&& final(self).model.edges@ == old(self).model.edges@
                        &&& final(self).board_list.ids@ == shown
                        &&& final(self).board_list.selected == clamped_row(
                            match old(self).board_list.selected {
                                Some(r) => r,
                                None => 0,
                            },
                            shown.len(),
                        )
                        &&& final(self).selection == (SelectionState {
                            active_board_id: active_after_removal(old(self).selection.active_board_id, id),
                            ..old(self).selection
                        })
                        &&& final(self).needs_redraw
                    },
                },
            }),
            final(self).well_formed(),
    {
        if !self.mode.is_archived_boards_view() {
            return;
        }
        let Some(board_id) = self.board_list.get_selected_board_id() else {
            return;
        };
        let idx = self.selected_row_or_first();
        match self.model.set_board_archived(board_id, false) {
            Ok(()) => {},
            Err(StoreError::BoardNotFound) => {
                self.set_error("Failed to restore board: board not found");
                return;
            },
        }
        proof {
            super::model::lemma_board_index(old(self).model.boards@, board_id);
        }
        assert(self.model.boards@.len() == old(self).model.boards@.len());
        // Restore is a list-view action: the restored board is not kept open.
        if self.selection.active_board_id == Some(board_id) {
            self.selection.active_board_id = None;
        }
        self.prepare_frame();
        // Clamp the highlight to the shrunken archived list, preserving the
        // position.
        self.clamp_board_highlight(idx);
        self.needs_redraw = true;
    }

    /// Permanently deletes the highlighted archived board and its subtree
    /// (after the permanent-delete confirmation).
    pub fn handle_delete_archived_board(&mut self)
        requires
            old(self).well_formed(),
        ensures
            old(self).board_list.selected_id().is_none() ==> old(self).unchanged_except(final(self), untouched()),
            (match old(self).board_list.selected_id() {
                None => true,
                Some(id) => match board_index(old(self).model.boards@, id) {
                    None => old(self).unchanged_except(final(self), (Touched { error: true, ..untouched() }))
                        && final(self).error_message is Some,
                    Some(_) => {
                        let boards = old(self).model.boards@.filter(|b: Board| b.id != id);
                        let archived = old(self).base_mode() == AppMode::ArchivedBoardsView;
                        let shown = shown_boards(boards, archived, board_sort_of(old(self).filter, archived));
                        &&& old(self).unchanged_except(
                            final(self),
                            (Touched { model: true, board_list: true, redraw: true, ..untouched() }),
                        )
                        &&& final(self).model.boards@ == boards
                        &&& final(self).model.columns@ == old(self).model.columns@.filter(
                            |c: super::model::Column| c.board_id != id,
                        )
                        &&& final(self).model.sprints@ == old(self).model.sprints@.filter(|s: Sprint| s.board_id != id)
                        &&& final(self).board_list.ids@ == shown
                        &&& final(self).board_list.selected == clamped_row(
                            match old(self).board_list.selected {
                                Some(r) => r,
                                None => 0,
                            },
                            shown.len(),
                        )
                        &&& final(self).needs_redraw
                    },
                },
            }),
            final(self).well_formed(),
    {
        let Some(board_id) = self.board_list.get_selected_board_id() else {
            return;
        };
        let idx = self.selected_row_or_first();
        match self.model.delete_board_subtree(board_id) {
            Ok(()) => {},
            Err(StoreError::BoardNotFound) => {
                self.set_error("Failed to delete archived board: board not found");
                return;
            },
        }
        proof {
            old(self).model.boards@.lemma_filter_len(|b: Board| b.id != board_id);
        }
        self.prepare_frame();
        self.clamp_board_highlight(idx);
        self.needs_redraw = true;
    }

    /// A key in the permanent-delete confirmation: Enter/`y` deletes and
    /// closes, `n`/`q`/Esc closes; either way the count snapshot is dropped.
    pub fn handle_delete_permanent_board_confirm_popup(&mut self, key: Key)
        requires
            old(self).well_formed(),
        ensures
            !is_confirm_key(key) && !is_cancel_key(key) ==> old(self).unchanged_except(final(self), untouched()),
            is_cancel_key(key) ==> {
                &&& old(self).unchanged_except(final(self), (Touched { mode: true, dialog_input: true, ..untouched() }))
                &&& old(self).mode_stack@.len() > 0 ==> final(self).mode == old(self).mode_stack@.last()
                    && final(self).mode_stack@ == old(self).mode_stack@.drop_last()
                &&& old(self).mode_stack@.len() == 0 ==> final(self).mode == AppMode::Normal
                &&& final(self).dialog_input.board_delete_counts.is_none()
                &&& final(self).dialog_input.import_files == old(self).dialog_input.import_files
                &&& final(self).dialog_input.import_selection == old(self).dialog_input.import_selection
                &&& final(self).dialog_input.priority_selection == old(self).dialog_input.priority_selection
                &&& final(self).dialog_input.column_list == old(self).dialog_input.column_list
            },
            is_confirm_key(key) ==> {
                &&& old(self).mode_stack@.len() > 0 ==> final(self).mode == old(self).mode_stack@.last()
                    && final(self).mode_stack@ == old(self).mode_stack@.drop_last()
                &&& old(self).mode_stack@.len() == 0 ==> final(self).mode == AppMode::Normal
                &&& final(self).dialog_input.board_delete_counts.is_none()
                &&& (match old(self).board_list.selected_id() {
                    Some(id) => board_index(old(self).model.boards@, id).is_some() ==> final(self).model.boards@ == old(self).model.boards@.filter(|b: Board| b.id != id),
                    None => true,
                })
            },
            final(self).well_formed(),
    {
        if is_confirm(key) {
            self.handle_delete_archived_board();
            self.pop_mode();
            self.dialog_input.board_delete_counts = None;
        } else if is_cancel(key) {
            self.pop_mode();
            self.dialog_input.board_delete_counts = None;
        }
    }
}

/// Enter, `y` or `Y`.
pub open spec fn is_confirm_key(key: Key) -> bool {
    key == Key::Enter || key == Key::Char('y') || key == Key::Char('Y')
}

/// `n`, `N`, `q`, `Q` or Esc.
pub open spec fn is_cancel_key(key: Key) -> bool {
    key == Key::Char('n') || key == Key::Char('N') || key == Key::Char('q') || key == Key::Char('Q') || key
        == Key::Esc
}

pub fn is_confirm(key: Key) -> (r: bool)
    ensures
        r == is_confirm_key(key),
{
    match key {
        Key::Enter => true,
        Key::Char(c) => c == 'y' || c == 'Y',
        _ => false,
    }
}

pub fn is_cancel(key: Key) -> (r: bool)
    ensures
        r == is_cancel_key(key),
{
    match key {
        Key::Esc => true,
        Key::Char(c) => c == 'n' || c == 'N' || c == 'q' || c == 'Q',
        _ => false,
    }
}

} // verus!
