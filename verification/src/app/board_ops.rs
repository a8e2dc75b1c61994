//! Creating and renaming boards, and their dialogs.

use super::card_detail::popped;
use super::components::position_of;
use super::dialogs::{edited, trimmed, trimmed_chars};
use super::board_sort::shown_boards;
use super::state::board_sort_of;
use super::model::{board_ids_where_archived, board_index, Board, Column, EntityId, KanbanModel, SortField, SortOrder, TaskListView};
use super::modes::Key;
use super::state::{untouched, App, Touched};
use super::view::MAX_VIEWPORT_HEIGHT;
use vstd::prelude::*;

verus! {

/// Names of the columns a new board starts with, in order.
pub open spec fn template_column_name(k: int) -> Seq<char> {
    if k == 0 {
        "TODO"@
    } else if k == 1 {
        "Doing"@
    } else {
        "Complete"@
    }
}

/// What Enter does in the create-board dialog (see `create_board`).
pub open spec fn board_created(before: App, after: App) -> bool {
    if trimmed(before.input@).len() == 0 {
        &&& before.unchanged_except(&after, (Touched { error: true, ..untouched() }))
        &&& after.error_message.is_some()
    } else {
        let boards = after.model.boards@;
        let b = boards.last();
        let cols = after.model.columns@;
        let n = before.model.columns@.len();
        &&& before.unchanged_except(&after, (Touched { model: true, board_list: true, view: true, ..untouched() }))
        &&& boards.len() == before.model.boards@.len() + 1
        &&& boards.drop_last() =~= before.model.boards@
        &&& b.name@ == before.input@
        &&& !b.archived
        &&& b.task_list_view == TaskListView::Flat
        &&& b.active_sprint_id.is_none()
        &&& b.sprint_prefix.is_none()
        &&& cols.len() == n + 3
        &&& cols.subrange(0, n as int) =~= before.model.columns@
        &&& forall|k: int|
            0 <= k < 3 ==> {
                &&& (#[trigger] cols[n + k]).board_id == b.id
                &&& cols[n + k].position == k
                &&& cols[n + k].name@ == template_column_name(k)
            }
        &&& after.model.cards == before.model.cards
        &&& after.model.archived_cards == before.model.archived_cards
        &&& after.model.sprints == before.model.sprints
        &&& after.model.edges == before.model.edges
        &&& after.board_list.ids@ == shown_boards(
            boards,
            before.base_mode() == super::modes::AppMode::ArchivedBoardsView,
            board_sort_of(before.filter, before.base_mode() == super::modes::AppMode::ArchivedBoardsView),
        )
        &&& (position_of(after.board_list.ids@, b.id) matches Some(i) ==> after.board_list.selected == Some(
            i as usize,
        ))
        &&& after.view.is_fresh(before.view.viewport_height, TaskListView::Flat)
    }
}

/// What Enter does in the rename-board dialog (see `rename_board`).
pub open spec fn board_renamed(before: App, after: App) -> bool {
    match before.board_list.selected_id() {
        Some(id) => match board_index(before.model.boards@, id) {
            Some(i) => {
                let boards = after.model.boards@;
                &&& before.unchanged_except(&after, (Touched { model: true, ..untouched() }))
                &&& after.model == (KanbanModel { boards: after.model.boards, ..before.model })
                &&& boards =~= before.model.boards@.update(i, Board { name: boards[i].name, ..before.model.boards@[i] })
                &&& boards[i].name@ == before.input@
            },
            None => before.unchanged_except(&after, untouched()),
        },
        None => before.unchanged_except(&after, untouched()),
    }
}

impl App {
    /// Enter in the create-board dialog: a board named by the input is added
    /// with the template columns (TODO, Doing, Complete), highlighted in the
    /// projects panel, and the task panel is reset to the default layout. A
    /// blank name is refused with an error.
    pub fn create_board(&mut self)
        requires
            old(self).well_formed(),
            old(self).model.boards@.len() + MAX_VIEWPORT_HEIGHT + 1 <= usize::MAX,
        ensures
            board_created(*old(self), *final(self)),
            final(self).well_formed(),
    {
        let text = trimmed_chars(&self.input);
        if text.len() == 0 {
            self.set_error("Failed to create board: the name must not be blank");
            return;
        }
        let board_id = super::column_ops::new_entity_id();
        let name = self.input.clone();
        let ghost before = *self;
        self.model.boards.push(
            Board {
                id: board_id,
                name,
                archived: false,
                task_list_view: TaskListView::default_view(),
                active_sprint_id: None,
                sprint_prefix: None,
                task_sort_field: SortField::Default,
                task_sort_order: SortOrder::Ascending,
            },
        );
        let t0 = super::column_ops::now_millis();
        self.model.columns.push(Column { id: super::column_ops::new_entity_id(), board_id, name: "TODO".to_string(), position: 0, created_at: t0 });
        let t1 = super::column_ops::now_millis();
        self.model.columns.push(Column { id: super::column_ops::new_entity_id(), board_id, name: "Doing".to_string(), position: 1, created_at: t1 });
        let t2 = super::column_ops::now_millis();
        self.model.columns.push(Column { id: super::column_ops::new_entity_id(), board_id, name: "Complete".to_string(), position: 2, created_at: t2 });
        proof {
            reveal_strlit("TODO");
            reveal_strlit("Doing");
            reveal_strlit("Complete");
            let n = before.model.columns@.len();
            let cols = self.model.columns@;
            assert(cols.subrange(0, n as int) =~= before.model.columns@);
            assert forall|k: int| 0 <= k < 3 implies {
                &&& (#[trigger] cols[n + k]).board_id == board_id
                &&& cols[n + k].position == k
                &&& cols[n + k].name@ == template_column_name(k)
            } by {}
        }
        self.prepare_frame();
        self.board_list.select_board(board_id);
        self.switch_view_strategy(TaskListView::default_view());
    }

    /// Enter in the rename-board dialog: the highlighted board takes the
    /// input as its name.
    pub fn rename_board(&mut self)
        requires
            old(self).well_formed(),
        ensures
            board_renamed(*old(self), *final(self)),
            final(self).well_formed(),
    {
        let Some(id) = self.board_list.get_selected_board_id() else {
            return;
        };
        let Some(i) = self.model.board_by_id(id) else {
            return;
        };
        let ghost before = self.model.boards@;
        let name = self.input.clone();
        {
            let b = &mut self.model.boards[i];
            b.name = name;
        }
        proof {
            assert(self.model.boards@ =~= before.update(
                i as int,
                Board { name: self.model.boards@[i as int].name, ..before[i as int] },
            ));
        }
    }

    /// A key in the create-board dialog: Enter creates the board, Enter and
    /// Esc close the dialog with an empty input, other keys edit the name.
    pub fn handle_create_board_dialog(&mut self, key: Key)
        requires
            old(self).well_formed(),
            old(self).model.boards@.len() + MAX_VIEWPORT_HEIGHT + 1 <= usize::MAX,
        ensures
            final(self).well_formed(),
            match key {
                Key::Esc | Key::Enter => {
                    &&& popped(*old(self), *final(self))
                    &&& final(self).input@.len() == 0
                    &&& key == Key::Enter ==> board_created(
                        *old(self),
                        App { mode: old(self).mode, mode_stack: old(self).mode_stack, input: old(self).input, ..*final(self) },
                    )
                    &&& key == Key::Esc ==> old(self).unchanged_except(
                        final(self),
                        (Touched { mode: true, input: true, ..untouched() }),
                    )
                },
                _ => {
                    &&& old(self).unchanged_except(final(self), (Touched { input: true, ..untouched() }))
                    &&& final(self).input@ == edited(old(self).input@, key)
                },
            },
    {
        match key {
            Key::Esc => {
                self.pop_mode();
                self.input = String::new();
            },
            Key::Enter => {
                self.create_board();
                self.pop_mode();
                self.input = String::new();
            },
            _ => {
                super::dialogs::handle_dialog_input(&mut self.input, key);
            },
        }
    }

    /// A key in the rename-board dialog: Enter renames the highlighted board,
    /// Enter and Esc close the dialog with an empty input, other keys edit
    /// the name.
    pub fn handle_rename_board_dialog(&mut self, key: Key)
        requires
            old(self).well_formed(),
        ensures
            final(self).well_formed(),
            match key {
                Key::Esc | Key::Enter => {
                    &&& popped(*old(self), *final(self))
                    &&& final(self).input@.len() == 0
                    &&& key == Key::Enter ==> board_renamed(
                        *old(self),
                        App { mode: old(self).mode, mode_stack: old(self).mode_stack, input: old(self).input, ..*final(self) },
                    )
                    &&& key == Key::Esc ==> old(self).unchanged_except(
                        final(self),
                        (Touched { mode: true, input: true, ..untouched() }),
                    )
                },
                _ => {
                    &&& old(self).unchanged_except(final(self), (Touched { input: true, ..untouched() }))
                    &&& final(self).input@ == edited(old(self).input@, key)
                },
            },
    {
        match key {
            Key::Esc => {
                self.pop_mode();
                self.input = String::new();
            },
            Key::Enter => {
                self.rename_board();
                self.pop_mode();
                self.input = String::new();
            },
            _ => {
                super::dialogs::handle_dialog_input(&mut self.input, key);
            },
        }
    }
}

} // verus!
