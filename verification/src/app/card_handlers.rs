//! Key handlers of the task panel: multi-selection, filters and the
//! archived-cards view.

use super::board_handlers::picked_order;
use super::card_detail::popped;
use super::components::{next_row, prev_row, visible_offset, ListSelection};
use super::model::{
    board_index, card_index, contains_id, popup_index_of_sort_field, sort_field_at_popup_index, sort_field_on_row,
    sort_field_row, toggled_order, with_task_sort, EntityId, KanbanModel, SortField, SortOrder, SORT_FIELD_COUNT,
};
use super::modes::{AppMode, DialogMode, Focus, Key};
use super::state::{
    insert_id, untouched, with_id, App, FilterState, MultiSelectState, Touched,
};
use super::view::ViewState;
use vstd::prelude::*;

verus! {

/// Row of the task sort-field picker that the current sort field is on
/// (the first row while no sort was applied).
pub open spec fn current_sort_row(filter: FilterState) -> usize {
    match filter.current_sort_field {
        Some(f) => sort_field_row(f),
        None => 0,
    }
}

/// The model of `after` is that of `before`, with the active board's tasks
/// sorted by `field` in `order` when there is an active board and a field.
pub open spec fn task_sort_recorded(before: App, after: App, field: Option<SortField>, order: SortOrder) -> bool {
    match (before.active_board_index(), field) {
        (Some(bi), Some(f)) => after.model == (KanbanModel { boards: after.model.boards, ..before.model })
            && after.model.boards@ == with_task_sort(before.model.boards@, bi, f, order),
        _ => after.model == before.model,
    }
}

/// What a confirming key does in the task sort-field picker.
pub open spec fn task_sort_confirmed(before: App, after: App, key: Key) -> bool {
    let unchanged = before.unchanged_except(&after, untouched());
    match before.filter.sort_field_selection.selected {
        None => unchanged,
        Some(row) => if row >= SORT_FIELD_COUNT {
            unchanged
        } else {
            let field = sort_field_on_row(row);
            let order = picked_order(
                before.filter.current_sort_field == Some(field),
                before.filter.current_sort_order,
                key,
            );
            &&& before.unchanged_except(&after, (Touched { filter: true, model: true, mode: true, ..untouched() }))
            &&& after.filter == (FilterState {
                current_sort_field: Some(field),
                current_sort_order: Some(order),
                sort_field_selection: ListSelection { selected: None },
                ..before.filter
            })
            &&& task_sort_recorded(before, after, Some(field), order)
            &&& popped(before, after)
        },
    }
}

/// What a key does in the task sort-field picker.
pub open spec fn order_cards_popup_handled(before: App, after: App, key: Key) -> bool {
    let moved = |row: Option<usize>|
        before.unchanged_except(&after, (Touched { filter: true, ..untouched() })) && after.filter == (FilterState {
            sort_field_selection: ListSelection { selected: row },
            ..before.filter
        });
    match key {
        Key::Esc => {
            &&& before.unchanged_except(&after, (Touched { filter: true, mode: true, ..untouched() }))
            &&& popped(before, after)
            &&& after.filter == (FilterState { sort_field_selection: ListSelection { selected: None }, ..before.filter })
        },
        Key::Down | Key::Char('j') => moved(next_row(before.filter.sort_field_selection.selected, SORT_FIELD_COUNT)),
        Key::Up | Key::Char('k') => moved(prev_row(before.filter.sort_field_selection.selected)),
        Key::Enter | Key::Char(' ') | Key::Char('a') | Key::Char('d') => task_sort_confirmed(before, after, key),
        _ => before.unchanged_except(&after, untouched()),
    }
}


impl App {
    /// Card selected in the active task list, when it is a card of the model.
    pub open spec fn selected_card_in_context(&self) -> Option<EntityId> {
        if self.view.has_active_list() {
            match self.view.active_list().selected_card() {
                Some(id) => if card_index(self.model.cards@, id).is_some() {
                    Some(id)
                } else {
                    None
                },
                None => None,
            }
        } else {
            None
        }
    }

    pub fn get_selected_card_in_context(&self) -> (r: Option<EntityId>)
        ensures
            r == self.selected_card_in_context(),
    {
        match self.view.active_selected_card() {
            Some(id) => if self.model.card_by_id(id).is_some() {
                Some(id)
            } else {
                None
            },
            None => None,
        }
    }

    pub fn handle_card_selection_toggle(&mut self)
        requires
            old(self).well_formed(),
        ensures
            old(self).focus.active != Focus::Cards ==> old(self).unchanged_except(final(self), untouched()),
            old(self).focus.active == Focus::Cards ==> {
                &&& old(self).unchanged_except(final(self), (Touched { multi_select: true, ..untouched() }))
                &&& final(self).multi_select.selection_mode_active == !old(self).multi_select.selection_mode_active
                &&& final(self).multi_select.selected_cards@ == if old(self).multi_select.selection_mode_active {
                    old(self).multi_select.selected_cards@
                } else {
                    match old(self).selected_card_in_context() {
                        Some(id) => with_id(old(self).multi_select.selected_cards@, id),
                        None => old(self).multi_select.selected_cards@,
                    }
                }
                &&& final(self).multi_select.board_selection_mode_active == old(self).multi_select.board_selection_mode_active
                &&& final(self).multi_select.selected_boards@ == old(self).multi_select.selected_boards@
            },
            final(self).well_formed(),
    {
        if self.focus.active == Focus::Cards {
            if self.multi_select.selection_mode_active {
                // Leave selection mode, keeping the selection.
                self.multi_select.selection_mode_active = false;
            } else {
                // Enter selection mode and select the current card.
                self.multi_select.selection_mode_active = true;
                if let Some(card) = self.get_selected_card_in_context() {
                    insert_id(&mut self.multi_select.selected_cards, card);
                }
            }
        }
    }

    pub fn handle_clear_card_selection(&mut self)
        requires
            old(self).well_formed(),
        ensures
            old(self).unchanged_except(final(self), (Touched { multi_select: true, ..untouched() })),
            final(self).multi_select.selected_cards@.len() == 0,
            final(self).multi_select.selection_mode_active == old(self).multi_select.selection_mode_active,
            final(self).multi_select.board_selection_mode_active == old(self).multi_select.board_selection_mode_active,
            final(self).multi_select.selected_boards@ == old(self).multi_select.selected_boards@,
            final(self).well_formed(),
    {
        self.multi_select.selected_cards.clear();
    }

    pub fn handle_select_all_cards_in_view(&mut self)
        requires
            old(self).well_formed(),
        ensures
            (old(self).focus.active != Focus::Cards || !old(self).view.has_active_list()) ==> old(
                self,
            ).unchanged_except(final(self), untouched()),
            (old(self).focus.active == Focus::Cards && old(self).view.has_active_list()) ==> {
                &&& old(self).unchanged_except(final(self), (Touched { multi_select: true, ..untouched() }))
                &&& forall|x: EntityId|
                    final(self).multi_select.selected_cards@.contains(x) <==> (old(
                        self,
                    ).multi_select.selected_cards@.contains(x) || old(self).view.active_list().cards@.contains(x))
                &&& final(self).multi_select.selection_mode_active == (old(self).multi_select.selection_mode_active
                    || old(self).view.active_list().cards@.len() > 0)
                &&& final(self).multi_select.board_selection_mode_active == old(self).multi_select.board_selection_mode_active
                &&& final(self).multi_select.selected_boards@ == old(self).multi_select.selected_boards@
            },
            final(self).well_formed(),
    {
        if self.focus.active != Focus::Cards {
            return;
        }
        let Some(li) = self.view.active_list_index() else {
            return;
        };
        let ghost start = self.multi_select.selected_cards@;
        let ghost cards = self.view.lists@[li as int].cards@;
        let n = self.view.lists[li].cards.len();
        let mut i: usize = 0;
        while i < n
            invariant
                self.well_formed(),
                i <= n,
                n == cards.len(),
                li < self.view.lists@.len(),
                cards == self.view.lists@[li as int].cards@,
                self.view == old(self).view,
                old(self).unchanged_except(self, (Touched { multi_select: true, ..untouched() })),
                self.multi_select.selection_mode_active == old(self).multi_select.selection_mode_active,
                self.multi_select.board_selection_mode_active == old(self).multi_select.board_selection_mode_active,
                self.multi_select.selected_boards@ == old(self).multi_select.selected_boards@,
                start == old(self).multi_select.selected_cards@,
                forall|x: EntityId|
                    #[trigger] self.multi_select.selected_cards@.contains(x) <==> (start.contains(x) || cards.take(
                        i as int,
                    ).contains(x)),
            decreases n - i,
        {
            let id = self.view.lists[li].cards[i];
            let ghost before = self.multi_select.selected_cards@;
            insert_id(&mut self.multi_select.selected_cards, id);
            proof {
                assert(cards.take(i + 1) =~= cards.take(i as int).push(id));
                assert forall|x: EntityId|
                    #[trigger] self.multi_select.selected_cards@.contains(x) <==> (start.contains(x) || cards.take(
                        i + 1,
                    ).contains(x)) by {
                    assert(before.contains(x) <==> (start.contains(x) || cards.take(i as int).contains(x)));
                    assert(cards.take(i + 1).contains(x) <==> (cards.take(i as int).contains(x) || x == id)) by {
                        if cards.take(i + 1).contains(x) && x != id {
                            let j = choose|j: int| 0 <= j < i + 1 && #[trigger] cards.take(i + 1)[j] == x;
                            assert(cards.take(i as int)[j] == x);
                        }
                        if cards.take(i as int).contains(x) {
                            let j = choose|j: int| 0 <= j < i && #[trigger] cards.take(i as int)[j] == x;
                            assert(cards.take(i + 1)[j] == x);
                        }
                        if x == id {
                            assert(cards.take(i + 1)[i as int] == x);
                        }
                    }
                }
            }
            i = i + 1;
        }
        proof {
            assert(cards.take(n as int) =~= cards);
        }
        if n > 0 {
            self.multi_select.selection_mode_active = true;
        }
    }

    /// Opens the bulk priority picker over the selected cards.
    pub fn handle_set_selected_cards_priority(&mut self)
        requires
            old(self).well_formed(),
        ensures
            (old(self).focus.active != Focus::Cards || old(self).multi_select.selected_cards@.len() == 0) ==> old(
                self,
            ).unchanged_except(final(self), untouched()),
            (old(self).focus.active == Focus::Cards && old(self).multi_select.selected_cards@.len() > 0) ==> {
                &&& old(self).unchanged_except(final(self), (Touched { mode: true, dialog_input: true, ..untouched() }))
                &&& final(self).dialog_input.priority_selection.selected == Some(0usize)
                &&& final(self).dialog_input.board_delete_counts == old(self).dialog_input.board_delete_counts
                &&& final(self).dialog_input.import_files == old(self).dialog_input.import_files
                &&& final(self).dialog_input.import_selection == old(self).dialog_input.import_selection
                &&& final(self).dialog_input.column_list == old(self).dialog_input.column_list
                &&& final(self).mode == AppMode::Dialog(DialogMode::SetMultipleCardsPriority)
                &&& final(self).mode_stack@ == old(self).mode_stack@.push(old(self).mode)
            },
            final(self).well_formed(),
    {
        if self.focus.active != Focus::Cards || self.multi_select.selected_cards.len() == 0 {
            return;
        }
        self.dialog_input.priority_selection.set(Some(0));
        self.open_dialog(DialogMode::SetMultipleCardsPriority);
    }

    /// `o` in the tasks panel of a board: opens the task sort-field picker
    /// on the row of the field the tasks are sorted by (the first row while
    /// no sort was applied).
    pub fn handle_order_cards_key(&mut self)
        requires
            old(self).well_formed(),
        ensures
            final(self).well_formed(),
            !(old(self).focus.active == Focus::Cards && old(self).selection.active_board_id.is_some()) ==> old(
                self,
            ).unchanged_except(final(self), untouched()),
            old(self).focus.active == Focus::Cards && old(self).selection.active_board_id.is_some() ==> {
                &&& old(self).unchanged_except(final(self), (Touched { filter: true, mode: true, ..untouched() }))
                &&& final(self).filter == (FilterState {
                    sort_field_selection: ListSelection { selected: Some(current_sort_row(old(self).filter)) },
                    ..old(self).filter
                })
                &&& final(self).mode == AppMode::Dialog(DialogMode::OrderCards)
                &&& final(self).mode_stack@ == old(self).mode_stack@.push(old(self).mode)
            },
    {
        if self.focus.active == Focus::Cards && self.selection.active_board_id.is_some() {
            let row = match self.filter.current_sort_field {
                Some(f) => popup_index_of_sort_field(f),
                None => 0,
            };
            self.filter.sort_field_selection.set(Some(row));
            self.open_dialog(DialogMode::OrderCards);
        }
    }

    /// `O` in the tasks panel of a board: reverses the direction the tasks
    /// are sorted in, and records it on the active board with the field in
    /// use. Nothing happens while no sort was applied.
    pub fn handle_toggle_sort_order_key(&mut self)
        requires
            old(self).well_formed(),
        ensures
            final(self).well_formed(),
            !(old(self).focus.active == Focus::Cards && old(self).selection.active_board_id.is_some()
                && old(self).filter.current_sort_order is Some) ==> old(self).unchanged_except(final(self), untouched()),
            old(self).focus.active == Focus::Cards && old(self).selection.active_board_id.is_some()
                && old(self).filter.current_sort_order is Some ==> {
                let order = toggled_order(old(self).filter.current_sort_order->0);
                &&& old(self).unchanged_except(final(self), (Touched { filter: true, model: true, ..untouched() }))
                &&& final(self).filter == (FilterState { current_sort_order: Some(order), ..old(self).filter })
                &&& task_sort_recorded(*old(self), *final(self), old(self).filter.current_sort_field, order)
            },
    {
        if self.focus.active != Focus::Cards || self.selection.active_board_id.is_none() {
            return;
        }
        if let Some(current) = self.filter.current_sort_order {
            let order = current.toggled();
            self.filter.current_sort_order = Some(order);
            if let Some(field) = self.filter.current_sort_field {
                if let Some(bi) = self.active_board() {
                    self.model.set_board_task_sort(bi, field, order);
                }
            }
        }
    }

    /// A key in the task sort-field picker. `j`/`k` move; Esc closes;
    /// Enter, Space, `a` or `d` on a field sorts the tasks by it, records
    /// the sort on the active board and closes the picker: Enter or Space on
    /// the field in use reverses its direction, `d` sorts descending and the
    /// others ascending.
    pub fn handle_order_cards_popup(&mut self, key: Key) -> (restart: bool)
        requires
            old(self).well_formed(),
        ensures
            final(self).well_formed(),
            !restart,
            order_cards_popup_handled(*old(self), *final(self), key),
    {
        match key {
            Key::Esc => {
                self.pop_mode();
                self.filter.sort_field_selection.clear();
            },
            Key::Down => self.filter.sort_field_selection.next(SORT_FIELD_COUNT),
            Key::Up => self.filter.sort_field_selection.prev(),
            Key::Enter => self.confirm_task_sort(key),
            Key::Char(c) => {
                if c == 'j' {
                    self.filter.sort_field_selection.next(SORT_FIELD_COUNT);
                } else if c == 'k' {
                    self.filter.sort_field_selection.prev();
                } else if c == ' ' || c == 'a' || c == 'd' {
                    self.confirm_task_sort(key);
                }
            },
            _ => {},
        }
        false
    }

    fn confirm_task_sort(&mut self, key: Key)
        requires
            old(self).well_formed(),
        ensures
            final(self).well_formed(),
            task_sort_confirmed(*old(self), *final(self), key),
    {
        let row = match self.filter.sort_field_selection.get() {
            Some(row) => row,
            None => {
                return;
            },
        };
        let field = match sort_field_at_popup_index(row) {
            Some(f) => f,
            None => {
                return;
            },
        };
        let same = match self.filter.current_sort_field {
            Some(f) => f == field,
            None => false,
        };
        let order = if same && (key == Key::Enter || key == Key::Char(' ')) {
            match self.filter.current_sort_order {
                Some(o) => o.toggled(),
                None => SortOrder::Ascending,
            }
        } else if key == Key::Char('d') {
            SortOrder::Descending
        } else {
            SortOrder::Ascending
        };
        self.filter.current_sort_field = Some(field);
        self.filter.current_sort_order = Some(order);
        if let Some(bi) = self.active_board() {
            self.model.set_board_task_sort(bi, field, order);
        }
        self.pop_mode();
        self.filter.sort_field_selection.clear();
    }

    pub fn handle_toggle_hide_assigned(&mut self)
        requires
            old(self).well_formed(),
        ensures
            (old(self).focus.active != Focus::Cards || old(self).selection.active_board_id.is_none()) ==> old(
                self,
            ).unchanged_except(final(self), untouched()),
            (old(self).focus.active == Focus::Cards && old(self).selection.active_board_id.is_some()) ==> {
                &&& old(self).unchanged_except(final(self), (Touched { filter: true, ..untouched() }))
                &&& final(self).filter == (FilterState {
                    hide_assigned_cards: !old(self).filter.hide_assigned_cards,
                    ..old(self).filter
                })
            },
            final(self).well_formed(),
    {
        if self.focus.active == Focus::Cards && self.selection.active_board_id.is_some() {
            self.filter.hide_assigned_cards = !self.filter.hide_assigned_cards;
        }
    }

    /// Active sprint of the active board.
    pub open spec fn active_board_sprint(&self) -> Option<EntityId> {
        match self.active_board_index() {
            Some(i) => self.model.boards@[i].active_sprint_id,
            None => None,
        }
    }

    /// Restricts the task list to the active sprint, or lifts that
    /// restriction when it is on.
    pub fn handle_toggle_sprint_filter(&mut self)
        requires
            old(self).well_formed(),
        ensures
            (old(self).focus.active != Focus::Cards || old(self).selection.active_board_id.is_none()) ==> old(
                self,
            ).unchanged_except(final(self), untouched()),
            (old(self).focus.active == Focus::Cards && old(self).selection.active_board_id.is_some()) ==> match old(
                self,
            ).active_board_sprint() {
                None => old(self).unchanged_except(final(self), (Touched { error: true, ..untouched() }))
                    && (final(self).error_message matches Some(m) && m@ == "No active sprint set for filtering"@),
                Some(sprint) => {
                    &&& old(self).unchanged_except(final(self), (Touched { filter: true, ..untouched() }))
                    &&& final(self).filter.hide_assigned_cards == old(self).filter.hide_assigned_cards
                    &&& final(self).filter.dialog_state == old(self).filter.dialog_state
                    &&& final(self).filter.search == old(self).filter.search
                    &&& final(self).filter.active_sprint_filters@ == if old(
                        self,
                    ).filter.active_sprint_filters@.contains(sprint) {
                        old(self).filter.active_sprint_filters@.filter(|s: EntityId| s != sprint)
                    } else {
                        seq![sprint]
                    }
                },
            },
            final(self).well_formed(),
    {
        if self.focus.active == Focus::Cards && self.selection.active_board_id.is_some() {
            let sprint = match self.active_board() {
                Some(i) => self.model.boards[i].active_sprint_id,
                None => None,
            };
            match sprint {
                Some(active_sprint_id) => {
                    if contains_id(&self.filter.active_sprint_filters, active_sprint_id) {
                        remove_id(&mut self.filter.active_sprint_filters, active_sprint_id);
                    } else {
                        self.filter.active_sprint_filters = vec![active_sprint_id];
                    }
                },
                None => {
                    self.set_error("No active sprint set for filtering");
                },
            }
        }
    }

    /// Switches between the live tasks and the archived tasks of the board.
    /// Entering pushes the archived view over the current context, so leaving
    /// returns to it. The first task of the active list is selected.
    pub fn handle_toggle_archived_cards_view(&mut self)
        requires
            old(self).well_formed(),
        ensures
            ({
                let entering = old(self).mode == AppMode::Normal || old(self).mode == AppMode::ArchivedBoardsView;
                let leaving = old(self).mode == AppMode::ArchivedCardsView;
                &&& !entering && !leaving ==> old(self).unchanged_except(final(self), untouched())
                &&& entering ==> final(self).mode == AppMode::ArchivedCardsView && final(self).mode_stack@ == old(
                    self,
                ).mode_stack@.push(old(self).mode)
                &&& leaving ==> (if old(self).mode_stack@.len() > 0 {
                    final(self).mode == old(self).mode_stack@.last() && final(self).mode_stack@ == old(
                        self,
                    ).mode_stack@.drop_last()
                } else {
                    final(self).mode == AppMode::Normal && final(self).mode_stack@ == old(self).mode_stack@
                })
                &&& (entering || leaving) ==> {
                    &&& old(self).unchanged_except(
                        final(self),
                        (Touched { mode: true, board_list: true, view: true, redraw: true, ..untouched() }),
                    )
                    &&& final(self).board_list.ids@ == final(self).displayed_ids(final(self).base_mode())
                    &&& first_row_selected(old(self).view, final(self).view)
                    &&& final(self).needs_redraw
                }
            }),
            final(self).well_formed(),
    {
        let entering = self.mode.is_normal() || self.mode.is_archived_boards_view();
        let leaving = self.mode.is_archived_cards_view();
        if entering {
            let target = AppMode::ArchivedCardsView;
            self.push_mode(target);
        } else if leaving {
            self.pop_mode();
        } else {
            return;
        }
        self.prepare_frame();
        self.select_first_task();
        self.needs_redraw = true;
    }

    /// Selects the first row of the active task list, when it has one, and
    /// scrolls it into view.
    pub fn select_first_task(&mut self)
        requires
            old(self).well_formed(),
        ensures
            old(self).unchanged_except(final(self), (Touched { view: true, ..untouched() })),
            first_row_selected(old(self).view, final(self).view),
            final(self).well_formed(),
    {
        if let Some(li) = self.view.active_list_index() {
            if !self.view.lists[li].is_empty() {
                let vh = self.view.viewport_height;
                let list = &mut self.view.lists[li];
                list.set_selected_index(Some(0));
                list.ensure_selected_visible(vh);
            }
        }
    }
}

/// `after` is `before` with the first row of a non-empty active list
/// selected and scrolled into view.
pub open spec fn first_row_selected(before: ViewState, after: ViewState) -> bool {
    &&& after.viewport_height == before.viewport_height
    &&& after.layout == before.layout
    &&& after.active_column == before.active_column
    &&& after.column_boundaries@ == before.column_boundaries@
    &&& if before.has_active_list() && before.active_list().cards@.len() > 0 {
        let l = before.active_list();
        after.lists@ == before.lists@.update(
            before.active_index(),
            super::components::CardList {
                selected: Some(0usize),
                scroll_offset: visible_offset(Some(0usize), l.scroll_offset, before.viewport_height),
                ..l
            },
        )
    } else {
        after.lists@ == before.lists@
    }
}

/// Removes every occurrence of `id`.
pub fn remove_id(ids: &mut Vec<EntityId>, id: EntityId)
    ensures
        final(ids)@ == old(ids)@.filter(|x: EntityId| x != id),
{
    let mut kept: Vec<EntityId> = Vec::new();
    let ghost src = ids@;
    let ghost pred = |x: EntityId| x != id;
    let mut i: usize = 0;
    while i < ids.len()
        invariant
            i <= ids@.len(),
            ids@ == src,
            pred == (|x: EntityId| x != id),
            kept@ == src.take(i as int).filter(pred),
        decreases ids@.len() - i,
    {
        let x = ids[i];
        proof {
            assert(src.take(i + 1) =~= src.take(i as int).push(x));
            src.take(i as int).lemma_filter_push(x, pred);
        }
        if x != id {
            kept.push(x);
        }
        i = i + 1;
    }
    proof {
        assert(src.take(src.len() as int) =~= src);
    }
    *ids = kept;
}

} // verus!
