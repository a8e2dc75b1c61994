//! The filter dialog of the task panel: hiding cards with no sprint and
//! restricting the list to chosen sprints.

use super::board_detail::{board_sprint_indices, sprint_count_of};
use super::card_detail::popped;
use super::model::{board_index, EntityId, Sprint};
use super::modes::{AppMode, DialogMode, Focus, Key};
use super::state::{untouched, App, FilterDialogSection, FilterDialogState, FilterState, Touched};
use vstd::prelude::*;

verus! {

/// The section after `s`, wrapping around.
pub open spec fn section_after(s: FilterDialogSection) -> FilterDialogSection {
    match s {
        FilterDialogSection::Sprints => FilterDialogSection::DateRange,
        FilterDialogSection::DateRange => FilterDialogSection::Tags,
        FilterDialogSection::Tags => FilterDialogSection::Sprints,
    }
}

/// The section before `s`, wrapping around.
pub open spec fn section_before(s: FilterDialogSection) -> FilterDialogSection {
    match s {
        FilterDialogSection::Sprints => FilterDialogSection::Tags,
        FilterDialogSection::DateRange => FilterDialogSection::Sprints,
        FilterDialogSection::Tags => FilterDialogSection::DateRange,
    }
}

/// Holds of the ids other than `id`.
pub open spec fn other_than(id: EntityId) -> spec_fn(EntityId) -> bool {
    |x: EntityId| x != id
}

/// `ids` with `id` removed when present, added at the end otherwise.
pub open spec fn with_id_toggled(ids: Seq<EntityId>, id: EntityId) -> Seq<EntityId> {
    if ids.contains(id) {
        ids.filter(other_than(id))
    } else {
        ids.push(id)
    }
}

/// Sprint rows of the filter dialog for the active board (the unassigned
/// toggle, then one row per sprint of the board), when a board is active.
pub open spec fn filter_rows(app: App) -> Option<nat> {
    match app.active_board_index() {
        Some(bi) => Some(1 + sprint_count_of(app.model.sprints@, app.model.boards@[bi].id)),
        None => None,
    }
}

/// `after` is `before` with the edited filters replaced by `d`.
pub open spec fn dialog_edited(before: App, after: App, d: FilterDialogState) -> bool {
    &&& before.unchanged_except(&after, (Touched { filter: true, ..untouched() }))
    &&& after.filter == (FilterState { dialog_state: Some(d), ..before.filter })
}

/// The filters of the dialog made the task list's.
pub open spec fn filters_applied(before: FilterState, d: FilterDialogState, after: FilterState) -> bool {
    &&& after.hide_assigned_cards == d.show_unassigned_sprints
    &&& after.active_sprint_filters@ == d.selected_sprint_ids@
    &&& after.search == before.search
}

/// What `f` does in the tasks panel (see `handle_open_filter_dialog`).
pub open spec fn filter_dialog_opened(before: App, after: App) -> bool {
    if before.focus.active == Focus::Cards && before.selection.active_board_id.is_some() {
        &&& before.unchanged_except(&after, (Touched { filter: true, mode: true, ..untouched() }))
        &&& after.mode == AppMode::Dialog(DialogMode::FilterOptions)
        &&& after.mode_stack@ == before.mode_stack@.push(before.mode)
        &&& after.filter.hide_assigned_cards == before.filter.hide_assigned_cards
        &&& after.filter.active_sprint_filters == before.filter.active_sprint_filters
        &&& after.filter.search == before.filter.search
        &&& after.filter.dialog_state matches Some(d) && d.show_unassigned_sprints == before.filter.hide_assigned_cards
            && d.selected_sprint_ids@ == before.filter.active_sprint_filters@ && d.current_section
            == FilterDialogSection::Sprints && d.item_selection == 0
    } else {
        before.unchanged_except(&after, untouched())
    }
}

/// Opening the filter dialog and confirming it at once leaves the task
/// list's filters as they were, and returns to the mode it was opened from.
pub proof fn law_filter_dialog_confirm_keeps_filters(a: App, b: App, c: App)
    requires
        a.focus.active == Focus::Cards,
        a.selection.active_board_id.is_some(),
        filter_dialog_opened(a, b),
        filter_key_handled(b, c, Key::Enter),
    ensures
        c.filter.hide_assigned_cards == a.filter.hide_assigned_cards,
        c.filter.active_sprint_filters@ == a.filter.active_sprint_filters@,
        c.filter.dialog_state.is_none(),
        c.mode == a.mode,
        c.mode_stack@ == a.mode_stack@,
{
    assert(b.mode_stack@.drop_last() =~= a.mode_stack@);
}

/// What a key does in the filter dialog.
pub open spec fn filter_key_handled(before: App, after: App, key: Key) -> bool {
    match before.filter.dialog_state {
        None => before.unchanged_except(&after, untouched()),
        Some(d) => match key {
            Key::Esc => {
                &&& before.unchanged_except(&after, (Touched { filter: true, mode: true, ..untouched() }))
                &&& popped(before, after)
                &&& after.filter == (FilterState { dialog_state: None, ..before.filter })
            },
            Key::Enter => {
                &&& before.unchanged_except(&after, (Touched { filter: true, mode: true, ..untouched() }))
                &&& popped(before, after)
                &&& filters_applied(before.filter, d, after.filter)
                &&& after.filter.dialog_state.is_none()
            },
            Key::Char('j') | Key::Down => if d.current_section == FilterDialogSection::Sprints {
                match filter_rows(before) {
                    Some(n) => if d.item_selection + 1 < n {
                        dialog_edited(before, after, FilterDialogState { item_selection: (d.item_selection + 1) as usize, ..d })
                    } else {
                        dialog_edited(before, after, FilterDialogState { current_section: section_after(d.current_section), ..d })
                    },
                    None => before.unchanged_except(&after, untouched()),
                }
            } else {
                dialog_edited(before, after, FilterDialogState { current_section: section_after(d.current_section), ..d })
            },
            Key::Char('k') | Key::Up => if d.current_section == FilterDialogSection::Sprints && d.item_selection > 0 {
                dialog_edited(before, after, FilterDialogState { item_selection: (d.item_selection - 1) as usize, ..d })
            } else {
                dialog_edited(before, after, FilterDialogState { current_section: section_before(d.current_section), ..d })
            },
            Key::Char(' ') => if d.current_section != FilterDialogSection::Sprints {
                before.unchanged_except(&after, untouched())
            } else if d.item_selection == 0 {
                &&& before.unchanged_except(&after, (Touched { filter: true, ..untouched() }))
                &&& after.filter.dialog_state matches Some(e) && e == (FilterDialogState {
                    show_unassigned_sprints: !d.show_unassigned_sprints,
                    ..d
                }) && filters_applied(before.filter, e, after.filter)
            } else {
                match before.active_board_index() {
                    Some(bi) => {
                        let rows = board_sprint_indices(before.model.sprints@, before.model.boards@[bi].id);
                        let k = d.item_selection - 1;
                        if k < rows.len() {
                            let id = before.model.sprints@[rows[k] as int].id;
                            &&& before.unchanged_except(&after, (Touched { filter: true, ..untouched() }))
                            &&& after.filter.dialog_state matches Some(e) && e.show_unassigned_sprints
                                == d.show_unassigned_sprints && e.current_section == d.current_section
                                && e.item_selection == d.item_selection && e.selected_sprint_ids@ == with_id_toggled(
                                d.selected_sprint_ids@,
                                id,
                            ) && filters_applied(before.filter, e, after.filter)
                        } else {
                            before.unchanged_except(&after, untouched())
                        }
                    },
                    None => before.unchanged_except(&after, untouched()),
                }
            },
            _ => before.unchanged_except(&after, untouched()),
        },
    }
}

/// The section after `s`, wrapping around.
fn next_section(s: FilterDialogSection) -> (r: FilterDialogSection)
    ensures
        r == section_after(s),
{
    match s {
        FilterDialogSection::Sprints => FilterDialogSection::DateRange,
        FilterDialogSection::DateRange => FilterDialogSection::Tags,
        FilterDialogSection::Tags => FilterDialogSection::Sprints,
    }
}

/// The section before `s`, wrapping around.
fn prev_section(s: FilterDialogSection) -> (r: FilterDialogSection)
    ensures
        r == section_before(s),
{
    match s {
        FilterDialogSection::Sprints => FilterDialogSection::Tags,
        FilterDialogSection::DateRange => FilterDialogSection::Sprints,
        FilterDialogSection::Tags => FilterDialogSection::DateRange,
    }
}

/// Removes `id` when present, adds it at the end otherwise.
pub(crate) fn toggle_id(ids: &mut Vec<EntityId>, id: EntityId)
    ensures
        final(ids)@ == with_id_toggled(old(ids)@, id),
{
    if super::model::contains_id(ids, id) {
        let ghost before = ids@;
        super::card_handlers::remove_id(ids, id);
        proof {
            let f = |x: EntityId| x != id;
            assert(other_than(id) =~= f);
            assert(ids@ == before.filter(f));
        }
    } else {
        ids.push(id);
    }
}

/// A copy of a list of ids.
fn copy_ids(ids: &Vec<EntityId>) -> (r: Vec<EntityId>)
    ensures
        r@ == ids@,
{
    ids.clone()
}

impl App {
    /// `f` in the tasks panel of an active board: the filter dialog opens on
    /// the current filters, its sprints section first.
    pub fn handle_open_filter_dialog(&mut self)
        requires
            old(self).well_formed(),
        ensures
            final(self).well_formed(),
            filter_dialog_opened(*old(self), *final(self)),
    {
        if self.focus.active != Focus::Cards || self.selection.active_board_id.is_none() {
            return;
        }
        let selected = copy_ids(&self.filter.active_sprint_filters);
        self.filter.dialog_state = Some(
            FilterDialogState {
                show_unassigned_sprints: self.filter.hide_assigned_cards,
                selected_sprint_ids: selected,
                current_section: FilterDialogSection::Sprints,
                item_selection: 0,
            },
        );
        self.open_dialog(DialogMode::FilterOptions);
    }

    /// Makes the filters of the dialog the task list's, when the dialog is
    /// open.
    pub fn apply_filters(&mut self)
        requires
            old(self).well_formed(),
        ensures
            final(self).well_formed(),
            match old(self).filter.dialog_state {
                Some(d) => {
                    &&& old(self).unchanged_except(final(self), (Touched { filter: true, ..untouched() }))
                    &&& filters_applied(old(self).filter, d, final(self).filter)
                    &&& final(self).filter.dialog_state == old(self).filter.dialog_state
                },
                None => old(self).unchanged_except(final(self), untouched()),
            },
    {
        if let Some(d) = &self.filter.dialog_state {
            let hide = d.show_unassigned_sprints;
            let ids = copy_ids(&d.selected_sprint_ids);
            self.filter.hide_assigned_cards = hide;
            self.filter.active_sprint_filters = ids;
        }
    }

    /// A key in the filter dialog.
    #[verifier::rlimit(60)]
    pub fn handle_filter_options_popup(&mut self, key: Key)
        requires
            old(self).well_formed(),
        ensures
            filter_key_handled(*old(self), *final(self), key),
            final(self).well_formed(),
    {
        let Some(mut d) = self.filter.dialog_state.take() else {
            return;
        };
        let ghost d0 = d;
        match key {
            Key::Esc => {
                self.pop_mode();
                return;
            },
            Key::Enter => {
                self.filter.dialog_state = Some(d);
                self.apply_filters();
                self.filter.dialog_state = None;
                self.pop_mode();
                return;
            },
            Key::Char('j') | Key::Down => {
                if d.current_section == FilterDialogSection::Sprints {
                    match self.active_board() {
                        Some(bi) => {
                            let n = self.model.sprint_count_for_board(self.model.boards[bi].id);
                            proof {
                                super::model::lemma_count_where_bounded(
                                    self.model.sprints@,
                                    |s: Sprint| s.board_id == self.model.boards@[bi as int].id,
                                );
                            }
                            if d.item_selection < n {
                                d.item_selection = d.item_selection + 1;
                            } else {
                                d.current_section = next_section(d.current_section);
                            }
                        },
                        None => {},
                    }
                } else {
                    d.current_section = next_section(d.current_section);
                }
            },
            Key::Char('k') | Key::Up => {
                if d.current_section == FilterDialogSection::Sprints && d.item_selection > 0 {
                    d.item_selection = d.item_selection - 1;
                } else {
                    d.current_section = prev_section(d.current_section);
                }
            },
            Key::Char(' ') => {
                if d.current_section == FilterDialogSection::Sprints {
                    if d.item_selection == 0 {
                        d.show_unassigned_sprints = !d.show_unassigned_sprints;
                        self.filter.dialog_state = Some(d);
                        self.apply_filters();
                        return;
                    } else if let Some(bi) = self.active_board() {
                        let rows = self.board_sprints(self.model.boards[bi].id);
                        let k = d.item_selection - 1;
                        if k < rows.len() {
                            proof {
                                super::board_detail::lemma_board_sprint_indices_in_range(
                                    self.model.sprints@,
                                    self.model.boards@[bi as int].id,
                                );
                            }
                            let id = self.model.sprints[rows[k]].id;
                            toggle_id(&mut d.selected_sprint_ids, id);
                            self.filter.dialog_state = Some(d);
                            self.apply_filters();
                            return;
                        }
                    }
                }
            },
            _ => {},
        }
        self.filter.dialog_state = Some(d);
    }
}

} // verus!
