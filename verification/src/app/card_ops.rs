//! Task-panel keys that act on cards: completion and the priority picker.

use super::card_detail::popped;
use super::components::{next_row, position_of, prev_row, CardList, ListSelection};
use super::model::{card_index, Card, CardPriority, CardStatus, EntityId, KanbanModel};
use super::modes::{AppMode, DialogMode, Focus, Key};
use super::state::{untouched, App, DialogInputState, MultiSelectState, Touched};
use vstd::prelude::*;

verus! {

/// Done becomes to-do, anything else becomes done.
pub open spec fn toggled(s: CardStatus) -> CardStatus {
    match s {
        CardStatus::Done => CardStatus::Todo,
        CardStatus::Todo => CardStatus::Done,
    }
}

/// `cards` with the status of the card of `id` (its first occurrence)
/// toggled; unchanged when there is no such card.
pub open spec fn with_toggled(cards: Seq<Card>, id: EntityId) -> Seq<Card> {
    match card_index(cards, id) {
        Some(i) => cards.update(i, Card { status: toggled(cards[i].status), ..cards[i] }),
        None => cards,
    }
}

/// `cards` with the cards of `ids` toggled, in order.
pub open spec fn with_all_toggled(cards: Seq<Card>, ids: Seq<EntityId>) -> Seq<Card>
    decreases ids.len(),
{
    if ids.len() == 0 {
        cards
    } else {
        with_toggled(with_all_toggled(cards, ids.drop_last()), ids.last())
    }
}

/// Number of rows of the priority picker.
pub const PRIORITY_COUNT: usize = 4;

/// `cards` with the card of `id` (its first occurrence) at priority `p`.
pub open spec fn with_priority(cards: Seq<Card>, id: EntityId, p: CardPriority) -> Seq<Card> {
    match card_index(cards, id) {
        Some(i) => cards.update(i, Card { priority: p, ..cards[i] }),
        None => cards,
    }
}

/// `cards` with every card of `ids` at priority `p`.
pub open spec fn with_ids_priority(cards: Seq<Card>, ids: Seq<EntityId>, p: CardPriority) -> Seq<Card> {
    Seq::new(cards.len(), |i: int| if ids.contains(cards[i].id) { Card { priority: p, ..cards[i] } } else { cards[i] })
}

/// `after` is `before` with the priority picker's row as given.
pub open spec fn priority_row_set(before: App, after: App, row: Option<usize>) -> bool {
    &&& before.unchanged_except(&after, (Touched { dialog_input: true, ..untouched() }))
    &&& after.dialog_input == (DialogInputState {
        priority_selection: ListSelection { selected: row },
        ..before.dialog_input
    })
}

/// `list` with the row of `id` selected, when it shows that card.
pub open spec fn with_card_selected(list: CardList, id: EntityId) -> CardList {
    match position_of(list.cards@, id) {
        Some(i) => CardList { selected: Some(i as usize), ..list },
        None => list,
    }
}

impl KanbanModel {
    /// Toggles the completion of the card of `id`.
    pub fn toggle_card_status(&mut self, id: EntityId)
        ensures
            final(self).cards@ == with_toggled(old(self).cards@, id),
            final(self).boards == old(self).boards,
            final(self).columns == old(self).columns,
            final(self).archived_cards == old(self).archived_cards,
            final(self).sprints == old(self).sprints,
            final(self).edges == old(self).edges,
    {
        if let Some(i) = self.card_by_id(id) {
            let new_status = match self.cards[i].status {
                CardStatus::Done => CardStatus::Todo,
                CardStatus::Todo => CardStatus::Done,
            };
            let ghost before = self.cards@;
            {
                let c = &mut self.cards[i];
                c.status = new_status;
            }
            proof {
                assert(self.cards@ =~= before.update(i as int, Card { status: toggled(before[i as int].status), ..before[i as int] }));
            }
        }
    }
}

impl KanbanModel {
    /// Sets the priority of the card of `id`.
    pub fn set_card_priority(&mut self, id: EntityId, p: CardPriority)
        ensures
            final(self).cards@ == with_priority(old(self).cards@, id, p),
            final(self).boards == old(self).boards,
            final(self).columns == old(self).columns,
            final(self).archived_cards == old(self).archived_cards,
            final(self).sprints == old(self).sprints,
            final(self).edges == old(self).edges,
    {
        if let Some(i) = self.card_by_id(id) {
            let ghost before = self.cards@;
            {
                let c = &mut self.cards[i];
                c.priority = p;
            }
            proof {
                assert(self.cards@ =~= before.update(i as int, Card { priority: p, ..before[i as int] }));
            }
        }
    }

    /// Sets the priority of every card of `ids`.
    pub fn set_cards_priority(&mut self, ids: &Vec<EntityId>, p: CardPriority)
        ensures
            final(self).cards@ == with_ids_priority(old(self).cards@, ids@, p),
            final(self).boards == old(self).boards,
            final(self).columns == old(self).columns,
            final(self).archived_cards == old(self).archived_cards,
            final(self).sprints == old(self).sprints,
            final(self).edges == old(self).edges,
    {
        let ghost start = self.cards@;
        let mut i: usize = 0;
        while i < self.cards.len()
            invariant
                i <= self.cards@.len(),
                self.cards@.len() == start.len(),
                start == old(self).cards@,
                self.boards == old(self).boards,
                self.columns == old(self).columns,
                self.archived_cards == old(self).archived_cards,
                self.sprints == old(self).sprints,
                self.edges == old(self).edges,
                forall|k: int| 0 <= k < i ==> self.cards@[k] == with_ids_priority(start, ids@, p)[k],
                forall|k: int| i <= k < start.len() ==> self.cards@[k] == start[k],
            decreases self.cards@.len() - i,
        {
            if super::model::contains_id(ids, self.cards[i].id) {
                let c = &mut self.cards[i];
                c.priority = p;
            }
            i = i + 1;
        }
        proof {
            assert(self.cards@ =~= with_ids_priority(start, ids@, p));
        }
    }
}

impl App {
    /// Selects the row of `id` in the active task list, when it shows that card.
    pub fn select_card_by_id(&mut self, id: EntityId)
        requires
            old(self).well_formed(),
        ensures
            final(self).well_formed(),
            old(self).unchanged_except(final(self), (Touched { view: true, ..untouched() })),
            final(self).view.viewport_height == old(self).view.viewport_height,
            final(self).view.layout == old(self).view.layout,
            final(self).view.active_column == old(self).view.active_column,
            final(self).view.column_boundaries@ == old(self).view.column_boundaries@,
            old(self).view.has_active_list() ==> final(self).view.lists@ == old(self).view.lists@.update(
                old(self).view.active_index(),
                with_card_selected(old(self).view.active_list(), id),
            ),
            !old(self).view.has_active_list() ==> final(self).view == old(self).view,
    {
        if let Some(li) = self.view.active_list_index() {
            let ghost v = self.view;
            proof {
                super::components::lemma_position_of(self.view.lists@[li as int].cards@, id);
            }
            if let Some(row) = super::components::find_position(&self.view.lists[li].cards, id) {
                self.view.lists[li].set_selected_index(Some(row));
                proof {
                    assert forall|i: int| 0 <= i < self.view.lists@.len() implies (#[trigger] self.view.lists@[i]).cards@.len()
                        + super::view::MAX_VIEWPORT_HEIGHT <= usize::MAX && self.view.lists@[i].well_formed()
                        && self.view.lists@[i].scroll_offset <= self.view.lists@[i].cards@.len() by {
                        if i != li {
                            assert(self.view.lists@[i] == v.lists@[i]);
                        }
                    }
                    assert(self.view.lists@ =~= v.lists@.update(li as int, with_card_selected(v.lists@[li as int], id)));
                }
            } else {
                proof {
                    assert(self.view.lists@ =~= v.lists@.update(li as int, with_card_selected(v.lists@[li as int], id)));
                }
            }
        }
    }

    /// `c` in the tasks panel: toggles the completion of the selected cards
    /// (then leaves selection mode with an empty selection) or else of the
    /// card under the cursor; the task list is resynced and the (first)
    /// toggled card selected again.
    pub fn handle_toggle_card_completion(&mut self)
        requires
            old(self).well_formed(),
        ensures
            final(self).well_formed(),
            old(self).focus.active != Focus::Cards ==> old(self).unchanged_except(final(self), untouched()),
            old(self).focus.active == Focus::Cards && old(self).multi_select.selected_cards@.len() > 0 ==> {
                &&& final(self).model.cards@ == with_all_toggled(
                    old(self).model.cards@,
                    old(self).multi_select.selected_cards@,
                )
                &&& final(self).multi_select == (MultiSelectState {
                    selection_mode_active: false,
                    selected_cards: final(self).multi_select.selected_cards,
                    ..old(self).multi_select
                })
                &&& final(self).multi_select.selected_cards@.len() == 0
            },
            old(self).focus.active == Focus::Cards && old(self).multi_select.selected_cards@.len() == 0 ==> {
                &&& final(self).multi_select == old(self).multi_select
                &&& final(self).model.cards@ == match old(self).selected_card_in_context() {
                    Some(id) => with_toggled(old(self).model.cards@, id),
                    None => old(self).model.cards@,
                }
            },
            old(self).focus.active == Focus::Cards ==> {
                &&& old(self).unchanged_except(
                    final(self),
                    (Touched { model: true, multi_select: true, board_list: true, view: true, ..untouched() }),
                )
                &&& final(self).model.boards == old(self).model.boards
                &&& final(self).model.columns == old(self).model.columns
                &&& final(self).model.archived_cards == old(self).model.archived_cards
                &&& final(self).model.sprints == old(self).model.sprints
                &&& final(self).model.edges == old(self).model.edges
            },
    {
        if self.focus.active != Focus::Cards {
            return;
        }
        if self.multi_select.selected_cards.len() > 0 {
            self.toggle_selected_cards_completion();
        } else {
            self.toggle_card_completion();
        }
    }

    /// Toggles the completion of every multi-selected card, leaves selection
    /// mode with an empty selection and selects the first of them again.
    fn toggle_selected_cards_completion(&mut self)
        requires
            old(self).well_formed(),
            old(self).multi_select.selected_cards@.len() > 0,
        ensures
            final(self).well_formed(),
            final(self).model.cards@ == with_all_toggled(old(self).model.cards@, old(self).multi_select.selected_cards@),
            final(self).multi_select == (MultiSelectState {
                selection_mode_active: false,
                selected_cards: final(self).multi_select.selected_cards,
                ..old(self).multi_select
            }),
            final(self).multi_select.selected_cards@.len() == 0,
            old(self).unchanged_except(
                final(self),
                (Touched { model: true, multi_select: true, board_list: true, view: true, ..untouched() }),
            ),
            final(self).model.boards == old(self).model.boards,
            final(self).model.columns == old(self).model.columns,
            final(self).model.archived_cards == old(self).model.archived_cards,
            final(self).model.sprints == old(self).model.sprints,
            final(self).model.edges == old(self).model.edges,
    {
        let mut ids: Vec<EntityId> = Vec::new();
        std::mem::swap(&mut ids, &mut self.multi_select.selected_cards);
        let ghost start = *self;
        let mut i: usize = 0;
        while i < ids.len()
            invariant
                i <= ids@.len(),
                ids@ == old(self).multi_select.selected_cards@,
                start.unchanged_except(self, (Touched { model: true, ..untouched() })),
                self.model.boards == old(self).model.boards,
                self.model.columns == old(self).model.columns,
                self.model.archived_cards == old(self).model.archived_cards,
                self.model.sprints == old(self).model.sprints,
                self.model.edges == old(self).model.edges,
                self.model.cards@ == with_all_toggled(old(self).model.cards@, ids@.take(i as int)),
                self.well_formed(),
            decreases ids@.len() - i,
        {
            proof {
                assert(ids@.take(i + 1).drop_last() =~= ids@.take(i as int));
            }
            let id = ids[i];
            self.model.toggle_card_status(id);
            i = i + 1;
        }
        proof {
            assert(ids@.take(ids@.len() as int) =~= ids@);
        }
        self.multi_select.selection_mode_active = false;
        let first = ids[0];
        self.prepare_frame();
        self.select_card_by_id(first);
    }

    /// Toggles the completion of the card under the cursor and selects it
    /// again in the resynced task list.
    fn toggle_card_completion(&mut self)
        requires
            old(self).well_formed(),
        ensures
            final(self).well_formed(),
            final(self).multi_select == old(self).multi_select,
            final(self).model.cards@ == match old(self).selected_card_in_context() {
                Some(id) => with_toggled(old(self).model.cards@, id),
                None => old(self).model.cards@,
            },
            old(self).unchanged_except(
                final(self),
                (Touched { model: true, multi_select: true, board_list: true, view: true, ..untouched() }),
            ),
            final(self).model.boards == old(self).model.boards,
            final(self).model.columns == old(self).model.columns,
            final(self).model.archived_cards == old(self).model.archived_cards,
            final(self).model.sprints == old(self).model.sprints,
            final(self).model.edges == old(self).model.edges,
    {
        if let Some(id) = self.get_selected_card_in_context() {
            self.model.toggle_card_status(id);
            self.prepare_frame();
            self.select_card_by_id(id);
        }
    }

    /// `P` in the tasks panel: the card under the cursor becomes the active
    /// card and the priority picker opens on its priority.
    pub fn handle_set_card_priority_key(&mut self)
        requires
            old(self).well_formed(),
        ensures
            final(self).well_formed(),
            ({
                let target = if old(self).focus.active == Focus::Cards {
                    match old(self).view.active_selected_card_spec() {
                        Some(id) => if card_index(old(self).model.cards@, id).is_some() {
                            Some(id)
                        } else {
                            None
                        },
                        None => None,
                    }
                } else {
                    None
                };
                match target {
                    None => old(self).unchanged_except(final(self), untouched()),
                    Some(id) => {
                        let i = card_index(old(self).model.cards@, id).unwrap();
                        &&& old(self).unchanged_except(
                            final(self),
                            (Touched { selection: true, dialog_input: true, mode: true, ..untouched() }),
                        )
                        &&& final(self).selection == (super::state::SelectionState {
                            active_card_id: Some(id),
                            ..old(self).selection
                        })
                        &&& final(self).dialog_input == (super::state::DialogInputState {
                            priority_selection: super::components::ListSelection {
                                selected: Some(old(self).model.cards@[i].priority.picker_row()),
                            },
                            ..old(self).dialog_input
                        })
                        &&& final(self).mode == super::modes::AppMode::Dialog(DialogMode::SetCardPriority)
                        &&& final(self).mode_stack@ == old(self).mode_stack@.push(old(self).mode)
                    },
                }
            }),
    {
        if self.focus.active != Focus::Cards {
            return;
        }
        let Some(card_id) = self.view.active_selected_card() else {
            return;
        };
        if self.activate_card(card_id) {
            let priority_idx = self.get_current_priority_selection_index();
            self.dialog_input.priority_selection.set(Some(priority_idx));
            self.open_dialog(DialogMode::SetCardPriority);
        }
    }

    /// A key in the priority picker of the active card: `j`/`k` move, Enter
    /// gives the active card the picked priority; Enter and Esc close it.
    pub fn handle_set_card_priority_popup(&mut self, key: Key)
        requires
            old(self).well_formed(),
        ensures
            final(self).well_formed(),
            match key {
                Key::Esc => old(self).unchanged_except(final(self), (Touched { mode: true, ..untouched() }))
                    && popped(*old(self), *final(self)),
                Key::Char('j') | Key::Down => priority_row_set(
                    *old(self),
                    *final(self),
                    next_row(old(self).dialog_input.priority_selection.selected, PRIORITY_COUNT),
                ),
                Key::Char('k') | Key::Up => priority_row_set(
                    *old(self),
                    *final(self),
                    prev_row(old(self).dialog_input.priority_selection.selected),
                ),
                Key::Enter => {
                    &&& old(self).unchanged_except(final(self), (Touched { mode: true, model: true, ..untouched() }))
                    &&& popped(*old(self), *final(self))
                    &&& final(self).model == (KanbanModel { cards: final(self).model.cards, ..old(self).model })
                    &&& final(self).model.cards@ == match (
                        old(self).dialog_input.priority_selection.selected,
                        old(self).selection.active_card_id,
                    ) {
                        (Some(row), Some(id)) => with_priority(old(self).model.cards@, id, CardPriority::of_row(row)),
                        _ => old(self).model.cards@,
                    }
                },
                _ => old(self).unchanged_except(final(self), untouched()),
            },
    {
        match key {
            Key::Esc => {
                self.pop_mode();
            },
            Key::Char('j') | Key::Down => {
                self.dialog_input.priority_selection.next(PRIORITY_COUNT);
            },
            Key::Char('k') | Key::Up => {
                self.dialog_input.priority_selection.prev();
            },
            Key::Enter => {
                if let Some(row) = self.dialog_input.priority_selection.get() {
                    if let Some(id) = self.selection.active_card_id {
                        self.model.set_card_priority(id, CardPriority::from_row(row));
                    }
                }
                self.pop_mode();
            },
            _ => {},
        }
    }

    /// A key in the priority picker of the picked cards: `j`/`k` move, Enter
    /// gives every picked card the picked priority and leaves selection mode
    /// with an empty selection; Enter and Esc close the picker and clear it.
    pub fn handle_set_multiple_cards_priority_popup(&mut self, key: Key)
        requires
            old(self).well_formed(),
        ensures
            final(self).well_formed(),
            match key {
                Key::Esc => {
                    &&& old(self).unchanged_except(final(self), (Touched { mode: true, dialog_input: true, ..untouched() }))
                    &&& popped(*old(self), *final(self))
                    &&& final(self).dialog_input == (DialogInputState {
                        priority_selection: ListSelection { selected: None },
                        ..old(self).dialog_input
                    })
                },
                Key::Char('j') | Key::Down => priority_row_set(
                    *old(self),
                    *final(self),
                    next_row(old(self).dialog_input.priority_selection.selected, PRIORITY_COUNT),
                ),
                Key::Char('k') | Key::Up => priority_row_set(
                    *old(self),
                    *final(self),
                    prev_row(old(self).dialog_input.priority_selection.selected),
                ),
                Key::Enter => {
                    &&& old(self).unchanged_except(
                        final(self),
                        (Touched { mode: true, dialog_input: true, model: true, multi_select: true, ..untouched() }),
                    )
                    &&& popped(*old(self), *final(self))
                    &&& final(self).dialog_input == (DialogInputState {
                        priority_selection: ListSelection { selected: None },
                        ..old(self).dialog_input
                    })
                    &&& final(self).model == (KanbanModel { cards: final(self).model.cards, ..old(self).model })
                    &&& match old(self).dialog_input.priority_selection.selected {
                        Some(row) => {
                            &&& final(self).model.cards@ == with_ids_priority(
                                old(self).model.cards@,
                                old(self).multi_select.selected_cards@,
                                CardPriority::of_row(row),
                            )
                            &&& final(self).multi_select == (MultiSelectState {
                                selected_cards: final(self).multi_select.selected_cards,
                                selection_mode_active: false,
                                ..old(self).multi_select
                            })
                            &&& final(self).multi_select.selected_cards@.len() == 0
                        },
                        None => final(self).model == old(self).model && final(self).multi_select == old(
                            self,
                        ).multi_select,
                    }
                },
                _ => old(self).unchanged_except(final(self), untouched()),
            },
    {
        match key {
            Key::Esc => {
                self.pop_mode();
                self.dialog_input.priority_selection.clear();
            },
            Key::Char('j') | Key::Down => {
                self.dialog_input.priority_selection.next(PRIORITY_COUNT);
            },
            Key::Char('k') | Key::Up => {
                self.dialog_input.priority_selection.prev();
            },
            Key::Enter => {
                if let Some(row) = self.dialog_input.priority_selection.get() {
                    let ids = self.multi_select.selected_cards.clone();
                    self.model.set_cards_priority(&ids, CardPriority::from_row(row));
                    self.multi_select.selected_cards = Vec::new();
                    self.multi_select.selection_mode_active = false;
                }
                self.pop_mode();
                self.dialog_input.priority_selection.clear();
            },
            _ => {},
        }
    }
}

} // verus!
