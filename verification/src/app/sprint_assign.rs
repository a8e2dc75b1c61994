//! Assigning the card under the cursor, or every multi-selected card, to a
//! sprint. The sprint picker itself (its rows, which sprints it offers and
//! which it highlights) is kept by the front end; the library takes what it
//! holds when the dialog is confirmed.

use super::card_detail::popped;
use super::model::{card_index, Card, EntityId, KanbanModel};
use super::modes::{AppMode, DialogMode, Focus, Key};
use super::state::{untouched, App, MultiSelectState, SelectionState, Touched};
use vstd::prelude::*;

verus! {

/// What the sprint picker holds when its dialog is confirmed, for the
/// board it was opened on.
#[derive(Debug, Clone, Copy, PartialEq, Eq, Structural)]
pub enum SprintPick {
    /// A sprint is chosen.
    Sprint(EntityId),
    /// "No sprint" is chosen explicitly.
    Unassigned,
    /// Nothing is chosen, or the picker belongs to another board.
    Nothing,
}

/// The sprint the cards get for `pick`, when they get one at all.
pub open spec fn picked_sprint(pick: SprintPick) -> Option<Option<EntityId>> {
    match pick {
        SprintPick::Sprint(s) => Some(Some(s)),
        SprintPick::Unassigned => Some(None),
        SprintPick::Nothing => None,
    }
}

/// `cards` with every card of `ids` in sprint `sprint` (none for `None`).
pub open spec fn with_ids_sprint(cards: Seq<Card>, ids: Seq<EntityId>, sprint: Option<EntityId>) -> Seq<Card> {
    Seq::new(
        cards.len(),
        |i: int|
            if ids.contains(cards[i].id) {
                Card { sprint_id: sprint, ..cards[i] }
            } else {
                cards[i]
            },
    )
}

/// The cards of `cards` after confirming `pick` for the cards of `ids`.
pub open spec fn assigned(cards: Seq<Card>, ids: Seq<EntityId>, pick: SprintPick) -> Seq<Card> {
    match picked_sprint(pick) {
        Some(s) => with_ids_sprint(cards, ids, s),
        None => cards,
    }
}

/// `after` differs from `before` in the cards of the model only, which are
/// `cards`.
pub open spec fn cards_now(before: App, after: App, cards: Seq<Card>) -> bool {
    &&& after.model == (KanbanModel { cards: after.model.cards, ..before.model })
    &&& after.model.cards@ == cards
}

impl KanbanModel {
    /// Puts every card of `ids` in sprint `sprint` (none for `None`).
    pub fn set_cards_sprint(&mut self, ids: &Vec<EntityId>, sprint: Option<EntityId>)
        ensures
            final(self).cards@ == with_ids_sprint(old(self).cards@, ids@, sprint),
            final(self).boards == old(self).boards,
            final(self).columns == old(self).columns,
            final(self).archived_cards == old(self).archived_cards,
            final(self).sprints == old(self).sprints,
            final(self).edges == old(self).edges,
    {
        let ghost start = self.cards@;
        let mut i: usize = 0;
        while i < self.cards.len()
            invariant
                i <= self.cards@.len(),
                self.cards@.len() == start.len(),
                start == old(self).cards@,
                self.boards == old(self).boards,
                self.columns == old(self).columns,
                self.archived_cards == old(self).archived_cards,
                self.sprints == old(self).sprints,
                self.edges == old(self).edges,
                forall|k: int| 0 <= k < i ==> self.cards@[k] == with_ids_sprint(start, ids@, sprint)[k],
                forall|k: int| i <= k < start.len() ==> self.cards@[k] == start[k],
            decreases self.cards@.len() - i,
        {
            if super::model::contains_id(ids, self.cards[i].id) {
                let c = &mut self.cards[i];
                c.sprint_id = sprint;
            }
            i = i + 1;
        }
        proof {
            assert(self.cards@ =~= with_ids_sprint(start, ids@, sprint));
        }
    }
}

impl App {
    /// Applies `pick` to the cards of `ids`.
    fn apply_pick(&mut self, ids: &Vec<EntityId>, pick: SprintPick)
        requires
            old(self).well_formed(),
        ensures
            final(self).well_formed(),
            old(self).unchanged_except(final(self), (Touched { model: true, ..untouched() })),
            cards_now(*old(self), *final(self), assigned(old(self).model.cards@, ids@, pick)),
    {
        match pick {
            SprintPick::Sprint(s) => self.model.set_cards_sprint(ids, Some(s)),
            SprintPick::Unassigned => self.model.set_cards_sprint(ids, None),
            SprintPick::Nothing => {},
        }
    }

    /// `a` in the tasks panel: with multi-selected cards, opens the bulk
    /// sprint picker; otherwise the card under the cursor becomes the
    /// active card and the single-card picker opens, provided a board is
    /// active and `has_assignable` (the picker would offer a sprint to
    /// choose).
    pub fn handle_assign_to_sprint_key(&mut self, has_assignable: bool)
        requires
            old(self).well_formed(),
        ensures
            final(self).well_formed(),
            old(self).focus.active != Focus::Cards ==> old(self).unchanged_except(final(self), untouched()),
            old(self).focus.active == Focus::Cards && old(self).multi_select.selected_cards@.len() > 0 ==> {
                &&& old(self).unchanged_except(final(self), (Touched { mode: true, ..untouched() }))
                &&& final(self).mode == AppMode::Dialog(DialogMode::AssignMultipleCardsToSprint)
                &&& final(self).mode_stack@ == old(self).mode_stack@.push(old(self).mode)
            },
            old(self).focus.active == Focus::Cards && old(self).multi_select.selected_cards@.len() == 0 ==> match old(
                self,
            ).selected_card_in_context() {
                Some(id) => if old(self).active_board_index().is_some() && has_assignable {
                    &&& old(self).unchanged_except(final(self), (Touched { mode: true, selection: true, ..untouched() }))
                    &&& final(self).selection == (SelectionState { active_card_id: Some(id), ..old(self).selection })
                    &&& final(self).mode == AppMode::Dialog(DialogMode::AssignCardToSprint)
                    &&& final(self).mode_stack@ == old(self).mode_stack@.push(old(self).mode)
                } else {
                    old(self).unchanged_except(final(self), untouched())
                },
                None => old(self).unchanged_except(final(self), untouched()),
            },
    {
        if self.focus.active != Focus::Cards {
            return;
        }
        if self.multi_select.selected_cards.len() > 0 {
            self.open_dialog(DialogMode::AssignMultipleCardsToSprint);
            return;
        }
        if let Some(id) = self.get_selected_card_in_context() {
            if self.active_board().is_none() || !has_assignable {
                return;
            }
            self.selection.active_card_id = Some(id);
            self.open_dialog(DialogMode::AssignCardToSprint);
        }
    }

    /// A key in the single-card sprint picker. Esc closes it; Enter gives
    /// the active card the sprint `pick` holds (or takes it out of its
    /// sprint) and closes it. Without an active card Enter just closes the
    /// picker; when the card or the active board is not in the model it
    /// reports an error and leaves the picker open. Other keys move the
    /// picker, which the front end keeps.
    pub fn handle_assign_card_to_sprint_popup(&mut self, key: Key, pick: SprintPick)
        requires
            old(self).well_formed(),
        ensures
            final(self).well_formed(),
            match key {
                Key::Esc => old(self).unchanged_except(final(self), (Touched { mode: true, ..untouched() }))
                    && popped(*old(self), *final(self)),
                Key::Enter => match old(self).selection.active_card_id {
                    None => old(self).unchanged_except(final(self), (Touched { mode: true, ..untouched() }))
                        && popped(*old(self), *final(self)),
                    Some(id) => if card_index(old(self).model.cards@, id).is_none()
                        || old(self).active_board_index().is_none() {
                        old(self).unchanged_except(final(self), (Touched { error: true, ..untouched() }))
                            && final(self).error_message is Some
                    } else {
                        &&& old(self).unchanged_except(final(self), (Touched { mode: true, model: true, ..untouched() }))
                        &&& popped(*old(self), *final(self))
                        &&& cards_now(*old(self), *final(self), assigned(old(self).model.cards@, seq![id], pick))
                    },
                },
                _ => old(self).unchanged_except(final(self), untouched()),
            },
    {
        match key {
            Key::Esc => {
                self.pop_mode();
            },
            Key::Enter => {
                let id = match self.selection.active_card_id {
                    Some(id) => id,
                    None => {
                        self.pop_mode();
                        return;
                    },
                };
                if self.model.card_by_id(id).is_none() {
                    self.set_error("Card is not loaded yet");
                    return;
                }
                if self.active_board().is_none() {
                    self.set_error("Board is not loaded yet");
                    return;
                }
                let ids = vec![id];
                self.apply_pick(&ids, pick);
                proof {
                    assert(ids@ =~= seq![id]);
                }
                self.pop_mode();
            },
            _ => {},
        }
    }

    /// A key in the bulk sprint picker. Esc closes it and ends the
    /// multi-selection; Enter gives every multi-selected card the sprint
    /// `pick` holds (or takes them out of their sprints), closes the picker
    /// and ends the multi-selection. Without an active board Enter reports
    /// an error and changes nothing else. Other keys move the picker.
    pub fn handle_assign_multiple_cards_to_sprint_popup(&mut self, key: Key, pick: SprintPick)
        requires
            old(self).well_formed(),
        ensures
            final(self).well_formed(),
            match key {
                Key::Esc => {
                    &&& old(self).unchanged_except(final(self), (Touched { mode: true, multi_select: true, ..untouched() }))
                    &&& popped(*old(self), *final(self))
                    &&& final(self).multi_select.selected_cards@.len() == 0
                    &&& final(self).multi_select == (MultiSelectState {
                        selection_mode_active: false,
                        selected_cards: final(self).multi_select.selected_cards,
                        ..old(self).multi_select
                    })
                },
                Key::Enter => if old(self).active_board_index().is_none() {
                    old(self).unchanged_except(final(self), (Touched { error: true, ..untouched() }))
                        && final(self).error_message is Some
                } else {
                    &&& old(self).unchanged_except(
                        final(self),
                        (Touched { mode: true, model: true, multi_select: true, ..untouched() }),
                    )
                    &&& popped(*old(self), *final(self))
                    &&& cards_now(
                        *old(self),
                        *final(self),
                        assigned(old(self).model.cards@, old(self).multi_select.selected_cards@, pick),
                    )
                    &&& final(self).multi_select.selected_cards@.len() == 0
                    &&& final(self).multi_select == (MultiSelectState {
                        selection_mode_active: false,
                        selected_cards: final(self).multi_select.selected_cards,
                        ..old(self).multi_select
                    })
                },
                _ => old(self).unchanged_except(final(self), untouched()),
            },
    {
        match key {
            Key::Esc => {
                self.pop_mode();
                self.multi_select.selected_cards = Vec::new();
                self.multi_select.selection_mode_active = false;
            },
            Key::Enter => {
                if self.active_board().is_none() {
                    self.set_error("Board is not loaded yet");
                    return;
                }
                let mut ids: Vec<EntityId> = Vec::new();
                std::mem::swap(&mut ids, &mut self.multi_select.selected_cards);
                self.apply_pick(&ids, pick);
                self.pop_mode();
                self.multi_select.selection_mode_active = false;
            },
            _ => {},
        }
    }
}

} // verus!
