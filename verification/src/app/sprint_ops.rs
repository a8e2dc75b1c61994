//! Sprint lifecycle: activating, completing and carrying over sprints, and
//! the task lists of the sprint detail view.

use super::board_detail::{input_dialog_over, sprint_count_of};
use super::animations::with_animations;
use super::card_detail::{board_has_sprints, dialog_over, popped};
use super::dialogs::{edited, string_of, trimmed, trimmed_chars};
use super::card_ops::toggled;
use super::components::{
    clamp_selection, next_row, prev_row, recounted, row_above, row_below, visible_offset, CardList, ListSelection,
};
use super::card_moves::{neighbour_column, with_column};
use super::filter_ops::with_id_toggled;
use super::model::{children_of, parents_of};
use super::model::{
    card_index, count_where, is_archived_card, ArchivedCard, Board, Card, CardStatus, EntityId, KanbanModel, Sprint, SprintStatus,
};
use super::modes::{AppMode, BoardFocus, CardFocus, DialogMode, Key};
use super::render_plan::board_in_context;
use super::card_handlers::current_sort_row;
use super::model::{popup_index_of_sort_field, toggled_order};
use super::state::{
    untouched, AnimationKind, App, DialogInputState, FilterState, FocusState, RelationshipState, SelectionState, SprintTaskPanel,
    SprintViewState, Touched,
};
use vstd::prelude::*;

verus! {

/// A live card of `sprint` that is still to do.
pub open spec fn unfinished_in(archived: Seq<ArchivedCard>, c: Card, sprint: EntityId) -> bool {
    c.sprint_id == Some(sprint) && c.status != CardStatus::Done && !is_archived_card(archived, c.id)
}

/// A live card of `sprint` that is done.
pub open spec fn finished_in(archived: Seq<ArchivedCard>, c: Card, sprint: EntityId) -> bool {
    c.sprint_id == Some(sprint) && c.status == CardStatus::Done && !is_archived_card(archived, c.id)
}

/// Ids of the cards of `cards` that `done` selects: the finished (or, when
/// `done` is false, unfinished) live cards of `sprint`, in model order.
pub open spec fn sprint_card_ids(cards: Seq<Card>, archived: Seq<ArchivedCard>, sprint: EntityId, done: bool) -> Seq<EntityId>
    decreases cards.len(),
{
    if cards.len() == 0 {
        seq![]
    } else {
        let rest = sprint_card_ids(cards.drop_last(), archived, sprint, done);
        let c = cards.last();
        if (done && finished_in(archived, c, sprint)) || (!done && unfinished_in(archived, c, sprint)) {
            rest.push(c.id)
        } else {
            rest
        }
    }
}

/// Ids of the planning sprints of `board`, in model order.
pub open spec fn planning_sprint_ids(sprints: Seq<Sprint>, board: EntityId) -> Seq<EntityId>
    decreases sprints.len(),
{
    if sprints.len() == 0 {
        seq![]
    } else {
        let rest = planning_sprint_ids(sprints.drop_last(), board);
        let s = sprints.last();
        if s.board_id == board && s.status == SprintStatus::Planning {
            rest.push(s.id)
        } else {
            rest
        }
    }
}

/// Index of the first sprint of `id`.
pub open spec fn sprint_index(sprints: Seq<Sprint>, id: EntityId) -> Option<int>
    decreases sprints.len(),
{
    if sprints.len() == 0 {
        None
    } else {
        match sprint_index(sprints.drop_last(), id) {
            Some(i) => Some(i),
            None => if sprints.last().id == id {
                Some(sprints.len() - 1)
            } else {
                None
            },
        }
    }
}

proof fn lemma_sprint_index(sprints: Seq<Sprint>, id: EntityId)
    ensures
        match sprint_index(sprints, id) {
            Some(i) => 0 <= i < sprints.len() && sprints[i].id == id && forall|j: int|
                0 <= j < i ==> (#[trigger] sprints[j]).id != id,
            None => forall|j: int| 0 <= j < sprints.len() ==> (#[trigger] sprints[j]).id != id,
        },
    decreases sprints.len(),
{
    if sprints.len() > 0 {
        lemma_sprint_index(sprints.drop_last(), id);
        assert forall|j: int| 0 <= j < sprints.len() - 1 implies sprints[j] == sprints.drop_last()[j] by {}
    }
}

/// `cards` after carrying the unfinished live cards of `from` over to `to`.
pub open spec fn carried_over(cards: Seq<Card>, archived: Seq<ArchivedCard>, from: EntityId, to: EntityId) -> Seq<Card> {
    Seq::new(
        cards.len(),
        |i: int|
            if unfinished_in(archived, cards[i], from) {
                Card { sprint_id: Some(to), ..cards[i] }
            } else {
                cards[i]
            },
    )
}

/// Number of unfinished live cards of `sprint`.
pub open spec fn unfinished_count(cards: Seq<Card>, archived: Seq<ArchivedCard>, sprint: EntityId) -> nat {
    count_where(cards, |c: Card| unfinished_in(archived, c, sprint))
}

/// `after` is task list `before` rebuilt to show `cards`, its selection kept
/// in range and scrolled back to the top.
pub open spec fn refilled(before: CardList, after: CardList, cards: Seq<EntityId>) -> bool {
    &&& after.id == before.id
    &&& after.cards@ == cards
    &&& after.selected == clamp_selection(before.selected, cards.len() as usize)
    &&& after.scroll_offset == 0
}

impl KanbanModel {
    /// Index of the first sprint of `id`.
    pub fn sprint_by_id(&self, id: EntityId) -> (r: Option<usize>)
        ensures
            match r {
                Some(i) => sprint_index(self.sprints@, id) == Some(i as int) && i < self.sprints@.len(),
                None => sprint_index(self.sprints@, id).is_none(),
            },
    {
        let mut i: usize = 0;
        while i < self.sprints.len()
            invariant
                i <= self.sprints@.len(),
                sprint_index(self.sprints@.take(i as int), id).is_none(),
            decreases self.sprints@.len() - i,
        {
            assert(self.sprints@.take(i + 1).drop_last() =~= self.sprints@.take(i as int));
            if self.sprints[i].id == id {
                proof {
                    lemma_sprint_prefix(self.sprints@, id, i as int);
                }
                return Some(i);
            }
            i = i + 1;
        }
        assert(self.sprints@.take(self.sprints@.len() as int) =~= self.sprints@);
        None
    }

    /// Ids of the planning sprints of `board`, in model order.
    pub fn planning_sprints_of(&self, board: EntityId) -> (r: Vec<EntityId>)
        ensures
            r@ == planning_sprint_ids(self.sprints@, board),
    {
        let mut r: Vec<EntityId> = Vec::new();
        let mut i: usize = 0;
        while i < self.sprints.len()
            invariant
                i <= self.sprints@.len(),
                r@ == planning_sprint_ids(self.sprints@.take(i as int), board),
            decreases self.sprints@.len() - i,
        {
            assert(self.sprints@.take(i + 1).drop_last() =~= self.sprints@.take(i as int));
            if self.sprints[i].board_id == board && self.sprints[i].status == SprintStatus::Planning {
                r.push(self.sprints[i].id);
            }
            i = i + 1;
        }
        assert(self.sprints@.take(self.sprints@.len() as int) =~= self.sprints@);
        r
    }

    /// Ids of the finished (when `done`) or unfinished live cards of `sprint`.
    pub fn sprint_cards(&self, sprint: EntityId, done: bool) -> (r: Vec<EntityId>)
        ensures
            r@ == sprint_card_ids(self.cards@, self.archived_cards@, sprint, done),
    {
        let mut r: Vec<EntityId> = Vec::new();
        let mut i: usize = 0;
        while i < self.cards.len()
            invariant
                i <= self.cards@.len(),
                r@ == sprint_card_ids(self.cards@.take(i as int), self.archived_cards@, sprint, done),
            decreases self.cards@.len() - i,
        {
            assert(self.cards@.take(i + 1).drop_last() =~= self.cards@.take(i as int));
            let c = &self.cards[i];
            if c.sprint_id == Some(sprint) && !self.is_card_archived(c.id) {
                let is_done = c.status == CardStatus::Done;
                if is_done == done {
                    r.push(c.id);
                }
            }
            i = i + 1;
        }
        assert(self.cards@.take(self.cards@.len() as int) =~= self.cards@);
        r
    }

    /// Moves the unfinished live cards of sprint `from` to sprint `to`;
    /// returns how many moved.
    pub fn carry_over_sprint_cards(&mut self, from: EntityId, to: EntityId) -> (moved: usize)
        ensures
            final(self).cards@ == carried_over(old(self).cards@, old(self).archived_cards@, from, to),
            moved == unfinished_count(old(self).cards@, old(self).archived_cards@, from),
            final(self).boards == old(self).boards,
            final(self).columns == old(self).columns,
            final(self).archived_cards == old(self).archived_cards,
            final(self).sprints == old(self).sprints,
            final(self).edges == old(self).edges,
    {
        let ghost start = self.cards@;
        let ghost p = |c: Card| unfinished_in(old(self).archived_cards@, c, from);
        let mut moved: usize = 0;
        let mut i: usize = 0;
        while i < self.cards.len()
            invariant
                i <= self.cards@.len(),
                self.cards@.len() == start.len(),
                start == old(self).cards@,
                self.boards == old(self).boards,
                self.columns == old(self).columns,
                self.archived_cards == old(self).archived_cards,
                self.sprints == old(self).sprints,
                self.edges == old(self).edges,
                p == (|c: Card| unfinished_in(old(self).archived_cards@, c, from)),
                moved == count_where(start.take(i as int), p),
                moved <= i,
                forall|k: int| 0 <= k < i ==> self.cards@[k] == carried_over(start, self.archived_cards@, from, to)[k],
                forall|k: int| i <= k < start.len() ==> self.cards@[k] == start[k],
            decreases self.cards@.len() - i,
        {
            assert(start.take(i + 1).drop_last() =~= start.take(i as int));
            let c = &self.cards[i];
            if c.sprint_id == Some(from) && c.status != CardStatus::Done && !self.is_card_archived(c.id) {
                let card = &mut self.cards[i];
                card.sprint_id = Some(to);
                moved = moved + 1;
            }
            i = i + 1;
        }
        proof {
            assert(start.take(start.len() as int) =~= start);
            assert(self.cards@ =~= carried_over(start, self.archived_cards@, from, to));
        }
        moved
    }
}

/// `cards` with the completion of every card of `ids` toggled.
pub open spec fn with_ids_toggled(cards: Seq<Card>, ids: Seq<EntityId>) -> Seq<Card> {
    Seq::new(
        cards.len(),
        |i: int|
            if ids.contains(cards[i].id) {
                Card { status: toggled(cards[i].status), ..cards[i] }
            } else {
                cards[i]
            },
    )
}

impl KanbanModel {
    /// Toggles the completion of every card of `ids`.
    pub fn toggle_cards_status(&mut self, ids: &Vec<EntityId>)
        ensures
            final(self).cards@ == with_ids_toggled(old(self).cards@, ids@),
            final(self).boards == old(self).boards,
            final(self).columns == old(self).columns,
            final(self).archived_cards == old(self).archived_cards,
            final(self).sprints == old(self).sprints,
            final(self).edges == old(self).edges,
    {
        let ghost start = self.cards@;
        let mut i: usize = 0;
        while i < self.cards.len()
            invariant
                i <= self.cards@.len(),
                self.cards@.len() == start.len(),
                start == old(self).cards@,
                self.boards == old(self).boards,
                self.columns == old(self).columns,
                self.archived_cards == old(self).archived_cards,
                self.sprints == old(self).sprints,
                self.edges == old(self).edges,
                forall|k: int| 0 <= k < i ==> self.cards@[k] == with_ids_toggled(start, ids@)[k],
                forall|k: int| i <= k < start.len() ==> self.cards@[k] == start[k],
            decreases self.cards@.len() - i,
        {
            if super::model::contains_id(ids, self.cards[i].id) {
                let new_status = match self.cards[i].status {
                    CardStatus::Done => CardStatus::Todo,
                    CardStatus::Todo => CardStatus::Done,
                };
                let c = &mut self.cards[i];
                c.status = new_status;
            }
            i = i + 1;
        }
        proof {
            assert(self.cards@ =~= with_ids_toggled(start, ids@));
        }
    }
}

/// Rebuilds task list `l` to show `cards`, keeping its selection in range
/// and scrolling back to the top.
fn refill(l: &mut CardList, cards: Vec<EntityId>)
    ensures
        refilled(*old(l), *final(l), cards@),
{
    let n = cards.len();
    l.cards = cards;
    l.selected = match l.selected {
        Some(i) => if i < n {
            Some(i)
        } else if n > 0 {
            Some(n - 1)
        } else {
            None
        },
        None => None,
    };
    l.scroll_offset = 0;
}

/// Index of the sprint of the sprint detail view, when it names a sprint.
pub open spec fn viewed_sprint(app: App) -> Option<int> {
    match app.selection.active_sprint_index {
        Some(si) => if si < app.model.sprints@.len() {
            Some(si as int)
        } else {
            None
        },
        None => None,
    }
}

/// The viewed sprint can be activated: it is planned and a board is in
/// context.
pub open spec fn can_activate(app: App) -> bool {
    &&& viewed_sprint(app) matches Some(si)
    &&& app.model.sprints@[si].status == SprintStatus::Planning
    &&& board_in_context(app).is_some()
}

/// The viewed sprint can be completed: it is planned or active and a board
/// is in context.
pub open spec fn can_complete(app: App) -> bool {
    &&& viewed_sprint(app) matches Some(si)
    &&& (app.model.sprints@[si].status == SprintStatus::Planning || app.model.sprints@[si].status
        == SprintStatus::Active)
    &&& board_in_context(app).is_some()
}

/// `sprints` with sprint `si` in state `status`.
pub open spec fn with_sprint_status(sprints: Seq<Sprint>, si: int, status: SprintStatus) -> Seq<Sprint> {
    sprints.update(si, Sprint { status, ..sprints[si] })
}

/// `boards` with the active sprint of board `bi` set to `sprint`.
pub open spec fn with_active_sprint(boards: Seq<Board>, bi: int, sprint: Option<EntityId>) -> Seq<Board> {
    boards.update(bi, Board { active_sprint_id: sprint, ..boards[bi] })
}

/// The model of `after` is that of `before` with the viewed sprint in
/// `status` and the active sprint of the board in context set to `active`.
pub open spec fn sprint_and_board_set(before: App, after: App, status: SprintStatus, active: Option<EntityId>) -> bool {
    let si = viewed_sprint(before).unwrap();
    let bi = board_in_context(before).unwrap();
    &&& after.model.sprints@ == with_sprint_status(before.model.sprints@, si, status)
    &&& after.model.boards@ == with_active_sprint(before.model.boards@, bi, active)
    &&& after.model.columns == before.model.columns
    &&& after.model.cards == before.model.cards
    &&& after.model.archived_cards == before.model.archived_cards
    &&& after.model.edges == before.model.edges
}

/// Mode and stack after leaving the current mode.
pub open spec fn popped_state(before: App) -> (AppMode, Seq<AppMode>) {
    if before.mode_stack@.len() > 0 {
        (before.mode_stack@.last(), before.mode_stack@.drop_last())
    } else {
        (AppMode::Normal, before.mode_stack@)
    }
}

/// Completing the viewed sprint offers a carry-over: the board in context
/// still has a planning sprint and the completed one has unfinished cards.
pub open spec fn offers_carry_over(before: App, after: App) -> bool {
    let si = viewed_sprint(before).unwrap();
    let board = before.model.boards@[board_in_context(before).unwrap()].id;
    &&& planning_sprint_ids(after.model.sprints@, board).len() > 0
    &&& unfinished_count(before.model.cards@, before.model.archived_cards@, before.model.sprints@[si].id) > 0
}

/// What `c` does to the viewed sprint when no cards are picked (see
/// `handle_complete_sprint_key`).
pub open spec fn complete_effect(before: App, after: App) -> bool {
    if can_complete(before) {
        let id = before.model.sprints@[viewed_sprint(before).unwrap()].id;
        let (m, stack) = popped_state(before);
        &&& before.unchanged_except(
            &after,
            (Touched {
                model: true,
                filter: true,
                mode: true,
                focus: true,
                selection: true,
                dialog_input: true,
                ..untouched()
            }),
        )
        &&& sprint_and_board_set(before, after, SprintStatus::Completed, None)
        &&& after.filter == (FilterState {
            active_sprint_filters: after.filter.active_sprint_filters,
            ..before.filter
        })
        &&& after.filter.active_sprint_filters@ == before.filter.active_sprint_filters@.filter(
            |x: EntityId| x != id,
        )
        &&& after.focus == (FocusState { board_focus: BoardFocus::Sprints, ..before.focus })
        &&& after.selection == (SelectionState { active_sprint_index: None, ..before.selection })
        &&& if offers_carry_over(before, after) {
            &&& after.mode == AppMode::Dialog(DialogMode::CarryOverSprint)
            &&& after.mode_stack@ == stack.push(m)
            &&& after.dialog_input == (DialogInputState {
                carry_over_source_sprint_id: Some(id),
                carry_over_sprint_selection: ListSelection { selected: Some(0) },
                ..before.dialog_input
            })
        } else {
            &&& after.mode == m
            &&& after.mode_stack@ == stack
            &&& after.dialog_input == before.dialog_input
        }
    } else {
        before.unchanged_except(&after, untouched())
    }
}

/// What `a` does in the sprint detail view (see `handle_activate_sprint_key`).
pub open spec fn activate_effect(before: App, after: App) -> bool {
    if can_activate(before) {
        &&& before.unchanged_except(&after, (Touched { model: true, ..untouched() }))
        &&& sprint_and_board_set(
            before,
            after,
            SprintStatus::Active,
            Some(before.model.sprints@[viewed_sprint(before).unwrap()].id),
        )
    } else {
        before.unchanged_except(&after, untouched())
    }
}

/// What Enter does in the create-sprint dialog (see `create_sprint`).
pub open spec fn sprint_created(before: App, after: App) -> bool {
    match board_in_context(before) {
        None => before.unchanged_except(&after, untouched()),
        Some(bi) => {
            let board = before.model.boards@[bi].id;
            let name = trimmed(before.input@);
            let n = sprint_count_of(before.model.sprints@, board);
            let sprints = after.model.sprints@;
            let s = sprints.last();
            &&& before.unchanged_except(&after, (Touched { model: true, selection: true, ..untouched() }))
            &&& after.model == (KanbanModel { sprints: after.model.sprints, ..before.model })
            &&& sprints.len() == before.model.sprints@.len() + 1
            &&& sprints.drop_last() =~= before.model.sprints@
            &&& s.board_id == board
            &&& s.status == SprintStatus::Planning
            &&& s.prefix.is_none()
            &&& s.card_prefix.is_none()
            &&& if name.len() == 0 {
                s.name.is_none()
            } else {
                s.name matches Some(t) && t@ == name
            }
            &&& after.selection == (SelectionState {
                sprint: ListSelection { selected: Some(n as usize) },
                ..before.selection
            })
        },
    }
}

/// Work a key of the sprint detail view leaves to the caller.
#[derive(Debug, Clone, Copy, PartialEq, Eq, Structural)]
pub enum SprintDetailAction {
    Nothing,
    /// Copy the active card's branch name to the clipboard.
    CopyBranchName,
    /// Copy the `git checkout` command of the active card's branch.
    CopyCheckoutCommand,
    /// Reset the sprint picker for the active card before the
    /// assign-to-sprint dialog shows.
    PrepareSprintPicker,
}

/// Cards picked in the active panel (picking is offered in the unfinished
/// panel only).
pub open spec fn picked_cards(app: App) -> Seq<EntityId> {
    match app.sprint_view.panel {
        SprintTaskPanel::Uncompleted => app.sprint_view.multi_selected@,
        SprintTaskPanel::Completed => seq![],
    }
}

/// The card under the cursor of the active sprint panel.
pub open spec fn sprint_cursor_card(app: App) -> Option<EntityId> {
    match app.sprint_view.panel {
        SprintTaskPanel::Uncompleted => app.sprint_view.uncompleted.selected_card(),
        SprintTaskPanel::Completed => app.sprint_view.completed.selected_card(),
    }
}

/// The card under the cursor, when it is a card of the model.
pub open spec fn sprint_cursor_known_card(app: App) -> Option<EntityId> {
    match sprint_cursor_card(app) {
        Some(card) => if card_index(app.model.cards@, card).is_some() {
            Some(card)
        } else {
            None
        },
        None => None,
    }
}

/// `after` is `before` with `card` the active card and nothing else changed.
pub open spec fn card_activated(before: App, after: App, card: EntityId) -> bool {
    &&& before.unchanged_except(&after, (Touched { selection: true, ..untouched() }))
    &&& after.selection == (SelectionState { active_card_id: Some(card), ..before.selection })
}

/// The picked cards forgotten, the rest of the sprint view kept.
pub open spec fn picks_cleared(before: App, after: App) -> bool {
    &&& after.sprint_view.panel == before.sprint_view.panel
    &&& after.sprint_view.uncompleted == before.sprint_view.uncompleted
    &&& after.sprint_view.completed == before.sprint_view.completed
    &&& after.sprint_view.multi_selected@.len() == 0
}

/// What `M` does in the sprint detail view (see
/// `carry_over_active_sprint_if_eligible`).
pub open spec fn carry_over_if_eligible_effect(before: App, after: App) -> bool {
    match viewed_sprint(before) {
        Some(si) => {
            let s = before.model.sprints@[si];
            if s.status == SprintStatus::Completed || s.status == SprintStatus::Cancelled {
                carry_over_offered(before, after, s.id)
            } else {
                before.unchanged_except(&after, untouched())
            }
        },
        None => before.unchanged_except(&after, untouched()),
    }
}

/// The sprint panel shown after `h` (to the unfinished panel) or `l` (to
/// the finished one): switching is offered for completed sprints only.
pub open spec fn panel_switched(before: App, after: App, to: SprintTaskPanel) -> bool {
    match viewed_sprint(before) {
        Some(si) => if before.model.sprints@[si].status == SprintStatus::Completed {
            &&& before.unchanged_except(&after, (Touched { sprint_view: true, ..untouched() }))
            &&& after.sprint_view == (SprintViewState { panel: to, ..before.sprint_view })
        } else {
            before.unchanged_except(&after, untouched())
        },
        None => before.unchanged_except(&after, untouched()),
    }
}

/// `p` (the sprint's prefix, when `card` is false) or `C` (its card
/// prefix): the prefix dialog opens on the current value.
pub open spec fn prefix_dialog_opened(before: App, after: App, card: bool) -> bool {
    match viewed_sprint(before) {
        Some(si) => {
            let s = before.model.sprints@[si];
            let current = if card {
                s.card_prefix
            } else {
                s.prefix
            };
            input_dialog_over(
                before,
                after,
                if card {
                    DialogMode::SetSprintCardPrefix
                } else {
                    DialogMode::SetSprintPrefix
                },
                match current {
                    Some(p) => p@,
                    None => seq![],
                },
            )
        },
        None => before.unchanged_except(&after, untouched()),
    }
}

/// What a key does in the sprint detail view, and the work it leaves to the
/// caller.
pub open spec fn sprint_detail_key_handled(before: App, after: App, key: Key, r: SprintDetailAction) -> bool {
    let same = before.unchanged_except(&after, untouched());
    match key {
        Key::Esc => {
            &&& r == SprintDetailAction::Nothing
            &&& before.unchanged_except(&after, (Touched { mode: true, focus: true, selection: true, ..untouched() }))
            &&& popped(before, after)
            &&& after.focus == (FocusState { board_focus: BoardFocus::Sprints, ..before.focus })
            &&& after.selection == (SelectionState { active_sprint_index: None, ..before.selection })
        },
        Key::Char('a') => r == SprintDetailAction::Nothing && activate_effect(before, after),
        Key::Char('c') => {
            &&& r == SprintDetailAction::Nothing
            &&& if picked_cards(before).len() > 0 {
                &&& before.unchanged_except(&after, (Touched { model: true, sprint_view: true, ..untouched() }))
                &&& after.model.cards@ == with_ids_toggled(before.model.cards@, picked_cards(before))
                &&& after.model == (KanbanModel { cards: after.model.cards, ..before.model })
                &&& picks_cleared(before, after)
            } else {
                complete_effect(before, after)
            }
        },
        Key::Char('d') => {
            &&& r == SprintDetailAction::Nothing
            &&& if picked_cards(before).len() > 0 {
                &&& before.unchanged_except(&after, (Touched { animation: true, sprint_view: true, ..untouched() }))
                &&& after.animation.archive_anchor == before.animation.archive_anchor
                &&& after.animation.animating@ == with_animations(
                    before.animation.animating@,
                    before.model,
                    picked_cards(before),
                    AnimationKind::Archiving,
                )
                &&& picks_cleared(before, after)
            } else {
                same
            }
        },
        Key::Char('s') => match sprint_cursor_known_card(before) {
            Some(card) => if board_has_sprints(before) {
                &&& r == SprintDetailAction::PrepareSprintPicker
                &&& before.unchanged_except(&after, (Touched { selection: true, mode: true, ..untouched() }))
                &&& after.selection == (SelectionState { active_card_id: Some(card), ..before.selection })
                &&& after.mode == AppMode::Dialog(DialogMode::AssignCardToSprint)
                &&& after.mode_stack@ == before.mode_stack@.push(before.mode)
            } else {
                r == SprintDetailAction::Nothing && card_activated(before, after, card)
            },
            None => r == SprintDetailAction::Nothing && same,
        },
        Key::Char('y') => match sprint_cursor_known_card(before) {
            Some(card) => r == SprintDetailAction::CopyBranchName && card_activated(before, after, card),
            None => r == SprintDetailAction::Nothing && same,
        },
        Key::Char('Y') => match sprint_cursor_known_card(before) {
            Some(card) => r == SprintDetailAction::CopyCheckoutCommand && card_activated(before, after, card),
            None => r == SprintDetailAction::Nothing && same,
        },
        Key::Char('p') => r == SprintDetailAction::Nothing && prefix_dialog_opened(before, after, false),
        Key::Char('C') => r == SprintDetailAction::Nothing && prefix_dialog_opened(before, after, true),
        Key::Char('o') => r == SprintDetailAction::Nothing && {
            &&& before.unchanged_except(&after, (Touched { filter: true, mode: true, ..untouched() }))
            &&& after.filter == (FilterState {
                sort_field_selection: ListSelection { selected: Some(current_sort_row(before.filter)) },
                ..before.filter
            })
            &&& after.mode == AppMode::Dialog(DialogMode::OrderCards)
            &&& after.mode_stack@ == before.mode_stack@.push(before.mode)
        },
        Key::Char('O') => r == SprintDetailAction::Nothing && match before.filter.current_sort_order {
            Some(o) => before.unchanged_except(&after, (Touched { filter: true, ..untouched() })) && after.filter == (
            FilterState { current_sort_order: Some(toggled_order(o)), ..before.filter }),
            None => same,
        },
        Key::Char('M') => r == SprintDetailAction::Nothing && carry_over_if_eligible_effect(before, after),
        Key::Char('h') | Key::Left => r == SprintDetailAction::Nothing && panel_switched(
            before,
            after,
            SprintTaskPanel::Uncompleted,
        ),
        Key::Char('l') | Key::Right => r == SprintDetailAction::Nothing && panel_switched(
            before,
            after,
            SprintTaskPanel::Completed,
        ),
        _ => sprint_list_key_handled(before, after, key, r),
    }
}


/// The list of the active sprint panel.
pub open spec fn sprint_panel_list(app: App) -> CardList {
    match app.sprint_view.panel {
        SprintTaskPanel::Uncompleted => app.sprint_view.uncompleted,
        SprintTaskPanel::Completed => app.sprint_view.completed,
    }
}

/// `after` is `before` with the list of the active sprint panel now `list`.
pub open spec fn sprint_panel_list_set(before: App, after: App, list: CardList) -> bool {
    &&& before.unchanged_except(&after, (Touched { sprint_view: true, ..untouched() }))
    &&& after.sprint_view == match before.sprint_view.panel {
        SprintTaskPanel::Uncompleted => SprintViewState { uncompleted: list, ..before.sprint_view },
        SprintTaskPanel::Completed => SprintViewState { completed: list, ..before.sprint_view },
    }
}

/// The active panel's list with the selection moved to row `row` when
/// there is one, scrolled to keep the selection in a viewport of
/// `height` rows.
pub open spec fn list_stepped(l: CardList, row: Option<usize>, height: usize) -> CardList {
    let sel = match row {
        Some(i) => Some(i),
        None => l.selected,
    };
    CardList { selected: sel, scroll_offset: visible_offset(sel, l.scroll_offset, height), ..l }
}

/// `card` becomes the active card and opens in the card detail view, its
/// title focused and its relationship panels sized to its parents and
/// children.
pub open spec fn sprint_card_opened(before: App, after: App, card: EntityId) -> bool {
    let edges = before.model.edges@;
    &&& before.unchanged_except(
        &after,
        (Touched { selection: true, relationship: true, mode: true, focus: true, ..untouched() }),
    )
    &&& after.selection == (SelectionState { active_card_id: Some(card), ..before.selection })
    &&& after.relationship == (RelationshipState {
        parents_list: recounted(before.relationship.parents_list, parents_of(edges, card).len() as usize),
        children_list: recounted(before.relationship.children_list, children_of(edges, card).len() as usize),
        ..before.relationship
    })
    &&& after.focus == (FocusState { card_focus: CardFocus::Title, ..before.focus })
    &&& after.mode == AppMode::CardDetail
    &&& after.mode_stack@ == before.mode_stack@.push(before.mode)
}

/// What a key for the task list of the active sprint panel does: `j`/`k`
/// (or the arrows) move the selection one row and keep it in view;
/// Enter, Space or `e` open the card under the cursor; `v` picks or
/// unpicks it (in the unfinished panel); `H`/`L` move it to the
/// neighbouring column of the board; `n` opens the new-card dialog with an
/// empty title. Other keys do nothing.
pub open spec fn sprint_list_key_handled(before: App, after: App, key: Key, r: SprintDetailAction) -> bool {
    let same = before.unchanged_except(&after, untouched());
    let l = sprint_panel_list(before);
    let h = before.view.viewport_height;
    r == SprintDetailAction::Nothing && match key {
        Key::Down | Key::Char('j') => sprint_panel_list_set(
            before,
            after,
            list_stepped(l, row_below(l.selected, l.cards@.len()), h),
        ),
        Key::Up | Key::Char('k') => sprint_panel_list_set(
            before,
            after,
            list_stepped(l, row_above(l.selected, l.cards@.len()), h),
        ),
        Key::Enter | Key::Char(' ') | Key::Char('e') => match sprint_cursor_known_card(before) {
            Some(card) => sprint_card_opened(before, after, card),
            None => same,
        },
        Key::Char('v') => match (before.sprint_view.panel, sprint_cursor_card(before)) {
            (SprintTaskPanel::Uncompleted, Some(card)) => {
                &&& before.unchanged_except(&after, (Touched { sprint_view: true, ..untouched() }))
                &&& after.sprint_view.panel == before.sprint_view.panel
                &&& after.sprint_view.uncompleted == before.sprint_view.uncompleted
                &&& after.sprint_view.completed == before.sprint_view.completed
                &&& after.sprint_view.multi_selected@ == with_id_toggled(before.sprint_view.multi_selected@, card)
            },
            _ => same,
        },
        Key::Char('H') | Key::Char('L') => match (sprint_cursor_known_card(before), before.active_board_index()) {
            (Some(c), Some(bi)) => match neighbour_column(
                before.model.columns@,
                before.model.boards@[bi].id,
                before.model.cards@[card_index(before.model.cards@, c).unwrap()].column_id,
                key == Key::Char('L'),
            ) {
                Some(t) => {
                    &&& before.unchanged_except(&after, (Touched { model: true, ..untouched() }))
                    &&& after.model == (KanbanModel { cards: after.model.cards, ..before.model })
                    &&& after.model.cards@ == with_column(before.model.cards@, c, t)
                },
                None => same,
            },
            _ => same,
        },
        Key::Char('n') => input_dialog_over(before, after, DialogMode::CreateCard, seq![]),
        _ => same,
    }
}

/// Planning sprints of the board of the carry-over dialog's source sprint.
pub open spec fn carry_over_targets_spec(app: App) -> Option<Seq<EntityId>> {
    match app.dialog_input.carry_over_source_sprint_id {
        Some(sid) => match sprint_index(app.model.sprints@, sid) {
            Some(i) => Some(planning_sprint_ids(app.model.sprints@, app.model.sprints@[i].board_id)),
            None => None,
        },
        None => None,
    }
}

/// Source and target of the carry-over the dialog would make.
pub open spec fn carry_over_choice(app: App) -> Option<(EntityId, EntityId)> {
    match (app.dialog_input.carry_over_sprint_selection.selected, carry_over_targets_spec(app)) {
        (Some(idx), Some(t)) => if idx < t.len() {
            Some((app.dialog_input.carry_over_source_sprint_id.unwrap(), t[idx as int]))
        } else {
            None
        },
        _ => None,
    }
}

/// The carry-over dialog closed and forgotten.
pub open spec fn carry_over_closed(before: App, after: App) -> bool {
    &&& before.unchanged_except(&after, (Touched { mode: true, dialog_input: true, ..untouched() }))
    &&& popped(before, after)
    &&& after.dialog_input == (DialogInputState {
        carry_over_source_sprint_id: None,
        carry_over_sprint_selection: ListSelection { selected: None },
        ..before.dialog_input
    })
}

/// What `handle_carry_over_for_sprint(from)` does.
pub open spec fn carry_over_offered(before: App, after: App, from: EntityId) -> bool {
    match sprint_index(before.model.sprints@, from) {
        None => before.unchanged_except(&after, untouched()),
        Some(i) => if planning_sprint_ids(before.model.sprints@, before.model.sprints@[i].board_id).len() > 0 {
            &&& before.unchanged_except(&after, (Touched { mode: true, dialog_input: true, ..untouched() }))
            &&& after.mode == AppMode::Dialog(DialogMode::CarryOverSprint)
            &&& after.mode_stack@ == before.mode_stack@.push(before.mode)
            &&& after.dialog_input == (DialogInputState {
                carry_over_source_sprint_id: Some(from),
                carry_over_sprint_selection: ListSelection { selected: Some(0) },
                ..before.dialog_input
            })
        } else {
            &&& before.unchanged_except(&after, (Touched { error: true, ..untouched() }))
            &&& after.error_message matches Some(m) && m@ == "No Planning sprint available for carry-over"@
        },
    }
}

proof fn lemma_unfinished_count_positive(cards: Seq<Card>, archived: Seq<ArchivedCard>, sprint: EntityId)
    ensures
        (sprint_card_ids(cards, archived, sprint, false).len() > 0) == (unfinished_count(cards, archived, sprint) > 0),
        sprint_card_ids(cards, archived, sprint, false).len() == unfinished_count(cards, archived, sprint),
    decreases cards.len(),
{
    if cards.len() > 0 {
        lemma_unfinished_count_positive(cards.drop_last(), archived, sprint);
    }
}

impl App {
    /// Rebuilds the task lists of the sprint detail view for `sprint_id`:
    /// its unfinished and its finished live cards, in model order.
    pub fn populate_sprint_task_lists(&mut self, sprint_id: EntityId)
        requires
            old(self).well_formed(),
        ensures
            old(self).unchanged_except(final(self), (Touched { sprint_view: true, ..untouched() })),
            refilled(
                old(self).sprint_view.uncompleted,
                final(self).sprint_view.uncompleted,
                sprint_card_ids(old(self).model.cards@, old(self).model.archived_cards@, sprint_id, false),
            ),
            refilled(
                old(self).sprint_view.completed,
                final(self).sprint_view.completed,
                sprint_card_ids(old(self).model.cards@, old(self).model.archived_cards@, sprint_id, true),
            ),
            final(self).sprint_view.panel == old(self).sprint_view.panel,
            final(self).sprint_view.multi_selected == old(self).sprint_view.multi_selected,
            final(self).well_formed(),
    {
        let open = self.model.sprint_cards(sprint_id, false);
        let done = self.model.sprint_cards(sprint_id, true);
        refill(&mut self.sprint_view.uncompleted, open);
        refill(&mut self.sprint_view.completed, done);
    }

    /// The card under the cursor of the active sprint panel.
    pub fn sprint_detail_selected_card_id(&self) -> (r: Option<EntityId>)
        ensures
            r == match self.sprint_view.panel {
                SprintTaskPanel::Uncompleted => self.sprint_view.uncompleted.selected_card(),
                SprintTaskPanel::Completed => self.sprint_view.completed.selected_card(),
            },
    {
        match self.sprint_view.panel {
            SprintTaskPanel::Uncompleted => self.sprint_view.uncompleted.get_selected_card_id(),
            SprintTaskPanel::Completed => self.sprint_view.completed.get_selected_card_id(),
        }
    }

    /// Toggles the completion of every card of `ids`.
    pub fn toggle_completion_for_card_ids(&mut self, ids: Vec<EntityId>)
        requires
            old(self).well_formed(),
        ensures
            old(self).unchanged_except(final(self), (Touched { model: true, ..untouched() })),
            final(self).model.cards@ == with_ids_toggled(old(self).model.cards@, ids@),
            final(self).model == (KanbanModel { cards: final(self).model.cards, ..old(self).model }),
            final(self).well_formed(),
    {
        self.model.toggle_cards_status(&ids);
    }

    /// `a` in the sprint detail view: a planned sprint becomes active and the
    /// active sprint of the board in context.
    pub fn handle_activate_sprint_key(&mut self)
        requires
            old(self).well_formed(),
        ensures
            activate_effect(*old(self), *final(self)),
            final(self).well_formed(),
    {
        let Some(si) = self.selection.active_sprint_index else {
            return;
        };
        if si >= self.model.sprints.len() || self.model.sprints[si].status != SprintStatus::Planning {
            return;
        }
        let Some(bi) = self.board_in_context_index() else {
            return;
        };
        let sprint_id = self.model.sprints[si].id;
        {
            let s = &mut self.model.sprints[si];
            s.status = SprintStatus::Active;
        }
        {
            let b = &mut self.model.boards[bi];
            b.active_sprint_id = Some(sprint_id);
        }
    }

    /// `c` in the sprint detail view without picked cards: a planned or
    /// active sprint is completed, stops being the board's active sprint and
    /// leaves the sprint filters; the view closes back to the sprints
    /// section, and when the board still has a planning sprint and the
    /// completed one unfinished cards, the carry-over dialog opens on its
    /// first target.
    #[verifier::rlimit(40)]
    pub fn handle_complete_sprint_key(&mut self)
        requires
            old(self).well_formed(),
        ensures
            complete_effect(*old(self), *final(self)),
            final(self).well_formed(),
    {
        let Some(si) = self.selection.active_sprint_index else {
            return;
        };
        if si >= self.model.sprints.len() {
            return;
        }
        let status = self.model.sprints[si].status;
        if status != SprintStatus::Planning && status != SprintStatus::Active {
            return;
        }
        let Some(bi) = self.board_in_context_index() else {
            return;
        };
        let sprint_id = self.model.sprints[si].id;
        let board_id = self.model.boards[bi].id;
        let ghost before = *self;
        {
            let s = &mut self.model.sprints[si];
            s.status = SprintStatus::Completed;
        }
        {
            let b = &mut self.model.boards[bi];
            b.active_sprint_id = None;
        }
        super::card_handlers::remove_id(&mut self.filter.active_sprint_filters, sprint_id);
        self.pop_mode();
        self.focus.board_focus = BoardFocus::Sprints;
        self.selection.active_sprint_index = None;
        let planning = self.model.planning_sprints_of(board_id);
        let open = self.model.sprint_cards(sprint_id, false);
        proof {
            lemma_unfinished_count_positive(before.model.cards@, before.model.archived_cards@, sprint_id);
        }
        if planning.len() > 0 && open.len() > 0 {
            self.dialog_input.carry_over_source_sprint_id = Some(sprint_id);
            self.dialog_input.carry_over_sprint_selection.set(Some(0));
            self.open_dialog(DialogMode::CarryOverSprint);
        }
    }

    /// Opens the carry-over dialog for sprint `from` when its board has a
    /// planning sprint to carry over to; says so in the error banner
    /// otherwise. Nothing happens for an unknown sprint.
    pub fn handle_carry_over_for_sprint(&mut self, from: EntityId)
        requires
            old(self).well_formed(),
        ensures
            carry_over_offered(*old(self), *final(self), from),
            final(self).well_formed(),
    {
        let Some(i) = self.model.sprint_by_id(from) else {
            return;
        };
        let board_id = self.model.sprints[i].board_id;
        let planning = self.model.planning_sprints_of(board_id);
        if planning.len() > 0 {
            self.dialog_input.carry_over_source_sprint_id = Some(from);
            self.dialog_input.carry_over_sprint_selection.set(Some(0));
            self.open_dialog(DialogMode::CarryOverSprint);
        } else {
            self.set_error("No Planning sprint available for carry-over");
        }
    }

    /// `M` in the sprint detail view: offers the carry-over of a completed
    /// or cancelled sprint's unfinished cards.
    pub fn carry_over_active_sprint_if_eligible(&mut self)
        requires
            old(self).well_formed(),
        ensures
            final(self).well_formed(),
            carry_over_if_eligible_effect(*old(self), *final(self)),
    {
        if let Some(si) = self.selection.active_sprint_index {
            if si < self.model.sprints.len() {
                let status = self.model.sprints[si].status;
                if status == SprintStatus::Completed || status == SprintStatus::Cancelled {
                    let id = self.model.sprints[si].id;
                    self.handle_carry_over_for_sprint(id);
                }
            }
        }
    }

    /// Planning sprints of the board of the carry-over dialog's source
    /// sprint, when the source names a sprint.
    fn carry_over_targets(&self) -> (r: Option<Vec<EntityId>>)
        ensures
            r.is_some() == carry_over_targets_spec(*self).is_some(),
            r matches Some(v) ==> v@ == carry_over_targets_spec(*self).unwrap(),
    {
        let sid = match self.dialog_input.carry_over_source_sprint_id {
            Some(sid) => sid,
            None => return None,
        };
        let i = match self.model.sprint_by_id(sid) {
            Some(i) => i,
            None => return None,
        };
        let board_id = self.model.sprints[i].board_id;
        Some(self.model.planning_sprints_of(board_id))
    }

    /// A key in the carry-over dialog: `j`/`k` pick the target among the
    /// planning sprints of the source's board; Enter or space carries the
    /// source's unfinished live cards over to it and refreshes the sprint
    /// task lists; Enter, space and Esc close the dialog and forget it.
    pub fn handle_carry_over_sprint_popup(&mut self, key: Key)
        requires
            old(self).well_formed(),
        ensures
            final(self).well_formed(),
            match key {
                Key::Esc => carry_over_closed(*old(self), *final(self)),
                Key::Char('j') | Key::Down => match carry_over_targets_spec(*old(self)) {
                    Some(t) => {
                        &&& old(self).unchanged_except(final(self), (Touched { dialog_input: true, ..untouched() }))
                        &&& final(self).dialog_input == (DialogInputState {
                            carry_over_sprint_selection: ListSelection {
                                selected: next_row(old(self).dialog_input.carry_over_sprint_selection.selected, t.len() as usize),
                            },
                            ..old(self).dialog_input
                        })
                    },
                    None => old(self).unchanged_except(final(self), untouched()),
                },
                Key::Char('k') | Key::Up => {
                    &&& old(self).unchanged_except(final(self), (Touched { dialog_input: true, ..untouched() }))
                    &&& final(self).dialog_input == (DialogInputState {
                        carry_over_sprint_selection: ListSelection {
                            selected: prev_row(old(self).dialog_input.carry_over_sprint_selection.selected),
                        },
                        ..old(self).dialog_input
                    })
                },
                Key::Enter | Key::Char(' ') => match carry_over_choice(*old(self)) {
                    Some((from, to)) => {
                        let m = old(self).model;
                        &&& final(self).model.cards@ == carried_over(m.cards@, m.archived_cards@, from, to)
                        &&& final(self).model == (KanbanModel { cards: final(self).model.cards, ..m })
                        &&& refilled(
                            old(self).sprint_view.uncompleted,
                            final(self).sprint_view.uncompleted,
                            sprint_card_ids(final(self).model.cards@, m.archived_cards@, from, false),
                        )
                        &&& refilled(
                            old(self).sprint_view.completed,
                            final(self).sprint_view.completed,
                            sprint_card_ids(final(self).model.cards@, m.archived_cards@, from, true),
                        )
                        &&& final(self).sprint_view.panel == old(self).sprint_view.panel
                        &&& final(self).sprint_view.multi_selected == old(self).sprint_view.multi_selected
                        &&& carry_over_closed(
                            *old(self),
                            App { model: old(self).model, sprint_view: old(self).sprint_view, ..*final(self) },
                        )
                    },
                    None => carry_over_closed(*old(self), *final(self)),
                },
                _ => old(self).unchanged_except(final(self), untouched()),
            },
    {
        match key {
            Key::Esc => {
                self.close_carry_over();
            },
            Key::Char('j') | Key::Down => {
                if let Some(targets) = self.carry_over_targets() {
                    self.dialog_input.carry_over_sprint_selection.next(targets.len());
                }
            },
            Key::Char('k') | Key::Up => {
                self.dialog_input.carry_over_sprint_selection.prev();
            },
            Key::Enter | Key::Char(' ') => {
                if let Some(idx) = self.dialog_input.carry_over_sprint_selection.get() {
                    if let Some(targets) = self.carry_over_targets() {
                        if idx < targets.len() {
                            let from = self.dialog_input.carry_over_source_sprint_id.unwrap();
                            let to = targets[idx];
                            self.model.carry_over_sprint_cards(from, to);
                            self.populate_sprint_task_lists(from);
                        }
                    }
                }
                self.close_carry_over();
            },
            _ => {},
        }
    }

    fn close_carry_over(&mut self)
        requires
            old(self).well_formed(),
        ensures
            carry_over_closed(*old(self), *final(self)),
            final(self).well_formed(),
    {
        self.pop_mode();
        self.dialog_input.carry_over_sprint_selection.clear();
        self.dialog_input.carry_over_source_sprint_id = None;
    }

    /// Enter in the create-sprint dialog: a planning sprint of the board in
    /// context is added, named by the trimmed input (unnamed when it is
    /// empty), and selected in the sprints section.
    pub fn create_sprint(&mut self)
        requires
            old(self).well_formed(),
        ensures
            final(self).well_formed(),
            sprint_created(*old(self), *final(self)),
    {
        let Some(bi) = self.board_in_context_index() else {
            return;
        };
        let board_id = self.model.boards[bi].id;
        let text = trimmed_chars(&self.input);
        let name = if text.len() == 0 {
            None
        } else {
            Some(string_of(&text))
        };
        let prior = self.model.sprint_count_for_board(board_id);
        proof {
            super::model::lemma_count_where_bounded(self.model.sprints@, |s: Sprint| s.board_id == board_id);
        }
        let id = super::column_ops::new_entity_id();
        self.model.sprints.push(
            Sprint { id, board_id, status: SprintStatus::Planning, name, prefix: None, card_prefix: None },
        );
        self.selection.sprint.set(Some(prior));
    }

    /// A key in the create-sprint dialog: Enter creates the sprint, Enter and
    /// Esc close the dialog back to the sprints section with an empty input,
    /// other keys edit the name.
    pub fn handle_create_sprint_dialog(&mut self, key: Key)
        requires
            old(self).well_formed(),
        ensures
            final(self).well_formed(),
            match key {
                Key::Esc | Key::Enter => {
                    &&& popped(*old(self), *final(self))
                    &&& final(self).focus == (FocusState { board_focus: BoardFocus::Sprints, ..old(self).focus })
                    &&& final(self).input@.len() == 0
                    &&& key == Key::Enter ==> sprint_created(
                        *old(self),
                        App { mode: old(self).mode, mode_stack: old(self).mode_stack, focus: old(self).focus, input: old(self).input, ..*final(self) },
                    )
                    &&& key == Key::Esc ==> old(self).unchanged_except(
                        final(self),
                        (Touched { mode: true, focus: true, input: true, ..untouched() }),
                    )
                },
                _ => {
                    &&& old(self).unchanged_except(final(self), (Touched { input: true, ..untouched() }))
                    &&& final(self).input@ == edited(old(self).input@, key)
                },
            },
    {
        match key {
            Key::Esc => {
                self.pop_mode();
                self.focus.board_focus = BoardFocus::Sprints;
                self.input = String::new();
            },
            Key::Enter => {
                self.create_sprint();
                self.pop_mode();
                self.focus.board_focus = BoardFocus::Sprints;
                self.input = String::new();
            },
            _ => {
                super::dialogs::handle_dialog_input(&mut self.input, key);
            },
        }
    }

    /// The picked cards of the active panel.
    fn picked(&self) -> (r: Vec<EntityId>)
        ensures
            r@ == picked_cards(*self),
    {
        match self.sprint_view.panel {
            SprintTaskPanel::Uncompleted => self.sprint_view.multi_selected.clone(),
            SprintTaskPanel::Completed => Vec::new(),
        }
    }

    /// The card under the cursor of the active panel, when it is a card of
    /// the model.
    fn sprint_cursor_card_exec(&self) -> (r: Option<EntityId>)
        ensures
            r == sprint_cursor_known_card(*self),
    {
        match self.sprint_detail_selected_card_id() {
            Some(card) => if self.model.card_by_id(card).is_some() {
                Some(card)
            } else {
                None
            },
            None => None,
        }
    }

    fn open_sprint_prefix_dialog(&mut self, card: bool)
        requires
            old(self).well_formed(),
        ensures
            prefix_dialog_opened(*old(self), *final(self), card),
            final(self).well_formed(),
    {
        if let Some(si) = self.selection.active_sprint_index {
            if si < self.model.sprints.len() {
                let current = if card {
                    match &self.model.sprints[si].card_prefix {
                        Some(p) => p.clone(),
                        None => String::new(),
                    }
                } else {
                    match &self.model.sprints[si].prefix {
                        Some(p) => p.clone(),
                        None => String::new(),
                    }
                };
                self.input = current;
                self.open_dialog(
                    if card {
                        DialogMode::SetSprintCardPrefix
                    } else {
                        DialogMode::SetSprintPrefix
                    },
                );
            }
        }
    }

    fn switch_sprint_panel(&mut self, to: SprintTaskPanel)
        requires
            old(self).well_formed(),
        ensures
            panel_switched(*old(self), *final(self), to),
            final(self).well_formed(),
    {
        if let Some(si) = self.selection.active_sprint_index {
            if si < self.model.sprints.len() && self.model.sprints[si].status == SprintStatus::Completed {
                self.sprint_view.panel = to;
            }
        }
    }

    fn open_assign_sprint_dialog_for(&mut self, card: EntityId) -> (r: SprintDetailAction)
        requires
            old(self).well_formed(),
            card_index(old(self).model.cards@, card).is_some(),
        ensures
            final(self).well_formed(),
            if board_has_sprints(*old(self)) {
                &&& r == SprintDetailAction::PrepareSprintPicker
                &&& old(self).unchanged_except(final(self), (Touched { selection: true, mode: true, ..untouched() }))
                &&& final(self).selection == (SelectionState { active_card_id: Some(card), ..old(self).selection })
                &&& final(self).mode == AppMode::Dialog(DialogMode::AssignCardToSprint)
                &&& final(self).mode_stack@ == old(self).mode_stack@.push(old(self).mode)
            } else {
                r == SprintDetailAction::Nothing && card_activated(*old(self), *final(self), card)
            },
    {
        self.activate_card(card);
        if let Some(bi) = self.active_board() {
            let board_id = self.model.boards[bi].id;
            if self.model.sprint_count_for_board(board_id) > 0 {
                self.open_dialog(DialogMode::AssignCardToSprint);
                return SprintDetailAction::PrepareSprintPicker;
            }
        }
        SprintDetailAction::Nothing
    }

    fn complete_picked_or_sprint(&mut self)
        requires
            old(self).well_formed(),
        ensures
            final(self).well_formed(),
            if picked_cards(*old(self)).len() > 0 {
                &&& old(self).unchanged_except(final(self), (Touched { model: true, sprint_view: true, ..untouched() }))
                &&& final(self).model.cards@ == with_ids_toggled(old(self).model.cards@, picked_cards(*old(self)))
                &&& final(self).model == (KanbanModel { cards: final(self).model.cards, ..old(self).model })
                &&& picks_cleared(*old(self), *final(self))
            } else {
                complete_effect(*old(self), *final(self))
            },
    {
        let picked = self.picked();
        if picked.len() > 0 {
            self.toggle_completion_for_card_ids(picked);
            self.sprint_view.multi_selected = Vec::new();
        } else {
            self.handle_complete_sprint_key();
        }
    }

    fn delete_picked(&mut self)
        requires
            old(self).well_formed(),
        ensures
            final(self).well_formed(),
            if picked_cards(*old(self)).len() > 0 {
                &&& old(self).unchanged_except(final(self), (Touched { animation: true, sprint_view: true, ..untouched() }))
                &&& final(self).animation.archive_anchor == old(self).animation.archive_anchor
                &&& final(self).animation.animating@ == with_animations(
                    old(self).animation.animating@,
                    old(self).model,
                    picked_cards(*old(self)),
                    AnimationKind::Archiving,
                )
                &&& picks_cleared(*old(self), *final(self))
            } else {
                old(self).unchanged_except(final(self), untouched())
            },
    {
        let picked = self.picked();
        if picked.len() > 0 {
            self.start_delete_animations_for_card_ids(picked);
            self.sprint_view.multi_selected = Vec::new();
        }
    }

    /// A key for the task list of the active sprint panel (see
    /// `sprint_list_key_handled`).
    #[verifier::rlimit(40)]
    pub fn handle_sprint_list_key(&mut self, key: Key) -> (r: SprintDetailAction)
        requires
            old(self).well_formed(),
        ensures
            final(self).well_formed(),
            sprint_list_key_handled(*old(self), *final(self), key, r),
    {
        let h = self.view.viewport_height;
        match key {
            Key::Down | Key::Char('j') => {
                match self.sprint_view.panel {
                    SprintTaskPanel::Uncompleted => {
                        self.sprint_view.uncompleted.navigate_down();
                        self.sprint_view.uncompleted.ensure_selected_visible(h);
                    },
                    SprintTaskPanel::Completed => {
                        self.sprint_view.completed.navigate_down();
                        self.sprint_view.completed.ensure_selected_visible(h);
                    },
                }
            },
            Key::Up | Key::Char('k') => {
                match self.sprint_view.panel {
                    SprintTaskPanel::Uncompleted => {
                        self.sprint_view.uncompleted.navigate_up();
                        self.sprint_view.uncompleted.ensure_selected_visible(h);
                    },
                    SprintTaskPanel::Completed => {
                        self.sprint_view.completed.navigate_up();
                        self.sprint_view.completed.ensure_selected_visible(h);
                    },
                }
            },
            Key::Enter | Key::Char(' ') | Key::Char('e') => {
                if let Some(card) = self.sprint_cursor_card_exec() {
                    self.activate_card(card);
                    self.refresh_relationship_counts();
                    self.push_mode(AppMode::CardDetail);
                    self.focus.card_focus = CardFocus::Title;
                }
            },
            Key::Char('v') => {
                if self.sprint_view.panel == SprintTaskPanel::Uncompleted {
                    if let Some(card) = self.sprint_detail_selected_card_id() {
                        super::filter_ops::toggle_id(&mut self.sprint_view.multi_selected, card);
                    }
                }
            },
            Key::Char('H') | Key::Char('L') => {
                let right = key == Key::Char('L');
                if let Some(c) = self.sprint_cursor_card_exec() {
                    if let Some(bi) = self.active_board() {
                        let board = self.model.boards[bi].id;
                        if let Some(ci) = self.model.card_by_id(c) {
                            let column = self.model.cards[ci].column_id;
                            if let Some(t) = self.neighbour_column_of(board, column, right) {
                                self.model.set_card_column(c, t);
                            }
                        }
                    }
                }
            },
            Key::Char('n') => {
                self.input = String::new();
                self.open_dialog(DialogMode::CreateCard);
            },
            _ => {},
        }
        SprintDetailAction::Nothing
    }

    /// A key in the sprint detail view; returns the work it leaves to the
    /// caller.
    #[verifier::rlimit(60)]
    pub fn handle_sprint_detail_key(&mut self, key: Key) -> (r: SprintDetailAction)
        requires
            old(self).well_formed(),
        ensures
            sprint_detail_key_handled(*old(self), *final(self), key, r),
            final(self).well_formed(),
    {
        match key {
            Key::Esc => {
                self.pop_mode();
                self.focus.board_focus = BoardFocus::Sprints;
                self.selection.active_sprint_index = None;
                SprintDetailAction::Nothing
            },
            Key::Char('a') => {
                self.handle_activate_sprint_key();
                SprintDetailAction::Nothing
            },
            Key::Char('c') => {
                self.complete_picked_or_sprint();
                SprintDetailAction::Nothing
            },
            Key::Char('d') => {
                self.delete_picked();
                SprintDetailAction::Nothing
            },
            Key::Char('s') => match self.sprint_cursor_card_exec() {
                Some(card) => self.open_assign_sprint_dialog_for(card),
                None => SprintDetailAction::Nothing,
            },
            Key::Char('y') => match self.sprint_cursor_card_exec() {
                Some(card) => {
                    self.activate_card(card);
                    SprintDetailAction::CopyBranchName
                },
                None => SprintDetailAction::Nothing,
            },
            Key::Char('Y') => match self.sprint_cursor_card_exec() {
                Some(card) => {
                    self.activate_card(card);
                    SprintDetailAction::CopyCheckoutCommand
                },
                None => SprintDetailAction::Nothing,
            },
            Key::Char('p') => {
                self.open_sprint_prefix_dialog(false);
                SprintDetailAction::Nothing
            },
            Key::Char('C') => {
                self.open_sprint_prefix_dialog(true);
                SprintDetailAction::Nothing
            },
            Key::Char('o') => {
                let row = match self.filter.current_sort_field {
                    Some(f) => popup_index_of_sort_field(f),
                    None => 0,
                };
                self.filter.sort_field_selection.set(Some(row));
                self.open_dialog(DialogMode::OrderCards);
                SprintDetailAction::Nothing
            },
            Key::Char('O') => {
                if let Some(current) = self.filter.current_sort_order {
                    self.filter.current_sort_order = Some(current.toggled());
                }
                SprintDetailAction::Nothing
            },
            Key::Char('M') => {
                self.carry_over_active_sprint_if_eligible();
                SprintDetailAction::Nothing
            },
            Key::Char('h') | Key::Left => {
                self.switch_sprint_panel(SprintTaskPanel::Uncompleted);
                SprintDetailAction::Nothing
            },
            Key::Char('l') | Key::Right => {
                self.switch_sprint_panel(SprintTaskPanel::Completed);
                SprintDetailAction::Nothing
            },
            _ => self.handle_sprint_list_key(key),
        }
    }
}

/// A carry-over leaves the source sprint with no unfinished live card and
/// adds exactly the moved cards to the unfinished cards of the target.
pub proof fn law_carry_over_moves_all_unfinished_cards(
    cards: Seq<Card>,
    archived: Seq<ArchivedCard>,
    from: EntityId,
    to: EntityId,
)
    requires
        from != to,
    ensures
        unfinished_count(carried_over(cards, archived, from, to), archived, from) == 0,
        unfinished_count(carried_over(cards, archived, from, to), archived, to) == unfinished_count(cards, archived, to)
            + unfinished_count(cards, archived, from),
        carried_over(cards, archived, from, to).len() == cards.len(),
    decreases cards.len(),
{
    let after = carried_over(cards, archived, from, to);
    if cards.len() > 0 {
        let rest = cards.drop_last();
        law_carry_over_moves_all_unfinished_cards(rest, archived, from, to);
        assert(after.drop_last() =~= carried_over(rest, archived, from, to));
        assert(after.last() == after[cards.len() - 1]);
    }
}

/// Completing a sprint never leaves it the board's active sprint, and the
/// carry-over it may offer starts from the completed sprint.
pub proof fn law_complete_clears_active_sprint(before: App, after: App)
    requires
        can_complete(before),
        complete_effect(before, after),
    ensures
        after.model.boards@[board_in_context(before).unwrap()].active_sprint_id.is_none(),
        after.model.sprints@[viewed_sprint(before).unwrap()].status == SprintStatus::Completed,
        offers_carry_over(before, after) ==> after.mode == AppMode::Dialog(DialogMode::CarryOverSprint)
            && after.dialog_input.carry_over_source_sprint_id == Some(
            before.model.sprints@[viewed_sprint(before).unwrap()].id,
        ),
{
    lemma_board_in_context_in_range(before);
}

/// The board in context is a board of the model.
pub proof fn lemma_board_in_context_in_range(app: App)
    ensures
        board_in_context(app) matches Some(bi) ==> 0 <= bi < app.model.boards@.len(),
{
    if let Some(id) = app.selection.active_board_id {
        super::model::lemma_board_index(app.model.boards@, id);
    }
    if let Some(id) = app.board_list.selected_id() {
        super::model::lemma_board_index(app.model.boards@, id);
    }
}

proof fn lemma_sprint_prefix(sprints: Seq<Sprint>, id: EntityId, i: int)
    requires
        0 <= i < sprints.len(),
        sprints[i].id == id,
        sprint_index(sprints.take(i), id).is_none(),
    ensures
        sprint_index(sprints, id) == Some(i),
{
    lemma_sprint_index(sprints.take(i), id);
    lemma_sprint_index(sprints, id);
    if let Some(j) = sprint_index(sprints, id) {
        if j < i {
            assert(sprints.take(i)[j] == sprints[j]);
        }
    }
}

} // verus!
