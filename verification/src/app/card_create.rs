//! Creating a card from the task panel, and the create-card dialog.

use super::card_detail::popped;
use super::card_ops::with_card_selected;
use super::components::CardListId;
use super::dialogs::edited;
use super::model::{board_index, Card, CardPriority, CardStatus, Column, EntityId, KanbanModel};
use super::modes::{AppMode, DialogMode, Focus, Key};
use super::state::{untouched, App, CreateCardFocus, DialogInputState, Touched};
use vstd::prelude::*;

verus! {

/// Column of the kanban list with the focus, when the active list is one.
pub open spec fn focused_column(app: App) -> Option<EntityId> {
    if app.view.has_active_list() {
        match app.view.active_list().id {
            CardListId::Column(c) => Some(c),
            CardListId::All => None,
        }
    } else {
        None
    }
}

/// Index of the first column of `board` in model order.
pub open spec fn first_column_of(columns: Seq<Column>, board: EntityId) -> Option<int>
    decreases columns.len(),
{
    if columns.len() == 0 {
        None
    } else {
        match first_column_of(columns.drop_last(), board) {
            Some(i) => Some(i),
            None => if columns.last().board_id == board {
                Some(columns.len() - 1)
            } else {
                None
            },
        }
    }
}

/// Index of the first column of id `id`.
pub open spec fn column_index(columns: Seq<Column>, id: EntityId) -> Option<int>
    decreases columns.len(),
{
    if columns.len() == 0 {
        None
    } else {
        match column_index(columns.drop_last(), id) {
            Some(i) => Some(i),
            None => if columns.last().id == id {
                Some(columns.len() - 1)
            } else {
                None
            },
        }
    }
}

/// Position after the last card of column `column` (0 for an empty one).
pub open spec fn next_position(cards: Seq<Card>, column: EntityId) -> int
    decreases cards.len(),
{
    if cards.len() == 0 {
        0
    } else {
        let rest = next_position(cards.drop_last(), column);
        let c = cards.last();
        if c.column_id == column && c.position + 1 > rest {
            c.position + 1
        } else {
            rest
        }
    }
}

/// Card positions leave room for one more card.
pub open spec fn card_positions_bounded(cards: Seq<Card>) -> bool {
    forall|i: int| 0 <= i < cards.len() ==> (#[trigger] cards[i]).position < i32::MAX
}

/// The column a new card goes to: the focused kanban column, else the
/// board's first column; none when that is not a column of the model.
pub open spec fn new_card_column(app: App, board: EntityId) -> Option<EntityId> {
    let target = match focused_column(app) {
        Some(c) => Some(c),
        None => match first_column_of(app.model.columns@, board) {
            Some(i) => Some(app.model.columns@[i].id),
            None => None,
        },
    };
    match target {
        Some(c) => match column_index(app.model.columns@, c) {
            Some(_) => Some(c),
            None => None,
        },
        None => None,
    }
}

/// `card` is a fresh card titled `title` in `column` at `position`, of
/// sprint `sprint`, medium priority and still to do.
pub open spec fn is_new_card(card: Card, column: EntityId, title: Seq<char>, position: int, sprint: Option<EntityId>) -> bool {
    &&& card.column_id == column
    &&& card.title@ == title
    &&& card.position == position
    &&& card.priority == CardPriority::Medium
    &&& card.status == CardStatus::Todo
    &&& card.sprint_id == sprint
    &&& card.points.is_none()
}

/// What Enter does in the create-card dialog (see `create_card`).
pub open spec fn card_created(before: App, after: App) -> bool {
    match before.selection.active_board_id {
        None => before.unchanged_except(&after, untouched()),
        Some(bid) => match board_index(before.model.boards@, bid) {
            None => before.unchanged_except(&after, untouched()),
            Some(_) => {
                let cards = after.model.cards@;
                let m = before.model;
                &&& before.unchanged_except(&after, (Touched { model: true, board_list: true, view: true, ..untouched() }))
                &&& cards.len() == m.cards@.len() + 1
                &&& cards.drop_last() =~= m.cards@
                &&& after.model.boards == m.boards
                &&& after.model.archived_cards == m.archived_cards
                &&& after.model.sprints == m.sprints
                &&& after.model.edges == m.edges
                &&& after.view.layout == before.view.layout
                &&& after.view.viewport_height == before.view.viewport_height
                &&& match new_card_column(before, bid) {
                    Some(col) => {
                        &&& after.model.columns == m.columns
                        &&& is_new_card(
                            cards.last(),
                            col,
                            before.input@,
                            next_position(m.cards@, col),
                            before.dialog_input.create_card_sprint,
                        )
                    },
                    None => {
                        let cols = after.model.columns@;
                        &&& cols.len() == m.columns@.len() + 1
                        &&& cols.drop_last() =~= m.columns@
                        &&& cols.last().board_id == bid
                        &&& cols.last().name@ == seq!['T', 'o', 'd', 'o']
                        &&& cols.last().position == 0
                        &&& is_new_card(cards.last(), cols.last().id, before.input@, 0, before.dialog_input.create_card_sprint)
                    },
                }
            },
        },
    }
}

impl App {
    /// Column of the kanban list with the focus, when the active list is one.
    pub fn get_focused_column_id(&self) -> (r: Option<EntityId>)
        ensures
            r == focused_column(*self),
    {
        match self.view.active_list_index() {
            Some(li) => match self.view.lists[li].id {
                CardListId::Column(c) => Some(c),
                CardListId::All => None,
            },
            None => None,
        }
    }

    fn first_column_index(&self, board: EntityId) -> (r: Option<usize>)
        ensures
            r.is_some() == first_column_of(self.model.columns@, board).is_some(),
            r matches Some(i) ==> first_column_of(self.model.columns@, board) == Some(i as int) && i
                < self.model.columns@.len(),
    {
        let mut i: usize = 0;
        while i < self.model.columns.len()
            invariant
                i <= self.model.columns@.len(),
                first_column_of(self.model.columns@.take(i as int), board).is_none(),
            decreases self.model.columns@.len() - i,
        {
            proof {
                assert(self.model.columns@.take(i + 1).drop_last() =~= self.model.columns@.take(i as int));
            }
            if self.model.columns[i].board_id == board {
                proof {
                    lemma_first_prefix(self.model.columns@, board, i as int);
                }
                return Some(i);
            }
            i = i + 1;
        }
        proof {
            assert(self.model.columns@.take(self.model.columns@.len() as int) =~= self.model.columns@);
        }
        None
    }

    fn column_by_id(&self, id: EntityId) -> (r: Option<usize>)
        ensures
            r.is_some() == column_index(self.model.columns@, id).is_some(),
    {
        let mut i: usize = 0;
        while i < self.model.columns.len()
            invariant
                i <= self.model.columns@.len(),
                column_index(self.model.columns@.take(i as int), id).is_none(),
            decreases self.model.columns@.len() - i,
        {
            proof {
                assert(self.model.columns@.take(i + 1).drop_last() =~= self.model.columns@.take(i as int));
            }
            if self.model.columns[i].id == id {
                proof {
                    lemma_column_index_prefix(self.model.columns@, id, i as int);
                }
                return Some(i);
            }
            i = i + 1;
        }
        proof {
            assert(self.model.columns@.take(self.model.columns@.len() as int) =~= self.model.columns@);
        }
        None
    }

    fn next_position_in_column(&self, column: EntityId) -> (r: i32)
        requires
            card_positions_bounded(self.model.cards@),
        ensures
            r == next_position(self.model.cards@, column),
    {
        let mut best: i32 = 0;
        let mut i: usize = 0;
        while i < self.model.cards.len()
            invariant
                i <= self.model.cards@.len(),
                card_positions_bounded(self.model.cards@),
                best == next_position(self.model.cards@.take(i as int), column),
            decreases self.model.cards@.len() - i,
        {
            proof {
                assert(self.model.cards@.take(i + 1).drop_last() =~= self.model.cards@.take(i as int));
            }
            let c = &self.model.cards[i];
            if c.column_id == column && c.position + 1 > best {
                best = c.position + 1;
            }
            i = i + 1;
        }
        proof {
            assert(self.model.cards@.take(self.model.cards@.len() as int) =~= self.model.cards@);
        }
        best
    }

    /// Enter in the create-card dialog: a card titled by the input goes at
    /// the end of the focused kanban column, or else of the board's first
    /// column (a `Todo` column is made when the board has none), in the
    /// sprint the dialog chose; the task panel is resynced and the new card
    /// selected.
    pub fn create_card(&mut self)
        requires
            old(self).well_formed(),
            card_positions_bounded(old(self).model.cards@),
        ensures
            card_created(*old(self), *final(self)),
            final(self).well_formed(),
    {
        let Some(bid) = self.selection.active_board_id else {
            return;
        };
        if self.model.board_by_id(bid).is_none() {
            return;
        }
        let target = match self.get_focused_column_id() {
            Some(c) => Some(c),
            None => match self.first_column_index(bid) {
                Some(i) => Some(self.model.columns[i].id),
                None => None,
            },
        };
        let found = match target {
            Some(c) => if self.column_by_id(c).is_some() {
                Some(c)
            } else {
                None
            },
            None => None,
        };
        let (column, position) = match found {
            Some(c) => {
                let p = self.next_position_in_column(c);
                (c, p)
            },
            None => {
                let id = super::column_ops::new_entity_id();
                let created_at = super::column_ops::now_millis();
                self.model.columns.push(Column { id, board_id: bid, name: "Todo".to_string(), position: 0, created_at });
                proof {
                    reveal_strlit("Todo");
                    assert("Todo"@ =~= seq!['T', 'o', 'd', 'o']);
                }
                (id, 0)
            },
        };
        let card_id = super::column_ops::new_entity_id();
        let title = self.input.clone();
        let sprint = self.dialog_input.create_card_sprint;
        self.model.cards.push(
            Card {
                id: card_id,
                column_id: column,
                title,
                position,
                priority: CardPriority::Medium,
                status: CardStatus::Todo,
                sprint_id: sprint,
                points: None,
            },
        );
        self.prepare_frame();
        self.select_card_by_id(card_id);
    }

    /// `n` in the tasks panel of an active board: the create-card dialog
    /// opens with an empty title and the title focused; returns whether the
    /// caller is to reset the dialog's sprint picker for the board.
    pub fn handle_create_card_key(&mut self) -> (prepare_picker: bool)
        requires
            old(self).well_formed(),
        ensures
            final(self).well_formed(),
            prepare_picker == (old(self).focus.active == Focus::Cards && old(self).active_board_index().is_some()),
            prepare_picker ==> {
                &&& old(self).unchanged_except(final(self), (Touched { mode: true, input: true, ..untouched() }))
                &&& final(self).mode == AppMode::Dialog(DialogMode::CreateCard)
                &&& final(self).mode_stack@ == old(self).mode_stack@.push(old(self).mode)
                &&& final(self).input@.len() == 0
            },
            !prepare_picker ==> old(self).unchanged_except(final(self), untouched()),
    {
        if self.focus.active == Focus::Cards && self.active_board().is_some() {
            self.open_dialog(DialogMode::CreateCard);
            self.input = String::new();
            true
        } else {
            false
        }
    }

    /// A key in the create-card dialog: Enter creates the card and closes
    /// the dialog, Tab moves the focus between the title and the sprint
    /// picker; with the title focused, Down and Esc move to the picker and
    /// other keys edit the title; with the picker focused, Esc closes the
    /// dialog and other keys are the picker's (the returned flag).
    pub fn handle_create_card_dialog(&mut self, key: Key) -> (picker_key: bool)
        requires
            old(self).well_formed(),
            card_positions_bounded(old(self).model.cards@),
        ensures
            final(self).well_formed(),
            ({
                let f = old(self).dialog_input.create_card_focus;
                let other = match f {
                    CreateCardFocus::Title => CreateCardFocus::Sprint,
                    CreateCardFocus::Sprint => CreateCardFocus::Title,
                };
                let closed = popped(*old(self), *final(self)) && final(self).input@.len() == 0
                    && final(self).dialog_input == (DialogInputState {
                    create_card_focus: CreateCardFocus::Title,
                    create_card_sprint: None,
                    ..old(self).dialog_input
                });
                let refocused = !picker_key && old(self).unchanged_except(
                    final(self),
                    (Touched { dialog_input: true, ..untouched() }),
                ) && final(self).dialog_input == (DialogInputState { create_card_focus: other, ..old(self).dialog_input });
                if key == Key::Enter {
                    &&& !picker_key
                    &&& closed
                    &&& card_created(
                        *old(self),
                        App {
                            mode: old(self).mode,
                            mode_stack: old(self).mode_stack,
                            input: old(self).input,
                            dialog_input: old(self).dialog_input,
                            ..*final(self)
                        },
                    )
                } else if key == Key::Tab {
                    refocused
                } else if f == CreateCardFocus::Title {
                    if key == Key::Down || key == Key::Esc {
                        refocused
                    } else {
                        &&& !picker_key
                        &&& old(self).unchanged_except(final(self), (Touched { input: true, ..untouched() }))
                        &&& final(self).input@ == edited(old(self).input@, key)
                    }
                } else if key == Key::Esc {
                    &&& !picker_key
                    &&& closed
                    &&& old(self).unchanged_except(
                        final(self),
                        (Touched { mode: true, input: true, dialog_input: true, ..untouched() }),
                    )
                } else {
                    picker_key && old(self).unchanged_except(final(self), untouched())
                }
            }),
    {
        if key == Key::Enter {
            self.create_card();
            self.pop_mode();
            self.input = String::new();
            self.dialog_input.create_card_sprint = None;
            self.dialog_input.create_card_focus = CreateCardFocus::Title;
            return false;
        }
        let other = match self.dialog_input.create_card_focus {
            CreateCardFocus::Title => CreateCardFocus::Sprint,
            CreateCardFocus::Sprint => CreateCardFocus::Title,
        };
        if key == Key::Tab {
            self.dialog_input.create_card_focus = other;
            return false;
        }
        if self.dialog_input.create_card_focus == CreateCardFocus::Title {
            if key == Key::Down || key == Key::Esc {
                self.dialog_input.create_card_focus = other;
            } else {
                super::dialogs::handle_dialog_input(&mut self.input, key);
            }
            return false;
        }
        if key == Key::Esc {
            self.pop_mode();
            self.input = String::new();
            self.dialog_input.create_card_sprint = None;
            self.dialog_input.create_card_focus = CreateCardFocus::Title;
            return false;
        }
        true
    }
}

proof fn lemma_first_prefix(columns: Seq<Column>, board: EntityId, i: int)
    requires
        0 <= i < columns.len(),
        columns[i].board_id == board,
        first_column_of(columns.take(i), board).is_none(),
    ensures
        first_column_of(columns, board) == Some(i),
    decreases columns.len(),
{
    if i < columns.len() - 1 {
        assert(columns.drop_last().take(i) =~= columns.take(i));
        lemma_first_prefix(columns.drop_last(), board, i);
    } else {
        assert(columns.drop_last() =~= columns.take(i));
    }
}

proof fn lemma_column_index_prefix(columns: Seq<Column>, id: EntityId, i: int)
    requires
        0 <= i < columns.len(),
        columns[i].id == id,
        column_index(columns.take(i), id).is_none(),
    ensures
        column_index(columns, id) == Some(i),
    decreases columns.len(),
{
    if i < columns.len() - 1 {
        assert(columns.drop_last().take(i) =~= columns.take(i));
        lemma_column_index_prefix(columns.drop_last(), id, i);
    } else {
        assert(columns.drop_last() =~= columns.take(i));
    }
}

/// A new card goes at the end of its column: its position is past the
/// position of every card already in the column, and it is the first such
/// place (one past the largest position, or 0 when the column holds no card
/// at a position of 0 or more).
pub proof fn law_new_card_position_is_past_its_column(cards: Seq<Card>, column: EntityId)
    ensures
        next_position(cards, column) >= 0,
        forall|i: int| 0 <= i < cards.len() && (#[trigger] cards[i]).column_id == column ==> cards[i].position
            < next_position(cards, column),
        next_position(cards, column) == 0 || exists|i: int|
            0 <= i < cards.len() && (#[trigger] cards[i]).column_id == column && cards[i].position + 1 == next_position(
                cards,
                column,
            ),
    decreases cards.len(),
{
    if cards.len() > 0 {
        let rest = cards.drop_last();
        law_new_card_position_is_past_its_column(rest, column);
        assert forall|i: int| 0 <= i < cards.len() && (#[trigger] cards[i]).column_id == column implies cards[i].position
            < next_position(cards, column) by {
            if i < cards.len() - 1 {
                assert(cards[i] == rest[i]);
            }
        }
        if next_position(cards, column) != 0 {
            if next_position(cards, column) == next_position(rest, column) {
                let i = choose|i: int|
                    0 <= i < rest.len() && (#[trigger] rest[i]).column_id == column && rest[i].position + 1
                        == next_position(rest, column);
                assert(cards[i] == rest[i]);
            } else {
                assert(cards[cards.len() - 1] == cards.last());
            }
        }
    }
}

} // verus!
