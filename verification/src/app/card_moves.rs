//! Moving cards to the neighbouring column of their board.

use super::board_detail::board_columns_ordered;
use super::model::{card_index, Card, Column, EntityId, KanbanModel};
use super::modes::Focus;
use super::state::{untouched, App, MultiSelectState, Touched};
use vstd::prelude::*;

verus! {

/// Place in `order` of the first column of `columns` with id `column`.
pub open spec fn place_in_order(columns: Seq<Column>, order: Seq<usize>, column: EntityId) -> Option<int>
    decreases order.len(),
{
    if order.len() == 0 {
        None
    } else {
        match place_in_order(columns, order.drop_last(), column) {
            Some(k) => Some(k),
            None => if columns[order.last() as int].id == column {
                Some(order.len() - 1)
            } else {
                None
            },
        }
    }
}

/// The column of `board` next to column `column` (to the right when
/// `right`), in the board's column order; none at either end or when
/// `column` is not one of the board's.
pub open spec fn neighbour_column(columns: Seq<Column>, board: EntityId, column: EntityId, right: bool) -> Option<EntityId> {
    let o = choose|o: Seq<usize>| board_columns_ordered(columns, board, o);
    match place_in_order(columns, o, column) {
        Some(k) => if right {
            if k + 1 < o.len() {
                Some(columns[o[k + 1] as int].id)
            } else {
                None
            }
        } else {
            if k > 0 {
                Some(columns[o[k - 1] as int].id)
            } else {
                None
            }
        },
        None => None,
    }
}

/// `cards` with the card of `id` (its first occurrence) moved to column
/// `column`.
pub open spec fn with_column(cards: Seq<Card>, id: EntityId, column: EntityId) -> Seq<Card> {
    match card_index(cards, id) {
        Some(i) => cards.update(i, Card { column_id: column, ..cards[i] }),
        None => cards,
    }
}

/// `cards` with every card of `ids` moved to the neighbouring column of
/// board `board` (cards at the end of the board stay).
pub open spec fn with_ids_moved(
    cards: Seq<Card>,
    columns: Seq<Column>,
    board: EntityId,
    ids: Seq<EntityId>,
    right: bool,
) -> Seq<Card> {
    Seq::new(
        cards.len(),
        |i: int|
            if ids.contains(cards[i].id) {
                match neighbour_column(columns, board, cards[i].column_id, right) {
                    Some(t) => Card { column_id: t, ..cards[i] },
                    None => cards[i],
                }
            } else {
                cards[i]
            },
    )
}

/// What moving cards does: in the tasks panel of an active board, the
/// picked cards (leaving selection mode with an empty selection), or else
/// the card under the cursor, go to the neighbouring column; the task panel
/// keeps its layout and size and the projects panel is resynced.
pub open spec fn cards_moved_effect(before: App, after: App, right: bool) -> bool {
    let same = before.unchanged_except(&after, untouched());
    let view_kept = after.view.layout == before.view.layout && after.view.viewport_height
        == before.view.viewport_height;
    if before.focus.active != Focus::Cards {
        same
    } else if before.multi_select.selected_cards@.len() > 0 {
        match before.active_board_index() {
            None => same,
            Some(bi) => {
                &&& before.unchanged_except(
                    &after,
                    (Touched { model: true, multi_select: true, view: true, board_list: true, ..untouched() }),
                )
                &&& after.model == (KanbanModel { cards: after.model.cards, ..before.model })
                &&& after.model.cards@ == with_ids_moved(
                    before.model.cards@,
                    before.model.columns@,
                    before.model.boards@[bi].id,
                    before.multi_select.selected_cards@,
                    right,
                )
                &&& after.multi_select == (MultiSelectState {
                    selected_cards: after.multi_select.selected_cards,
                    selection_mode_active: false,
                    ..before.multi_select
                })
                &&& after.multi_select.selected_cards@.len() == 0
                &&& view_kept
            },
        }
    } else {
        match (before.selected_card_in_context(), before.active_board_index()) {
            (Some(c), Some(bi)) => match neighbour_column(
                before.model.columns@,
                before.model.boards@[bi].id,
                before.model.cards@[card_index(before.model.cards@, c).unwrap()].column_id,
                right,
            ) {
                Some(t) => {
                    &&& before.unchanged_except(&after, (Touched { model: true, view: true, board_list: true, ..untouched() }))
                    &&& after.model == (KanbanModel { cards: after.model.cards, ..before.model })
                    &&& after.model.cards@ == with_column(before.model.cards@, c, t)
                    &&& view_kept
                },
                None => same,
            },
            _ => same,
        }
    }
}

/// The columns of `board` have distinct ids.
pub open spec fn board_column_ids_distinct(columns: Seq<Column>, board: EntityId) -> bool {
    forall|i: int, j: int|
        0 <= i < columns.len() && 0 <= j < columns.len() && columns[i].board_id == board && columns[j].board_id
            == board && #[trigger] columns[i].id == #[trigger] columns[j].id ==> i == j
}

proof fn lemma_place_found(columns: Seq<Column>, order: Seq<usize>, column: EntityId)
    ensures
        place_in_order(columns, order, column) matches Some(k) ==> 0 <= k < order.len() && columns[order[k] as int].id
            == column,
    decreases order.len(),
{
    if order.len() > 0 {
        lemma_place_found(columns, order.drop_last(), column);
    }
}

/// Moving a card to the right and then back to the left brings it back to
/// its column, when the board's columns have distinct ids (`order` is the
/// board's column order, as `sorted_board_columns` gives it).
pub proof fn law_move_right_then_left_returns(
    columns: Seq<Column>,
    board: EntityId,
    column: EntityId,
    order: Seq<usize>,
)
    requires
        board_columns_ordered(columns, board, order),
        board_column_ids_distinct(columns, board),
        neighbour_column(columns, board, column, true).is_some(),
    ensures
        neighbour_column(columns, board, neighbour_column(columns, board, column, true).unwrap(), false) == Some(
            column,
        ),
{
    let o = choose|o: Seq<usize>| board_columns_ordered(columns, board, o);
    super::board_detail::lemma_board_columns_unique(columns, board, order, o);
    lemma_place_found(columns, o, column);
    let k = place_in_order(columns, o, column).unwrap();
    let t = columns[o[k + 1] as int].id;
    assert forall|m: int| 0 <= m < k + 1 implies columns[#[trigger] o[m] as int].id != t by {
        if columns[o[m] as int].id == t {
            assert(o[m] == o[k + 1]);
        }
    }
    lemma_place_prefix(columns, o, t, k + 1);
}

proof fn lemma_place_prefix(columns: Seq<Column>, order: Seq<usize>, column: EntityId, k: int)
    requires
        0 <= k < order.len(),
        forall|m: int| 0 <= m < order.len() ==> (#[trigger] order[m]) < columns.len(),
        columns[order[k] as int].id == column,
        forall|m: int| 0 <= m < k ==> columns[#[trigger] order[m] as int].id != column,
    ensures
        place_in_order(columns, order, column) == Some(k),
    decreases order.len(),
{
    if k < order.len() - 1 {
        lemma_place_prefix(columns, order.drop_last(), column, k);
    } else {
        lemma_place_none(columns, order.drop_last(), column);
    }
}

proof fn lemma_place_none(columns: Seq<Column>, order: Seq<usize>, column: EntityId)
    requires
        forall|m: int| 0 <= m < order.len() ==> columns[#[trigger] order[m] as int].id != column,
    ensures
        place_in_order(columns, order, column).is_none(),
    decreases order.len(),
{
    if order.len() > 0 {
        lemma_place_none(columns, order.drop_last(), column);
    }
}

impl KanbanModel {
    /// Moves the card of `id` to column `column`.
    pub fn set_card_column(&mut self, id: EntityId, column: EntityId)
        ensures
            final(self).cards@ == with_column(old(self).cards@, id, column),
            final(self).boards == old(self).boards,
            final(self).columns == old(self).columns,
            final(self).archived_cards == old(self).archived_cards,
            final(self).sprints == old(self).sprints,
            final(self).edges == old(self).edges,
    {
        if let Some(i) = self.card_by_id(id) {
            let ghost before = self.cards@;
            {
                let c = &mut self.cards[i];
                c.column_id = column;
            }
            proof {
                assert(self.cards@ =~= before.update(i as int, Card { column_id: column, ..before[i as int] }));
            }
        }
    }
}

impl App {
    /// The column of board `board` next to column `column` (see
    /// `neighbour_column`).
    pub fn neighbour_column_of(&self, board: EntityId, column: EntityId, right: bool) -> (r: Option<EntityId>)
        ensures
            r == neighbour_column(self.model.columns@, board, column, right),
    {
        let order = self.sorted_board_columns(board);
        let ghost cs = self.model.columns@;
        proof {
            let o = choose|o: Seq<usize>| board_columns_ordered(cs, board, o);
            super::board_detail::lemma_board_columns_unique(cs, board, order@, o);
        }
        let mut k: usize = 0;
        while k < order.len()
            invariant
                k <= order@.len(),
                cs == self.model.columns@,
                board_columns_ordered(cs, board, order@),
                order@ == choose|o: Seq<usize>| board_columns_ordered(cs, board, o),
                forall|m: int| 0 <= m < k ==> cs[#[trigger] order@[m] as int].id != column,
            decreases order@.len() - k,
        {
            if self.model.columns[order[k]].id == column {
                proof {
                    lemma_place_prefix(cs, order@, column, k as int);
                }
                if right {
                    if k + 1 < order.len() {
                        return Some(self.model.columns[order[k + 1]].id);
                    }
                    return None;
                } else {
                    if k > 0 {
                        return Some(self.model.columns[order[k - 1]].id);
                    }
                    return None;
                }
            }
            k = k + 1;
        }
        proof {
            lemma_place_none(cs, order@, column);
        }
        None
    }

    /// Moves every card of `ids` to the neighbouring column of board `board`.
    fn move_cards_to_neighbours(&mut self, board: EntityId, ids: &Vec<EntityId>, right: bool)
        requires
            old(self).well_formed(),
        ensures
            old(self).unchanged_except(final(self), (Touched { model: true, ..untouched() })),
            final(self).model == (KanbanModel { cards: final(self).model.cards, ..old(self).model }),
            final(self).model.cards@ == with_ids_moved(
                old(self).model.cards@,
                old(self).model.columns@,
                board,
                ids@,
                right,
            ),
            final(self).well_formed(),
    {
        let ghost start = *self;
        let mut i: usize = 0;
        while i < self.model.cards.len()
            invariant
                i <= self.model.cards@.len(),
                self.model.cards@.len() == start.model.cards@.len(),
                start == *old(self),
                start.unchanged_except(self, (Touched { model: true, ..untouched() })),
                self.model == (KanbanModel { cards: self.model.cards, ..start.model }),
                self.well_formed(),
                forall|k: int|
                    0 <= k < i ==> self.model.cards@[k] == with_ids_moved(
                        start.model.cards@,
                        start.model.columns@,
                        board,
                        ids@,
                        right,
                    )[k],
                forall|k: int| i <= k < start.model.cards@.len() ==> self.model.cards@[k] == start.model.cards@[k],
            decreases self.model.cards@.len() - i,
        {
            let id = self.model.cards[i].id;
            if super::model::contains_id(ids, id) {
                let col = self.model.cards[i].column_id;
                if let Some(t) = self.neighbour_column_of(board, col, right) {
                    let c = &mut self.model.cards[i];
                    c.column_id = t;
                }
            }
            i = i + 1;
        }
        proof {
            assert(self.model.cards@ =~= with_ids_moved(start.model.cards@, start.model.columns@, board, ids@, right));
        }
    }

    /// Moves the picked cards to the neighbouring column (to the right when
    /// `right`), leaves selection mode with an empty selection, follows them
    /// in the kanban layout and keeps the first of them selected.
    fn move_selected_cards(&mut self, right: bool)
        requires
            old(self).well_formed(),
            old(self).focus.active == Focus::Cards,
            old(self).multi_select.selected_cards@.len() > 0,
        ensures
            cards_moved_effect(*old(self), *final(self), right),
            final(self).well_formed(),
    {
        let Some(bi) = self.active_board() else {
            return;
        };
        let board = self.model.boards[bi].id;
        let ids = self.multi_select.selected_cards.clone();
        self.move_cards_to_neighbours(board, &ids, right);
        self.multi_select.selected_cards = Vec::new();
        self.multi_select.selection_mode_active = false;
        if right {
            self.view.navigate_right(false);
        } else {
            self.view.navigate_left(false);
        }
        self.prepare_frame();
        self.select_card_by_id(ids[0]);
    }

    /// Moves the picked cards, or else the card under the cursor, to the
    /// neighbouring column of the active board (to the right when `right`).
    fn handle_move_card(&mut self, right: bool)
        requires
            old(self).well_formed(),
        ensures
            cards_moved_effect(*old(self), *final(self), right),
            final(self).well_formed(),
    {
        if self.focus.active != Focus::Cards {
            return;
        }
        if self.multi_select.selected_cards.len() > 0 {
            self.move_selected_cards(right);
            return;
        }
        let Some(card) = self.get_selected_card_in_context() else {
            return;
        };
        let Some(bi) = self.active_board() else {
            return;
        };
        let board = self.model.boards[bi].id;
        let Some(i) = self.model.card_by_id(card) else {
            return;
        };
        let col = self.model.cards[i].column_id;
        let Some(target) = self.neighbour_column_of(board, col, right) else {
            return;
        };
        self.model.set_card_column(card, target);
        if right {
            self.view.navigate_right(false);
        } else {
            self.view.navigate_left(false);
        }
        self.prepare_frame();
        self.select_card_by_id(card);
    }

    /// `H`: moves cards one column to the left.
    pub fn handle_move_card_left(&mut self)
        requires
            old(self).well_formed(),
        ensures
            cards_moved_effect(*old(self), *final(self), false),
            final(self).well_formed(),
    {
        self.handle_move_card(false);
    }

    /// `L`: moves cards one column to the right.
    pub fn handle_move_card_right(&mut self)
        requires
            old(self).well_formed(),
        ensures
            cards_moved_effect(*old(self), *final(self), true),
            final(self).well_formed(),
    {
        self.handle_move_card(true);
    }
}

} // verus!
