//! The task query of the active board: for each of its columns, in board
//! order, the live cards of the column that pass the task list's filters, in
//! stored order; and the task lists filled from it.

use super::board_detail::{active_column_order, board_columns_ordered, lemma_board_columns_unique};
use super::model::{is_archived_card, ArchivedCard, Card, EntityId};
use super::state::{untouched, App, FilterState, Touched};
use super::view::{concat_cards, ViewState, MAX_VIEWPORT_HEIGHT};
use super::components::CardListId;
use super::model::TaskListView;
use super::card_handlers::first_row_selected;
use vstd::prelude::*;

verus! {

/// Whether card `c` passes the task list's filters: a card in a sprint is
/// hidden while assigned cards are hidden, and while sprints are chosen only
/// the cards of those sprints show.
pub open spec fn passes_filters(filter: FilterState, c: Card) -> bool {
    &&& !(filter.hide_assigned_cards && c.sprint_id.is_some())
    &&& (filter.active_sprint_filters@.len() == 0 || (c.sprint_id matches Some(s)
        && filter.active_sprint_filters@.contains(s)))
}

/// Whether card `c` shows in the list of column `column`: it is in that
/// column, not archived, and passes the filters.
pub open spec fn listed_in(archived: Seq<ArchivedCard>, filter: FilterState, column: EntityId) -> spec_fn(Card) -> bool {
    |c: Card| c.column_id == column && !is_archived_card(archived, c.id) && passes_filters(filter, c)
}

/// Ids of the cards that show in the list of column `column`, in stored order.
pub open spec fn column_card_ids(app: App, column: EntityId) -> Seq<EntityId> {
    app.model.cards@.filter(listed_in(app.model.archived_cards@, app.filter, column)).map_values(|c: Card| c.id)
}

/// The cards of the columns `order` (positions in the model), one column
/// after another.
pub open spec fn cards_in_columns(app: App, order: Seq<usize>) -> Seq<EntityId>
    decreases order.len(),
{
    if order.len() == 0 {
        seq![]
    } else {
        cards_in_columns(app, order.drop_last()) + column_card_ids(app, app.model.columns@[order.last() as int].id)
    }
}

/// The cards of the active board that the flat task list shows, column by
/// column in board order.
pub open spec fn board_task_ids(app: App) -> Seq<EntityId> {
    match active_column_order(app) {
        Some(o) => cards_in_columns(app, o),
        None => seq![],
    }
}

/// `columns` is the task query of `app`'s active board: one entry per
/// column, in board order, with the column's listed cards.
pub open spec fn is_task_query(app: App, columns: Seq<(EntityId, Vec<EntityId>)>) -> bool {
    match active_column_order(app) {
        Some(o) => {
            &&& columns.len() == o.len()
            &&& forall|k: int|
                0 <= k < o.len() ==> (#[trigger] columns[k]).0 == app.model.columns@[o[k] as int].id && columns[k].1@
                    == column_card_ids(app, app.model.columns@[o[k] as int].id)
        },
        None => false,
    }
}

proof fn lemma_concat_is_cards_in_columns(app: App, columns: Seq<(EntityId, Vec<EntityId>)>, o: Seq<usize>)
    requires
        columns.len() == o.len(),
        forall|k: int|
            0 <= k < o.len() ==> (#[trigger] columns[k]).1@ == column_card_ids(app, app.model.columns@[o[k] as int].id),
    ensures
        concat_cards(columns) == cards_in_columns(app, o),
    decreases o.len(),
{
    if o.len() > 0 {
        let c0 = columns.drop_last();
        let o0 = o.drop_last();
        assert forall|k: int| 0 <= k < o0.len() implies (#[trigger] c0[k]).1@ == column_card_ids(
            app,
            app.model.columns@[o0[k] as int].id,
        ) by {
            assert(c0[k] == columns[k]);
            assert(o0[k] == o[k]);
        }
        lemma_concat_is_cards_in_columns(app, c0, o0);
        assert(columns.last() == columns[o.len() - 1]);
    }
}

/// The cards of `cols`, one column after another, when they fit the list
/// bounds (with room for a viewport); `None` otherwise.
fn concat_within_bounds(cols: &Vec<(EntityId, Vec<EntityId>)>) -> (r: Option<Vec<EntityId>>)
    ensures
        match r {
            Some(all) => all@ == concat_cards(cols@) && all@.len() + MAX_VIEWPORT_HEIGHT <= usize::MAX,
            None => concat_cards(cols@).len() + MAX_VIEWPORT_HEIGHT > usize::MAX,
        },
{
    let mut all: Vec<EntityId> = Vec::new();
    let mut k: usize = 0;
    while k < cols.len()
        invariant
            k <= cols@.len(),
            all@ == concat_cards(cols@.take(k as int)),
            all@.len() + MAX_VIEWPORT_HEIGHT <= usize::MAX,
        decreases cols@.len() - k,
    {
        proof {
            assert(cols@.take(k + 1).drop_last() =~= cols@.take(k as int));
            assert(cols@.take(k + 1).last() == cols@[k as int]);
            super::view::lemma_concat_prefix(cols@, k + 1);
        }
        if cols[k].1.len() > usize::MAX - MAX_VIEWPORT_HEIGHT - all.len() {
            return None;
        }
        let mut more = cols[k].1.clone();
        all.append(&mut more);
        k = k + 1;
    }
    proof {
        assert(cols@.take(cols@.len() as int) =~= cols@);
    }
    Some(all)
}

impl App {
    /// Ids of the cards that show in the list of column `column`.
    pub fn column_task_ids(&self, column: EntityId) -> (r: Vec<EntityId>)
        ensures
            r@ == column_card_ids(*self, column),
            r@.len() <= self.model.cards@.len(),
    {
        let ghost app = *self;
        let ghost pred = listed_in(app.model.archived_cards@, app.filter, column);
        let ghost cards = self.model.cards@;
        let ghost id_of = |c: Card| c.id;
        let mut r: Vec<EntityId> = Vec::new();
        let mut i: usize = 0;
        while i < self.model.cards.len()
            invariant
                i <= cards.len(),
                app == *self,
                cards == self.model.cards@,
                pred == listed_in(app.model.archived_cards@, app.filter, column),
                id_of == (|c: Card| c.id),
                r@ == cards.take(i as int).filter(pred).map_values(id_of),
                r@.len() <= i,
            decreases cards.len() - i,
        {
            let c = &self.model.cards[i];
            proof {
                assert(cards.take(i + 1) =~= cards.take(i as int).push(*c));
                cards.take(i as int).lemma_filter_push(*c, pred);
                cards.take(i as int).filter(pred).lemma_filter_len(pred);
            }
            let shown = c.column_id == column && !self.model.is_card_archived(c.id) && !(
            self.filter.hide_assigned_cards && c.sprint_id.is_some()) && (self.filter.active_sprint_filters.len() == 0
                || match c.sprint_id {
                Some(s) => super::model::contains_id(&self.filter.active_sprint_filters, s),
                None => false,
            });
            let ghost before = r@;
            if shown {
                r.push(c.id);
                proof {
                    assert(r@ =~= cards.take(i as int).filter(pred).push(*c).map_values(id_of));
                }
            }
            proof {
                cards.take(i + 1).lemma_filter_len(pred);
                cards.take(i as int).lemma_filter_len(pred);
            }
            i = i + 1;
        }
        proof {
            assert(cards.take(cards.len() as int) =~= cards);
        }
        r
    }

    /// The task query of the active board, when a board is active.
    pub fn task_query(&self) -> (r: Option<Vec<(EntityId, Vec<EntityId>)>>)
        ensures
            match r {
                Some(cols) => is_task_query(*self, cols@),
                None => self.active_board_index().is_none(),
            },
    {
        let bi = match self.active_board() {
            Some(bi) => bi,
            None => {
                return None;
            },
        };
        let board_id = self.model.boards[bi].id;
        let order = self.sorted_board_columns(board_id);
        proof {
            let o = choose|o: Seq<usize>| board_columns_ordered(self.model.columns@, board_id, o);
            lemma_board_columns_unique(self.model.columns@, board_id, order@, o);
        }
        let mut cols: Vec<(EntityId, Vec<EntityId>)> = Vec::new();
        let mut k: usize = 0;
        while k < order.len()
            invariant
                k <= order@.len(),
                active_column_order(*self) == Some(order@),
                forall|m: int| 0 <= m < order@.len() ==> (#[trigger] order@[m]) < self.model.columns@.len(),
                cols@.len() == k,
                forall|m: int|
                    0 <= m < k ==> (#[trigger] cols@[m]).0 == self.model.columns@[order@[m] as int].id && cols@[m].1@
                        == column_card_ids(*self, self.model.columns@[order@[m] as int].id),
            decreases order@.len() - k,
        {
            let column = self.model.columns[order[k]].id;
            let ids = self.column_task_ids(column);
            cols.push((column, ids));
            k = k + 1;
        }
        Some(cols)
    }

    /// Fills the task lists from the task query of the active board (see
    /// `ViewState::refresh_lists`): the flat list gets every listed card of
    /// the board, column by column. Nothing changes without an active
    /// board, or when the listed cards would not fit the list's bounds.
    pub fn refresh_view(&mut self)
        requires
            old(self).well_formed(),
        ensures
            final(self).well_formed(),
            old(self).unchanged_except(final(self), (Touched { view: true, ..untouched() })),
            final(self).view.viewport_height == old(self).view.viewport_height,
            final(self).view.layout == old(self).view.layout,
            old(self).active_board_index().is_none() || board_task_ids(*old(self)).len() + MAX_VIEWPORT_HEIGHT
                > usize::MAX ==> final(self).view == old(self).view,
            old(self).active_board_index().is_some() && board_task_ids(*old(self)).len() + MAX_VIEWPORT_HEIGHT
                <= usize::MAX ==> refreshed_from_query(*old(self), final(self).view),
    {
        let cols = match self.task_query() {
            Some(cols) => cols,
            None => {
                return;
            },
        };
        let ghost o = active_column_order(*self).unwrap();
        proof {
            lemma_concat_is_cards_in_columns(*self, cols@, o);
        }
        let all = match concat_within_bounds(&cols) {
            Some(all) => all,
            None => {
                return;
            },
        };
        self.view.refresh_lists(all, cols);
    }
}

/// `view` is the task lists of `app` filled from its task query.
pub open spec fn refreshed_from_query(app: App, view: super::view::ViewState) -> bool {
    let before = app.view;
    let o = active_column_order(app).unwrap();
    &&& view.viewport_height == before.viewport_height
    &&& view.layout == before.layout
    &&& view.layout != super::model::TaskListView::ColumnView ==> {
        &&& view.lists@.len() == 1
        &&& super::view::refreshed_list(before.lists@[0], board_task_ids(app), view.lists@[0])
    }
    &&& view.layout == super::model::TaskListView::ColumnView ==> {
        &&& view.lists@.len() == o.len()
        &&& forall|k: int|
            0 <= k < o.len() ==> super::view::refreshed_column(
                before.lists@,
                app.model.columns@[o[k] as int].id,
                column_card_ids(app, app.model.columns@[o[k] as int].id),
                #[trigger] view.lists@[k],
            )
        &&& view.active_column == if before.active_column >= o.len() {
            if o.len() == 0 {
                0
            } else {
                (o.len() - 1) as usize
            }
        } else {
            before.active_column
        }
    }
}

/// The first row of a list of `cards`, if it has one.
pub open spec fn first_row_of(cards: Seq<EntityId>) -> Option<usize> {
    if cards.len() > 0 {
        Some(0usize)
    } else {
        None
    }
}

/// `view` is a `layout` task panel `height` rows high freshly filled from
/// the task query of `app`'s active board, its first row selected: one list
/// of the board's listed cards (flat and grouped layouts) or one list per
/// column (kanban layout, first column focused). When the listed cards would
/// not fit the list bounds the panel stays empty.
pub open spec fn fresh_tasks_shown(app: App, view: ViewState, height: usize, layout: TaskListView) -> bool {
    let o = active_column_order(app).unwrap();
    &&& view.viewport_height == height
    &&& view.layout == layout
    &&& if board_task_ids(app).len() + MAX_VIEWPORT_HEIGHT <= usize::MAX {
        &&& layout != TaskListView::ColumnView ==> {
            &&& view.lists@.len() == 1
            &&& view.lists@[0].id == CardListId::All
            &&& view.lists@[0].cards@ == board_task_ids(app)
            &&& view.lists@[0].selected == first_row_of(board_task_ids(app))
            &&& view.lists@[0].scroll_offset == 0
        }
        &&& layout == TaskListView::ColumnView ==> {
            &&& view.lists@.len() == o.len()
            &&& view.active_column == 0
            &&& forall|k: int|
                0 <= k < o.len() ==> {
                    let col = app.model.columns@[o[k] as int].id;
                    &&& (#[trigger] view.lists@[k]).id == CardListId::Column(col)
                    &&& view.lists@[k].cards@ == column_card_ids(app, col)
                    &&& view.lists@[k].selected == first_row_of(column_card_ids(app, col))
                    &&& view.lists@[k].scroll_offset == 0
                }
        }
    } else {
        view.is_fresh(height, layout)
    }
}

/// The task query reads the model, the filters and the active board alone.
pub proof fn lemma_query_reads(a: App, b: App)
    requires
        a.model == b.model,
        a.filter == b.filter,
        a.selection == b.selection,
    ensures
        active_column_order(a) == active_column_order(b),
        board_task_ids(a) == board_task_ids(b),
        forall|col: EntityId| #[trigger] column_card_ids(a, col) == column_card_ids(b, col),
{
    assert(active_column_order(a) == active_column_order(b));
    if let Some(o) = active_column_order(a) {
        lemma_cards_in_columns_same(a, b, o);
    }
}

proof fn lemma_cards_in_columns_same(a: App, b: App, o: Seq<usize>)
    requires
        a.model == b.model,
        a.filter == b.filter,
    ensures
        cards_in_columns(a, o) == cards_in_columns(b, o),
    decreases o.len(),
{
    if o.len() > 0 {
        lemma_cards_in_columns_same(a, b, o.drop_last());
    }
}

/// Filling a freshly switched panel from the query and then selecting its
/// first row gives `fresh_tasks_shown`.
pub proof fn lemma_first_fill(s1: App, v2: ViewState, v3: ViewState)
    requires
        s1.view.is_fresh(s1.view.viewport_height, s1.view.layout),
        s1.active_board_index().is_some(),
        s1.active_board_index().is_some() && board_task_ids(s1).len() + MAX_VIEWPORT_HEIGHT <= usize::MAX
            ==> refreshed_from_query(s1, v2),
        board_task_ids(s1).len() + MAX_VIEWPORT_HEIGHT > usize::MAX ==> v2 == s1.view,
        v2.viewport_height == s1.view.viewport_height,
        v2.layout == s1.view.layout,
        first_row_selected(v2, v3),
    ensures
        fresh_tasks_shown(s1, v3, s1.view.viewport_height, s1.view.layout),
{
    let h = s1.view.viewport_height;
    let o = active_column_order(s1).unwrap();
    if board_task_ids(s1).len() + MAX_VIEWPORT_HEIGHT <= usize::MAX {
        if s1.view.layout != TaskListView::ColumnView {
            assert(s1.view.lists@[0].selected_card().is_none());
            assert(v2.active_index() == 0);
        } else {
            assert forall|k: int| 0 <= k < o.len() implies {
                let col = s1.model.columns@[o[k] as int].id;
                &&& (#[trigger] v3.lists@[k]).id == CardListId::Column(col)
                &&& v3.lists@[k].cards@ == column_card_ids(s1, col)
                &&& v3.lists@[k].selected == first_row_of(column_card_ids(s1, col))
                &&& v3.lists@[k].scroll_offset == 0
            } by {
                let col = s1.model.columns@[o[k] as int].id;
                assert(super::view::list_position(s1.view.lists@, CardListId::Column(col)).is_none());
                assert(super::view::refreshed_column(
                    s1.view.lists@,
                    col,
                    column_card_ids(s1, col),
                    v2.lists@[k],
                ));
            }
        }
    }
}

/// The task list of a column under the filters: every live card of the
/// column shows when it is in one of the chosen sprints (any of them) and
/// assigned cards are not hidden, or, with no sprint chosen, when it is not
/// hidden as assigned; and nothing else shows.
pub proof fn law_column_list_keeps_every_chosen_sprint(app: App, column: EntityId)
    ensures
        ({
            let cards = app.model.cards@;
            let archived = app.model.archived_cards@;
            let chosen = app.filter.active_sprint_filters@;
            let shown = column_card_ids(app, column);
            &&& forall|i: int, k: int|
                0 <= i < cards.len() && 0 <= k < chosen.len() && cards[i].column_id == column && !is_archived_card(
                    archived,
                    cards[i].id,
                ) && !app.filter.hide_assigned_cards && #[trigger] cards[i].sprint_id == Some(#[trigger] chosen[k])
                    ==> shown.contains(cards[i].id)
            &&& chosen.len() == 0 ==> forall|i: int|
                0 <= i < cards.len() && (#[trigger] cards[i]).column_id == column && !is_archived_card(archived, cards[i].id)
                    && !(app.filter.hide_assigned_cards && cards[i].sprint_id.is_some()) ==> shown.contains(cards[i].id)
            &&& forall|id: EntityId| #[trigger] shown.contains(id) ==> exists|i: int| {
                &&& 0 <= i < cards.len()
                &&& (#[trigger] cards[i]).id == id
                &&& cards[i].column_id == column
                &&& !is_archived_card(archived, id)
                &&& !(app.filter.hide_assigned_cards && cards[i].sprint_id.is_some())
                &&& (chosen.len() == 0 || exists|k: int| 0 <= k < chosen.len() && cards[i].sprint_id == Some(chosen[k]))
            }
        }),
{
    let cards = app.model.cards@;
    let archived = app.model.archived_cards@;
    let chosen = app.filter.active_sprint_filters@;
    let pred = listed_in(archived, app.filter, column);
    let id_of = |c: Card| c.id;
    let kept = cards.filter(pred);
    let shown = column_card_ids(app, column);
    assert(shown == kept.map_values(id_of));
    assert forall|i: int| 0 <= i < cards.len() && pred(cards[i]) implies shown.contains(cards[i].id) by {
        cards.lemma_filter_contains(pred, i);
        let j = choose|j: int| 0 <= j < kept.len() && kept[j] == cards[i];
        assert(shown[j] == cards[i].id);
    }
    assert forall|i: int, k: int|
        0 <= i < cards.len() && 0 <= k < chosen.len() && cards[i].column_id == column && !is_archived_card(
            archived,
            cards[i].id,
        ) && !app.filter.hide_assigned_cards && #[trigger] cards[i].sprint_id == Some(#[trigger] chosen[k])
        implies shown.contains(cards[i].id) by {
        assert(chosen.contains(chosen[k]));
        assert(pred(cards[i]));
    }
    assert forall|i: int|
        chosen.len() == 0 && 0 <= i < cards.len() && (#[trigger] cards[i]).column_id == column && !is_archived_card(
            archived,
            cards[i].id,
        ) && !(app.filter.hide_assigned_cards && cards[i].sprint_id.is_some()) implies shown.contains(cards[i].id) by {
        assert(pred(cards[i]));
    }
    assert forall|id: EntityId| #[trigger] shown.contains(id) implies exists|i: int| {
        &&& 0 <= i < cards.len()
        &&& (#[trigger] cards[i]).id == id
        &&& cards[i].column_id == column
        &&& !is_archived_card(archived, id)
        &&& !(app.filter.hide_assigned_cards && cards[i].sprint_id.is_some())
        &&& (chosen.len() == 0 || exists|k: int| 0 <= k < chosen.len() && cards[i].sprint_id == Some(chosen[k]))
    } by {
        let j = choose|j: int| 0 <= j < shown.len() && shown[j] == id;
        cards.lemma_filter_pred(pred, j);
        let c = kept[j];
        assert(c.id == id);
        assert(kept.contains(c));
        cards.lemma_filter_contains_rev(pred, c);
        let i = choose|i: int| 0 <= i < cards.len() && cards[i] == c;
        assert(cards[i] == c);
        if chosen.len() > 0 {
            let s = c.sprint_id.unwrap();
            let k = choose|k: int| 0 <= k < chosen.len() && chosen[k] == s;
            assert(cards[i].sprint_id == Some(chosen[k]));
        }
    }
}

} // verus!
