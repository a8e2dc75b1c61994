//! Parent/child relationships: the manage-parents and manage-children
//! dialogs, and moving between related cards in the card detail view.

use super::components::{clamp_selection, recounted, ListSelection, ScrollList};
use super::model::{
    ancestors, board_column_ids, card_index, children, column_board, contains_id, descendants, is_ancestor,
    is_archived_card, is_descendant, children_of, parents, parents_of, Card, EntityId,
};
use super::modes::{AppMode, CardFocus, DialogMode};
use super::state::{insert_id, untouched, App, FocusState, RelationshipState, SelectionState, Touched};
use vstd::prelude::*;

verus! {

/// Which relationship panel of the card detail view.
#[derive(Debug, Clone, Copy, PartialEq, Eq, Structural)]
pub enum RelationSide {
    Parents,
    Children,
}

/// Ids, in stored order, of the cards satisfying `p`.
pub open spec fn card_ids_where(cards: Seq<Card>, p: spec_fn(Card) -> bool) -> Seq<EntityId>
    decreases cards.len(),
{
    if cards.len() == 0 {
        seq![]
    } else {
        let rest = card_ids_where(cards.drop_last(), p);
        if p(cards.last()) {
            rest.push(cards.last().id)
        } else {
            rest
        }
    }
}

/// Cards the manage-parents dialog offers for `card` of `board`: cards of the
/// board other than the card and its descendants (a parent among them would
/// close a cycle); archived cards only when the card itself is archived.
pub open spec fn parent_candidate(app: App, card: EntityId, board: EntityId) -> spec_fn(Card) -> bool {
    |c: Card|
        board_column_ids(app.model.columns@, board).contains(c.column_id) && c.id != card && !is_descendant(
            app.model.edges@,
            card,
            c.id,
        ) && (is_archived_card(app.model.archived_cards@, card) || !is_archived_card(
            app.model.archived_cards@,
            c.id,
        ))
}

/// Cards the manage-children dialog offers for `card` of `board`: cards of
/// the board other than the card and its ancestors; archived cards only when
/// the card itself is archived.
pub open spec fn child_candidate(app: App, card: EntityId, board: EntityId) -> spec_fn(Card) -> bool {
    |c: Card|
        board_column_ids(app.model.columns@, board).contains(c.column_id) && c.id != card && !is_ancestor(
            app.model.edges@,
            card,
            c.id,
        ) && (is_archived_card(app.model.archived_cards@, card) || !is_archived_card(
            app.model.archived_cards@,
            c.id,
        ))
}

/// Cards the manage-children dialog offers from the task list: live cards of
/// the board other than the card and its ancestors.
pub open spec fn list_child_candidate(app: App, card: EntityId, board: EntityId) -> spec_fn(Card) -> bool {
    |c: Card|
        !is_archived_card(app.model.archived_cards@, c.id) && board_column_ids(app.model.columns@, board).contains(
            c.column_id,
        ) && c.id != card && !is_ancestor(app.model.edges@, card, c.id)
}

/// Board of the card with `card`, through its column.
pub open spec fn board_of_card(app: App, card: EntityId) -> Option<EntityId> {
    match card_index(app.model.cards@, card) {
        Some(i) => column_board(app.model.columns@, app.model.cards@[i].column_id),
        None => None,
    }
}

/// The relationship dialog state right after it opened for `offered` cards,
/// with `ticked` marked.
pub open spec fn dialog_opened(
    before: RelationshipState,
    after: RelationshipState,
    offered: Seq<EntityId>,
    ticked: Seq<EntityId>,
) -> bool {
    &&& after.card_ids@ == offered
    &&& after.selected@.no_duplicates()
    &&& forall|x: EntityId| after.selected@.contains(x) <==> ticked.contains(x)
    &&& after.selection.selected == Some(0usize)
    &&& after.search@.len() == 0
    &&& after.search_active == before.search_active
    &&& after.parents_list == before.parents_list
    &&& after.children_list == before.children_list
}

/// `ids` without repetitions, in first-occurrence order.
pub fn distinct_ids(ids: &Vec<EntityId>) -> (r: Vec<EntityId>)
    ensures
        r@.no_duplicates(),
        forall|x: EntityId| r@.contains(x) <==> ids@.contains(x),
{
    let mut r: Vec<EntityId> = Vec::new();
    let mut i: usize = 0;
    while i < ids.len()
        invariant
            i <= ids@.len(),
            r@.no_duplicates(),
            forall|x: EntityId| #[trigger] r@.contains(x) <==> ids@.take(i as int).contains(x),
        decreases ids@.len() - i,
    {
        let x = ids[i];
        let ghost before = r@;
        insert_id(&mut r, x);
        proof {
            let t = ids@.take(i as int);
            assert(ids@.take(i + 1) =~= t.push(x));
            assert forall|y: EntityId| #[trigger] r@.contains(y) <==> ids@.take(i + 1).contains(y) by {
                if ids@.take(i + 1).contains(y) && y != x {
                    let j = choose|j: int| 0 <= j < i + 1 && #[trigger] ids@.take(i + 1)[j] == y;
                    assert(t[j] == y);
                }
                if t.contains(y) {
                    let j = choose|j: int| 0 <= j < i && #[trigger] t[j] == y;
                    assert(ids@.take(i + 1)[j] == y);
                }
                if y == x {
                    assert(ids@.take(i + 1)[i as int] == y);
                }
            }
        }
        i = i + 1;
    }
    assert(ids@.take(ids@.len() as int) =~= ids@);
    r
}

impl App {
    /// Makes `card` the active card when it exists; otherwise clears it.
    pub fn set_active_card_or_clear(&mut self, card: EntityId)
        requires
            old(self).well_formed(),
        ensures
            old(self).unchanged_except(final(self), (Touched { selection: true, ..untouched() })),
            final(self).selection == (SelectionState {
                active_card_id: if card_index(old(self).model.cards@, card).is_some() {
                    Some(card)
                } else {
                    None
                },
                ..old(self).selection
            }),
            final(self).well_formed(),
    {
        if self.model.card_by_id(card).is_some() {
            self.selection.active_card_id = Some(card);
        } else {
            self.selection.active_card_id = None;
        }
    }

    /// Makes `card` the active card when it exists; reports whether it did.
    pub fn activate_card(&mut self, card: EntityId) -> (found: bool)
        requires
            old(self).well_formed(),
        ensures
            found == card_index(old(self).model.cards@, card).is_some(),
            !found ==> old(self).unchanged_except(final(self), untouched()),
            found ==> old(self).unchanged_except(final(self), (Touched { selection: true, ..untouched() }))
                && final(self).selection == (SelectionState { active_card_id: Some(card), ..old(self).selection }),
            final(self).well_formed(),
    {
        if self.model.card_by_id(card).is_some() {
            self.selection.active_card_id = Some(card);
            true
        } else {
            false
        }
    }

    /// The card the detail view shows: the active card, resolved by id.
    pub fn get_card_for_detail_view(&self) -> (r: Option<&Card>)
        ensures
            match self.selection.active_card_id {
                Some(id) => match card_index(self.model.cards@, id) {
                    Some(i) => r == Some(&self.model.cards@[i]),
                    None => r.is_none(),
                },
                None => r.is_none(),
            },
    {
        let id = self.selection.active_card_id?;
        let i = self.model.card_by_id(id)?;
        Some(&self.model.cards[i])
    }

    /// Parents of the active card (resolved by id), or none.
    pub open spec fn current_parents(&self) -> Seq<EntityId> {
        match self.selection.active_card_id {
            Some(id) => if card_index(self.model.cards@, id).is_some() {
                parents_of(self.model.edges@, id)
            } else {
                seq![]
            },
            None => seq![],
        }
    }

    /// Children of the active card (resolved by id), or none.
    pub open spec fn current_children(&self) -> Seq<EntityId> {
        match self.selection.active_card_id {
            Some(id) => if card_index(self.model.cards@, id).is_some() {
                children_of(self.model.edges@, id)
            } else {
                seq![]
            },
            None => seq![],
        }
    }

    pub fn get_current_card_parents(&self) -> (r: Vec<EntityId>)
        ensures
            r@ == self.current_parents(),
    {
        if let Some(active_id) = self.selection.active_card_id {
            if self.model.card_by_id(active_id).is_some() {
                return parents(&self.model.edges, active_id);
            }
        }
        Vec::new()
    }

    pub fn get_current_card_children(&self) -> (r: Vec<EntityId>)
        ensures
            r@ == self.current_children(),
    {
        if let Some(active_id) = self.selection.active_card_id {
            if self.model.card_by_id(active_id).is_some() {
                return children(&self.model.edges, active_id);
            }
        }
        Vec::new()
    }

    /// Resizes the parents and children panels to the active card's
    /// relationships.
    pub fn refresh_relationship_counts(&mut self)
        requires
            old(self).well_formed(),
        ensures
            old(self).unchanged_except(final(self), (Touched { relationship: true, ..untouched() })),
            final(self).relationship == (RelationshipState {
                parents_list: recounted(old(self).relationship.parents_list, old(self).current_parents().len() as usize),
                children_list: recounted(old(self).relationship.children_list, old(self).current_children().len() as usize),
                ..old(self).relationship
            }),
            final(self).relationship.parents_list.item_count == old(self).current_parents().len(),
            final(self).relationship.children_list.item_count == old(self).current_children().len(),
            final(self).well_formed(),
    {
        let parents = self.get_current_card_parents();
        let children = self.get_current_card_children();
        self.relationship.parents_list.update_item_count(parents.len());
        self.relationship.children_list.update_item_count(children.len());
    }

    pub open spec fn related(&self, side: RelationSide) -> Seq<EntityId> {
        match side {
            RelationSide::Parents => self.current_parents(),
            RelationSide::Children => self.current_children(),
        }
    }

    pub fn related_card_ids(&self, side: RelationSide) -> (r: Vec<EntityId>)
        ensures
            r@ == self.related(side),
    {
        match side {
            RelationSide::Parents => self.get_current_card_parents(),
            RelationSide::Children => self.get_current_card_children(),
        }
    }

    pub open spec fn related_selection(&self, side: RelationSide) -> Option<usize> {
        match side {
            RelationSide::Parents => self.relationship.parents_list.selection.selected,
            RelationSide::Children => self.relationship.children_list.selection.selected,
        }
    }

    /// Selected row of a relationship panel.
    pub fn list_selection(&self, side: RelationSide) -> (r: Option<usize>)
        ensures
            r == self.related_selection(side),
    {
        match side {
            RelationSide::Parents => self.relationship.parents_list.selection.get(),
            RelationSide::Children => self.relationship.children_list.selection.get(),
        }
    }

    /// Backspace in the card detail view: returns to the previously visited
    /// card (cleared when it no longer exists) and focuses its title.
    pub fn return_to_previous_card_from_detail_history(&mut self)
        requires
            old(self).well_formed(),
        ensures
            returned_to_previous(*old(self), *final(self)),
            final(self).well_formed(),
    {
        if self.selection.card_navigation_history.len() > 0 {
            let previous_id = self.selection.card_navigation_history.pop().unwrap();
            // Clear-on-miss: an externally archived previous card must not
            // strand the user on a stale card.
            self.set_active_card_or_clear(previous_id);
            self.focus.card_focus = CardFocus::Title;
            self.refresh_relationship_counts();
        }
    }

    pub fn navigate_to_selected_parent(&mut self)
        requires
            old(self).well_formed(),
        ensures
            navigated(*old(self), *final(self), RelationSide::Parents),
            final(self).well_formed(),
    {
        self.navigate_to_related_card(RelationSide::Parents);
    }

    pub fn navigate_to_selected_child(&mut self)
        requires
            old(self).well_formed(),
        ensures
            navigated(*old(self), *final(self), RelationSide::Children),
            final(self).well_formed(),
    {
        self.navigate_to_related_card(RelationSide::Children);
    }

    /// After `target` became the active card: remember `current` for
    /// Backspace, focus the title and resize the relationship panels.
    fn finish_navigation(&mut self, current: EntityId)
        requires
            old(self).well_formed(),
        ensures
            old(self).unchanged_except(
                final(self),
                (Touched { selection: true, focus: true, relationship: true, ..untouched() }),
            ),
            final(self).selection == (SelectionState {
                card_navigation_history: final(self).selection.card_navigation_history,
                ..old(self).selection
            }),
            final(self).selection.card_navigation_history@ == old(self).selection.card_navigation_history@.push(
                current,
            ),
            final(self).focus == (FocusState { card_focus: CardFocus::Title, ..old(self).focus }),
            final(self).relationship == (RelationshipState {
                parents_list: recounted(old(self).relationship.parents_list, final(self).current_parents().len() as usize),
                children_list: recounted(old(self).relationship.children_list, final(self).current_children().len() as usize),
                ..old(self).relationship
            }),
            final(self).well_formed(),
    {
        self.selection.card_navigation_history.push(current);
        self.focus.card_focus = CardFocus::Title;
        self.refresh_relationship_counts();
    }

    /// Opens the related card selected in a relationship panel (or else the
    /// first related card), remembering the current card for Backspace.
    pub fn navigate_to_related_card(&mut self, side: RelationSide)
        requires
            old(self).well_formed(),
        ensures
            navigated(*old(self), *final(self), side),
            final(self).well_formed(),
    {
        let Some(current_card_id) = self.selection.active_card_id else {
            return;
        };
        let related = self.related_card_ids(side);
        let selected_id = match self.list_selection(side) {
            Some(i) => if i < related.len() {
                Some(related[i])
            } else {
                None
            },
            None => None,
        };
        // Prefer the list selection; fall back to the first related card.
        if let Some(target_id) = selected_id {
            if self.activate_card(target_id) {
                self.finish_navigation(current_card_id);
                return;
            }
        }
        if related.len() > 0 {
            let target_id = related[0];
            if self.activate_card(target_id) {
                self.finish_navigation(current_card_id);
            }
        }
    }
}

/// The card a relationship navigation moves to, when any: the selected
/// related card if it exists, else the first related card if it exists.
/// Backspace undoes a move to a related card, also when the model was
/// reloaded in between (`reloaded` differs from the state after the move in
/// its model alone): it returns to the card the move started from, by id,
/// with the history as it was before the move and the title focused; when
/// that card is gone from the reloaded model, no card is active.
pub proof fn law_return_undoes_navigation(
    before: App,
    moved: App,
    reloaded: App,
    back: App,
    side: RelationSide,
)
    requires
        navigation_target(before, side).is_some(),
        navigated(before, moved, side),
        moved.unchanged_except(&reloaded, (Touched { model: true, ..untouched() })),
        returned_to_previous(reloaded, back),
    ensures
        back.selection.active_card_id == if card_index(reloaded.model.cards@, before.selection.active_card_id.unwrap()).is_some() {
            before.selection.active_card_id
        } else {
            None
        },
        back.selection.card_navigation_history@ == before.selection.card_navigation_history@,
        back.focus.card_focus == CardFocus::Title,
{
    assert(reloaded.selection == moved.selection);
    assert(moved.selection.card_navigation_history@.drop_last() =~= before.selection.card_navigation_history@);
}

pub open spec fn navigation_target(app: App, side: RelationSide) -> Option<EntityId> {
    let related = app.related(side);
    let selected = match app.related_selection(side) {
        Some(i) => if i < related.len() {
            Some(related[i as int])
        } else {
            None
        },
        None => None,
    };
    if app.selection.active_card_id.is_none() {
        None
    } else if selected matches Some(t) && card_index(app.model.cards@, t).is_some() {
        selected
    } else if related.len() > 0 && card_index(app.model.cards@, related[0]).is_some() {
        Some(related[0])
    } else {
        None
    }
}

/// `after` is `before` after Backspace in the card detail view: the last
/// card of the history (when there is one) is taken off it and becomes the
/// active card (none when it is gone from the model), the title gets the
/// focus and the relationship panels are resized to it.
pub open spec fn returned_to_previous(before: App, after: App) -> bool {
    if before.selection.card_navigation_history@.len() == 0 {
        before.unchanged_except(&after, untouched())
    } else {
        let previous = before.selection.card_navigation_history@.last();
        &&& before.unchanged_except(&after, (Touched { selection: true, focus: true, relationship: true, ..untouched() }))
        &&& after.selection.card_navigation_history@ == before.selection.card_navigation_history@.drop_last()
        &&& after.selection == (SelectionState {
            active_card_id: if card_index(before.model.cards@, previous).is_some() {
                Some(previous)
            } else {
                None
            },
            card_navigation_history: after.selection.card_navigation_history,
            ..before.selection
        })
        &&& after.focus == (FocusState { card_focus: CardFocus::Title, ..before.focus })
        &&& after.relationship.parents_list == recounted(
            before.relationship.parents_list,
            after.current_parents().len() as usize,
        )
        &&& after.relationship.children_list == recounted(
            before.relationship.children_list,
            after.current_children().len() as usize,
        )
        &&& after.relationship.card_ids == before.relationship.card_ids
        &&& after.relationship.selected == before.relationship.selected
        &&& after.relationship.selection == before.relationship.selection
        &&& after.relationship.search == before.relationship.search
        &&& after.relationship.search_active == before.relationship.search_active
    }
}

/// `after` is `before` after `r` (parents) or `R` (children) in the card
/// detail view: for an active card of a board, the manage dialog opens
/// with the eligible cards and the current relations ticked.
pub open spec fn relation_dialog_opened(before: App, after: App, side: RelationSide) -> bool {
    match detail_dialog_target(before) {
        None => before.unchanged_except(&after, untouched()),
        Some((card, board)) => {
            &&& before.unchanged_except(&after, (Touched { mode: true, relationship: true, ..untouched() }))
            &&& match side {
                RelationSide::Parents => dialog_opened(
                    before.relationship,
                    after.relationship,
                    card_ids_where(before.model.cards@, parent_candidate(before, card, board)),
                    parents_of(before.model.edges@, card),
                ),
                RelationSide::Children => dialog_opened(
                    before.relationship,
                    after.relationship,
                    card_ids_where(before.model.cards@, child_candidate(before, card, board)),
                    children_of(before.model.edges@, card),
                ),
            }
            &&& after.mode == AppMode::Dialog(
                match side {
                    RelationSide::Parents => DialogMode::ManageParents,
                    RelationSide::Children => DialogMode::ManageChildren,
                },
            )
            &&& after.mode_stack@ == before.mode_stack@.push(before.mode)
        },
    }
}


/// What a relationship navigation does: nothing without a target; with one,
/// the target becomes active, the previous card is pushed on the history,
/// the title is focused and the panels are resized.
pub open spec fn navigated(before: App, after: App, side: RelationSide) -> bool {
    match navigation_target(before, side) {
        None => before.unchanged_except(&after, untouched()),
        Some(target) => {
            &&& before.unchanged_except(
                &after,
                (Touched { selection: true, focus: true, relationship: true, ..untouched() }),
            )
            &&& after.selection == (SelectionState {
                active_card_id: Some(target),
                card_navigation_history: after.selection.card_navigation_history,
                ..before.selection
            })
            &&& after.selection.card_navigation_history@ == before.selection.card_navigation_history@.push(
                before.selection.active_card_id.unwrap(),
            )
            &&& after.focus == (FocusState { card_focus: CardFocus::Title, ..before.focus })
            &&& after.relationship.parents_list == recounted(
                before.relationship.parents_list,
                after.current_parents().len() as usize,
            )
            &&& after.relationship.children_list == recounted(
                before.relationship.children_list,
                after.current_children().len() as usize,
            )
            &&& after.relationship.card_ids == before.relationship.card_ids
            &&& after.relationship.selected == before.relationship.selected
            &&& after.relationship.selection == before.relationship.selection
            &&& after.relationship.search == before.relationship.search
            &&& after.relationship.search_active == before.relationship.search_active
        },
    }
}


/// The card and board a relationship dialog opened from the detail view is
/// for: the active card (by id) and the board of its column.
pub open spec fn detail_dialog_target(app: App) -> Option<(EntityId, EntityId)> {
    match app.selection.active_card_id {
        Some(id) => match card_index(app.model.cards@, id) {
            Some(i) => match column_board(app.model.columns@, app.model.cards@[i].column_id) {
                Some(board) => Some((id, board)),
                None => None,
            },
            None => None,
        },
        None => None,
    }
}

impl App {
    /// Ids of the cards in the columns `col_ids`, other than `card` and the
    /// `excluded` ones; archived cards only when `include_archived`.
    fn candidate_ids(
        &self,
        card: EntityId,
        col_ids: &Vec<EntityId>,
        excluded: &Vec<EntityId>,
        include_archived: bool,
        Ghost(p): Ghost<spec_fn(Card) -> bool>,
    ) -> (r: Vec<EntityId>)
        requires
            forall|c: Card|
                #[trigger] p(c) == (col_ids@.contains(c.column_id) && c.id != card && !excluded@.contains(c.id) && (
                include_archived || !is_archived_card(self.model.archived_cards@, c.id))),
        ensures
            r@ == card_ids_where(self.model.cards@, p),
    {
        let mut r: Vec<EntityId> = Vec::new();
        let mut k: usize = 0;
        while k < self.model.cards.len()
            invariant
                k <= self.model.cards@.len(),
                forall|c: Card|
                    #[trigger] p(c) == (col_ids@.contains(c.column_id) && c.id != card && !excluded@.contains(c.id)
                        && (include_archived || !is_archived_card(self.model.archived_cards@, c.id))),
                r@ == card_ids_where(self.model.cards@.take(k as int), p),
            decreases self.model.cards@.len() - k,
        {
            assert(self.model.cards@.take(k + 1).drop_last() =~= self.model.cards@.take(k as int));
            let id = self.model.cards[k].id;
            let column = self.model.cards[k].column_id;
            let keep = contains_id(col_ids, column) && id != card && !contains_id(excluded, id) && (include_archived
                || !self.model.is_card_archived(id));
            assert(keep == p(self.model.cards@[k as int]));
            if keep {
                r.push(id);
            }
            k = k + 1;
        }
        assert(self.model.cards@.take(self.model.cards@.len() as int) =~= self.model.cards@);
        r
    }

    /// Card of the detail view and its board, for the relationship dialogs.
    fn detail_dialog_target(&self) -> (r: Option<(EntityId, EntityId)>)
        ensures
            r == detail_dialog_target(*self),
    {
        let active_id = self.selection.active_card_id?;
        let i = self.model.card_by_id(active_id)?;
        let board = self.model.board_of_column(self.model.cards[i].column_id)?;
        Some((active_id, board))
    }

    /// Fills the relationship dialog with `offered` cards, ticks `ticked` and
    /// opens `dialog`.
    fn open_relationship_dialog(&mut self, offered: Vec<EntityId>, ticked: Vec<EntityId>, dialog: DialogMode)
        requires
            old(self).well_formed(),
        ensures
            old(self).unchanged_except(final(self), (Touched { mode: true, relationship: true, ..untouched() })),
            dialog_opened(old(self).relationship, final(self).relationship, offered@, ticked@),
            final(self).mode == AppMode::Dialog(dialog),
            final(self).mode_stack@ == old(self).mode_stack@.push(old(self).mode),
            final(self).well_formed(),
    {
        let selected = distinct_ids(&ticked);
        self.relationship.card_ids = offered;
        self.relationship.selected = selected;
        self.relationship.selection.set(Some(0));
        self.relationship.search = String::new();
        self.open_dialog(dialog);
    }

    /// Opens the manage-parents dialog for the card of the detail view.
    pub fn handle_manage_parents(&mut self)
        requires
            old(self).well_formed(),
        ensures
            relation_dialog_opened(*old(self), *final(self), RelationSide::Parents),
            final(self).well_formed(),
    {
        let Some((card_id, board_id)) = self.detail_dialog_target() else {
            return;
        };
        // Descendants are excluded: a parent among them would close a cycle.
        let excluded = descendants(&self.model.edges, card_id);
        let col_ids = self.model.column_ids_for_board(board_id);
        let target_is_archived = self.model.is_card_archived(card_id);
        let ghost p = parent_candidate(*self, card_id, board_id);
        let eligible = self.candidate_ids(card_id, &col_ids, &excluded, target_is_archived, Ghost(p));
        let current = parents(&self.model.edges, card_id);
        self.open_relationship_dialog(eligible, current, DialogMode::ManageParents);
    }

    /// Opens the manage-children dialog for the card of the detail view.
    pub fn handle_manage_children(&mut self)
        requires
            old(self).well_formed(),
        ensures
            relation_dialog_opened(*old(self), *final(self), RelationSide::Children),
            final(self).well_formed(),
    {
        let Some((card_id, board_id)) = self.detail_dialog_target() else {
            return;
        };
        // Ancestors are excluded: a child among them would close a cycle.
        let excluded = ancestors(&self.model.edges, card_id);
        let col_ids = self.model.column_ids_for_board(board_id);
        let target_is_archived = self.model.is_card_archived(card_id);
        let ghost p = child_candidate(*self, card_id, board_id);
        let eligible = self.candidate_ids(card_id, &col_ids, &excluded, target_is_archived, Ghost(p));
        let current = children(&self.model.edges, card_id);
        self.open_relationship_dialog(eligible, current, DialogMode::ManageChildren);
    }

    /// Opens the manage-children dialog for the card selected in the task
    /// list, which becomes the active card.
    pub fn handle_manage_children_from_list(&mut self)
        requires
            old(self).well_formed(),
        ensures
            match (old(self).selected_card_in_context(), old(self).active_board_index()) {
                (Some(card), Some(b)) => {
                    let board = old(self).model.boards@[b].id;
                    &&& old(self).unchanged_except(
                        final(self),
                        (Touched { mode: true, relationship: true, selection: true, ..untouched() }),
                    )
                    &&& final(self).selection == (SelectionState { active_card_id: Some(card), ..old(self).selection })
                    &&& dialog_opened(
                        old(self).relationship,
                        final(self).relationship,
                        card_ids_where(old(self).model.cards@, list_child_candidate(*old(self), card, board)),
                        children_of(old(self).model.edges@, card),
                    )
                    &&& final(self).mode == AppMode::Dialog(DialogMode::ManageChildren)
                    &&& final(self).mode_stack@ == old(self).mode_stack@.push(old(self).mode)
                },
                _ => old(self).unchanged_except(final(self), untouched()),
            },
            final(self).well_formed(),
    {
        let Some(card_id) = self.get_selected_card_in_context() else {
            return;
        };
        let Some(b) = self.active_board() else {
            return;
        };
        let board_id = self.model.boards[b].id;
        // Ancestors are excluded: a child among them would close a cycle.
        let excluded = ancestors(&self.model.edges, card_id);
        let col_ids = self.model.column_ids_for_board(board_id);
        let ghost app = *self;
        let ghost p = |c: Card|
            board_column_ids(app.model.columns@, board_id).contains(c.column_id) && c.id != card_id
                && !is_ancestor(app.model.edges@, card_id, c.id) && !is_archived_card(app.model.archived_cards@, c.id);
        let eligible = self.candidate_ids(card_id, &col_ids, &excluded, false, Ghost(p));
        proof {
            assert(p == list_child_candidate(app, card_id, board_id)) by {
                assert forall|c: Card| #[trigger] p(c) == list_child_candidate(app, card_id, board_id)(c) by {}
            }
        }
        let current = children(&self.model.edges, card_id);
        // The dialog manages the card selected in the list.
        self.set_active_card_or_clear(card_id);
        self.open_relationship_dialog(eligible, current, DialogMode::ManageChildren);
    }
}

} // verus!
