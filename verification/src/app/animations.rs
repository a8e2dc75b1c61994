//! Archive, restore and permanent delete of cards: each starts an
//! animation for the cards concerned, after which the operation takes effect.

use super::components::position_of;
use super::board_detail::board_columns_ordered;
use super::components::CardList;
use super::model::{card_index, is_archived_card, ArchivedCard, Card, Column, EntityId, KanbanModel};
use super::modes::{AppMode, Focus};
use super::state::{untouched, AnimationKind, App, Touched};
use vstd::prelude::*;

verus! {

/// Card ids of the animation entries, in order.
pub open spec fn animated_ids(entries: Seq<(EntityId, AnimationKind)>) -> Seq<EntityId> {
    entries.map_values(|e: (EntityId, AnimationKind)| e.0)
}

/// `entries` with `id` animated as `kind`: its entry is replaced when it
/// has one, else one is added.
pub open spec fn with_animation(
    entries: Seq<(EntityId, AnimationKind)>,
    id: EntityId,
    kind: AnimationKind,
) -> Seq<(EntityId, AnimationKind)> {
    match position_of(animated_ids(entries), id) {
        Some(i) => entries.update(i, (id, kind)),
        None => entries.push((id, kind)),
    }
}

/// A card can be animated as `kind`: a card of the model for an archive, an
/// archived card for a restore or a permanent delete.
pub open spec fn animatable(model: KanbanModel, id: EntityId, kind: AnimationKind) -> bool {
    match kind {
        AnimationKind::Archiving => card_index(model.cards@, id).is_some(),
        _ => is_archived_card(model.archived_cards@, id),
    }
}

/// `entries` after animating, in order, each of `ids` that can be animated.
pub open spec fn with_animations(
    entries: Seq<(EntityId, AnimationKind)>,
    model: KanbanModel,
    ids: Seq<EntityId>,
    kind: AnimationKind,
) -> Seq<(EntityId, AnimationKind)>
    decreases ids.len(),
{
    if ids.len() == 0 {
        entries
    } else {
        let before = with_animations(entries, model, ids.drop_last(), kind);
        if animatable(model, ids.last(), kind) {
            with_animation(before, ids.last(), kind)
        } else {
            before
        }
    }
}

/// Animates `id` as `kind` in `entries`.
fn put_animation(entries: &mut Vec<(EntityId, AnimationKind)>, id: EntityId, kind: AnimationKind)
    ensures
        final(entries)@ == with_animation(old(entries)@, id, kind),
{
    let ghost keys = animated_ids(entries@);
    proof {
        super::components::lemma_position_of(keys, id);
    }
    let mut i: usize = 0;
    while i < entries.len()
        invariant
            i <= entries@.len(),
            keys == animated_ids(entries@),
            entries@ == old(entries)@,
            forall|j: int| 0 <= j < i ==> keys[j] != id,
            match position_of(keys, id) {
                Some(k) => 0 <= k < keys.len() && keys[k] == id && forall|j: int| 0 <= j < k ==> keys[j] != id,
                None => !keys.contains(id),
            },
        decreases entries@.len() - i,
    {
        if entries[i].0 == id {
            assert(keys[i as int] == id);
            entries.set(i, (id, kind));
            return;
        }
        assert(keys[i as int] != id);
        i = i + 1;
    }
    proof {
        if keys.contains(id) {
            let k = choose|k: int| 0 <= k < keys.len() && keys[k] == id;
            assert(keys[k] != id);
        }
    }
    entries.push((id, kind));
}

impl App {
    /// Animates `id` as `kind` when it can be animated.
    fn start_animation(&mut self, id: EntityId, kind: AnimationKind)
        requires
            old(self).well_formed(),
        ensures
            old(self).unchanged_except(final(self), (Touched { animation: true, ..untouched() })),
            final(self).animation.archive_anchor == old(self).animation.archive_anchor,
            final(self).animation.animating@ == if animatable(old(self).model, id, kind) {
                with_animation(old(self).animation.animating@, id, kind)
            } else {
                old(self).animation.animating@
            },
            final(self).well_formed(),
    {
        let ok = match kind {
            AnimationKind::Archiving => self.model.card_by_id(id).is_some(),
            _ => self.model.is_card_archived(id),
        };
        if ok {
            put_animation(&mut self.animation.animating, id, kind);
        }
    }

    /// Starts the archive animation of `card_id`, when it is a card of the
    /// model.
    pub fn start_delete_animation(&mut self, card_id: EntityId)
        requires
            old(self).well_formed(),
        ensures
            old(self).unchanged_except(final(self), (Touched { animation: true, ..untouched() })),
            final(self).animation.archive_anchor == old(self).animation.archive_anchor,
            final(self).animation.animating@ == with_animations(
                old(self).animation.animating@,
                old(self).model,
                seq![card_id],
                AnimationKind::Archiving,
            ),
            final(self).well_formed(),
    {
        let ghost before = *self;
        self.start_animation(card_id, AnimationKind::Archiving);
        proof {
            let one = seq![card_id];
            assert(one.drop_last() =~= Seq::<EntityId>::empty());
            assert(one.last() == card_id);
            assert(with_animations(before.animation.animating@, before.model, one.drop_last(), AnimationKind::Archiving)
                == before.animation.animating@);
        }
    }

    /// Starts the archive animation of each of `ids` that is a card of the
    /// model.
    pub fn start_delete_animations_for_card_ids(&mut self, ids: Vec<EntityId>)
        requires
            old(self).well_formed(),
        ensures
            old(self).unchanged_except(final(self), (Touched { animation: true, ..untouched() })),
            final(self).animation.archive_anchor == old(self).animation.archive_anchor,
            final(self).animation.animating@ == with_animations(
                old(self).animation.animating@,
                old(self).model,
                ids@,
                AnimationKind::Archiving,
            ),
            final(self).well_formed(),
    {
        let ghost start = *self;
        let mut i: usize = 0;
        while i < ids.len()
            invariant
                i <= ids@.len(),
                start == *old(self),
                start.unchanged_except(self, (Touched { animation: true, ..untouched() })),
                self.animation.archive_anchor == old(self).animation.archive_anchor,
                self.model == old(self).model,
                self.animation.animating@ == with_animations(
                    old(self).animation.animating@,
                    old(self).model,
                    ids@.take(i as int),
                    AnimationKind::Archiving,
                ),
                self.well_formed(),
            decreases ids@.len() - i,
        {
            proof {
                assert(ids@.take(i + 1).drop_last() =~= ids@.take(i as int));
            }
            self.start_animation(ids[i], AnimationKind::Archiving);
            i = i + 1;
        }
        proof {
            assert(ids@.take(ids@.len() as int) =~= ids@);
        }
    }

    /// Animates every selected card as `kind`, then leaves selection mode
    /// with an empty selection.
    fn start_animations_for_selected(&mut self, kind: AnimationKind)
        requires
            old(self).well_formed(),
        ensures
            old(self).unchanged_except(final(self), (Touched { animation: true, multi_select: true, ..untouched() })),
            final(self).animation.archive_anchor == old(self).animation.archive_anchor,
            final(self).animation.animating@ == with_animations(
                old(self).animation.animating@,
                old(self).model,
                old(self).multi_select.selected_cards@,
                kind,
            ),
            final(self).multi_select.selected_cards@.len() == 0,
            !final(self).multi_select.selection_mode_active,
            final(self).multi_select.board_selection_mode_active
                == old(self).multi_select.board_selection_mode_active,
            final(self).multi_select.selected_boards == old(self).multi_select.selected_boards,
            final(self).well_formed(),
    {
        let mut ids: Vec<EntityId> = Vec::new();
        std::mem::swap(&mut ids, &mut self.multi_select.selected_cards);
        let ghost start = *self;
        let mut i: usize = 0;
        while i < ids.len()
            invariant
                i <= ids@.len(),
                ids@ == old(self).multi_select.selected_cards@,
                start.unchanged_except(self, (Touched { animation: true, ..untouched() })),
                self.animation.archive_anchor == old(self).animation.archive_anchor,
                self.model == old(self).model,
                self.animation.animating@ == with_animations(
                    old(self).animation.animating@,
                    old(self).model,
                    ids@.take(i as int),
                    kind,
                ),
                self.well_formed(),
            decreases ids@.len() - i,
        {
            proof {
                assert(ids@.take(i + 1).drop_last() =~= ids@.take(i as int));
            }
            let id = ids[i];
            self.start_animation(id, kind);
            i = i + 1;
        }
        proof {
            assert(ids@.take(ids@.len() as int) =~= ids@);
        }
        self.multi_select.selection_mode_active = false;
    }

    /// Column and position of the card under the cursor.
    pub open spec fn cursor_anchor(&self) -> Option<(EntityId, i32)> {
        match self.view.active_selected_card_spec() {
            Some(id) => match card_index(self.model.cards@, id) {
                Some(i) => Some((self.model.cards@[i].column_id, self.model.cards@[i].position)),
                None => None,
            },
            None => None,
        }
    }

    fn cursor_archive_anchor(&self) -> (r: Option<(EntityId, i32)>)
        ensures
            r == self.cursor_anchor(),
    {
        let card_id = self.view.active_selected_card()?;
        let i = self.model.card_by_id(card_id)?;
        Some((self.model.cards[i].column_id, self.model.cards[i].position))
    }

    /// The cards an archive, restore or delete applies to: the selection,
    /// or else the card under the cursor.
    fn animate_selection_or_cursor(&mut self, kind: AnimationKind)
        requires
            old(self).well_formed(),
        ensures
            old(self).unchanged_except(final(self), (Touched { animation: true, multi_select: true, ..untouched() })),
            final(self).animation.archive_anchor == old(self).animation.archive_anchor,
            old(self).multi_select.selected_cards@.len() > 0 ==> {
                &&& final(self).animation.animating@ == with_animations(
                    old(self).animation.animating@,
                    old(self).model,
                    old(self).multi_select.selected_cards@,
                    kind,
                )
                &&& final(self).multi_select.selected_cards@.len() == 0
                &&& !final(self).multi_select.selection_mode_active
                &&& final(self).multi_select.board_selection_mode_active
                    == old(self).multi_select.board_selection_mode_active
                &&& final(self).multi_select.selected_boards == old(self).multi_select.selected_boards
            },
            old(self).multi_select.selected_cards@.len() == 0 ==> {
                &&& final(self).multi_select == old(self).multi_select
                &&& final(self).animation.animating@ == match old(self).view.active_selected_card_spec() {
                    Some(id) => if animatable(old(self).model, id, kind) {
                        with_animation(old(self).animation.animating@, id, kind)
                    } else {
                        old(self).animation.animating@
                    },
                    None => old(self).animation.animating@,
                }
            },
            final(self).well_formed(),
    {
        if self.multi_select.selected_cards.len() > 0 {
            self.start_animations_for_selected(kind);
        } else if let Some(card_id) = self.view.active_selected_card() {
            self.start_animation(card_id, kind);
        }
    }

    /// `d` in the tasks panel: remembers where the cursor was and starts the
    /// archive animation of the selected cards, or else of the card under
    /// the cursor.
    pub fn handle_archive_card(&mut self)
        requires
            old(self).well_formed(),
        ensures
            final(self).well_formed(),
            old(self).focus.active != Focus::Cards ==> old(self).unchanged_except(final(self), untouched()),
            old(self).focus.active == Focus::Cards ==> {
                &&& final(self).animation.archive_anchor == old(self).cursor_anchor()
                &&& animations_started(*old(self), *final(self), AnimationKind::Archiving)
            },
    {
        if self.focus.active != Focus::Cards {
            return;
        }
        self.animation.archive_anchor = self.cursor_archive_anchor();
        self.animate_selection_or_cursor(AnimationKind::Archiving);
    }

    /// In the archived-cards view: starts the restore animation of the
    /// selected cards, or else of the card under the cursor.
    pub fn handle_restore_card(&mut self)
        requires
            old(self).well_formed(),
        ensures
            final(self).well_formed(),
            old(self).mode != AppMode::ArchivedCardsView ==> old(self).unchanged_except(final(self), untouched()),
            old(self).mode == AppMode::ArchivedCardsView ==> final(self).animation.archive_anchor == old(
                self,
            ).animation.archive_anchor && animations_started(*old(self), *final(self), AnimationKind::Restoring),
    {
        if !self.mode.is_archived_cards_view() {
            return;
        }
        self.animate_selection_or_cursor(AnimationKind::Restoring);
    }

    /// In the archived-cards view: starts the permanent-delete animation of
    /// the selected cards, or else of the card under the cursor.
    pub fn handle_delete_card_permanent(&mut self)
        requires
            old(self).well_formed(),
        ensures
            final(self).well_formed(),
            old(self).mode != AppMode::ArchivedCardsView ==> old(self).unchanged_except(final(self), untouched()),
            old(self).mode == AppMode::ArchivedCardsView ==> final(self).animation.archive_anchor == old(
                self,
            ).animation.archive_anchor && animations_started(*old(self), *final(self), AnimationKind::Deleting),
    {
        if !self.mode.is_archived_cards_view() {
            return;
        }
        self.animate_selection_or_cursor(AnimationKind::Deleting);
    }

    /// Starts the restore animation of `card_id`, when it is an archived card.
    pub fn start_restore_animation(&mut self, card_id: EntityId)
        requires
            old(self).well_formed(),
        ensures
            animation_started(*old(self), *final(self), card_id, AnimationKind::Restoring),
            final(self).well_formed(),
    {
        self.start_animation(card_id, AnimationKind::Restoring);
    }

    /// Starts the permanent-delete animation of `card_id`, when it is an
    /// archived card.
    pub fn start_permanent_delete_animation(&mut self, card_id: EntityId)
        requires
            old(self).well_formed(),
        ensures
            animation_started(*old(self), *final(self), card_id, AnimationKind::Deleting),
            final(self).well_formed(),
    {
        self.start_animation(card_id, AnimationKind::Deleting);
    }

    /// Starts the archive animation of every selected card, then leaves
    /// selection mode with an empty selection.
    pub fn start_delete_animations_for_selected(&mut self)
        requires
            old(self).well_formed(),
            old(self).multi_select.selected_cards@.len() > 0,
        ensures
            animations_started(*old(self), *final(self), AnimationKind::Archiving),
            final(self).animation.archive_anchor == old(self).animation.archive_anchor,
            final(self).well_formed(),
    {
        self.start_animations_for_selected(AnimationKind::Archiving);
    }

    /// Starts the restore animation of every selected card, then leaves
    /// selection mode with an empty selection.
    pub fn start_restore_animations_for_selected(&mut self)
        requires
            old(self).well_formed(),
            old(self).multi_select.selected_cards@.len() > 0,
        ensures
            animations_started(*old(self), *final(self), AnimationKind::Restoring),
            final(self).animation.archive_anchor == old(self).animation.archive_anchor,
            final(self).well_formed(),
    {
        self.start_animations_for_selected(AnimationKind::Restoring);
    }

    /// Starts the permanent-delete animation of every selected card, then
    /// leaves selection mode with an empty selection.
    pub fn start_permanent_delete_animations_for_selected(&mut self)
        requires
            old(self).well_formed(),
            old(self).multi_select.selected_cards@.len() > 0,
        ensures
            animations_started(*old(self), *final(self), AnimationKind::Deleting),
            final(self).animation.archive_anchor == old(self).animation.archive_anchor,
            final(self).well_formed(),
    {
        self.start_animations_for_selected(AnimationKind::Deleting);
    }

    /// Position of the first card of column `column` at or after `position`,
    /// else of the last card of that column.
    fn card_after_deletion(&self, column: EntityId, position: i32) -> (r: Option<EntityId>)
        ensures
            r == card_after_deletion_spec(self.model.cards@, column, position),
    {
        let mut i: usize = 0;
        while i < self.model.cards.len()
            invariant
                i <= self.model.cards@.len(),
                first_at_or_after(self.model.cards@.take(i as int), column, position).is_none(),
            decreases self.model.cards@.len() - i,
        {
            proof {
                assert(self.model.cards@.take(i + 1).drop_last() =~= self.model.cards@.take(i as int));
            }
            if self.model.cards[i].column_id == column && self.model.cards[i].position >= position {
                proof {
                    lemma_first_at_or_after_prefix(self.model.cards@, column, position, i as int);
                }
                return Some(self.model.cards[i].id);
            }
            i = i + 1;
        }
        proof {
            assert(self.model.cards@.take(self.model.cards@.len() as int) =~= self.model.cards@);
        }
        let mut j: usize = self.model.cards.len();
        while j > 0
            invariant
                j <= self.model.cards@.len(),
                last_in_column(self.model.cards@, column) == last_in_column(self.model.cards@.take(j as int), column),
                first_at_or_after(self.model.cards@, column, position).is_none(),
            decreases j,
        {
            proof {
                assert(self.model.cards@.take(j as int).drop_last() =~= self.model.cards@.take(j - 1));
            }
            if self.model.cards[j - 1].column_id == column {
                return Some(self.model.cards[j - 1].id);
            }
            j = j - 1;
        }
        None
    }

    /// After a card of column `column` at `position` went away, selects the
    /// first card of that column at or after that position, or else the last
    /// card of the column; nothing happens when the column has no card.
    pub fn select_card_after_deletion(&mut self, column: EntityId, position: i32)
        requires
            old(self).well_formed(),
        ensures
            final(self).well_formed(),
            match card_after_deletion_spec(old(self).model.cards@, column, position) {
                Some(id) => {
                    &&& old(self).unchanged_except(final(self), (Touched { view: true, ..untouched() }))
                    &&& final(self).view.viewport_height == old(self).view.viewport_height
                    &&& final(self).view.layout == old(self).view.layout
                    &&& final(self).view.active_column == old(self).view.active_column
                    &&& final(self).view.column_boundaries@ == old(self).view.column_boundaries@
                    &&& old(self).view.has_active_list() ==> final(self).view.lists@ == old(self).view.lists@.update(
                        old(self).view.active_index(),
                        super::card_ops::with_card_selected(old(self).view.active_list(), id),
                    )
                    &&& !old(self).view.has_active_list() ==> final(self).view == old(self).view
                },
                None => old(self).unchanged_except(final(self), untouched()),
            },
    {
        if let Some(id) = self.card_after_deletion(column, position) {
            self.select_card_by_id(id);
        }
    }

    /// Restores archived card `card_id`: its archive markers go, and it is
    /// put back at its position in its column, or, when that column is no
    /// longer one of the active board's, in the board's first column.
    /// Nothing happens for a card that is not in the model.
    pub fn restore_card(&mut self, card_id: EntityId)
        requires
            old(self).well_formed(),
        ensures
            final(self).well_formed(),
            match card_index(old(self).model.cards@, card_id) {
                None => old(self).unchanged_except(final(self), untouched()),
                Some(i) => {
                    let m = old(self).model;
                    let c = m.cards@[i];
                    &&& old(self).unchanged_except(final(self), (Touched { model: true, ..untouched() }))
                    &&& final(self).model.archived_cards@ == m.archived_cards@.filter(
                        |a: ArchivedCard| a.card_id != card_id,
                    )
                    &&& final(self).model.cards@ == m.cards@.update(
                        i,
                        Card { column_id: restore_column(*old(self), c.column_id), ..c },
                    )
                    &&& final(self).model.boards == m.boards
                    &&& final(self).model.columns == m.columns
                    &&& final(self).model.sprints == m.sprints
                    &&& final(self).model.edges == m.edges
                },
            },
    {
        let Some(i) = self.model.card_by_id(card_id) else {
            return;
        };
        let current = self.model.cards[i].column_id;
        let target = self.restore_column_exec(current);
        let ghost before = self.model;
        {
            let c = &mut self.model.cards[i];
            c.column_id = target;
        }
        proof {
            assert(self.model.cards@ =~= before.cards@.update(
                i as int,
                Card { column_id: target, ..before.cards@[i as int] },
            ));
        }
        let mut kept: Vec<ArchivedCard> = Vec::new();
        let ghost src = self.model.archived_cards@;
        let ghost pred = |a: ArchivedCard| a.card_id != card_id;
        let mut k: usize = 0;
        while k < self.model.archived_cards.len()
            invariant
                k <= self.model.archived_cards@.len(),
                self.model.archived_cards@ == src,
                pred == (|a: ArchivedCard| a.card_id != card_id),
                kept@ == src.take(k as int).filter(pred),
            decreases self.model.archived_cards@.len() - k,
        {
            let a = self.model.archived_cards[k];
            proof {
                assert(src.take(k + 1) =~= src.take(k as int).push(a));
                src.take(k as int).lemma_filter_push(a, pred);
            }
            if a.card_id != card_id {
                kept.push(a);
            }
            k = k + 1;
        }
        proof {
            assert(src.take(src.len() as int) =~= src);
        }
        self.model.archived_cards = kept;
    }

    /// Column a restored card goes back to (see `restore_column`).
    fn restore_column_exec(&self, current: EntityId) -> (r: EntityId)
        ensures
            r == restore_column(*self, current),
    {
        let Some(bi) = self.active_board() else {
            return current;
        };
        let board_id = self.model.boards[bi].id;
        let order = self.sorted_board_columns(board_id);
        proof {
            let o = choose|o: Seq<usize>| board_columns_ordered(self.model.columns@, board_id, o);
            super::board_detail::lemma_board_columns_unique(self.model.columns@, board_id, order@, o);
        }
        let mut k: usize = 0;
        while k < order.len()
            invariant
                k <= order@.len(),
                self.active_board_index() == Some(bi as int),
                bi < self.model.boards@.len(),
                board_id == self.model.boards@[bi as int].id,
                board_columns_ordered(self.model.columns@, board_id, order@),
                forall|m: int| 0 <= m < k ==> self.model.columns@[#[trigger] order@[m] as int].id != current,
            decreases order@.len() - k,
        {
            let ci = order[k];
            if self.model.columns[ci].id == current {
                proof {
                    assert(order@[k as int] == ci);
                    assert(self.model.columns@[ci as int].board_id == board_id);
                    assert(board_has_column(self.model.columns@, board_id, current));
                }
                return current;
            }
            k = k + 1;
        }
        proof {
            let cs = self.model.columns@;
            assert(cs.len() == self.model.columns.len());
            if board_has_column(cs, board_id, current) {
                let j = choose|j: int| 0 <= j < cs.len() && cs[j].board_id == board_id && cs[j].id == current;
                assert(cs[j].board_id == board_id);
                assert(order@.contains(j as usize));
                let m = choose|m: int| 0 <= m < order@.len() && order@[m] == j as usize;
                assert(cs[order@[m] as int].id != current);
                assert(false);
            }
        }
        if order.len() > 0 {
            self.model.columns[order[0]].id
        } else {
            current
        }
    }
}

/// `after` is `before` once the `kind` animation of `id` started, when `id`
/// can be animated that way.
pub open spec fn animation_started(before: App, after: App, id: EntityId, kind: AnimationKind) -> bool {
    &&& before.unchanged_except(&after, (Touched { animation: true, ..untouched() }))
    &&& after.animation.archive_anchor == before.animation.archive_anchor
    &&& after.animation.animating@ == if animatable(before.model, id, kind) {
        with_animation(before.animation.animating@, id, kind)
    } else {
        before.animation.animating@
    }
}

/// Index of the first card of `cards` in column `column` at or after
/// `position`.
pub open spec fn first_at_or_after(cards: Seq<Card>, column: EntityId, position: i32) -> Option<int>
    decreases cards.len(),
{
    if cards.len() == 0 {
        None
    } else {
        match first_at_or_after(cards.drop_last(), column, position) {
            Some(i) => Some(i),
            None => if cards.last().column_id == column && cards.last().position >= position {
                Some(cards.len() - 1)
            } else {
                None
            },
        }
    }
}

/// Index of the last card of `cards` in column `column`.
pub open spec fn last_in_column(cards: Seq<Card>, column: EntityId) -> Option<int>
    decreases cards.len(),
{
    if cards.len() == 0 {
        None
    } else if cards.last().column_id == column {
        Some(cards.len() - 1)
    } else {
        last_in_column(cards.drop_last(), column)
    }
}

/// The card to select after one of column `column` at `position` went away.
pub open spec fn card_after_deletion_spec(cards: Seq<Card>, column: EntityId, position: i32) -> Option<EntityId> {
    match first_at_or_after(cards, column, position) {
        Some(i) => Some(cards[i].id),
        None => match last_in_column(cards, column) {
            Some(i) => Some(cards[i].id),
            None => None,
        },
    }
}

/// `column` is a column of board `board`.
pub open spec fn board_has_column(columns: Seq<Column>, board: EntityId, column: EntityId) -> bool {
    exists|j: int| 0 <= j < columns.len() && columns[j].board_id == board && columns[j].id == column
}

/// Column a restored card of column `current` goes back to: that column
/// while it is one of the active board's, else the board's first column
/// (`current` when there is no active board or it has no column).
pub open spec fn restore_column(app: App, current: EntityId) -> EntityId {
    match app.active_board_index() {
        None => current,
        Some(bi) => {
            let board = app.model.boards@[bi].id;
            if board_has_column(app.model.columns@, board, current) {
                current
            } else {
                let o = choose|o: Seq<usize>| board_columns_ordered(app.model.columns@, board, o);
                if o.len() > 0 {
                    app.model.columns@[o[0] as int].id
                } else {
                    current
                }
            }
        },
    }
}

proof fn lemma_first_at_or_after_prefix(cards: Seq<Card>, column: EntityId, position: i32, i: int)
    requires
        0 <= i < cards.len(),
        cards[i].column_id == column && cards[i].position >= position,
        first_at_or_after(cards.take(i), column, position).is_none(),
    ensures
        first_at_or_after(cards, column, position) == Some(i),
    decreases cards.len(),
{
    if i < cards.len() - 1 {
        assert(cards.drop_last().take(i) =~= cards.take(i));
        lemma_first_at_or_after_prefix(cards.drop_last(), column, position, i);
    } else {
        assert(cards.drop_last() =~= cards.take(i));
    }
}

/// `after` is `before` once the `kind` animation started for the selected
/// cards (leaving selection mode with an empty selection), or, without a
/// selection, for the card under the cursor; cards that cannot be animated
/// that way are skipped.
pub open spec fn animations_started(before: App, after: App, kind: AnimationKind) -> bool {
    &&& before.unchanged_except(&after, (Touched { animation: true, multi_select: true, ..untouched() }))
    &&& started_entries(before, after, kind)
}

/// The animation entries and the selection of `after`, once the `kind`
/// animation started from `before`.
pub open spec fn started_entries(before: App, after: App, kind: AnimationKind) -> bool {
    if before.multi_select.selected_cards@.len() > 0 {
        &&& after.animation.animating@ == with_animations(
            before.animation.animating@,
            before.model,
            before.multi_select.selected_cards@,
            kind,
        )
        &&& after.multi_select.selected_cards@.len() == 0
        &&& !after.multi_select.selection_mode_active
        &&& after.multi_select.board_selection_mode_active == before.multi_select.board_selection_mode_active
        &&& after.multi_select.selected_boards == before.multi_select.selected_boards
    } else {
        &&& after.multi_select == before.multi_select
        &&& after.animation.animating@ == match before.view.active_selected_card_spec() {
            Some(id) => if animatable(before.model, id, kind) {
                with_animation(before.animation.animating@, id, kind)
            } else {
                before.animation.animating@
            },
            None => before.animation.animating@,
        }
    }
}

/// The animation `entries` give card `id`, if any.
pub open spec fn animation_of(entries: Seq<(EntityId, AnimationKind)>, id: EntityId) -> Option<AnimationKind> {
    match position_of(animated_ids(entries), id) {
        Some(i) => Some(entries[i].1),
        None => None,
    }
}

proof fn lemma_with_animation_lookup(
    entries: Seq<(EntityId, AnimationKind)>,
    id: EntityId,
    kind: AnimationKind,
    other: EntityId,
)
    ensures
        animation_of(with_animation(entries, id, kind), other) == if other == id {
            Some(kind)
        } else {
            animation_of(entries, other)
        },
{
    let keys = animated_ids(entries);
    super::components::lemma_position_of(keys, id);
    super::components::lemma_position_of(keys, other);
    match position_of(keys, id) {
        Some(i) => {
            let after = entries.update(i, (id, kind));
            assert(animated_ids(after) =~= keys);
            if other != id {
                match position_of(keys, other) {
                    Some(j) => assert(j != i),
                    None => {},
                }
            }
        },
        None => {
            let after = entries.push((id, kind));
            assert(animated_ids(after).drop_last() =~= keys);
            assert(animated_ids(after).last() == id);
        },
    }
}

proof fn lemma_with_animations_lookup(
    entries: Seq<(EntityId, AnimationKind)>,
    model: KanbanModel,
    ids: Seq<EntityId>,
    kind: AnimationKind,
    other: EntityId,
)
    ensures
        animation_of(with_animations(entries, model, ids, kind), other) == if ids.contains(other)
            && animatable(model, other, kind) {
            Some(kind)
        } else {
            animation_of(entries, other)
        },
    decreases ids.len(),
{
    if ids.len() > 0 {
        let rest = ids.drop_last();
        lemma_with_animations_lookup(entries, model, rest, kind, other);
        let before = with_animations(entries, model, rest, kind);
        if animatable(model, ids.last(), kind) {
            lemma_with_animation_lookup(before, ids.last(), kind, other);
        }
        assert(ids =~= rest.push(ids.last()));
        if rest.contains(other) {
            let k = choose|k: int| 0 <= k < rest.len() && rest[k] == other;
            assert(ids[k] == other);
        }
        if ids.contains(other) && other != ids.last() {
            let k = choose|k: int| 0 <= k < ids.len() && ids[k] == other;
            assert(rest[k] == other);
        }
    }
}

/// Archiving from the tasks panel, card by card: with cards selected, each
/// selected card of the model is animated as archiving and every other card
/// keeps the animation it had, and selection mode ends with an empty
/// selection; with no selection, the same holds of the card under the
/// cursor alone. The anchor is where the cursor was.
pub proof fn law_archive_animates_each_card(before: App, after: App)
    requires
        before.focus.active == Focus::Cards,
        after.animation.archive_anchor == before.cursor_anchor(),
        animations_started(before, after, AnimationKind::Archiving),
    ensures
        after.animation.archive_anchor == before.cursor_anchor(),
        after.model == before.model,
        before.multi_select.selected_cards@.len() > 0 ==> {
            &&& forall|id: EntityId| #[trigger] animation_of(after.animation.animating@, id) == if before.multi_select.selected_cards@.contains(id)
                && card_index(before.model.cards@, id).is_some() {
                Some(AnimationKind::Archiving)
            } else {
                animation_of(before.animation.animating@, id)
            }
            &&& after.multi_select.selected_cards@.len() == 0
            &&& !after.multi_select.selection_mode_active
        },
        before.multi_select.selected_cards@.len() == 0 ==> {
            &&& after.multi_select == before.multi_select
            &&& forall|id: EntityId| #[trigger] animation_of(after.animation.animating@, id) == if before.view.active_selected_card_spec() == Some(id)
                && card_index(before.model.cards@, id).is_some() {
                Some(AnimationKind::Archiving)
            } else {
                animation_of(before.animation.animating@, id)
            }
        },
{
    let kind = AnimationKind::Archiving;
    let entries = before.animation.animating@;
    if before.multi_select.selected_cards@.len() > 0 {
        assert forall|id: EntityId| #[trigger] animation_of(after.animation.animating@, id) == if before.multi_select.selected_cards@.contains(id)
            && card_index(before.model.cards@, id).is_some() {
            Some(kind)
        } else {
            animation_of(entries, id)
        } by {
            lemma_with_animations_lookup(entries, before.model, before.multi_select.selected_cards@, kind, id);
        }
    } else {
        assert forall|id: EntityId| #[trigger] animation_of(after.animation.animating@, id) == if before.view.active_selected_card_spec() == Some(id)
            && card_index(before.model.cards@, id).is_some() {
            Some(kind)
        } else {
            animation_of(entries, id)
        } by {
            match before.view.active_selected_card_spec() {
                Some(c) => {
                    if animatable(before.model, c, kind) {
                        lemma_with_animation_lookup(entries, c, kind, id);
                    }
                },
                None => {},
            }
        }
    }
}

} // verus!
