//! Keys of the card detail view: moving between its sections and through
//! the parents and children panels, and the actions on the shown card.

use super::animations::started_entries;
use super::components::{entry_rows, recounted, reselected, row_above, row_below, visible_offset, ScrollList};
use super::model::{card_index, count_where, EntityId, Sprint};
use super::modes::{AppMode, CardFocus, DialogMode, Focus, Key};
use super::relationship_handlers::{navigated, relation_dialog_opened, returned_to_previous, RelationSide};
use super::state::{untouched, AnimationKind, App, FocusState, SelectionState, Touched};
use vstd::prelude::*;

verus! {

/// Lines of a relationship panel, indicators included.
pub const RELATIONSHIP_VIEWPORT_RAW: usize = 5;

/// Work a key of the card detail view leaves to the caller.
#[derive(Debug, Clone, Copy, PartialEq, Eq, Structural)]
pub enum CardDetailAction {
    Nothing,
    /// Copy the card's branch name to the clipboard.
    CopyBranchName,
    /// Copy the `git checkout` command of the card's branch to the clipboard.
    CopyCheckoutCommand,
    /// Edit the focused field in the external editor.
    EditFocusedField,
    /// Reset the sprint picker for the active card (it lists sprints by the
    /// current time) before the assign-to-sprint dialog shows.
    PrepareSprintPicker,
}

/// A one-row move in a relationship panel: whether it was already at its
/// edge, and the panel after the move and the scroll that keeps the
/// selection among its entry rows.
pub open spec fn rel_step(l: ScrollList, down: bool) -> (bool, ScrollList) {
    let step = if down {
        row_below(l.selection.selected, l.item_count as nat)
    } else {
        row_above(l.selection.selected, l.item_count as nat)
    };
    let moved = if step.is_none() {
        l
    } else {
        reselected(l, step)
    };
    let h = entry_rows(RELATIONSHIP_VIEWPORT_RAW as int, moved.scroll_offset as int, moved.item_count as int);
    (
        step.is_none(),
        ScrollList {
            scroll_offset: visible_offset(moved.selection.selected, moved.scroll_offset, h as usize),
            ..moved
        },
    )
}

/// `l` with its selection scrolled into its entry rows.
pub open spec fn rel_shown(l: ScrollList) -> ScrollList {
    let h = entry_rows(RELATIONSHIP_VIEWPORT_RAW as int, l.scroll_offset as int, l.item_count as int);
    ScrollList { scroll_offset: visible_offset(l.selection.selected, l.scroll_offset, h as usize), ..l }
}

/// Focused section and relationship panels after a move down (`down`) or
/// up in the card detail view. Sections cycle title, metadata,
/// description, parents, children; inside the parents and children panels
/// a move walks the entries and leaves the panel at its edge (down from the
/// last parent lands on the first child, up from the first child on the
/// last parent, up from the title on the last child).
pub open spec fn detail_step(app: App, down: bool) -> (CardFocus, ScrollList, ScrollList) {
    let p = app.relationship.parents_list;
    let c = app.relationship.children_list;
    let np = app.current_parents().len();
    let nc = app.current_children().len();
    if down {
        match app.focus.card_focus {
            CardFocus::Parents => if np > 0 {
                let (edge, p2) = rel_step(p, true);
                if edge {
                    let c2 = recounted(c, nc as usize);
                    (
                        CardFocus::Children,
                        reselected(p2, None),
                        if nc > 0 {
                            reselected(c2, Some(0usize))
                        } else {
                            c2
                        },
                    )
                } else {
                    (CardFocus::Parents, p2, c)
                }
            } else {
                (CardFocus::Children, p, c)
            },
            CardFocus::Children => if nc > 0 {
                let (edge, c2) = rel_step(c, true);
                if edge {
                    (CardFocus::Title, p, reselected(c2, None))
                } else {
                    (CardFocus::Children, p, c2)
                }
            } else {
                (CardFocus::Title, p, c)
            },
            CardFocus::Title => (CardFocus::Metadata, p, c),
            CardFocus::Metadata => (CardFocus::Description, p, c),
            CardFocus::Description => (CardFocus::Parents, p, c),
        }
    } else {
        match app.focus.card_focus {
            CardFocus::Parents => if np > 0 {
                let (edge, p2) = rel_step(p, false);
                if edge {
                    (CardFocus::Description, reselected(p2, None), c)
                } else {
                    (CardFocus::Parents, p2, c)
                }
            } else {
                (CardFocus::Description, p, c)
            },
            CardFocus::Children => if nc > 0 {
                let (edge, c2) = rel_step(c, false);
                if edge {
                    let p3 = recounted(p, np as usize);
                    (
                        CardFocus::Parents,
                        if np > 0 {
                            reselected(p3, Some((np - 1) as usize))
                        } else {
                            p3
                        },
                        reselected(c2, None),
                    )
                } else {
                    (CardFocus::Children, p, c2)
                }
            } else {
                (CardFocus::Parents, p, c)
            },
            CardFocus::Title => {
                let c3 = recounted(c, nc as usize);
                (
                    CardFocus::Children,
                    p,
                    if nc > 0 {
                        rel_shown(reselected(c3, Some((nc - 1) as usize)))
                    } else {
                        c3
                    },
                )
            },
            CardFocus::Description => (CardFocus::Metadata, p, c),
            CardFocus::Metadata => (CardFocus::Title, p, c),
        }
    }
}

/// `after` is `before` with only the detail focus and the two relationship
/// panels changed, to `step`.
pub open spec fn detail_moved_to(before: App, after: App, step: (CardFocus, ScrollList, ScrollList)) -> bool {
    &&& before.unchanged_except(&after, (Touched { focus: true, relationship: true, ..untouched() }))
    &&& after.focus == (FocusState { card_focus: step.0, ..before.focus })
    &&& after.relationship.parents_list == step.1
    &&& after.relationship.children_list == step.2
    &&& after.relationship.card_ids == before.relationship.card_ids
    &&& after.relationship.selected == before.relationship.selected
    &&& after.relationship.selection == before.relationship.selection
    &&& after.relationship.search == before.relationship.search
    &&& after.relationship.search_active == before.relationship.search_active
}

/// The mode after leaving the current one.
pub open spec fn popped(before: App, after: App) -> bool {
    if before.mode_stack@.len() > 0 {
        after.mode == before.mode_stack@.last() && after.mode_stack@ == before.mode_stack@.drop_last()
    } else {
        after.mode == AppMode::Normal && after.mode_stack@ == before.mode_stack@
    }
}

/// `after` is `before` with `dialog` opened over the current mode.
pub open spec fn dialog_over(before: App, after: App, dialog: DialogMode) -> bool {
    &&& before.unchanged_except(&after, (Touched { mode: true, ..untouched() }))
    &&& after.mode == AppMode::Dialog(dialog)
    &&& after.mode_stack@ == before.mode_stack@.push(before.mode)
}

/// Esc: back to the previous mode, with no active card, the title
/// focused, no relationship selected and an empty history.
pub open spec fn detail_closed(before: App, after: App) -> bool {
    &&& before.unchanged_except(
        &after,
        (Touched { mode: true, selection: true, focus: true, relationship: true, ..untouched() }),
    )
    &&& popped(before, after)
    &&& after.selection == (SelectionState {
        active_card_id: None,
        card_navigation_history: after.selection.card_navigation_history,
        ..before.selection
    })
    &&& after.selection.card_navigation_history@.len() == 0
    &&& after.focus == (FocusState { card_focus: CardFocus::Title, ..before.focus })
    &&& after.relationship.parents_list == reselected(before.relationship.parents_list, None)
    &&& after.relationship.children_list == reselected(before.relationship.children_list, None)
    &&& after.relationship.card_ids == before.relationship.card_ids
    &&& after.relationship.selected == before.relationship.selected
    &&& after.relationship.selection == before.relationship.selection
    &&& after.relationship.search == before.relationship.search
    &&& after.relationship.search_active == before.relationship.search_active
}

/// `d`: the archive of the shown card (or of the selection) starts, and
/// the view closes back to the previous mode with no active card.
pub open spec fn archived_from_detail(before: App, after: App) -> bool {
    &&& before.unchanged_except(
        &after,
        (Touched { animation: true, multi_select: true, mode: true, selection: true, focus: true, ..untouched() }),
    )
    &&& if before.focus.active == Focus::Cards {
        &&& after.animation.archive_anchor == before.cursor_anchor()
        &&& started_entries(before, after, AnimationKind::Archiving)
    } else {
        &&& after.animation == before.animation
        &&& after.multi_select == before.multi_select
    }
    &&& popped(before, after)
    &&& after.selection == (SelectionState { active_card_id: None, ..before.selection })
    &&& after.focus == (FocusState { card_focus: CardFocus::Title, ..before.focus })
}

/// The active board has sprints to assign the card to.
pub open spec fn board_has_sprints(app: App) -> bool {
    match app.active_board_index() {
        Some(i) => count_where(app.model.sprints@, |s: Sprint| s.board_id == app.model.boards@[i].id) > 0,
        None => false,
    }
}

/// Row of the active card's priority in the priority picker (the first
/// row when there is no active card).
pub open spec fn current_priority_row(app: App) -> usize {
    match app.selection.active_card_id {
        Some(id) => match card_index(app.model.cards@, id) {
            Some(i) => app.model.cards@[i].priority.picker_row(),
            None => 0,
        },
        None => 0,
    }
}

/// `P`: the priority picker opens on the card's current priority.
pub open spec fn priority_dialog_opened(before: App, after: App) -> bool {
    &&& before.unchanged_except(&after, (Touched { mode: true, dialog_input: true, ..untouched() }))
    &&& after.dialog_input.priority_selection.selected == Some(current_priority_row(before))
    &&& after.dialog_input.board_delete_counts == before.dialog_input.board_delete_counts
    &&& after.dialog_input.import_files == before.dialog_input.import_files
    &&& after.dialog_input.import_selection == before.dialog_input.import_selection
    &&& after.dialog_input.column_list == before.dialog_input.column_list
    &&& after.mode == AppMode::Dialog(DialogMode::SetCardPriority)
    &&& after.mode_stack@ == before.mode_stack@.push(before.mode)
}

/// Backspace or `h`: back to the previous card, except from the title,
/// metadata and description sections.
pub open spec fn back_key(before: App, after: App) -> bool {
    match before.focus.card_focus {
        CardFocus::Title | CardFocus::Metadata | CardFocus::Description => before.unchanged_except(
            &after,
            untouched(),
        ),
        _ => returned_to_previous(before, after),
    }
}

/// What a key does in the card detail view.
pub open spec fn card_detail_key_handled(before: App, after: App, key: Key, r: CardDetailAction) -> bool {
    let same = before.unchanged_except(&after, untouched());
    let focus_on = |f: CardFocus|
        before.unchanged_except(&after, (Touched { focus: true, ..untouched() })) && after.focus == (FocusState {
            card_focus: f,
            ..before.focus
        });
    match key {
        Key::Esc => r == CardDetailAction::Nothing && detail_closed(before, after),
        Key::Down => r == CardDetailAction::Nothing && detail_moved_to(before, after, detail_step(before, true)),
        Key::Up => r == CardDetailAction::Nothing && detail_moved_to(before, after, detail_step(before, false)),
        Key::Enter => r == CardDetailAction::Nothing && match before.focus.card_focus {
            CardFocus::Parents => navigated(before, after, RelationSide::Parents),
            CardFocus::Children => navigated(before, after, RelationSide::Children),
            _ => same,
        },
        Key::Backspace => r == CardDetailAction::Nothing && back_key(before, after),
        Key::Char(c) => if c == '1' {
            r == CardDetailAction::Nothing && focus_on(CardFocus::Title)
        } else if c == '2' {
            r == CardDetailAction::Nothing && focus_on(CardFocus::Metadata)
        } else if c == '3' {
            r == CardDetailAction::Nothing && focus_on(CardFocus::Description)
        } else if c == '4' {
            r == CardDetailAction::Nothing && focus_on(CardFocus::Parents)
        } else if c == '5' {
            r == CardDetailAction::Nothing && focus_on(CardFocus::Children)
        } else if c == 'j' {
            r == CardDetailAction::Nothing && detail_moved_to(before, after, detail_step(before, true))
        } else if c == 'k' {
            r == CardDetailAction::Nothing && detail_moved_to(before, after, detail_step(before, false))
        } else if c == 'y' {
            r == CardDetailAction::CopyBranchName && same
        } else if c == 'Y' {
            r == CardDetailAction::CopyCheckoutCommand && same
        } else if c == 'e' {
            r == CardDetailAction::EditFocusedField && same
        } else if c == 'd' {
            r == CardDetailAction::Nothing && archived_from_detail(before, after)
        } else if c == 'a' {
            if board_has_sprints(before) {
                r == CardDetailAction::PrepareSprintPicker && dialog_over(
                    before,
                    after,
                    DialogMode::AssignCardToSprint,
                )
            } else {
                r == CardDetailAction::Nothing && same
            }
        } else if c == 'p' {
            r == CardDetailAction::Nothing && dialog_over(before, after, DialogMode::SetCardPoints)
        } else if c == 'P' {
            r == CardDetailAction::Nothing && priority_dialog_opened(before, after)
        } else if c == 'r' {
            r == CardDetailAction::Nothing && relation_dialog_opened(before, after, RelationSide::Parents)
        } else if c == 'R' {
            r == CardDetailAction::Nothing && relation_dialog_opened(before, after, RelationSide::Children)
        } else if c == 'h' {
            r == CardDetailAction::Nothing && back_key(before, after)
        } else {
            r == CardDetailAction::Nothing && same
        },
        _ => r == CardDetailAction::Nothing && same,
    }
}

/// One step in a relationship panel; returns whether it was at its edge.
fn rel_step_exec(l: &mut ScrollList, down: bool) -> (edge: bool)
    ensures
        (edge, *final(l)) == rel_step(*old(l), down),
{
    let edge = if down {
        l.navigate_down()
    } else {
        l.navigate_up()
    };
    let h = l.get_adjusted_viewport_height(RELATIONSHIP_VIEWPORT_RAW);
    l.ensure_selected_visible(h);
    edge
}

impl App {
    #[verifier::rlimit(30)]
    fn detail_step_exec(&mut self, down: bool)
        requires
            old(self).well_formed(),
        ensures
            detail_moved_to(*old(self), *final(self), detail_step(*old(self), down)),
            final(self).well_formed(),
    {
        let ghost before = *self;
        let np = self.get_current_card_parents().len();
        let nc = self.get_current_card_children().len();
        if down {
            match self.focus.card_focus {
                CardFocus::Parents => {
                    if np > 0 {
                        let edge = rel_step_exec(&mut self.relationship.parents_list, true);
                        if edge {
                            self.focus.card_focus = CardFocus::Children;
                            self.relationship.parents_list.selection.clear();
                            self.relationship.children_list.update_item_count(nc);
                            if nc > 0 {
                                self.relationship.children_list.selection.set(Some(0));
                            }
                        }
                    } else {
                        self.focus.card_focus = CardFocus::Children;
                    }
                },
                CardFocus::Children => {
                    if nc > 0 {
                        let edge = rel_step_exec(&mut self.relationship.children_list, true);
                        if edge {
                            self.focus.card_focus = CardFocus::Title;
                            self.relationship.children_list.selection.clear();
                        }
                    } else {
                        self.focus.card_focus = CardFocus::Title;
                    }
                },
                CardFocus::Title => {
                    self.focus.card_focus = CardFocus::Metadata;
                },
                CardFocus::Metadata => {
                    self.focus.card_focus = CardFocus::Description;
                },
                CardFocus::Description => {
                    self.focus.card_focus = CardFocus::Parents;
                },
            }
        } else {
            match self.focus.card_focus {
                CardFocus::Parents => {
                    if np > 0 {
                        let edge = rel_step_exec(&mut self.relationship.parents_list, false);
                        if edge {
                            self.focus.card_focus = CardFocus::Description;
                            self.relationship.parents_list.selection.clear();
                        }
                    } else {
                        self.focus.card_focus = CardFocus::Description;
                    }
                },
                CardFocus::Children => {
                    if nc > 0 {
                        let edge = rel_step_exec(&mut self.relationship.children_list, false);
                        if edge {
                            self.focus.card_focus = CardFocus::Parents;
                            self.relationship.children_list.selection.clear();
                            self.relationship.parents_list.update_item_count(np);
                            if np > 0 {
                                self.relationship.parents_list.selection.set(Some(np - 1));
                            }
                        }
                    } else {
                        self.focus.card_focus = CardFocus::Parents;
                    }
                },
                CardFocus::Title => {
                    self.focus.card_focus = CardFocus::Children;
                    self.relationship.children_list.update_item_count(nc);
                    if nc > 0 {
                        self.relationship.children_list.selection.set(Some(nc - 1));
                        let h = self.relationship.children_list.get_adjusted_viewport_height(
                            RELATIONSHIP_VIEWPORT_RAW,
                        );
                        self.relationship.children_list.ensure_selected_visible(h);
                    }
                },
                CardFocus::Description => {
                    self.focus.card_focus = CardFocus::Metadata;
                },
                CardFocus::Metadata => {
                    self.focus.card_focus = CardFocus::Title;
                },
            }
        }
    }

    fn close_card_detail(&mut self)
        requires
            old(self).well_formed(),
        ensures
            detail_closed(*old(self), *final(self)),
            final(self).well_formed(),
    {
        self.pop_mode();
        self.selection.active_card_id = None;
        self.focus.card_focus = CardFocus::Title;
        self.relationship.parents_list.selection.clear();
        self.relationship.children_list.selection.clear();
        self.selection.card_navigation_history = Vec::new();
    }

    fn archive_from_detail(&mut self)
        requires
            old(self).well_formed(),
        ensures
            archived_from_detail(*old(self), *final(self)),
            final(self).well_formed(),
    {
        self.handle_archive_card();
        self.pop_mode();
        self.selection.active_card_id = None;
        self.focus.card_focus = CardFocus::Title;
    }

    fn open_sprint_assignment(&mut self) -> (r: CardDetailAction)
        requires
            old(self).well_formed(),
        ensures
            board_has_sprints(*old(self)) ==> r == CardDetailAction::PrepareSprintPicker && dialog_over(
                *old(self),
                *final(self),
                DialogMode::AssignCardToSprint,
            ),
            !board_has_sprints(*old(self)) ==> r == CardDetailAction::Nothing && old(self).unchanged_except(
                final(self),
                untouched(),
            ),
            final(self).well_formed(),
    {
        if let Some(bi) = self.active_board() {
            let board_id = self.model.boards[bi].id;
            if self.model.sprint_count_for_board(board_id) > 0 {
                self.open_dialog(DialogMode::AssignCardToSprint);
                return CardDetailAction::PrepareSprintPicker;
            }
        }
        CardDetailAction::Nothing
    }

    /// Row of the active card's priority in the priority picker.
    pub fn get_current_priority_selection_index(&self) -> (r: usize)
        ensures
            r == current_priority_row(*self),
    {
        if let Some(id) = self.selection.active_card_id {
            if let Some(i) = self.model.card_by_id(id) {
                return self.model.cards[i].priority.picker_index();
            }
        }
        0
    }

    fn open_priority_dialog(&mut self)
        requires
            old(self).well_formed(),
        ensures
            priority_dialog_opened(*old(self), *final(self)),
            final(self).well_formed(),
    {
        let priority_idx = self.get_current_priority_selection_index();
        self.dialog_input.priority_selection.set(Some(priority_idx));
        self.open_dialog(DialogMode::SetCardPriority);
    }

    fn go_back_from_detail(&mut self)
        requires
            old(self).well_formed(),
        ensures
            back_key(*old(self), *final(self)),
            final(self).well_formed(),
    {
        match self.focus.card_focus {
            CardFocus::Title | CardFocus::Metadata | CardFocus::Description => {},
            _ => self.return_to_previous_card_from_detail_history(),
        }
    }

    fn set_card_focus(&mut self, f: CardFocus)
        ensures
            old(self).unchanged_except(final(self), (Touched { focus: true, ..untouched() })),
            final(self).focus == (FocusState { card_focus: f, ..old(self).focus }),
            old(self).well_formed() ==> final(self).well_formed(),
    {
        self.focus.card_focus = f;
    }

    /// A key in the card detail view; returns the work it leaves to the
    /// caller (clipboard, external editor, sprint picker).
    #[verifier::rlimit(60)]
    pub fn handle_card_detail_key(&mut self, key: Key) -> (r: CardDetailAction)
        requires
            old(self).well_formed(),
        ensures
            card_detail_key_handled(*old(self), *final(self), key, r),
            final(self).well_formed(),
    {
        match key {
            Key::Esc => {
                self.close_card_detail();
                CardDetailAction::Nothing
            },
            Key::Down => {
                self.detail_step_exec(true);
                CardDetailAction::Nothing
            },
            Key::Up => {
                self.detail_step_exec(false);
                CardDetailAction::Nothing
            },
            Key::Enter => {
                match self.focus.card_focus {
                    CardFocus::Parents => self.navigate_to_selected_parent(),
                    CardFocus::Children => self.navigate_to_selected_child(),
                    _ => {},
                }
                CardDetailAction::Nothing
            },
            Key::Backspace => {
                self.go_back_from_detail();
                CardDetailAction::Nothing
            },
            Key::Char(c) => {
                if c == '1' {
                    self.set_card_focus(CardFocus::Title);
                } else if c == '2' {
                    self.set_card_focus(CardFocus::Metadata);
                } else if c == '3' {
                    self.set_card_focus(CardFocus::Description);
                } else if c == '4' {
                    self.set_card_focus(CardFocus::Parents);
                } else if c == '5' {
                    self.set_card_focus(CardFocus::Children);
                } else if c == 'j' {
                    self.detail_step_exec(true);
                } else if c == 'k' {
                    self.detail_step_exec(false);
                } else if c == 'y' {
                    return CardDetailAction::CopyBranchName;
                } else if c == 'Y' {
                    return CardDetailAction::CopyCheckoutCommand;
                } else if c == 'e' {
                    return CardDetailAction::EditFocusedField;
                } else if c == 'd' {
                    self.archive_from_detail();
                } else if c == 'a' {
                    return self.open_sprint_assignment();
                } else if c == 'p' {
                    self.open_dialog(DialogMode::SetCardPoints);
                } else if c == 'P' {
                    self.open_priority_dialog();
                } else if c == 'r' {
                    self.handle_manage_parents();
                } else if c == 'R' {
                    self.handle_manage_children();
                } else if c == 'h' {
                    self.go_back_from_detail();
                }
                CardDetailAction::Nothing
            },
            _ => CardDetailAction::Nothing,
        }
    }
}

} // verus!
