//! Keys of the manage-parents / manage-children dialog: moving through
//! the offered cards, searching them by title, and linking or unlinking the
//! highlighted card.

use super::model::{card_index, contains_id, EntityId};
use super::modes::Key;
use super::relations::{attach_outcome, without_edge, RelationError};
use super::state::{untouched, with_id, App, RelationshipState, Touched};
use vstd::prelude::*;
use vstd::string::StrSliceExecFns;

verus! {

/// The lowercase form of a text, by Unicode's rules.
pub uninterp spec fn lowercase(s: Seq<char>) -> Seq<char>;

/// The lowercase form of `s` (std's `str::to_lowercase`).
#[verifier::external_body]
pub(crate) fn to_lowercase(s: &str) -> (r: String)
    ensures
        r@ == lowercase(s@),
{
    s.to_lowercase()
}

/// `part` occurs in `text`.
pub open spec fn has_part(text: Seq<char>, part: Seq<char>) -> bool {
    exists|i: int| 0 <= i && i + part.len() <= text.len() && #[trigger] text.subrange(i, i + part.len()) == part
}

/// The characters of `s`.
pub(crate) fn chars_of(s: &str) -> (r: Vec<char>)
    ensures
        r@ == s@,
{
    let n = s.unicode_len();
    let mut r: Vec<char> = Vec::new();
    let mut i: usize = 0;
    while i < n
        invariant
            i <= n,
            n == s@.len(),
            r@ == s@.take(i as int),
        decreases n - i,
    {
        let c = s.get_char(i);
        r.push(c);
        proof {
            assert(s@.take(i + 1) =~= s@.take(i as int).push(c));
        }
        i = i + 1;
    }
    proof {
        assert(s@.take(n as int) =~= s@);
    }
    r
}

/// Whether `part` occurs in `text` (std's `str::contains` on a text).
pub(crate) fn contains_part(text: &Vec<char>, part: &Vec<char>) -> (r: bool)
    ensures
        r == has_part(text@, part@),
{
    let n = text.len();
    let p = part.len();
    if p == 0 {
        proof {
            assert(text@.subrange(0int, 0int + part@.len()) =~= part@);
        }
        return true;
    }
    if p > n {
        proof {
            if has_part(text@, part@) {
                let i = choose|i: int|
                    0 <= i && i + part@.len() <= text@.len() && #[trigger] text@.subrange(i, i + part@.len()) == part@;
            }
        }
        return false;
    }
    let count = n - p + 1;
    let mut i: usize = 0;
    while i < count
        invariant
            n == text@.len(),
            p == part@.len(),
            0 < p <= n,
            count == n - p + 1,
            i <= count,
            forall|k: int| 0 <= k < i ==> #[trigger] text@.subrange(k, k + part@.len()) != part@,
        decreases count - i,
    {
        let mut j: usize = 0;
        let mut same = true;
        while j < p
            invariant
                n == text@.len(),
                p == part@.len(),
                i + p <= n,
                j <= p,
                same <==> forall|m: int| 0 <= m < j ==> text@[i + m] == part@[m],
            decreases p - j,
        {
            if text[i + j] != part[j] {
                same = false;
            }
            j = j + 1;
        }
        if same {
            proof {
                assert(text@.subrange(i as int, i + part@.len()) =~= part@);
            }
            return true;
        }
        proof {
            assert(exists|m: int| 0 <= m < part@.len() && text@[i + m] != part@[m]);
            let m = choose|m: int| 0 <= m < part@.len() && text@[i + m] != part@[m];
            let sub = text@.subrange(i as int, i + part@.len());
            assert(sub[m] == text@[i + m]);
            assert(sub != part@);
        }
        i = i + 1;
    }
    proof {
        if has_part(text@, part@) {
            let k = choose|k: int|
                0 <= k && k + part@.len() <= text@.len() && #[trigger] text@.subrange(k, k + part@.len()) == part@;
            assert(text@.subrange(k, k + part@.len()) != part@);
        }
    }
    false
}

/// A card matches the search when its title contains it, ignoring case.
pub open spec fn title_matches(app: App, id: EntityId) -> bool {
    match card_index(app.model.cards@, id) {
        Some(i) => has_part(lowercase(app.model.cards@[i].title@), lowercase(app.relationship.search@)),
        None => false,
    }
}

/// The cards the dialog offers under the current search: all of them
/// without a search, else those whose title contains it, ignoring case.
pub open spec fn relationship_matches(app: App) -> Seq<EntityId> {
    if app.relationship.search@.len() == 0 {
        app.relationship.card_ids@
    } else {
        app.relationship.card_ids@.filter(|id: EntityId| title_matches(app, id))
    }
}

/// The link a press of Space or Enter toggles: (parent, child, highlighted
/// card, whether it is linked now). In parent mode the highlighted card
/// becomes a parent of the active card, else a child.
pub open spec fn relation_toggle(app: App, is_parent_mode: bool) -> Option<(EntityId, EntityId, EntityId, bool)> {
    match (app.relationship.selection.selected, app.selection.active_card_id) {
        (Some(idx), Some(active)) => {
            let offered = relationship_matches(app);
            if idx < offered.len() && card_index(app.model.cards@, active).is_some() {
                let sel = offered[idx as int];
                let (child, parent) = if is_parent_mode {
                    (active, sel)
                } else {
                    (sel, active)
                };
                Some((parent, child, sel, app.relationship.selected@.contains(sel)))
            } else {
                None
            }
        },
        _ => None,
    }
}

/// Text of the error banner for a refused link.
pub open spec fn relation_error_text(e: RelationError) -> Seq<char> {
    match e {
        RelationError::UnknownCard => "Failed to toggle relationship: card not found"@,
        RelationError::SelfReference => "Failed to toggle relationship: a card cannot be its own parent"@,
        RelationError::Duplicate => "Failed to toggle relationship: already linked"@,
        RelationError::Cycle => "Failed to toggle relationship: it would create a cycle"@,
    }
}

/// `after` is `before` with only the relationship dialog's selection changed.
pub open spec fn dialog_selection_moved(before: App, after: App, selected: Option<usize>) -> bool {
    &&& before.unchanged_except(&after, (Touched { relationship: true, ..untouched() }))
    &&& after.relationship == (RelationshipState {
        selection: super::components::ListSelection { selected },
        ..before.relationship
    })
}

/// What Space or Enter does in the dialog.
pub open spec fn relation_toggled(before: App, after: App, is_parent_mode: bool) -> bool {
    match relation_toggle(before, is_parent_mode) {
        None => before.unchanged_except(&after, untouched()),
        Some((parent, child, sel, linked)) => if linked {
            &&& before.unchanged_except(&after, (Touched { model: true, relationship: true, ..untouched() }))
            &&& after.model.edges@ == without_edge(before.model.edges@, parent, child)
            &&& after.relationship.selected@ == before.relationship.selected@.filter(|x: EntityId| x != sel)
            &&& after.relationship == (RelationshipState {
                selected: after.relationship.selected,
                ..before.relationship
            })
            &&& after.model == (super::model::KanbanModel { edges: after.model.edges, ..before.model })
        } else {
            match attach_outcome(before.model, parent, child) {
                Ok(()) => {
                    &&& before.unchanged_except(&after, (Touched { model: true, relationship: true, ..untouched() }))
                    &&& after.model.edges@ == before.model.edges@.push((parent, child))
                    &&& after.relationship.selected@ == with_id(before.relationship.selected@, sel)
                    &&& after.relationship == (RelationshipState {
                        selected: after.relationship.selected,
                        ..before.relationship
                    })
                    &&& after.model == (super::model::KanbanModel { edges: after.model.edges, ..before.model })
                },
                Err(e) => {
                    &&& before.unchanged_except(&after, (Touched { error: true, ..untouched() }))
                    &&& after.error_message matches Some(m) && m@ == relation_error_text(e)
                },
            }
        },
    }
}

/// What a key does in the manage dialog.
pub open spec fn relationship_key_handled(before: App, after: App, key: Key, is_parent_mode: bool) -> bool {
    let r = before.relationship;
    let same = before.unchanged_except(&after, untouched());
    let rel_only = |s: RelationshipState|
        before.unchanged_except(&after, (Touched { relationship: true, ..untouched() })) && after.relationship == s;
    let refreshed = |search: Seq<char>| {
        let offered_empty = relationship_matches(
            App { relationship: RelationshipState { search: after.relationship.search, ..before.relationship }, ..before },
        ).len() == 0;
        &&& before.unchanged_except(&after, (Touched { relationship: true, ..untouched() }))
        &&& after.relationship.search@ == search
        &&& after.relationship == (RelationshipState {
            search: after.relationship.search,
            selection: super::components::ListSelection {
                selected: if offered_empty {
                    None
                } else {
                    Some(0usize)
                },
            },
            ..before.relationship
        })
    };
    if r.search_active {
        match key {
            Key::Esc | Key::Enter => rel_only(RelationshipState { search_active: false, ..r }),
            Key::Backspace => refreshed(if r.search@.len() > 0 {
                r.search@.drop_last()
            } else {
                r.search@
            }),
            Key::Char(c) => refreshed(r.search@.push(c)),
            _ => same,
        }
    } else {
        match key {
            Key::Esc => {
                &&& before.unchanged_except(&after, (Touched { mode: true, relationship: true, ..untouched() }))
                &&& super::card_detail::popped(before, after)
                &&& after.relationship.card_ids@.len() == 0
                &&& after.relationship.selected@.len() == 0
                &&& after.relationship.selection.selected.is_none()
                &&& after.relationship.search@.len() == 0
                &&& !after.relationship.search_active
                &&& after.relationship.parents_list == r.parents_list
                &&& after.relationship.children_list == r.children_list
            },
            Key::Down => dialog_selection_moved(
                before,
                after,
                super::components::next_row(r.selection.selected, relationship_matches(before).len() as usize),
            ),
            Key::Up => dialog_selection_moved(before, after, super::components::prev_row(r.selection.selected)),
            Key::Enter => relation_toggled(before, after, is_parent_mode),
            Key::Char(c) => if c == '/' {
                rel_only(RelationshipState { search_active: true, ..r })
            } else if c == 'j' {
                dialog_selection_moved(
                    before,
                    after,
                    super::components::next_row(r.selection.selected, relationship_matches(before).len() as usize),
                )
            } else if c == 'k' {
                dialog_selection_moved(before, after, super::components::prev_row(r.selection.selected))
            } else if c == ' ' {
                relation_toggled(before, after, is_parent_mode)
            } else {
                same
            },
            _ => same,
        }
    }
}

impl RelationError {
    /// Text for the error banner.
    pub fn banner(&self) -> (r: &'static str)
        ensures
            r@ == relation_error_text(*self),
    {
        match self {
            RelationError::UnknownCard => "Failed to toggle relationship: card not found",
            RelationError::SelfReference => "Failed to toggle relationship: a card cannot be its own parent",
            RelationError::Duplicate => "Failed to toggle relationship: already linked",
            RelationError::Cycle => "Failed to toggle relationship: it would create a cycle",
        }
    }
}

impl App {
    /// The cards the dialog offers under the current search.
    pub fn filtered_relationship_card_ids(&self) -> (r: Vec<EntityId>)
        ensures
            r@ == relationship_matches(*self),
    {
        if self.relationship.search.as_str().unicode_len() == 0 {
            return self.relationship.card_ids.clone();
        }
        let needle_text = to_lowercase(self.relationship.search.as_str());
        let needle = chars_of(needle_text.as_str());
        let ghost app = *self;
        let ghost pred = |id: EntityId| title_matches(app, id);
        let ids = &self.relationship.card_ids;
        let mut r: Vec<EntityId> = Vec::new();
        let mut i: usize = 0;
        while i < ids.len()
            invariant
                i <= ids@.len(),
                app == *self,
                ids@ == self.relationship.card_ids@,
                needle@ == lowercase(self.relationship.search@),
                pred == (|id: EntityId| title_matches(app, id)),
                r@ == ids@.take(i as int).filter(pred),
            decreases ids@.len() - i,
        {
            let id = ids[i];
            proof {
                assert(ids@.take(i + 1) =~= ids@.take(i as int).push(id));
                ids@.take(i as int).lemma_filter_push(id, pred);
            }
            if let Some(k) = self.model.card_by_id(id) {
                let title = to_lowercase(self.model.cards[k].title.as_str());
                let text = chars_of(title.as_str());
                if contains_part(&text, &needle) {
                    r.push(id);
                }
            }
            i = i + 1;
        }
        proof {
            assert(ids@.take(ids@.len() as int) =~= ids@);
        }
        r
    }

    /// After the search changed: the first offered card is highlighted (none
    /// when nothing matches).
    pub fn update_relationship_selection_after_search(&mut self) -> (ok: bool)
        ensures
            ok,
            dialog_selection_moved(
                *old(self),
                *final(self),
                if relationship_matches(*old(self)).len() == 0 {
                    None
                } else {
                    Some(0usize)
                },
            ),
            old(self).well_formed() ==> final(self).well_formed(),
    {
        let filtered = self.filtered_relationship_card_ids();
        if filtered.len() == 0 {
            self.relationship.selection.clear();
        } else {
            self.relationship.selection.set(Some(0));
        }
        true
    }

    fn toggle_relation(&mut self, is_parent_mode: bool)
        requires
            old(self).well_formed(),
        ensures
            relation_toggled(*old(self), *final(self), is_parent_mode),
            final(self).well_formed(),
    {
        let offered = self.filtered_relationship_card_ids();
        let Some(idx) = self.relationship.selection.get() else {
            return;
        };
        let Some(active) = self.selection.active_card_id else {
            return;
        };
        if idx >= offered.len() || self.model.card_by_id(active).is_none() {
            return;
        }
        let sel = offered[idx];
        let (child, parent) = if is_parent_mode {
            (active, sel)
        } else {
            (sel, active)
        };
        if contains_id(&self.relationship.selected, sel) {
            self.model.detach_child(parent, child);
            super::card_handlers::remove_id(&mut self.relationship.selected, sel);
        } else {
            match self.model.attach_child(parent, child) {
                Ok(()) => {
                    self.relationship.selected.push(sel);
                },
                Err(e) => {
                    self.set_error(e.banner());
                },
            }
        }
    }

    /// A key in the manage-parents dialog.
    pub fn handle_manage_parents_popup(&mut self, key: Key)
        requires
            old(self).well_formed(),
        ensures
            relationship_key_handled(*old(self), *final(self), key, true),
            final(self).well_formed(),
    {
        self.handle_relationship_popup(key, true);
    }

    /// A key in the manage-children dialog.
    pub fn handle_manage_children_popup(&mut self, key: Key)
        requires
            old(self).well_formed(),
        ensures
            relationship_key_handled(*old(self), *final(self), key, false),
            final(self).well_formed(),
    {
        self.handle_relationship_popup(key, false);
    }

    /// A key in the manage-parents (`is_parent_mode`) or manage-children
    /// dialog. While searching, keys edit the search; otherwise `j`/`k`
    /// move, `/` starts a search, Space/Enter link or unlink the highlighted
    /// card, and Esc closes the dialog.
    pub fn handle_relationship_popup(&mut self, key: Key, is_parent_mode: bool)
        requires
            old(self).well_formed(),
        ensures
            relationship_key_handled(*old(self), *final(self), key, is_parent_mode),
            final(self).well_formed(),
    {
        if self.relationship.search_active {
            match key {
                Key::Esc | Key::Enter => {
                    self.relationship.search_active = false;
                },
                Key::Backspace => {
                    super::dialogs::pop_input(&mut self.relationship.search);
                    if !self.update_relationship_selection_after_search() {
                        self.relationship.selection.clear();
                    }
                },
                Key::Char(c) => {
                    super::dialogs::push_input(&mut self.relationship.search, c);
                    if !self.update_relationship_selection_after_search() {
                        super::dialogs::pop_input(&mut self.relationship.search);
                    }
                },
                _ => {},
            }
            return;
        }
        match key {
            Key::Esc => {
                self.pop_mode();
                self.relationship.card_ids = Vec::new();
                self.relationship.selected = Vec::new();
                self.relationship.selection.clear();
                self.relationship.search = String::new();
                self.relationship.search_active = false;
            },
            Key::Down => {
                let offered = self.filtered_relationship_card_ids();
                self.relationship.selection.next(offered.len());
            },
            Key::Up => {
                self.relationship.selection.prev();
            },
            Key::Enter => self.toggle_relation(is_parent_mode),
            Key::Char(c) => {
                if c == '/' {
                    self.relationship.search_active = true;
                } else if c == 'j' {
                    let offered = self.filtered_relationship_card_ids();
                    self.relationship.selection.next(offered.len());
                } else if c == 'k' {
                    self.relationship.selection.prev();
                } else if c == ' ' {
                    self.toggle_relation(is_parent_mode);
                }
            },
            _ => {},
        }
    }
}

} // verus!
