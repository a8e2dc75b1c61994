//! Text-input dialogs (the branch, sprint and card prefixes) and the
//! confirmation popups of the sprint-prefix collision, the save conflict
//! and the external change.

use super::model::{Board, EntityId, KanbanModel, Sprint};
use super::modes::{AppMode, DialogMode, Key};
use super::state::{untouched, App, Touched};
use vstd::prelude::*;
use vstd::string::StrSliceExecFns;

verus! {

/// What a key does to a text-input dialog.
#[derive(Debug, Clone, Copy, PartialEq, Eq, Structural)]
pub enum DialogAction {
    Confirm,
    Cancel,
    /// The key edited the input (or did nothing).
    Edited,
}

/// Whether `c` is white space: the Unicode White_Space property, as std's
/// `char::is_whitespace` has it.
pub open spec fn whitespace(c: char) -> bool {
    let u = c as u32;
    ||| 0x9 <= u <= 0xD
    ||| u == 0x20
    ||| u == 0x85
    ||| u == 0xA0
    ||| u == 0x1680
    ||| 0x2000 <= u <= 0x200A
    ||| u == 0x2028
    ||| u == 0x2029
    ||| u == 0x202F
    ||| u == 0x205F
    ||| u == 0x3000
}

/// Whether `c` is white space.
fn is_whitespace(c: char) -> (r: bool)
    ensures
        r == whitespace(c),
{
    let u = c as u32;
    (0x9 <= u && u <= 0xD) || u == 0x20 || u == 0x85 || u == 0xA0 || u == 0x1680 || (0x2000 <= u && u <= 0x200A)
        || u == 0x2028 || u == 0x2029 || u == 0x202F || u == 0x205F || u == 0x3000
}

/// Appends `c` (std's `String::push`).
#[verifier::external_body]
pub(crate) fn push_input(s: &mut String, c: char)
    ensures
        final(s)@ == old(s)@.push(c),
{
    s.push(c);
}

/// Removes the last character, if any (std's `String::pop`).
#[verifier::external_body]
pub(crate) fn pop_input(s: &mut String) -> (r: Option<char>)
    ensures
        old(s)@.len() == 0 ==> r.is_none() && final(s)@ == old(s)@,
        old(s)@.len() > 0 ==> r == Some(old(s)@.last()) && final(s)@ == old(s)@.drop_last(),
{
    s.pop()
}

/// The text left after a key in a one-line input: Enter and Esc leave it,
/// a character is appended, Backspace removes the last one.
pub open spec fn edited(text: Seq<char>, key: Key) -> Seq<char> {
    match key {
        Key::Char(c) => text.push(c),
        Key::Backspace => if text.len() > 0 {
            text.drop_last()
        } else {
            text
        },
        _ => text,
    }
}

/// The dialog action of a key: Enter confirms, Esc cancels.
pub open spec fn action_of(key: Key) -> DialogAction {
    match key {
        Key::Enter => DialogAction::Confirm,
        Key::Esc => DialogAction::Cancel,
        _ => DialogAction::Edited,
    }
}

/// Applies a key to a one-line input.
pub fn handle_dialog_input(input: &mut String, key: Key) -> (r: DialogAction)
    ensures
        r == action_of(key),
        final(input)@ == edited(old(input)@, key),
{
    match key {
        Key::Enter => DialogAction::Confirm,
        Key::Esc => DialogAction::Cancel,
        Key::Char(c) => {
            push_input(input, c);
            DialogAction::Edited
        },
        Key::Backspace => {
            pop_input(input);
            DialogAction::Edited
        },
        _ => DialogAction::Edited,
    }
}

/// Index of the first character of `s` that is not white space (`s.len()`
/// when there is none).
pub open spec fn trim_start(s: Seq<char>) -> int
    decreases s.len(),
{
    if s.len() == 0 || !whitespace(s[0]) {
        0
    } else {
        1 + trim_start(s.drop_first())
    }
}

/// One past the last character of `s` that is not white space (0 when
/// there is none).
pub open spec fn trim_end(s: Seq<char>) -> int
    decreases s.len(),
{
    if s.len() == 0 || !whitespace(s.last()) {
        s.len() as int
    } else {
        trim_end(s.drop_last())
    }
}

/// `s` without leading and trailing white space.
pub open spec fn trimmed(s: Seq<char>) -> Seq<char> {
    if trim_start(s) >= trim_end(s) {
        seq![]
    } else {
        s.subrange(trim_start(s), trim_end(s))
    }
}

proof fn lemma_trim_start_bounds(s: Seq<char>)
    ensures
        0 <= trim_start(s) <= s.len(),
        forall|i: int| 0 <= i < trim_start(s) ==> whitespace(#[trigger] s[i]),
        trim_start(s) < s.len() ==> !whitespace(s[trim_start(s)]),
    decreases s.len(),
{
    if s.len() > 0 && whitespace(s[0]) {
        lemma_trim_start_bounds(s.drop_first());
        assert forall|i: int| 0 <= i < trim_start(s) implies whitespace(#[trigger] s[i]) by {
            if i > 0 {
                assert(s[i] == s.drop_first()[i - 1]);
            }
        }
        if trim_start(s) < s.len() {
            assert(s[trim_start(s)] == s.drop_first()[trim_start(s) - 1]);
        }
    }
}

proof fn lemma_trim_end_bounds(s: Seq<char>)
    ensures
        0 <= trim_end(s) <= s.len(),
        forall|i: int| trim_end(s) <= i < s.len() ==> whitespace(#[trigger] s[i]),
        trim_end(s) > 0 ==> !whitespace(s[trim_end(s) - 1]),
    decreases s.len(),
{
    if s.len() > 0 && whitespace(s.last()) {
        lemma_trim_end_bounds(s.drop_last());
        assert forall|i: int| trim_end(s) <= i < s.len() implies whitespace(#[trigger] s[i]) by {
            if i < s.len() - 1 {
                assert(s[i] == s.drop_last()[i]);
            }
        }
        if trim_end(s) > 0 {
            assert(s[trim_end(s) - 1] == s.drop_last()[trim_end(s) - 1]);
        }
    }
}

/// The index of the first non-white-space character, from the front.
fn find_trim_start(s: &Vec<char>) -> (r: usize)
    ensures
        r == trim_start(s@),
{
    let mut i: usize = 0;
    proof {
        assert(s@.subrange(0, s@.len() as int) =~= s@);
    }
    while i < s.len() && is_whitespace(s[i])
        invariant
            i <= s@.len(),
            trim_start(s@) == i + trim_start(s@.subrange(i as int, s@.len() as int)),
        decreases s@.len() - i,
    {
        proof {
            let rest = s@.subrange(i as int, s@.len() as int);
            assert(rest[0] == s@[i as int]);
            assert(rest.drop_first() =~= s@.subrange(i + 1, s@.len() as int));
        }
        i = i + 1;
    }
    proof {
        let rest = s@.subrange(i as int, s@.len() as int);
        if i < s@.len() {
            assert(rest[0] == s@[i as int]);
        }
    }
    i
}

/// One past the last non-white-space character, from the back.
fn find_trim_end(s: &Vec<char>) -> (r: usize)
    ensures
        r == trim_end(s@),
{
    let mut j: usize = s.len();
    proof {
        assert(s@.subrange(0, j as int) =~= s@);
    }
    while j > 0 && is_whitespace(s[j - 1])
        invariant
            j <= s@.len(),
            trim_end(s@) == trim_end(s@.subrange(0, j as int)),
        decreases j,
    {
        proof {
            let pre = s@.subrange(0, j as int);
            assert(pre.last() == s@[j - 1]);
            assert(pre.drop_last() =~= s@.subrange(0, j - 1));
        }
        j = j - 1;
    }
    proof {
        let pre = s@.subrange(0, j as int);
        if j > 0 {
            assert(pre.last() == s@[j - 1]);
        }
    }
    j
}

/// A branch prefix: letters and digits (ASCII), hyphens and underscores.
pub open spec fn prefix_char(c: char) -> bool {
    ('a' <= c <= 'z') || ('A' <= c <= 'Z') || ('0' <= c <= '9') || c == '-' || c == '_'
}

pub open spec fn valid_branch_prefix(s: Seq<char>) -> bool {
    forall|i: int| 0 <= i < s.len() ==> prefix_char(#[trigger] s[i])
}

fn is_valid_branch_prefix(s: &Vec<char>) -> (r: bool)
    ensures
        r == valid_branch_prefix(s@),
{
    let mut i: usize = 0;
    while i < s.len()
        invariant
            i <= s@.len(),
            forall|k: int| 0 <= k < i ==> prefix_char(#[trigger] s@[k]),
        decreases s@.len() - i,
    {
        let c = s[i];
        if !(('a' <= c && c <= 'z') || ('A' <= c && c <= 'Z') || ('0' <= c && c <= '9') || c == '-' || c == '_') {
            return false;
        }
        i = i + 1;
    }
    true
}

/// Which prefix a prefix dialog edits.
#[derive(Debug, Clone, Copy, PartialEq, Eq, Structural)]
pub enum PrefixDialogContext {
    /// The sprint prefix of the active board.
    BoardSprint,
    /// The prefix override of the sprint shown in the sprint detail view.
    Sprint,
    /// The card-prefix override of that sprint.
    SprintCard,
}

/// Position in the model of what the dialog edits: the active board, or
/// the sprint shown in the sprint detail view.
pub open spec fn prefix_target(app: App, ctx: PrefixDialogContext) -> Option<int> {
    match ctx {
        PrefixDialogContext::BoardSprint => app.active_board_index(),
        _ => match app.selection.active_sprint_index {
            Some(i) => if i < app.model.sprints@.len() {
                Some(i as int)
            } else {
                None
            },
            None => None,
        },
    }
}

/// The prefix field `ctx` edits holds `value` (`None`: cleared).
pub open spec fn prefix_field_is(app: App, ctx: PrefixDialogContext, i: int, value: Option<Seq<char>>) -> bool {
    let field = match ctx {
        PrefixDialogContext::BoardSprint => app.model.boards@[i].sprint_prefix,
        PrefixDialogContext::Sprint => app.model.sprints@[i].prefix,
        PrefixDialogContext::SprintCard => app.model.sprints@[i].card_prefix,
    };
    match value {
        None => field.is_none(),
        Some(t) => field matches Some(f) && f@ == t,
    }
}

/// `after`'s model is `before`'s with only the prefix field `ctx` edits at
/// position `i` changed.
pub open spec fn only_prefix_changed(before: App, after: App, ctx: PrefixDialogContext, i: int) -> bool {
    let m = before.model;
    let n = after.model;
    &&& n.columns == m.columns && n.cards == m.cards && n.archived_cards == m.archived_cards && n.edges == m.edges
    &&& match ctx {
        PrefixDialogContext::BoardSprint => {
            &&& n.sprints == m.sprints
            &&& n.boards@ == m.boards@.update(i, Board { sprint_prefix: n.boards@[i].sprint_prefix, ..m.boards@[i] })
        },
        PrefixDialogContext::Sprint => {
            &&& n.boards == m.boards
            &&& n.sprints@ == m.sprints@.update(i, Sprint { prefix: n.sprints@[i].prefix, ..m.sprints@[i] })
        },
        PrefixDialogContext::SprintCard => {
            &&& n.boards == m.boards
            &&& n.sprints@ == m.sprints@.update(i, Sprint { card_prefix: n.sprints@[i].card_prefix, ..m.sprints@[i] })
        },
    }
}

/// What a key does in a prefix dialog. Enter confirms the trimmed text:
/// an empty one clears the prefix, a valid one sets it, an invalid one
/// changes nothing; Enter and Esc then close the dialog with an empty
/// input. Other keys edit the input.
pub open spec fn prefix_dialog_handled(before: App, after: App, key: Key, ctx: PrefixDialogContext) -> bool {
    match action_of(key) {
        DialogAction::Edited => {
            &&& before.unchanged_except(&after, (Touched { input: true, ..untouched() }))
            &&& after.input@ == edited(before.input@, key)
        },
        DialogAction::Cancel => {
            &&& before.unchanged_except(&after, (Touched { input: true, mode: true, ..untouched() }))
            &&& super::card_detail::popped(before, after)
            &&& after.input@.len() == 0
        },
        DialogAction::Confirm => {
            let text = trimmed(before.input@);
            &&& before.unchanged_except(&after, (Touched { input: true, mode: true, model: true, ..untouched() }))
            &&& super::card_detail::popped(before, after)
            &&& after.input@.len() == 0
            &&& match prefix_target(before, ctx) {
                Some(i) => if text.len() == 0 {
                    only_prefix_changed(before, after, ctx, i) && prefix_field_is(after, ctx, i, None)
                } else if valid_branch_prefix(text) {
                    only_prefix_changed(before, after, ctx, i) && prefix_field_is(after, ctx, i, Some(text))
                } else {
                    after.model == before.model
                },
                None => after.model == before.model,
            }
        },
    }
}

impl KanbanModel {
    /// Sets (or, with `None`, clears) the prefix field `ctx` edits at position `i`.
    fn set_prefix(&mut self, ctx: PrefixDialogContext, i: usize, value: Option<String>)
        requires
            match ctx {
                PrefixDialogContext::BoardSprint => i < old(self).boards@.len(),
                _ => i < old(self).sprints@.len(),
            },
        ensures
            final(self).columns == old(self).columns,
            final(self).cards == old(self).cards,
            final(self).archived_cards == old(self).archived_cards,
            final(self).edges == old(self).edges,
            match ctx {
                PrefixDialogContext::BoardSprint => {
                    &&& final(self).sprints == old(self).sprints
                    &&& final(self).boards@ == old(self).boards@.update(
                        i as int,
                        Board { sprint_prefix: value, ..old(self).boards@[i as int] },
                    )
                },
                PrefixDialogContext::Sprint => {
                    &&& final(self).boards == old(self).boards
                    &&& final(self).sprints@ == old(self).sprints@.update(
                        i as int,
                        Sprint { prefix: value, ..old(self).sprints@[i as int] },
                    )
                },
                PrefixDialogContext::SprintCard => {
                    &&& final(self).boards == old(self).boards
                    &&& final(self).sprints@ == old(self).sprints@.update(
                        i as int,
                        Sprint { card_prefix: value, ..old(self).sprints@[i as int] },
                    )
                },
            },
    {
        let ghost before = *self;
        match ctx {
            PrefixDialogContext::BoardSprint => {
                let b = &mut self.boards[i];
                b.sprint_prefix = value;
                proof {
                    assert(self.boards@ =~= before.boards@.update(
                        i as int,
                        Board { sprint_prefix: value, ..before.boards@[i as int] },
                    ));
                }
            },
            PrefixDialogContext::Sprint => {
                let s = &mut self.sprints[i];
                s.prefix = value;
                proof {
                    assert(self.sprints@ =~= before.sprints@.update(
                        i as int,
                        Sprint { prefix: value, ..before.sprints@[i as int] },
                    ));
                }
            },
            PrefixDialogContext::SprintCard => {
                let s = &mut self.sprints[i];
                s.card_prefix = value;
                proof {
                    assert(self.sprints@ =~= before.sprints@.update(
                        i as int,
                        Sprint { card_prefix: value, ..before.sprints@[i as int] },
                    ));
                }
            },
        }
    }
}

/// The characters of a string.
pub(crate) fn chars_of_string(s: &String) -> (r: Vec<char>)
    ensures
        r@ == s@,
{
    super::relationship_dialog::chars_of(s.as_str())
}

/// A string of the given characters.
pub fn string_of(chars: &Vec<char>) -> (r: String)
    ensures
        r@ == chars@,
{
    let mut r = String::new();
    let mut i: usize = 0;
    while i < chars.len()
        invariant
            i <= chars@.len(),
            r@ == chars@.take(i as int),
        decreases chars@.len() - i,
    {
        push_input(&mut r, chars[i]);
        proof {
            assert(chars@.take(i + 1) =~= chars@.take(i as int).push(chars@[i as int]));
        }
        i = i + 1;
    }
    proof {
        assert(chars@.take(chars@.len() as int) =~= chars@);
    }
    r
}

/// The characters of `s` without leading and trailing white space.
pub fn trimmed_chars(s: &String) -> (r: Vec<char>)
    ensures
        r@ == trimmed(s@),
{
    let chars = chars_of_string(s);
    let lo = find_trim_start(&chars);
    let hi = find_trim_end(&chars);
    proof {
        lemma_trim_start_bounds(chars@);
        lemma_trim_end_bounds(chars@);
    }
    let mut text: Vec<char> = Vec::new();
    if lo < hi {
        let mut k = lo;
        while k < hi
            invariant
                lo <= k <= hi,
                hi <= chars@.len(),
                text@ == chars@.subrange(lo as int, k as int),
            decreases hi - k,
        {
            text.push(chars[k]);
            proof {
                assert(chars@.subrange(lo as int, k + 1) =~= chars@.subrange(lo as int, k as int).push(
                    chars@[k as int],
                ));
            }
            k = k + 1;
        }
    }
    text
}

impl App {
    fn prefix_target_index(&self, ctx: PrefixDialogContext) -> (r: Option<usize>)
        ensures
            match r {
                Some(i) => prefix_target(*self, ctx) == Some(i as int) && match ctx {
                    PrefixDialogContext::BoardSprint => i < self.model.boards@.len(),
                    _ => i < self.model.sprints@.len(),
                },
                None => prefix_target(*self, ctx).is_none(),
            },
    {
        match ctx {
            PrefixDialogContext::BoardSprint => self.active_board(),
            _ => match self.selection.active_sprint_index {
                Some(i) => if i < self.model.sprints.len() {
                    Some(i)
                } else {
                    None
                },
                None => None,
            },
        }
    }

    /// Confirms a prefix dialog: applies the trimmed input to the prefix
    /// `ctx` edits (clears it when empty, leaves it when invalid).
    fn apply_prefix(&mut self, ctx: PrefixDialogContext)
        requires
            old(self).well_formed(),
        ensures
            final(self).well_formed(),
            old(self).unchanged_except(final(self), (Touched { model: true, ..untouched() })),
            ({
                let text = trimmed(old(self).input@);
                match prefix_target(*old(self), ctx) {
                    Some(i) => if text.len() == 0 {
                        only_prefix_changed(*old(self), *final(self), ctx, i) && prefix_field_is(
                            *final(self),
                            ctx,
                            i,
                            None,
                        )
                    } else if valid_branch_prefix(text) {
                        only_prefix_changed(*old(self), *final(self), ctx, i) && prefix_field_is(
                            *final(self),
                            ctx,
                            i,
                            Some(text),
                        )
                    } else {
                        final(self).model == old(self).model
                    },
                    None => final(self).model == old(self).model,
                }
            }),
    {
        let text = trimmed_chars(&self.input);
        let Some(i) = self.prefix_target_index(ctx) else {
            return;
        };
        if text.len() == 0 {
            self.model.set_prefix(ctx, i, None);
        } else if is_valid_branch_prefix(&text) {
            let value = string_of(&text);
            self.model.set_prefix(ctx, i, Some(value));
        }
    }

    fn handle_prefix_dialog_impl(&mut self, key: Key, ctx: PrefixDialogContext)
        requires
            old(self).well_formed(),
        ensures
            prefix_dialog_handled(*old(self), *final(self), key, ctx),
            final(self).well_formed(),
    {
        match key {
            Key::Enter => {
                self.apply_prefix(ctx);
                self.pop_mode();
                self.input = String::new();
            },
            Key::Esc => {
                self.pop_mode();
                self.input = String::new();
            },
            _ => {
                handle_dialog_input(&mut self.input, key);
            },
        }
    }

    /// A key in the dialog editing the active board's sprint prefix.
    pub fn handle_set_branch_prefix_dialog(&mut self, key: Key)
        requires
            old(self).well_formed(),
        ensures
            prefix_dialog_handled(*old(self), *final(self), key, PrefixDialogContext::BoardSprint),
            final(self).well_formed(),
    {
        self.handle_prefix_dialog_impl(key, PrefixDialogContext::BoardSprint);
    }

    /// A key in the dialog editing the shown sprint's prefix.
    pub fn handle_set_sprint_prefix_dialog(&mut self, key: Key)
        requires
            old(self).well_formed(),
        ensures
            prefix_dialog_handled(*old(self), *final(self), key, PrefixDialogContext::Sprint),
            final(self).well_formed(),
    {
        self.handle_prefix_dialog_impl(key, PrefixDialogContext::Sprint);
    }

    /// A key in the dialog editing the shown sprint's card prefix.
    pub fn handle_set_sprint_card_prefix_dialog(&mut self, key: Key)
        requires
            old(self).well_formed(),
        ensures
            prefix_dialog_handled(*old(self), *final(self), key, PrefixDialogContext::SprintCard),
            final(self).well_formed(),
    {
        self.handle_prefix_dialog_impl(key, PrefixDialogContext::SprintCard);
    }

    /// The popup asking whether to keep a sprint prefix that collides with
    /// another: Esc, Enter and `y` close it; `n`/`N` go back to the prefix
    /// dialog.
    pub fn handle_confirm_sprint_prefix_collision_popup(&mut self, key: Key)
        requires
            old(self).well_formed(),
        ensures
            final(self).well_formed(),
            ({
                let back = key == Key::Char('n') || key == Key::Char('N');
                let close = key == Key::Esc || key == Key::Enter || key == Key::Char('y');
                &&& old(self).unchanged_except(final(self), (Touched { mode: true, ..untouched() }))
                &&& close ==> super::card_detail::popped(*old(self), *final(self))
                &&& back ==> {
                    let (m, stack) = if old(self).mode_stack@.len() > 0 {
                        (old(self).mode_stack@.last(), old(self).mode_stack@.drop_last())
                    } else {
                        (AppMode::Normal, old(self).mode_stack@)
                    };
                    &&& final(self).mode == AppMode::Dialog(DialogMode::SetSprintPrefix)
                    &&& final(self).mode_stack@ == stack.push(m)
                }
                &&& !close && !back ==> final(self).mode == old(self).mode && final(self).mode_stack@ == old(
                    self,
                ).mode_stack@
            }),
    {
        match key {
            Key::Esc | Key::Enter => self.pop_mode(),
            Key::Char(c) => {
                if c == 'y' {
                    self.pop_mode();
                } else if c == 'n' || c == 'N' {
                    self.pop_mode();
                    self.open_dialog(DialogMode::SetSprintPrefix);
                }
            },
            _ => {},
        }
    }

    /// The popup on a save conflict: `o` (overwrite) and `t` (take the
    /// file's version) are left to the main loop through the pending key;
    /// Esc retries later. Each closes the popup. Returns whether the
    /// recorded conflict is to be cleared (Esc).
    pub fn handle_conflict_resolution_popup(&mut self, key: Key) -> (clear_conflict: bool)
        requires
            old(self).well_formed(),
        ensures
            final(self).well_formed(),
            clear_conflict == (key == Key::Esc),
            ({
                let pending = match key {
                    Key::Char(c) => if c == 'o' || c == 'O' {
                        Some('o')
                    } else if c == 't' || c == 'T' {
                        Some('t')
                    } else {
                        None
                    },
                    _ => None,
                };
                if pending.is_some() {
                    &&& old(self).unchanged_except(final(self), (Touched { mode: true, pending: true, ..untouched() }))
                    &&& final(self).pending_key == pending
                    &&& super::card_detail::popped(*old(self), *final(self))
                } else if key == Key::Esc {
                    &&& old(self).unchanged_except(final(self), (Touched { mode: true, ..untouched() }))
                    &&& super::card_detail::popped(*old(self), *final(self))
                } else {
                    old(self).unchanged_except(final(self), untouched())
                }
            }),
    {
        match key {
            Key::Char(c) => {
                if c == 'o' || c == 'O' {
                    self.pending_key = Some('o');
                    self.pop_mode();
                } else if c == 't' || c == 'T' {
                    self.pending_key = Some('t');
                    self.pop_mode();
                }
                false
            },
            Key::Esc => {
                self.pop_mode();
                true
            },
            _ => false,
        }
    }

    /// The popup on a change of the data file by another program: `r`
    /// reloads it (left to the main loop through the pending key), `k`
    /// keeps the local state, Esc dismisses; each closes the popup.
    pub fn handle_external_change_detected_popup(&mut self, key: Key)
        requires
            old(self).well_formed(),
        ensures
            final(self).well_formed(),
            ({
                let reload = key == Key::Char('r') || key == Key::Char('R');
                let keep = key == Key::Char('k') || key == Key::Char('K') || key == Key::Esc;
                if reload {
                    &&& old(self).unchanged_except(final(self), (Touched { mode: true, pending: true, ..untouched() }))
                    &&& final(self).pending_key == Some('r')
                    &&& super::card_detail::popped(*old(self), *final(self))
                } else if keep {
                    &&& old(self).unchanged_except(final(self), (Touched { mode: true, ..untouched() }))
                    &&& super::card_detail::popped(*old(self), *final(self))
                } else {
                    old(self).unchanged_except(final(self), untouched())
                }
            }),
    {
        match key {
            Key::Char(c) => {
                if c == 'r' || c == 'R' {
                    self.pending_key = Some('r');
                    self.pop_mode();
                } else if c == 'k' || c == 'K' {
                    self.pop_mode();
                }
            },
            Key::Esc => self.pop_mode(),
            _ => {},
        }
    }
}

} // verus!
