//! The export dialog: picking boards, then the format and file name; the
//! export itself is handed to the caller.

use super::card_detail::popped;
use super::components::ListSelection;
use super::dialogs::{pop_input, push_input};
use super::dialogs::edited;
use super::model::{board_ids_where_archived, board_index, EntityId};
use super::relationship_dialog::{chars_of, lowercase, to_lowercase};
use super::state::DialogInputState;
use super::modes::{AppMode, DialogMode, Focus, Key, SettingsFocus};
use super::state::{untouched, App, ExportDialogState, ExportFormat, ExportStep, FocusState, SelectionState, Touched};
use vstd::prelude::*;

verus! {

/// The current UTC time as `YYYYmmdd-HHMMSS`, for export file names
/// (`chrono::Utc::now().format(..)`). Nothing is promised of the text.
#[verifier::external_body]
fn export_timestamp() -> (r: String) {
    chrono::Utc::now().format("%Y%m%d-%H%M%S").to_string()
}

/// `name` with every space made a `-`.
pub open spec fn dashed(name: Seq<char>) -> Seq<char> {
    name.map_values(|c: char| if c == ' ' { '-' } else { c })
}

/// `text` is `prefix`, some text, and `suffix`.
pub open spec fn framed(text: Seq<char>, prefix: Seq<char>, suffix: Seq<char>) -> bool {
    &&& prefix.len() + suffix.len() <= text.len()
    &&& text.take(prefix.len() as int) == prefix
    &&& text.skip(text.len() - suffix.len()) == suffix
}

/// Row of the export button in the storage panel of the settings.
pub const EXPORT_BUTTON_STORAGE_INDEX: usize = 3;

/// An export the caller is to carry out.
#[derive(Debug)]
pub struct ExportRequest {
    pub filename: String,
    pub board_ids: Vec<EntityId>,
    pub format: ExportFormat,
}

/// A character that may not stand in a file name.
pub open spec fn forbidden_in_filename(c: char) -> bool {
    c == '/' || c == '\\' || c == '\0' || c == ':' || c == '*' || c == '?' || c == '"' || c == '<' || c == '>'
        || c == '|'
}

/// Index of the last `.` of `name`.
pub open spec fn last_dot(name: Seq<char>) -> Option<int>
    decreases name.len(),
{
    if name.len() == 0 {
        None
    } else if name.last() == '.' {
        Some(name.len() - 1)
    } else {
        last_dot(name.drop_last())
    }
}

/// `name` without its extension (what follows its last `.`, the dot
/// included).
pub open spec fn stem_of(name: Seq<char>) -> Seq<char> {
    match last_dot(name) {
        Some(i) => name.take(i),
        None => name,
    }
}

/// Extension of files of `format`, with its dot.
pub open spec fn extension_of(format: ExportFormat) -> Seq<char> {
    match format {
        ExportFormat::Json => seq!['.', 'j', 's', 'o', 'n'],
        ExportFormat::Sqlite => seq!['.', 's', 'q', 'l', 'i', 't', 'e'],
    }
}

/// The other format.
pub open spec fn other_format(format: ExportFormat) -> ExportFormat {
    match format {
        ExportFormat::Json => ExportFormat::Sqlite,
        ExportFormat::Sqlite => ExportFormat::Json,
    }
}

/// Ids of the picked boards of the dialog, in order.
pub open spec fn picked_ids(ids: Seq<EntityId>, flags: Seq<bool>) -> Seq<EntityId>
    decreases ids.len(),
{
    if ids.len() == 0 || flags.len() < ids.len() {
        seq![]
    } else {
        let rest = picked_ids(ids.drop_last(), flags.take(ids.len() - 1));
        if flags[ids.len() - 1] {
            rest.push(ids.last())
        } else {
            rest
        }
    }
}

/// The dialog a fresh export starts from: every live board offered, the
/// boards picked in the projects panel preselected (all of them when none
/// is), the cursor on the first one, JSON to `filename`.
pub open spec fn fresh_export(d: ExportDialogState, live: Seq<EntityId>, picked: Seq<EntityId>, filename: Seq<char>) -> bool {
    &&& d.step == ExportStep::SelectBoards
    &&& d.cursor == 0
    &&& d.board_ids@ == live
    &&& d.board_selections@.len() == live.len()
    &&& forall|i: int| 0 <= i < live.len() ==> #[trigger] d.board_selections@[i] == (picked.len() == 0 || picked.contains(live[i]))
    &&& d.format == ExportFormat::Json
    &&& d.filename@ == filename
}

/// What opening the export dialog does.
pub open spec fn export_opened(before: App, after: App, filename: Seq<char>) -> bool {
    let live = board_ids_where_archived(before.model.boards@, false);
    if live.len() == 0 {
        &&& before.unchanged_except(&after, (Touched { error: true, ..untouched() }))
        &&& after.error_message matches Some(m) && m@ == "No boards to export"@
    } else {
        &&& before.unchanged_except(&after, (Touched { export: true, mode: true, ..untouched() }))
        &&& after.mode == AppMode::Dialog(DialogMode::ExportBoards)
        &&& after.mode_stack@ == before.mode_stack@.push(before.mode)
        &&& after.export_dialog matches Some(d) && fresh_export(d, live, before.multi_select.selected_boards@, filename)
    }
}

/// The export dialog's flags match its boards and its cursor is on one of
/// them (or there is none).
pub open spec fn export_dialog_ok(app: App) -> bool {
    app.export_dialog matches Some(d) ==> d.board_selections@.len() == d.board_ids@.len() && (d.cursor
        < d.board_ids@.len() || d.board_ids@.len() == 0)
}

/// `after` is `before` with only the export dialog changed, to `e`.
pub open spec fn export_now(before: App, after: App, e: ExportDialogState) -> bool {
    &&& before.unchanged_except(&after, (Touched { export: true, ..untouched() }))
    &&& after.export_dialog matches Some(a) && a.step == e.step && a.cursor == e.cursor && a.board_ids@
        == e.board_ids@ && a.board_selections@ == e.board_selections@ && a.format == e.format && a.filename@
        == e.filename@
}

/// The export dialog closed and forgotten.
pub open spec fn export_closed(before: App, after: App) -> bool {
    &&& before.unchanged_except(&after, (Touched { export: true, mode: true, ..untouched() }))
    &&& popped(before, after)
    &&& after.export_dialog.is_none()
}

/// The request an export dialog makes, when it names a board and a file.
pub open spec fn export_request_of(d: ExportDialogState) -> Option<(Seq<char>, Seq<EntityId>, ExportFormat)> {
    let ids = picked_ids(d.board_ids@, d.board_selections@);
    if ids.len() == 0 || d.filename@.len() == 0 {
        None
    } else {
        Some((d.filename@, ids, d.format))
    }
}

/// What a key does in the export dialog, and the export it asks for.
pub open spec fn export_key_handled(before: App, after: App, key: Key, r: Option<ExportRequest>) -> bool {
    let same = before.unchanged_except(&after, untouched()) && r.is_none();
    match before.export_dialog {
        None => same,
        Some(d) => {
            let n = d.board_selections@.len();
            match d.step {
                ExportStep::SelectBoards => match key {
                    Key::Char(' ') => r.is_none() && export_now(
                        before,
                        after,
                        ExportDialogState {
                            board_selections: after.export_dialog.unwrap().board_selections,
                            ..d
                        },
                    ) && (d.cursor < n ==> after.export_dialog.unwrap().board_selections@ == d.board_selections@.update(
                        d.cursor as int,
                        !d.board_selections@[d.cursor as int],
                    )),
                    Key::Char('a') => r.is_none() && export_now(
                        before,
                        after,
                        ExportDialogState { board_selections: after.export_dialog.unwrap().board_selections, ..d },
                    ) && after.export_dialog.unwrap().board_selections@.len() == n && (forall|k: int|
                        0 <= k < n ==> #[trigger] after.export_dialog.unwrap().board_selections@[k]),
                    Key::Char('j') | Key::Down => r.is_none() && if n > 0 {
                        export_now(before, after, ExportDialogState { cursor: ((d.cursor + 1) % (n as int)) as usize, ..d })
                    } else {
                        same
                    },
                    Key::Char('k') | Key::Up => r.is_none() && if n > 0 {
                        export_now(
                            before,
                            after,
                            ExportDialogState { cursor: ((d.cursor + n - 1) % (n as int)) as usize, ..d },
                        )
                    } else {
                        same
                    },
                    Key::Enter => r.is_none() && if exists|k: int| 0 <= k < n && #[trigger] d.board_selections@[k] {
                        export_now(before, after, ExportDialogState { step: ExportStep::ExportOptions, ..d })
                    } else {
                        same
                    },
                    Key::Esc => r.is_none() && export_closed(before, after),
                    _ => same,
                },
                ExportStep::ExportOptions => match key {
                    Key::Tab | Key::BackTab => r.is_none() && export_now(
                        before,
                        after,
                        ExportDialogState {
                            format: other_format(d.format),
                            filename: after.export_dialog.unwrap().filename,
                            ..d
                        },
                    ) && after.export_dialog.unwrap().filename@ == stem_of(d.filename@) + extension_of(
                        other_format(d.format),
                    ),
                    Key::Backspace => r.is_none() && export_now(
                        before,
                        after,
                        ExportDialogState { filename: after.export_dialog.unwrap().filename, ..d },
                    ) && after.export_dialog.unwrap().filename@ == if d.filename@.len() > 0 {
                        d.filename@.drop_last()
                    } else {
                        d.filename@
                    },
                    Key::Char(c) => r.is_none() && if forbidden_in_filename(c) {
                        same
                    } else {
                        export_now(before, after, ExportDialogState { filename: after.export_dialog.unwrap().filename, ..d })
                            && after.export_dialog.unwrap().filename@ == d.filename@.push(c)
                    },
                    Key::Enter => match export_request_of(d) {
                        Some((name, ids, format)) => {
                            &&& r matches Some(q) && q.filename@ == name && q.board_ids@ == ids && q.format == format
                            &&& export_closed(before, after)
                        },
                        None => {
                            &&& r.is_none()
                            &&& before.unchanged_except(&after, (Touched { error: true, ..untouched() }))
                            &&& after.error_message matches Some(m) && m@ == "No boards selected or filename empty"@
                        },
                    },
                    Key::Esc => r.is_none() && export_now(
                        before,
                        after,
                        ExportDialogState { step: ExportStep::SelectBoards, ..d },
                    ),
                    _ => same,
                },
            }
        },
    }
}

impl ExportDialogState {
    /// The dialog a fresh export starts from (see `fresh_export`).
    pub fn from_selection(live: Vec<EntityId>, picked: &Vec<EntityId>, filename: String) -> (r: Self)
        ensures
            fresh_export(r, live@, picked@, filename@),
    {
        let mut flags: Vec<bool> = Vec::new();
        let none_picked = picked.len() == 0;
        let mut i: usize = 0;
        while i < live.len()
            invariant
                i <= live@.len(),
                none_picked == (picked@.len() == 0),
                flags@.len() == i,
                forall|k: int| 0 <= k < i ==> #[trigger] flags@[k] == (picked@.len() == 0 || picked@.contains(live@[k])),
            decreases live@.len() - i,
        {
            let f = none_picked || super::model::contains_id(picked, live[i]);
            flags.push(f);
            i = i + 1;
        }
        ExportDialogState {
            step: ExportStep::SelectBoards,
            cursor: 0,
            board_ids: live,
            board_selections: flags,
            format: ExportFormat::Json,
            filename,
        }
    }

    /// Flips whether board `i` is picked.
    pub fn toggle(&mut self, i: usize)
        ensures
            i < old(self).board_selections@.len() ==> final(self).board_selections@ == old(
                self,
            ).board_selections@.update(i as int, !old(self).board_selections@[i as int]),
            i >= old(self).board_selections@.len() ==> final(self).board_selections@ == old(self).board_selections@,
            final(self).step == old(self).step,
            final(self).cursor == old(self).cursor,
            final(self).board_ids == old(self).board_ids,
            final(self).format == old(self).format,
            final(self).filename == old(self).filename,
    {
        if i < self.board_selections.len() {
            let v = !self.board_selections[i];
            self.board_selections.set(i, v);
        }
    }

    /// Picks every board.
    pub fn select_all(&mut self)
        ensures
            final(self).board_selections@.len() == old(self).board_selections@.len(),
            forall|k: int| 0 <= k < final(self).board_selections@.len() ==> #[trigger] final(self).board_selections@[k],
            final(self).step == old(self).step,
            final(self).cursor == old(self).cursor,
            final(self).board_ids == old(self).board_ids,
            final(self).format == old(self).format,
            final(self).filename == old(self).filename,
    {
        let mut k: usize = 0;
        while k < self.board_selections.len()
            invariant
                k <= self.board_selections@.len(),
                self.board_selections@.len() == old(self).board_selections@.len(),
                forall|m: int| 0 <= m < k ==> #[trigger] self.board_selections@[m],
                self.step == old(self).step,
                self.cursor == old(self).cursor,
                self.board_ids == old(self).board_ids,
                self.format == old(self).format,
                self.filename == old(self).filename,
            decreases self.board_selections@.len() - k,
        {
            self.board_selections.set(k, true);
            k = k + 1;
        }
    }

    /// Whether a board is picked.
    pub fn any_selected(&self) -> (r: bool)
        ensures
            r == exists|k: int| 0 <= k < self.board_selections@.len() && #[trigger] self.board_selections@[k],
    {
        let mut k: usize = 0;
        while k < self.board_selections.len()
            invariant
                k <= self.board_selections@.len(),
                forall|m: int| 0 <= m < k ==> !#[trigger] self.board_selections@[m],
            decreases self.board_selections@.len() - k,
        {
            if self.board_selections[k] {
                return true;
            }
            k = k + 1;
        }
        false
    }

    /// Ids of the picked boards, in order.
    pub fn selected_ids(&self) -> (r: Vec<EntityId>)
        ensures
            r@ == picked_ids(self.board_ids@, self.board_selections@),
    {
        let mut r: Vec<EntityId> = Vec::new();
        if self.board_selections.len() < self.board_ids.len() {
            return r;
        }
        let mut k: usize = 0;
        while k < self.board_ids.len()
            invariant
                k <= self.board_ids@.len(),
                self.board_ids@.len() <= self.board_selections@.len(),
                r@ == picked_ids(self.board_ids@.take(k as int), self.board_selections@.take(k as int)),
            decreases self.board_ids@.len() - k,
        {
            proof {
                assert(self.board_ids@.take(k + 1).drop_last() =~= self.board_ids@.take(k as int));
                assert(self.board_selections@.take(k + 1).take(k as int) =~= self.board_selections@.take(k as int));
            }
            if self.board_selections[k] {
                r.push(self.board_ids[k]);
            }
            k = k + 1;
        }
        proof {
            assert(self.board_ids@.take(self.board_ids@.len() as int) =~= self.board_ids@);
            lemma_picked_ids_take(self.board_ids@, self.board_selections@);
        }
        r
    }
}

proof fn lemma_picked_ids_take(ids: Seq<EntityId>, flags: Seq<bool>)
    requires
        ids.len() <= flags.len(),
    ensures
        picked_ids(ids, flags.take(ids.len() as int)) == picked_ids(ids, flags),
    decreases ids.len(),
{
    if ids.len() > 0 {
        assert(flags.take(ids.len() as int).take(ids.len() - 1) =~= flags.take(ids.len() - 1));
    }
}

proof fn lemma_last_dot_in_range(name: Seq<char>)
    ensures
        last_dot(name) matches Some(i) ==> 0 <= i < name.len(),
    decreases name.len(),
{
    if name.len() > 0 {
        lemma_last_dot_in_range(name.drop_last());
    }
}

/// Appends the characters of `t` to `s`.
fn push_chars(s: &mut String, t: &Vec<char>)
    ensures
        final(s)@ == old(s)@ + t@,
{
    let mut k: usize = 0;
    while k < t.len()
        invariant
            k <= t@.len(),
            s@ == old(s)@ + t@.take(k as int),
        decreases t@.len() - k,
    {
        push_input(s, t[k]);
        proof {
            assert(t@.take(k + 1) =~= t@.take(k as int).push(t@[k as int]));
            assert(old(s)@ + t@.take(k + 1) =~= (old(s)@ + t@.take(k as int)).push(t@[k as int]));
        }
        k = k + 1;
    }
    proof {
        assert(t@.take(t@.len() as int) =~= t@);
    }
}

/// `name` with every space made a `-`.
fn dash_spaces(name: &String) -> (r: String)
    ensures
        r@ == dashed(name@),
{
    let chars = chars_of(name.as_str());
    let mut r = String::new();
    let mut k: usize = 0;
    while k < chars.len()
        invariant
            k <= chars@.len(),
            chars@ == name@,
            r@ == dashed(name@).take(k as int),
        decreases chars@.len() - k,
    {
        let c = chars[k];
        push_input(&mut r, if c == ' ' { '-' } else { c });
        proof {
            assert(dashed(name@).take(k + 1) =~= dashed(name@).take(k as int).push(if c == ' ' { '-' } else { c }));
        }
        k = k + 1;
    }
    proof {
        assert(dashed(name@).take(chars@.len() as int) =~= dashed(name@));
    }
    r
}

/// `prefix`, then `middle`, then `suffix`.
fn framed_name(prefix: &Vec<char>, middle: &String, suffix: &Vec<char>) -> (r: String)
    ensures
        r@ == prefix@ + middle@ + suffix@,
        framed(r@, prefix@, suffix@),
{
    let mut r = String::new();
    push_chars(&mut r, prefix);
    let m = chars_of(middle.as_str());
    push_chars(&mut r, &m);
    push_chars(&mut r, suffix);
    proof {
        let t = prefix@ + middle@ + suffix@;
        assert(r@ =~= t);
        assert(t.take(prefix@.len() as int) =~= prefix@);
        assert(t.skip(t.len() - suffix@.len()) =~= suffix@);
    }
    r
}

/// Index of the last `.` of `name`.
fn find_last_dot(name: &Vec<char>) -> (r: Option<usize>)
    ensures
        match r {
            Some(i) => last_dot(name@) == Some(i as int),
            None => last_dot(name@).is_none(),
        },
{
    let mut j: usize = name.len();
    proof {
        assert(name@.take(j as int) =~= name@);
    }
    while j > 0
        invariant
            j <= name@.len(),
            last_dot(name@) == last_dot(name@.take(j as int)),
        decreases j,
    {
        proof {
            assert(name@.take(j as int).drop_last() =~= name@.take(j - 1));
        }
        if name[j - 1] == '.' {
            return Some(j - 1);
        }
        j = j - 1;
    }
    None
}

impl App {
    /// Opens the export dialog over the live boards (see `fresh_export`),
    /// saving to `filename`; says so in the error banner when there is no
    /// live board.
    pub fn open_export_boards_dialog(&mut self, filename: String)
        requires
            old(self).well_formed(),
        ensures
            export_opened(*old(self), *final(self), filename@),
            final(self).well_formed(),
    {
        let live = self.model.displayed_board_ids(false);
        if live.len() == 0 {
            self.set_error("No boards to export");
            return;
        }
        let d = ExportDialogState::from_selection(live, &self.multi_select.selected_boards, filename);
        self.export_dialog = Some(d);
        self.push_mode(AppMode::Dialog(DialogMode::ExportBoards));
    }

    /// The export button of the storage settings: opens the export dialog
    /// (see `open_export_boards_dialog`); never asks for a terminal restart.
    pub fn trigger_export(&mut self, filename: String) -> (restart: bool)
        requires
            old(self).well_formed(),
        ensures
            !restart,
            export_opened(*old(self), *final(self), filename@),
            final(self).well_formed(),
    {
        self.open_export_boards_dialog(filename);
        false
    }

    /// Enter in the options of the export dialog: hands back the export of
    /// the picked boards and closes the dialog, or refuses with an error
    /// when no board is picked or the file name is empty.
    fn execute_export(&mut self) -> (r: Option<ExportRequest>)
        requires
            old(self).well_formed(),
            old(self).export_dialog.is_some(),
        ensures
            final(self).well_formed(),
            match export_request_of(old(self).export_dialog.unwrap()) {
                Some((name, ids, format)) => {
                    &&& r matches Some(q) && q.filename@ == name && q.board_ids@ == ids && q.format == format
                    &&& export_closed(*old(self), *final(self))
                },
                None => {
                    &&& r.is_none()
                    &&& old(self).unchanged_except(final(self), (Touched { error: true, ..untouched() }))
                    &&& final(self).error_message matches Some(m) && m@ == "No boards selected or filename empty"@
                },
            },
    {
        let (ids, filename, format) = match &self.export_dialog {
            Some(d) => (d.selected_ids(), d.filename.clone(), d.format),
            None => {
                return None;
            },
        };
        if ids.len() == 0 || filename.as_str().unicode_len() == 0 {
            self.set_error("No boards selected or filename empty");
            return None;
        }
        self.export_dialog = None;
        self.pop_mode();
        Some(ExportRequest { filename, board_ids: ids, format })
    }

    /// A key in the export dialog; returns the export to carry out, if any
    /// (see `export_key_handled`).
    #[verifier::rlimit(60)]
    pub fn handle_export_boards_dialog(&mut self, key: Key) -> (r: Option<ExportRequest>)
        requires
            old(self).well_formed(),
            export_dialog_ok(*old(self)),
        ensures
            export_key_handled(*old(self), *final(self), key, r),
            export_dialog_ok(*final(self)),
            final(self).well_formed(),
    {
        let Some(d) = &mut self.export_dialog else {
            return None;
        };
        match d.step {
            ExportStep::SelectBoards => match key {
                Key::Char(' ') => {
                    let c = d.cursor;
                    d.toggle(c);
                    None
                },
                Key::Char('a') => {
                    d.select_all();
                    None
                },
                Key::Char('j') | Key::Down => {
                    let n = d.board_selections.len();
                    if n > 0 {
                        d.cursor = (d.cursor + 1) % n;
                    }
                    None
                },
                Key::Char('k') | Key::Up => {
                    let n = d.board_selections.len();
                    if n > 0 {
                        let c = d.cursor;
                        proof {
                            if c > 0 {
                                assert((c + n - 1) % (n as int) == c - 1) by (nonlinear_arith)
                                    requires
                                        0 < c < n,
                                ;
                            } else {
                                assert((c + n - 1) % (n as int) == n - 1) by (nonlinear_arith)
                                    requires
                                        c == 0,
                                        n > 0,
                                ;
                            }
                        }
                        d.cursor = if c == 0 {
                            n - 1
                        } else {
                            c - 1
                        };
                    }
                    None
                },
                Key::Enter => {
                    if d.any_selected() {
                        d.step = ExportStep::ExportOptions;
                    }
                    None
                },
                Key::Esc => {
                    self.export_dialog = None;
                    self.pop_mode();
                    None
                },
                _ => None,
            },
            ExportStep::ExportOptions => match key {
                Key::Tab | Key::BackTab => {
                    let format = match d.format {
                        ExportFormat::Json => ExportFormat::Sqlite,
                        ExportFormat::Sqlite => ExportFormat::Json,
                    };
                    let name = super::dialogs::chars_of_string(&d.filename);
                    proof {
                        lemma_last_dot_in_range(name@);
                    }
                    let stem_len = match find_last_dot(&name) {
                        Some(i) => i,
                        None => name.len(),
                    };
                    let mut f = String::new();
                    let mut k: usize = 0;
                    while k < stem_len
                        invariant
                            k <= stem_len <= name@.len(),
                            f@ == name@.take(k as int),
                        decreases stem_len - k,
                    {
                        push_input(&mut f, name[k]);
                        proof {
                            assert(name@.take(k + 1) =~= name@.take(k as int).push(name@[k as int]));
                        }
                        k = k + 1;
                    }
                    let ghost stem = f@;
                    match format {
                        ExportFormat::Json => {
                            push_input(&mut f, '.');
                            push_input(&mut f, 'j');
                            push_input(&mut f, 's');
                            push_input(&mut f, 'o');
                            push_input(&mut f, 'n');
                        },
                        ExportFormat::Sqlite => {
                            push_input(&mut f, '.');
                            push_input(&mut f, 's');
                            push_input(&mut f, 'q');
                            push_input(&mut f, 'l');
                            push_input(&mut f, 'i');
                            push_input(&mut f, 't');
                            push_input(&mut f, 'e');
                        },
                    }
                    proof {
                        assert(stem =~= stem_of(name@));
                        assert(f@ =~= stem_of(name@) + extension_of(format));
                    }
                    d.format = format;
                    d.filename = f;
                    None
                },
                Key::Backspace => {
                    pop_input(&mut d.filename);
                    None
                },
                Key::Char(c) => {
                    if !(c == '/' || c == '\\' || c == '\0' || c == ':' || c == '*' || c == '?' || c == '"' || c == '<'
                        || c == '>' || c == '|') {
                        push_input(&mut d.filename, c);
                    }
                    None
                },
                Key::Enter => self.execute_export(),
                Key::Esc => {
                    d.step = ExportStep::SelectBoards;
                    None
                },
                _ => None,
            },
        }
    }

    /// `E` on the projects panel: the export-board dialog opens on a file
    /// name made of the highlighted board's name (spaces as `-`, lowercased),
    /// a `-`, the current time, and `.json`.
    pub fn handle_export_board_key(&mut self)
        requires
            old(self).well_formed(),
        ensures
            final(self).well_formed(),
            match (old(self).focus.active == Focus::Boards, old(self).board_list.selected_id()) {
                (true, Some(id)) => match board_index(old(self).model.boards@, id) {
                    Some(i) => {
                        &&& old(self).unchanged_except(final(self), (Touched { mode: true, input: true, ..untouched() }))
                        &&& final(self).mode == AppMode::Dialog(DialogMode::ExportBoard)
                        &&& final(self).mode_stack@ == old(self).mode_stack@.push(old(self).mode)
                        &&& framed(
                            final(self).input@,
                            lowercase(dashed(old(self).model.boards@[i].name@)) + seq!['-'],
                            seq!['.', 'j', 's', 'o', 'n'],
                        )
                    },
                    None => old(self).unchanged_except(final(self), untouched()),
                },
                _ => old(self).unchanged_except(final(self), untouched()),
            },
    {
        if self.focus.active != Focus::Boards {
            return;
        }
        let Some(id) = self.board_list.get_selected_board_id() else {
            return;
        };
        let Some(i) = self.model.board_by_id(id) else {
            return;
        };
        let d = dash_spaces(&self.model.boards[i].name);
        let lower = to_lowercase(d.as_str());
        let mut prefix = chars_of(lower.as_str());
        prefix.push('-');
        let suffix = vec!['.', 'j', 's', 'o', 'n'];
        let ts = export_timestamp();
        proof {
            assert(prefix@ =~= lowercase(dashed(self.model.boards@[i as int].name@)) + seq!['-']);
            assert(suffix@ =~= seq!['.', 'j', 's', 'o', 'n']);
        }
        self.input = framed_name(&prefix, &ts, &suffix);
        self.open_dialog(DialogMode::ExportBoard);
    }

    /// `X` on the projects panel with a live board: the export-all dialog
    /// opens on `kanban-all-`, the current time, and `.json`.
    pub fn handle_export_all_key(&mut self)
        requires
            old(self).well_formed(),
        ensures
            final(self).well_formed(),
            if old(self).focus.active == Focus::Boards && board_ids_where_archived(old(self).model.boards@, false).len()
                > 0 {
                &&& old(self).unchanged_except(final(self), (Touched { mode: true, input: true, ..untouched() }))
                &&& final(self).mode == AppMode::Dialog(DialogMode::ExportAll)
                &&& final(self).mode_stack@ == old(self).mode_stack@.push(old(self).mode)
                &&& framed(
                    final(self).input@,
                    seq!['k', 'a', 'n', 'b', 'a', 'n', '-', 'a', 'l', 'l', '-'],
                    seq!['.', 'j', 's', 'o', 'n'],
                )
            } else {
                old(self).unchanged_except(final(self), untouched())
            },
    {
        if self.focus.active != Focus::Boards {
            return;
        }
        let live = self.model.displayed_board_ids(false);
        if live.len() == 0 {
            return;
        }
        let prefix = vec!['k', 'a', 'n', 'b', 'a', 'n', '-', 'a', 'l', 'l', '-'];
        let suffix = vec!['.', 'j', 's', 'o', 'n'];
        let ts = export_timestamp();
        proof {
            assert(prefix@ =~= seq!['k', 'a', 'n', 'b', 'a', 'n', '-', 'a', 'l', 'l', '-']);
            assert(suffix@ =~= seq!['.', 'j', 's', 'o', 'n']);
        }
        self.input = framed_name(&prefix, &ts, &suffix);
        self.open_dialog(DialogMode::ExportAll);
    }

    /// A key in the export-board or export-all dialog: Enter hands back the
    /// file name to export to; Enter and Esc close the dialog with an empty
    /// input; other keys edit the name.
    pub fn handle_export_file_dialog(&mut self, key: Key) -> (r: Option<String>)
        requires
            old(self).well_formed(),
        ensures
            final(self).well_formed(),
            match key {
                Key::Enter => {
                    &&& r matches Some(name) && name@ == old(self).input@
                    &&& old(self).unchanged_except(final(self), (Touched { mode: true, input: true, ..untouched() }))
                    &&& super::card_detail::popped(*old(self), *final(self))
                    &&& final(self).input@.len() == 0
                },
                Key::Esc => {
                    &&& r.is_none()
                    &&& old(self).unchanged_except(final(self), (Touched { mode: true, input: true, ..untouched() }))
                    &&& super::card_detail::popped(*old(self), *final(self))
                    &&& final(self).input@.len() == 0
                },
                _ => {
                    &&& r.is_none()
                    &&& old(self).unchanged_except(final(self), (Touched { input: true, ..untouched() }))
                    &&& final(self).input@ == edited(old(self).input@, key)
                },
            },
    {
        match key {
            Key::Enter => {
                let name = self.input.clone();
                self.pop_mode();
                self.input = String::new();
                Some(name)
            },
            Key::Esc => {
                self.pop_mode();
                self.input = String::new();
                None
            },
            _ => {
                super::dialogs::handle_dialog_input(&mut self.input, key);
                None
            },
        }
    }

    /// A key in the export-board dialog (see `handle_export_file_dialog`).
    pub fn handle_export_board_dialog(&mut self, key: Key) -> (r: Option<String>)
        requires
            old(self).well_formed(),
        ensures
            final(self).well_formed(),
            key == Key::Enter ==> (r matches Some(name) && name@ == old(self).input@),
            key != Key::Enter ==> r.is_none(),
            key == Key::Enter || key == Key::Esc ==> old(self).unchanged_except(
                final(self),
                (Touched { mode: true, input: true, ..untouched() }),
            ) && super::card_detail::popped(*old(self), *final(self)) && final(self).input@.len() == 0,
            key != Key::Enter && key != Key::Esc ==> old(self).unchanged_except(
                final(self),
                (Touched { input: true, ..untouched() }),
            ) && final(self).input@ == edited(old(self).input@, key),
    {
        self.handle_export_file_dialog(key)
    }

    /// A key in the export-all dialog (see `handle_export_file_dialog`).
    pub fn handle_export_all_dialog(&mut self, key: Key) -> (r: Option<String>)
        requires
            old(self).well_formed(),
        ensures
            final(self).well_formed(),
            key == Key::Enter ==> (r matches Some(name) && name@ == old(self).input@),
            key != Key::Enter ==> r.is_none(),
            key == Key::Enter || key == Key::Esc ==> old(self).unchanged_except(
                final(self),
                (Touched { mode: true, input: true, ..untouched() }),
            ) && super::card_detail::popped(*old(self), *final(self)) && final(self).input@.len() == 0,
            key != Key::Enter && key != Key::Esc ==> old(self).unchanged_except(
                final(self),
                (Touched { input: true, ..untouched() }),
            ) && final(self).input@ == edited(old(self).input@, key),
    {
        self.handle_export_file_dialog(key)
    }

    /// A key in the import dialog: `j`/`k` move through the offered files;
    /// Enter or space hands back the highlighted file to import; Enter,
    /// space and Esc close the dialog and clear its selection.
    pub fn handle_import_board_popup(&mut self, key: Key) -> (r: Option<String>)
        requires
            old(self).well_formed(),
        ensures
            final(self).well_formed(),
            match key {
                Key::Esc | Key::Enter | Key::Char(' ') => {
                    &&& old(self).unchanged_except(final(self), (Touched { mode: true, dialog_input: true, ..untouched() }))
                    &&& super::card_detail::popped(*old(self), *final(self))
                    &&& final(self).dialog_input == (DialogInputState {
                        import_selection: ListSelection { selected: None },
                        ..old(self).dialog_input
                    })
                    &&& match (key, old(self).dialog_input.import_selection.selected) {
                        (Key::Esc, _) => r.is_none(),
                        (_, Some(i)) => if i < old(self).dialog_input.import_files@.len() {
                            r matches Some(f) && f@ == old(self).dialog_input.import_files@[i as int]@
                        } else {
                            r.is_none()
                        },
                        _ => r.is_none(),
                    }
                },
                Key::Char('j') | Key::Down => {
                    &&& r.is_none()
                    &&& old(self).unchanged_except(final(self), (Touched { dialog_input: true, ..untouched() }))
                    &&& final(self).dialog_input == (DialogInputState {
                        import_selection: ListSelection {
                            selected: super::components::next_row(
                                old(self).dialog_input.import_selection.selected,
                                old(self).dialog_input.import_files@.len() as usize,
                            ),
                        },
                        ..old(self).dialog_input
                    })
                },
                Key::Char('k') | Key::Up => {
                    &&& r.is_none()
                    &&& old(self).unchanged_except(final(self), (Touched { dialog_input: true, ..untouched() }))
                    &&& final(self).dialog_input == (DialogInputState {
                        import_selection: ListSelection {
                            selected: super::components::prev_row(old(self).dialog_input.import_selection.selected),
                        },
                        ..old(self).dialog_input
                    })
                },
                _ => r.is_none() && old(self).unchanged_except(final(self), untouched()),
            },
    {
        match key {
            Key::Esc => {
                self.pop_mode();
                self.dialog_input.import_selection.clear();
                None
            },
            Key::Char('j') | Key::Down => {
                let n = self.dialog_input.import_files.len();
                self.dialog_input.import_selection.next(n);
                None
            },
            Key::Char('k') | Key::Up => {
                self.dialog_input.import_selection.prev();
                None
            },
            Key::Enter | Key::Char(' ') => {
                let mut file: Option<String> = None;
                if let Some(i) = self.dialog_input.import_selection.get() {
                    if i < self.dialog_input.import_files.len() {
                        file = Some(self.dialog_input.import_files[i].clone());
                    }
                }
                self.pop_mode();
                self.dialog_input.import_selection.clear();
                file
            },
            _ => None,
        }
    }
}

/// Board `id` is ticked, at place `k` of the dialog.
pub open spec fn ticked_at(ids: Seq<EntityId>, flags: Seq<bool>, k: int, id: EntityId) -> bool {
    0 <= k < ids.len() && k < flags.len() && flags[k] && ids[k] == id
}

/// The exported boards are the ticked ones: every ticked board is exported,
/// every exported board is a ticked one, and as many are exported as are
/// ticked.
pub proof fn law_export_takes_every_ticked_board(ids: Seq<EntityId>, flags: Seq<bool>)
    requires
        flags.len() == ids.len(),
    ensures
        forall|k: int| 0 <= k < ids.len() && #[trigger] flags[k] ==> picked_ids(ids, flags).contains(ids[k]),
        forall|id: EntityId| #[trigger] picked_ids(ids, flags).contains(id) ==> exists|k: int| ticked_at(ids, flags, k, id),
        picked_ids(ids, flags).len() == flags.filter(|b: bool| b).len(),
    decreases ids.len(),
{
    if ids.len() > 0 {
        let n = ids.len() - 1;
        let ids0 = ids.drop_last();
        let flags0 = flags.take(n);
        let p0 = picked_ids(ids0, flags0);
        let p = picked_ids(ids, flags);
        law_export_takes_every_ticked_board(ids0, flags0);
        assert(flags =~= flags0.push(flags[n]));
        flags0.lemma_filter_push(flags[n], |b: bool| b);
        assert forall|k: int| 0 <= k < ids.len() && #[trigger] flags[k] implies p.contains(ids[k]) by {
            if k < n {
                assert(flags0[k] == flags[k]);
                assert(ids0[k] == ids[k]);
                let j = choose|j: int| 0 <= j < p0.len() && p0[j] == ids0[k];
                assert(p[j] == p0[j]);
            } else {
                assert(p[p.len() - 1] == ids.last());
            }
        }
        assert forall|id: EntityId| #[trigger] p.contains(id) implies exists|k: int| ticked_at(ids, flags, k, id) by {
            let j = choose|j: int| 0 <= j < p.len() && p[j] == id;
            if j < p0.len() {
                assert(p[j] == p0[j]);
                assert(p0.contains(id));
                let k = choose|k: int| ticked_at(ids0, flags0, k, id);
                assert(flags[k] == flags0[k]);
                assert(ids[k] == ids0[k]);
                assert(ticked_at(ids, flags, k, id));
            } else {
                assert(ticked_at(ids, flags, n, id));
            }
        }
    } else {
        assert(flags.filter(|b: bool| b) =~= Seq::<bool>::empty());
        assert(picked_ids(ids, flags).len() == 0);
    }
}

} // verus!
