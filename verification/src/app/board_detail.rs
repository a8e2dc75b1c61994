//! The project detail view: its sections (name, description, settings,
//! sprints, columns), the sprint and column lists, and the column keys.

use super::components::{next_row, prev_row, recounted, reselected, row_above, row_below, ListSelection, ScrollList};
use super::model::{count_where, Column, EntityId, Sprint};
use super::modes::{AppMode, BoardFocus, DialogMode, Key};
use super::render_plan::board_in_context;
use super::relationship_dialog::{chars_of, contains_part, has_part, lowercase, to_lowercase};
use super::settings::or_first;
use super::sprint_ops::{refilled, sprint_card_ids};
use super::state::{untouched, App, DialogInputState, FocusState, SelectionState, Touched};
use vstd::prelude::*;

verus! {

/// Column `i` comes before column `j`: by position, then by creation time,
/// then by place in the model.
pub open spec fn column_before(columns: Seq<Column>, i: int, j: int) -> bool {
    ||| columns[i].position < columns[j].position
    ||| columns[i].position == columns[j].position && columns[i].created_at < columns[j].created_at
    ||| columns[i].position == columns[j].position && columns[i].created_at == columns[j].created_at && i < j
}

/// `order` lists the positions in `columns` of the columns of `board`, each
/// once, in the order of `column_before`.
pub open spec fn board_columns_ordered(columns: Seq<Column>, board: EntityId, order: Seq<usize>) -> bool {
    &&& order.no_duplicates()
    &&& forall|k: int| 0 <= k < order.len() ==> (#[trigger] order[k]) < columns.len() && columns[order[k] as int].board_id == board
    &&& forall|i: int| 0 <= i < columns.len() && (#[trigger] columns[i]).board_id == board ==> order.contains(i as usize)
    &&& forall|a: int, b: int| 0 <= a < b < order.len() ==> column_before(columns, #[trigger] order[a] as int, #[trigger] order[b] as int)
}

/// The ordered columns of a board are determined by the model alone.
pub proof fn lemma_board_columns_unique(columns: Seq<Column>, board: EntityId, o1: Seq<usize>, o2: Seq<usize>)
    requires
        board_columns_ordered(columns, board, o1),
        board_columns_ordered(columns, board, o2),
    ensures
        o1 == o2,
{
    assert forall|x: usize| o1.contains(x) <==> o2.contains(x) by {
        if o1.contains(x) {
            let k = choose|k: int| 0 <= k < o1.len() && o1[k] == x;
            assert(columns[o1[k] as int].board_id == board);
            assert(columns[x as int].board_id == board);
        }
        if o2.contains(x) {
            let k = choose|k: int| 0 <= k < o2.len() && o2[k] == x;
            assert(columns[o2[k] as int].board_id == board);
            assert(columns[x as int].board_id == board);
        }
    }
    lemma_sorted_same_set(columns, o1, o2);
}

/// Two strictly ordered sequences of the same elements are equal.
proof fn lemma_sorted_same_set(columns: Seq<Column>, s1: Seq<usize>, s2: Seq<usize>)
    requires
        forall|x: usize| s1.contains(x) <==> s2.contains(x),
        forall|k: int| 0 <= k < s1.len() ==> (#[trigger] s1[k]) < columns.len(),
        forall|k: int| 0 <= k < s2.len() ==> (#[trigger] s2[k]) < columns.len(),
        forall|a: int, b: int| 0 <= a < b < s1.len() ==> column_before(columns, #[trigger] s1[a] as int, #[trigger] s1[b] as int),
        forall|a: int, b: int| 0 <= a < b < s2.len() ==> column_before(columns, #[trigger] s2[a] as int, #[trigger] s2[b] as int),
    ensures
        s1 == s2,
    decreases s1.len(),
{
    if s1.len() == 0 {
        if s2.len() > 0 {
            assert(s2.contains(s2[0]));
        }
    } else {
        assert(s1.contains(s1[0]));
        assert(s2.len() > 0);
        assert(s2.contains(s2[0]));
        if s1[0] != s2[0] {
            assert(s2.contains(s1[0]));
            assert(s1.contains(s2[0]));
            let a = choose|a: int| 0 <= a < s2.len() && s2[a] == s1[0];
            let b = choose|b: int| 0 <= b < s1.len() && s1[b] == s2[0];
            assert(a != 0);
            assert(b != 0);
            assert(column_before(columns, s2[0] as int, s2[a] as int));
            assert(column_before(columns, s1[0] as int, s1[b] as int));
            assert(false);
        }
        let t1 = s1.drop_first();
        let t2 = s2.drop_first();
        assert forall|x: usize| t1.contains(x) <==> t2.contains(x) by {
            if t1.contains(x) {
                let k = choose|k: int| 0 <= k < t1.len() && t1[k] == x;
                assert(s1[k + 1] == x);
                assert(column_before(columns, s1[0] as int, s1[k + 1] as int));
                assert(s1.contains(x));
                assert(s2.contains(x));
                let j = choose|j: int| 0 <= j < s2.len() && s2[j] == x;
                assert(j != 0);
                assert(t2[j - 1] == x);
            }
            if t2.contains(x) {
                let k = choose|k: int| 0 <= k < t2.len() && t2[k] == x;
                assert(s2[k + 1] == x);
                assert(column_before(columns, s2[0] as int, s2[k + 1] as int));
                assert(s2.contains(x));
                assert(s1.contains(x));
                let j = choose|j: int| 0 <= j < s1.len() && s1[j] == x;
                assert(j != 0);
                assert(t1[j - 1] == x);
            }
        }
        lemma_sorted_same_set(columns, t1, t2);
        assert(s1 =~= seq![s1[0]].add(t1));
        assert(s2 =~= seq![s2[0]].add(t2));
    }
}

/// Number of sprints of `board`.
pub open spec fn sprint_count_of(sprints: Seq<Sprint>, board: EntityId) -> nat {
    count_where(sprints, |s: Sprint| s.board_id == board)
}

/// Number of columns of `board`.
pub open spec fn column_count_of(columns: Seq<Column>, board: EntityId) -> nat {
    count_where(columns, |c: Column| c.board_id == board)
}

/// The columns list entered at its top: sized to the board's columns, the
/// first one selected (none when there are none).
pub open spec fn columns_at_top(l: ScrollList, count: nat) -> ScrollList {
    reselected(
        recounted(l, count as usize),
        if count > 0 {
            Some(0usize)
        } else {
            None
        },
    )
}

/// Section focus, sprint selection and columns list after a move down
/// (`down`) or up in the project detail view. Sections cycle name,
/// description, settings, sprints, columns; inside the sprints and columns
/// lists a move walks the rows and leaves the list at its edge.
pub open spec fn board_detail_step(app: App, down: bool) -> (BoardFocus, ListSelection, ScrollList) {
    let f = app.focus.board_focus;
    let sp = app.selection.sprint;
    let cl = app.dialog_input.column_list;
    let active = app.active_board_index();
    if down {
        match f {
            BoardFocus::Sprints => match active {
                Some(bi) => {
                    let board = app.model.boards@[bi].id;
                    let n = sprint_count_of(app.model.sprints@, board);
                    if n == 0 || or_first(sp.selected) >= n - 1 {
                        (BoardFocus::Columns, sp, columns_at_top(cl, column_count_of(app.model.columns@, board)))
                    } else {
                        (BoardFocus::Sprints, ListSelection { selected: next_row(sp.selected, n as usize) }, cl)
                    }
                },
                None => (f, sp, cl),
            },
            BoardFocus::Columns => match active {
                Some(bi) => {
                    let board = app.model.boards@[bi].id;
                    let n = column_count_of(app.model.columns@, board);
                    let c2 = recounted(cl, n as usize);
                    if n > 0 && or_first(c2.selection.selected) >= n - 1 {
                        (BoardFocus::Name, ListSelection { selected: Some(0usize) }, c2)
                    } else {
                        let step = row_below(c2.selection.selected, c2.item_count as nat);
                        (BoardFocus::Columns, sp, if step.is_none() {
                            c2
                        } else {
                            reselected(c2, step)
                        })
                    }
                },
                None => (f, sp, cl),
            },
            BoardFocus::Name => (BoardFocus::Description, sp, cl),
            BoardFocus::Description => (BoardFocus::Settings, sp, cl),
            BoardFocus::Settings => (BoardFocus::Sprints, ListSelection { selected: Some(0usize) }, cl),
        }
    } else {
        match f {
            BoardFocus::Sprints => if or_first(sp.selected) == 0 {
                (BoardFocus::Settings, sp, cl)
            } else {
                (BoardFocus::Sprints, ListSelection { selected: prev_row(sp.selected) }, cl)
            },
            BoardFocus::Columns => {
                let highlighted = app.board_list.selected_id();
                let n = match highlighted {
                    Some(b) => column_count_of(app.model.columns@, b),
                    None => 0,
                };
                let c2 = recounted(cl, n as usize);
                let step = row_above(c2.selection.selected, c2.item_count as nat);
                if step.is_none() {
                    let sc = match highlighted {
                        Some(b) => sprint_count_of(app.model.sprints@, b),
                        None => 0,
                    };
                    if sc == 0 {
                        (BoardFocus::Settings, sp, c2)
                    } else {
                        (BoardFocus::Sprints, ListSelection { selected: Some((sc - 1) as usize) }, c2)
                    }
                } else {
                    (BoardFocus::Columns, sp, reselected(c2, step))
                }
            },
            BoardFocus::Name => (
                BoardFocus::Columns,
                sp,
                match active {
                    Some(bi) => columns_at_top(
                        cl,
                        column_count_of(app.model.columns@, app.model.boards@[bi].id),
                    ),
                    None => cl,
                },
            ),
            BoardFocus::Description => (BoardFocus::Name, sp, cl),
            BoardFocus::Settings => (BoardFocus::Description, sp, cl),
        }
    }
}

/// `after` is `before` with only the section focus, the sprint selection
/// and the columns list changed, to `step`.
pub open spec fn board_detail_moved_to(before: App, after: App, step: (BoardFocus, ListSelection, ScrollList)) -> bool {
    &&& before.unchanged_except(&after, (Touched { focus: true, selection: true, dialog_input: true, ..untouched() }))
    &&& after.focus == (FocusState { board_focus: step.0, ..before.focus })
    &&& after.selection == (SelectionState { sprint: step.1, ..before.selection })
    &&& after.dialog_input == (DialogInputState { column_list: step.2, ..before.dialog_input })
}

/// `after` is `before` with `dialog` opened over the current mode and the
/// input text set to `text`.
pub open spec fn input_dialog_over(before: App, after: App, dialog: DialogMode, text: Seq<char>) -> bool {
    &&& before.unchanged_except(&after, (Touched { mode: true, input: true, ..untouched() }))
    &&& after.input@ == text
    &&& after.mode == AppMode::Dialog(dialog)
    &&& after.mode_stack@ == before.mode_stack@.push(before.mode)
}

/// Work a key of the project detail view leaves to the caller.
#[derive(Debug, Clone, Copy, PartialEq, Eq, Structural)]
pub enum BoardDetailAction {
    Nothing,
    /// Edit the focused section (name, description or settings) in the
    /// external editor.
    EditFocusedField,
}

impl App {
    /// Positions in the model of the columns of `board_id`, by position and
    /// then by creation time.
    pub fn sorted_board_columns(&self, board_id: EntityId) -> (order: Vec<usize>)
        ensures
            board_columns_ordered(self.model.columns@, board_id, order@),
    {
        let ghost cs = self.model.columns@;
        let mut order: Vec<usize> = Vec::new();
        let mut i: usize = 0;
        while i < self.model.columns.len()
            invariant
                i <= cs.len(),
                cs == self.model.columns@,
                order@.no_duplicates(),
                forall|k: int| 0 <= k < order@.len() ==> (#[trigger] order@[k]) < i && cs[order@[k] as int].board_id == board_id,
                forall|j: int| 0 <= j < i && (#[trigger] cs[j]).board_id == board_id ==> order@.contains(j as usize),
                forall|a: int, b: int|
                    0 <= a < b < order@.len() ==> column_before(cs, #[trigger] order@[a] as int, #[trigger] order@[b] as int),
            decreases cs.len() - i,
        {
            if self.model.columns[i].board_id == board_id {
                let pos = self.model.columns[i].position;
                let created = self.model.columns[i].created_at;
                let mut k: usize = 0;
                while k < order.len() && (self.model.columns[order[k]].position < pos || (
                self.model.columns[order[k]].position == pos && self.model.columns[order[k]].created_at <= created))
                    invariant
                        k <= order@.len(),
                        i < cs.len(),
                        cs == self.model.columns@,
                        pos == cs[i as int].position,
                        created == cs[i as int].created_at,
                        forall|m: int| 0 <= m < order@.len() ==> (#[trigger] order@[m]) < i,
                        forall|m: int| 0 <= m < k ==> column_before(cs, #[trigger] order@[m] as int, i as int),
                    decreases order@.len() - k,
                {
                    k = k + 1;
                }
                let ghost before = order@;
                proof {
                    assert forall|m: int| k <= m < before.len() implies column_before(cs, i as int, #[trigger] before[m] as int) by {
                        if k < before.len() {
                            assert(column_before(cs, i as int, before[k as int] as int));
                            if m > k {
                                assert(column_before(cs, before[k as int] as int, before[m] as int));
                            }
                        }
                    }
                }
                order.insert(k, i);
                proof {
                    assert forall|a: int, b: int| 0 <= a < b < order@.len() implies column_before(
                        cs,
                        #[trigger] order@[a] as int,
                        #[trigger] order@[b] as int,
                    ) by {
                        if b < k {
                            assert(order@[a] == before[a]);
                            assert(order@[b] == before[b]);
                        } else if b == k {
                            assert(order@[a] == before[a]);
                        } else if a < k {
                            assert(order@[a] == before[a]);
                            assert(order@[b] == before[b - 1]);
                        } else if a == k {
                            assert(order@[b] == before[b - 1]);
                        } else {
                            assert(order@[a] == before[a - 1]);
                            assert(order@[b] == before[b - 1]);
                        }
                    }
                    assert forall|j: int| 0 <= j < i + 1 && (#[trigger] cs[j]).board_id == board_id implies order@.contains(
                        j as usize,
                    ) by {
                        if j == i {
                            assert(order@[k as int] == i);
                        } else {
                            let m = choose|m: int| 0 <= m < before.len() && before[m] == j as usize;
                            if m < k {
                                assert(order@[m] == j as usize);
                            } else {
                                assert(order@[m + 1] == j as usize);
                            }
                        }
                    }
                    assert forall|p: int, q: int| 0 <= p < q < order@.len() implies order@[p] != order@[q] by {
                        assert(column_before(cs, order@[p] as int, order@[q] as int));
                    }
                }
            }
            i = i + 1;
        }
        order
    }

    /// Number of sprints of `board_id`.
    fn sprint_count(&self, board_id: EntityId) -> (r: usize)
        ensures
            r == sprint_count_of(self.model.sprints@, board_id),
    {
        self.model.sprint_count_for_board(board_id)
    }

    /// Focuses the columns list on its first column.
    fn enter_column_focus_at_top(&mut self, board_id: EntityId)
        ensures
            old(self).unchanged_except(final(self), (Touched { dialog_input: true, ..untouched() })),
            final(self).dialog_input == (DialogInputState {
                column_list: columns_at_top(
                    old(self).dialog_input.column_list,
                    column_count_of(old(self).model.columns@, board_id),
                ),
                ..old(self).dialog_input
            }),
            old(self).well_formed() ==> final(self).well_formed(),
    {
        let column_count = self.model.column_count_for_board(board_id);
        self.dialog_input.column_list.update_item_count(column_count);
        self.dialog_input.column_list.selection.set(
            if column_count > 0 {
                Some(0)
            } else {
                None
            },
        );
    }

    /// `n` on the columns section: opens the create-column dialog with an
    /// empty name, for the active board.
    pub fn handle_create_column_key(&mut self)
        requires
            old(self).well_formed(),
        ensures
            final(self).well_formed(),
            old(self).focus.board_focus == BoardFocus::Columns && old(self).active_board_index().is_some()
                ==> input_dialog_over(*old(self), *final(self), DialogMode::CreateColumn, seq![]),
            !(old(self).focus.board_focus == BoardFocus::Columns && old(self).active_board_index().is_some())
                ==> old(self).unchanged_except(final(self), untouched()),
    {
        if self.focus.board_focus == BoardFocus::Columns && self.active_board().is_some() {
            self.open_dialog(DialogMode::CreateColumn);
            self.input = String::new();
        }
    }

    /// `n` on the sprints section: opens the create-sprint dialog with an
    /// empty name, for the active board.
    pub fn handle_create_sprint_key(&mut self)
        requires
            old(self).well_formed(),
        ensures
            final(self).well_formed(),
            old(self).focus.board_focus == BoardFocus::Sprints && old(self).active_board_index().is_some()
                ==> input_dialog_over(*old(self), *final(self), DialogMode::CreateSprint, seq![]),
            !(old(self).focus.board_focus == BoardFocus::Sprints && old(self).active_board_index().is_some())
                ==> old(self).unchanged_except(final(self), untouched()),
    {
        if self.focus.board_focus == BoardFocus::Sprints && self.active_board().is_some() {
            self.open_dialog(DialogMode::CreateSprint);
            self.input = String::new();
        }
    }

    /// The column the columns list selects, as its position in the model.
    pub open spec fn selected_column(&self) -> Option<int> {
        match (self.active_board_index(), self.dialog_input.column_list.selection.selected) {
            (Some(bi), Some(k)) => {
                let order = listed_columns(
                    *self,
                    choose|o: Seq<usize>| board_columns_ordered(self.model.columns@, self.model.boards@[bi].id, o),
                );
                if k < order.len() {
                    Some(order[k as int] as int)
                } else {
                    None
                }
            },
            _ => None,
        }
    }

    /// The columns of `order` that the columns section lists.
    pub(crate) fn listed_board_columns(&self, order: &Vec<usize>) -> (r: Vec<usize>)
        requires
            forall|k: int| 0 <= k < order@.len() ==> (#[trigger] order@[k]) < self.model.columns@.len(),
        ensures
            r@ == listed_columns(*self, order@),
            forall|k: int| 0 <= k < r@.len() ==> (#[trigger] r@[k]) < self.model.columns@.len(),
    {
        if !self.filter.column_search.is_active {
            return order.clone();
        }
        let query = to_lowercase(self.filter.column_search.query.as_str());
        let q = chars_of(query.as_str());
        let ghost app = *self;
        let ghost pred = |ci: usize| column_listed(app, ci);
        let mut r: Vec<usize> = Vec::new();
        let mut i: usize = 0;
        while i < order.len()
            invariant
                i <= order@.len(),
                app == *self,
                self.filter.column_search.is_active,
                q@ == lowercase(self.filter.column_search.query@),
                pred == (|ci: usize| column_listed(app, ci)),
                forall|k: int| 0 <= k < order@.len() ==> (#[trigger] order@[k]) < self.model.columns@.len(),
                r@ == order@.take(i as int).filter(pred),
                forall|k: int| 0 <= k < r@.len() ==> (#[trigger] r@[k]) < self.model.columns@.len(),
            decreases order@.len() - i,
        {
            let ci = order[i];
            proof {
                assert(order@.take(i + 1) =~= order@.take(i as int).push(ci));
                order@.take(i as int).lemma_filter_push(ci, pred);
            }
            let name = to_lowercase(self.model.columns[ci].name.as_str());
            let n = chars_of(name.as_str());
            if contains_part(&n, &q) {
                r.push(ci);
            }
            i = i + 1;
        }
        proof {
            assert(order@.take(order@.len() as int) =~= order@);
        }
        r
    }

    /// `r` on the columns section: opens the rename dialog on the selected
    /// column's name.
    pub fn handle_rename_column_key(&mut self)
        requires
            old(self).well_formed(),
        ensures
            final(self).well_formed(),
            old(self).focus.board_focus == BoardFocus::Columns && old(self).selected_column().is_some() ==> input_dialog_over(
                *old(self),
                *final(self),
                DialogMode::RenameColumn,
                old(self).model.columns@[old(self).selected_column().unwrap()].name@,
            ),
            !(old(self).focus.board_focus == BoardFocus::Columns && old(self).selected_column().is_some())
                ==> old(self).unchanged_except(final(self), untouched()),
    {
        if self.focus.board_focus != BoardFocus::Columns {
            return;
        }
        let Some(k) = self.dialog_input.column_list.selection.get() else {
            return;
        };
        let Some(bi) = self.active_board() else {
            return;
        };
        let board_id = self.model.boards[bi].id;
        let all = self.sorted_board_columns(board_id);
        proof {
            let o = choose|o: Seq<usize>| board_columns_ordered(self.model.columns@, board_id, o);
            lemma_board_columns_unique(self.model.columns@, board_id, all@, o);
        }
        let order = self.listed_board_columns(&all);
        if k < order.len() {
            let name = self.model.columns[order[k]].name.clone();
            self.input = name;
            self.open_dialog(DialogMode::RenameColumn);
        }
    }

    /// `d` on the columns section: asks to confirm deleting the selected
    /// column, unless it is the board's last one.
    pub fn handle_delete_column_key(&mut self)
        requires
            old(self).well_formed(),
        ensures
            final(self).well_formed(),
            ({
                let go = old(self).focus.board_focus == BoardFocus::Columns
                    && old(self).dialog_input.column_list.selection.selected.is_some() && match old(self).active_board_index() {
                    Some(bi) => column_count_of(old(self).model.columns@, old(self).model.boards@[bi].id) > 1,
                    None => false,
                };
                &&& go ==> super::card_detail::dialog_over(*old(self), *final(self), DialogMode::DeleteColumnConfirm)
                &&& !go ==> old(self).unchanged_except(final(self), untouched())
            }),
    {
        if self.focus.board_focus == BoardFocus::Columns && self.dialog_input.column_list.selection.get().is_some() {
            if let Some(bi) = self.active_board() {
                let board_id = self.model.boards[bi].id;
                if self.model.column_count_for_board(board_id) > 1 {
                    self.open_dialog(DialogMode::DeleteColumnConfirm);
                }
            }
        }
    }

    fn board_detail_step_exec(&mut self, down: bool)
        requires
            old(self).well_formed(),
        ensures
            board_detail_moved_to(*old(self), *final(self), board_detail_step(*old(self), down)),
            final(self).well_formed(),
    {
        if down {
            match self.focus.board_focus {
                BoardFocus::Sprints => {
                    if let Some(bi) = self.active_board() {
                        let board_id = self.model.boards[bi].id;
                        let n = self.sprint_count(board_id);
                        let current = match self.selection.sprint.get() {
                            Some(i) => i,
                            None => 0,
                        };
                        if n == 0 || current >= n - 1 {
                            self.focus.board_focus = BoardFocus::Columns;
                            self.enter_column_focus_at_top(board_id);
                        } else {
                            self.selection.sprint.next(n);
                        }
                    }
                },
                BoardFocus::Columns => {
                    if let Some(bi) = self.active_board() {
                        let board_id = self.model.boards[bi].id;
                        let n = self.model.column_count_for_board(board_id);
                        self.dialog_input.column_list.update_item_count(n);
                        let current = match self.dialog_input.column_list.selection.get() {
                            Some(i) => i,
                            None => 0,
                        };
                        if n > 0 && current >= n - 1 {
                            self.focus.board_focus = BoardFocus::Name;
                            self.selection.sprint.set(Some(0));
                        } else {
                            self.dialog_input.column_list.navigate_down();
                        }
                    }
                },
                BoardFocus::Name => {
                    self.focus.board_focus = BoardFocus::Description;
                },
                BoardFocus::Description => {
                    self.focus.board_focus = BoardFocus::Settings;
                },
                BoardFocus::Settings => {
                    self.focus.board_focus = BoardFocus::Sprints;
                    self.selection.sprint.set(Some(0));
                },
            }
        } else {
            match self.focus.board_focus {
                BoardFocus::Sprints => {
                    let current = match self.selection.sprint.get() {
                        Some(i) => i,
                        None => 0,
                    };
                    if current == 0 {
                        self.focus.board_focus = BoardFocus::Settings;
                    } else {
                        self.selection.sprint.prev();
                    }
                },
                BoardFocus::Columns => {
                    let highlighted = self.board_list.get_selected_board_id();
                    let n = match highlighted {
                        Some(b) => self.model.column_count_for_board(b),
                        None => 0,
                    };
                    self.dialog_input.column_list.update_item_count(n);
                    let was_at_top = self.dialog_input.column_list.navigate_up();
                    if was_at_top {
                        let sc = match highlighted {
                            Some(b) => self.sprint_count(b),
                            None => 0,
                        };
                        if sc == 0 {
                            self.focus.board_focus = BoardFocus::Settings;
                        } else {
                            self.focus.board_focus = BoardFocus::Sprints;
                            self.selection.sprint.set(Some(sc - 1));
                        }
                    }
                },
                BoardFocus::Name => {
                    self.focus.board_focus = BoardFocus::Columns;
                    if let Some(bi) = self.active_board() {
                        let board_id = self.model.boards[bi].id;
                        self.enter_column_focus_at_top(board_id);
                    }
                },
                BoardFocus::Description => {
                    self.focus.board_focus = BoardFocus::Name;
                },
                BoardFocus::Settings => {
                    self.focus.board_focus = BoardFocus::Description;
                },
            }
        }
    }
}

/// Positions in the model of the sprints of `board`, in model order.
pub open spec fn board_sprint_indices(sprints: Seq<Sprint>, board: EntityId) -> Seq<usize>
    decreases sprints.len(),
{
    if sprints.len() == 0 {
        seq![]
    } else {
        let rest = board_sprint_indices(sprints.drop_last(), board);
        if sprints.last().board_id == board {
            rest.push((sprints.len() - 1) as usize)
        } else {
            rest
        }
    }
}

/// Every entry of `board_sprint_indices` is a position in `sprints`.
pub proof fn lemma_board_sprint_indices_in_range(sprints: Seq<Sprint>, board: EntityId)
    ensures
        forall|k: int|
            0 <= k < board_sprint_indices(sprints, board).len() ==> (#[trigger] board_sprint_indices(sprints, board)[k])
                < sprints.len(),
    decreases sprints.len(),
{
    if sprints.len() > 0 {
        let rest = sprints.drop_last();
        lemma_board_sprint_indices_in_range(rest, board);
        let r = board_sprint_indices(rest, board);
        assert forall|k: int| 0 <= k < r.len() implies (#[trigger] r[k]) < sprints.len() by {
            assert(r[k] < rest.len());
        }
    }
}

/// Whether column `ci` is listed in the columns section: every column while
/// no column search is active, else those whose name contains the query,
/// ignoring case.
pub open spec fn column_listed(app: App, ci: usize) -> bool {
    !app.filter.column_search.is_active || has_part(
        lowercase(app.model.columns@[ci as int].name@),
        lowercase(app.filter.column_search.query@),
    )
}

/// The columns of `order` that the columns section lists.
pub open spec fn listed_columns(app: App, order: Seq<usize>) -> Seq<usize> {
    if app.filter.column_search.is_active {
        order.filter(|ci: usize| column_listed(app, ci))
    } else {
        order
    }
}

/// The columns of the active board in display order, when a board is active.
pub open spec fn active_column_order(app: App) -> Option<Seq<usize>> {
    match app.active_board_index() {
        Some(bi) => Some(
            choose|o: Seq<usize>| board_columns_ordered(app.model.columns@, app.model.boards@[bi].id, o),
        ),
        None => None,
    }
}

/// Moving the selected column down (or up) on the columns section: it
/// swaps places with its neighbour (their positions are exchanged) and the
/// selection follows it. `None` when there is no neighbour on that side, or
/// while a column search is active (the list then shows only some columns).
pub open spec fn column_swap(app: App, down: bool) -> Option<(int, int, usize)> {
    if app.filter.column_search.is_active {
        None
    } else {
        column_swap_unfiltered(app, down)
    }
}

/// The swap of `column_swap` when no column search is active.
pub open spec fn column_swap_unfiltered(app: App, down: bool) -> Option<(int, int, usize)> {
    match (active_column_order(app), app.dialog_input.column_list.selection.selected) {
        (Some(order), Some(k)) => if down {
            if k + 1 < order.len() {
                Some((order[k as int] as int, order[k + 1] as int, (k + 1) as usize))
            } else {
                None
            }
        } else {
            if 0 < k < order.len() {
                Some((order[k as int] as int, order[k - 1] as int, (k - 1) as usize))
            } else {
                None
            }
        },
        _ => None,
    }
}

/// `after` is `before` with the columns `a` and `b` exchanging positions
/// and the columns list selecting row `row` among `count` rows.
pub open spec fn columns_swapped(before: App, after: App, a: int, b: int, row: usize, count: usize) -> bool {
    let cs = before.model.columns@;
    &&& before.unchanged_except(&after, (Touched { model: true, dialog_input: true, ..untouched() }))
    &&& after.model.boards == before.model.boards
    &&& after.model.cards == before.model.cards
    &&& after.model.archived_cards == before.model.archived_cards
    &&& after.model.sprints == before.model.sprints
    &&& after.model.edges == before.model.edges
    &&& after.model.columns@ == cs.update(a, Column { position: cs[b].position, ..cs[a] }).update(
        b,
        Column { position: cs[a].position, ..cs[b] },
    )
    &&& after.dialog_input == (DialogInputState {
        column_list: reselected(recounted(before.dialog_input.column_list, count), Some(row)),
        ..before.dialog_input
    })
}

/// Enter on the sprints section: the selected sprint of the active board
/// opens in the sprint detail view.
pub open spec fn sprint_opened(before: App, after: App) -> bool {
    let target = match (before.focus.board_focus, before.selection.sprint.selected, board_in_context(before)) {
        (BoardFocus::Sprints, Some(k), Some(bi)) => {
            let ids = board_sprint_indices(before.model.sprints@, before.model.boards@[bi].id);
            if k < ids.len() {
                Some((ids[k as int], before.model.boards@[bi].id))
            } else {
                None
            }
        },
        _ => None,
    };
    match target {
        None => before.unchanged_except(&after, untouched()),
        Some((sprint, board)) => {
            let id = before.model.sprints@[sprint as int].id;
            let m = before.model;
            &&& before.unchanged_except(&after, (Touched { selection: true, mode: true, sprint_view: true, ..untouched() }))
            &&& after.selection == (SelectionState {
                active_sprint_index: Some(sprint),
                active_board_id: Some(board),
                ..before.selection
            })
            &&& after.mode == AppMode::SprintDetail
            &&& after.mode_stack@ == before.mode_stack@.push(before.mode)
            &&& refilled(
                before.sprint_view.uncompleted,
                after.sprint_view.uncompleted,
                sprint_card_ids(m.cards@, m.archived_cards@, id, false),
            )
            &&& refilled(
                before.sprint_view.completed,
                after.sprint_view.completed,
                sprint_card_ids(m.cards@, m.archived_cards@, id, true),
            )
            &&& after.sprint_view.panel == before.sprint_view.panel
            &&& after.sprint_view.multi_selected == before.sprint_view.multi_selected
        },
    }
}

/// What a key does in the project detail view.
pub open spec fn board_detail_key_handled(before: App, after: App, key: Key, r: BoardDetailAction) -> bool {
    let same = before.unchanged_except(&after, untouched());
    let f = before.focus.board_focus;
    let focus_on = |g: BoardFocus|
        before.unchanged_except(&after, (Touched { focus: true, ..untouched() })) && after.focus == (FocusState {
            board_focus: g,
            ..before.focus
        });
    let swap = |down: bool|
        match column_swap(before, down) {
            Some((a, b, row)) => columns_swapped(before, after, a, b, row, active_column_order(before).unwrap().len() as usize),
            None => same,
        };
    let editable = match f {
        BoardFocus::Name | BoardFocus::Description => true,
        BoardFocus::Settings => before.active_board_index().is_some(),
        _ => false,
    };
    match key {
        Key::Esc => r == BoardDetailAction::Nothing && {
            &&& before.unchanged_except(&after, (Touched { mode: true, focus: true, ..untouched() }))
            &&& super::card_detail::popped(before, after)
            &&& after.focus == (FocusState { board_focus: BoardFocus::Name, ..before.focus })
        },
        Key::Down => r == BoardDetailAction::Nothing && board_detail_moved_to(before, after, board_detail_step(before, true)),
        Key::Up => r == BoardDetailAction::Nothing && board_detail_moved_to(before, after, board_detail_step(before, false)),
        Key::Enter => r == BoardDetailAction::Nothing && sprint_opened(before, after),
        Key::Char(c) => if c == '1' {
            r == BoardDetailAction::Nothing && focus_on(BoardFocus::Name)
        } else if c == '2' {
            r == BoardDetailAction::Nothing && focus_on(BoardFocus::Description)
        } else if c == '3' {
            r == BoardDetailAction::Nothing && focus_on(BoardFocus::Settings)
        } else if c == '4' {
            r == BoardDetailAction::Nothing && focus_on(BoardFocus::Sprints)
        } else if c == '5' {
            r == BoardDetailAction::Nothing && focus_on(BoardFocus::Columns)
        } else if c == 'j' {
            r == BoardDetailAction::Nothing && board_detail_moved_to(before, after, board_detail_step(before, true))
        } else if c == 'k' {
            r == BoardDetailAction::Nothing && board_detail_moved_to(before, after, board_detail_step(before, false))
        } else if c == ' ' {
            r == BoardDetailAction::Nothing && sprint_opened(before, after)
        } else if c == 'e' {
            (editable ==> r == BoardDetailAction::EditFocusedField) && (!editable ==> r == BoardDetailAction::Nothing)
                && same
        } else if c == 'n' {
            r == BoardDetailAction::Nothing && if f == BoardFocus::Sprints && before.active_board_index().is_some() {
                input_dialog_over(before, after, DialogMode::CreateSprint, seq![])
            } else if f == BoardFocus::Columns && before.active_board_index().is_some() {
                input_dialog_over(before, after, DialogMode::CreateColumn, seq![])
            } else {
                same
            }
        } else if c == 'r' {
            r == BoardDetailAction::Nothing && if f == BoardFocus::Columns && before.selected_column().is_some() {
                input_dialog_over(
                    before,
                    after,
                    DialogMode::RenameColumn,
                    before.model.columns@[before.selected_column().unwrap()].name@,
                )
            } else {
                same
            }
        } else if c == 'd' {
            r == BoardDetailAction::Nothing && if f == BoardFocus::Columns
                && before.dialog_input.column_list.selection.selected.is_some() && match before.active_board_index() {
                Some(bi) => column_count_of(before.model.columns@, before.model.boards@[bi].id) > 1,
                None => false,
            } {
                super::card_detail::dialog_over(before, after, DialogMode::DeleteColumnConfirm)
            } else {
                same
            }
        } else if c == 'J' {
            r == BoardDetailAction::Nothing && if f == BoardFocus::Columns {
                swap(false)
            } else {
                same
            }
        } else if c == 'K' {
            r == BoardDetailAction::Nothing && if f == BoardFocus::Columns {
                swap(true)
            } else {
                same
            }
        } else if c == 'p' {
            r == BoardDetailAction::Nothing && match (f, before.active_board_index()) {
                (BoardFocus::Settings, Some(bi)) => input_dialog_over(
                    before,
                    after,
                    DialogMode::SetBranchPrefix,
                    match before.model.boards@[bi].sprint_prefix {
                        Some(p) => p@,
                        None => seq![],
                    },
                ),
                _ => same,
            }
        } else {
            r == BoardDetailAction::Nothing && same
        },
        _ => r == BoardDetailAction::Nothing && same,
    }
}

impl App {
    /// Positions in the model of the sprints of `board_id`, in model order.
    pub(crate) fn board_sprints(&self, board_id: EntityId) -> (r: Vec<usize>)
        ensures
            r@ == board_sprint_indices(self.model.sprints@, board_id),
    {
        let mut r: Vec<usize> = Vec::new();
        let mut i: usize = 0;
        while i < self.model.sprints.len()
            invariant
                i <= self.model.sprints@.len(),
                r@ == board_sprint_indices(self.model.sprints@.take(i as int), board_id),
            decreases self.model.sprints@.len() - i,
        {
            proof {
                assert(self.model.sprints@.take(i + 1).drop_last() =~= self.model.sprints@.take(i as int));
            }
            if self.model.sprints[i].board_id == board_id {
                r.push(i);
            }
            i = i + 1;
        }
        proof {
            assert(self.model.sprints@.take(self.model.sprints@.len() as int) =~= self.model.sprints@);
        }
        r
    }

    /// Column order of the active board, with its uniqueness made available.
    fn active_columns(&self) -> (r: Option<Vec<usize>>)
        ensures
            match r {
                Some(o) => active_column_order(*self) == Some(o@) && o@.no_duplicates() && forall|k: int|
                    0 <= k < o@.len() ==> (#[trigger] o@[k]) < self.model.columns@.len(),
                None => active_column_order(*self).is_none(),
            },
    {
        let bi = self.active_board()?;
        let board_id = self.model.boards[bi].id;
        let order = self.sorted_board_columns(board_id);
        proof {
            let o = choose|o: Seq<usize>| board_columns_ordered(self.model.columns@, board_id, o);
            lemma_board_columns_unique(self.model.columns@, board_id, order@, o);
        }
        Some(order)
    }

    /// Exchanges the positions of columns `a` and `b` of the model.
    fn swap_column_positions(&mut self, a: usize, b: usize)
        requires
            a < old(self).model.columns@.len(),
            b < old(self).model.columns@.len(),
            a != b,
        ensures
            final(self).model.columns@ == old(self).model.columns@.update(
                a as int,
                Column { position: old(self).model.columns@[b as int].position, ..old(self).model.columns@[a as int] },
            ).update(
                b as int,
                Column { position: old(self).model.columns@[a as int].position, ..old(self).model.columns@[b as int] },
            ),
            old(self).unchanged_except(final(self), (Touched { model: true, ..untouched() })),
            final(self).model.boards == old(self).model.boards,
            final(self).model.cards == old(self).model.cards,
            final(self).model.archived_cards == old(self).model.archived_cards,
            final(self).model.sprints == old(self).model.sprints,
            final(self).model.edges == old(self).model.edges,
            old(self).well_formed() ==> final(self).well_formed(),
    {
        let pa = self.model.columns[a].position;
        let pb = self.model.columns[b].position;
        {
            let ca = &mut self.model.columns[a];
            ca.position = pb;
        }
        {
            let cb = &mut self.model.columns[b];
            cb.position = pa;
        }
        proof {
            let cs = old(self).model.columns@;
            assert(self.model.columns@ =~= cs.update(a as int, Column { position: cs[b as int].position, ..cs[a as int] }).update(
                b as int,
                Column { position: cs[a as int].position, ..cs[b as int] },
            ));
        }
    }

    fn move_column(&mut self, down: bool)
        requires
            old(self).well_formed(),
        ensures
            final(self).well_formed(),
            match column_swap(*old(self), down) {
                Some((a, b, row)) => columns_swapped(
                    *old(self),
                    *final(self),
                    a,
                    b,
                    row,
                    active_column_order(*old(self)).unwrap().len() as usize,
                ),
                None => old(self).unchanged_except(final(self), untouched()),
            },
    {
        if self.filter.column_search.is_active {
            return;
        }
        let Some(k) = self.dialog_input.column_list.selection.get() else {
            return;
        };
        let Some(order) = self.active_columns() else {
            return;
        };
        let ok = if down {
            k < order.len() && order.len() - k > 1
        } else {
            0 < k && k < order.len()
        };
        if !ok {
            return;
        }
        let other = if down {
            k + 1
        } else {
            k - 1
        };
        let a = order[k];
        let b = order[other];
        proof {
            assert(order@.no_duplicates());
            assert(order@[k as int] != order@[other as int]);
        }
        self.swap_column_positions(a, b);
        self.dialog_input.column_list.update_item_count(order.len());
        self.dialog_input.column_list.selection.set(Some(other));
    }

    /// `J` on the columns section: the selected column moves one place down.
    pub fn handle_move_column_down(&mut self)
        requires
            old(self).well_formed(),
        ensures
            final(self).well_formed(),
            old(self).focus.board_focus != BoardFocus::Columns ==> old(self).unchanged_except(final(self), untouched()),
            old(self).focus.board_focus == BoardFocus::Columns ==> match column_swap(*old(self), true) {
                Some((a, b, row)) => columns_swapped(
                    *old(self),
                    *final(self),
                    a,
                    b,
                    row,
                    active_column_order(*old(self)).unwrap().len() as usize,
                ),
                None => old(self).unchanged_except(final(self), untouched()),
            },
    {
        if self.focus.board_focus == BoardFocus::Columns {
            self.move_column(true);
        }
    }

    /// `K` on the columns section: the selected column moves one place up.
    pub fn handle_move_column_up(&mut self)
        requires
            old(self).well_formed(),
        ensures
            final(self).well_formed(),
            old(self).focus.board_focus != BoardFocus::Columns ==> old(self).unchanged_except(final(self), untouched()),
            old(self).focus.board_focus == BoardFocus::Columns ==> match column_swap(*old(self), false) {
                Some((a, b, row)) => columns_swapped(
                    *old(self),
                    *final(self),
                    a,
                    b,
                    row,
                    active_column_order(*old(self)).unwrap().len() as usize,
                ),
                None => old(self).unchanged_except(final(self), untouched()),
            },
    {
        if self.focus.board_focus == BoardFocus::Columns {
            self.move_column(false);
        }
    }

    fn open_selected_sprint(&mut self)
        requires
            old(self).well_formed(),
        ensures
            sprint_opened(*old(self), *final(self)),
            final(self).well_formed(),
    {
        if self.focus.board_focus != BoardFocus::Sprints {
            return;
        }
        let Some(k) = self.selection.sprint.get() else {
            return;
        };
        let Some(bi) = self.board_in_context_index() else {
            return;
        };
        let board_id = self.model.boards[bi].id;
        let ids = self.board_sprints(board_id);
        if k < ids.len() {
            proof {
                lemma_board_sprint_indices_in_range(self.model.sprints@, board_id);
            }
            let sprint_id = self.model.sprints[ids[k]].id;
            self.selection.active_sprint_index = Some(ids[k]);
            self.selection.active_board_id = Some(board_id);
            self.populate_sprint_task_lists(sprint_id);
            self.push_mode(AppMode::SprintDetail);
        }
    }

    fn open_branch_prefix_dialog(&mut self)
        requires
            old(self).well_formed(),
        ensures
            final(self).well_formed(),
            match old(self).active_board_index() {
                Some(bi) => input_dialog_over(
                    *old(self),
                    *final(self),
                    DialogMode::SetBranchPrefix,
                    match old(self).model.boards@[bi].sprint_prefix {
                        Some(p) => p@,
                        None => seq![],
                    },
                ),
                None => old(self).unchanged_except(final(self), untouched()),
            },
    {
        if let Some(bi) = self.active_board() {
            let prefix = match &self.model.boards[bi].sprint_prefix {
                Some(p) => p.clone(),
                None => String::new(),
            };
            self.input = prefix;
            self.open_dialog(DialogMode::SetBranchPrefix);
        }
    }

    fn set_board_focus(&mut self, f: BoardFocus)
        ensures
            old(self).unchanged_except(final(self), (Touched { focus: true, ..untouched() })),
            final(self).focus == (FocusState { board_focus: f, ..old(self).focus }),
            old(self).well_formed() ==> final(self).well_formed(),
    {
        self.focus.board_focus = f;
    }

    /// A key in the project detail view; returns the work it leaves to the
    /// caller: `e` on an editable section asks for the external editor,
    /// every other key is handled here.
    pub fn handle_board_detail_key(&mut self, key: Key) -> (r: BoardDetailAction)
        requires
            old(self).well_formed(),
        ensures
            board_detail_key_handled(*old(self), *final(self), key, r),
            final(self).well_formed(),
    {
        if key == Key::Char('e') {
            let editable = match self.focus.board_focus {
                BoardFocus::Name | BoardFocus::Description => true,
                BoardFocus::Settings => self.active_board().is_some(),
                _ => false,
            };
            if editable {
                return BoardDetailAction::EditFocusedField;
            }
            return BoardDetailAction::Nothing;
        }
        self.handle_board_detail_navigation_key(key);
        BoardDetailAction::Nothing
    }

    /// Every key of the project detail view but `e`.
    #[verifier::rlimit(80)]
    fn handle_board_detail_navigation_key(&mut self, key: Key)
        requires
            old(self).well_formed(),
            key != Key::Char('e'),
        ensures
            board_detail_key_handled(*old(self), *final(self), key, BoardDetailAction::Nothing),
            final(self).well_formed(),
    {
        let f = self.focus.board_focus;
        match key {
            Key::Esc => {
                self.pop_mode();
                self.focus.board_focus = BoardFocus::Name;
            },
            Key::Down => self.board_detail_step_exec(true),
            Key::Up => self.board_detail_step_exec(false),
            Key::Enter => self.open_selected_sprint(),
            Key::Char(c) => {
                if c == '1' {
                    self.set_board_focus(BoardFocus::Name);
                } else if c == '2' {
                    self.set_board_focus(BoardFocus::Description);
                } else if c == '3' {
                    self.set_board_focus(BoardFocus::Settings);
                } else if c == '4' {
                    self.set_board_focus(BoardFocus::Sprints);
                } else if c == '5' {
                    self.set_board_focus(BoardFocus::Columns);
                } else if c == 'j' {
                    self.board_detail_step_exec(true);
                } else if c == 'k' {
                    self.board_detail_step_exec(false);
                } else if c == ' ' {
                    self.open_selected_sprint();
                } else if c == 'n' {
                    if f == BoardFocus::Sprints {
                        self.handle_create_sprint_key();
                    } else if f == BoardFocus::Columns {
                        self.handle_create_column_key();
                    }
                } else if c == 'r' {
                    self.handle_rename_column_key();
                } else if c == 'd' {
                    self.handle_delete_column_key();
                } else if c == 'J' {
                    self.handle_move_column_up();
                } else if c == 'K' {
                    self.handle_move_column_down();
                } else if c == 'p' {
                    if f == BoardFocus::Settings {
                        self.open_branch_prefix_dialog();
                    }
                }
            },
            _ => {},
        }
    }
}

} // verus!
