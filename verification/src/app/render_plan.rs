//! What the tasks panel shows: the lines of the single-panel layouts (flat,
//! or grouped under column headers) and of each kanban column, computed
//! from the state; drawing them is left to the terminal front end.

use super::components::CardList;
use super::model::{board_index, card_index, Card, EntityId};
use super::navigation::card_rows_for;
use super::state::App;
use vstd::prelude::*;

verus! {

/// A hint shown in place of tasks.
#[derive(Debug, Clone, Copy, PartialEq, Eq, Structural)]
pub enum PanelHint {
    /// No tasks on the active board: "Press 'n' to create one!".
    NoTasksYet,
    /// A previewed board without tasks: "(Enter/Space) to add tasks".
    AddTasks,
    /// The board has no columns.
    NoColumns,
    /// No board to preview.
    SelectProject,
    /// An empty kanban column.
    EmptyColumn,
}

/// A line of a task list.
#[derive(Debug, Clone, Copy, PartialEq, Eq, Structural)]
pub enum TaskLine {
    Hint(PanelHint),
    /// "N Tasks above".
    Above(usize),
    /// Header of the column of boundary `b` (grouped layout).
    Header(usize),
    /// The card of row `row`; whether it is the selected row.
    Card(usize, bool),
    /// "N Tasks below".
    Below(usize),
}

/// Rows of a list of `len` rows shown in `height` rows from `offset`, and
/// whether rows lie above and below them.
pub open spec fn visible_end(offset: int, height: int, len: int) -> int {
    if offset + height < len {
        offset + height
    } else {
        len
    }
}

/// The board whose tasks the panel shows: the active board, else the
/// board highlighted in the projects panel.
pub open spec fn board_in_context(app: App) -> Option<int> {
    match app.active_board_index() {
        Some(i) => Some(i),
        None => match app.board_list.selected_id() {
            Some(id) => board_index(app.model.boards@, id),
            None => None,
        },
    }
}

/// Index of the column boundary a grouped row belongs to: the last one
/// starting at or before it (the first one when none does).
pub open spec fn column_of_row(bounds: Seq<(usize, usize)>, row: int) -> int
    decreases bounds.len(),
{
    if bounds.len() == 0 {
        0
    } else if bounds.last().0 <= row {
        bounds.len() - 1
    } else {
        column_of_row(bounds.drop_last(), row)
    }
}

/// Card lines of rows `lo..hi` (rows whose card is not in the model are
/// skipped); with `headers`, each column's header comes before its first
/// shown row, `shown` holding the columns whose header is already out.
pub open spec fn row_lines(
    bounds: Seq<(usize, usize)>,
    list: CardList,
    cards: Seq<Card>,
    headers: bool,
    lo: int,
    hi: int,
    shown: Seq<usize>,
) -> Seq<TaskLine>
    decreases hi - lo,
{
    if lo >= hi {
        seq![]
    } else {
        let c = column_of_row(bounds, lo);
        let new_header = headers && 0 <= c < bounds.len() && !shown.contains(c as usize);
        let head = if new_header {
            seq![TaskLine::Header(c as usize)]
        } else {
            seq![]
        };
        let shown2 = if new_header {
            shown.push(c as usize)
        } else {
            shown
        };
        let card = if lo < list.cards@.len() && card_index(cards, list.cards@[lo]).is_some() {
            seq![TaskLine::Card(lo as usize, list.selected == Some(lo as usize))]
        } else {
            seq![]
        };
        head + card + row_lines(bounds, list, cards, headers, lo + 1, hi, shown2)
    }
}

/// Lines of a non-empty task list shown in `rows` card rows: the "above"
/// indicator when scrolled, the visible cards, the "below" indicator when
/// cards remain below.
pub open spec fn list_lines(
    bounds: Seq<(usize, usize)>,
    list: CardList,
    cards: Seq<Card>,
    headers: bool,
    rows: int,
) -> Seq<TaskLine> {
    let off = list.scroll_offset as int;
    let len = list.cards@.len() as int;
    let end = visible_end(off, rows, len);
    let above = if off > 0 {
        seq![TaskLine::Above(off as usize)]
    } else {
        seq![]
    };
    let below = if off + rows < len {
        seq![TaskLine::Below((len - (off + rows)) as usize)]
    } else {
        seq![]
    };
    above + row_lines(bounds, list, cards, headers, off, end, seq![]) + below
}

/// Card rows of a plain (header-less) list in a panel of `raw` lines: one
/// line less for each indicator the scroll position calls for.
pub open spec fn plain_rows(raw: int, offset: int, len: int) -> int {
    let overhead = (if offset > 0 {
        1int
    } else {
        0int
    }) + (if offset + raw < len {
        1int
    } else {
        0int
    });
    if raw >= overhead {
        raw - overhead
    } else {
        0
    }
}

/// Lines of a panel `height` lines high (borders included).
pub open spec fn inner_height(height: u16) -> int {
    if height >= 2 {
        height - 2
    } else {
        0
    }
}

/// Renders the tasks of the board in context in a single panel: one flat
/// list, or grouped under column headers.
#[derive(Debug, Clone, Copy, PartialEq, Eq, Structural)]
pub struct SinglePanelRenderer {
    pub show_column_headers: bool,
}

/// Renders the kanban layout: one panel per column.
#[derive(Debug, Clone, Copy, PartialEq, Eq, Structural)]
pub struct MultiPanelRenderer;

impl SinglePanelRenderer {
    pub fn new(show_column_headers: bool) -> (r: Self)
        ensures
            r.show_column_headers == show_column_headers,
    {
        SinglePanelRenderer { show_column_headers }
    }

    pub fn flat() -> (r: Self)
        ensures
            !r.show_column_headers,
    {
        Self::new(false)
    }

    pub fn grouped() -> (r: Self)
        ensures
            r.show_column_headers,
    {
        Self::new(true)
    }

    /// The lines of the panel, for a panel `height` lines high.
    pub open spec fn lines_spec(self, app: App, height: u16) -> Seq<TaskLine> {
        let v = app.view;
        let hint = if app.selection.active_board_id.is_some() {
            PanelHint::NoTasksYet
        } else {
            PanelHint::AddTasks
        };
        match board_in_context(app) {
            None => seq![TaskLine::Hint(PanelHint::SelectProject)],
            Some(bi) => if self.show_column_headers {
                if v.has_active_list() {
                    let l = v.active_list();
                    if v.column_boundaries@.len() == 0 && l.cards@.len() == 0 {
                        seq![TaskLine::Hint(hint)]
                    } else {
                        let rows = card_rows_for(
                            inner_height(height),
                            true,
                            v.column_boundaries@,
                            l.scroll_offset as int,
                            l.cards@.len() as int,
                        );
                        list_lines(v.column_boundaries@, l, app.model.cards@, true, rows)
                    }
                } else if super::board_detail::column_count_of(app.model.columns@, app.model.boards@[bi].id) == 0 {
                    seq![TaskLine::Hint(PanelHint::NoColumns)]
                } else {
                    seq![TaskLine::Hint(hint)]
                }
            } else if v.has_active_list() {
                let l = v.active_list();
                if l.cards@.len() == 0 {
                    seq![TaskLine::Hint(hint)]
                } else {
                    let rows = plain_rows(inner_height(height), l.scroll_offset as int, l.cards@.len() as int);
                    list_lines(v.column_boundaries@, l, app.model.cards@, false, rows)
                }
            } else {
                seq![]
            },
        }
    }

    /// The lines of the panel, for a panel `height` lines high.
    pub fn lines(&self, app: &App, height: u16) -> (r: Vec<TaskLine>)
        requires
            app.well_formed(),
        ensures
            r@ == self.lines_spec(*app, height),
    {
        let bi = match app.board_in_context_index() {
            None => {
                return vec![TaskLine::Hint(PanelHint::SelectProject)];
            },
            Some(bi) => bi,
        };
        let hint = if app.selection.active_board_id.is_some() {
            PanelHint::NoTasksYet
        } else {
            PanelHint::AddTasks
        };
        let raw: usize = if height >= 2 {
            (height - 2) as usize
        } else {
            0
        };
        match app.view.active_list_index() {
            Some(li) => {
                let list = &app.view.lists[li];
                assert(app.view.lists@[li as int] == *list);
                if self.show_column_headers {
                    if app.view.column_boundaries.len() == 0 && list.is_empty() {
                        vec![TaskLine::Hint(hint)]
                    } else {
                        let rows = app.grouped_card_rows(list, raw);
                        list_lines_exec(app, list, true, rows)
                    }
                } else if list.is_empty() {
                    vec![TaskLine::Hint(hint)]
                } else {
                    let rows = plain_rows_exec(raw, list.scroll_offset, list.len());
                    list_lines_exec(app, list, false, rows)
                }
            },
            None => {
                if self.show_column_headers {
                    let board_id = app.model.boards[bi].id;
                    if app.model.column_count_for_board(board_id) == 0 {
                        vec![TaskLine::Hint(PanelHint::NoColumns)]
                    } else {
                        vec![TaskLine::Hint(hint)]
                    }
                } else {
                    Vec::new()
                }
            },
        }
    }
}

impl MultiPanelRenderer {
    /// The lines of the panel of kanban column `index`, `height` lines
    /// high; only the focused column shows its selection.
    pub open spec fn column_lines_spec(self, app: App, index: int, height: u16) -> Seq<TaskLine> {
        let v = app.view;
        let l = v.lists@[index];
        let focused = v.has_active_list() && v.active_index() == index;
        if l.cards@.len() == 0 {
            seq![TaskLine::Hint(PanelHint::EmptyColumn)]
        } else {
            let rows = plain_rows(inner_height(height), l.scroll_offset as int, l.cards@.len() as int);
            let shown = if focused {
                l
            } else {
                CardList { selected: None, ..l }
            };
            list_lines(v.column_boundaries@, shown, app.model.cards@, false, rows)
        }
    }

    /// The lines of the panel of kanban column `index`.
    pub fn column_lines(&self, app: &App, index: usize, height: u16) -> (r: Vec<TaskLine>)
        requires
            app.well_formed(),
            index < app.view.lists@.len(),
        ensures
            r@ == self.column_lines_spec(*app, index as int, height),
    {
        let list = &app.view.lists[index];
        assert(app.view.lists@[index as int] == *list);
        if list.is_empty() {
            return vec![TaskLine::Hint(PanelHint::EmptyColumn)];
        }
        let raw: usize = if height >= 2 {
            (height - 2) as usize
        } else {
            0
        };
        let rows = plain_rows_exec(raw, list.scroll_offset, list.len());
        let focused = match app.view.active_list_index() {
            Some(li) => li == index,
            None => false,
        };
        if focused {
            list_lines_exec(app, list, false, rows)
        } else {
            let unselected = CardList {
                id: list.id,
                cards: list.cards.clone(),
                selected: None,
                scroll_offset: list.scroll_offset,
            };
            assert(unselected.cards@ == list.cards@);
            let r = list_lines_exec(app, &unselected, false, rows);
            proof {
                lemma_list_lines_cards(
                    app.view.column_boundaries@,
                    unselected,
                    CardList { selected: None, ..*list },
                    app.model.cards@,
                    rows as int,
                );
            }
            r
        }
    }
}

/// Lines depend on a list only through its cards' view, selection and offset.
proof fn lemma_list_lines_cards(bounds: Seq<(usize, usize)>, a: CardList, b: CardList, cards: Seq<Card>, rows: int)
    requires
        a.cards@ == b.cards@,
        a.selected == b.selected,
        a.scroll_offset == b.scroll_offset,
    ensures
        list_lines(bounds, a, cards, false, rows) == list_lines(bounds, b, cards, false, rows),
{
    let off = a.scroll_offset as int;
    let end = visible_end(off, rows, a.cards@.len() as int);
    lemma_row_lines_cards(bounds, a, b, cards, off, end, seq![]);
}

proof fn lemma_row_lines_cards(
    bounds: Seq<(usize, usize)>,
    a: CardList,
    b: CardList,
    cards: Seq<Card>,
    lo: int,
    hi: int,
    shown: Seq<usize>,
)
    requires
        a.cards@ == b.cards@,
        a.selected == b.selected,
    ensures
        row_lines(bounds, a, cards, false, lo, hi, shown) == row_lines(bounds, b, cards, false, lo, hi, shown),
    decreases hi - lo,
{
    if lo < hi {
        lemma_row_lines_cards(bounds, a, b, cards, lo + 1, hi, shown);
    }
}

fn plain_rows_exec(raw: usize, offset: usize, len: usize) -> (r: usize)
    requires
        offset <= len,
    ensures
        r == plain_rows(raw as int, offset as int, len as int),
{
    let mut overhead: usize = 0;
    if offset > 0 {
        overhead = overhead + 1;
    }
    if len - offset > raw {
        overhead = overhead + 1;
    }
    if raw >= overhead {
        raw - overhead
    } else {
        0
    }
}

/// Index of the column boundary of a grouped row.
fn column_of_row_exec(bounds: &Vec<(usize, usize)>, row: usize) -> (r: usize)
    ensures
        r == column_of_row(bounds@, row as int),
{
    let mut i = bounds.len();
    proof {
        assert(bounds@.take(i as int) =~= bounds@);
    }
    while i > 0
        invariant
            i <= bounds@.len(),
            column_of_row(bounds@, row as int) == column_of_row(bounds@.take(i as int), row as int),
        decreases i,
    {
        if bounds[i - 1].0 <= row {
            proof {
                assert(bounds@.take(i as int).last() == bounds@[i - 1]);
            }
            return i - 1;
        }
        proof {
            assert(bounds@.take(i as int).drop_last() =~= bounds@.take(i - 1));
        }
        i = i - 1;
    }
    0
}

/// Lines of a non-empty task list shown in `rows` card rows.
fn list_lines_exec(app: &App, list: &CardList, headers: bool, rows: usize) -> (r: Vec<TaskLine>)
    requires
        list.scroll_offset <= list.cards@.len(),
        list.cards@.len() + super::view::MAX_VIEWPORT_HEIGHT <= usize::MAX,
        rows <= super::view::MAX_VIEWPORT_HEIGHT,
    ensures
        r@ == list_lines(app.view.column_boundaries@, *list, app.model.cards@, headers, rows as int),
{
    let bounds = &app.view.column_boundaries;
    let off = list.scroll_offset;
    let len = list.len();
    let end = if off + rows < len {
        off + rows
    } else {
        len
    };
    let mut lines: Vec<TaskLine> = Vec::new();
    if off > 0 {
        lines.push(TaskLine::Above(off));
    }
    let ghost head = lines@;
    let ghost total = row_lines(bounds@, *list, app.model.cards@, headers, off as int, end as int, seq![]);
    let mut shown: Vec<usize> = Vec::new();
    let mut row = off;
    while row < end
        invariant
            off <= row <= end,
            end <= len,
            len == list.cards@.len(),
            head + total == lines@ + row_lines(
                bounds@,
                *list,
                app.model.cards@,
                headers,
                row as int,
                end as int,
                shown@,
            ),
        decreases end - row,
    {
        let c = column_of_row_exec(bounds, row);
        let mut already = false;
        let mut k: usize = 0;
        while k < shown.len()
            invariant
                k <= shown@.len(),
                already <==> exists|j: int| 0 <= j < k && shown@[j] == c,
            decreases shown@.len() - k,
        {
            if shown[k] == c {
                already = true;
            }
            k = k + 1;
        }
        proof {
            if shown@.contains(c) {
                let j = choose|j: int| 0 <= j < shown@.len() && shown@[j] == c;
                assert(already);
            }
        }
        let ghost s0 = shown@;
        let ghost l0 = lines@;
        let new_header = headers && !already && c < bounds.len();
        if new_header {
            lines.push(TaskLine::Header(c));
            shown.push(c);
        }
        if app.model.card_by_id(list.cards[row]).is_some() {
            lines.push(TaskLine::Card(row, list.selected == Some(row)));
        }
        proof {
            let head_l = if new_header {
                seq![TaskLine::Header(c)]
            } else {
                seq![]
            };
            let card_l = if card_index(app.model.cards@, list.cards@[row as int]).is_some() {
                seq![TaskLine::Card(row, list.selected == Some(row))]
            } else {
                seq![]
            };
            assert(lines@ =~= l0 + head_l + card_l);
            let rest = row_lines(bounds@, *list, app.model.cards@, headers, row + 1, end as int, shown@);
            assert(row_lines(bounds@, *list, app.model.cards@, headers, row as int, end as int, s0) == head_l + card_l
                + rest);
            assert(l0 + (head_l + card_l + rest) =~= lines@ + rest);
        }
        row = row + 1;
    }
    proof {
        assert(row_lines(bounds@, *list, app.model.cards@, headers, end as int, end as int, shown@) =~= Seq::<
            TaskLine,
        >::empty());
        assert(lines@ =~= head + total);
    }
    if off + rows < len {
        lines.push(TaskLine::Below(len - (off + rows)));
    }
    proof {
        assert(lines@ =~= list_lines(bounds@, *list, app.model.cards@, headers, rows as int));
    }
    lines
}

impl App {
    /// Position in the model of the board in context.
    pub fn board_in_context_index(&self) -> (r: Option<usize>)
        ensures
            match r {
                Some(i) => board_in_context(*self) == Some(i as int) && i < self.model.boards@.len(),
                None => board_in_context(*self).is_none(),
            },
    {
        match self.active_board() {
            Some(i) => Some(i),
            None => match self.board_list.get_selected_board_id() {
                Some(id) => self.model.board_by_id(id),
                None => None,
            },
        }
    }

    /// Card rows of the grouped layout for `list` in a panel of `raw` lines.
    fn grouped_card_rows(&self, list: &CardList, raw: usize) -> (r: usize)
        requires
            self.view.well_formed(),
            list.scroll_offset <= list.cards@.len(),
            list.cards@.len() + super::view::MAX_VIEWPORT_HEIGHT <= usize::MAX,
            raw <= super::view::MAX_VIEWPORT_HEIGHT,
        ensures
            r == card_rows_for(
                raw as int,
                true,
                self.view.column_boundaries@,
                list.scroll_offset as int,
                list.cards@.len() as int,
            ),
            r <= raw,
    {
        let offset = list.scroll_offset;
        let len = list.len();
        let above: usize = if offset > 0 {
            1
        } else {
            0
        };
        let available = if raw >= above {
            raw - above
        } else {
            0
        };
        let bounds = self.view.column_boundaries.as_slice();
        let initial = crate::pagination::count_headers_in_viewport(bounds, offset, available);
        let slots0 = if available >= initial {
            available - initial
        } else {
            0
        };
        let header_overhead = crate::pagination::count_headers_in_viewport(bounds, offset, slots0);
        let slots = if available >= header_overhead {
            available - header_overhead
        } else {
            0
        };
        let below: usize = if offset + slots < len {
            1
        } else {
            0
        };
        if slots >= below {
            slots - below
        } else {
            0
        }
    }
}

} // verus!
