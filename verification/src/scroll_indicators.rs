//! The "N Tasks above" / "N Tasks below" lines of scrollable lists. The
//! library gives their text; the terminal front end dims them.

use crate::app::dialogs::push_input;
use vstd::prelude::*;

verus! {

/// Which side of the viewport the hidden items lie on.
#[derive(Debug, Clone, Copy, PartialEq, Eq, Structural)]
pub enum ScrollDirection {
    Above,
    Below,
}

/// Items hidden on one side of a viewport.
#[derive(Debug, Clone, Copy, PartialEq, Eq, Structural)]
pub struct ScrollIndicator {
    pub count: usize,
    pub direction: ScrollDirection,
}

impl ScrollIndicator {
    /// Whether the message takes the plural noun: any count but one.
    pub fn is_plural(&self) -> (r: bool)
        ensures
            r == (self.count != 1),
    {
        self.count != 1
    }
}

/// The indicator for `count` hidden items, when it is to be shown.
pub fn scroll_indicator(show: bool, count: usize, direction: ScrollDirection) -> (r: Option<ScrollIndicator>)
    ensures
        r == if show {
            Some(ScrollIndicator { count, direction })
        } else {
            None
        },
{
    if show {
        Some(ScrollIndicator { count, direction })
    } else {
        None
    }
}

/// The character of decimal digit `d`.
pub open spec fn digit_char(d: nat) -> char {
    if d == 0 {
        '0'
    } else if d == 1 {
        '1'
    } else if d == 2 {
        '2'
    } else if d == 3 {
        '3'
    } else if d == 4 {
        '4'
    } else if d == 5 {
        '5'
    } else if d == 6 {
        '6'
    } else if d == 7 {
        '7'
    } else if d == 8 {
        '8'
    } else {
        '9'
    }
}

/// Decimal numeral of `n`, without leading zeros.
pub open spec fn decimal(n: nat) -> Seq<char>
    decreases n,
{
    if n < 10 {
        seq![digit_char(n)]
    } else {
        decimal(n / 10).push(digit_char(n % 10))
    }
}

/// Text of an indicator line, e.g. `"  2 Tasks above"`: two spaces that
/// align it with the indented list items, the count, the noun (`label`,
/// with an `s` unless the count is one) and the side.
pub open spec fn indicator_message(indicator: ScrollIndicator, label: Seq<char>) -> Seq<char> {
    let plural = if indicator.count != 1 {
        seq!['s']
    } else {
        seq![]
    };
    let side = match indicator.direction {
        ScrollDirection::Above => seq!['a', 'b', 'o', 'v', 'e'],
        ScrollDirection::Below => seq!['b', 'e', 'l', 'o', 'w'],
    };
    seq![' ', ' '] + decimal(indicator.count as nat) + seq![' '] + label + plural + seq![' '] + side
}

fn digit(d: usize) -> (c: char)
    requires
        d < 10,
    ensures
        c == digit_char(d as nat),
{
    if d == 0 {
        '0'
    } else if d == 1 {
        '1'
    } else if d == 2 {
        '2'
    } else if d == 3 {
        '3'
    } else if d == 4 {
        '4'
    } else if d == 5 {
        '5'
    } else if d == 6 {
        '6'
    } else if d == 7 {
        '7'
    } else if d == 8 {
        '8'
    } else {
        '9'
    }
}

/// Appends the decimal numeral of `n`.
fn push_decimal(s: &mut String, n: usize)
    ensures
        final(s)@ == old(s)@ + decimal(n as nat),
    decreases n,
{
    if n >= 10 {
        push_decimal(s, n / 10);
    }
    push_input(s, digit(n % 10));
    proof {
        if n >= 10 {
            assert(old(s)@ + decimal(n as nat) =~= old(s)@ + decimal((n / 10) as nat) + seq![digit_char((n % 10) as nat)]);
        } else {
            assert(old(s)@ + decimal(n as nat) =~= old(s)@.push(digit_char(n as nat)));
        }
    }
}

/// Appends the characters of `text`.
fn push_text(s: &mut String, text: &str)
    ensures
        final(s)@ == old(s)@ + text@,
{
    let n = text.unicode_len();
    let mut i: usize = 0;
    while i < n
        invariant
            n == text@.len(),
            i <= n,
            s@ == old(s)@ + text@.subrange(0, i as int),
        decreases n - i,
    {
        let c = text.get_char(i);
        push_input(s, c);
        proof {
            assert(text@.subrange(0, i + 1) =~= text@.subrange(0, i as int).push(c));
        }
        i = i + 1;
    }
    proof {
        assert(text@.subrange(0, n as int) =~= text@);
    }
}

/// The indicator's line text, e.g. `"  2 Tasks above"`.
pub fn indicator_text(indicator: &ScrollIndicator, label: &str) -> (r: String)
    ensures
        r@ == indicator_message(*indicator, label@),
{
    let mut s = String::new();
    push_input(&mut s, ' ');
    push_input(&mut s, ' ');
    push_decimal(&mut s, indicator.count);
    push_input(&mut s, ' ');
    push_text(&mut s, label);
    if indicator.is_plural() {
        push_input(&mut s, 's');
    }
    push_input(&mut s, ' ');
    match indicator.direction {
        ScrollDirection::Above => {
            push_input(&mut s, 'a');
            push_input(&mut s, 'b');
            push_input(&mut s, 'o');
            push_input(&mut s, 'v');
            push_input(&mut s, 'e');
        },
        ScrollDirection::Below => {
            push_input(&mut s, 'b');
            push_input(&mut s, 'e');
            push_input(&mut s, 'l');
            push_input(&mut s, 'o');
            push_input(&mut s, 'w');
        },
    }
    proof {
        assert(s@ =~= indicator_message(*indicator, label@));
    }
    s
}

/// The "N items above" line, when shown.
pub fn render_above_indicator(show: bool, count: usize, label: &str) -> (r: Option<String>)
    ensures
        match r {
            Some(t) => show && t@ == indicator_message(ScrollIndicator { count, direction: ScrollDirection::Above }, label@),
            None => !show,
        },
{
    match scroll_indicator(show, count, ScrollDirection::Above) {
        Some(indicator) => Some(indicator_text(&indicator, label)),
        None => None,
    }
}

/// The "N items below" line, when shown.
pub fn render_below_indicator(show: bool, count: usize, label: &str) -> (r: Option<String>)
    ensures
        match r {
            Some(t) => show && t@ == indicator_message(ScrollIndicator { count, direction: ScrollDirection::Below }, label@),
            None => !show,
        },
{
    match scroll_indicator(show, count, ScrollDirection::Below) {
        Some(indicator) => Some(indicator_text(&indicator, label)),
        None => None,
    }
}

/// The indicator lines of a scrollable list: none, one or two, the
/// "above" line first; `label` is the singular noun (`"Task"`, `"item"`).
pub fn render_scroll_indicators(
    show_above: bool,
    items_above: usize,
    show_below: bool,
    items_below: usize,
    label: &str,
) -> (r: Vec<String>)
    ensures
        r@.len() == (if show_above {
            1int
        } else {
            0
        }) + (if show_below {
            1int
        } else {
            0
        }),
        show_above ==> r@[0]@ == indicator_message(
            ScrollIndicator { count: items_above, direction: ScrollDirection::Above },
            label@,
        ),
        show_below ==> r@[r@.len() - 1]@ == indicator_message(
            ScrollIndicator { count: items_below, direction: ScrollDirection::Below },
            label@,
        ),
{
    let mut lines: Vec<String> = Vec::new();
    if let Some(t) = render_above_indicator(show_above, items_above, label) {
        lines.push(t);
    }
    if let Some(t) = render_below_indicator(show_below, items_below, label) {
        lines.push(t);
    }
    lines
}

} // verus!
