//! The story-points dialog of a card.

use super::card_detail::popped;
use super::dialogs::{edited, trimmed, trimmed_chars};
use super::model::{card_index, Card, EntityId, KanbanModel};
use super::modes::Key;
use super::state::{untouched, App, Touched};
use vstd::prelude::*;

verus! {

/// Value of decimal digit `c`.
pub open spec fn digit_value(c: char) -> int {
    c as int - '0' as int
}

/// `c` is a decimal digit.
pub open spec fn is_digit(c: char) -> bool {
    '0' <= c && c <= '9'
}

/// Value of the decimal digits `d`.
pub open spec fn decimal(d: Seq<char>) -> int
    decreases d.len(),
{
    if d.len() == 0 {
        0
    } else {
        decimal(d.drop_last()) * 10 + digit_value(d.last())
    }
}

/// The digits of an unsigned number: without an optional leading `+`.
pub open spec fn unsigned_digits(s: Seq<char>) -> Seq<char> {
    if s.len() > 0 && s[0] == '+' {
        s.drop_first()
    } else {
        s
    }
}

/// `s` read as a `u8` the way `str::parse::<u8>` reads it: an optional `+`
/// then one or more decimal digits, of value at most 255.
pub open spec fn parsed_u8(s: Seq<char>) -> Option<u8> {
    let d = unsigned_digits(s);
    if d.len() > 0 && (forall|i: int| 0 <= i < d.len() ==> is_digit(#[trigger] d[i])) && decimal(d) <= 255 {
        Some(decimal(d) as u8)
    } else {
        None
    }
}

proof fn lemma_decimal_grows(d: Seq<char>, i: int)
    requires
        0 <= i <= d.len(),
        forall|k: int| 0 <= k < d.len() ==> is_digit(#[trigger] d[k]),
    ensures
        decimal(d.take(i)) <= decimal(d),
        decimal(d.take(i)) >= 0,
    decreases d.len() - i,
{
    if i < d.len() {
        lemma_decimal_grows(d, i + 1);
        assert(d.take(i + 1).drop_last() =~= d.take(i));
        assert(is_digit(d[i]));
        assert(d.take(i + 1).last() == d[i]);
    } else {
        assert(d.take(i) =~= d);
    }
    lemma_decimal_nonneg(d.take(i));
}

proof fn lemma_decimal_nonneg(d: Seq<char>)
    requires
        forall|k: int| 0 <= k < d.len() ==> is_digit(#[trigger] d[k]),
    ensures
        decimal(d) >= 0,
    decreases d.len(),
{
    if d.len() > 0 {
        assert forall|k: int| 0 <= k < d.len() - 1 implies is_digit(#[trigger] d.drop_last()[k]) by {
            assert(d.drop_last()[k] == d[k]);
        }
        lemma_decimal_nonneg(d.drop_last());
        assert(is_digit(d[d.len() - 1]));
    }
}

/// Reads `s` as `str::parse::<u8>` does.
pub fn parse_u8(s: &Vec<char>) -> (r: Option<u8>)
    ensures
        r == parsed_u8(s@),
{
    let start: usize = if s.len() > 0 && s[0] == '+' {
        1
    } else {
        0
    };
    let ghost d = unsigned_digits(s@);
    proof {
        assert(d =~= s@.subrange(start as int, s@.len() as int));
    }
    if start >= s.len() {
        return None;
    }
    let mut value: u32 = 0;
    let mut i: usize = start;
    while i < s.len()
        invariant
            start <= i <= s@.len(),
            start < s@.len(),
            d == unsigned_digits(s@),
            d =~= s@.subrange(start as int, s@.len() as int),
            forall|k: int| 0 <= k < i - start ==> is_digit(#[trigger] d[k]),
            value == decimal(d.take(i - start)),
            value <= 255,
        decreases s@.len() - i,
    {
        let c = s[i];
        if c < '0' || c > '9' {
            proof {
                assert(d[i - start] == c);
                assert(!is_digit(d[i - start]));
            }
            return None;
        }
        proof {
            assert(d.take(i - start + 1).drop_last() =~= d.take(i - start));
            assert(d.take(i - start + 1).last() == c);
        }
        let digit: u32 = (c as u32) - ('0' as u32);
        value = value * 10 + digit;
        i = i + 1;
        if value > 255 {
            proof {
                if forall|k: int| 0 <= k < d.len() ==> is_digit(#[trigger] d[k]) {
                    lemma_decimal_grows(d, i - start);
                }
            }
            return None;
        }
    }
    proof {
        assert(d.take(d.len() as int) =~= d);
    }
    Some(value as u8)
}

/// The points a confirmed dialog text asks for: none for an empty text,
/// `Some(p)` for a number from 1 to 5; `None` (the outer one) for anything
/// else, which is refused.
pub open spec fn requested_points(text: Seq<char>) -> Option<Option<u8>> {
    let t = trimmed(text);
    if t.len() == 0 {
        Some(None)
    } else {
        match parsed_u8(t) {
            Some(p) => if 1 <= p <= 5 {
                Some(Some(p))
            } else {
                None
            },
            None => None,
        }
    }
}

/// `cards` with the points of the card of `id` (its first occurrence) set.
pub open spec fn with_points(cards: Seq<Card>, id: EntityId, points: Option<u8>) -> Seq<Card> {
    match card_index(cards, id) {
        Some(i) => cards.update(i, Card { points, ..cards[i] }),
        None => cards,
    }
}

/// The card the points dialog acts on: the active card when it is in the
/// model, else the card under the cursor.
pub open spec fn points_target(app: App) -> Option<EntityId> {
    match app.selection.active_card_id {
        Some(id) => if card_index(app.model.cards@, id).is_some() {
            Some(id)
        } else {
            app.selected_card_in_context()
        },
        None => app.selected_card_in_context(),
    }
}

impl KanbanModel {
    /// Sets the points of the card of `id`.
    pub fn set_card_points(&mut self, id: EntityId, points: Option<u8>)
        ensures
            final(self).cards@ == with_points(old(self).cards@, id, points),
            final(self).boards == old(self).boards,
            final(self).columns == old(self).columns,
            final(self).archived_cards == old(self).archived_cards,
            final(self).sprints == old(self).sprints,
            final(self).edges == old(self).edges,
    {
        if let Some(i) = self.card_by_id(id) {
            let ghost before = self.cards@;
            {
                let c = &mut self.cards[i];
                c.points = points;
            }
            proof {
                assert(self.cards@ =~= before.update(i as int, Card { points, ..before[i as int] }));
            }
        }
    }
}

impl App {
    /// A key in the points dialog: Enter sets (or, for an empty text, clears)
    /// the points of the target card when the text is a number from 1 to 5,
    /// and refuses anything else; Enter and Esc close the dialog with an empty
    /// input; other keys edit the text. Never asks for a terminal restart.
    pub fn handle_set_card_points_dialog(&mut self, key: Key) -> (restart: bool)
        requires
            old(self).well_formed(),
        ensures
            !restart,
            final(self).well_formed(),
            match key {
                Key::Enter => {
                    &&& old(self).unchanged_except(final(self), (Touched { mode: true, input: true, model: true, ..untouched() }))
                    &&& popped(*old(self), *final(self))
                    &&& final(self).input@.len() == 0
                    &&& final(self).model == (KanbanModel { cards: final(self).model.cards, ..old(self).model })
                    &&& final(self).model.cards@ == match (requested_points(old(self).input@), points_target(*old(self))) {
                        (Some(p), Some(id)) => with_points(old(self).model.cards@, id, p),
                        _ => old(self).model.cards@,
                    }
                },
                Key::Esc => {
                    &&& old(self).unchanged_except(final(self), (Touched { mode: true, input: true, ..untouched() }))
                    &&& popped(*old(self), *final(self))
                    &&& final(self).input@.len() == 0
                },
                _ => {
                    &&& old(self).unchanged_except(final(self), (Touched { input: true, ..untouched() }))
                    &&& final(self).input@ == edited(old(self).input@, key)
                },
            },
    {
        match key {
            Key::Enter => {
                let text = trimmed_chars(&self.input);
                let points = if text.len() == 0 {
                    Some(None)
                } else {
                    match parse_u8(&text) {
                        Some(p) => if 1 <= p && p <= 5 {
                            Some(Some(p))
                        } else {
                            None
                        },
                        None => None,
                    }
                };
                if let Some(p) = points {
                    let target = match self.selection.active_card_id {
                        Some(id) => if self.model.card_by_id(id).is_some() {
                            Some(id)
                        } else {
                            self.get_selected_card_in_context()
                        },
                        None => self.get_selected_card_in_context(),
                    };
                    if let Some(id) = target {
                        self.model.set_card_points(id, p);
                    }
                }
                self.pop_mode();
                self.input = String::new();
                false
            },
            Key::Esc => {
                self.pop_mode();
                self.input = String::new();
                false
            },
            _ => {
                super::dialogs::handle_dialog_input(&mut self.input, key);
                false
            },
        }
    }
}

} // verus!
