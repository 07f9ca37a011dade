//! Parsing literals: their values come from the text of their tokens.

use vstd::prelude::*;

use super::state::{failure_reported, char_buffer_after_advance, string_buffer_after_advance, ParseState};
use super::types::moved_on;
use crate::ast::Literal;
use crate::diagnostic::{Diagnostic, Label, LabelStyle, Severity};
use crate::diagnostics::BuildDiagnostic;
use crate::location::Location;
use crate::token::RawToken;

verus! {

/// An integer literal too large for `u64`.
#[derive(Debug, Clone, Copy, PartialEq, Eq, Structural)]
pub struct IntegerOverflow {
    pub location: Location,
}

impl BuildDiagnostic for IntegerOverflow {
    /// An `E002` error with a primary label at the literal and two notes.
    open spec fn describes(&self, d: Diagnostic) -> bool {
        &&& d.severity == Severity::Error
        &&& d.code matches Some(c) && c@ == "E002"@
        &&& d.message@ == "unexpected integer overflow"@
        &&& d.labels@.len() == 1
        &&& d.labels@[0].style == LabelStyle::Primary
        &&& d.labels@[0].location == self.location
        &&& d.labels@[0].message@ == "error appeared when parsing this integer"@
        &&& d.notes@.len() == 2
        &&& d.notes@[0]@
            == "note: integer cannot exceed the maximum value of `u64` (u64.max() == 18_446_744_073_709_551_615)"@
        &&& d.notes@[1]@ == "note: you can use exponent to do so, but be careful!"@
    }

    fn build(self) -> (r: Diagnostic) {
        let mut labels: Vec<Label> = Vec::new();
        labels.push(
            Label::primary(self.location).with_message(
                String::from_str("error appeared when parsing this integer"),
            ),
        );
        let mut notes: Vec<String> = Vec::new();
        notes.push(
            String::from_str(
                "note: integer cannot exceed the maximum value of `u64` (u64.max() == 18_446_744_073_709_551_615)",
            ),
        );
        notes.push(String::from_str("note: you can use exponent to do so, but be careful!"));
        Diagnostic::error().with_message(String::from_str("unexpected integer overflow")).with_code(
            String::from_str("E002"),
        ).with_labels(labels).with_notes(notes)
    }
}

/// A float literal whose text is not a float.
#[derive(Debug, Clone, Copy, PartialEq, Eq, Structural)]
pub struct FloatOverflow {
    pub location: Location,
}

impl BuildDiagnostic for FloatOverflow {
    /// An `E003` error with a primary label at the literal and two notes.
    open spec fn describes(&self, d: Diagnostic) -> bool {
        &&& d.severity == Severity::Error
        &&& d.code matches Some(c) && c@ == "E003"@
        &&& d.message@ == "unexpected float overflow"@
        &&& d.labels@.len() == 1
        &&& d.labels@[0].style == LabelStyle::Primary
        &&& d.labels@[0].location == self.location
        &&& d.labels@[0].message@ == "error appeared when parsing this float literal"@
        &&& d.notes@.len() == 2
        &&& d.notes@[0]@
            == "note: float cannot exceed the maximum value of `f64` (f64.max() == 1.7976931348623157e+308)"@
        &&& d.notes@[1]@ == "note: you can use exponent to do so, but be careful!"@
    }

    fn build(self) -> (r: Diagnostic) {
        let mut labels: Vec<Label> = Vec::new();
        labels.push(
            Label::primary(self.location).with_message(
                String::from_str("error appeared when parsing this float literal"),
            ),
        );
        let mut notes: Vec<String> = Vec::new();
        notes.push(
            String::from_str(
                "note: float cannot exceed the maximum value of `f64` (f64.max() == 1.7976931348623157e+308)",
            ),
        );
        notes.push(String::from_str("note: you can use exponent to do so, but be careful!"));
        Diagnostic::error().with_message(String::from_str("unexpected float overflow")).with_code(
            String::from_str("E003"),
        ).with_labels(labels).with_notes(notes)
    }
}

/// The bytes of the source that a location covers; none where it does not
/// lie within the source.
pub open spec fn covered_bytes(bytes: Seq<u8>, location: Location) -> Seq<u8> {
    if location.start.0 <= location.end.0 <= bytes.len() {
        bytes.subrange(location.start.0 as int, location.end.0 as int)
    } else {
        Seq::empty()
    }
}

/// Whether a byte is an ASCII digit.
pub open spec fn is_digit_byte(b: u8) -> bool {
    0x30u8 <= b <= 0x39u8
}

/// The number that decimal digits stand for, underscores skipped; `None`
/// if a byte is neither.
pub open spec fn digits_value(bytes: Seq<u8>) -> Option<int>
    decreases bytes.len(),
{
    if bytes.len() == 0 {
        Some(0)
    } else {
        match digits_value(bytes.drop_last()) {
            None => None,
            Some(v) => {
                let b = bytes.last();
                if b == 0x5fu8 {
                    Some(v)
                } else if is_digit_byte(b) {
                    Some(v * 10 + (b - 0x30u8))
                } else {
                    None
                }
            },
        }
    }
}

/// The value of the text of an integer literal: digits and underscores,
/// with at least one digit, whose value fits a `u64`.
pub open spec fn integer_literal_value(bytes: Seq<u8>) -> Option<u64> {
    match digits_value(bytes) {
        Some(v) => if (exists|i: int| 0 <= i < bytes.len() && is_digit_byte(#[trigger] bytes[i]))
            && v <= u64::MAX {
            Some(v as u64)
        } else {
            None
        },
        None => None,
    }
}

/// The text of a float literal without its underscores; `None` if a byte
/// is not ASCII.
pub open spec fn float_literal_text(bytes: Seq<u8>) -> Option<Seq<char>>
    decreases bytes.len(),
{
    if bytes.len() == 0 {
        Some(Seq::empty())
    } else {
        match float_literal_text(bytes.drop_last()) {
            None => None,
            Some(t) => {
                let b = bytes.last();
                if b >= 0x80u8 {
                    None
                } else if b == 0x5fu8 {
                    Some(t)
                } else {
                    Some(t.push(b as char))
                }
            },
        }
    }
}

/// A longer text of digits has no smaller value.
proof fn lemma_digits_value_grows(bytes: Seq<u8>, i: int)
    requires
        0 <= i <= bytes.len(),
        digits_value(bytes.take(i)) is Some,
        digits_value(bytes) is Some,
    ensures
        digits_value(bytes.take(i))->0 <= digits_value(bytes)->0,
        digits_value(bytes.take(i))->0 >= 0,
    decreases bytes.len() - i,
{
    lemma_digits_value_nonneg(bytes.take(i));
    if i == bytes.len() {
        assert(bytes.take(i) =~= bytes);
    } else {
        assert(bytes.take(i + 1).drop_last() =~= bytes.take(i));
        if digits_value(bytes.take(i + 1)) is None {
            lemma_digits_value_stays_none(bytes, i + 1);
        }
        lemma_digits_value_grows(bytes, i + 1);
    }
}

/// Digits stand for no negative number.
proof fn lemma_digits_value_nonneg(bytes: Seq<u8>)
    requires
        digits_value(bytes) is Some,
    ensures
        digits_value(bytes)->0 >= 0,
    decreases bytes.len(),
{
    if bytes.len() > 0 {
        lemma_digits_value_nonneg(bytes.drop_last());
    }
}

/// A text with an invalid byte has no value, however it goes on.
proof fn lemma_digits_value_stays_none(bytes: Seq<u8>, i: int)
    requires
        0 <= i <= bytes.len(),
        digits_value(bytes.take(i)) is None,
    ensures
        digits_value(bytes) is None,
    decreases bytes.len() - i,
{
    if i == bytes.len() {
        assert(bytes.take(i) =~= bytes);
    } else {
        assert(bytes.take(i + 1).drop_last() =~= bytes.take(i));
        lemma_digits_value_stays_none(bytes, i + 1);
    }
}

/// Computes the value of the text of an integer literal.
pub(crate) fn integer_value(bytes: &[u8], start: usize, end: usize) -> (r: Option<u64>)
    ensures
        r == integer_literal_value(
            covered_bytes(bytes@, Location { filepath: crate::interner::PathId(0), start: crate::location::ByteOffset(start), end: crate::location::ByteOffset(end) }),
        ),
{
    let ghost loc = Location {
        filepath: crate::interner::PathId(0),
        start: crate::location::ByteOffset(start),
        end: crate::location::ByteOffset(end),
    };
    if !(start <= end && end <= bytes.len()) {
        proof {
            assert(covered_bytes(bytes@, loc) =~= Seq::<u8>::empty());
        }
        return None;
    }
    let ghost text = bytes@.subrange(start as int, end as int);
    assert(covered_bytes(bytes@, loc) == text);
    let mut value: u64 = 0;
    let mut seen_digit = false;
    let mut i = start;
    while i < end
        invariant
            start <= i <= end <= bytes@.len(),
            text == bytes@.subrange(start as int, end as int),
            digits_value(text.take(i - start)) == Some(value as int),
            seen_digit == exists|j: int| 0 <= j < i - start && is_digit_byte(#[trigger] text[j]),
        decreases end - i,
    {
        let b = bytes[i];
        proof {
            assert(text.take(i - start + 1).drop_last() =~= text.take(i - start));
            assert(text.take(i - start + 1).last() == b);
        }
        if b == 0x5fu8 {
        } else if 0x30u8 <= b && b <= 0x39u8 {
            let digit = (b - 0x30u8) as u64;
            if value > (u64::MAX - digit) / 10 {
                proof {
                    assert(value * 10 + digit > u64::MAX) by (nonlinear_arith)
                        requires
                            value > (u64::MAX - digit) / 10,
                            digit <= 9,
                    ;
                    if digits_value(text) is Some {
                        lemma_digits_value_grows(text, i - start + 1);
                    }
                }
                return None;
            }
            value = value * 10 + digit;
            seen_digit = true;
            proof {
                assert(is_digit_byte(text[i - start]));
            }
        } else {
            proof {
                lemma_digits_value_stays_none(text, i - start + 1);
            }
            return None;
        }
        i += 1;
    }
    proof {
        assert(text.take(end - start) =~= text);
    }
    if seen_digit {
        Some(value)
    } else {
        None
    }
}

/// A text with a byte that is not ASCII has no float text, however it goes
/// on.
proof fn lemma_float_text_stays_none(bytes: Seq<u8>, i: int)
    requires
        0 <= i <= bytes.len(),
        float_literal_text(bytes.take(i)) is None,
    ensures
        float_literal_text(bytes) is None,
    decreases bytes.len() - i,
{
    if i == bytes.len() {
        assert(bytes.take(i) =~= bytes);
    } else {
        assert(bytes.take(i + 1).drop_last() =~= bytes.take(i));
        lemma_float_text_stays_none(bytes, i + 1);
    }
}

/// Computes the text of a float literal without its underscores.
pub(crate) fn float_text(bytes: &[u8], start: usize, end: usize) -> (r: Option<String>)
    ensures
        match r {
            Some(t) => float_literal_text(
                covered_bytes(bytes@, Location { filepath: crate::interner::PathId(0), start: crate::location::ByteOffset(start), end: crate::location::ByteOffset(end) }),
            ) == Some(t@),
            None => float_literal_text(
                covered_bytes(bytes@, Location { filepath: crate::interner::PathId(0), start: crate::location::ByteOffset(start), end: crate::location::ByteOffset(end) }),
            ) is None,
        },
{
    let ghost loc = Location {
        filepath: crate::interner::PathId(0),
        start: crate::location::ByteOffset(start),
        end: crate::location::ByteOffset(end),
    };
    let mut text = String::new();
    if !(start <= end && end <= bytes.len()) {
        proof {
            assert(covered_bytes(bytes@, loc) =~= Seq::<u8>::empty());
            assert(text@ =~= Seq::<char>::empty());
        }
        return Some(text);
    }
    let ghost all = bytes@.subrange(start as int, end as int);
    assert(covered_bytes(bytes@, loc) == all);
    let mut i = start;
    proof {
        assert(all.take(0) =~= Seq::<u8>::empty());
    }
    while i < end
        invariant
            start <= i <= end <= bytes@.len(),
            all == bytes@.subrange(start as int, end as int),
            float_literal_text(all.take(i - start)) == Some(text@),
        decreases end - i,
    {
        let b = bytes[i];
        proof {
            assert(all.take(i - start + 1).drop_last() =~= all.take(i - start));
            assert(all.take(i - start + 1).last() == b);
        }
        if b >= 0x80u8 {
            proof {
                lemma_float_text_stays_none(all, i - start + 1);
            }
            return None;
        }
        if b != 0x5fu8 {
            crate::text::push_char(&mut text, b as char);
        }
        i += 1;
    }
    proof {
        assert(all.take(end - start) =~= all);
    }
    Some(text)
}

/// The literal that the next token stands for.
pub open spec fn is_literal_token(raw: RawToken) -> bool {
    ||| raw == RawToken::IntegerLiteral
    ||| raw == RawToken::FloatLiteral
    ||| raw == RawToken::StringLiteral
    ||| raw == RawToken::CharLiteral
    ||| raw == RawToken::TrueBoolLiteral
    ||| raw == RawToken::FalseBoolLiteral
}

/// Parses a literal, the next token: its value comes from its text, or,
/// for a string or a character, from what the lexer holds of the last one
/// it read once it has read the token after the literal. An integer that
/// does not fit a `u64` is reported.
pub fn parse_literal(state: &mut ParseState) -> (r: Option<Literal>)
    requires
        old(state).wf(),
        is_literal_token(old(state).next().raw),
    ensures
        final(state).wf(),
        moved_on(*old(state), *final(state)),
        r is None ==> failure_reported(*old(state), *final(state)),
        final(state).current() == old(state).next(),
        final(state).measure() < old(state).measure(),
        r matches Some(literal) ==> literal.location_of() == old(state).next().location,
        old(state).next().raw == RawToken::IntegerLiteral ==> match integer_literal_value(
            covered_bytes(old(state).source_bytes(), old(state).next().location),
        ) {
            Some(v) => r == Some(Literal::Integer { value: v, location: old(state).next().location }),
            None => r is None,
        },
        old(state).next().raw == RawToken::FloatLiteral ==> match float_literal_text(
            covered_bytes(old(state).source_bytes(), old(state).next().location),
        ) {
            Some(t) => r matches Some(Literal::Float { value, location }) && value@ == t,
            None => r is None,
        },
        old(state).next().raw == RawToken::StringLiteral ==> (r matches Some(
            Literal::String { value, location },
        ) && value@ == string_buffer_after_advance(*old(state)) && location == old(state).next().location),
        old(state).next().raw == RawToken::CharLiteral ==> r == Some(
            Literal::Character {
                value: char_buffer_after_advance(*old(state)),
                location: old(state).next().location,
            },
        ),
        old(state).next().raw == RawToken::TrueBoolLiteral ==> r == Some(
            Literal::Boolean { value: true, location: old(state).next().location },
        ),
        old(state).next().raw == RawToken::FalseBoolLiteral ==> r == Some(
            Literal::Boolean { value: false, location: old(state).next().location },
        ),
{
    let raw = state.next_token_raw();
    let ghost s0 = *state;
    state.advance();
    let location = state.current_location();
    if raw == RawToken::IntegerLiteral {
        let bytes = state.source_text_bytes();
        match integer_value(bytes, location.start.0, location.end.0) {
            Some(value) => Some(Literal::Integer { value, location }),
            None => {
                let ghost s1 = *state;
                state.add_diagnostic_integer_overflow(IntegerOverflow { location });
                proof {
                    super::types::lemma_moved_on_trans(s0, s1, *state);
                }
                None
            },
        }
    } else if raw == RawToken::FloatLiteral {
        let bytes = state.source_text_bytes();
        match float_text(bytes, location.start.0, location.end.0) {
            Some(value) => Some(Literal::Float { value, location }),
            None => {
                let ghost s1 = *state;
                state.add_diagnostic_float_overflow(FloatOverflow { location });
                proof {
                    super::types::lemma_moved_on_trans(s0, s1, *state);
                }
                None
            },
        }
    } else if raw == RawToken::StringLiteral {
        let value = state.take_scanned_string();
        Some(Literal::String { value, location })
    } else if raw == RawToken::CharLiteral {
        Some(Literal::Character { value: state.scanned_char(), location })
    } else if raw == RawToken::TrueBoolLiteral {
        Some(Literal::Boolean { value: true, location })
    } else {
        Some(Literal::Boolean { value: false, location })
    }
}

} // verus!
