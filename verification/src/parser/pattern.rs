//! Parsing patterns.

use vstd::prelude::*;

use super::literal::{is_literal_token, parse_literal, FloatOverflow, IntegerOverflow};
use super::state::{
    after_token, failure_reported, identifier_read_from, lemma_list_step, list_at, list_items_at, reported_unexpected,
    same_place, token_from, ParseState,
};
use super::types::{
    lemma_moved_on_trans, lemma_path_read_later, list_expectation, moved_on, parse_path, path_at,
    path_identifier_from, path_identifiers_read, closes_with,
};
use crate::interner::PathId;
use crate::ast::{IdentifierAST, NegativeNumericLiteral, Path, Pattern, StructFieldPattern};
use crate::token::{Punctuator, RawToken};

verus! {

/// Whether `raw` can start a pattern.
pub open spec fn starts_pattern(raw: RawToken) -> bool {
    ||| is_literal_token(raw)
    ||| raw == RawToken::Punctuator(Punctuator::DoubleDot)
    ||| raw == RawToken::Punctuator(Punctuator::Underscore)
    ||| raw == RawToken::Punctuator(Punctuator::Minus)
    ||| raw == RawToken::Identifier
    ||| raw == RawToken::Punctuator(Punctuator::OpenBracket)
    ||| raw == RawToken::Punctuator(Punctuator::OpenParent)
}

/// The kind of pattern, other than an or pattern, that the first token
/// decides.
pub open spec fn pattern_fits_first_token(raw: RawToken, p: Pattern) -> bool {
    if is_literal_token(raw) {
        p is Literal
    } else if raw == RawToken::Punctuator(Punctuator::DoubleDot) {
        p is Rest
    } else if raw == RawToken::Punctuator(Punctuator::Underscore) {
        p is Wildcard
    } else if raw == RawToken::Punctuator(Punctuator::Minus) {
        p is NegativeNumericLiteral
    } else if raw == RawToken::Identifier {
        p is Identifier || p is Path || p is Struct || p is TupleLike
    } else if raw == RawToken::Punctuator(Punctuator::OpenBracket) {
        p is List
    } else if raw == RawToken::Punctuator(Punctuator::OpenParent) {
        p is Tuple || p is Grouped
    } else {
        false
    }
}

/// What a pattern parsed from `before` to `after` is: of the kind that its
/// first token decides (or an or pattern of such), starting at that token
/// (but for a rest pattern or a negative literal, which are located at the
/// token after their first one), and at least one token was read.
pub open spec fn parsed_pattern(p: Pattern, before: ParseState, after: ParseState, or_allowed: bool) -> bool {
    &&& (pattern_fits_first_token(before.next().raw, p) || (or_allowed && p is Or))
    &&& before.next().raw != RawToken::Punctuator(Punctuator::DoubleDot) && before.next().raw
        != RawToken::Punctuator(Punctuator::Minus) ==> p.location_of().start == before.next().location.start
    &&& after.measure() < before.measure()
}

/// Parses a pattern: one pattern, or patterns separated by `|`.
pub fn parse_pattern(state: &mut ParseState) -> (r: Option<Pattern>)
    requires
        old(state).wf(),
    ensures
        final(state).wf(),
        moved_on(*old(state), *final(state)),
        r is None ==> failure_reported(*old(state), *final(state)),
        r matches Some(p) ==> parsed_pattern(p, *old(state), *final(state), true),
        !starts_pattern(old(state).next().raw) ==> r is None && same_place(*old(state), *final(state))
            && reported_unexpected(
            old(state).reported(),
            final(state).reported(),
            old(state).current().location.end,
            old(state).next(),
            "pattern"@,
        ),
        old(state).next().raw == RawToken::Identifier ==> path_pattern_follows(
            old(state).file(),
            old(state).text(),
            old(state).next_from(),
            r,
            final(state).next_from(),
        ),
        old(state).next().raw == RawToken::Identifier ==> (r matches Some(Pattern::Identifier { identifier, .. }) ==> identifier_read_from(
            final(state).names(),
            identifier,
            old(state).file(),
            old(state).text(),
            old(state).next_from(),
        )),
        old(state).next().raw == RawToken::Identifier ==> (r matches Some(Pattern::Path { path }) ==> path_identifiers_read(
            final(state).names(),
            path,
            old(state).file(),
            old(state).text(),
            old(state).next_from(),
        )),
    decreases old(state).measure(), 10int,
{
    let ghost s0 = *state;
    let left = match parse_pattern_except_or(state) {
        Some(left) => left,
        None => return None,
    };
    proof {
        if s0.next().raw == RawToken::Identifier {
            s0.lemma_next_from();
            state.lemma_next_from();
        }
    }
    if state.next_token_raw() == RawToken::Punctuator(Punctuator::Or) {
        let ghost s1 = *state;
        state.advance();
        let ghost s2 = *state;
        proof {
            state.lemma_measure_nonneg();
            lemma_moved_on_trans(s0, s1, s2);
        }
        let right = match parse_pattern(state) {
            Some(right) => right,
            None => {
                proof {
                    lemma_moved_on_trans(s0, s2, *state);
                }
                return None;
            },
        };
        proof {
            lemma_moved_on_trans(s0, s2, *state);
        }
        let location = state.make_location(left.location().start, right.location().end);
        Some(Pattern::Or { location, left: Box::new(left), right: Box::new(right) })
    } else {
        Some(left)
    }
}

/// Whether a pattern that is a path can end before a token of this kind:
/// one that is none of `{`, `(`, `@` and `|`, which would continue it.
pub open spec fn ends_path_pattern(raw: RawToken) -> bool {
    &&& raw != RawToken::Punctuator(Punctuator::OpenBrace)
    &&& raw != RawToken::Punctuator(Punctuator::OpenParent)
    &&& raw != RawToken::Punctuator(Punctuator::At)
    &&& raw != RawToken::Punctuator(Punctuator::Or)
}

/// Of a pattern parsed from index `p` on that starts with a path: where no
/// path is there, no pattern; where one is, and the token after it ends
/// the pattern, a pattern that is the path: an identifier pattern for one
/// identifier, a path pattern for more, with parsing resumed after it.
pub open spec fn path_pattern_follows(f: PathId, t: Seq<char>, p: int, r: Option<Pattern>, resume: int) -> bool {
    match path_at(f, t, p) {
        Some((e, n)) => ends_path_pattern(token_from(f, t, e).raw) ==> (r matches Some(pattern) && (n
            == 1 ==> pattern is Identifier) && (n > 1 ==> pattern is Path) && resume == e),
        None => r is None,
    }
}

/// Parses a pattern that is not an or pattern.
fn parse_pattern_except_or(state: &mut ParseState) -> (r: Option<Pattern>)
    requires
        old(state).wf(),
    ensures
        final(state).wf(),
        moved_on(*old(state), *final(state)),
        r is None ==> failure_reported(*old(state), *final(state)),
        r matches Some(p) ==> parsed_pattern(p, *old(state), *final(state), false),
        !starts_pattern(old(state).next().raw) ==> r is None && same_place(*old(state), *final(state))
            && reported_unexpected(
            old(state).reported(),
            final(state).reported(),
            old(state).current().location.end,
            old(state).next(),
            "pattern"@,
        ),
        old(state).next().raw == RawToken::Identifier ==> path_pattern_follows(
            old(state).file(),
            old(state).text(),
            old(state).next_from(),
            r,
            final(state).next_from(),
        ),
        old(state).next().raw == RawToken::Identifier ==> (r matches Some(Pattern::Identifier { identifier, .. }) ==> identifier_read_from(
            final(state).names(),
            identifier,
            old(state).file(),
            old(state).text(),
            old(state).next_from(),
        )),
        old(state).next().raw == RawToken::Identifier ==> (r matches Some(Pattern::Path { path }) ==> path_identifiers_read(
            final(state).names(),
            path,
            old(state).file(),
            old(state).text(),
            old(state).next_from(),
        )),
    decreases old(state).measure(), 9int,
{
    let raw = state.next_token_raw();
    if raw == RawToken::StringLiteral || raw == RawToken::CharLiteral || raw
        == RawToken::IntegerLiteral || raw == RawToken::FloatLiteral || raw
        == RawToken::TrueBoolLiteral || raw == RawToken::FalseBoolLiteral {
        match parse_literal(state) {
            Some(literal) => Some(Pattern::Literal(literal)),
            None => None,
        }
    } else if raw == RawToken::Punctuator(Punctuator::DoubleDot) {
        state.advance();
        Some(Pattern::Rest { location: state.next_location() })
    } else if raw == RawToken::Punctuator(Punctuator::Underscore) {
        state.advance();
        Some(Pattern::Wildcard { location: state.current_location() })
    } else if raw == RawToken::Punctuator(Punctuator::Minus) {
        parse_negative_numeric_literal_pattern(state)
    } else if raw == RawToken::Identifier {
        parse_pattern_beginning_with_identifier(state)
    } else if raw == RawToken::Punctuator(Punctuator::OpenBracket) {
        parse_list_pattern(state)
    } else if raw == RawToken::Punctuator(Punctuator::OpenParent) {
        parse_grouped_or_tuple_pattern(state)
    } else {
        state.report_unexpected(String::from_str("pattern"));
        None
    }
}

/// Parses a negative numeric literal pattern: `-` and an integer or float
/// literal.
fn parse_negative_numeric_literal_pattern(state: &mut ParseState) -> (r: Option<Pattern>)
    requires
        old(state).wf(),
        old(state).next().raw == RawToken::Punctuator(Punctuator::Minus),
    ensures
        final(state).wf(),
        moved_on(*old(state), *final(state)),
        r is None ==> failure_reported(*old(state), *final(state)),
        final(state).measure() < old(state).measure(),
        r matches Some(p) ==> p is NegativeNumericLiteral,
{
    let ghost s0 = *state;
    state.advance();
    let ghost s1 = *state;
    let raw = state.next_token_raw();
    if raw == RawToken::IntegerLiteral {
        state.advance();
        let location = state.current_location();
        let bytes = state.source_text_bytes();
        let value = super::literal::integer_value(bytes, location.start.0, location.end.0);
        let ghost s2 = *state;
        proof {
            lemma_moved_on_trans(s0, s1, s2);
        }
        match value {
            Some(value) => Some(
                Pattern::NegativeNumericLiteral(NegativeNumericLiteral::Integer { value, location }),
            ),
            None => {
                state.add_diagnostic_integer_overflow(IntegerOverflow { location });
                proof {
                    lemma_moved_on_trans(s0, s2, *state);
                }
                None
            },
        }
    } else if raw == RawToken::FloatLiteral {
        state.advance();
        let location = state.current_location();
        let bytes = state.source_text_bytes();
        let value = super::literal::float_text(bytes, location.start.0, location.end.0);
        let ghost s2 = *state;
        proof {
            lemma_moved_on_trans(s0, s1, s2);
        }
        match value {
            Some(value) => Some(
                Pattern::NegativeNumericLiteral(NegativeNumericLiteral::Float { value, location }),
            ),
            None => {
                state.add_diagnostic_float_overflow(FloatOverflow { location });
                proof {
                    lemma_moved_on_trans(s0, s2, *state);
                }
                None
            },
        }
    } else {
        state.report_unexpected(String::from_str("numeric literal"));
        proof {
            lemma_moved_on_trans(s0, s1, *state);
        }
        None
    }
}

/// Parses a pattern that begins with an identifier: a struct pattern, a
/// tuple-like struct pattern, an identifier pattern (with `@` and a
/// pattern, if there is one) or a path pattern.
fn parse_pattern_beginning_with_identifier(state: &mut ParseState) -> (r: Option<Pattern>)
    requires
        old(state).wf(),
        old(state).next().raw == RawToken::Identifier,
    ensures
        final(state).wf(),
        moved_on(*old(state), *final(state)),
        r is None ==> failure_reported(*old(state), *final(state)),
        r matches Some(p) ==> (p is Identifier || p is Path || p is Struct || p is TupleLike)
            && p.location_of().start == old(state).next().location.start && final(state).measure()
            < old(state).measure(),
        path_pattern_follows(
            old(state).file(),
            old(state).text(),
            old(state).next_from(),
            r,
            final(state).next_from(),
        ),
        r matches Some(Pattern::Identifier { identifier, .. }) ==> identifier_read_from(
            final(state).names(),
            identifier,
            old(state).file(),
            old(state).text(),
            old(state).next_from(),
        ),
        r matches Some(Pattern::Path { path }) ==> path_identifiers_read(
            final(state).names(),
            path,
            old(state).file(),
            old(state).text(),
            old(state).next_from(),
        ),
    decreases old(state).measure(), 8int,
{
    let ghost s0 = *state;
    let path = match parse_path(state) {
        Some(path) => path,
        None => return None,
    };
    let ghost s1 = *state;
    proof {
        s1.lemma_next_from();
    }
    proof {
        state.lemma_measure_nonneg();
    }
    let raw = state.next_token_raw();
    if raw == RawToken::Punctuator(Punctuator::OpenBrace) {
        let r = parse_struct_pattern(state, path);
        proof {
            lemma_moved_on_trans(s0, s1, *state);
        }
        return r;
    }
    if raw == RawToken::Punctuator(Punctuator::OpenParent) {
        let r = parse_tuple_like_struct_pattern(state, path);
        proof {
            lemma_moved_on_trans(s0, s1, *state);
        }
        return r;
    }
    if path.identifiers.len() == 1 {
        let identifier: IdentifierAST = path.identifiers[0];
        let pattern = if state.next_token_raw() == RawToken::Punctuator(Punctuator::At) {
            state.advance();
            let ghost s2 = *state;
            proof {
                state.lemma_measure_nonneg();
                lemma_moved_on_trans(s0, s1, s2);
            }
            match parse_pattern(state) {
                Some(pattern) => {
                    proof {
                        lemma_moved_on_trans(s0, s2, *state);
                        lemma_moved_on_trans(s1, s2, *state);
                    }
                    Some(Box::new(pattern))
                },
                None => {
                    proof {
                        lemma_moved_on_trans(s0, s2, *state);
                    }
                    return None;
                },
            }
        } else {
            None
        };
        let end = match &pattern {
            Some(pattern) => pattern.location().end,
            None => path.location.end,
        };
        proof {
            if state.names() != s1.names() {
                lemma_path_read_later(s1.names(), state.names(), path, s0.file(), s0.text(), s0.next_from());
            }
            assert(path_identifiers_read(state.names(), path, s0.file(), s0.text(), s0.next_from()));
            assert(identifier == path.identifiers@[0]);
            assert(path_identifier_from(s0.file(), s0.text(), s0.next_from(), 0int as nat) == s0.next_from());
            assert(identifier_read_from(
                state.names(),
                path.identifiers@[0],
                s0.file(),
                s0.text(),
                path_identifier_from(s0.file(), s0.text(), s0.next_from(), 0int as nat),
            ));
        }
        Some(
            Pattern::Identifier {
                location: state.make_location(path.location.start, end),
                identifier,
                pattern,
            },
        )
    } else {
        Some(Pattern::Path { path })
    }
}

/// Parses a list pattern: patterns in brackets.
fn parse_list_pattern(state: &mut ParseState) -> (r: Option<Pattern>)
    requires
        old(state).wf(),
        old(state).next().raw == RawToken::Punctuator(Punctuator::OpenBracket),
    ensures
        final(state).wf(),
        moved_on(*old(state), *final(state)),
        r is None ==> failure_reported(*old(state), *final(state)),
        r matches Some(p) ==> p is List && p.location_of().start == old(state).next().location.start
            && final(state).measure() < old(state).measure(),
    decreases old(state).measure(), 8int,
{
    let ghost s0 = *state;
    let start = state.next_location().start;
    state.advance();
    let ghost s1 = *state;
    proof {
        state.lemma_measure_nonneg();
    }
    let inner_patterns = match parse_patterns_until(state, RawToken::Punctuator(Punctuator::CloseBracket)) {
        Some(patterns) => patterns,
        None => {
            proof {
                lemma_moved_on_trans(s0, s1, *state);
            }
            return None;
        },
    };
    let ghost s2 = *state;
    state.advance();
    proof {
        lemma_moved_on_trans(s0, s1, s2);
        lemma_moved_on_trans(s0, s2, *state);
    }
    Some(Pattern::List { location: state.location_from(start), inner_patterns })
}

/// Parses a tuple-like struct pattern after its path: patterns in
/// parentheses.
fn parse_tuple_like_struct_pattern(state: &mut ParseState, path: Path) -> (r: Option<Pattern>)
    requires
        old(state).wf(),
        old(state).next().raw == RawToken::Punctuator(Punctuator::OpenParent),
    ensures
        final(state).wf(),
        moved_on(*old(state), *final(state)),
        r is None ==> failure_reported(*old(state), *final(state)),
        r matches Some(p) ==> p is TupleLike && p.location_of().start == path.location.start
            && final(state).measure() < old(state).measure(),
    decreases old(state).measure(), 7int,
{
    let ghost s0 = *state;
    state.advance();
    let ghost s1 = *state;
    proof {
        state.lemma_measure_nonneg();
    }
    let inner_patterns = match parse_patterns_until(state, RawToken::Punctuator(Punctuator::CloseParent)) {
        Some(patterns) => patterns,
        None => {
            proof {
                lemma_moved_on_trans(s0, s1, *state);
            }
            return None;
        },
    };
    let ghost s2 = *state;
    state.advance();
    proof {
        lemma_moved_on_trans(s0, s1, s2);
        lemma_moved_on_trans(s0, s2, *state);
    }
    Some(Pattern::TupleLike { location: state.location_from(path.location.start), path, inner_patterns })
}

/// Parses a grouped pattern or a tuple pattern: patterns in parentheses;
/// one pattern, not a rest pattern, without a comma after it is a grouped
/// pattern.
fn parse_grouped_or_tuple_pattern(state: &mut ParseState) -> (r: Option<Pattern>)
    requires
        old(state).wf(),
        old(state).next().raw == RawToken::Punctuator(Punctuator::OpenParent),
    ensures
        final(state).wf(),
        moved_on(*old(state), *final(state)),
        r is None ==> failure_reported(*old(state), *final(state)),
        r matches Some(p) ==> (p is Tuple || p is Grouped) && p.location_of().start == old(
            state,
        ).next().location.start && final(state).measure() < old(state).measure(),
        list_at(
            path_pattern_element(old(state).file(), old(state).text()),
            closes_with(RawToken::Punctuator(Punctuator::CloseParent)),
            old(state).file(),
            old(state).text(),
            after_token(old(state).file(), old(state).text(), old(state).next_from()),
        ) matches Some((z, n)) ==> (r matches Some(p) && (n != 1 ==> (p matches Pattern::Tuple { elements, .. }
            && elements@.len() == n)) && (n == 1 ==> (p is Grouped || (p matches Pattern::Tuple { elements, .. }
            && elements@.len() == 1)))),
    decreases old(state).measure(), 8int,
{
    let ghost s0 = *state;
    proof {
        s0.lemma_next_from();
    }
    let start = state.next_location().start;
    state.advance();
    let ghost s1 = *state;
    proof {
        state.lemma_measure_nonneg();
    }
    let mut elements = match parse_patterns_until(state, RawToken::Punctuator(Punctuator::CloseParent)) {
        Some(patterns) => patterns,
        None => {
            proof {
                lemma_moved_on_trans(s0, s1, *state);
            }
            return None;
        },
    };
    let ghost s2 = *state;
    state.advance();
    proof {
        lemma_moved_on_trans(s0, s1, s2);
        lemma_moved_on_trans(s0, s2, *state);
    }
    let location = state.location_from(start);
    if elements.len() == 1 {
        let element = elements.pop().unwrap();
        let is_rest = match element {
            Pattern::Rest { .. } => true,
            _ => false,
        };
        let has_comma = state.text_has_comma(element.location().end, state.current_location().end);
        if is_rest || has_comma {
            let mut elements: Vec<Pattern> = Vec::new();
            elements.push(element);
            Some(Pattern::Tuple { location, elements })
        } else {
            Some(Pattern::Grouped { location, inner: Box::new(element) })
        }
    } else {
        Some(Pattern::Tuple { location, elements })
    }
}

/// Parses a struct pattern after its path: field patterns in braces.
fn parse_struct_pattern(state: &mut ParseState, path: Path) -> (r: Option<Pattern>)
    requires
        old(state).wf(),
        old(state).next().raw == RawToken::Punctuator(Punctuator::OpenBrace),
    ensures
        final(state).wf(),
        moved_on(*old(state), *final(state)),
        r is None ==> failure_reported(*old(state), *final(state)),
        r matches Some(p) ==> p is Struct && p.location_of().start == path.location.start
            && final(state).measure() < old(state).measure(),
    decreases old(state).measure(), 7int,
{
    let ghost s0 = *state;
    state.advance();
    let ghost s1 = *state;
    proof {
        state.lemma_measure_nonneg();
    }
    let fields = match parse_struct_field_patterns(state) {
        Some(fields) => fields,
        None => {
            proof {
                lemma_moved_on_trans(s0, s1, *state);
            }
            return None;
        },
    };
    let ghost s2 = *state;
    state.advance();
    proof {
        lemma_moved_on_trans(s0, s1, s2);
        lemma_moved_on_trans(s0, s2, *state);
    }
    Some(Pattern::Struct { location: state.location_from(path.location.start), path, fields })
}

/// Parses a field of a struct pattern: `..`, or a field name with `:` and
/// a pattern if there is one.
fn parse_struct_field_pattern(state: &mut ParseState) -> (r: Option<StructFieldPattern>)
    requires
        old(state).wf(),
    ensures
        final(state).wf(),
        moved_on(*old(state), *final(state)),
        r is None ==> failure_reported(*old(state), *final(state)),
        r is Some ==> final(state).measure() < old(state).measure(),
    decreases old(state).measure(), 11int,
{
    let ghost s0 = *state;
    if state.next_token_raw() == RawToken::Punctuator(Punctuator::DoubleDot) {
        state.advance();
        return Some(StructFieldPattern::Rest { location: state.current_location() });
    }
    let field_name = match state.consume_identifier() {
        Some(name) => name,
        None => return None,
    };
    let ghost s1 = *state;
    let value_pattern = if state.next_token_raw() == RawToken::Punctuator(Punctuator::Colon) {
        state.advance();
        let ghost s2 = *state;
        proof {
            state.lemma_measure_nonneg();
            lemma_moved_on_trans(s0, s1, s2);
        }
        match parse_pattern(state) {
            Some(pattern) => {
                proof {
                    lemma_moved_on_trans(s0, s2, *state);
                }
                Some(pattern)
            },
            None => {
                proof {
                    lemma_moved_on_trans(s0, s2, *state);
                }
                return None;
            },
        }
    } else {
        None
    };
    Some(
        StructFieldPattern::NotRest {
            location: state.location_from(field_name.location.start),
            field_name,
            value_pattern,
        },
    )
}

/// Parses field patterns separated by commas, with an optional trailing
/// comma, up to `}`, which is left as the next token.
fn parse_struct_field_patterns(state: &mut ParseState) -> (r: Option<Vec<StructFieldPattern>>)
    requires
        old(state).wf(),
    ensures
        final(state).wf(),
        moved_on(*old(state), *final(state)),
        r is None ==> failure_reported(*old(state), *final(state)),
        r matches Some(v) ==> (v@.len() == 0 <==> old(state).next().raw == RawToken::Punctuator(Punctuator::CloseBrace)),
        r is Some ==> final(state).next().raw == RawToken::Punctuator(Punctuator::CloseBrace),
    decreases old(state).measure(), 12int,
{
    let closing = RawToken::Punctuator(Punctuator::CloseBrace);
    let ghost start_state = *state;
    let mut result: Vec<StructFieldPattern> = Vec::new();
    if state.next_token_raw() == closing {
        return Some(result);
    }
    loop
        invariant
            state.wf(),
            start_state == *old(state),
            moved_on(start_state, *state),
            closing == RawToken::Punctuator(Punctuator::CloseBrace),
        ensures
            result@.len() > 0,
            state.wf(),
            moved_on(start_state, *state),
            state.next().raw == closing,
        decreases state.measure(),
    {
        let ghost before = *state;
        proof {
            state.lemma_measure_nonneg();
        }
        match parse_struct_field_pattern(state) {
            Some(field) => result.push(field),
            None => {
                proof {
                    lemma_moved_on_trans(start_state, before, *state);
                }
                return None;
            },
        }
        proof {
            lemma_moved_on_trans(start_state, before, *state);
        }
        if state.next_token_raw() == closing {
            break;
        }
        if state.next_token_raw() != RawToken::Punctuator(Punctuator::Comma) {
            let ghost middle = *state;
            state.report_unexpected(list_expectation(closing));
            proof {
                lemma_moved_on_trans(start_state, middle, *state);
            }
            return None;
        }
        let ghost middle = *state;
        state.advance();
        proof {
            lemma_moved_on_trans(start_state, middle, *state);
            state.lemma_measure_nonneg();
        }
        if state.next_token_raw() == closing {
            break;
        }
    }
    Some(result)
}

/// A pattern from index `q` on that is a path which the next token ends:
/// where the token after it is read from.
pub open spec fn path_pattern_at(f: PathId, t: Seq<char>, q: int) -> Option<int> {
    match path_at(f, t, q) {
        Some((e, _)) => if ends_path_pattern(token_from(f, t, e).raw) {
            Some(e)
        } else {
            None
        },
        None => None,
    }
}

/// [`path_pattern_at`] as the element of a list.
pub open spec fn path_pattern_element(f: PathId, t: Seq<char>) -> spec_fn(int) -> Option<int> {
    |q: int| path_pattern_at(f, t, q)
}

/// Parses patterns separated by commas, with an optional trailing comma,
/// up to the closing token, which is left as the next token.
#[verifier::spinoff_prover]
#[verifier::rlimit(60)]
fn parse_patterns_until(state: &mut ParseState, closing: RawToken) -> (r: Option<Vec<Pattern>>)
    requires
        old(state).wf(),
    ensures
        final(state).wf(),
        moved_on(*old(state), *final(state)),
        r is None ==> failure_reported(*old(state), *final(state)),
        r matches Some(v) ==> (v@.len() == 0 <==> old(state).next().raw == closing),
        r is Some ==> final(state).next().raw == closing,
        list_at(path_pattern_element(old(state).file(), old(state).text()), closes_with(closing), old(state).file(), old(state).text(), old(state).next_from()) matches Some((z, n)) ==> (r matches Some(v)
            && v@.len() == n && final(state).next_from() == z),
    decreases old(state).measure(), 12int,
{
    let ghost start_state = *state;
    let ghost f = start_state.file();
    let ghost t = start_state.text();
    let ghost el = path_pattern_element(f, t);
    let ghost cl = closes_with(closing);
    let ghost whole = list_at(el, cl, f, t, start_state.next_from());
    proof {
        start_state.lemma_next_from();
        reveal(list_at);
    }
    let mut result: Vec<Pattern> = Vec::new();
    if state.next_token_raw() == closing {
        return Some(result);
    }
    assert(whole == list_items_at(el, cl, f, t, start_state.next_from()));
    loop
        invariant_except_break
            whole is Some ==> (list_items_at(el, cl, f, t, state.next_from()) matches Some((z, n)) && whole
                == Some((z, n + result@.len()))),
        invariant
            state.wf(),
            start_state == *old(state),
            moved_on(start_state, *state),
            f == start_state.file(),
            t == start_state.text(),
            el == path_pattern_element(f, t),
            cl == closes_with(closing),
            whole == list_at(el, cl, f, t, start_state.next_from()),
        ensures
            result@.len() > 0,
            state.wf(),
            moved_on(start_state, *state),
            state.next().raw == closing,
            whole is Some ==> whole == Some((state.next_from(), result@.len() as nat)),
        decreases state.measure(),
    {
        let ghost before = *state;
        proof {
            state.lemma_measure_nonneg();
            before.lemma_next_from();
            if whole is Some {
                lemma_list_step(el, cl, f, t, before.next_from());
                assert(el(before.next_from()) == path_pattern_at(f, t, before.next_from()));
            }
            assert(forall|raw: RawToken| #[trigger] cl(raw) == (raw == closing));
        }
        match parse_pattern(state) {
            Some(pattern) => result.push(pattern),
            None => {
                proof {
                    lemma_moved_on_trans(start_state, before, *state);
                }
                return None;
            },
        }
        proof {
            lemma_moved_on_trans(start_state, before, *state);
            state.lemma_next_from();
        }
        if state.next_token_raw() == closing {
            break;
        }
        if state.next_token_raw() != RawToken::Punctuator(Punctuator::Comma) {
            let ghost middle = *state;
            state.report_unexpected(list_expectation(closing));
            proof {
                lemma_moved_on_trans(start_state, middle, *state);
            }
            return None;
        }
        let ghost middle = *state;
        state.advance();
        proof {
            lemma_moved_on_trans(start_state, middle, *state);
            state.lemma_measure_nonneg();
            state.lemma_next_from();
        }
        if state.next_token_raw() == closing {
            break;
        }
    }
    Some(result)
}

} // verus!
