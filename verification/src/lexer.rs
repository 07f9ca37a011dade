//! The lexer: converts source text into [`Token`]s.
//!
//! ```txt
//! "fun main() { println(\"hello\") }" -> l = Lexer::new(filepath, source, identifiers)
//!                                          |_ l.next_token() = Keyword(Fun)
//!                                          |_ l.next_token() = Identifier(main)
//!                                          |
//!                                         ...
//!                                          |
//!                                          |_ l.next_token() = EndOfFile
//! ```
//!
//! What [`Lexer::next_token`] returns is stated by [`lex`], a function of
//! the source characters and the position of the lexer, built from one spec
//! function per kind of token.

use vstd::prelude::*;
use vstd::string::*;
use vstd::utf8::{encode_scalar, encode_utf8};

use crate::interner::{interned_index, interned_view, IdentifierId, IdentifierInterner, PathId, SymbolId};
use crate::interner::lemma_encode_concat;
use crate::location::{ByteOffset, Location};
use crate::text::{chars_of, push_char};
use crate::token::{keyword_of, resolve_keyword, str_eq, LexError, Punctuator, RawLexError, RawToken, Token};

verus! {

/* Outside character classes */

/// Whether `c`, beyond ASCII, is in the `XID_Start` table of `unicode-xid`.
pub uninterp spec fn xid_start_table(c: char) -> bool;

/// Whether `c`, beyond ASCII, is in the `XID_Continue` table of `unicode-xid`.
pub uninterp spec fn xid_continue_table(c: char) -> bool;

/// `c` is an ASCII letter.
pub open spec fn is_ascii_letter(c: char) -> bool {
    ('a' <= c && c <= 'z') || ('A' <= c && c <= 'Z')
}

/// `c` is an ASCII decimal digit.
pub open spec fn is_ascii_digit(c: char) -> bool {
    '0' <= c && c <= '9'
}

/// `c` is an ASCII hexadecimal digit.
pub open spec fn is_ascii_hexdigit(c: char) -> bool {
    is_ascii_digit(c) || ('a' <= c && c <= 'f') || ('A' <= c && c <= 'F')
}

/// `UnicodeXID::is_xid_start` of `unicode-xid`: for ASCII the letters,
/// beyond ASCII the `XID_Start` table, every range of which lies in the
/// `XID_Continue` table.
#[verifier::external_body]
fn is_xid_start(c: char) -> (r: bool)
    ensures
        r == (is_ascii_letter(c) || ((c as u32) > 0x7f && xid_start_table(c))),
        r ==> is_ascii_letter(c) || ((c as u32) > 0x7f && xid_continue_table(c)),
{
    unicode_xid::UnicodeXID::is_xid_start(c)
}

/// `UnicodeXID::is_xid_continue` of `unicode-xid`: for ASCII the letters,
/// digits and `_`, beyond ASCII the `XID_Continue` table.
#[verifier::external_body]
fn is_xid_continue(c: char) -> (r: bool)
    ensures
        r == (is_ascii_letter(c) || is_ascii_digit(c) || c == '_' || ((c as u32) > 0x7f
            && xid_continue_table(c))),
{
    unicode_xid::UnicodeXID::is_xid_continue(c)
}

/// `char::from_u32`: the character with the given scalar value, or `None`
/// where the value is not a Unicode scalar value.
#[verifier::external_body]
pub(crate) fn char_from_u32(v: u32) -> (r: Option<char>)
    ensures
        r is Some <==> is_scalar_value(v as int),
        r matches Some(c) ==> c as int == v as int && c as u32 == v,
{
    char::from_u32(v)
}

/* The character model */

/// `v` is a Unicode scalar value.
pub open spec fn is_scalar_value(v: int) -> bool {
    (0 <= v <= 0xD7FF) || (0xE000 <= v <= 0x10FFFF)
}

/// `c` can start an identifier.
pub open spec fn is_id_start(c: char) -> bool {
    is_ascii_letter(c) || ((c as u32) > 0x7f && xid_start_table(c)) || c == '_'
}

/// `c` can continue an identifier.
pub open spec fn is_id_continue(c: char) -> bool {
    is_ascii_letter(c) || is_ascii_digit(c) || c == '_' || ((c as u32) > 0x7f
        && xid_continue_table(c))
}

/// The character at index `i`, or `None` past the end.
pub open spec fn char_at(s: Seq<char>, i: int) -> Option<char> {
    if 0 <= i < s.len() {
        Some(s[i])
    } else {
        None
    }
}

/// `c` is a whitespace character: the ASCII ones, NEXT LINE, the bidi
/// markers and the Unicode line and paragraph separators.
pub open spec fn is_whitespace(c: char) -> bool {
    c == '\u{0009}' || c == '\u{000A}' || c == '\u{000B}' || c == '\u{000C}' || c == '\u{000D}'
        || c == '\u{0020}' || c == '\u{0085}' || c == '\u{200E}' || c == '\u{200F}' || c
        == '\u{2028}' || c == '\u{2029}'
}

/// There is a decimal digit at index `i`.
pub open spec fn digit_at(s: Seq<char>, i: int) -> bool {
    0 <= i < s.len() && is_ascii_digit(s[i])
}

/// There is a hexadecimal digit at index `i`.
pub open spec fn hexdigit_at(s: Seq<char>, i: int) -> bool {
    0 <= i < s.len() && is_ascii_hexdigit(s[i])
}

/// The byte offset of the character at index `i`.
pub open spec fn offset_of(s: Seq<char>, i: int) -> int {
    encode_utf8(s.take(i)).len() as int
}

/// The index after advancing by one character (the end stays the end).
pub open spec fn advanced(s: Seq<char>, i: int) -> int {
    if i < s.len() {
        i + 1
    } else {
        i
    }
}

/// The index of the first character at or after `i` that is not whitespace.
pub open spec fn skip_whitespace(s: Seq<char>, i: int) -> int
    decreases s.len() - i,
{
    if 0 <= i < s.len() && is_whitespace(s[i]) {
        skip_whitespace(s, i + 1)
    } else {
        i
    }
}

/// The index of the first line break at or after `i`, or the end.
pub open spec fn line_end(s: Seq<char>, i: int) -> int
    decreases s.len() - i,
{
    if 0 <= i < s.len() && s[i] != '\n' {
        line_end(s, i + 1)
    } else {
        i
    }
}

/// The index of the first line break or backtick at or after `i`, or the end.
pub open spec fn wrapped_identifier_end(s: Seq<char>, i: int) -> int
    decreases s.len() - i,
{
    if 0 <= i < s.len() && s[i] != '\n' && s[i] != '`' {
        wrapped_identifier_end(s, i + 1)
    } else {
        i
    }
}

/// The index of the first character at or after `i` that cannot continue
/// an identifier, or the end.
pub open spec fn identifier_end(s: Seq<char>, i: int) -> int
    decreases s.len() - i,
{
    if 0 <= i < s.len() && is_id_continue(s[i]) {
        identifier_end(s, i + 1)
    } else {
        i
    }
}

/// The index of the first character at or after `i` that is neither a
/// decimal digit nor `_`, or the end.
pub open spec fn digits_end(s: Seq<char>, i: int) -> int
    decreases s.len() - i,
{
    if 0 <= i < s.len() && (is_ascii_digit(s[i]) || s[i] == '_') {
        digits_end(s, i + 1)
    } else {
        i
    }
}

/// The index of the first of the `n` characters from `i` on that is not a
/// hexadecimal digit, or `i + n` if all are.
pub open spec fn first_non_hex(s: Seq<char>, i: int, n: nat) -> int
    decreases n,
{
    if n == 0 {
        i
    } else if hexdigit_at(s, i) {
        first_non_hex(s, i + 1, (n - 1) as nat)
    } else {
        i
    }
}

/// The value of a hexadecimal digit.
pub open spec fn hex_digit_value(c: char) -> int {
    if is_ascii_digit(c) {
        c as int - '0' as int
    } else if 'a' <= c && c <= 'f' {
        c as int - 'a' as int + 10
    } else {
        c as int - 'A' as int + 10
    }
}

/// The value of the hexadecimal digits at indices `from..to`.
pub open spec fn hex_value(s: Seq<char>, from: int, to: int) -> int
    decreases to - from,
{
    if to <= from {
        0
    } else {
        hex_value(s, from, to - 1) * 16 + hex_digit_value(s[to - 1])
    }
}

/* Tokens as functions of the text */

/// The location with the given byte range.
pub open spec fn location_of(filepath: PathId, start: int, end: int) -> Location {
    Location { filepath, start: ByteOffset(start as usize), end: ByteOffset(end as usize) }
}

/// The location of the character at index `i`: its first byte (at the end,
/// the byte after the text).
pub open spec fn char_location(filepath: PathId, s: Seq<char>, i: int) -> Location {
    location_of(filepath, offset_of(s, i), offset_of(s, i) + 1)
}

/// The token with the given kind, from the character at index `from` up to
/// the one at index `to`.
pub open spec fn token_between(filepath: PathId, s: Seq<char>, raw: RawToken, from: int, to: int) -> Token {
    Token { raw, location: location_of(filepath, offset_of(s, from), offset_of(s, to)) }
}

/// The error token for a lexing error.
pub open spec fn error_token(e: LexError) -> Token {
    Token { raw: RawToken::Error(e.raw), location: e.location }
}

/// Processing the escape sequence that starts with the backslash at index
/// `p`: the character it stands for or the error, and the index where
/// lexing resumes.
pub open spec fn escape(filepath: PathId, s: Seq<char>, p: int) -> (Result<char, LexError>, int) {
    let q = p + 1;
    let error = |raw: RawLexError| LexError { raw, location: char_location(filepath, s, q) };
    match char_at(s, q) {
        Some('b') => (Ok('\u{0008}'), q + 1),
        Some('f') => (Ok('\u{000C}'), q + 1),
        Some('n') => (Ok('\n'), q + 1),
        Some('r') => (Ok('\r'), q + 1),
        Some('t') => (Ok('\t'), q + 1),
        Some('\'') => (Ok('\''), q + 1),
        Some('"') => (Ok('"'), q + 1),
        Some('\\') => (Ok('\\'), q + 1),
        Some('\0') => (Err(error(RawLexError::EmptyEscapeSequence)), q + 1),
        Some('u') => hex_escape(filepath, s, q, 4, true),
        Some('U') => hex_escape(filepath, s, q, 8, true),
        Some('x') => hex_escape(filepath, s, q, 2, false),
        _ => (Err(error(RawLexError::UnknownEscapeSequence)), advanced(s, q)),
    }
}

/// Processing `{` `n` hexadecimal digits `}` after the letter at index `q`
/// of a unicode (`\u`, `\U`) or byte (`\x`) escape sequence.
pub open spec fn hex_escape(filepath: PathId, s: Seq<char>, q: int, n: nat, unicode: bool) -> (
    Result<char, LexError>,
    int,
) {
    let b = q + 1;
    let d = b + 1;
    let k = first_non_hex(s, d, n);
    if char_at(s, b) != Some('{') {
        (
            Err(
                LexError {
                    raw: if unicode {
                        RawLexError::ExpectedOpenBracketInUnicodeEscapeSequence
                    } else {
                        RawLexError::ExpectedOpenBracketInByteEscapeSequence
                    },
                    location: char_location(filepath, s, b),
                },
            ),
            b,
        )
    } else if k < d + n {
        (
            Err(
                LexError {
                    raw: if unicode {
                        RawLexError::ExpectedDigitInUnicodeEscapeSequence
                    } else {
                        RawLexError::ExpectedDigitInByteEscapeSequence
                    },
                    location: char_location(filepath, s, k),
                },
            ),
            k,
        )
    } else if char_at(s, d + n) != Some('}') {
        (
            Err(
                LexError {
                    raw: if unicode {
                        RawLexError::ExpectedCloseBracketInUnicodeEscapeSequence
                    } else {
                        RawLexError::ExpectedCloseBracketInByteEscapeSequence
                    },
                    location: char_location(filepath, s, d + n),
                },
            ),
            d + n,
        )
    } else if is_scalar_value(hex_value(s, d, d + n)) {
        (Ok(char_with_value(hex_value(s, d, d + n))), d + n + 1)
    } else {
        (
            Err(
                LexError {
                    raw: if unicode {
                        RawLexError::InvalidUnicodeEscapeSequence
                    } else {
                        RawLexError::InvalidByteEscapeSequence
                    },
                    location: location_of(filepath, offset_of(s, q), offset_of(s, d + n)),
                },
            ),
            d + n + 1,
        )
    }
}

/// The character whose scalar value is `v`.
pub open spec fn char_with_value(v: int) -> char {
    choose|c: char| #[trigger] scalar_of(c) == v
}

/// The scalar value of `c`.
pub open spec fn scalar_of(c: char) -> int {
    c as int
}

/// An escape error after which the lexer skips one more character.
pub open spec fn is_invalid_escape(e: RawLexError) -> bool {
    e == RawLexError::InvalidUnicodeEscapeSequence || e == RawLexError::InvalidByteEscapeSequence
}

/// The token for an escape error, and where lexing resumes.
pub open spec fn escape_error(s: Seq<char>, e: LexError, r: int) -> (Token, int) {
    if is_invalid_escape(e.raw) {
        (error_token(e), advanced(s, r))
    } else {
        (error_token(e), r)
    }
}

/// Lexing the rest of a string literal that starts at index `start`, from
/// index `p` on, with the characters `content` read so far: the token,
/// where lexing resumes, and the characters of the literal.
pub open spec fn string_literal(
    filepath: PathId,
    s: Seq<char>,
    start: int,
    p: int,
    content: Seq<char>,
) -> (Token, int, Seq<char>)
    decreases s.len() - p,
{
    if p < 0 || p >= s.len() || s[p] == '\n' {
        (
            token_between(filepath, s, RawToken::Error(RawLexError::UnterminatedStringLiteral), start, p),
            p,
            content,
        )
    } else if s[p] == '"' {
        (token_between(filepath, s, RawToken::StringLiteral, start, p + 1), p + 1, content)
    } else if s[p] == '\\' {
        let (result, r) = escape(filepath, s, p);
        proof {
            lemma_escape_progress(filepath, s, p);
        }
        match result {
            Ok(c) => string_literal(filepath, s, start, r, content.push(c)),
            Err(e) => {
                let (t, resume) = escape_error(s, e, r);
                (t, resume, content)
            },
        }
    } else {
        string_literal(filepath, s, start, p + 1, content.push(s[p]))
    }
}

/// Lexing the rest of a character literal that starts at index `start`,
/// from index `p` on, after `count` characters of which the last is
/// `last`: the token, where lexing resumes, and the last character read.
pub open spec fn char_literal(
    filepath: PathId,
    s: Seq<char>,
    start: int,
    p: int,
    count: nat,
    last: char,
) -> (Token, int, char)
    decreases s.len() - p,
{
    if char_at(s, p) == Some('\'') {
        let raw = if count >= 2 {
            RawToken::Error(RawLexError::MoreThanOneCharInCharLiteral)
        } else if count == 0 {
            RawToken::Error(RawLexError::EmptyCharacterLiteral)
        } else {
            RawToken::CharLiteral
        };
        (token_between(filepath, s, raw, start, p + 1), p + 1, last)
    } else if p < 0 || p >= s.len() || s[p] == '\n' {
        (
            token_between(filepath, s, RawToken::Error(RawLexError::UnterminatedCharLiteral), start, p),
            p,
            last,
        )
    } else if s[p] == '\\' {
        let (result, r) = escape(filepath, s, p);
        proof {
            lemma_escape_progress(filepath, s, p);
        }
        match result {
            Ok(c) => char_literal(filepath, s, start, r, count + 1, c),
            Err(e) => {
                let (t, resume) = escape_error(s, e, r);
                (t, resume, last)
            },
        }
    } else {
        char_literal(filepath, s, start, p + 1, count + 1, s[p])
    }
}

/// Lexing a wrapped identifier whose opening backtick is at index `p`: the
/// token and where lexing resumes.
pub open spec fn wrapped_identifier(filepath: PathId, s: Seq<char>, p: int) -> (Token, int) {
    let e = wrapped_identifier_end(s, p + 1);
    if char_at(s, e) != Some('`') {
        (
            token_between(filepath, s, RawToken::Error(RawLexError::UnterminatedWrappedIdentifier), p, e),
            e,
        )
    } else if e == p + 1 {
        (token_between(filepath, s, RawToken::Error(RawLexError::EmptyWrappedIdentifier), p, e), e)
    } else {
        (token_between(filepath, s, RawToken::Identifier, p, e + 1), e + 1)
    }
}

/// The kind of token that the word `name` is: `_`, a keyword, a boolean
/// literal or an identifier.
pub open spec fn word_kind(name: Seq<char>) -> RawToken {
    if name == "_"@ {
        RawToken::Punctuator(Punctuator::Underscore)
    } else if keyword_of(name) is Some {
        RawToken::Keyword(keyword_of(name)->0)
    } else if name == "true"@ {
        RawToken::TrueBoolLiteral
    } else if name == "false"@ {
        RawToken::FalseBoolLiteral
    } else {
        RawToken::Identifier
    }
}

/// Lexing a number that starts at index `p`: digits and underscores, an
/// optional fraction (a dot followed by a digit, then digits and
/// underscores) and an optional exponent (`e` or `E`, an optional sign and
/// a digit, then digits and underscores). It is a float literal if it has a
/// fraction or an exponent.
pub open spec fn number(filepath: PathId, s: Seq<char>, p: int) -> (Token, int) {
    let i1 = digits_end(s, p);
    let i2 = if char_at(s, i1) == Some('.') && digit_at(s, i1 + 1) {
        digits_end(s, i1 + 1)
    } else {
        i1
    };
    let exponent = char_at(s, i2) == Some('e') || char_at(s, i2) == Some('E');
    let i3 = if exponent && digit_at(s, i2 + 1) {
        digits_end(s, i2 + 1)
    } else if exponent && (char_at(s, i2 + 1) == Some('+') || char_at(s, i2 + 1) == Some('-'))
        && digit_at(s, i2 + 2) {
        digits_end(s, i2 + 2)
    } else {
        i2
    };
    let raw = if i3 > i1 {
        RawToken::FloatLiteral
    } else {
        RawToken::IntegerLiteral
    };
    (token_between(filepath, s, raw, p, i3), i3)
}

/// The punctuator made of the two characters `c` and `n`, if any.
pub open spec fn double_punctuator(c: char, n: char) -> Option<Punctuator> {
    if c == '+' && n == '+' {
        Some(Punctuator::DoublePlus)
    } else if c == '+' && n == '=' {
        Some(Punctuator::PlusEq)
    } else if c == '-' && n == '>' {
        Some(Punctuator::Arrow)
    } else if c == '-' && n == '-' {
        Some(Punctuator::DoubleMinus)
    } else if c == '-' && n == '=' {
        Some(Punctuator::MinusEq)
    } else if c == '*' && n == '*' {
        Some(Punctuator::DoubleAsterisk)
    } else if c == '*' && n == '=' {
        Some(Punctuator::AsteriskEq)
    } else if c == '/' && n == '=' {
        Some(Punctuator::SlashEq)
    } else if c == '!' && n == '=' {
        Some(Punctuator::BangEq)
    } else if c == '>' && n == '>' {
        Some(Punctuator::RightShift)
    } else if c == '>' && n == '=' {
        Some(Punctuator::GreaterEq)
    } else if c == '<' && n == '<' {
        Some(Punctuator::LeftShift)
    } else if c == '<' && n == '=' {
        Some(Punctuator::LessEq)
    } else if c == '=' && n == '=' {
        Some(Punctuator::DoubleEq)
    } else if c == '|' && n == '=' {
        Some(Punctuator::OrEq)
    } else if c == '|' && n == '|' {
        Some(Punctuator::DoubleOr)
    } else if c == '&' && n == '&' {
        Some(Punctuator::DoubleAmpersand)
    } else if c == '^' && n == '=' {
        Some(Punctuator::CaretEq)
    } else if c == '.' && n == '.' {
        Some(Punctuator::DoubleDot)
    } else {
        None
    }
}

/// The punctuator made of the two characters at index `i`, if any.
pub open spec fn double_punctuator_at(s: Seq<char>, i: int) -> Option<Punctuator> {
    match (char_at(s, i), char_at(s, i + 1)) {
        (Some(c), Some(n)) => double_punctuator(c, n),
        _ => None,
    }
}

/// The punctuator made of the character `c` alone, if any (`%` followed by
/// `=` also gives `PercentEq` from its first character alone).
pub open spec fn single_punctuator(c: char, n: Option<char>) -> Option<Punctuator> {
    if c == ':' {
        Some(Punctuator::Colon)
    } else if c == '@' {
        Some(Punctuator::At)
    } else if c == '+' {
        Some(Punctuator::Plus)
    } else if c == '-' {
        Some(Punctuator::Minus)
    } else if c == '*' {
        Some(Punctuator::Asterisk)
    } else if c == '#' {
        Some(Punctuator::HashTag)
    } else if c == '/' {
        Some(Punctuator::Slash)
    } else if c == '!' {
        Some(Punctuator::Bang)
    } else if c == '>' {
        Some(Punctuator::Greater)
    } else if c == '<' {
        Some(Punctuator::Less)
    } else if c == '=' {
        Some(Punctuator::Eq)
    } else if c == '|' {
        Some(Punctuator::Or)
    } else if c == '?' {
        Some(Punctuator::QuestionMark)
    } else if c == '&' {
        Some(Punctuator::Ampersand)
    } else if c == '^' {
        Some(Punctuator::Caret)
    } else if c == '~' {
        Some(Punctuator::Tilde)
    } else if c == '(' {
        Some(Punctuator::OpenParent)
    } else if c == ')' {
        Some(Punctuator::CloseParent)
    } else if c == '[' {
        Some(Punctuator::OpenBracket)
    } else if c == ']' {
        Some(Punctuator::CloseBracket)
    } else if c == '{' {
        Some(Punctuator::OpenBrace)
    } else if c == '}' {
        Some(Punctuator::CloseBrace)
    } else if c == ',' {
        Some(Punctuator::Comma)
    } else if c == ';' {
        Some(Punctuator::Semicolon)
    } else if c == '%' && n == Some('=') {
        Some(Punctuator::PercentEq)
    } else if c == '%' {
        Some(Punctuator::Percent)
    } else {
        None
    }
}

/// The token that starts at index `i` (a non-whitespace character or the
/// end) and where lexing resumes.
pub open spec fn token_at(filepath: PathId, s: Seq<char>, i: int) -> (Token, int) {
    match char_at(s, i) {
        None => (Token { raw: RawToken::EndOfFile, location: char_location(filepath, s, i) }, i),
        Some(c) => {
            let n = char_at(s, i + 1);
            if c == '"' {
                let (t, r, _content) = string_literal(filepath, s, i, i + 1, Seq::empty());
                (t, r)
            } else if c == '\'' {
                let (t, r, _last) = char_literal(filepath, s, i, i + 1, 0, '\0');
                (t, r)
            } else if c == '`' {
                wrapped_identifier(filepath, s, i)
            } else if c == '/' && n == Some('/') {
                let raw = if char_at(s, i + 2) == Some('!') {
                    RawToken::GlobalDocComment
                } else if char_at(s, i + 2) == Some('/') {
                    RawToken::LocalDocComment
                } else {
                    RawToken::Comment
                };
                let from = if raw == RawToken::Comment {
                    i + 2
                } else {
                    i + 3
                };
                let e = line_end(s, from);
                (token_between(filepath, s, raw, i, e), e)
            } else if double_punctuator_at(s, i) is Some {
                (
                    Token {
                        raw: RawToken::Punctuator(double_punctuator_at(s, i)->0),
                        location: location_of(filepath, offset_of(s, i), offset_of(s, i) + 2),
                    },
                    i + 2,
                )
            } else if single_punctuator(c, n) is Some {
                (
                    Token {
                        raw: RawToken::Punctuator(single_punctuator(c, n)->0),
                        location: char_location(filepath, s, i),
                    },
                    i + 1,
                )
            } else if is_ascii_digit(c) || (c == '.' && digit_at(s, i + 1)) {
                number(filepath, s, i)
            } else if is_id_start(c) {
                let e = identifier_end(s, i);
                (token_between(filepath, s, word_kind(s.subrange(i, e)), i, e), e)
            } else if c == '.' {
                (
                    Token {
                        raw: RawToken::Punctuator(Punctuator::Dot),
                        location: char_location(filepath, s, i),
                    },
                    i + 1,
                )
            } else {
                (
                    Token {
                        raw: RawToken::Error(RawLexError::UnexpectedChar),
                        location: char_location(filepath, s, i),
                    },
                    i + 1,
                )
            }
        },
    }
}

/// The token that a lexer at index `pos` returns next, and the index where
/// it is left: whitespace is skipped, then one token is read.
pub open spec fn lex(filepath: PathId, s: Seq<char>, pos: int) -> (Token, int) {
    token_at(filepath, s, skip_whitespace(s, pos))
}

/// The first token that is not a comment from index `pos` on, where the
/// lexer is left, and the index where that token starts.
pub open spec fn lex_no_comments(filepath: PathId, s: Seq<char>, pos: int) -> (Token, int, int)
    decreases s.len() - pos,
{
    let (t, r) = lex(filepath, s, pos);
    if 0 <= pos <= s.len() && t.raw == RawToken::Comment {
        proof {
            lemma_comment_progress(filepath, s, pos);
        }
        lex_no_comments(filepath, s, r)
    } else {
        (t, r, skip_whitespace(s, pos))
    }
}

/// The first token that is not a comment is never a comment.
pub proof fn lemma_no_comments_not_comment(filepath: PathId, s: Seq<char>, pos: int)
    requires
        0 <= pos <= s.len(),
    ensures
        lex_no_comments(filepath, s, pos).0.raw != RawToken::Comment,
    decreases s.len() - pos,
{
    let (t, r) = lex(filepath, s, pos);
    if t.raw == RawToken::Comment {
        lemma_comment_progress(filepath, s, pos);
        lemma_no_comments_not_comment(filepath, s, r);
    }
}

/// The characters of the string literal that starts at index `i`.
pub open spec fn string_literal_content(filepath: PathId, s: Seq<char>, i: int) -> Seq<char> {
    string_literal(filepath, s, i, i + 1, Seq::empty()).2
}

/// The last character read by the character literal that starts at index
/// `i`.
pub open spec fn char_literal_value(filepath: PathId, s: Seq<char>, i: int) -> char {
    char_literal(filepath, s, i, i + 1, 0, '\0').2
}

/// The string buffer after a token that starts at index `i` is read: the
/// characters of its string literal if it starts with `"`, else `before`.
pub open spec fn string_after_token(filepath: PathId, s: Seq<char>, i: int, before: Seq<char>) -> Seq<char> {
    if char_at(s, i) == Some('"') {
        string_literal_content(filepath, s, i)
    } else {
        before
    }
}

/// The last character read in a character literal after a token that
/// starts at index `i` is read: the last character its character literal
/// read if it starts with `'`, else `before`.
pub open spec fn char_after_token(filepath: PathId, s: Seq<char>, i: int, before: char) -> char {
    if char_at(s, i) == Some('\'') {
        char_literal(filepath, s, i, i + 1, 0, before).2
    } else {
        before
    }
}

/// The name of the identifier that starts at index `i`: the text between
/// the backticks of a wrapped identifier, or the word.
pub open spec fn identifier_name(s: Seq<char>, i: int) -> Seq<char> {
    if s[i] == '`' {
        s.subrange(i + 1, wrapped_identifier_end(s, i + 1))
    } else {
        s.subrange(i, identifier_end(s, i))
    }
}

/* Lemmas */

/// Skipping whitespace and scanning to the end of a line move forward and
/// stay within the text.
pub proof fn lemma_scans_forward(s: Seq<char>, i: int)
    requires
        0 <= i <= s.len(),
    ensures
        i <= skip_whitespace(s, i) <= s.len(),
        i <= line_end(s, i) <= s.len(),
    decreases s.len() - i,
{
    if i < s.len() {
        lemma_scans_forward(s, i + 1);
    }
}

/// A comment token moves the lexer forward.
pub proof fn lemma_comment_progress(filepath: PathId, s: Seq<char>, pos: int)
    requires
        0 <= pos <= s.len(),
        lex(filepath, s, pos).0.raw == RawToken::Comment,
    ensures
        pos < lex(filepath, s, pos).1 <= s.len(),
        char_at(s, skip_whitespace(s, pos)) == Some('/'),
{
    lemma_scans_forward(s, pos);
    let i = skip_whitespace(s, pos);
    let c = s[i];
    if c == '"' {
        lemma_string_literal_kind(filepath, s, i, i + 1, Seq::empty());
    } else if c == '\'' {
        lemma_char_literal_kind(filepath, s, i, i + 1, 0, '\0');
    } else if c == '/' && char_at(s, i + 1) == Some('/') {
        if i + 3 <= s.len() {
            lemma_scans_forward(s, i + 3);
        }
        lemma_scans_forward(s, i + 2);
    }
}

/// No character of the text can start an identifier without continuing one.
pub open spec fn no_stuck_chars(s: Seq<char>) -> bool {
    forall|i: int| 0 <= i < s.len() ==> !(is_id_start(#[trigger] s[i]) && !is_id_continue(s[i]))
}

/// Whether no character of the text can start an identifier without
/// continuing one, so that the lexer moves forward on every token of it.
/// Every character that starts an identifier continues one, so this holds
/// of every text; reading the text establishes it.
pub fn has_no_stuck_chars(source: &str) -> (r: bool)
    ensures
        r == no_stuck_chars(source@),
        r,
{
    let chars = chars_of(source);
    let mut i: usize = 0;
    while i < chars.len()
        invariant
            i <= chars@.len(),
            chars@ == source@,
            forall|j: int| 0 <= j < i ==> !(is_id_start(#[trigger] chars@[j]) && !is_id_continue(chars@[j])),
        decreases chars.len() - i,
    {
        let c = chars[i];
        if (is_xid_start(c) || c == '_') && !is_xid_continue(c) {
            assert(is_id_start(source@[i as int]) && !is_id_continue(source@[i as int]));
            return false;
        }
        i += 1;
    }
    true
}

/// Reading a token that is not a comment moves forward within the text: it
/// reads `EndOfFile` only at the end of the text, and any other token moves
/// past where it started.
pub proof fn lemma_lex_no_comments_progress(filepath: PathId, s: Seq<char>, pos: int)
    requires
        0 <= pos <= s.len(),
        no_stuck_chars(s),
    ensures
        ({
            let (t, resume, start) = lex_no_comments(filepath, s, pos);
            &&& pos <= start <= resume <= s.len()
            &&& t.raw != RawToken::Comment
            &&& t.raw == RawToken::EndOfFile ==> resume == s.len()
            &&& t.raw != RawToken::EndOfFile ==> pos < resume
        }),
    decreases s.len() - pos,
{
    lemma_lex_progress(filepath, s, pos);
    let (t, r) = lex(filepath, s, pos);
    let i = skip_whitespace(s, pos);
    if i < s.len() {
        assert(!(is_id_start(s[i]) && !is_id_continue(s[i])));
    }
    if t.raw == RawToken::Comment {
        lemma_comment_progress(filepath, s, pos);
        lemma_lex_no_comments_progress(filepath, s, r);
    }
}

/// The index of the first non-hex digit lies within the digits looked at.
pub proof fn lemma_first_non_hex(s: Seq<char>, i: int, n: nat)
    requires
        0 <= i,
    ensures
        i <= first_non_hex(s, i, n) <= i + n,
        first_non_hex(s, i, n) <= s.len() || first_non_hex(s, i, n) == i,
        first_non_hex(s, i, n) < i + n ==> !hexdigit_at(s, first_non_hex(s, i, n)),
        forall|j: int| i <= j < first_non_hex(s, i, n) ==> hexdigit_at(s, j),
    decreases n,
{
    if n > 0 && hexdigit_at(s, i) {
        lemma_first_non_hex(s, i + 1, (n - 1) as nat);
    }
}

/// Processing an escape sequence moves past the backslash and stays within
/// the text.
pub proof fn lemma_escape_progress(filepath: PathId, s: Seq<char>, p: int)
    requires
        0 <= p < s.len(),
    ensures
        p < escape(filepath, s, p).1 <= s.len(),
{
    let q = p + 1;
    let d = q + 2;
    lemma_first_non_hex(s, d, 4);
    lemma_first_non_hex(s, d, 8);
    lemma_first_non_hex(s, d, 2);
}

} // verus!

verus! {

/// The byte offset after a character is that of the character plus the
/// length of its encoding, and offsets grow along the text.
pub proof fn lemma_offset_step(s: Seq<char>, i: int)
    requires
        0 <= i < s.len(),
    ensures
        offset_of(s, i + 1) == offset_of(s, i) + encode_scalar(s[i] as u32).len(),
{
    let one = seq![s[i]];
    assert(s.take(i + 1) =~= s.take(i) + one);
    lemma_encode_concat(s.take(i), one);
    assert(one.drop_first() =~= Seq::<char>::empty());
    assert(encode_utf8(Seq::<char>::empty()) =~= Seq::<u8>::empty());
    assert(encode_utf8(one) =~= encode_scalar(s[i] as u32) + encode_utf8(one.drop_first()));
    assert(encode_utf8(one) =~= encode_scalar(s[i] as u32));
}

/// Every character takes at least one byte.
pub proof fn lemma_offset_at_least_index(s: Seq<char>, i: int)
    requires
        0 <= i <= s.len(),
    ensures
        i <= offset_of(s, i),
    decreases i,
{
    if i > 0 {
        lemma_offset_at_least_index(s, i - 1);
        lemma_offset_step(s, i - 1);
    }
}

/// Byte offsets grow along the text.
pub proof fn lemma_offset_monotonic(s: Seq<char>, i: int, j: int)
    requires
        0 <= i <= j <= s.len(),
    ensures
        offset_of(s, i) <= offset_of(s, j),
    decreases j - i,
{
    if i < j {
        lemma_offset_monotonic(s, i, j - 1);
        lemma_offset_step(s, j - 1);
    }
}

/// The length of the UTF-8 encoding of `c`.
fn char_width(c: char) -> (r: usize)
    ensures
        r == encode_scalar(c as u32).len(),
        1 <= r <= 4,
{
    let v = c as u32;
    if v <= 0x7F {
        1
    } else if v <= 0x7FF {
        2
    } else if v <= 0xFFFF {
        3
    } else {
        4
    }
}

/// # Lexer
///
/// The lexer returns a [`Token`] and advances its state on each call, and
/// stops at the end of the text (then it always returns
/// [`RawToken::EndOfFile`]). If an error appears, an
/// [`RawToken::Error`] token is returned.
///
/// Identifiers are interned in the lexer's own [`IdentifierInterner`].
pub struct Lexer<'s> {
    /// ID of the path of the file being scanned.
    pub filepath: PathId,
    /// Content of the file being scanned.
    pub source: &'s str,
    /// The characters of the source.
    chars: Vec<char>,
    /// Index of the current character.
    pos: usize,
    /// Offset of the current character being processed.
    offset: ByteOffset,
    /// Symbol corresponding to an identifier being processed early on.
    pub scanned_identifier: IdentifierId,
    /// Buffer for storing scanned characters (after processing escape sequences).
    pub scanned_char: char,
    /// Buffer for storing scanned strings (after processing escape sequences).
    scanned_string: String,
    /// The interner of identifiers.
    identifiers: IdentifierInterner,
}

impl<'s> Lexer<'s> {
    /// The characters of the source.
    pub closed spec fn text(&self) -> Seq<char> {
        self.source@
    }

    /// The file being scanned.
    pub closed spec fn file(&self) -> PathId {
        self.filepath
    }

    /// The source being scanned.
    pub closed spec fn source_str(&self) -> &'s str {
        self.source
    }

    /// The last interned identifier.
    pub closed spec fn last_identifier(&self) -> IdentifierId {
        self.scanned_identifier
    }

    /// The last scanned character.
    pub closed spec fn last_char(&self) -> char {
        self.scanned_char
    }

    /// The index of the character the lexer is at.
    pub closed spec fn position(&self) -> int {
        self.pos as int
    }

    /// The interned identifiers.
    pub closed spec fn identifier_names(&self) -> Seq<Seq<char>> {
        self.identifiers.view()
    }

    /// The string buffer.
    pub closed spec fn scanned_string_view(&self) -> Seq<char> {
        self.scanned_string@
    }

    /// The position is within the text, the offset is that of the position,
    /// and every offset fits a `usize` with room for one more byte.
    pub closed spec fn wf(&self) -> bool {
        &&& self.chars@ == self.source@
        &&& self.pos <= self.chars@.len()
        &&& self.offset.0 == offset_of(self.chars@, self.pos as int)
        &&& offset_of(self.chars@, self.chars@.len() as int) + 2 < usize::MAX
        &&& self.chars@.len() + 2 < usize::MAX
        &&& self.identifiers.wf()
    }

    /// Creates a [`Lexer`] at the first character of `source`, interning
    /// identifiers in `identifiers`.
    pub fn new(filepath: PathId, source: &'s str, identifiers: IdentifierInterner) -> (r: Self)
        requires
            source.spec_bytes().len() + 2 < usize::MAX,
            identifiers.wf(),
        ensures
            r.wf(),
            r.file() == filepath,
            r.source_str() == source,
            r.text() == source@,
            r.position() == 0,
            r.identifier_names() == identifiers.view(),
            r.last_identifier() == IdentifierId(0),
            r.last_char() == '\0',
            r.scanned_string_view() == Seq::<char>::empty(),
    {
        let chars = chars_of(source);
        proof {
            assert(chars@.take(chars@.len() as int) =~= chars@);
            assert(chars@.take(0) =~= Seq::<char>::empty());
            lemma_offset_at_least_index(chars@, chars@.len() as int);
        }
        Lexer {
            filepath,
            source,
            chars,
            pos: 0,
            offset: ByteOffset(0),
            scanned_identifier: IdentifierId(0),
            scanned_char: '\0',
            scanned_string: String::new(),
            identifiers,
        }
    }

    /// Returns the source being scanned.
    pub fn source_text(&self) -> (r: &'s str)
        ensures
            r == self.source_str(),
    {
        self.source
    }

    /// Returns the ID of the path of the file being scanned.
    pub fn file_id(&self) -> (r: PathId)
        ensures
            r == self.file(),
    {
        self.filepath
    }

    /// Returns the character that the lexer read last in a character
    /// literal.
    pub fn last_char_value(&self) -> (r: char)
        ensures
            r == self.last_char(),
    {
        self.scanned_char
    }

    /// Returns the ID of the identifier that the lexer read last.
    pub fn last_identifier_id(&self) -> (r: IdentifierId)
        ensures
            r == self.last_identifier(),
    {
        self.scanned_identifier
    }

    /// Returns the identifier interner, with every identifier that the
    /// lexer interned.
    pub fn into_identifiers(self) -> (r: IdentifierInterner)
        requires
            self.wf(),
        ensures
            r.wf(),
            r.view() == self.identifier_names(),
    {
        self.identifiers
    }

    /// Returns a string being scanned early on (after processing escape
    /// sequences) and cleans internal lexer string buffer.
    pub fn scanned_string(&mut self) -> (r: String)
        ensures
            r@ == old(self).scanned_string_view(),
            final(self).scanned_string_view() == Seq::<char>::empty(),
            final(self).wf() == old(self).wf(),
            final(self).position() == old(self).position(),
            final(self).text() == old(self).text(),
            final(self).file() == old(self).file(),
            final(self).identifier_names() == old(self).identifier_names(),
            final(self).last_identifier() == old(self).last_identifier(),
            final(self).last_char() == old(self).last_char(),
            final(self).source_str() == old(self).source_str(),
    {
        let mut taken = String::new();
        core::mem::swap(&mut taken, &mut self.scanned_string);
        taken
    }

    /// Returns a string being scanned early on (after processing escape sequences).
    pub fn scanned_string_slice(&self) -> (r: &str)
        ensures
            r@ == self.scanned_string_view(),
    {
        self.scanned_string.as_str()
    }

    /// The current character.
    fn current(&self) -> (r: Option<char>)
        requires
            self.wf(),
        ensures
            r == char_at(self.chars@, self.pos as int),
    {
        if self.pos < self.chars.len() {
            Some(self.chars[self.pos])
        } else {
            None
        }
    }

    /// The character after the current one.
    fn peek(&self) -> (r: Option<char>)
        requires
            self.wf(),
        ensures
            r == char_at(self.chars@, self.pos + 1),
    {
        if self.pos + 1 < self.chars.len() {
            Some(self.chars[self.pos + 1])
        } else {
            None
        }
    }

    /// The character two after the current one.
    fn peek_second(&self) -> (r: Option<char>)
        requires
            self.wf(),
        ensures
            r == char_at(self.chars@, self.pos + 2),
    {
        if self.pos + 2 < self.chars.len() {
            Some(self.chars[self.pos + 2])
        } else {
            None
        }
    }

    /// Advances the lexer state to the next character.
    fn advance(&mut self)
        requires
            old(self).wf(),
        ensures
            final(self).wf(),
            final(self).pos == advanced(old(self).chars@, old(self).pos as int),
            final(self).chars == old(self).chars,
            final(self).source == old(self).source,
            final(self).filepath == old(self).filepath,
            final(self).scanned_string == old(self).scanned_string,
            final(self).scanned_char == old(self).scanned_char,
            final(self).scanned_identifier == old(self).scanned_identifier,
            final(self).identifiers == old(self).identifiers,
    {
        if self.pos < self.chars.len() {
            let w = char_width(self.chars[self.pos]);
            proof {
                lemma_offset_step(self.chars@, self.pos as int);
                lemma_offset_monotonic(self.chars@, self.pos + 1, self.chars@.len() as int);
            }
            self.offset = ByteOffset(self.offset.0 + w);
            self.pos = self.pos + 1;
        }
    }

    /// The offset of the character at index `i`, which is at most the
    /// current one.
    fn location_between(&self, start: ByteOffset) -> (r: Location)
        requires
            self.wf(),
        ensures
            r == (Location { filepath: self.filepath, start, end: self.offset }),
    {
        Location { filepath: self.filepath, start, end: self.offset }
    }

    /// The location of the current character.
    fn current_char_location(&self) -> (r: Location)
        requires
            self.wf(),
        ensures
            r == char_location(self.filepath, self.chars@, self.pos as int),
    {
        proof {
            lemma_offset_monotonic(self.chars@, self.pos as int, self.chars@.len() as int);
        }
        Location {
            filepath: self.filepath,
            start: self.offset,
            end: ByteOffset(self.offset.0 + 1),
        }
    }
}


/// The powers of 16.
pub open spec fn pow16(n: nat) -> int
    decreases n,
{
    if n == 0 {
        1
    } else {
        16 * pow16((n - 1) as nat)
    }
}

/// Reading the rest of a character literal gives a token and a resume
/// index that do not depend on the last character read before.
pub proof fn lemma_char_literal_token(
    filepath: PathId,
    s: Seq<char>,
    start: int,
    p: int,
    count: nat,
    a: char,
    b: char,
)
    ensures
        char_literal(filepath, s, start, p, count, a).0 == char_literal(filepath, s, start, p, count, b).0,
        char_literal(filepath, s, start, p, count, a).1 == char_literal(filepath, s, start, p, count, b).1,
    decreases s.len() - p,
{
    if char_at(s, p) == Some('\'') {
    } else if p < 0 || p >= s.len() || s[p] == '\n' {
    } else if s[p] == '\\' {
        lemma_escape_progress(filepath, s, p);
        let (result, r) = escape(filepath, s, p);
        match result {
            Ok(c) => {},
            Err(e) => {},
        }
    } else {
        lemma_char_literal_token(filepath, s, start, p + 1, count + 1, s[p], s[p]);
    }
}

/// A string literal gives a string literal token or an error token.
pub proof fn lemma_string_literal_kind(
    filepath: PathId,
    s: Seq<char>,
    start: int,
    p: int,
    content: Seq<char>,
)
    ensures
        string_literal(filepath, s, start, p, content).0.raw == RawToken::StringLiteral
            || string_literal(filepath, s, start, p, content).0.raw is Error,
    decreases s.len() - p,
{
    if p < 0 || p >= s.len() || s[p] == '\n' {
    } else if s[p] == '"' {
    } else if s[p] == '\\' {
        lemma_escape_progress(filepath, s, p);
        let (result, r) = escape(filepath, s, p);
        match result {
            Ok(c) => {
                lemma_string_literal_kind(filepath, s, start, r, content.push(c));
            },
            Err(e) => {},
        }
    } else {
        lemma_string_literal_kind(filepath, s, start, p + 1, content.push(s[p]));
    }
}

/// A character literal gives a character literal token or an error token.
pub proof fn lemma_char_literal_kind(
    filepath: PathId,
    s: Seq<char>,
    start: int,
    p: int,
    count: nat,
    last: char,
)
    ensures
        char_literal(filepath, s, start, p, count, last).0.raw == RawToken::CharLiteral
            || char_literal(filepath, s, start, p, count, last).0.raw is Error,
    decreases s.len() - p,
{
    if char_at(s, p) == Some('\'') {
    } else if p < 0 || p >= s.len() || s[p] == '\n' {
    } else if s[p] == '\\' {
        lemma_escape_progress(filepath, s, p);
        let (result, r) = escape(filepath, s, p);
        match result {
            Ok(c) => {
                lemma_char_literal_kind(filepath, s, start, r, count + 1, c);
            },
            Err(e) => {},
        }
    } else {
        lemma_char_literal_kind(filepath, s, start, p + 1, count + 1, s[p]);
    }
}

/// Returns `true` if `c` is a whitespace.
fn is_whitespace_char(c: char) -> (r: bool)
    ensures
        r == is_whitespace(c),
{
    c == '\u{0009}' || c == '\u{000A}' || c == '\u{000B}' || c == '\u{000C}' || c == '\u{000D}'
        || c == '\u{0020}' || c == '\u{0085}' || c == '\u{200E}' || c == '\u{200F}' || c
        == '\u{2028}' || c == '\u{2029}'
}

/// Returns `true` if `c` is an ASCII digit.
fn is_digit_char(c: char) -> (r: bool)
    ensures
        r == is_ascii_digit(c),
{
    '0' <= c && c <= '9'
}

/// Returns the value of `c` if it is an ASCII hexadecimal digit.
fn hex_digit(c: char) -> (r: Option<u64>)
    ensures
        r is Some == is_ascii_hexdigit(c),
        r matches Some(v) ==> v == hex_digit_value(c) && v < 16,
{
    if '0' <= c && c <= '9' {
        Some((c as u32 - '0' as u32) as u64)
    } else if 'a' <= c && c <= 'f' {
        Some((c as u32 - 'a' as u32 + 10) as u64)
    } else if 'A' <= c && c <= 'F' {
        Some((c as u32 - 'A' as u32 + 10) as u64)
    } else {
        None
    }
}

/// The punctuator made of the two characters `c` and `n`, if any.
fn double_punctuator_of(c: char, n: char) -> (r: Option<Punctuator>)
    ensures
        r == double_punctuator(c, n),
{
    if c == '+' && n == '+' {
        Some(Punctuator::DoublePlus)
    } else if c == '+' && n == '=' {
        Some(Punctuator::PlusEq)
    } else if c == '-' && n == '>' {
        Some(Punctuator::Arrow)
    } else if c == '-' && n == '-' {
        Some(Punctuator::DoubleMinus)
    } else if c == '-' && n == '=' {
        Some(Punctuator::MinusEq)
    } else if c == '*' && n == '*' {
        Some(Punctuator::DoubleAsterisk)
    } else if c == '*' && n == '=' {
        Some(Punctuator::AsteriskEq)
    } else if c == '/' && n == '=' {
        Some(Punctuator::SlashEq)
    } else if c == '!' && n == '=' {
        Some(Punctuator::BangEq)
    } else if c == '>' && n == '>' {
        Some(Punctuator::RightShift)
    } else if c == '>' && n == '=' {
        Some(Punctuator::GreaterEq)
    } else if c == '<' && n == '<' {
        Some(Punctuator::LeftShift)
    } else if c == '<' && n == '=' {
        Some(Punctuator::LessEq)
    } else if c == '=' && n == '=' {
        Some(Punctuator::DoubleEq)
    } else if c == '|' && n == '=' {
        Some(Punctuator::OrEq)
    } else if c == '|' && n == '|' {
        Some(Punctuator::DoubleOr)
    } else if c == '&' && n == '&' {
        Some(Punctuator::DoubleAmpersand)
    } else if c == '^' && n == '=' {
        Some(Punctuator::CaretEq)
    } else if c == '.' && n == '.' {
        Some(Punctuator::DoubleDot)
    } else {
        None
    }
}

/// The punctuator made of the character `c` alone, if any.
fn single_punctuator_of(c: char, n: Option<char>) -> (r: Option<Punctuator>)
    ensures
        r == single_punctuator(c, n),
{
    if c == ':' {
        Some(Punctuator::Colon)
    } else if c == '@' {
        Some(Punctuator::At)
    } else if c == '+' {
        Some(Punctuator::Plus)
    } else if c == '-' {
        Some(Punctuator::Minus)
    } else if c == '*' {
        Some(Punctuator::Asterisk)
    } else if c == '#' {
        Some(Punctuator::HashTag)
    } else if c == '/' {
        Some(Punctuator::Slash)
    } else if c == '!' {
        Some(Punctuator::Bang)
    } else if c == '>' {
        Some(Punctuator::Greater)
    } else if c == '<' {
        Some(Punctuator::Less)
    } else if c == '=' {
        Some(Punctuator::Eq)
    } else if c == '|' {
        Some(Punctuator::Or)
    } else if c == '?' {
        Some(Punctuator::QuestionMark)
    } else if c == '&' {
        Some(Punctuator::Ampersand)
    } else if c == '^' {
        Some(Punctuator::Caret)
    } else if c == '~' {
        Some(Punctuator::Tilde)
    } else if c == '(' {
        Some(Punctuator::OpenParent)
    } else if c == ')' {
        Some(Punctuator::CloseParent)
    } else if c == '[' {
        Some(Punctuator::OpenBracket)
    } else if c == ']' {
        Some(Punctuator::CloseBracket)
    } else if c == '{' {
        Some(Punctuator::OpenBrace)
    } else if c == '}' {
        Some(Punctuator::CloseBrace)
    } else if c == ',' {
        Some(Punctuator::Comma)
    } else if c == ';' {
        Some(Punctuator::Semicolon)
    } else if c == '%' && n == Some('=') {
        Some(Punctuator::PercentEq)
    } else if c == '%' {
        Some(Punctuator::Percent)
    } else {
        None
    }
}


impl<'s> Lexer<'s> {
    /// `other` scans the same text of the same file with the same interner.
    spec fn same_text(&self, other: &Self) -> bool {
        &&& self.chars == other.chars
        &&& self.source == other.source
        &&& self.filepath == other.filepath
        &&& self.identifiers == other.identifiers
    }

    /// Skips whitespace characters.
    fn eat_whitespaces(&mut self)
        requires
            old(self).wf(),
        ensures
            final(self).wf(),
            final(self).same_text(old(self)),
            final(self).pos == skip_whitespace(old(self).chars@, old(self).pos as int),
            final(self).scanned_string == old(self).scanned_string,
            final(self).scanned_char == old(self).scanned_char,
            final(self).scanned_identifier == old(self).scanned_identifier,
    {
        loop
            invariant
                self.wf(),
                self.same_text(old(self)),
                skip_whitespace(self.chars@, self.pos as int) == skip_whitespace(
                    old(self).chars@,
                    old(self).pos as int,
                ),
                self.scanned_string == old(self).scanned_string,
                self.scanned_char == old(self).scanned_char,
                self.scanned_identifier == old(self).scanned_identifier,
            ensures
                self.wf(),
                self.same_text(old(self)),
                self.pos == skip_whitespace(old(self).chars@, old(self).pos as int),
                self.scanned_string == old(self).scanned_string,
                self.scanned_char == old(self).scanned_char,
                self.scanned_identifier == old(self).scanned_identifier,
            decreases self.chars@.len() - self.pos,
        {
            match self.current() {
                Some(c) => {
                    if !is_whitespace_char(c) {
                        return;
                    }
                },
                None => {
                    return;
                },
            }
            self.advance();
        }
    }

    /// Processes `{` `n` hexadecimal digits `}` after the letter of a
    /// unicode or byte escape sequence, which is the current character.
    fn hex_escape_sequence(&mut self, n: usize, unicode: bool) -> (r: Result<char, LexError>)
        requires
            old(self).wf(),
            n == 2 || n == 4 || n == 8,
            (old(self).pos as int) < old(self).chars@.len(),
        ensures
            final(self).wf(),
            final(self).same_text(old(self)),
            (r, final(self).pos as int) == hex_escape(
                old(self).filepath,
                old(self).chars@,
                old(self).pos as int,
                n as nat,
                unicode,
            ),
            final(self).scanned_string == old(self).scanned_string,
            final(self).scanned_char == old(self).scanned_char,
            final(self).scanned_identifier == old(self).scanned_identifier,
    {
        let ghost s = self.chars@;
        let ghost q = self.pos as int;
        let start_offset = self.offset;
        self.advance();
        if self.current() != Some('{') {
            let raw = if unicode {
                RawLexError::ExpectedOpenBracketInUnicodeEscapeSequence
            } else {
                RawLexError::ExpectedOpenBracketInByteEscapeSequence
            };
            return Err(LexError { raw, location: self.current_char_location() });
        }
        self.advance();
        let ghost d = self.pos as int;
        proof {
            lemma_first_non_hex(s, d, n as nat);
        }
        let mut value: u64 = 0;
        let mut i: usize = 0;
        while i < n
            invariant
                self.wf(),
                self.same_text(old(self)),
                s == self.chars@,
                n == 2 || n == 4 || n == 8,
                0 <= q,
                q == old(self).pos,
                d == q + 2,
                char_at(s, q + 1) == Some('{'),
                i <= n,
                self.pos == d + i,
                forall|j: int| d <= j < d + i ==> hexdigit_at(s, j),
                value == hex_value(s, d, d + i),
                value < pow16(i as nat),
                self.scanned_string == old(self).scanned_string,
                self.scanned_char == old(self).scanned_char,
                self.scanned_identifier == old(self).scanned_identifier,
                first_non_hex(s, d, n as nat) == first_non_hex(s, d + i, (n - i) as nat),
            decreases n - i,
        {
            let digit = match self.current() {
                Some(c) => hex_digit(c),
                None => None,
            };
            match digit {
                Some(v) => {
                    proof {
                        assert(pow16((i + 1) as nat) == 16 * pow16(i as nat));
                        assert(pow16(i as nat) <= pow16(8)) by {
                            reveal_with_fuel(pow16, 9);
                        }
                        reveal_with_fuel(pow16, 9);
                    }
                    value = value * 16 + v;
                    self.advance();
                    i = i + 1;
                },
                None => {
                    proof {
                        assert(!hexdigit_at(s, d + i));
                        assert(first_non_hex(s, d + i, (n - i) as nat) == d + i);
                        assert(first_non_hex(s, d, n as nat) == d + i);
                        assert(char_at(s, q + 1) == Some('{'));
                    }
                    let raw = if unicode {
                        RawLexError::ExpectedDigitInUnicodeEscapeSequence
                    } else {
                        RawLexError::ExpectedDigitInByteEscapeSequence
                    };
                    return Err(LexError { raw, location: self.current_char_location() });
                },
            }
        }
        if self.current() != Some('}') {
            let raw = if unicode {
                RawLexError::ExpectedCloseBracketInUnicodeEscapeSequence
            } else {
                RawLexError::ExpectedCloseBracketInByteEscapeSequence
            };
            return Err(LexError { raw, location: self.current_char_location() });
        }
        proof {
            reveal_with_fuel(pow16, 9);
            assert(first_non_hex(s, d + n, 0) == d + n);
            assert(pow16(n as nat) <= 0x1_0000_0000);
            assert(value < 0x1_0000_0000);
            assert(value as u32 == value) by (bit_vector)
                requires
                    value < 0x1_0000_0000u64,
            ;
        }
        match char_from_u32(value as u32) {
            Some(c) => {
                proof {
                    assert(c as int == hex_value(s, d, d + n));
                    assert(scalar_of(c) == hex_value(s, d, d + n));
                    let w = char_with_value(hex_value(s, d, d + n));
                    assert(scalar_of(w) == hex_value(s, d, d + n));
                    assert(c == w);
                }
                self.advance();
                Ok(c)
            },
            None => {
                let location = self.location_between(start_offset);
                self.advance();
                let raw = if unicode {
                    RawLexError::InvalidUnicodeEscapeSequence
                } else {
                    RawLexError::InvalidByteEscapeSequence
                };
                Err(LexError { raw, location })
            },
        }
    }

    /// Processes an escape sequence, whose backslash is the current
    /// character.
    fn process_escape_sequence(&mut self) -> (r: Result<char, LexError>)
        requires
            old(self).wf(),
            (old(self).pos as int) < old(self).chars@.len(),
        ensures
            final(self).wf(),
            final(self).same_text(old(self)),
            (r, final(self).pos as int) == escape(old(self).filepath, old(self).chars@, old(self).pos as int),
            final(self).scanned_string == old(self).scanned_string,
            final(self).scanned_char == old(self).scanned_char,
            final(self).scanned_identifier == old(self).scanned_identifier,
    {
        self.advance();
        match self.current() {
            Some('u') => self.hex_escape_sequence(4, true),
            Some('U') => self.hex_escape_sequence(8, true),
            Some('x') => self.hex_escape_sequence(2, false),
            current => {
                let r = match current {
                    Some('b') => Ok('\u{0008}'),
                    Some('f') => Ok('\u{000C}'),
                    Some('n') => Ok('\n'),
                    Some('r') => Ok('\r'),
                    Some('t') => Ok('\t'),
                    Some('\'') => Ok('\''),
                    Some('"') => Ok('"'),
                    Some('\\') => Ok('\\'),
                    Some('\0') => Err(
                        LexError {
                            raw: RawLexError::EmptyEscapeSequence,
                            location: self.current_char_location(),
                        },
                    ),
                    _ => Err(
                        LexError {
                            raw: RawLexError::UnknownEscapeSequence,
                            location: self.current_char_location(),
                        },
                    ),
                };
                self.advance();
                r
            },
        }
    }
}


impl<'s> Lexer<'s> {
    /// The characters at indices `from..to`, as a string.
    fn text_between(&self, from: usize, to: usize) -> (r: String)
        requires
            self.wf(),
            from <= to <= self.chars@.len(),
        ensures
            r@ == self.chars@.subrange(from as int, to as int),
    {
        let mut r = String::new();
        let mut i = from;
        while i < to
            invariant
                self.wf(),
                from <= i <= to <= self.chars@.len(),
                r@ == self.chars@.subrange(from as int, i as int),
            decreases to - i,
        {
            push_char(&mut r, self.chars[i]);
            i = i + 1;
            assert(r@ =~= self.chars@.subrange(from as int, i as int));
        }
        r
    }

    /// Tokenizes a string literal, whose opening quote is the current
    /// character.
    fn tokenize_string_literal(&mut self) -> (r: Token)
        requires
            old(self).wf(),
            (old(self).pos as int) < old(self).chars@.len(),
        ensures
            final(self).wf(),
            final(self).same_text(old(self)),
            (r, final(self).pos as int, final(self).scanned_string@) == string_literal(
                old(self).filepath,
                old(self).chars@,
                old(self).pos as int,
                old(self).pos + 1,
                Seq::empty(),
            ),
            final(self).scanned_char == old(self).scanned_char,
            final(self).scanned_identifier == old(self).scanned_identifier,
    {
        let ghost s = self.chars@;
        let ghost p0 = self.pos as int;
        self.scanned_string = String::new();
        let start_offset = self.offset;
        self.advance();
        loop
            invariant
                self.wf(),
                self.same_text(old(self)),
                s == self.chars@,
                p0 == old(self).pos,
                p0 < self.pos,
                start_offset.0 == offset_of(s, p0),
                string_literal(self.filepath, s, p0, self.pos as int, self.scanned_string@)
                    == string_literal(self.filepath, s, p0, p0 + 1, Seq::empty()),
                self.scanned_char == old(self).scanned_char,
                self.scanned_identifier == old(self).scanned_identifier,
            decreases s.len() - self.pos,
        {
            let ghost p = self.pos as int;
            match self.current() {
                None => {
                    return Token {
                        raw: RawToken::Error(RawLexError::UnterminatedStringLiteral),
                        location: self.location_between(start_offset),
                    };
                },
                Some(c) => {
                    if c == '\n' {
                        return Token {
                            raw: RawToken::Error(RawLexError::UnterminatedStringLiteral),
                            location: self.location_between(start_offset),
                        };
                    } else if c == '"' {
                        self.advance();
                        return Token {
                            raw: RawToken::StringLiteral,
                            location: self.location_between(start_offset),
                        };
                    } else if c == '\\' {
                        proof {
                            lemma_escape_progress(self.filepath, s, p);
                        }
                        match self.process_escape_sequence() {
                            Ok(e) => {
                                push_char(&mut self.scanned_string, e);
                            },
                            Err(e) => {
                                if e.raw == RawLexError::InvalidUnicodeEscapeSequence || e.raw
                                    == RawLexError::InvalidByteEscapeSequence {
                                    self.advance();
                                }
                                return Token { raw: RawToken::Error(e.raw), location: e.location };
                            },
                        }
                    } else {
                        push_char(&mut self.scanned_string, c);
                        self.advance();
                    }
                },
            }
        }
    }

    /// Tokenizes a char literal, whose opening quote is the current
    /// character.
    fn tokenize_char_literal(&mut self) -> (r: Token)
        requires
            old(self).wf(),
            (old(self).pos as int) < old(self).chars@.len(),
        ensures
            final(self).wf(),
            final(self).same_text(old(self)),
            (r, final(self).pos as int, final(self).scanned_char) == char_literal(
                old(self).filepath,
                old(self).chars@,
                old(self).pos as int,
                old(self).pos + 1,
                0,
                old(self).scanned_char,
            ),
            final(self).scanned_string == old(self).scanned_string,
            final(self).scanned_identifier == old(self).scanned_identifier,
    {
        let ghost s = self.chars@;
        let ghost p0 = self.pos as int;
        let start_offset = self.offset;
        self.advance();
        let mut size: usize = 0;
        loop
            invariant
                self.wf(),
                self.same_text(old(self)),
                s == self.chars@,
                p0 == old(self).pos,
                p0 < self.pos,
                size <= self.pos,
                start_offset.0 == offset_of(s, p0),
                char_literal(self.filepath, s, p0, self.pos as int, size as nat, self.scanned_char)
                    == char_literal(self.filepath, s, p0, p0 + 1, 0, old(self).scanned_char),
                self.scanned_string == old(self).scanned_string,
                self.scanned_identifier == old(self).scanned_identifier,
            decreases s.len() - self.pos,
        {
            let ghost p = self.pos as int;
            let current = self.current();
            if current == Some('\'') {
                self.advance();
                let raw = if size >= 2 {
                    RawToken::Error(RawLexError::MoreThanOneCharInCharLiteral)
                } else if size == 0 {
                    RawToken::Error(RawLexError::EmptyCharacterLiteral)
                } else {
                    RawToken::CharLiteral
                };
                return Token { raw, location: self.location_between(start_offset) };
            }
            match current {
                None => {
                    return Token {
                        raw: RawToken::Error(RawLexError::UnterminatedCharLiteral),
                        location: self.location_between(start_offset),
                    };
                },
                Some(c) => {
                    if c == '\n' {
                        return Token {
                            raw: RawToken::Error(RawLexError::UnterminatedCharLiteral),
                            location: self.location_between(start_offset),
                        };
                    } else if c == '\\' {
                        proof {
                            lemma_escape_progress(self.filepath, s, p);
                        }
                        match self.process_escape_sequence() {
                            Ok(e) => {
                                self.scanned_char = e;
                            },
                            Err(e) => {
                                if e.raw == RawLexError::InvalidUnicodeEscapeSequence || e.raw
                                    == RawLexError::InvalidByteEscapeSequence {
                                    self.advance();
                                }
                                return Token { raw: RawToken::Error(e.raw), location: e.location };
                            },
                        }
                    } else {
                        self.scanned_char = c;
                        self.advance();
                    }
                },
            }
            size = size + 1;
        }
    }
}


impl<'s> Lexer<'s> {
    /// Tokenizes a wrapped identifier, whose opening backtick is the
    /// current character.
    fn tokenize_wrapped_identifier(&mut self) -> (r: Token)
        requires
            old(self).wf(),
            (old(self).pos as int) < old(self).chars@.len(),
            old(self).chars@[old(self).pos as int] == '`',
            old(self).identifiers.view().len() + 2 < usize::MAX,
        ensures
            final(self).wf(),
            final(self).chars == old(self).chars,
            final(self).source == old(self).source,
            final(self).filepath == old(self).filepath,
            (r, final(self).pos as int) == wrapped_identifier(
                old(self).filepath,
                old(self).chars@,
                old(self).pos as int,
            ),
            r.raw == RawToken::Identifier ==> {
                let name = identifier_name(old(self).chars@, old(self).pos as int);
                &&& final(self).identifiers.view() == interned_view(old(self).identifiers.view(), name)
                &&& final(self).scanned_identifier == IdentifierId::symbol_at(
                    interned_index(old(self).identifiers.view(), name),
                )
            },
            r.raw != RawToken::Identifier ==> {
                &&& final(self).identifiers == old(self).identifiers
                &&& final(self).scanned_identifier == old(self).scanned_identifier
            },
            final(self).scanned_string == old(self).scanned_string,
            final(self).scanned_char == old(self).scanned_char,
    {
        let ghost s = self.chars@;
        let ghost p0 = self.pos as int;
        let start = self.pos;
        let start_offset = self.offset;
        self.advance();
        loop
            invariant
                self.wf(),
                self.same_text(old(self)),
                s == self.chars@,
                p0 == start,
                start == old(self).pos,
                start < self.pos,
                wrapped_identifier_end(s, self.pos as int) == wrapped_identifier_end(s, p0 + 1),
                start_offset.0 == offset_of(s, p0),
                self.scanned_string == old(self).scanned_string,
                self.scanned_char == old(self).scanned_char,
                self.scanned_identifier == old(self).scanned_identifier,
            ensures
                self.wf(),
                self.same_text(old(self)),
                start < self.pos,
                self.pos == wrapped_identifier_end(s, p0 + 1),
                self.scanned_string == old(self).scanned_string,
                self.scanned_char == old(self).scanned_char,
                self.scanned_identifier == old(self).scanned_identifier,
            decreases s.len() - self.pos,
        {
            match self.current() {
                Some(c) => {
                    if c == '\n' || c == '`' {
                        break;
                    }
                },
                None => {
                    break;
                },
            }
            self.advance();
        }
        if self.current() != Some('`') {
            return Token {
                raw: RawToken::Error(RawLexError::UnterminatedWrappedIdentifier),
                location: self.location_between(start_offset),
            };
        }
        if self.pos == start + 1 {
            return Token {
                raw: RawToken::Error(RawLexError::EmptyWrappedIdentifier),
                location: self.location_between(start_offset),
            };
        }
        let name = self.text_between(start + 1, self.pos);
        self.advance();
        self.scanned_identifier = self.identifiers.get_or_intern(name.as_str());
        Token { raw: RawToken::Identifier, location: self.location_between(start_offset) }
    }

    /// Tokenizes a comment or a doc comment, whose two slashes are the
    /// current and the next character.
    fn tokenize_comment(&mut self) -> (r: Token)
        requires
            old(self).wf(),
            (old(self).pos as int) + 1 < old(self).chars@.len(),
        ensures
            final(self).wf(),
            final(self).same_text(old(self)),
            ({
                let s = old(self).chars@;
                let i = old(self).pos as int;
                let raw = if char_at(s, i + 2) == Some('!') {
                    RawToken::GlobalDocComment
                } else if char_at(s, i + 2) == Some('/') {
                    RawToken::LocalDocComment
                } else {
                    RawToken::Comment
                };
                let from = if raw == RawToken::Comment {
                    i + 2
                } else {
                    i + 3
                };
                &&& r == token_between(old(self).filepath, s, raw, i, line_end(s, from))
                &&& final(self).pos == line_end(s, from)
            }),
            final(self).scanned_string == old(self).scanned_string,
            final(self).scanned_char == old(self).scanned_char,
            final(self).scanned_identifier == old(self).scanned_identifier,
    {
        let ghost s = self.chars@;
        let start_offset = self.offset;
        let third = self.peek_second();
        let raw = if third == Some('!') {
            RawToken::GlobalDocComment
        } else if third == Some('/') {
            RawToken::LocalDocComment
        } else {
            RawToken::Comment
        };
        self.advance();
        self.advance();
        if raw != RawToken::Comment {
            self.advance();
        }
        let ghost from = self.pos as int;
        loop
            invariant
                self.wf(),
                self.same_text(old(self)),
                s == self.chars@,
                from <= self.pos,
                line_end(s, self.pos as int) == line_end(s, from),
                start_offset.0 == offset_of(s, old(self).pos as int),
                self.scanned_string == old(self).scanned_string,
                self.scanned_char == old(self).scanned_char,
                self.scanned_identifier == old(self).scanned_identifier,
            ensures
                self.wf(),
                self.same_text(old(self)),
                self.pos == line_end(s, from),
                self.scanned_string == old(self).scanned_string,
                self.scanned_char == old(self).scanned_char,
                self.scanned_identifier == old(self).scanned_identifier,
            decreases s.len() - self.pos,
        {
            match self.current() {
                Some(c) => {
                    if c == '\n' {
                        break;
                    }
                },
                None => {
                    break;
                },
            }
            self.advance();
        }
        Token { raw, location: self.location_between(start_offset) }
    }
}


impl<'s> Lexer<'s> {
    /// Tokenizes either an identifier, a keyword, a boolean literal or an
    /// underscore, whose first character is the current one.
    fn tokenize_word(&mut self) -> (r: Token)
        requires
            old(self).wf(),
            (old(self).pos as int) < old(self).chars@.len(),
            old(self).chars@[old(self).pos as int] != '`',
            old(self).identifiers.view().len() + 2 < usize::MAX,
        ensures
            final(self).wf(),
            final(self).chars == old(self).chars,
            final(self).source == old(self).source,
            final(self).filepath == old(self).filepath,
            ({
                let s = old(self).chars@;
                let i = old(self).pos as int;
                let e = identifier_end(s, i);
                &&& r == token_between(old(self).filepath, s, word_kind(s.subrange(i, e)), i, e)
                &&& final(self).pos == e
            }),
            r.raw == RawToken::Identifier ==> {
                let name = identifier_name(old(self).chars@, old(self).pos as int);
                &&& final(self).identifiers.view() == interned_view(old(self).identifiers.view(), name)
                &&& final(self).scanned_identifier == IdentifierId::symbol_at(
                    interned_index(old(self).identifiers.view(), name),
                )
            },
            r.raw != RawToken::Identifier ==> {
                &&& final(self).identifiers == old(self).identifiers
                &&& final(self).scanned_identifier == old(self).scanned_identifier
            },
            final(self).scanned_string == old(self).scanned_string,
            final(self).scanned_char == old(self).scanned_char,
    {
        let ghost s = self.chars@;
        let start = self.pos;
        let start_offset = self.offset;
        loop
            invariant
                self.wf(),
                self.same_text(old(self)),
                s == self.chars@,
                start == old(self).pos,
                start <= self.pos,
                identifier_end(s, self.pos as int) == identifier_end(s, start as int),
                start_offset.0 == offset_of(s, start as int),
                self.scanned_string == old(self).scanned_string,
                self.scanned_char == old(self).scanned_char,
                self.scanned_identifier == old(self).scanned_identifier,
            ensures
                self.wf(),
                self.same_text(old(self)),
                start <= self.pos,
                self.pos == identifier_end(s, start as int),
                self.scanned_string == old(self).scanned_string,
                self.scanned_char == old(self).scanned_char,
                self.scanned_identifier == old(self).scanned_identifier,
            decreases s.len() - self.pos,
        {
            match self.current() {
                Some(c) => {
                    if !is_xid_continue(c) {
                        break;
                    }
                },
                None => {
                    break;
                },
            }
            self.advance();
        }
        let name = self.text_between(start, self.pos);
        let location = self.location_between(start_offset);
        if str_eq(name.as_str(), "_") {
            return Token { raw: RawToken::Punctuator(Punctuator::Underscore), location };
        }
        match resolve_keyword(name.as_str()) {
            Some(keyword) => {
                return Token { raw: RawToken::Keyword(keyword), location };
            },
            None => {},
        }
        if str_eq(name.as_str(), "true") {
            Token { raw: RawToken::TrueBoolLiteral, location }
        } else if str_eq(name.as_str(), "false") {
            Token { raw: RawToken::FalseBoolLiteral, location }
        } else {
            self.scanned_identifier = self.identifiers.get_or_intern(name.as_str());
            Token { raw: RawToken::Identifier, location }
        }
    }

    /// Advances past decimal digits and underscores.
    fn eat_digits(&mut self)
        requires
            old(self).wf(),
        ensures
            final(self).wf(),
            final(self).same_text(old(self)),
            final(self).pos == digits_end(old(self).chars@, old(self).pos as int),
            final(self).scanned_string == old(self).scanned_string,
            final(self).scanned_char == old(self).scanned_char,
            final(self).scanned_identifier == old(self).scanned_identifier,
    {
        loop
            invariant
                self.wf(),
                self.same_text(old(self)),
                old(self).pos <= self.pos,
                digits_end(self.chars@, self.pos as int) == digits_end(
                    old(self).chars@,
                    old(self).pos as int,
                ),
                self.scanned_string == old(self).scanned_string,
                self.scanned_char == old(self).scanned_char,
                self.scanned_identifier == old(self).scanned_identifier,
            ensures
                self.wf(),
                self.same_text(old(self)),
                self.pos == digits_end(old(self).chars@, old(self).pos as int),
                self.scanned_string == old(self).scanned_string,
                self.scanned_char == old(self).scanned_char,
                self.scanned_identifier == old(self).scanned_identifier,
            decreases self.chars@.len() - self.pos,
        {
            match self.current() {
                Some(c) => {
                    if !(is_digit_char(c) || c == '_') {
                        break;
                    }
                },
                None => {
                    break;
                },
            }
            self.advance();
        }
    }

    /// Returns `true` if the character at `offset` characters after the
    /// current one is a decimal digit.
    fn digit_ahead(&self, offset: usize) -> (r: bool)
        requires
            self.wf(),
            offset <= 2,
        ensures
            r == digit_at(self.chars@, self.pos + offset),
    {
        if self.pos + offset < self.chars.len() {
            is_digit_char(self.chars[self.pos + offset])
        } else {
            false
        }
    }

    /// Tokenizes a number, which starts at the current character.
    fn tokenize_number(&mut self) -> (r: Token)
        requires
            old(self).wf(),
        ensures
            final(self).wf(),
            final(self).same_text(old(self)),
            (r, final(self).pos as int) == number(old(self).filepath, old(self).chars@, old(self).pos as int),
            final(self).scanned_string == old(self).scanned_string,
            final(self).scanned_char == old(self).scanned_char,
            final(self).scanned_identifier == old(self).scanned_identifier,
    {
        let start_offset = self.offset;
        self.eat_digits();
        let i1 = self.pos;
        if self.current() == Some('.') && self.digit_ahead(1) {
            self.advance();
            self.eat_digits();
        }
        let exponent = self.current() == Some('e') || self.current() == Some('E');
        if exponent && self.digit_ahead(1) {
            self.advance();
            self.eat_digits();
        } else if exponent && (self.peek() == Some('+') || self.peek() == Some('-'))
            && self.digit_ahead(2) {
            self.advance();
            self.advance();
            self.eat_digits();
        }
        let raw = if self.pos > i1 {
            RawToken::FloatLiteral
        } else {
            RawToken::IntegerLiteral
        };
        Token { raw, location: self.location_between(start_offset) }
    }
}


impl<'s> Lexer<'s> {
    /// The effect of reading one token on the interner, the last
    /// identifier, the string buffer and the last character: `next` is
    /// `self` after the token `t` that starts at index `i` was read.
    pub closed spec fn buffers_after(&self, next: &Self, t: Token, i: int) -> bool {
        let s = self.chars@;
        &&& t.raw == RawToken::Identifier ==> {
            let name = identifier_name(s, i);
            &&& next.identifiers.view() == interned_view(self.identifiers.view(), name)
            &&& next.scanned_identifier == IdentifierId::symbol_at(
                interned_index(self.identifiers.view(), name),
            )
        }
        &&& t.raw != RawToken::Identifier ==> {
            &&& next.identifiers.view() == self.identifiers.view()
            &&& next.scanned_identifier == self.scanned_identifier
        }
        &&& char_at(s, i) == Some('"') ==> next.scanned_string@ == string_literal_content(
            self.filepath,
            s,
            i,
        )
        &&& char_at(s, i) != Some('"') ==> next.scanned_string == self.scanned_string
        &&& char_at(s, i) == Some('\'') ==> next.scanned_char == char_literal(
            self.filepath,
            s,
            i,
            i + 1,
            0,
            self.scanned_char,
        ).2
        &&& char_at(s, i) != Some('\'') ==> next.scanned_char == self.scanned_char
    }

    /// Reading a token interns at most one identifier, and only when the
    /// token is an identifier.
    pub proof fn lemma_buffers_names(&self, next: &Self, t: Token, i: int)
        requires
            self.buffers_after(next, t, i),
        ensures
            next.identifier_names().len() <= self.identifier_names().len() + 1,
            t.raw != RawToken::Identifier ==> next.identifier_names() == self.identifier_names(),
    {
    }

    /// Reading an identifier interns its name and makes it the last
    /// identifier; any other token leaves both as they were.
    pub proof fn lemma_buffers_identifier(&self, next: &Self, t: Token, i: int)
        requires
            self.wf(),
            self.buffers_after(next, t, i),
        ensures
            t.raw == RawToken::Identifier ==> next.identifier_names() == interned_view(
                self.identifier_names(),
                identifier_name(self.text(), i),
            ) && next.last_identifier() == IdentifierId::symbol_at(
                interned_index(self.identifier_names(), identifier_name(self.text(), i)),
            ),
            t.raw != RawToken::Identifier ==> next.identifier_names() == self.identifier_names()
                && next.last_identifier() == self.last_identifier(),
    {
    }

    /// Reading a token that starts with `"` leaves the characters of its
    /// string literal in the string buffer, and one that starts with `'`
    /// the last character its character literal read; any other token
    /// leaves both as they were.
    pub proof fn lemma_buffers_literals(&self, next: &Self, t: Token, i: int)
        requires
            self.wf(),
            self.buffers_after(next, t, i),
        ensures
            next.scanned_string_view() == string_after_token(
                self.file(),
                self.text(),
                i,
                self.scanned_string_view(),
            ),
            next.last_char() == char_after_token(self.file(), self.text(), i, self.last_char()),
    {
    }

    /// Proceeds to the next token and returns it: whitespace is skipped,
    /// then the token [`lex`] gives is read, and identifiers are interned.
    pub fn next_token(&mut self) -> (r: Token)
        requires
            old(self).wf(),
            old(self).identifier_names().len() + 2 < usize::MAX,
        ensures
            final(self).wf(),
            final(self).text() == old(self).text(),
            final(self).file() == old(self).file(),
            final(self).source_str() == old(self).source_str(),
            (r, final(self).position()) == lex(old(self).file(), old(self).text(), old(self).position()),
            old(self).buffers_after(
                final(self),
                r,
                skip_whitespace(old(self).text(), old(self).position()),
            ),
            old(self).position() == old(self).text().len() ==> r == (Token {
                raw: RawToken::EndOfFile,
                location: Location {
                    filepath: old(self).file(),
                    start: ByteOffset(old(self).source_str().spec_bytes().len() as usize),
                    end: ByteOffset((old(self).source_str().spec_bytes().len() + 1) as usize),
                },
            }) && final(self).position() == old(self).position() && final(self).last_identifier()
                == old(self).last_identifier() && final(self).identifier_names() == old(
                self,
            ).identifier_names() && final(self).scanned_string_view() == old(self).scanned_string_view()
                && final(self).last_char() == old(self).last_char(),
    {
        proof {
            if old(self).pos == old(self).chars@.len() {
                assert(old(self).chars@.take(old(self).chars@.len() as int) =~= old(self).chars@);
            }
        }
        self.eat_whitespaces();
        let ghost s = self.chars@;
        let ghost i = self.pos as int;
        let current = self.current();
        let c = match current {
            None => {
                return Token { raw: RawToken::EndOfFile, location: self.current_char_location() };
            },
            Some(c) => c,
        };
        let next = self.peek();
        if c == '"' {
            let r = self.tokenize_string_literal();
            proof {
                lemma_string_literal_kind(self.filepath, s, i, i + 1, Seq::empty());
            }
            assert(old(self).buffers_after(self, r, i));
            r
        } else if c == '\'' {
            let r = self.tokenize_char_literal();
            proof {
                lemma_char_literal_token(self.filepath, s, i, i + 1, 0, old(self).scanned_char, '\0');
                lemma_char_literal_kind(self.filepath, s, i, i + 1, 0, old(self).scanned_char);
            }
            r
        } else if c == '`' {
            let r = self.tokenize_wrapped_identifier();
            assert(old(self).buffers_after(self, r, i));
            r
        } else if c == '/' && next == Some('/') {
            let r = self.tokenize_comment();
            assert(old(self).buffers_after(self, r, i));
            r
        } else {
            let double = match next {
                Some(n) => double_punctuator_of(c, n),
                None => None,
            };
            match double {
                Some(punctuator) => {
                    proof {
                        lemma_offset_step(s, i);
                        lemma_offset_monotonic(s, i + 1, s.len() as int);
                    }
                    let location = Location {
                        filepath: self.filepath,
                        start: self.offset,
                        end: ByteOffset(self.offset.0 + 2),
                    };
                    self.advance();
                    self.advance();
                    return Token { raw: RawToken::Punctuator(punctuator), location };
                },
                None => {},
            }
            match single_punctuator_of(c, next) {
                Some(punctuator) => {
                    let location = self.current_char_location();
                    self.advance();
                    return Token { raw: RawToken::Punctuator(punctuator), location };
                },
                None => {},
            }
            if is_digit_char(c) || (c == '.' && self.digit_ahead(1)) {
                let r = self.tokenize_number();
                assert(old(self).buffers_after(self, r, i));
                r
            } else if is_xid_start(c) || c == '_' {
                let r = self.tokenize_word();
                assert(old(self).buffers_after(self, r, i));
                r
            } else if c == '.' {
                let location = self.current_char_location();
                self.advance();
                Token { raw: RawToken::Punctuator(Punctuator::Dot), location }
            } else {
                let location = self.current_char_location();
                self.advance();
                Token { raw: RawToken::Error(RawLexError::UnexpectedChar), location }
            }
        }
    }
}


impl<'s> Lexer<'s> {
    /// The interner, the last identifier, the string buffer and the last
    /// character are the same in `other`.
    spec fn same_buffers(&self, other: &Self) -> bool {
        &&& self.identifiers.view() == other.identifiers.view()
        &&& self.scanned_identifier == other.scanned_identifier
        &&& self.scanned_string == other.scanned_string
        &&& self.scanned_char == other.scanned_char
    }

    /// Works the same as [`Lexer::next_token`], but skips comments
    /// ([`RawToken::Comment`]).
    pub fn next_no_comments(&mut self) -> (r: Token)
        requires
            old(self).wf(),
            old(self).identifier_names().len() + 2 < usize::MAX,
        ensures
            r.raw != RawToken::Comment,
            final(self).wf(),
            final(self).text() == old(self).text(),
            final(self).file() == old(self).file(),
            final(self).source_str() == old(self).source_str(),
            ({
                let (t, resume, start) = lex_no_comments(old(self).file(), old(self).text(), old(self).position());
                &&& r == t
                &&& final(self).position() == resume
                &&& old(self).buffers_after(final(self), r, start)
            }),
    {
        let ghost s = self.chars@;
        let ghost fp = self.filepath;
        proof {
            lemma_no_comments_not_comment(fp, s, self.pos as int);
        }
        loop
            invariant
                self.wf(),
                self.source == old(self).source,
                self.filepath == old(self).filepath,
                s == self.chars@,
                s == old(self).chars@,
                fp == self.filepath,
                fp == old(self).filepath,
                self.same_buffers(old(self)),
                self.identifiers.view().len() + 2 < usize::MAX,
                lex_no_comments(fp, s, self.pos as int) == lex_no_comments(fp, s, old(self).pos as int),
            decreases s.len() - self.pos,
        {
            let ghost before = *self;
            proof {
                lemma_scans_forward(s, self.pos as int);
            }
            let token = self.next_token();
            if token.raw != RawToken::Comment {
                proof {
                    let i = skip_whitespace(s, before.pos as int);
                    assert(before.buffers_after(self, token, i));
                    assert(old(self).buffers_after(self, token, i));
                    assert(lex_no_comments(fp, s, before.pos as int) == (token, self.pos as int, i));
                }
                return token;
            }
            proof {
                lemma_comment_progress(fp, s, before.pos as int);
            }
        }
    }
}


/* Laws */

/// Scanning digits, identifiers and wrapped identifiers moves forward and
/// stays within the text; a digit or an identifier character is scanned.
pub proof fn lemma_word_scans_forward(s: Seq<char>, i: int)
    requires
        0 <= i <= s.len(),
    ensures
        i <= digits_end(s, i) <= s.len(),
        i <= identifier_end(s, i) <= s.len(),
        i <= wrapped_identifier_end(s, i) <= s.len(),
        i < s.len() && is_ascii_digit(s[i]) ==> i < digits_end(s, i),
        i < s.len() && is_id_continue(s[i]) ==> i < identifier_end(s, i),
    decreases s.len() - i,
{
    if i < s.len() {
        lemma_word_scans_forward(s, i + 1);
    }
}

/// A string literal resumes at or after `p`, within the text.
pub proof fn lemma_string_literal_resume(
    filepath: PathId,
    s: Seq<char>,
    start: int,
    p: int,
    content: Seq<char>,
)
    requires
        0 <= p <= s.len(),
    ensures
        p <= string_literal(filepath, s, start, p, content).1 <= s.len(),
    decreases s.len() - p,
{
    if p >= s.len() || s[p] == '\n' {
    } else if s[p] == '"' {
    } else if s[p] == '\\' {
        lemma_escape_progress(filepath, s, p);
        let (result, r) = escape(filepath, s, p);
        match result {
            Ok(c) => {
                lemma_string_literal_resume(filepath, s, start, r, content.push(c));
            },
            Err(e) => {},
        }
    } else {
        lemma_string_literal_resume(filepath, s, start, p + 1, content.push(s[p]));
    }
}

/// A character literal resumes at or after `p`, within the text.
pub proof fn lemma_char_literal_resume(
    filepath: PathId,
    s: Seq<char>,
    start: int,
    p: int,
    count: nat,
    last: char,
)
    requires
        0 <= p <= s.len(),
    ensures
        p <= char_literal(filepath, s, start, p, count, last).1 <= s.len(),
    decreases s.len() - p,
{
    if char_at(s, p) == Some('\'') {
    } else if p >= s.len() || s[p] == '\n' {
    } else if s[p] == '\\' {
        lemma_escape_progress(filepath, s, p);
        let (result, r) = escape(filepath, s, p);
        match result {
            Ok(c) => {
                lemma_char_literal_resume(filepath, s, start, r, count + 1, c);
            },
            Err(e) => {},
        }
    } else {
        lemma_char_literal_resume(filepath, s, start, p + 1, count + 1, s[p]);
    }
}

/// The lexer always moves forward within the text: it returns
/// `EndOfFile` exactly when only whitespace is left, and otherwise ends
/// after the start of the token it read. The one exception is a word
/// whose first character can start but not continue an identifier: it is
/// read as an empty word and the lexer stays at it.
pub proof fn lemma_lex_progress(filepath: PathId, s: Seq<char>, pos: int)
    requires
        0 <= pos <= s.len(),
    ensures
        ({
            let (t, resume) = lex(filepath, s, pos);
            let i = skip_whitespace(s, pos);
            &&& pos <= i <= resume <= s.len()
            &&& (t.raw == RawToken::EndOfFile) == (i == s.len())
            &&& i < s.len() && !(is_id_start(s[i]) && !is_id_continue(s[i])) ==> i < resume
        }),
{
    lemma_scans_forward(s, pos);
    let i = skip_whitespace(s, pos);
    if i < s.len() {
        let c = s[i];
        lemma_word_scans_forward(s, i);
        lemma_word_scans_forward(s, i + 1);
        if i + 2 <= s.len() {
            lemma_word_scans_forward(s, i + 2);
            lemma_scans_forward(s, i + 2);
        }
        if i + 3 <= s.len() {
            lemma_word_scans_forward(s, i + 3);
            lemma_scans_forward(s, i + 3);
        }
        if c == '"' {
            lemma_string_literal_resume(filepath, s, i, i + 1, Seq::empty());
            lemma_string_literal_kind(filepath, s, i, i + 1, Seq::empty());
        } else if c == '\'' {
            lemma_char_literal_resume(filepath, s, i, i + 1, 0, '\0');
            lemma_char_literal_kind(filepath, s, i, i + 1, 0, '\0');
        } else if c == '`' {
        } else if c == '/' && char_at(s, i + 1) == Some('/') {
        } else if double_punctuator_at(s, i) is Some {
        } else if single_punctuator(c, char_at(s, i + 1)) is Some {
        } else if is_ascii_digit(c) || (c == '.' && digit_at(s, i + 1)) {
            let i1 = digits_end(s, i);
            if i1 < s.len() {
                lemma_word_scans_forward(s, i1 + 1);
            }
            let i2 = if char_at(s, i1) == Some('.') && digit_at(s, i1 + 1) {
                digits_end(s, i1 + 1)
            } else {
                i1
            };
            if i2 + 1 <= s.len() {
                lemma_word_scans_forward(s, i2 + 1);
            }
            if i2 + 2 <= s.len() {
                lemma_word_scans_forward(s, i2 + 2);
            }
        }
    }
}

} // verus!
