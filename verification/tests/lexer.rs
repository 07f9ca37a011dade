use stellar::interner::{IdentifierInterner, PathId, DUMMY_PATH_ID};
use stellar::lexer::Lexer;
use stellar::location::{ByteOffset, Location};
use stellar::token::{Keyword, Punctuator, RawLexError, RawToken, Token};

fn first_token(source: &str) -> RawToken {
    let mut lexer = Lexer::new(PathId(DUMMY_PATH_ID), source, IdentifierInterner::new());
    lexer.next_token().raw
}

fn all_tokens(source: &str) -> Vec<RawToken> {
    let mut lexer = Lexer::new(PathId(DUMMY_PATH_ID), source, IdentifierInterner::new());
    let mut tokens = Vec::new();
    loop {
        let token = lexer.next_token();
        tokens.push(token.raw);
        if token.raw == RawToken::EndOfFile {
            return tokens;
        }
    }
}

#[test]
fn end_of_file_of_empty_source() {
    let mut lexer = Lexer::new(PathId(DUMMY_PATH_ID), "", IdentifierInterner::new());
    assert_eq!(
        lexer.next_token(),
        Token {
            raw: RawToken::EndOfFile,
            location: Location {
                filepath: PathId(DUMMY_PATH_ID),
                start: ByteOffset(0),
                end: ByteOffset(1)
            }
        }
    );
}

#[test]
fn unexpected_char_error() {
    assert_eq!(first_token("\u{661}"), RawToken::Error(RawLexError::UnexpectedChar));
}

#[test]
fn identifier() {
    assert_eq!(first_token("test"), RawToken::Identifier);
}

#[test]
fn identifier2() {
    assert_eq!(first_token("тест"), RawToken::Identifier);
}

#[test]
fn comment() {
    assert_eq!(first_token("//test comment"), RawToken::Comment);
}

#[test]
fn global_doc_comment() {
    assert_eq!(first_token("///test comment"), RawToken::LocalDocComment);
}

#[test]
fn local_doc_comment() {
    assert_eq!(first_token("//!test comment"), RawToken::GlobalDocComment);
}

#[test]
fn string() {
    assert_eq!(first_token("\"test\""), RawToken::StringLiteral);
}

#[test]
fn string2() {
    assert_eq!(first_token("\"test"), RawToken::Error(RawLexError::UnterminatedStringLiteral));
}

#[test]
fn string3() {
    assert_eq!(first_token("\"test\n"), RawToken::Error(RawLexError::UnterminatedStringLiteral));
}

#[test]
fn wrapped_id() {
    assert_eq!(first_token("`test`"), RawToken::Identifier);
}

#[test]
fn wrapped_id2() {
    assert_eq!(first_token("`test"), RawToken::Error(RawLexError::UnterminatedWrappedIdentifier));
}

#[test]
fn wrapped_id3() {
    assert_eq!(first_token("`test\n"), RawToken::Error(RawLexError::UnterminatedWrappedIdentifier));
}

#[test]
fn small_u() {
    assert_eq!(first_token("'\\u{1E41}'"), RawToken::CharLiteral);
}

#[test]
fn big_u() {
    assert_eq!(first_token("\"\\U{0010FFFF}\""), RawToken::StringLiteral);
}

#[test]
fn escapes_in_string() {
    let mut lexer = Lexer::new(PathId(DUMMY_PATH_ID), "\"a\\n\\t\\x{41}\\u{00e9}\"", IdentifierInterner::new());
    assert_eq!(lexer.next_token().raw, RawToken::StringLiteral);
    assert_eq!(lexer.scanned_string(), "a\n\tA\u{e9}");
}

#[test]
fn escape_errors() {
    assert_eq!(first_token("\"\\q\""), RawToken::Error(RawLexError::UnknownEscapeSequence));
    assert_eq!(first_token("\"\\u1234\""), RawToken::Error(RawLexError::ExpectedOpenBracketInUnicodeEscapeSequence));
    assert_eq!(first_token("\"\\u{12g4}\""), RawToken::Error(RawLexError::ExpectedDigitInUnicodeEscapeSequence));
    assert_eq!(first_token("\"\\u{1234\""), RawToken::Error(RawLexError::ExpectedCloseBracketInUnicodeEscapeSequence));
    assert_eq!(first_token("\"\\u{D800}\""), RawToken::Error(RawLexError::InvalidUnicodeEscapeSequence));
    assert_eq!(first_token("\"\\x{4}\""), RawToken::Error(RawLexError::ExpectedDigitInByteEscapeSequence));
    assert_eq!(first_token("\"\\x41\""), RawToken::Error(RawLexError::ExpectedOpenBracketInByteEscapeSequence));
    assert_eq!(first_token("\"\\x{411}\""), RawToken::Error(RawLexError::ExpectedCloseBracketInByteEscapeSequence));
    assert_eq!(first_token("\"\\\0\""), RawToken::Error(RawLexError::EmptyEscapeSequence));
}

#[test]
fn char_literal_errors() {
    assert_eq!(first_token("''"), RawToken::Error(RawLexError::EmptyCharacterLiteral));
    assert_eq!(first_token("'ab'"), RawToken::Error(RawLexError::MoreThanOneCharInCharLiteral));
    assert_eq!(first_token("'a"), RawToken::Error(RawLexError::UnterminatedCharLiteral));
    assert_eq!(first_token("``"), RawToken::Error(RawLexError::EmptyWrappedIdentifier));
}

#[test]
fn scanned_char_of_char_literal() {
    let mut lexer = Lexer::new(PathId(DUMMY_PATH_ID), "'\\u{1E41}'", IdentifierInterner::new());
    assert_eq!(lexer.next_token().raw, RawToken::CharLiteral);
    assert_eq!(lexer.scanned_char, '\u{1E41}');
}

#[test]
fn keywords_and_literals() {
    assert_eq!(
        all_tokens("fun main() { loop {} } true false _"),
        vec![
            RawToken::Keyword(Keyword::Fun),
            RawToken::Identifier,
            RawToken::Punctuator(Punctuator::OpenParent),
            RawToken::Punctuator(Punctuator::CloseParent),
            RawToken::Punctuator(Punctuator::OpenBrace),
            RawToken::Keyword(Keyword::Loop),
            RawToken::Punctuator(Punctuator::OpenBrace),
            RawToken::Punctuator(Punctuator::CloseBrace),
            RawToken::Punctuator(Punctuator::CloseBrace),
            RawToken::TrueBoolLiteral,
            RawToken::FalseBoolLiteral,
            RawToken::Punctuator(Punctuator::Underscore),
            RawToken::EndOfFile,
        ]
    );
}

#[test]
fn punctuators() {
    assert_eq!(
        all_tokens("-> ++ += .. . :: @ %= >>"),
        vec![
            RawToken::Punctuator(Punctuator::Arrow),
            RawToken::Punctuator(Punctuator::DoublePlus),
            RawToken::Punctuator(Punctuator::PlusEq),
            RawToken::Punctuator(Punctuator::DoubleDot),
            RawToken::Punctuator(Punctuator::Dot),
            RawToken::Punctuator(Punctuator::Colon),
            RawToken::Punctuator(Punctuator::Colon),
            RawToken::Punctuator(Punctuator::At),
            RawToken::Punctuator(Punctuator::PercentEq),
            RawToken::Punctuator(Punctuator::Eq),
            RawToken::Punctuator(Punctuator::RightShift),
            RawToken::EndOfFile,
        ]
    );
}

#[test]
fn numbers() {
    assert_eq!(
        all_tokens("1 1_000 1.5 .5 1e10 2E-3 1..2"),
        vec![
            RawToken::IntegerLiteral,
            RawToken::IntegerLiteral,
            RawToken::FloatLiteral,
            RawToken::FloatLiteral,
            RawToken::FloatLiteral,
            RawToken::FloatLiteral,
            RawToken::IntegerLiteral,
            RawToken::Punctuator(Punctuator::DoubleDot),
            RawToken::IntegerLiteral,
            RawToken::EndOfFile,
        ]
    );
}

#[test]
fn token_locations_are_byte_offsets() {
    let mut lexer = Lexer::new(PathId(DUMMY_PATH_ID), "  тест x", IdentifierInterner::new());
    let t = lexer.next_token();
    assert_eq!(t.location.start, ByteOffset(2));
    assert_eq!(t.location.end, ByteOffset(10));
    let x = lexer.next_token();
    assert_eq!(x.location.start, ByteOffset(11));
    assert_eq!(x.location.end, ByteOffset(12));
    let eof = lexer.next_token();
    assert_eq!(eof.location.start, ByteOffset(12));
}

#[test]
fn identifiers_are_interned() {
    let mut lexer = Lexer::new(PathId(DUMMY_PATH_ID), "foo bar foo int8", IdentifierInterner::new());
    lexer.next_token();
    let foo = lexer.scanned_identifier;
    lexer.next_token();
    let bar = lexer.scanned_identifier;
    lexer.next_token();
    assert_eq!(lexer.scanned_identifier, foo);
    assert_ne!(foo, bar);
    lexer.next_token();
    assert_eq!(lexer.scanned_identifier.0, stellar::interner::builtin_identifiers::INT8);
    let interner = lexer.into_identifiers();
    assert_eq!(interner.resolve(foo), "foo");
    assert_eq!(interner.resolve(bar), "bar");
}

#[test]
fn comments_are_skipped() {
    let mut lexer = Lexer::new(PathId(DUMMY_PATH_ID), "// one\n// two\nx", IdentifierInterner::new());
    assert_eq!(lexer.next_no_comments().raw, RawToken::Identifier);
    assert_eq!(lexer.next_no_comments().raw, RawToken::EndOfFile);
}
