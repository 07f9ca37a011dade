//! Tokens: what the lexer produces from source text.

use vstd::prelude::*;

use crate::location::Location;

verus! {

/// A keyword.
#[derive(Debug, Clone, Copy, PartialEq, Eq, Hash, Structural)]
pub enum Keyword {
    As,
    Break,
    Continue,
    Defer,
    Dyn,
    Else,
    Enum,
    Fun,
    If,
    Implements,
    Import,
    Interface,
    Let,
    Loop,
    Match,
    Pub,
    Return,
    Struct,
    Type,
    Where,
    While,
}

/// The keyword spelled `name`, if any.
pub open spec fn keyword_of(name: Seq<char>) -> Option<Keyword> {
    if name == "as"@ {
        Some(Keyword::As)
    } else if name == "break"@ {
        Some(Keyword::Break)
    } else if name == "continue"@ {
        Some(Keyword::Continue)
    } else if name == "defer"@ {
        Some(Keyword::Defer)
    } else if name == "dyn"@ {
        Some(Keyword::Dyn)
    } else if name == "else"@ {
        Some(Keyword::Else)
    } else if name == "enum"@ {
        Some(Keyword::Enum)
    } else if name == "fun"@ {
        Some(Keyword::Fun)
    } else if name == "if"@ {
        Some(Keyword::If)
    } else if name == "implements"@ {
        Some(Keyword::Implements)
    } else if name == "import"@ {
        Some(Keyword::Import)
    } else if name == "interface"@ {
        Some(Keyword::Interface)
    } else if name == "let"@ {
        Some(Keyword::Let)
    } else if name == "loop"@ {
        Some(Keyword::Loop)
    } else if name == "match"@ {
        Some(Keyword::Match)
    } else if name == "pub"@ {
        Some(Keyword::Pub)
    } else if name == "return"@ {
        Some(Keyword::Return)
    } else if name == "struct"@ {
        Some(Keyword::Struct)
    } else if name == "type"@ {
        Some(Keyword::Type)
    } else if name == "where"@ {
        Some(Keyword::Where)
    } else if name == "while"@ {
        Some(Keyword::While)
    } else {
        None
    }
}

/// Returns `true` when two string slices hold the same characters.
pub(crate) fn str_eq(a: &str, b: &str) -> (r: bool)
    ensures
        r == (a@ == b@),
{
    let n = a.unicode_len();
    if n != b.unicode_len() {
        return false;
    }
    let mut i: usize = 0;
    while i < n
        invariant
            n == a@.len(),
            n == b@.len(),
            i <= n,
            forall|j: int| 0 <= j < i ==> a@[j] == b@[j],
        decreases n - i,
    {
        if a.get_char(i) != b.get_char(i) {
            return false;
        }
        i = i + 1;
    }
    assert(a@ =~= b@);
    true
}

/// Returns the keyword spelled `name`, if any.
pub fn resolve_keyword(name: &str) -> (r: Option<Keyword>)
    ensures
        r == keyword_of(name@),
{
    if str_eq(name, "as") {
        Some(Keyword::As)
    } else if str_eq(name, "break") {
        Some(Keyword::Break)
    } else if str_eq(name, "continue") {
        Some(Keyword::Continue)
    } else if str_eq(name, "defer") {
        Some(Keyword::Defer)
    } else if str_eq(name, "dyn") {
        Some(Keyword::Dyn)
    } else if str_eq(name, "else") {
        Some(Keyword::Else)
    } else if str_eq(name, "enum") {
        Some(Keyword::Enum)
    } else if str_eq(name, "fun") {
        Some(Keyword::Fun)
    } else if str_eq(name, "if") {
        Some(Keyword::If)
    } else if str_eq(name, "implements") {
        Some(Keyword::Implements)
    } else if str_eq(name, "import") {
        Some(Keyword::Import)
    } else if str_eq(name, "interface") {
        Some(Keyword::Interface)
    } else if str_eq(name, "let") {
        Some(Keyword::Let)
    } else if str_eq(name, "loop") {
        Some(Keyword::Loop)
    } else if str_eq(name, "match") {
        Some(Keyword::Match)
    } else if str_eq(name, "pub") {
        Some(Keyword::Pub)
    } else if str_eq(name, "return") {
        Some(Keyword::Return)
    } else if str_eq(name, "struct") {
        Some(Keyword::Struct)
    } else if str_eq(name, "type") {
        Some(Keyword::Type)
    } else if str_eq(name, "where") {
        Some(Keyword::Where)
    } else if str_eq(name, "while") {
        Some(Keyword::While)
    } else {
        None
    }
}

/// A punctuator, e.g. `+`, `->`, `(`.
#[derive(Debug, Clone, Copy, PartialEq, Eq, Hash, Structural)]
pub enum Punctuator {
    Ampersand,
    Arrow,
    Asterisk,
    AsteriskEq,
    At,
    Bang,
    BangEq,
    Caret,
    CaretEq,
    CloseBrace,
    CloseBracket,
    CloseParent,
    Colon,
    Comma,
    Dot,
    DoubleAmpersand,
    DoubleAsterisk,
    DoubleDot,
    DoubleEq,
    DoubleMinus,
    DoubleOr,
    DoublePlus,
    Eq,
    Greater,
    GreaterEq,
    HashTag,
    LeftShift,
    Less,
    LessEq,
    Minus,
    MinusEq,
    OpenBrace,
    OpenBracket,
    OpenParent,
    Or,
    OrEq,
    Percent,
    PercentEq,
    Plus,
    PlusEq,
    QuestionMark,
    RightShift,
    Semicolon,
    Slash,
    SlashEq,
    Tilde,
    Underscore,
}

/// A lexing error without its location.
#[derive(Debug, Clone, Copy, PartialEq, Eq, Hash, Structural)]
pub enum RawLexError {
    EmptyCharacterLiteral,
    EmptyEscapeSequence,
    EmptyWrappedIdentifier,
    ExpectedCloseBracketInByteEscapeSequence,
    ExpectedCloseBracketInUnicodeEscapeSequence,
    ExpectedDigitInByteEscapeSequence,
    ExpectedDigitInUnicodeEscapeSequence,
    ExpectedOpenBracketInByteEscapeSequence,
    ExpectedOpenBracketInUnicodeEscapeSequence,
    InvalidByteEscapeSequence,
    InvalidUnicodeEscapeSequence,
    MoreThanOneCharInCharLiteral,
    UnexpectedChar,
    UnknownEscapeSequence,
    UnterminatedCharLiteral,
    UnterminatedStringLiteral,
    UnterminatedWrappedIdentifier,
}

/// A lexing error with its location.
#[derive(Debug, Clone, Copy, PartialEq, Eq, Hash, Structural)]
pub struct LexError {
    pub raw: RawLexError,
    pub location: Location,
}

/// A token without its location.
#[derive(Debug, Clone, Copy, PartialEq, Eq, Hash, Structural)]
pub enum RawToken {
    /// A character literal, e.g. `'a'`.
    CharLiteral,
    /// A comment, e.g. `// hello`.
    Comment,
    /// The end of the source text.
    EndOfFile,
    /// A lexing error.
    Error(RawLexError),
    /// `false`.
    FalseBoolLiteral,
    /// A float literal, e.g. `3.14`.
    FloatLiteral,
    /// A doc comment about the whole module, e.g. `//! hello`.
    GlobalDocComment,
    /// An identifier, e.g. `foo` or `` `foo bar` ``.
    Identifier,
    /// An integer literal, e.g. `42`.
    IntegerLiteral,
    /// A keyword, e.g. `fun`.
    Keyword(Keyword),
    /// A doc comment about the next item, e.g. `/// hello`.
    LocalDocComment,
    /// A punctuator, e.g. `+`.
    Punctuator(Punctuator),
    /// A string literal, e.g. `\"hello\"`.
    StringLiteral,
    /// `true`.
    TrueBoolLiteral,
}

/// A token with its location.
#[derive(Debug, Clone, Copy, PartialEq, Eq, Hash, Structural)]
pub struct Token {
    pub raw: RawToken,
    pub location: Location,
}


/// How a punctuator is written, in backquotes.
pub open spec fn punctuator_text(p: Punctuator) -> Seq<char> {
    match p {
        Punctuator::Ampersand => "`&`"@,
        Punctuator::Arrow => "`->`"@,
        Punctuator::Asterisk => "`*`"@,
        Punctuator::AsteriskEq => "`*=`"@,
        Punctuator::At => "`@`"@,
        Punctuator::Bang => "`!`"@,
        Punctuator::BangEq => "`!=`"@,
        Punctuator::Caret => "`^`"@,
        Punctuator::CaretEq => "`^=`"@,
        Punctuator::CloseBrace => "`}`"@,
        Punctuator::CloseBracket => "`]`"@,
        Punctuator::CloseParent => "`)`"@,
        Punctuator::Colon => "`:`"@,
        Punctuator::Comma => "`,`"@,
        Punctuator::Dot => "`.`"@,
        Punctuator::DoubleAmpersand => "`&&`"@,
        Punctuator::DoubleAsterisk => "`**`"@,
        Punctuator::DoubleDot => "`..`"@,
        Punctuator::DoubleEq => "`==`"@,
        Punctuator::DoubleMinus => "`--`"@,
        Punctuator::DoubleOr => "`||`"@,
        Punctuator::DoublePlus => "`++`"@,
        Punctuator::Eq => "`=`"@,
        Punctuator::Greater => "`>`"@,
        Punctuator::GreaterEq => "`>=`"@,
        Punctuator::HashTag => "`#`"@,
        Punctuator::LeftShift => "`<<`"@,
        Punctuator::Less => "`<`"@,
        Punctuator::LessEq => "`<=`"@,
        Punctuator::Minus => "`-`"@,
        Punctuator::MinusEq => "`-=`"@,
        Punctuator::OpenBrace => "`{`"@,
        Punctuator::OpenBracket => "`[`"@,
        Punctuator::OpenParent => "`(`"@,
        Punctuator::Or => "`|`"@,
        Punctuator::OrEq => "`|=`"@,
        Punctuator::Percent => "`%`"@,
        Punctuator::PercentEq => "`%=`"@,
        Punctuator::Plus => "`+`"@,
        Punctuator::PlusEq => "`+=`"@,
        Punctuator::QuestionMark => "`?`"@,
        Punctuator::RightShift => "`>>`"@,
        Punctuator::Semicolon => "`;`"@,
        Punctuator::Slash => "`/`"@,
        Punctuator::SlashEq => "`/=`"@,
        Punctuator::Tilde => "`~`"@,
        Punctuator::Underscore => "`_`"@,
    }
}

/// How a punctuator is written, in backquotes.
pub fn punctuator_str(p: Punctuator) -> (r: &'static str)
    ensures
        r@ == punctuator_text(p),
{
    match p {
        Punctuator::Ampersand => "`&`",
        Punctuator::Arrow => "`->`",
        Punctuator::Asterisk => "`*`",
        Punctuator::AsteriskEq => "`*=`",
        Punctuator::At => "`@`",
        Punctuator::Bang => "`!`",
        Punctuator::BangEq => "`!=`",
        Punctuator::Caret => "`^`",
        Punctuator::CaretEq => "`^=`",
        Punctuator::CloseBrace => "`}`",
        Punctuator::CloseBracket => "`]`",
        Punctuator::CloseParent => "`)`",
        Punctuator::Colon => "`:`",
        Punctuator::Comma => "`,`",
        Punctuator::Dot => "`.`",
        Punctuator::DoubleAmpersand => "`&&`",
        Punctuator::DoubleAsterisk => "`**`",
        Punctuator::DoubleDot => "`..`",
        Punctuator::DoubleEq => "`==`",
        Punctuator::DoubleMinus => "`--`",
        Punctuator::DoubleOr => "`||`",
        Punctuator::DoublePlus => "`++`",
        Punctuator::Eq => "`=`",
        Punctuator::Greater => "`>`",
        Punctuator::GreaterEq => "`>=`",
        Punctuator::HashTag => "`#`",
        Punctuator::LeftShift => "`<<`",
        Punctuator::Less => "`<`",
        Punctuator::LessEq => "`<=`",
        Punctuator::Minus => "`-`",
        Punctuator::MinusEq => "`-=`",
        Punctuator::OpenBrace => "`{`",
        Punctuator::OpenBracket => "`[`",
        Punctuator::OpenParent => "`(`",
        Punctuator::Or => "`|`",
        Punctuator::OrEq => "`|=`",
        Punctuator::Percent => "`%`",
        Punctuator::PercentEq => "`%=`",
        Punctuator::Plus => "`+`",
        Punctuator::PlusEq => "`+=`",
        Punctuator::QuestionMark => "`?`",
        Punctuator::RightShift => "`>>`",
        Punctuator::Semicolon => "`;`",
        Punctuator::Slash => "`/`",
        Punctuator::SlashEq => "`/=`",
        Punctuator::Tilde => "`~`",
        Punctuator::Underscore => "`_`",
    }
}

/// How a keyword is written, in backquotes.
pub open spec fn keyword_text(k: Keyword) -> Seq<char> {
    match k {
        Keyword::As => "`as`"@,
        Keyword::Break => "`break`"@,
        Keyword::Continue => "`continue`"@,
        Keyword::Defer => "`defer`"@,
        Keyword::Dyn => "`dyn`"@,
        Keyword::Else => "`else`"@,
        Keyword::Enum => "`enum`"@,
        Keyword::Fun => "`fun`"@,
        Keyword::If => "`if`"@,
        Keyword::Implements => "`implements`"@,
        Keyword::Import => "`import`"@,
        Keyword::Interface => "`interface`"@,
        Keyword::Let => "`let`"@,
        Keyword::Loop => "`loop`"@,
        Keyword::Match => "`match`"@,
        Keyword::Pub => "`pub`"@,
        Keyword::Return => "`return`"@,
        Keyword::Struct => "`struct`"@,
        Keyword::Type => "`type`"@,
        Keyword::Where => "`where`"@,
        Keyword::While => "`while`"@,
    }
}

/// How a keyword is written, in backquotes.
pub fn keyword_str(k: Keyword) -> (r: &'static str)
    ensures
        r@ == keyword_text(k),
{
    match k {
        Keyword::As => "`as`",
        Keyword::Break => "`break`",
        Keyword::Continue => "`continue`",
        Keyword::Defer => "`defer`",
        Keyword::Dyn => "`dyn`",
        Keyword::Else => "`else`",
        Keyword::Enum => "`enum`",
        Keyword::Fun => "`fun`",
        Keyword::If => "`if`",
        Keyword::Implements => "`implements`",
        Keyword::Import => "`import`",
        Keyword::Interface => "`interface`",
        Keyword::Let => "`let`",
        Keyword::Loop => "`loop`",
        Keyword::Match => "`match`",
        Keyword::Pub => "`pub`",
        Keyword::Return => "`return`",
        Keyword::Struct => "`struct`",
        Keyword::Type => "`type`",
        Keyword::Where => "`where`",
        Keyword::While => "`while`",
    }
}

/// What a lexing error says.
pub open spec fn lex_error_text(e: RawLexError) -> Seq<char> {
    match e {
        RawLexError::EmptyCharacterLiteral => "empty character literal"@,
        RawLexError::EmptyEscapeSequence => "empty escape sequence"@,
        RawLexError::EmptyWrappedIdentifier => "empty wrapped identifier"@,
        RawLexError::ExpectedCloseBracketInByteEscapeSequence => "expected `}` in byte escape sequence"@,
        RawLexError::ExpectedCloseBracketInUnicodeEscapeSequence => "expected `}` in unicode escape sequence"@,
        RawLexError::ExpectedDigitInByteEscapeSequence => "expected digit in byte escape sequence"@,
        RawLexError::ExpectedDigitInUnicodeEscapeSequence => "expected digit in unicode escape sequence"@,
        RawLexError::ExpectedOpenBracketInByteEscapeSequence => "expected `{` in byte escape sequence"@,
        RawLexError::ExpectedOpenBracketInUnicodeEscapeSequence => "expected `{` in unicode escape sequence"@,
        RawLexError::InvalidByteEscapeSequence => "invalid byte escape sequence"@,
        RawLexError::InvalidUnicodeEscapeSequence => "invalid unicode escape sequence"@,
        RawLexError::MoreThanOneCharInCharLiteral => "more than one character in character literal"@,
        RawLexError::UnexpectedChar => "unexpected character"@,
        RawLexError::UnknownEscapeSequence => "unknown escape sequence"@,
        RawLexError::UnterminatedCharLiteral => "unterminated character literal"@,
        RawLexError::UnterminatedStringLiteral => "unterminated string literal"@,
        RawLexError::UnterminatedWrappedIdentifier => "unterminated wrapped identifier"@,
    }
}

/// What a lexing error says.
pub fn lex_error_str(e: RawLexError) -> (r: &'static str)
    ensures
        r@ == lex_error_text(e),
{
    match e {
        RawLexError::EmptyCharacterLiteral => "empty character literal",
        RawLexError::EmptyEscapeSequence => "empty escape sequence",
        RawLexError::EmptyWrappedIdentifier => "empty wrapped identifier",
        RawLexError::ExpectedCloseBracketInByteEscapeSequence => "expected `}` in byte escape sequence",
        RawLexError::ExpectedCloseBracketInUnicodeEscapeSequence => "expected `}` in unicode escape sequence",
        RawLexError::ExpectedDigitInByteEscapeSequence => "expected digit in byte escape sequence",
        RawLexError::ExpectedDigitInUnicodeEscapeSequence => "expected digit in unicode escape sequence",
        RawLexError::ExpectedOpenBracketInByteEscapeSequence => "expected `{` in byte escape sequence",
        RawLexError::ExpectedOpenBracketInUnicodeEscapeSequence => "expected `{` in unicode escape sequence",
        RawLexError::InvalidByteEscapeSequence => "invalid byte escape sequence",
        RawLexError::InvalidUnicodeEscapeSequence => "invalid unicode escape sequence",
        RawLexError::MoreThanOneCharInCharLiteral => "more than one character in character literal",
        RawLexError::UnexpectedChar => "unexpected character",
        RawLexError::UnknownEscapeSequence => "unknown escape sequence",
        RawLexError::UnterminatedCharLiteral => "unterminated character literal",
        RawLexError::UnterminatedStringLiteral => "unterminated string literal",
        RawLexError::UnterminatedWrappedIdentifier => "unterminated wrapped identifier",
    }
}

/// How a token is named in messages.
pub open spec fn raw_token_text(t: RawToken) -> Seq<char> {
    match t {
        RawToken::CharLiteral => "character literal"@,
        RawToken::Comment => "comment"@,
        RawToken::EndOfFile => "end of file"@,
        RawToken::FalseBoolLiteral => "`false`"@,
        RawToken::FloatLiteral => "float literal"@,
        RawToken::GlobalDocComment => "global doc comment"@,
        RawToken::Identifier => "identifier"@,
        RawToken::IntegerLiteral => "integer literal"@,
        RawToken::LocalDocComment => "local doc comment"@,
        RawToken::StringLiteral => "string literal"@,
        RawToken::TrueBoolLiteral => "`true`"@,
        RawToken::Error(e) => lex_error_text(e),
        RawToken::Keyword(k) => keyword_text(k),
        RawToken::Punctuator(p) => punctuator_text(p),
    }
}

/// How a token is named in messages.
pub fn raw_token_str(t: RawToken) -> (r: &'static str)
    ensures
        r@ == raw_token_text(t),
{
    match t {
        RawToken::CharLiteral => "character literal",
        RawToken::Comment => "comment",
        RawToken::EndOfFile => "end of file",
        RawToken::FalseBoolLiteral => "`false`",
        RawToken::FloatLiteral => "float literal",
        RawToken::GlobalDocComment => "global doc comment",
        RawToken::Identifier => "identifier",
        RawToken::IntegerLiteral => "integer literal",
        RawToken::LocalDocComment => "local doc comment",
        RawToken::StringLiteral => "string literal",
        RawToken::TrueBoolLiteral => "`true`",
        RawToken::Error(e) => lex_error_str(e),
        RawToken::Keyword(k) => keyword_str(k),
        RawToken::Punctuator(p) => punctuator_str(p),
    }
}

} // verus!
