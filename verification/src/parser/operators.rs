//! What the tokens of operators stand for: binary, prefix and postfix
//! operators, and how tightly each binds.

use vstd::prelude::*;

use crate::ast::{Precedence, RawBinaryOperator, RawPostfixOperator, RawPrefixOperator};
use crate::token::{Keyword, Punctuator, RawToken};

verus! {

/// The binary operator that a token stands for, if any.
pub open spec fn binary_operator_of(raw: RawToken) -> Option<RawBinaryOperator> {
    match raw {
        RawToken::Punctuator(Punctuator::PlusEq) => Some(RawBinaryOperator::PlusEq),
        RawToken::Punctuator(Punctuator::Plus) => Some(RawBinaryOperator::Plus),
        RawToken::Punctuator(Punctuator::MinusEq) => Some(RawBinaryOperator::MinusEq),
        RawToken::Punctuator(Punctuator::Minus) => Some(RawBinaryOperator::Minus),
        RawToken::Punctuator(Punctuator::DoubleAsterisk) => Some(RawBinaryOperator::DoubleAsterisk),
        RawToken::Punctuator(Punctuator::AsteriskEq) => Some(RawBinaryOperator::AsteriskEq),
        RawToken::Punctuator(Punctuator::Asterisk) => Some(RawBinaryOperator::Asterisk),
        RawToken::Punctuator(Punctuator::SlashEq) => Some(RawBinaryOperator::SlashEq),
        RawToken::Punctuator(Punctuator::Slash) => Some(RawBinaryOperator::Slash),
        RawToken::Punctuator(Punctuator::BangEq) => Some(RawBinaryOperator::BangEq),
        RawToken::Punctuator(Punctuator::RightShift) => Some(RawBinaryOperator::RightShift),
        RawToken::Punctuator(Punctuator::GreaterEq) => Some(RawBinaryOperator::GreaterEq),
        RawToken::Punctuator(Punctuator::Greater) => Some(RawBinaryOperator::Greater),
        RawToken::Punctuator(Punctuator::LeftShift) => Some(RawBinaryOperator::LeftShift),
        RawToken::Punctuator(Punctuator::LessEq) => Some(RawBinaryOperator::LessEq),
        RawToken::Punctuator(Punctuator::Less) => Some(RawBinaryOperator::Less),
        RawToken::Punctuator(Punctuator::DoubleEq) => Some(RawBinaryOperator::DoubleEq),
        RawToken::Punctuator(Punctuator::Eq) => Some(RawBinaryOperator::Eq),
        RawToken::Punctuator(Punctuator::OrEq) => Some(RawBinaryOperator::OrEq),
        RawToken::Punctuator(Punctuator::DoubleOr) => Some(RawBinaryOperator::DoubleOr),
        RawToken::Punctuator(Punctuator::Or) => Some(RawBinaryOperator::Or),
        RawToken::Punctuator(Punctuator::DoubleAmpersand) => Some(RawBinaryOperator::DoubleAmpersand),
        RawToken::Punctuator(Punctuator::Ampersand) => Some(RawBinaryOperator::Ampersand),
        RawToken::Punctuator(Punctuator::CaretEq) => Some(RawBinaryOperator::CaretEq),
        RawToken::Punctuator(Punctuator::Caret) => Some(RawBinaryOperator::Caret),
        RawToken::Punctuator(Punctuator::PercentEq) => Some(RawBinaryOperator::PercentEq),
        RawToken::Punctuator(Punctuator::Percent) => Some(RawBinaryOperator::Percent),
        _ => None,
    }
}

/// Returns the binary operator that a token stands for, if any.
pub fn binary_operator(raw: RawToken) -> (r: Option<RawBinaryOperator>)
    ensures
        r == binary_operator_of(raw),
{
    match raw {
        RawToken::Punctuator(Punctuator::PlusEq) => Some(RawBinaryOperator::PlusEq),
        RawToken::Punctuator(Punctuator::Plus) => Some(RawBinaryOperator::Plus),
        RawToken::Punctuator(Punctuator::MinusEq) => Some(RawBinaryOperator::MinusEq),
        RawToken::Punctuator(Punctuator::Minus) => Some(RawBinaryOperator::Minus),
        RawToken::Punctuator(Punctuator::DoubleAsterisk) => Some(RawBinaryOperator::DoubleAsterisk),
        RawToken::Punctuator(Punctuator::AsteriskEq) => Some(RawBinaryOperator::AsteriskEq),
        RawToken::Punctuator(Punctuator::Asterisk) => Some(RawBinaryOperator::Asterisk),
        RawToken::Punctuator(Punctuator::SlashEq) => Some(RawBinaryOperator::SlashEq),
        RawToken::Punctuator(Punctuator::Slash) => Some(RawBinaryOperator::Slash),
        RawToken::Punctuator(Punctuator::BangEq) => Some(RawBinaryOperator::BangEq),
        RawToken::Punctuator(Punctuator::RightShift) => Some(RawBinaryOperator::RightShift),
        RawToken::Punctuator(Punctuator::GreaterEq) => Some(RawBinaryOperator::GreaterEq),
        RawToken::Punctuator(Punctuator::Greater) => Some(RawBinaryOperator::Greater),
        RawToken::Punctuator(Punctuator::LeftShift) => Some(RawBinaryOperator::LeftShift),
        RawToken::Punctuator(Punctuator::LessEq) => Some(RawBinaryOperator::LessEq),
        RawToken::Punctuator(Punctuator::Less) => Some(RawBinaryOperator::Less),
        RawToken::Punctuator(Punctuator::DoubleEq) => Some(RawBinaryOperator::DoubleEq),
        RawToken::Punctuator(Punctuator::Eq) => Some(RawBinaryOperator::Eq),
        RawToken::Punctuator(Punctuator::OrEq) => Some(RawBinaryOperator::OrEq),
        RawToken::Punctuator(Punctuator::DoubleOr) => Some(RawBinaryOperator::DoubleOr),
        RawToken::Punctuator(Punctuator::Or) => Some(RawBinaryOperator::Or),
        RawToken::Punctuator(Punctuator::DoubleAmpersand) => Some(RawBinaryOperator::DoubleAmpersand),
        RawToken::Punctuator(Punctuator::Ampersand) => Some(RawBinaryOperator::Ampersand),
        RawToken::Punctuator(Punctuator::CaretEq) => Some(RawBinaryOperator::CaretEq),
        RawToken::Punctuator(Punctuator::Caret) => Some(RawBinaryOperator::Caret),
        RawToken::Punctuator(Punctuator::PercentEq) => Some(RawBinaryOperator::PercentEq),
        RawToken::Punctuator(Punctuator::Percent) => Some(RawBinaryOperator::Percent),
        _ => None,
    }
}

/// The prefix operator that a token stands for, if any.
pub open spec fn prefix_operator_of(raw: RawToken) -> Option<RawPrefixOperator> {
    match raw {
        RawToken::Punctuator(Punctuator::Bang) => Some(RawPrefixOperator::Bang),
        RawToken::Punctuator(Punctuator::Tilde) => Some(RawPrefixOperator::Tilde),
        RawToken::Punctuator(Punctuator::DoublePlus) => Some(RawPrefixOperator::DoublePlus),
        RawToken::Punctuator(Punctuator::DoubleMinus) => Some(RawPrefixOperator::DoubleMinus),
        RawToken::Punctuator(Punctuator::Plus) => Some(RawPrefixOperator::Plus),
        RawToken::Punctuator(Punctuator::Minus) => Some(RawPrefixOperator::Minus),
        _ => None,
    }
}

/// Returns the prefix operator that a token stands for, if any.
pub fn prefix_operator(raw: RawToken) -> (r: Option<RawPrefixOperator>)
    ensures
        r == prefix_operator_of(raw),
{
    match raw {
        RawToken::Punctuator(Punctuator::Bang) => Some(RawPrefixOperator::Bang),
        RawToken::Punctuator(Punctuator::Tilde) => Some(RawPrefixOperator::Tilde),
        RawToken::Punctuator(Punctuator::DoublePlus) => Some(RawPrefixOperator::DoublePlus),
        RawToken::Punctuator(Punctuator::DoubleMinus) => Some(RawPrefixOperator::DoubleMinus),
        RawToken::Punctuator(Punctuator::Plus) => Some(RawPrefixOperator::Plus),
        RawToken::Punctuator(Punctuator::Minus) => Some(RawPrefixOperator::Minus),
        _ => None,
    }
}

/// The postfix operator that a token stands for, if any.
pub open spec fn postfix_operator_of(raw: RawToken) -> Option<RawPostfixOperator> {
    match raw {
        RawToken::Punctuator(Punctuator::QuestionMark) => Some(RawPostfixOperator::QuestionMark),
        RawToken::Punctuator(Punctuator::DoublePlus) => Some(RawPostfixOperator::DoublePlus),
        RawToken::Punctuator(Punctuator::DoubleMinus) => Some(RawPostfixOperator::DoubleMinus),
        _ => None,
    }
}

/// Returns the postfix operator that a token stands for, if any.
pub fn postfix_operator(raw: RawToken) -> (r: Option<RawPostfixOperator>)
    ensures
        r == postfix_operator_of(raw),
{
    match raw {
        RawToken::Punctuator(Punctuator::QuestionMark) => Some(RawPostfixOperator::QuestionMark),
        RawToken::Punctuator(Punctuator::DoublePlus) => Some(RawPostfixOperator::DoublePlus),
        RawToken::Punctuator(Punctuator::DoubleMinus) => Some(RawPostfixOperator::DoubleMinus),
        _ => None,
    }
}

/// How tightly the operator that a token stands for binds.
pub open spec fn precedence_of(raw: RawToken) -> Precedence {
    match raw {
        RawToken::Keyword(Keyword::As) => Precedence::Cast,
        RawToken::Punctuator(Punctuator::Eq) => Precedence::Assign,
        RawToken::Punctuator(Punctuator::PlusEq) => Precedence::Assign,
        RawToken::Punctuator(Punctuator::MinusEq) => Precedence::Assign,
        RawToken::Punctuator(Punctuator::AsteriskEq) => Precedence::Assign,
        RawToken::Punctuator(Punctuator::SlashEq) => Precedence::Assign,
        RawToken::Punctuator(Punctuator::OrEq) => Precedence::Assign,
        RawToken::Punctuator(Punctuator::CaretEq) => Precedence::Assign,
        RawToken::Punctuator(Punctuator::PercentEq) => Precedence::Assign,
        RawToken::Punctuator(Punctuator::DoubleOr) => Precedence::OrOr,
        RawToken::Punctuator(Punctuator::DoubleAmpersand) => Precedence::AndAnd,
        RawToken::Punctuator(Punctuator::Or) => Precedence::Or,
        RawToken::Punctuator(Punctuator::Caret) => Precedence::Xor,
        RawToken::Punctuator(Punctuator::Ampersand) => Precedence::And,
        RawToken::Punctuator(Punctuator::DoubleEq) => Precedence::Eq,
        RawToken::Punctuator(Punctuator::BangEq) => Precedence::Eq,
        RawToken::Punctuator(Punctuator::Less) => Precedence::LessOrGreater,
        RawToken::Punctuator(Punctuator::LessEq) => Precedence::LessOrGreater,
        RawToken::Punctuator(Punctuator::Greater) => Precedence::LessOrGreater,
        RawToken::Punctuator(Punctuator::GreaterEq) => Precedence::LessOrGreater,
        RawToken::Punctuator(Punctuator::LeftShift) => Precedence::LeftRightShift,
        RawToken::Punctuator(Punctuator::RightShift) => Precedence::LeftRightShift,
        RawToken::Punctuator(Punctuator::Plus) => Precedence::Sum,
        RawToken::Punctuator(Punctuator::Minus) => Precedence::Sum,
        RawToken::Punctuator(Punctuator::Asterisk) => Precedence::Product,
        RawToken::Punctuator(Punctuator::Slash) => Precedence::Product,
        RawToken::Punctuator(Punctuator::Percent) => Precedence::Product,
        RawToken::Punctuator(Punctuator::DoubleAsterisk) => Precedence::Power,
        RawToken::Punctuator(Punctuator::QuestionMark) => Precedence::Unary,
        RawToken::Punctuator(Punctuator::DoublePlus) => Precedence::Unary,
        RawToken::Punctuator(Punctuator::DoubleMinus) => Precedence::Unary,
        RawToken::Punctuator(Punctuator::OpenParent) => Precedence::Call,
        RawToken::Punctuator(Punctuator::OpenBracket) => Precedence::Call,
        RawToken::Punctuator(Punctuator::OpenBrace) => Precedence::Call,
        RawToken::Punctuator(Punctuator::Dot) => Precedence::Dot,
        _ => Precedence::Lowest,
    }
}

/// Returns how tightly the operator that a token stands for binds.
pub fn precedence(raw: RawToken) -> (r: Precedence)
    ensures
        r == precedence_of(raw),
{
    match raw {
        RawToken::Keyword(Keyword::As) => Precedence::Cast,
        RawToken::Punctuator(Punctuator::Eq) => Precedence::Assign,
        RawToken::Punctuator(Punctuator::PlusEq) => Precedence::Assign,
        RawToken::Punctuator(Punctuator::MinusEq) => Precedence::Assign,
        RawToken::Punctuator(Punctuator::AsteriskEq) => Precedence::Assign,
        RawToken::Punctuator(Punctuator::SlashEq) => Precedence::Assign,
        RawToken::Punctuator(Punctuator::OrEq) => Precedence::Assign,
        RawToken::Punctuator(Punctuator::CaretEq) => Precedence::Assign,
        RawToken::Punctuator(Punctuator::PercentEq) => Precedence::Assign,
        RawToken::Punctuator(Punctuator::DoubleOr) => Precedence::OrOr,
        RawToken::Punctuator(Punctuator::DoubleAmpersand) => Precedence::AndAnd,
        RawToken::Punctuator(Punctuator::Or) => Precedence::Or,
        RawToken::Punctuator(Punctuator::Caret) => Precedence::Xor,
        RawToken::Punctuator(Punctuator::Ampersand) => Precedence::And,
        RawToken::Punctuator(Punctuator::DoubleEq) => Precedence::Eq,
        RawToken::Punctuator(Punctuator::BangEq) => Precedence::Eq,
        RawToken::Punctuator(Punctuator::Less) => Precedence::LessOrGreater,
        RawToken::Punctuator(Punctuator::LessEq) => Precedence::LessOrGreater,
        RawToken::Punctuator(Punctuator::Greater) => Precedence::LessOrGreater,
        RawToken::Punctuator(Punctuator::GreaterEq) => Precedence::LessOrGreater,
        RawToken::Punctuator(Punctuator::LeftShift) => Precedence::LeftRightShift,
        RawToken::Punctuator(Punctuator::RightShift) => Precedence::LeftRightShift,
        RawToken::Punctuator(Punctuator::Plus) => Precedence::Sum,
        RawToken::Punctuator(Punctuator::Minus) => Precedence::Sum,
        RawToken::Punctuator(Punctuator::Asterisk) => Precedence::Product,
        RawToken::Punctuator(Punctuator::Slash) => Precedence::Product,
        RawToken::Punctuator(Punctuator::Percent) => Precedence::Product,
        RawToken::Punctuator(Punctuator::DoubleAsterisk) => Precedence::Power,
        RawToken::Punctuator(Punctuator::QuestionMark) => Precedence::Unary,
        RawToken::Punctuator(Punctuator::DoublePlus) => Precedence::Unary,
        RawToken::Punctuator(Punctuator::DoubleMinus) => Precedence::Unary,
        RawToken::Punctuator(Punctuator::OpenParent) => Precedence::Call,
        RawToken::Punctuator(Punctuator::OpenBracket) => Precedence::Call,
        RawToken::Punctuator(Punctuator::OpenBrace) => Precedence::Call,
        RawToken::Punctuator(Punctuator::Dot) => Precedence::Dot,
        _ => Precedence::Lowest,
    }
}

/// The rank of a precedence: the looser, the lower.
pub open spec fn rank_of(p: Precedence) -> int {
    match p {
        Precedence::Lowest => 0,
        Precedence::Assign => 1,
        Precedence::OrOr => 2,
        Precedence::AndAnd => 3,
        Precedence::Or => 4,
        Precedence::Xor => 5,
        Precedence::And => 6,
        Precedence::Eq => 7,
        Precedence::LessOrGreater => 8,
        Precedence::LeftRightShift => 9,
        Precedence::Sum => 10,
        Precedence::Product => 11,
        Precedence::Power => 12,
        Precedence::Cast => 13,
        Precedence::Unary => 14,
        Precedence::Call => 15,
        Precedence::Dot => 16,
    }
}

/// Returns the rank of a precedence: the looser, the lower.
pub fn rank(p: Precedence) -> (r: u8)
    ensures
        r == rank_of(p),
{
    match p {
        Precedence::Lowest => 0,
        Precedence::Assign => 1,
        Precedence::OrOr => 2,
        Precedence::AndAnd => 3,
        Precedence::Or => 4,
        Precedence::Xor => 5,
        Precedence::And => 6,
        Precedence::Eq => 7,
        Precedence::LessOrGreater => 8,
        Precedence::LeftRightShift => 9,
        Precedence::Sum => 10,
        Precedence::Product => 11,
        Precedence::Power => 12,
        Precedence::Cast => 13,
        Precedence::Unary => 14,
        Precedence::Call => 15,
        Precedence::Dot => 16,
    }
}

} // verus!
