//! Parsing expressions, statements and blocks of statements.

use vstd::prelude::*;

use super::literal::{is_literal_token, parse_literal};
use super::operators::{
    binary_operator, binary_operator_of, postfix_operator, postfix_operator_of, precedence,
    precedence_of, prefix_operator, prefix_operator_of, rank, rank_of,
};
use super::pattern::parse_pattern;
use super::state::{
    advanced, failure_reported, lemma_later_after_advance, later_start, later_token, reported_unexpected,
    same_place,
    second_token, after_token, token_from, ParseState,
};
use super::types::{lemma_moved_on_trans, list_expectation, moved_on, parse_type, parse_type_arguments};
use super::ExpressionParser;
use crate::ast::{
    BinaryOperator, Expression, IdentifierAST, LambdaFunctionParameter, MatchExpressionItem, PostfixOperator,
    Precedence, PrefixOperator, RawBinaryOperator, Statement, StructFieldExpression,
};
use crate::interner::PathId;
use crate::english::{one_of, one_of_text, texts};
use crate::location::Location;
use crate::token::{raw_token_str, raw_token_text, Keyword, Punctuator, RawToken, Token};

verus! {

/// Whether `raw` can start an expression.
pub open spec fn starts_expression(raw: RawToken) -> bool {
    ||| is_literal_token(raw)
    ||| raw == RawToken::Identifier
    ||| raw == RawToken::Punctuator(Punctuator::OpenParent)
    ||| raw == RawToken::Punctuator(Punctuator::OpenBracket)
    ||| raw == RawToken::Punctuator(Punctuator::OpenBrace)
    ||| raw == RawToken::Punctuator(Punctuator::Or)
    ||| raw == RawToken::Punctuator(Punctuator::DoubleOr)
    ||| raw == RawToken::Keyword(Keyword::If)
    ||| raw == RawToken::Keyword(Keyword::Match)
    ||| raw == RawToken::Keyword(Keyword::While)
    ||| raw == RawToken::Keyword(Keyword::Loop)
    ||| raw == RawToken::Punctuator(Punctuator::Underscore)
    ||| prefix_operator_of(raw) is Some
}

/// What the parser says it expected where no expression starts: in a
/// block of statements a statement, `;` or `}`, elsewhere an expression.
pub open spec fn expression_expectation(in_statements_block: bool) -> Seq<char> {
    if in_statements_block {
        one_of_text(
            seq![
                "statement"@,
                raw_token_text(RawToken::Punctuator(Punctuator::Semicolon)),
                raw_token_text(RawToken::Punctuator(Punctuator::CloseBrace)),
            ],
        )
    } else {
        "expression"@
    }
}

/// A node with this location was parsed from `before` to `after`: it
/// starts where the first token read starts, and at least one token was
/// read.
pub open spec fn begins_at(location: Location, before: ParseState, after: ParseState) -> bool {
    &&& location.start == before.next().location.start
    &&& after.measure() < before.measure()
}

/// The kind of statement that its first token decides: `return`, `defer`,
/// `let`, `continue` and `break` statements (the last two located at their
/// keyword), and an expression statement for anything else.
pub open spec fn statement_fits_first_token(first: Token, s: Statement) -> bool {
    if first.raw == RawToken::Keyword(Keyword::Return) {
        s is Return
    } else if first.raw == RawToken::Keyword(Keyword::Defer) {
        s is Defer
    } else if first.raw == RawToken::Keyword(Keyword::Let) {
        s is Let
    } else if first.raw == RawToken::Keyword(Keyword::Continue) {
        s == Statement::Continue { location: first.location }
    } else if first.raw == RawToken::Keyword(Keyword::Break) {
        s == Statement::Break { location: first.location }
    } else {
        s is Expression
    }
}

fn expression_expectation_text(in_statements_block: bool) -> (r: String)
    ensures
        r@ == expression_expectation(in_statements_block),
{
    if in_statements_block {
        let mut items: Vec<String> = Vec::new();
        items.push(String::from_str("statement"));
        items.push(String::from_str(raw_token_str(RawToken::Punctuator(Punctuator::Semicolon))));
        items.push(String::from_str(raw_token_str(RawToken::Punctuator(Punctuator::CloseBrace))));
        proof {
            assert(texts(items@) =~= seq![
                "statement"@,
                raw_token_text(RawToken::Punctuator(Punctuator::Semicolon)),
                raw_token_text(RawToken::Punctuator(Punctuator::CloseBrace)),
            ]);
        }
        one_of(items.as_slice())
    } else {
        String::from_str("expression")
    }
}

/// Parses an expression with the settings of `parser`: a primary
/// expression, then the operators, calls, field accesses, casts, type
/// arguments and struct literals that follow it and bind tighter than the
/// parser's precedence. An expression with a block ends there, and a `{`
/// ends it where struct expressions are not allowed.
#[verifier::spinoff_prover]
#[verifier::rlimit(40)]
pub fn parse_expression(state: &mut ParseState, parser: ExpressionParser) -> (r: Option<Expression>)
    requires
        old(state).wf(),
    ensures
        final(state).wf(),
        moved_on(*old(state), *final(state)),
        r is None ==> failure_reported(*old(state), *final(state)),
        r matches Some(e) ==> begins_at(e.location_of(), *old(state), *final(state)),
        !starts_expression(old(state).next().raw) ==> r is None && same_place(
            *old(state),
            *final(state),
        ) && reported_unexpected(
            old(state).reported(),
            final(state).reported(),
            old(state).current().location.end,
            old(state).next(),
            expression_expectation(parser.is_in_statements_block()),
        ),
        old(state).next().raw == RawToken::Identifier && rank_of(precedence_of(second_token(*old(state)).raw))
            <= rank_of(parser.precedence_of()) ==> r == Some(
            Expression::Identifier(
                IdentifierAST { location: old(state).next().location, id: old(state).last_identifier() },
            ),
        ) && advanced(*old(state), *final(state)),
        old(state).next().raw == RawToken::Punctuator(Punctuator::Underscore) && rank_of(
            precedence_of(second_token(*old(state)).raw),
        ) <= rank_of(parser.precedence_of()) ==> r == Some(
            Expression::Underscore { location: old(state).next().location },
        ) && advanced(*old(state), *final(state)),
        one_binary(*old(state), rank_of(parser.precedence_of())) ==> (r matches Some(
            Expression::Binary { left, right, operator, .. },
        ) && *left is Identifier && *right is Identifier && Some(operator.raw) == binary_operator_of(
            later_token(*old(state), 1).raw,
        )),
        operators_at(old(state).file(), old(state).text(), old(state).next_from(), rank_of(parser.precedence_of()))
            matches Some((tree, e)) ==> (r matches Some(x) && operator_tree(x) == Some(tree)
            && final(state).next_from() == e),
        old(state).next().raw == RawToken::Identifier && second_token(*old(state)).raw == RawToken::Punctuator(
            Punctuator::OpenBrace,
        ) && parser.prohibits_struct_expressions() && rank_of(parser.precedence_of()) < rank_of(Precedence::Call)
            ==> r == Some(
            Expression::Identifier(
                IdentifierAST { location: old(state).next().location, id: old(state).last_identifier() },
            ),
        ) && advanced(*old(state), *final(state)),
    decreases old(state).measure(), 20int,
{
    let ghost s0 = *state;
    let ghost f = s0.file();
    let ghost t = s0.text();
    let ghost on = operators_at(f, t, s0.next_from(), rank_of(parser.precedence_of())) is Some;
    proof {
        s0.lemma_next_from();
    }
    let mut left = match parse_primary_expression(
        state,
        parser.is_in_block(),
        parser.struct_expressions_prohibited(),
    ) {
        Some(left) => left,
        None => return None,
    };
    let ghost first_left = left;
    let min_rank = rank(parser.precedence());
    let prohibited = parser.struct_expressions_prohibited();
    // Where struct expressions are not allowed, a `{` that would continue
    // the expression ends it instead.
    if prohibited && state.next_token_raw() == RawToken::Punctuator(Punctuator::OpenBrace) && min_rank < rank(
        precedence(RawToken::Punctuator(Punctuator::OpenBrace)),
    ) && !left.with_block() {
        return Some(left);
    }
    loop
        invariant
            state.wf(),
            s0 == *old(state),
            moved_on(s0, *state),
            begins_at(left.location_of(), s0, *state),
            starts_expression(s0.next().raw),
            min_rank == rank_of(parser.precedence_of()),
            (s0.next().raw == RawToken::Identifier || s0.next().raw == RawToken::Punctuator(
                Punctuator::Underscore,
            )) && rank_of(precedence_of(second_token(s0).raw)) <= min_rank ==> left == first_left
                && advanced(s0, *state),
            one_binary(s0, min_rank as int) ==> (left == first_left && advanced(s0, *state)) || (left matches Expression::Binary { left: l, right: rr, operator, .. }
                && *l == first_left && *rr is Identifier && Some(operator.raw) == binary_operator_of(
                later_token(s0, 1).raw,
            ) && state.next() == later_token(s0, 3)),
            one_binary(s0, min_rank as int) ==> first_left is Identifier,
            !(s0.next().raw == RawToken::Identifier && second_token(s0).raw == RawToken::Punctuator(
                Punctuator::OpenBrace,
            ) && parser.prohibits_struct_expressions() && rank_of(parser.precedence_of()) < rank_of(
                Precedence::Call,
            )),

            f == s0.file(),
            t == s0.text(),
            on == operators_at(f, t, s0.next_from(), min_rank as int) is Some,
            on ==> (operator_tree(left) matches Some(lt) && operators_at(f, t, s0.next_from(), min_rank as int)
                == operators_after(f, t, lt, state.next_from(), min_rank as int)),
        ensures
            state.wf(),
            moved_on(s0, *state),
            begins_at(left.location_of(), s0, *state),
            (s0.next().raw == RawToken::Identifier || s0.next().raw == RawToken::Punctuator(
                Punctuator::Underscore,
            )) && rank_of(precedence_of(second_token(s0).raw)) <= min_rank ==> left == first_left
                && advanced(s0, *state),
            one_binary(s0, min_rank as int) ==> (left matches Expression::Binary { left: l, right: rr, operator, .. }
                && *l is Identifier && *rr is Identifier && Some(operator.raw) == binary_operator_of(
                later_token(s0, 1).raw,
            )),
            on ==> (operator_tree(left) matches Some(lt) && operators_at(f, t, s0.next_from(), min_rank as int)
                == Some((lt, state.next_from()))),
        decreases state.measure(),
    {
        proof {
            state.lemma_next_from();
        }
        let raw = state.next_token_raw();
        if !(min_rank < rank(precedence(raw))) || left.with_block() {
            break;
        }
        if raw == RawToken::Punctuator(Punctuator::OpenBrace) && prohibited {
            return Some(left);
        }
        let is_binary = binary_operator(raw).is_some();
        let is_postfix = postfix_operator(raw).is_some();
        if !(raw == RawToken::Punctuator(Punctuator::OpenParent) || raw == RawToken::Punctuator(
            Punctuator::Dot,
        ) || raw == RawToken::Punctuator(Punctuator::OpenBracket) || raw == RawToken::Keyword(
            Keyword::As,
        ) || raw == RawToken::Punctuator(Punctuator::OpenBrace) || is_binary || is_postfix) {
            break;
        }
        let ghost before = *state;
        proof {
            state.lemma_measure_nonneg();
            if one_binary(s0, min_rank as int) && left == first_left && advanced(s0, before) {
                lemma_later_after_advance(s0, before, 1);
                lemma_later_after_advance(s0, before, 2);
            }
        }
        let next = if raw == RawToken::Punctuator(Punctuator::OpenParent) {
            parse_call_expression(state, left)
        } else if raw == RawToken::Punctuator(Punctuator::Dot) {
            parse_field_access_expression(state, left)
        } else if raw == RawToken::Punctuator(Punctuator::OpenBracket) {
            parse_type_arguments_expression(state, left)
        } else if raw == RawToken::Keyword(Keyword::As) {
            parse_cast_expression(state, left)
        } else if raw == RawToken::Punctuator(Punctuator::OpenBrace) {
            parse_struct_expression(state, left)
        } else if is_binary {
            parse_binary_expression(state, left, prohibited)
        } else {
            parse_postfix_expression(state, left)
        };
        proof {
            lemma_moved_on_trans(s0, before, *state);
        }
        match next {
            Some(e) => left = e,
            None => return None,
        }
        proof {
            state.lemma_measure_nonneg();
        }
    }
    Some(left)
}

/// The shape of an expression made of identifiers and binary operators:
/// an identifier is a leaf, a binary expression a node with its operator.
pub enum OperatorTree {
    Leaf,
    Node(Box<OperatorTree>, RawBinaryOperator, Box<OperatorTree>),
}

/// The shape of `e` where it is made of identifiers and binary operators
/// alone; `None` otherwise.
pub open spec fn operator_tree(e: Expression) -> Option<OperatorTree>
    decreases e,
{
    match e {
        Expression::Identifier(_) => Some(OperatorTree::Leaf),
        Expression::Binary { left, operator, right, .. } => match (operator_tree(*left), operator_tree(*right)) {
            (Some(l), Some(r)) => Some(OperatorTree::Node(Box::new(l), operator.raw, Box::new(r))),
            _ => None,
        },
        _ => None,
    }
}

/// An expression from index `p` on made of identifiers and binary
/// operators, each operator binding tighter than `min_rank`: an identifier,
/// then what [`operators_after`] reads. Then its shape and where the token
/// after it is read from.
pub open spec fn operators_at(f: PathId, t: Seq<char>, p: int, min_rank: int) -> Option<(OperatorTree, int)>
    decreases t.len() - p, 1int,
{
    if token_from(f, t, p).raw == RawToken::Identifier && p < after_token(f, t, p) <= t.len() {
        operators_after(f, t, OperatorTree::Leaf, after_token(f, t, p), min_rank)
    } else {
        None
    }
}

/// What follows the left operand `left` of a binary expression from index
/// `q` on: nothing where the token there binds no tighter than `min_rank`;
/// otherwise a binary operator, its right operand, which holds only
/// operators that bind tighter than it, and what follows the expression
/// they make. Operators of the same precedence thus group to the left, and
/// those that bind tighter group first.
pub open spec fn operators_after(f: PathId, t: Seq<char>, left: OperatorTree, q: int, min_rank: int) -> Option<
    (OperatorTree, int),
>
    decreases t.len() - q, 0int,
{
    let raw = token_from(f, t, q).raw;
    if !(min_rank < rank_of(precedence_of(raw))) {
        Some((left, q))
    } else if binary_operator_of(raw) is Some && q < after_token(f, t, q) <= t.len() && 0 <= q {
        match operators_at(f, t, after_token(f, t, q), rank_of(precedence_of(raw))) {
            Some((right, q2)) => if after_token(f, t, q) < q2 <= t.len() {
                operators_after(
                    f,
                    t,
                    OperatorTree::Node(Box::new(left), binary_operator_of(raw)->0, Box::new(right)),
                    q2,
                    min_rank,
                )
            } else {
                None
            },
            None => None,
        }
    } else {
        None
    }
}

/// An identifier, a binary operator that binds tighter than `min_rank`,
/// an identifier, then a token that does not: the tokens of one binary
/// expression between two identifiers.
pub open spec fn one_binary(s: ParseState, min_rank: int) -> bool {
    &&& s.next().raw == RawToken::Identifier
    &&& binary_operator_of(later_token(s, 1).raw) is Some
    &&& min_rank < rank_of(precedence_of(later_token(s, 1).raw))
    &&& later_token(s, 2).raw == RawToken::Identifier
    &&& rank_of(precedence_of(later_token(s, 3).raw)) <= min_rank
}

/// Parses a call: the arguments in parentheses after the callee.
fn parse_call_expression(state: &mut ParseState, left: Expression) -> (r: Option<Expression>)
    requires
        old(state).wf(),
        old(state).next().raw == RawToken::Punctuator(Punctuator::OpenParent),
    ensures
        final(state).wf(),
        moved_on(*old(state), *final(state)),
        r is None ==> failure_reported(*old(state), *final(state)),
        r matches Some(e) ==> (e matches Expression::Call { callee, .. } && *callee == left),
        r matches Some(e) ==> e is Call && e.location_of().start == left.location_of().start
            && final(state).measure() < old(state).measure(),
    decreases old(state).measure(), 19int,
{
    let ghost s0 = *state;
    let start = left.location().start;
    state.advance();
    let ghost s1 = *state;
    proof {
        state.lemma_measure_nonneg();
    }
    let arguments = match parse_expressions_until(state, RawToken::Punctuator(Punctuator::CloseParent)) {
        Some(arguments) => arguments,
        None => {
            proof {
                lemma_moved_on_trans(s0, s1, *state);
            }
            return None;
        },
    };
    let ghost s2 = *state;
    state.advance();
    proof {
        lemma_moved_on_trans(s0, s1, s2);
        lemma_moved_on_trans(s0, s2, *state);
    }
    Some(Expression::Call { location: state.location_from(start), callee: Box::new(left), arguments })
}

/// Parses a field access: `.` and the field name.
fn parse_field_access_expression(state: &mut ParseState, left: Expression) -> (r: Option<Expression>)
    requires
        old(state).wf(),
        old(state).next().raw == RawToken::Punctuator(Punctuator::Dot),
    ensures
        final(state).wf(),
        moved_on(*old(state), *final(state)),
        r is None ==> failure_reported(*old(state), *final(state)),
        r matches Some(e) ==> (e matches Expression::FieldAccess { left: l, right, .. } && *l == left
            && right.location == second_token(*old(state)).location),
        r is Some <==> second_token(*old(state)).raw == RawToken::Identifier,
        r matches Some(e) ==> e is FieldAccess && e.location_of().start == left.location_of().start
            && final(state).measure() < old(state).measure(),
{
    let ghost s0 = *state;
    let start = left.location().start;
    state.advance();
    let ghost s1 = *state;
    let right = state.consume_identifier();
    proof {
        lemma_moved_on_trans(s0, s1, *state);
    }
    match right {
        Some(right) => Some(
            Expression::FieldAccess { location: state.location_from(start), left: Box::new(left), right },
        ),
        None => None,
    }
}

/// Parses type arguments after an expression.
fn parse_type_arguments_expression(state: &mut ParseState, left: Expression) -> (r: Option<Expression>)
    requires
        old(state).wf(),
        old(state).next().raw == RawToken::Punctuator(Punctuator::OpenBracket),
    ensures
        final(state).wf(),
        moved_on(*old(state), *final(state)),
        r is None ==> failure_reported(*old(state), *final(state)),
        r matches Some(e) ==> (e matches Expression::TypeArguments { left: l, .. } && *l == left),
        r matches Some(e) ==> e is TypeArguments && e.location_of().start == left.location_of().start
            && final(state).measure() < old(state).measure(),
{
    let start = left.location().start;
    match parse_type_arguments(state) {
        Some(arguments) => Some(
            Expression::TypeArguments {
                location: state.location_from(start),
                left: Box::new(left),
                arguments,
            },
        ),
        None => None,
    }
}

/// Parses a cast: `as` and the type.
fn parse_cast_expression(state: &mut ParseState, left: Expression) -> (r: Option<Expression>)
    requires
        old(state).wf(),
        old(state).next().raw == RawToken::Keyword(Keyword::As),
    ensures
        final(state).wf(),
        moved_on(*old(state), *final(state)),
        r is None ==> failure_reported(*old(state), *final(state)),
        r matches Some(e) ==> (e matches Expression::As { left: l, right, .. } && *l == left
            && right.location_of().start == second_token(*old(state)).location.start),
        r matches Some(e) ==> e is As && e.location_of().start == left.location_of().start
            && final(state).measure() < old(state).measure(),
{
    let ghost s0 = *state;
    let start = left.location().start;
    state.advance();
    let ghost s1 = *state;
    let right = parse_type(state);
    proof {
        lemma_moved_on_trans(s0, s1, *state);
    }
    match right {
        Some(right) => Some(Expression::As { location: state.location_from(start), left: Box::new(left), right }),
        None => None,
    }
}

/// Parses a field of a struct expression: its name, and `:` and its value
/// if there is one.
fn parse_struct_field_expression(state: &mut ParseState) -> (r: Option<StructFieldExpression>)
    requires
        old(state).wf(),
    ensures
        final(state).wf(),
        moved_on(*old(state), *final(state)),
        r is None ==> failure_reported(*old(state), *final(state)),
        r is Some ==> final(state).measure() < old(state).measure(),
    decreases old(state).measure(), 20int,
{
    let ghost s0 = *state;
    let name = match state.consume_identifier() {
        Some(name) => name,
        None => return None,
    };
    let value = if state.next_token_raw() == RawToken::Punctuator(Punctuator::Colon) {
        let ghost s1 = *state;
        state.advance();
        let ghost s2 = *state;
        proof {
            state.lemma_measure_nonneg();
            lemma_moved_on_trans(s0, s1, s2);
        }
        let value = parse_expression(state, ExpressionParser::new());
        proof {
            lemma_moved_on_trans(s0, s2, *state);
        }
        match value {
            Some(value) => Some(value),
            None => return None,
        }
    } else {
        None
    };
    Some(StructFieldExpression { name, value })
}

/// Parses a struct expression: the fields in braces after the struct.
fn parse_struct_expression(state: &mut ParseState, left: Expression) -> (r: Option<Expression>)
    requires
        old(state).wf(),
        old(state).next().raw == RawToken::Punctuator(Punctuator::OpenBrace),
    ensures
        final(state).wf(),
        moved_on(*old(state), *final(state)),
        r is None ==> failure_reported(*old(state), *final(state)),
        r matches Some(e) ==> (e matches Expression::Struct { left: l, .. } && *l == left),
        r matches Some(e) ==> e is Struct && e.location_of().start == left.location_of().start
            && final(state).measure() < old(state).measure(),
    decreases old(state).measure(), 19int,
{
    let ghost s0 = *state;
    let start = left.location().start;
    state.advance();
    let ghost s1 = *state;
    proof {
        state.lemma_measure_nonneg();
    }
    let fields = match parse_struct_field_expressions(state) {
        Some(fields) => fields,
        None => {
            proof {
                lemma_moved_on_trans(s0, s1, *state);
            }
            return None;
        },
    };
    let ghost s2 = *state;
    state.advance();
    proof {
        lemma_moved_on_trans(s0, s1, s2);
        lemma_moved_on_trans(s0, s2, *state);
    }
    Some(Expression::Struct { location: state.location_from(start), left: Box::new(left), fields })
}

/// Parses a binary expression: the operator, then the right operand with
/// the operator's precedence.
fn parse_binary_expression(state: &mut ParseState, left: Expression, prohibit_struct_expressions: bool) -> (r:
    Option<Expression>)
    requires
        old(state).wf(),
        binary_operator_of(old(state).next().raw) is Some,
    ensures
        final(state).wf(),
        moved_on(*old(state), *final(state)),
        r is None ==> failure_reported(*old(state), *final(state)),
        r matches Some(e) ==> (e matches Expression::Binary { left: l, right: rr, .. } && *l == left
            && rr.location_of().start == second_token(*old(state)).location.start),
        r matches Some(e) ==> (e matches Expression::Binary { operator, .. } && operator == (
        BinaryOperator {
            location: old(state).next().location,
            raw: binary_operator_of(old(state).next().raw).unwrap(),
        })) && e.location_of().start == left.location_of().start && final(state).measure() < old(state).measure(),
        later_token(*old(state), 1).raw == RawToken::Identifier && rank_of(
            precedence_of(later_token(*old(state), 2).raw),
        ) <= rank_of(precedence_of(old(state).next().raw)) ==> (r matches Some(
            Expression::Binary { left: l, right: rr, .. },
        ) && *l == left && *rr is Identifier && final(state).next() == later_token(*old(state), 2)),
        operators_at(
            old(state).file(),
            old(state).text(),
            after_token(old(state).file(), old(state).text(), old(state).next_from()),
            rank_of(precedence_of(old(state).next().raw)),
        ) matches Some((right, q2)) ==> (r matches Some(Expression::Binary { left: l, right: rr, .. }) && *l
            == left && operator_tree(*rr) == Some(right) && final(state).next_from() == q2),
    decreases old(state).measure(), 19int,
{
    let ghost s0 = *state;
    proof {
        s0.lemma_next_from();
    }
    let start = left.location().start;
    let raw = state.next_token_raw();
    let operator = BinaryOperator { location: state.next_location(), raw: binary_operator(raw).unwrap() };
    let operator_precedence = precedence(raw);
    state.advance();
    let ghost s1 = *state;
    proof {
        state.lemma_measure_nonneg();
        lemma_later_after_advance(s0, s1, 1);
    }
    let right = parse_expression(
        state,
        ExpressionParser::new().with_precedence(operator_precedence).prohibit_struct_expressions_if(
            prohibit_struct_expressions,
        ),
    );
    proof {
        lemma_moved_on_trans(s0, s1, *state);
    }
    match right {
        Some(right) => Some(
            Expression::Binary {
                location: state.location_from(start),
                left: Box::new(left),
                right: Box::new(right),
                operator,
            },
        ),
        None => None,
    }
}

/// Parses a postfix operator after an expression.
fn parse_postfix_expression(state: &mut ParseState, left: Expression) -> (r: Option<Expression>)
    requires
        old(state).wf(),
        postfix_operator_of(old(state).next().raw) is Some,
    ensures
        final(state).wf(),
        moved_on(*old(state), *final(state)),
        r is None ==> failure_reported(*old(state), *final(state)),
        r matches Some(e) ==> (e matches Expression::Postfix { inner, .. } && *inner == left),
        r is Some,
        r matches Some(e) ==> (e matches Expression::Postfix { operator, .. } && operator == (
        PostfixOperator {
            location: old(state).next().location,
            raw: postfix_operator_of(old(state).next().raw).unwrap(),
        })) && e.location_of().start == left.location_of().start && final(state).measure() < old(state).measure(),
{
    let start = left.location().start;
    let raw = state.next_token_raw();
    state.advance();
    let operator = PostfixOperator { location: state.current_location(), raw: postfix_operator(raw).unwrap() };
    Some(Expression::Postfix { location: state.location_from(start), inner: Box::new(left), operator })
}

/// Parses expressions separated by commas, with an optional trailing
/// comma, up to the closing token, which is left as the next token.
fn parse_expressions_until(state: &mut ParseState, closing: RawToken) -> (r: Option<Vec<Expression>>)
    requires
        old(state).wf(),
    ensures
        final(state).wf(),
        moved_on(*old(state), *final(state)),
        r is None ==> failure_reported(*old(state), *final(state)),
        r matches Some(v) ==> (v@.len() == 0 <==> old(state).next().raw == closing),
        r is Some ==> final(state).next().raw == closing,
    decreases old(state).measure(), 21int,
{
    let ghost start_state = *state;
    let mut result: Vec<Expression> = Vec::new();
    if state.next_token_raw() == closing {
        return Some(result);
    }
    loop
        invariant
            state.wf(),
            start_state == *old(state),
            moved_on(start_state, *state),
        ensures
            result@.len() > 0,
            state.wf(),
            moved_on(start_state, *state),
            state.next().raw == closing,
        decreases state.measure(),
    {
        let ghost before = *state;
        proof {
            state.lemma_measure_nonneg();
        }
        match parse_expression(state, ExpressionParser::new()) {
            Some(e) => result.push(e),
            None => {
                proof {
                    lemma_moved_on_trans(start_state, before, *state);
                }
                return None;
            },
        }
        proof {
            lemma_moved_on_trans(start_state, before, *state);
        }
        if state.next_token_raw() == closing {
            break;
        }
        if state.next_token_raw() != RawToken::Punctuator(Punctuator::Comma) {
            let ghost middle = *state;
            state.report_unexpected(list_expectation(closing));
            proof {
                lemma_moved_on_trans(start_state, middle, *state);
            }
            return None;
        }
        let ghost middle = *state;
        state.advance();
        proof {
            lemma_moved_on_trans(start_state, middle, *state);
            state.lemma_measure_nonneg();
        }
        if state.next_token_raw() == closing {
            break;
        }
    }
    Some(result)
}

/// Parses fields of a struct expression separated by commas, with an
/// optional trailing comma, up to `}`, which is left as the next token.
fn parse_struct_field_expressions(state: &mut ParseState) -> (r: Option<Vec<StructFieldExpression>>)
    requires
        old(state).wf(),
    ensures
        final(state).wf(),
        moved_on(*old(state), *final(state)),
        r is None ==> failure_reported(*old(state), *final(state)),
        r matches Some(v) ==> (v@.len() == 0 <==> old(state).next().raw == RawToken::Punctuator(Punctuator::CloseBrace)),
        r is Some ==> final(state).next().raw == RawToken::Punctuator(Punctuator::CloseBrace),
    decreases old(state).measure(), 21int,
{
    let closing = RawToken::Punctuator(Punctuator::CloseBrace);
    let ghost start_state = *state;
    let mut result: Vec<StructFieldExpression> = Vec::new();
    if state.next_token_raw() == closing {
        return Some(result);
    }
    loop
        invariant
            state.wf(),
            start_state == *old(state),
            moved_on(start_state, *state),
            closing == RawToken::Punctuator(Punctuator::CloseBrace),
        ensures
            result@.len() > 0,
            state.wf(),
            moved_on(start_state, *state),
            state.next().raw == closing,
        decreases state.measure(),
    {
        let ghost before = *state;
        proof {
            state.lemma_measure_nonneg();
        }
        match parse_struct_field_expression(state) {
            Some(field) => result.push(field),
            None => {
                proof {
                    lemma_moved_on_trans(start_state, before, *state);
                }
                return None;
            },
        }
        proof {
            lemma_moved_on_trans(start_state, before, *state);
        }
        if state.next_token_raw() == closing {
            break;
        }
        if state.next_token_raw() != RawToken::Punctuator(Punctuator::Comma) {
            let ghost middle = *state;
            state.report_unexpected(list_expectation(closing));
            proof {
                lemma_moved_on_trans(start_state, middle, *state);
            }
            return None;
        }
        let ghost middle = *state;
        state.advance();
        proof {
            lemma_moved_on_trans(start_state, middle, *state);
            state.lemma_measure_nonneg();
        }
        if state.next_token_raw() == closing {
            break;
        }
    }
    Some(result)
}

/// Parses a primary expression: a literal, an identifier, a parenthesized,
/// tuple or list expression, a block, a lambda, an `if`, `match`, `while`
/// or `loop` expression, `_`, or a prefix operator and its operand; for any
/// other token it reports what it expected.
fn parse_primary_expression(
    state: &mut ParseState,
    in_statements_block: bool,
    prohibit_struct_expressions: bool,
) -> (r: Option<Expression>)
    requires
        old(state).wf(),
    ensures
        final(state).wf(),
        moved_on(*old(state), *final(state)),
        r is None ==> failure_reported(*old(state), *final(state)),
        r matches Some(e) ==> begins_at(e.location_of(), *old(state), *final(state)),
        !starts_expression(old(state).next().raw) ==> r is None && same_place(
            *old(state),
            *final(state),
        ) && reported_unexpected(
            old(state).reported(),
            final(state).reported(),
            old(state).current().location.end,
            old(state).next(),
            expression_expectation(in_statements_block),
        ),
        old(state).next().raw == RawToken::Identifier ==> r == Some(
            Expression::Identifier(
                IdentifierAST { location: old(state).next().location, id: old(state).last_identifier() },
            ),
        ) && advanced(*old(state), *final(state)),
        old(state).next().raw == RawToken::Punctuator(Punctuator::Underscore) ==> r == Some(
            Expression::Underscore { location: old(state).next().location },
        ) && advanced(*old(state), *final(state)),
    decreases old(state).measure(), 19int,
{
    let raw = state.next_token_raw();
    if raw == RawToken::StringLiteral || raw == RawToken::CharLiteral || raw
        == RawToken::IntegerLiteral || raw == RawToken::FloatLiteral || raw
        == RawToken::TrueBoolLiteral || raw == RawToken::FalseBoolLiteral {
        match parse_literal(state) {
            Some(literal) => Some(Expression::Literal(literal)),
            None => None,
        }
    } else if raw == RawToken::Identifier {
        match state.consume_identifier() {
            Some(identifier) => Some(Expression::Identifier(identifier)),
            None => None,
        }
    } else if raw == RawToken::Punctuator(Punctuator::OpenParent) {
        parse_parenthesized_or_tuple_expression(state)
    } else if raw == RawToken::Punctuator(Punctuator::OpenBracket) {
        parse_list_expression(state)
    } else if raw == RawToken::Punctuator(Punctuator::OpenBrace) {
        parse_block_expression(state)
    } else if raw == RawToken::Punctuator(Punctuator::Or) || raw == RawToken::Punctuator(
        Punctuator::DoubleOr,
    ) {
        parse_lambda_expression(state)
    } else if raw == RawToken::Keyword(Keyword::If) {
        parse_if_expression(state)
    } else if raw == RawToken::Keyword(Keyword::Match) {
        parse_match_expression(state)
    } else if raw == RawToken::Keyword(Keyword::While) {
        parse_while_expression(state)
    } else if raw == RawToken::Keyword(Keyword::Loop) {
        parse_loop_expression(state)
    } else if raw == RawToken::Punctuator(Punctuator::Underscore) {
        state.advance();
        Some(Expression::Underscore { location: state.current_location() })
    } else if prefix_operator(raw).is_some() {
        parse_prefix_expression(state, prohibit_struct_expressions)
    } else {
        state.report_unexpected(expression_expectation_text(in_statements_block));
        None
    }
}

/// Parses a parenthesized expression or a tuple: expressions in
/// parentheses; one expression without a comma after it is a
/// parenthesized expression.
fn parse_parenthesized_or_tuple_expression(state: &mut ParseState) -> (r: Option<Expression>)
    requires
        old(state).wf(),
        old(state).next().raw == RawToken::Punctuator(Punctuator::OpenParent),
    ensures
        final(state).wf(),
        moved_on(*old(state), *final(state)),
        r is None ==> failure_reported(*old(state), *final(state)),
        r matches Some(e) ==> (e is Tuple || e is Parenthesized) && begins_at(
            e.location_of(),
            *old(state),
            *final(state),
        ),
    decreases old(state).measure(), 18int,
{
    let ghost s0 = *state;
    let start = state.next_location().start;
    state.advance();
    let ghost s1 = *state;
    proof {
        state.lemma_measure_nonneg();
    }
    let mut elements = match parse_expressions_until(state, RawToken::Punctuator(Punctuator::CloseParent)) {
        Some(elements) => elements,
        None => {
            proof {
                lemma_moved_on_trans(s0, s1, *state);
            }
            return None;
        },
    };
    let ghost s2 = *state;
    state.advance();
    proof {
        lemma_moved_on_trans(s0, s1, s2);
        lemma_moved_on_trans(s0, s2, *state);
    }
    let location = state.location_from(start);
    if elements.len() == 1 {
        let element = elements.pop().unwrap();
        if state.text_has_comma(element.location().end, state.current_location().end) {
            let mut elements: Vec<Expression> = Vec::new();
            elements.push(element);
            Some(Expression::Tuple { location, elements })
        } else {
            Some(Expression::Parenthesized { location, inner: Box::new(element) })
        }
    } else {
        Some(Expression::Tuple { location, elements })
    }
}

/// Parses a list expression: expressions in brackets.
fn parse_list_expression(state: &mut ParseState) -> (r: Option<Expression>)
    requires
        old(state).wf(),
        old(state).next().raw == RawToken::Punctuator(Punctuator::OpenBracket),
    ensures
        final(state).wf(),
        moved_on(*old(state), *final(state)),
        r is None ==> failure_reported(*old(state), *final(state)),
        r matches Some(e) ==> e is List && begins_at(e.location_of(), *old(state), *final(state)),
    decreases old(state).measure(), 18int,
{
    let ghost s0 = *state;
    let start = state.next_location().start;
    state.advance();
    let ghost s1 = *state;
    proof {
        state.lemma_measure_nonneg();
    }
    let elements = match parse_expressions_until(state, RawToken::Punctuator(Punctuator::CloseBracket)) {
        Some(elements) => elements,
        None => {
            proof {
                lemma_moved_on_trans(s0, s1, *state);
            }
            return None;
        },
    };
    let ghost s2 = *state;
    state.advance();
    proof {
        lemma_moved_on_trans(s0, s1, s2);
        lemma_moved_on_trans(s0, s2, *state);
    }
    Some(Expression::List { location: state.location_from(start), elements })
}

/// Parses a block expression: a block of statements.
fn parse_block_expression(state: &mut ParseState) -> (r: Option<Expression>)
    requires
        old(state).wf(),
        old(state).next().raw == RawToken::Punctuator(Punctuator::OpenBrace),
    ensures
        final(state).wf(),
        moved_on(*old(state), *final(state)),
        r is None ==> failure_reported(*old(state), *final(state)),
        r matches Some(e) ==> e is StatementsBlock && begins_at(e.location_of(), *old(state), *final(state)),
    decreases old(state).measure(), 18int,
{
    let start = state.next_location().start;
    match parse_statements_block(state) {
        Some(block) => Some(Expression::StatementsBlock { location: state.location_from(start), block }),
        None => None,
    }
}

/// Parses a parameter of a lambda: its name, and `:` and its type if it
/// has one.
fn parse_lambda_parameter(state: &mut ParseState) -> (r: Option<LambdaFunctionParameter>)
    requires
        old(state).wf(),
    ensures
        final(state).wf(),
        moved_on(*old(state), *final(state)),
        r is None ==> failure_reported(*old(state), *final(state)),
        r matches Some(p) ==> p.name.location == old(state).next().location && final(state).measure() < old(state).measure(),
{
    let ghost s0 = *state;
    let name = match state.consume_identifier() {
        Some(name) => name,
        None => return None,
    };
    let ty = if state.next_token_raw() == RawToken::Punctuator(Punctuator::Colon) {
        let ghost s1 = *state;
        state.advance();
        let ghost s2 = *state;
        let ty = parse_type(state);
        proof {
            lemma_moved_on_trans(s0, s1, s2);
            lemma_moved_on_trans(s0, s2, *state);
        }
        match ty {
            Some(ty) => Some(ty),
            None => return None,
        }
    } else {
        None
    };
    Some(LambdaFunctionParameter { name, ty })
}

/// Parses parameters of a lambda separated by commas, with an optional
/// trailing comma, up to `|`, which is left as the next token.
fn parse_lambda_parameters(state: &mut ParseState) -> (r: Option<Vec<LambdaFunctionParameter>>)
    requires
        old(state).wf(),
    ensures
        final(state).wf(),
        moved_on(*old(state), *final(state)),
        r is None ==> failure_reported(*old(state), *final(state)),
        r matches Some(v) ==> (v@.len() == 0 <==> old(state).next().raw == RawToken::Punctuator(Punctuator::Or)),
        r is Some ==> final(state).next().raw == RawToken::Punctuator(Punctuator::Or),
{
    let closing = RawToken::Punctuator(Punctuator::Or);
    let ghost start_state = *state;
    let mut result: Vec<LambdaFunctionParameter> = Vec::new();
    if state.next_token_raw() == closing {
        return Some(result);
    }
    loop
        invariant
            state.wf(),
            start_state == *old(state),
            moved_on(start_state, *state),
            closing == RawToken::Punctuator(Punctuator::Or),
        ensures
            result@.len() > 0,
            state.wf(),
            moved_on(start_state, *state),
            state.next().raw == closing,
        decreases state.measure(),
    {
        let ghost before = *state;
        proof {
            state.lemma_measure_nonneg();
        }
        match parse_lambda_parameter(state) {
            Some(parameter) => result.push(parameter),
            None => {
                proof {
                    lemma_moved_on_trans(start_state, before, *state);
                }
                return None;
            },
        }
        proof {
            lemma_moved_on_trans(start_state, before, *state);
        }
        if state.next_token_raw() == closing {
            break;
        }
        if state.next_token_raw() != RawToken::Punctuator(Punctuator::Comma) {
            let ghost middle = *state;
            state.report_unexpected(list_expectation(closing));
            proof {
                lemma_moved_on_trans(start_state, middle, *state);
            }
            return None;
        }
        let ghost middle = *state;
        state.advance();
        proof {
            lemma_moved_on_trans(start_state, middle, *state);
            state.lemma_measure_nonneg();
        }
        if state.next_token_raw() == closing {
            break;
        }
    }
    Some(result)
}

/// Parses a lambda: `|`, the parameters and `|` (or `||` and no
/// parameters), `:` and the return type if there is one, and its value.
fn parse_lambda_expression(state: &mut ParseState) -> (r: Option<Expression>)
    requires
        old(state).wf(),
        old(state).next().raw == RawToken::Punctuator(Punctuator::Or) || old(state).next().raw
            == RawToken::Punctuator(Punctuator::DoubleOr),
    ensures
        final(state).wf(),
        moved_on(*old(state), *final(state)),
        r is None ==> failure_reported(*old(state), *final(state)),
        r matches Some(e) ==> e is Lambda && begins_at(e.location_of(), *old(state), *final(state)),
    decreases old(state).measure(), 18int,
{
    let ghost s0 = *state;
    let start = state.next_location().start;
    state.advance();
    let ghost s1 = *state;
    let parameters = if state.current_token_raw() == RawToken::Punctuator(Punctuator::Or) {
        let parameters = match parse_lambda_parameters(state) {
            Some(parameters) => parameters,
            None => {
                proof {
                    lemma_moved_on_trans(s0, s1, *state);
                }
                return None;
            },
        };
        let ghost s2 = *state;
        state.advance();
        proof {
            lemma_moved_on_trans(s0, s1, s2);
            lemma_moved_on_trans(s0, s2, *state);
        }
        parameters
    } else {
        Vec::new()
    };
    let ghost s3 = *state;
    let return_type = if state.next_token_raw() == RawToken::Punctuator(Punctuator::Colon) {
        state.advance();
        let ghost s4 = *state;
        let ty = parse_type(state);
        proof {
            lemma_moved_on_trans(s0, s3, s4);
            lemma_moved_on_trans(s0, s4, *state);
        }
        match ty {
            Some(ty) => Some(ty),
            None => return None,
        }
    } else {
        None
    };
    let ghost s5 = *state;
    proof {
        state.lemma_measure_nonneg();
    }
    let value = parse_expression(state, ExpressionParser::new());
    proof {
        lemma_moved_on_trans(s0, s5, *state);
    }
    match value {
        Some(value) => Some(
            Expression::Lambda {
                location: state.location_from(start),
                parameters,
                return_type,
                value: Box::new(value),
            },
        ),
        None => None,
    }
}

/// An `if` branch whose condition is a plain name and whose block is empty,
/// read from index `p` on: `if`, a name, `{` and `}`. Where the token after
/// it is read from.
pub open spec fn bare_if_branch_at(f: PathId, t: Seq<char>, p: int) -> Option<int> {
    let q1 = after_token(f, t, p);
    let q2 = after_token(f, t, q1);
    let q3 = after_token(f, t, q2);
    if token_from(f, t, p).raw == RawToken::Keyword(Keyword::If) && token_from(f, t, q1).raw
        == RawToken::Identifier && token_from(f, t, q2).raw == RawToken::Punctuator(Punctuator::OpenBrace)
        && token_from(f, t, q3).raw == RawToken::Punctuator(Punctuator::CloseBrace) {
        Some(after_token(f, t, q3))
    } else {
        None
    }
}

/// What follows such a branch, read from index `q` on: any number of `else`
/// with such a branch, then possibly `else` and an empty block. Where the
/// token after them is read from, how many `else if` branches came, and
/// whether an `else` block ended them; `None` where the tokens are not of
/// this shape.
#[verifier::opaque]
pub open spec fn bare_else_chain_at(f: PathId, t: Seq<char>, q: int) -> Option<(int, nat, bool)>
    decreases t.len() - q,
{
    if token_from(f, t, q).raw != RawToken::Keyword(Keyword::Else) {
        Some((q, 0, false))
    } else {
        let q1 = after_token(f, t, q);
        match bare_if_branch_at(f, t, q1) {
            Some(q5) => if q < q5 <= t.len() {
                match bare_else_chain_at(f, t, q5) {
                    Some((e, n, b)) => Some((e, n + 1, b)),
                    None => None,
                }
            } else {
                None
            },
            None => if token_from(f, t, q1).raw == RawToken::Punctuator(Punctuator::OpenBrace) && token_from(
                f,
                t,
                after_token(f, t, q1),
            ).raw == RawToken::Punctuator(Punctuator::CloseBrace) {
                Some((after_token(f, t, after_token(f, t, q1)), 0, true))
            } else {
                None
            },
        }
    }
}

/// An `if` expression read from index `p` on whose conditions are plain
/// names and whose blocks are empty: where the token after it is read from,
/// how many branches with a condition it has, and whether it ends with an
/// `else` block.
pub open spec fn bare_if_chain_at(f: PathId, t: Seq<char>, p: int) -> Option<(int, nat, bool)> {
    match bare_if_branch_at(f, t, p) {
        Some(q) => match bare_else_chain_at(f, t, q) {
            Some((e, n, b)) => Some((e, n + 1, b)),
            None => None,
        },
        None => None,
    }
}

/// Where no `else` comes, the chain is empty; after `else`, it is an empty
/// block, or a branch and the rest of the chain.
proof fn lemma_bare_else_chain_step(f: PathId, t: Seq<char>, q: int)
    requires
        bare_else_chain_at(f, t, q) is Some,
    ensures
        token_from(f, t, q).raw != RawToken::Keyword(Keyword::Else) ==> bare_else_chain_at(f, t, q) == Some(
            (q, 0nat, false),
        ),
        token_from(f, t, q).raw == RawToken::Keyword(Keyword::Else) && token_from(f, t, after_token(f, t, q)).raw
            != RawToken::Keyword(Keyword::If) ==> ({
            let q1 = after_token(f, t, q);
            &&& token_from(f, t, q1).raw == RawToken::Punctuator(Punctuator::OpenBrace)
            &&& token_from(f, t, after_token(f, t, q1)).raw == RawToken::Punctuator(Punctuator::CloseBrace)
            &&& bare_else_chain_at(f, t, q) == Some((after_token(f, t, after_token(f, t, q1)), 0nat, true))
        }),
        token_from(f, t, q).raw == RawToken::Keyword(Keyword::Else) && token_from(f, t, after_token(f, t, q)).raw
            == RawToken::Keyword(Keyword::If) ==> (bare_if_branch_at(f, t, after_token(f, t, q)) matches Some(q5)
            && bare_else_chain_at(f, t, q5) matches Some((e, n, b)) && bare_else_chain_at(f, t, q) == Some(
            (e, n + 1, b),
        )),
{
    reveal(bare_else_chain_at);
}

/// Parses one branch of an `if` expression: `if`, a condition where a
/// struct expression is not allowed, and a block.
#[verifier::spinoff_prover]
#[verifier::rlimit(60)]
fn parse_if_branch(state: &mut ParseState) -> (r: Option<(Expression, Vec<crate::ast::Statement>)>)
    requires
        old(state).wf(),
        old(state).next().raw == RawToken::Keyword(Keyword::If),
    ensures
        final(state).wf(),
        moved_on(*old(state), *final(state)),
        final(state).measure() < old(state).measure(),
        r is None ==> failure_reported(*old(state), *final(state)),
        bare_if_branch_at(old(state).file(), old(state).text(), old(state).next_from()) matches Some(q) ==> (
        r matches Some((c, b)) && c is Identifier && b@.len() == 0 && final(state).next_from() == q),
    decreases old(state).measure(), 17int,
{
    let ghost s0 = *state;
    let ghost f = s0.file();
    let ghost t = s0.text();
    proof {
        s0.lemma_next_from();
    }
    state.advance();
    let ghost s1 = *state;
    proof {
        state.lemma_measure_nonneg();
        s1.lemma_next_from();
    }
    let condition = parse_expression(state, ExpressionParser::new().prohibit_struct_expressions());
    let ghost s2 = *state;
    proof {
        lemma_moved_on_trans(s0, s1, s2);
        state.lemma_measure_nonneg();
        s2.lemma_next_from();
    }
    let condition = match condition {
        Some(condition) => condition,
        None => return None,
    };
    let block = parse_statements_block(state);
    proof {
        lemma_moved_on_trans(s0, s2, *state);
        reveal_with_fuel(later_start, 2);
    }
    match block {
        Some(block) => Some((condition, block)),
        None => None,
    }
}

/// Parses an `if` expression: `if`, a condition and a block, then any
/// number of `else if` with a condition and a block, and an `else` with a
/// block if there is one.
#[verifier::spinoff_prover]
#[verifier::rlimit(100)]
fn parse_if_expression(state: &mut ParseState) -> (r: Option<Expression>)
    requires
        old(state).wf(),
        old(state).next().raw == RawToken::Keyword(Keyword::If),
    ensures
        final(state).wf(),
        moved_on(*old(state), *final(state)),
        r is None ==> failure_reported(*old(state), *final(state)),
        r matches Some(e) ==> (e matches Expression::If { if_blocks, .. } && if_blocks@.len() >= 1)
            && begins_at(e.location_of(), *old(state), *final(state)),
        bare_if_chain_at(old(state).file(), old(state).text(), old(state).next_from()) matches Some(
            (e, n, has_else),
        ) ==> (r matches Some(Expression::If { if_blocks, else_, .. }) && if_blocks@.len() == n && (
        else_ is Some <==> has_else) && (else_ matches Some(b) ==> b@.len() == 0) && (forall|i: int|
            0 <= i < n ==> (#[trigger] if_blocks@[i]).0 is Identifier && if_blocks@[i].1@.len() == 0)
            && final(state).next_from() == e),
    decreases old(state).measure(), 18int,
{
    let ghost s0 = *state;
    let ghost f = s0.file();
    let ghost t = s0.text();
    let ghost chain = bare_if_chain_at(f, t, s0.next_from());
    proof {
        s0.lemma_next_from();
    }
    let start = state.next_location().start;
    let first = parse_if_branch(state);
    let first = match first {
        Some(first) => first,
        None => return None,
    };
    let mut if_blocks: Vec<(Expression, Vec<crate::ast::Statement>)> = Vec::new();
    if_blocks.push(first);
    let mut else_: Option<Vec<crate::ast::Statement>> = None;
    proof {
        state.lemma_next_from();
        if chain is Some {
            lemma_bare_else_chain_step(f, t, state.next_from());
        }
    }
    while state.next_token_raw() == RawToken::Keyword(Keyword::Else)
        invariant_except_break
            chain is Some ==> (bare_else_chain_at(f, t, state.next_from()) matches Some((e, n, b)) && e == (
            chain->0).0 && n + if_blocks@.len() == (chain->0).1 && b == (chain->0).2),
            else_ is None,
            chain is Some && token_from(f, t, state.next_from()).raw != RawToken::Keyword(Keyword::Else) ==> (
            if_blocks@.len() == (chain->0).1 && state.next_from() == (chain->0).0 && !(chain->0).2),
        invariant
            state.next() == token_from(f, t, state.next_from()),
            state.wf(),
            s0 == *old(state),
            moved_on(s0, *state),
            state.measure() < s0.measure(),
            if_blocks@.len() >= 1,
            f == s0.file(),
            t == s0.text(),
            chain == bare_if_chain_at(f, t, s0.next_from()),
            chain is Some ==> forall|i: int|
                0 <= i < if_blocks@.len() ==> (#[trigger] if_blocks@[i]).0 is Identifier && if_blocks@[i].1@.len()
                    == 0,
        ensures
            chain is Some ==> (else_ is Some <==> (chain->0).2) && (else_ matches Some(b) ==> b@.len() == 0)
                && if_blocks@.len() == (chain->0).1 && state.next_from() == (chain->0).0,
        decreases state.measure(),
    {
        let ghost b0 = *state;
        proof {
            b0.lemma_next_from();
            if chain is Some {
                lemma_bare_else_chain_step(f, t, b0.next_from());
            }
        }
        state.advance();
        let ghost b1 = *state;
        proof {
            lemma_moved_on_trans(s0, b0, b1);
            state.lemma_measure_nonneg();
            b1.lemma_next_from();
            if chain is Some {
                assert(b1.next_from() == after_token(f, t, b0.next_from()));
                assert(second_token(b1) == token_from(f, t, after_token(f, t, b1.next_from())));
            }
        }
        if state.next_token_raw() != RawToken::Keyword(Keyword::If) {
            let block = parse_statements_block(state);
            proof {
                lemma_moved_on_trans(s0, b1, *state);
                reveal_with_fuel(later_start, 2);
                state.lemma_next_from();
                if chain is Some {
                    assert(later_start(b1, 1) == after_token(f, t, after_token(f, t, b1.next_from())));
                    assert(block is Some);
                }
            }
            match block {
                Some(block) => {
                    else_ = Some(block);
                    break;
                },
                None => return None,
            }
        }
        let branch = parse_if_branch(state);
        proof {
            lemma_moved_on_trans(s0, b1, *state);
        }
        match branch {
            Some(branch) => if_blocks.push(branch),
            None => return None,
        }
        proof {
            state.lemma_measure_nonneg();
            state.lemma_next_from();
            if chain is Some {
                lemma_bare_else_chain_step(f, t, state.next_from());
            }
        }
    }
    Some(Expression::If { location: state.location_from(start), if_blocks, else_ })
}

/// Parses an item of a `match` expression: a pattern, `->` and an
/// expression; a value that starts with `{` is a block, and ends there.
fn parse_match_expression_item(state: &mut ParseState) -> (r: Option<MatchExpressionItem>)
    requires
        old(state).wf(),
    ensures
        final(state).wf(),
        moved_on(*old(state), *final(state)),
        r is None ==> failure_reported(*old(state), *final(state)),
        r is Some ==> final(state).measure() < old(state).measure(),
    decreases old(state).measure(), 20int,
{
    let ghost s0 = *state;
    let left = parse_pattern(state);
    let ghost s1 = *state;
    let left = match left {
        Some(left) => left,
        None => return None,
    };
    let arrow = state.consume(RawToken::Punctuator(Punctuator::Arrow));
    let ghost s2 = *state;
    proof {
        lemma_moved_on_trans(s0, s1, s2);
        state.lemma_measure_nonneg();
    }
    if arrow.is_none() {
        return None;
    }
    let right = if state.next_token_raw() == RawToken::Punctuator(Punctuator::OpenBrace) {
        parse_block_expression(state)
    } else {
        parse_expression(state, ExpressionParser::new())
    };
    proof {
        lemma_moved_on_trans(s0, s2, *state);
    }
    match right {
        Some(right) => Some(MatchExpressionItem { left, right }),
        None => None,
    }
}

/// Parses items of a `match` expression separated by commas, with an
/// optional trailing comma, up to `}`, which is left as the next token. The
/// comma after an item whose value is a block, or an expression with a
/// block, may be left out.
fn parse_match_expression_items(state: &mut ParseState) -> (r: Option<Vec<MatchExpressionItem>>)
    requires
        old(state).wf(),
    ensures
        final(state).wf(),
        moved_on(*old(state), *final(state)),
        r is None ==> failure_reported(*old(state), *final(state)),
        r matches Some(v) ==> (v@.len() == 0 <==> old(state).next().raw == RawToken::Punctuator(Punctuator::CloseBrace)),
        r is Some ==> final(state).next().raw == RawToken::Punctuator(Punctuator::CloseBrace),
    decreases old(state).measure(), 21int,
{
    let closing = RawToken::Punctuator(Punctuator::CloseBrace);
    let ghost start_state = *state;
    let mut result: Vec<MatchExpressionItem> = Vec::new();
    if state.next_token_raw() == closing {
        return Some(result);
    }
    loop
        invariant
            state.wf(),
            start_state == *old(state),
            moved_on(start_state, *state),
            closing == RawToken::Punctuator(Punctuator::CloseBrace),
        ensures
            result@.len() > 0,
            state.wf(),
            moved_on(start_state, *state),
            state.next().raw == closing,
        decreases state.measure(),
    {
        let ghost before = *state;
        proof {
            state.lemma_measure_nonneg();
        }
        let block_ended = match parse_match_expression_item(state) {
            Some(item) => {
                let block_ended = item.right.with_block();
                result.push(item);
                block_ended
            },
            None => {
                proof {
                    lemma_moved_on_trans(start_state, before, *state);
                }
                return None;
            },
        };
        proof {
            lemma_moved_on_trans(start_state, before, *state);
            state.lemma_measure_nonneg();
        }
        if state.next_token_raw() == closing {
            break;
        }
        if block_ended && state.next_token_raw() != RawToken::Punctuator(Punctuator::Comma) {
            continue;
        }
        if state.next_token_raw() != RawToken::Punctuator(Punctuator::Comma) {
            let ghost middle = *state;
            state.report_unexpected(list_expectation(closing));
            proof {
                lemma_moved_on_trans(start_state, middle, *state);
            }
            return None;
        }
        let ghost middle = *state;
        state.advance();
        proof {
            lemma_moved_on_trans(start_state, middle, *state);
            state.lemma_measure_nonneg();
        }
        if state.next_token_raw() == closing {
            break;
        }
    }
    Some(result)
}

/// Parses the block of a `match` expression: its items in braces.
fn parse_match_expression_block(state: &mut ParseState) -> (r: Option<Vec<MatchExpressionItem>>)
    requires
        old(state).wf(),
    ensures
        final(state).wf(),
        moved_on(*old(state), *final(state)),
        r is None ==> failure_reported(*old(state), *final(state)),
        r is Some ==> old(state).next().raw == RawToken::Punctuator(Punctuator::OpenBrace) && final(state).current().raw == RawToken::Punctuator(Punctuator::CloseBrace) && final(state).measure() < old(state).measure(),
    decreases old(state).measure(), 19int,
{
    let ghost s0 = *state;
    let opened = state.consume(RawToken::Punctuator(Punctuator::OpenBrace));
    let ghost s1 = *state;
    if opened.is_none() {
        return None;
    }
    proof {
        state.lemma_measure_nonneg();
    }
    let items = match parse_match_expression_items(state) {
        Some(items) => items,
        None => {
            proof {
                lemma_moved_on_trans(s0, s1, *state);
            }
            return None;
        },
    };
    let ghost s2 = *state;
    state.advance();
    proof {
        lemma_moved_on_trans(s0, s1, s2);
        lemma_moved_on_trans(s0, s2, *state);
    }
    Some(items)
}

/// Parses a `match` expression: `match`, the expression matched on and
/// the block of items.
fn parse_match_expression(state: &mut ParseState) -> (r: Option<Expression>)
    requires
        old(state).wf(),
        old(state).next().raw == RawToken::Keyword(Keyword::Match),
    ensures
        final(state).wf(),
        moved_on(*old(state), *final(state)),
        r is None ==> failure_reported(*old(state), *final(state)),
        r matches Some(e) ==> e is Match && begins_at(e.location_of(), *old(state), *final(state)),
    decreases old(state).measure(), 18int,
{
    let ghost s0 = *state;
    let start = state.next_location().start;
    state.advance();
    let ghost s1 = *state;
    proof {
        state.lemma_measure_nonneg();
    }
    let expression = parse_expression(state, ExpressionParser::new().prohibit_struct_expressions());
    let ghost s2 = *state;
    proof {
        lemma_moved_on_trans(s0, s1, s2);
        state.lemma_measure_nonneg();
    }
    let expression = match expression {
        Some(expression) => expression,
        None => return None,
    };
    let block = parse_match_expression_block(state);
    proof {
        lemma_moved_on_trans(s0, s2, *state);
    }
    match block {
        Some(block) => Some(
            Expression::Match {
                location: state.location_from(start),
                expression: Box::new(expression),
                block,
            },
        ),
        None => None,
    }
}

/// Parses a `while` expression: `while`, a condition and a block.
fn parse_while_expression(state: &mut ParseState) -> (r: Option<Expression>)
    requires
        old(state).wf(),
        old(state).next().raw == RawToken::Keyword(Keyword::While),
    ensures
        final(state).wf(),
        moved_on(*old(state), *final(state)),
        r is None ==> failure_reported(*old(state), *final(state)),
        r matches Some(e) ==> e is While && begins_at(e.location_of(), *old(state), *final(state)),
    decreases old(state).measure(), 18int,
{
    let ghost s0 = *state;
    let start = state.next_location().start;
    state.advance();
    let ghost s1 = *state;
    proof {
        state.lemma_measure_nonneg();
    }
    let condition = parse_expression(state, ExpressionParser::new().prohibit_struct_expressions());
    let ghost s2 = *state;
    proof {
        lemma_moved_on_trans(s0, s1, s2);
        state.lemma_measure_nonneg();
    }
    let condition = match condition {
        Some(condition) => condition,
        None => return None,
    };
    let body = parse_statements_block(state);
    proof {
        lemma_moved_on_trans(s0, s2, *state);
    }
    match body {
        Some(body) => Some(
            Expression::While {
                location: state.location_from(start),
                condition: Box::new(condition),
                statements_block: body,
            },
        ),
        None => None,
    }
}

/// Parses a `loop` expression: `loop` and a block; it is located at the
/// keyword.
fn parse_loop_expression(state: &mut ParseState) -> (r: Option<Expression>)
    requires
        old(state).wf(),
        old(state).next().raw == RawToken::Keyword(Keyword::Loop),
    ensures
        final(state).wf(),
        moved_on(*old(state), *final(state)),
        r is None ==> failure_reported(*old(state), *final(state)),
        r matches Some(e) ==> (e matches Expression::Loop { location, .. } && location == old(state).next().location) && begins_at(e.location_of(), *old(state), *final(state)),
    decreases old(state).measure(), 18int,
{
    let ghost s0 = *state;
    state.advance();
    let ghost s1 = *state;
    let location = state.current_location();
    proof {
        state.lemma_measure_nonneg();
    }
    let block = parse_statements_block(state);
    proof {
        lemma_moved_on_trans(s0, s1, *state);
    }
    match block {
        Some(statements_block) => Some(Expression::Loop { location, statements_block }),
        None => None,
    }
}

/// Parses a prefix operator and its operand, which binds as tightly as a
/// unary operator.
fn parse_prefix_expression(state: &mut ParseState, prohibit_struct_expressions: bool) -> (r: Option<
    Expression,
>)
    requires
        old(state).wf(),
        prefix_operator_of(old(state).next().raw) is Some,
    ensures
        final(state).wf(),
        moved_on(*old(state), *final(state)),
        r is None ==> failure_reported(*old(state), *final(state)),
        r matches Some(e) ==> (e matches Expression::Prefix { operator, .. } && operator == (
        PrefixOperator {
            location: old(state).next().location,
            raw: prefix_operator_of(old(state).next().raw).unwrap(),
        })) && begins_at(e.location_of(), *old(state), *final(state)),
    decreases old(state).measure(), 18int,
{
    let ghost s0 = *state;
    let raw = state.next_token_raw();
    let operator_location = state.next_location();
    let operator = PrefixOperator { location: operator_location, raw: prefix_operator(raw).unwrap() };
    state.advance();
    let ghost s1 = *state;
    proof {
        state.lemma_measure_nonneg();
    }
    let inner = parse_expression(
        state,
        ExpressionParser::new().with_precedence(Precedence::Unary).prohibit_struct_expressions_if(
            prohibit_struct_expressions,
        ),
    );
    proof {
        lemma_moved_on_trans(s0, s1, *state);
    }
    match inner {
        Some(inner) => {
            let location = state.make_location(operator_location.start, inner.location().end);
            Some(Expression::Prefix { location, inner: Box::new(inner), operator })
        },
        None => None,
    }
}

/// Parses a `return` statement: `return`, an expression and `;`.
fn parse_return_statement(state: &mut ParseState) -> (r: Option<Statement>)
    requires
        old(state).wf(),
        old(state).next().raw == RawToken::Keyword(Keyword::Return),
    ensures
        final(state).wf(),
        moved_on(*old(state), *final(state)),
        r is None ==> failure_reported(*old(state), *final(state)),
        r matches Some(s) ==> s is Return && final(state).measure() < old(state).measure(),
    decreases old(state).measure(), 21int,
{
    let ghost s0 = *state;
    state.advance();
    let ghost s1 = *state;
    proof {
        state.lemma_measure_nonneg();
    }
    let expression = parse_expression(state, ExpressionParser::new());
    let ghost s2 = *state;
    let expression = match expression {
        Some(expression) => expression,
        None => {
            proof {
                lemma_moved_on_trans(s0, s1, s2);
            }
            return None;
        },
    };
    let semicolon = state.consume(RawToken::Punctuator(Punctuator::Semicolon));
    proof {
        lemma_moved_on_trans(s0, s1, s2);
        lemma_moved_on_trans(s0, s2, *state);
    }
    match semicolon {
        Some(()) => Some(Statement::Return { expression }),
        None => None,
    }
}

/// Parses a `defer` statement: `defer`, the call and `;`.
fn parse_defer_statement(state: &mut ParseState) -> (r: Option<Statement>)
    requires
        old(state).wf(),
        old(state).next().raw == RawToken::Keyword(Keyword::Defer),
    ensures
        final(state).wf(),
        moved_on(*old(state), *final(state)),
        r is None ==> failure_reported(*old(state), *final(state)),
        r matches Some(s) ==> s is Defer && final(state).measure() < old(state).measure(),
    decreases old(state).measure(), 21int,
{
    let ghost s0 = *state;
    state.advance();
    let ghost s1 = *state;
    proof {
        state.lemma_measure_nonneg();
    }
    let call = parse_expression(state, ExpressionParser::new());
    let ghost s2 = *state;
    let call = match call {
        Some(call) => call,
        None => {
            proof {
                lemma_moved_on_trans(s0, s1, s2);
            }
            return None;
        },
    };
    let semicolon = state.consume(RawToken::Punctuator(Punctuator::Semicolon));
    proof {
        lemma_moved_on_trans(s0, s1, s2);
        lemma_moved_on_trans(s0, s2, *state);
    }
    match semicolon {
        Some(()) => Some(Statement::Defer { call }),
        None => None,
    }
}

/// Parses a `let` statement: `let`, a pattern, `:` and a type if there is
/// one, `=`, the value and `;`.
#[verifier::spinoff_prover]
#[verifier::rlimit(40)]
fn parse_let_statement(state: &mut ParseState) -> (r: Option<Statement>)
    requires
        old(state).wf(),
        old(state).next().raw == RawToken::Keyword(Keyword::Let),
    ensures
        final(state).wf(),
        moved_on(*old(state), *final(state)),
        r is None ==> failure_reported(*old(state), *final(state)),
        r matches Some(s) ==> s is Let && final(state).measure() < old(state).measure(),
    decreases old(state).measure(), 21int,
{
    let ghost s0 = *state;
    state.advance();
    let ghost s1 = *state;
    let pattern = parse_pattern(state);
    let ghost s2 = *state;
    proof {
        lemma_moved_on_trans(s0, s1, s2);
    }
    let pattern = match pattern {
        Some(pattern) => pattern,
        None => return None,
    };
    let ty = if state.next_token_raw() == RawToken::Punctuator(Punctuator::Colon) {
        state.advance();
        let ghost s3 = *state;
        let ty = parse_type(state);
        proof {
            lemma_moved_on_trans(s0, s2, s3);
            lemma_moved_on_trans(s0, s3, *state);
        }
        match ty {
            Some(ty) => Some(ty),
            None => return None,
        }
    } else {
        None
    };
    let ghost s4 = *state;
    let eq = state.consume(RawToken::Punctuator(Punctuator::Eq));
    let ghost s5 = *state;
    proof {
        lemma_moved_on_trans(s0, s4, s5);
        state.lemma_measure_nonneg();
    }
    if eq.is_none() {
        return None;
    }
    let value = parse_expression(state, ExpressionParser::new());
    let ghost s6 = *state;
    proof {
        lemma_moved_on_trans(s0, s5, s6);
    }
    let value = match value {
        Some(value) => value,
        None => return None,
    };
    let semicolon = state.consume(RawToken::Punctuator(Punctuator::Semicolon));
    proof {
        lemma_moved_on_trans(s0, s6, *state);
    }
    match semicolon {
        Some(()) => Some(Statement::Let { pattern, value, ty }),
        None => None,
    }
}

/// Parses `continue;` or `break;`, located at the keyword.
fn parse_jump_statement(state: &mut ParseState) -> (r: Option<Statement>)
    requires
        old(state).wf(),
        old(state).next().raw == RawToken::Keyword(Keyword::Continue) || old(state).next().raw
            == RawToken::Keyword(Keyword::Break),
    ensures
        final(state).wf(),
        moved_on(*old(state), *final(state)),
        r is None ==> failure_reported(*old(state), *final(state)),
        r is Some <==> second_token(*old(state)).raw == RawToken::Punctuator(Punctuator::Semicolon),
        r matches Some(s) ==> statement_fits_first_token(old(state).next(), s) && final(state).measure()
            < old(state).measure(),
{
    let ghost s0 = *state;
    let is_continue = state.next_token_raw() == RawToken::Keyword(Keyword::Continue);
    state.advance();
    let ghost s1 = *state;
    let location = state.current_location();
    let semicolon = state.consume(RawToken::Punctuator(Punctuator::Semicolon));
    proof {
        lemma_moved_on_trans(s0, s1, *state);
    }
    match semicolon {
        Some(()) => if is_continue {
            Some(Statement::Continue { location })
        } else {
            Some(Statement::Break { location })
        },
        None => None,
    }
}

/// Parses an expression statement: an expression in a block of
/// statements, then `;` unless it has a block. Also says whether it ends
/// the block: an expression without a block and without `;` does.
fn parse_expression_statement(state: &mut ParseState) -> (r: Option<(Statement, bool)>)
    requires
        old(state).wf(),
    ensures
        final(state).wf(),
        moved_on(*old(state), *final(state)),
        r is None ==> failure_reported(*old(state), *final(state)),
        r matches Some((s, last)) ==> (s matches Statement::Expression { has_semicolon, .. } && (last
            ==> !has_semicolon)) && final(state).measure() < old(state).measure(),
        !starts_expression(old(state).next().raw) ==> r is None && reported_unexpected(
            old(state).reported(),
            final(state).reported(),
            old(state).current().location.end,
            old(state).next(),
            expression_expectation(true),
        ),
        old(state).next().raw == RawToken::Identifier && rank_of(precedence_of(second_token(*old(state)).raw))
            == 0 ==> (r matches Some((Statement::Expression { expression, has_semicolon }, last))
            && expression is Identifier && (has_semicolon <==> second_token(*old(state)).raw
            == RawToken::Punctuator(Punctuator::Semicolon)) && (last <==> !has_semicolon)),
    decreases old(state).measure(), 21int,
{
    let ghost s0 = *state;
    let expression = match parse_expression(state, ExpressionParser::new().in_statements_block()) {
        Some(expression) => expression,
        None => return None,
    };
    if expression.with_block() {
        Some((Statement::Expression { expression, has_semicolon: false }, false))
    } else if state.next_token_raw() == RawToken::Punctuator(Punctuator::Semicolon) {
        let ghost s1 = *state;
        state.advance();
        proof {
            lemma_moved_on_trans(s0, s1, *state);
        }
        Some((Statement::Expression { expression, has_semicolon: true }, false))
    } else {
        Some((Statement::Expression { expression, has_semicolon: false }, true))
    }
}

/// Parses a statement, and says whether it ends the block it stands in:
/// only an expression without a block and without `;` does.
pub fn parse_statement(state: &mut ParseState) -> (r: Option<(Statement, bool)>)
    requires
        old(state).wf(),
    ensures
        final(state).wf(),
        moved_on(*old(state), *final(state)),
        r is None ==> failure_reported(*old(state), *final(state)),
        r matches Some((s, last)) ==> statement_fits_first_token(old(state).next(), s) && (last ==> (
        s matches Statement::Expression { has_semicolon, .. } && !has_semicolon)) && final(state).measure() < old(state).measure(),
        old(state).next().raw == RawToken::Identifier && rank_of(precedence_of(second_token(*old(state)).raw))
            == 0 ==> (r matches Some((Statement::Expression { expression, has_semicolon }, last))
            && expression is Identifier && (has_semicolon <==> second_token(*old(state)).raw
            == RawToken::Punctuator(Punctuator::Semicolon)) && (last <==> !has_semicolon)),
    decreases old(state).measure(), 22int,
{
    let raw = state.next_token_raw();
    if raw == RawToken::Keyword(Keyword::Return) {
        match parse_return_statement(state) {
            Some(s) => Some((s, false)),
            None => None,
        }
    } else if raw == RawToken::Keyword(Keyword::Defer) {
        match parse_defer_statement(state) {
            Some(s) => Some((s, false)),
            None => None,
        }
    } else if raw == RawToken::Keyword(Keyword::Let) {
        match parse_let_statement(state) {
            Some(s) => Some((s, false)),
            None => None,
        }
    } else if raw == RawToken::Keyword(Keyword::Continue) || raw == RawToken::Keyword(Keyword::Break) {
        match parse_jump_statement(state) {
            Some(s) => Some((s, false)),
            None => None,
        }
    } else {
        parse_expression_statement(state)
    }
}

/// Parses a block of statements: `{`, statements, and `}`. Stray `;` are
/// skipped, and an expression without `;` ends the block. An end of file
/// where a statement or `}` should be is reported.
pub fn parse_statements_block(state: &mut ParseState) -> (r: Option<Vec<Statement>>)
    requires
        old(state).wf(),
    ensures
        final(state).wf(),
        moved_on(*old(state), *final(state)),
        r is None ==> failure_reported(*old(state), *final(state)),
        r is Some ==> old(state).next().raw == RawToken::Punctuator(Punctuator::OpenBrace)
            && final(state).current().raw == RawToken::Punctuator(Punctuator::CloseBrace) && final(state).measure() < old(state).measure(),
        old(state).next().raw != RawToken::Punctuator(Punctuator::OpenBrace) && !(old(state).next().raw is Error) ==> r is None && same_place(*old(state), *final(state))
            && reported_unexpected(
            old(state).reported(),
            final(state).reported(),
            old(state).current().location.end,
            old(state).next(),
            raw_token_text(RawToken::Punctuator(Punctuator::OpenBrace)),
        ),
        old(state).next().raw == RawToken::Punctuator(Punctuator::OpenBrace) && second_token(
            *old(state),
        ).raw == RawToken::Punctuator(Punctuator::CloseBrace) ==> (r matches Some(block)
            && block@.len() == 0 && final(state).next_from() == later_start(*old(state), 1)),
    decreases old(state).measure(), 17int,
{
    let ghost s0 = *state;
    if state.consume(RawToken::Punctuator(Punctuator::OpenBrace)).is_none() {
        return None;
    }
    let mut block: Vec<Statement> = Vec::new();
    loop
        invariant
            state.wf(),
            s0 == *old(state),
            moved_on(s0, *state),
            state.measure() < s0.measure(),
            s0.next().raw == RawToken::Punctuator(Punctuator::OpenBrace),
            second_token(s0).raw == RawToken::Punctuator(Punctuator::CloseBrace) ==> advanced(s0, *state)
                && block@.len() == 0,
        ensures
            state.wf(),
            moved_on(s0, *state),
            state.measure() < s0.measure(),
            second_token(s0).raw == RawToken::Punctuator(Punctuator::CloseBrace) ==> state.next().raw
                == RawToken::Punctuator(Punctuator::CloseBrace) && block@.len() == 0 && advanced(s0, *state),
        decreases state.measure(),
    {
        let raw = state.next_token_raw();
        if raw == RawToken::Punctuator(Punctuator::CloseBrace) {
            break;
        }
        if raw == RawToken::EndOfFile {
            let ghost before = *state;
            state.report_unexpected(
                String::from_str(raw_token_str(RawToken::Punctuator(Punctuator::CloseBrace))),
            );
            proof {
                lemma_moved_on_trans(s0, before, *state);
            }
            return None;
        }
        let ghost before = *state;
        proof {
            state.lemma_measure_nonneg();
        }
        if raw == RawToken::Punctuator(Punctuator::Semicolon) {
            state.advance();
            proof {
                lemma_moved_on_trans(s0, before, *state);
                state.lemma_measure_nonneg();
            }
            continue;
        }
        let statement = parse_statement(state);
        proof {
            lemma_moved_on_trans(s0, before, *state);
        }
        match statement {
            Some((statement, last)) => {
                block.push(statement);
                if last {
                    break;
                }
            },
            None => return None,
        }
        proof {
            state.lemma_measure_nonneg();
        }
    }
    let ghost before = *state;
    proof {
        if second_token(s0).raw == RawToken::Punctuator(Punctuator::CloseBrace) {
            lemma_later_after_advance(s0, before, 0);
        }
    }
    let closed = state.consume(RawToken::Punctuator(Punctuator::CloseBrace));
    proof {
        lemma_moved_on_trans(s0, before, *state);
    }
    match closed {
        Some(()) => Some(block),
        None => None,
    }
}

} // verus!
