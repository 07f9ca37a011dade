//! The parser: from the source of a module, or of one expression,
//! statement, type, pattern or item, to its syntax tree, with the
//! diagnostics of what went wrong.

use vstd::prelude::*;
use vstd::string::*;

pub mod state;
pub mod types;
pub mod literal;
pub mod pattern;
pub mod operators;
pub mod expression;
pub mod items;

use self::expression::{begins_at, starts_expression, statement_fits_first_token};
use self::operators::{binary_operator_of, precedence_of, rank_of};
use self::state::{failure_reported, lexes_an_error, second_token, token_from, ParseState};
use self::items::{kinds_lead, leading_items};
use self::types::{lemma_moved_on_trans, moved_on};
use crate::ast::{Expression, IdentifierAST, Module, ModuleItem, Pattern, Precedence, Statement, Type};
use crate::database::{ModuleData, ModuleId, PackageId, Path, State};
use crate::diagnostics::Diagnostics;
use crate::interner::{IdentifierId, IdentifierInterner, PathId};
use crate::lexer::{has_no_stuck_chars, lex_no_comments, no_stuck_chars};
use crate::token::Token;
use crate::diagnostic::{Diagnostic, Label, LabelStyle, Severity};
use crate::diagnostics::BuildDiagnostic;
use crate::location::Location;

verus! {

/// Parser for Stellar expressions: the settings it parses with.
#[derive(Debug, Clone, Copy, PartialEq, Eq, Default, Structural)]
pub struct ExpressionParser {
    in_statements_block: bool,
    precedence: Precedence,
    prohibit_struct_expressions: bool,
}

impl ExpressionParser {
    /// The expression stands in a statements block.
    pub closed spec fn is_in_statements_block(self) -> bool {
        self.in_statements_block
    }

    /// The lowest precedence of the operators it parses.
    pub closed spec fn precedence_of(self) -> Precedence {
        self.precedence
    }

    /// Struct expressions are not allowed.
    pub closed spec fn prohibits_struct_expressions(self) -> bool {
        self.prohibit_struct_expressions
    }

    /// Creates a parser for expressions with lowest precedence.
    pub fn new() -> (r: Self)
        ensures
            !r.is_in_statements_block(),
            r.precedence_of() == Precedence::Lowest,
            !r.prohibits_struct_expressions(),
    {
        ExpressionParser {
            in_statements_block: false,
            precedence: Precedence::Lowest,
            prohibit_struct_expressions: false,
        }
    }

    /// Creates a parser for expressions with specified precedence.
    pub fn with_precedence(self, precedence: Precedence) -> (r: Self)
        ensures
            r.is_in_statements_block() == self.is_in_statements_block(),
            r.precedence_of() == precedence,
            r.prohibits_struct_expressions() == self.prohibits_struct_expressions(),
    {
        ExpressionParser { precedence, ..self }
    }

    /// Creates a parser for expressions, that disallows struct expressions.
    pub fn prohibit_struct_expressions(self) -> (r: Self)
        ensures
            r.is_in_statements_block() == self.is_in_statements_block(),
            r.precedence_of() == self.precedence_of(),
            r.prohibits_struct_expressions(),
    {
        ExpressionParser { prohibit_struct_expressions: true, ..self }
    }

    /// Creates a parser for expressions, that disallows struct expressions if
    /// condition is satisfied (and allows them otherwise).
    pub fn prohibit_struct_expressions_if(self, condition: bool) -> (r: Self)
        ensures
            r.is_in_statements_block() == self.is_in_statements_block(),
            r.precedence_of() == self.precedence_of(),
            r.prohibits_struct_expressions() == condition,
    {
        ExpressionParser { prohibit_struct_expressions: condition, ..self }
    }

    /// Returns the lowest precedence of the operators it parses.
    pub fn precedence(self) -> (r: Precedence)
        ensures
            r == self.precedence_of(),
    {
        self.precedence
    }

    /// Whether the expression stands in a statements block.
    pub fn is_in_block(self) -> (r: bool)
        ensures
            r == self.is_in_statements_block(),
    {
        self.in_statements_block
    }

    /// Whether struct expressions are not allowed.
    pub fn struct_expressions_prohibited(self) -> (r: bool)
        ensures
            r == self.prohibits_struct_expressions(),
    {
        self.prohibit_struct_expressions
    }

    /// Creates a parser for expressions, that prints diagnostics specific
    /// to statements blocks.
    pub fn in_statements_block(self) -> (r: Self)
        ensures
            r.is_in_statements_block(),
            r.precedence_of() == self.precedence_of(),
            r.prohibits_struct_expressions() == self.prohibits_struct_expressions(),
    {
        ExpressionParser { in_statements_block: true, ..self }
    }
}

/// A structure returned by every module parsing function.
#[derive(Debug)]
pub struct ParsedModule {
    module: ModuleId,
    ast: Module,
}

impl ParsedModule {
    /// The ID of the module in the database.
    pub closed spec fn module_id(&self) -> ModuleId {
        self.module
    }

    /// The syntax tree of the module.
    pub closed spec fn syntax(&self) -> Module {
        self.ast
    }

    /// Creates a new instance of [`ParsedModule`].
    pub fn new(module_id: ModuleId, ast: Module) -> (r: Self)
        ensures
            r.module_id() == module_id,
            r.syntax() == ast,
    {
        ParsedModule { module: module_id, ast }
    }

    /// Returns the module AST.
    pub fn ast(&self) -> (r: &Module)
        ensures
            *r == self.syntax(),
    {
        &self.ast
    }

    /// Returns the ID of the module in database.
    pub fn module(&self) -> (r: ModuleId)
        ensures
            r == self.module_id(),
    {
        self.module
    }

    /// Returns the module AST.
    pub fn into_ast(self) -> (r: Module)
        ensures
            r == self.syntax(),
    {
        self.ast
    }

    /// Returns the module AST, to change it.
    pub fn ast_mut(&mut self) -> (r: &mut Module)
        ensures
            *r == old(self).syntax(),
            final(self).syntax() == *final(r),
            final(self).module_id() == old(self).module_id(),
    {
        &mut self.ast
    }
}

/// Context in which the unnecessary visibility qualifier error is found.
#[derive(Debug, Clone, Copy, PartialEq, Eq, Structural)]
pub enum UnnecessaryVisibilityQualifierContext {
    /// `pub` on an interface method; with the location of the method name.
    InterfaceMethod { name_location: Location },
    /// `pub` on an import.
    Import,
}

/// Diagnostic related to an unnecessary visibility qualifier error.
#[derive(Debug, Clone, Copy, PartialEq, Eq, Structural)]
pub struct UnnecessaryVisibilityQualifierDiagnostic {
    /// Location of `pub`.
    pub location: Location,
    /// Context in which the error is found.
    pub context: UnnecessaryVisibilityQualifierContext,
}

/// `l` is a label with the given style, location and message.
pub open spec fn is_label(l: Label, style: LabelStyle, location: Location, message: Seq<char>) -> bool {
    l.style == style && l.location == location && l.message@ == message
}

impl BuildDiagnostic for UnnecessaryVisibilityQualifierDiagnostic {
    /// An `E004` error with a primary label at `pub`, a secondary label at
    /// the method name for an interface method, and notes that say why.
    open spec fn describes(&self, d: Diagnostic) -> bool {
        &&& d.severity == Severity::Error
        &&& d.code matches Some(c) && c@ == "E004"@
        &&& d.message@ == "unnecessary visibility qualifier"@
        &&& d.labels@.len() >= 1
        &&& is_label(d.labels@[0], LabelStyle::Primary, self.location, "consider removing this `pub`"@)
        &&& match self.context {
            UnnecessaryVisibilityQualifierContext::InterfaceMethod { name_location } => {
                &&& d.labels@.len() == 2
                &&& is_label(
                    d.labels@[1],
                    LabelStyle::Secondary,
                    name_location,
                    "happened when analyzing the interface method"@,
                )
                &&& d.notes@.len() == 2
                &&& d.notes@[0]@ == "note: using `pub` for interface method will not make the method public"@
                &&& d.notes@[1]@ == "note: all interface methods are public by default"@
            },
            UnnecessaryVisibilityQualifierContext::Import => {
                &&& d.labels@.len() == 1
                &&& d.notes@.len() == 1
                &&& d.notes@[0]@ == "note: using `pub` will not make the import public."@
            },
        }
    }

    fn build(self) -> (r: Diagnostic) {
        let mut labels: Vec<Label> = Vec::new();
        labels.push(
            Label::primary(self.location).with_message(
                String::from_str("consider removing this `pub`"),
            ),
        );
        let mut notes: Vec<String> = Vec::new();
        match self.context {
            UnnecessaryVisibilityQualifierContext::InterfaceMethod { name_location } => {
                labels.push(
                    Label::secondary(name_location).with_message(
                        String::from_str("happened when analyzing the interface method"),
                    ),
                );
                notes.push(
                    String::from_str(
                        "note: using `pub` for interface method will not make the method public",
                    ),
                );
                notes.push(String::from_str("note: all interface methods are public by default"));
            },
            UnnecessaryVisibilityQualifierContext::Import => {
                notes.push(String::from_str("note: using `pub` will not make the import public."));
            },
        }
        Diagnostic::error().with_message(String::from_str("unnecessary visibility qualifier")).with_code(
            String::from_str("E004"),
        ).with_labels(labels).with_notes(notes)
    }
}

/// The first token of a source, where parsing it starts.
pub open spec fn first_token(filepath: PathId, source: Seq<char>) -> Token {
    lex_no_comments(filepath, source, 0).0
}

/// The token of a source after its first one.
pub open spec fn token_after_first(filepath: PathId, source: Seq<char>) -> Token {
    lex_no_comments(filepath, source, lex_no_comments(filepath, source, 0).1).0
}

/// An expression that is one binary operation between two identifiers: an
/// identifier, a binary operator, an identifier, then a token that is no
/// operator and opens nothing that would continue the expression.
pub open spec fn lone_binary(filepath: PathId, source: Seq<char>) -> bool {
    &&& items::raw_at(filepath, source, 0, 0) == crate::token::RawToken::Identifier
    &&& binary_operator_of(items::raw_at(filepath, source, 0, 1)) is Some
    &&& 0 < rank_of(precedence_of(items::raw_at(filepath, source, 0, 1)))
    &&& items::raw_at(filepath, source, 0, 2) == crate::token::RawToken::Identifier
    &&& rank_of(precedence_of(items::raw_at(filepath, source, 0, 3))) == 0
}

/// An expression that is one identifier: the first token of `source` is an
/// identifier, and the token after it is no operator and opens nothing that
/// would continue the expression.
pub open spec fn lone_identifier(filepath: PathId, source: Seq<char>) -> bool {
    &&& first_token(filepath, source).raw == crate::token::RawToken::Identifier
    &&& rank_of(precedence_of(token_after_first(filepath, source).raw)) == 0
}

/// Sets up the parsing of a source, which takes the diagnostics and the
/// identifiers over. Reading the source first establishes that the lexer
/// moves forward on every character of it.
fn begin<'s>(
    filepath: PathId,
    source: &'s str,
    diagnostics: &mut Diagnostics,
    identifiers: &mut IdentifierInterner,
) -> (s: ParseState<'s>)
    requires
        old(diagnostics).wf(),
        old(identifiers).wf(),
        source.spec_bytes().len() + 2 < usize::MAX,
        old(identifiers).view().len() + source@.len() + 4 < usize::MAX,
    ensures
        no_stuck_chars(source@),
        s.wf() && s.text() == source@ && s.file() == filepath && s.next() == first_token(
            filepath,
            source@,
        ) && s.next_from() == 0 && old(diagnostics).diagnostics@.is_prefix_of(s.reported()),
{
    let readable = has_no_stuck_chars(source);
    assert(readable);
    let mut taken_diagnostics = Diagnostics::new();
    std::mem::swap(&mut taken_diagnostics, diagnostics);
    let mut taken_identifiers = IdentifierInterner::new();
    std::mem::swap(&mut taken_identifiers, identifiers);
    let state = ParseState::new(filepath, source, taken_diagnostics, taken_identifiers);
    proof {
        let before = taken_diagnostics.diagnostics@;
        let after = state.reported();
        if after != before {
            assert(after.subrange(0, before.len() as int) =~= after.drop_last());
        }
    }
    state
}

/// Ends the parsing of a source: gives the diagnostics and the identifiers
/// back.
fn end(state: ParseState, diagnostics: &mut Diagnostics, identifiers: &mut IdentifierInterner)
    requires
        state.wf(),
    ensures
        final(diagnostics).diagnostics@ == state.reported(),
        final(diagnostics).wf(),
        final(identifiers).wf(),
{
    let (d, i) = state.finish();
    *diagnostics = d;
    *identifiers = i;
}

/// Parses an expression from the source, reporting what goes wrong in
/// `diagnostics`; identifiers are interned in `identifiers`. A lone
/// identifier gives an identifier expression, and two identifiers around a
/// binary operator give that binary expression. Identifiers and binary
/// operators alone give the tree that [`expression::operators_at`] reads:
/// tighter operators group first, and those of one precedence group to
/// the left.
pub fn parse_expression(
    filepath: PathId,
    source: &str,
    diagnostics: &mut Diagnostics,
    identifiers: &mut IdentifierInterner,
) -> (r: Option<Expression>)
    requires
        old(diagnostics).wf(),
        old(identifiers).wf(),
        source.spec_bytes().len() + 2 < usize::MAX,
        old(identifiers).view().len() + source@.len() + 4 < usize::MAX,
    ensures
        final(diagnostics).wf(),
        final(identifiers).wf(),
        old(diagnostics).diagnostics@.is_prefix_of(final(diagnostics).diagnostics@),
        no_stuck_chars(source@),
        r matches Some(e) ==> e.location_of().start == first_token(filepath, source@).location.start,
        !starts_expression(first_token(filepath, source@).raw) ==> r is None,
        lone_identifier(filepath, source@) ==> (r matches Some(Expression::Identifier(identifier))
            && identifier.location == first_token(filepath, source@).location),
        expression::operators_at(filepath, source@, 0, 0) matches Some((tree, _)) ==> (r matches Some(x)
            && expression::operator_tree(x) == Some(tree)),
        lone_binary(filepath, source@) ==> (r matches Some(Expression::Binary { left, right, operator, .. })
            && *left is Identifier && *right is Identifier && Some(operator.raw) == binary_operator_of(
            items::raw_at(filepath, source@, 0, 1),
        )),
        r is None ==> final(diagnostics).diagnostics@.len() > old(
            diagnostics,
        ).diagnostics@.len() || lexes_an_error(filepath, source@),
{
    let mut state = begin(filepath, source, diagnostics, identifiers);
    let ghost s0 = state;
    proof {
        s0.lemma_next_from();
        items::lemma_later_tokens(s0, 0);
        items::lemma_later_tokens(s0, 1);
        items::lemma_later_tokens(s0, 2);
    }
    let r = parse_expression_using(&mut state);
    proof {
        state.lemma_next_is_lexed();
    }
    proof {
        assert(old(diagnostics).diagnostics@.is_prefix_of(state.reported())) by {
            let a = old(diagnostics).diagnostics@;
            assert(state.reported().subrange(0, a.len() as int) =~= s0.reported().subrange(0, a.len() as int));
        }
    }
    end(state, diagnostics, identifiers);
    r
}

/// Parses an expression with the lowest precedence.
pub fn parse_expression_using(state: &mut ParseState) -> (r: Option<Expression>)
    requires
        old(state).wf(),
    ensures
        final(state).wf(),
        moved_on(*old(state), *final(state)),
        r is None ==> failure_reported(*old(state), *final(state)),
        r matches Some(e) ==> begins_at(e.location_of(), *old(state), *final(state)),
        !starts_expression(old(state).next().raw) ==> r is None,
        old(state).next().raw == crate::token::RawToken::Identifier && rank_of(
            precedence_of(second_token(*old(state)).raw),
        ) == 0 ==> r == Some(
            Expression::Identifier(
                IdentifierAST { location: old(state).next().location, id: old(state).last_identifier() },
            ),
        ),
        expression::operators_at(old(state).file(), old(state).text(), old(state).next_from(), 0) matches Some(
            (tree, e),
        ) ==> (r matches Some(x) && expression::operator_tree(x) == Some(tree) && final(state).next_from()
            == e),
        expression::one_binary(*old(state), 0) ==> (r matches Some(
            Expression::Binary { left, right, operator, .. },
        ) && *left is Identifier && *right is Identifier && Some(operator.raw) == binary_operator_of(
            state::later_token(*old(state), 1).raw,
        )),
{
    expression::parse_expression(state, ExpressionParser::new())
}

/// Parses a statement from the source, as [`parse_expression`] does an
/// expression.
pub fn parse_statement(
    filepath: PathId,
    source: &str,
    diagnostics: &mut Diagnostics,
    identifiers: &mut IdentifierInterner,
) -> (r: Option<Statement>)
    requires
        old(diagnostics).wf(),
        old(identifiers).wf(),
        source.spec_bytes().len() + 2 < usize::MAX,
        old(identifiers).view().len() + source@.len() + 4 < usize::MAX,
    ensures
        final(diagnostics).wf(),
        final(identifiers).wf(),
        old(diagnostics).diagnostics@.is_prefix_of(final(diagnostics).diagnostics@),
        no_stuck_chars(source@),
        r matches Some(s) ==> statement_fits_first_token(first_token(filepath, source@), s),
        lone_identifier(filepath, source@) ==> (r matches Some(Statement::Expression { expression, has_semicolon })
            && expression is Identifier && (has_semicolon <==> token_after_first(filepath, source@).raw
            == crate::token::RawToken::Punctuator(crate::token::Punctuator::Semicolon))),
        r is None ==> final(diagnostics).diagnostics@.len() > old(
            diagnostics,
        ).diagnostics@.len() || lexes_an_error(filepath, source@),
{
    let mut state = begin(filepath, source, diagnostics, identifiers);
    let ghost s0 = state;
    proof {
        s0.lemma_next_from();
    }
    let r = parse_statement_using(&mut state);
    proof {
        state.lemma_next_is_lexed();
    }
    proof {
        assert(old(diagnostics).diagnostics@.is_prefix_of(state.reported())) by {
            let a = old(diagnostics).diagnostics@;
            assert(state.reported().subrange(0, a.len() as int) =~= s0.reported().subrange(0, a.len() as int));
        }
    }
    end(state, diagnostics, identifiers);
    r
}

/// Parses a statement.
pub fn parse_statement_using(state: &mut ParseState) -> (r: Option<Statement>)
    requires
        old(state).wf(),
    ensures
        final(state).wf(),
        moved_on(*old(state), *final(state)),
        r is None ==> failure_reported(*old(state), *final(state)),
        r matches Some(s) ==> statement_fits_first_token(old(state).next(), s) && final(state).measure()
            < old(state).measure(),
        old(state).next().raw == crate::token::RawToken::Identifier && rank_of(
            precedence_of(second_token(*old(state)).raw),
        ) == 0 ==> (r matches Some(Statement::Expression { expression, has_semicolon })
            && expression is Identifier && (has_semicolon <==> second_token(*old(state)).raw
            == crate::token::RawToken::Punctuator(crate::token::Punctuator::Semicolon))),
{
    match expression::parse_statement(state) {
        Some((statement, _)) => Some(statement),
        None => None,
    }
}

/// Parses a type from the source, as [`parse_expression`] does an
/// expression.
pub fn parse_type(
    filepath: PathId,
    source: &str,
    diagnostics: &mut Diagnostics,
    identifiers: &mut IdentifierInterner,
) -> (r: Option<Type>)
    requires
        old(diagnostics).wf(),
        old(identifiers).wf(),
        source.spec_bytes().len() + 2 < usize::MAX,
        old(identifiers).view().len() + source@.len() + 4 < usize::MAX,
    ensures
        final(diagnostics).wf(),
        final(identifiers).wf(),
        old(diagnostics).diagnostics@.is_prefix_of(final(diagnostics).diagnostics@),
        no_stuck_chars(source@),
        types::type_fits_first_token(first_token(filepath, source@).raw, r),
        r matches Some(ty) ==> ty.location_of().start == first_token(filepath, source@).location.start,
        first_token(filepath, source@).raw == crate::token::RawToken::Identifier ==> match types::path_at(
            filepath,
            source@,
            0,
        ) {
            Some((e, n)) => token_from(filepath, source@, e).raw != crate::token::RawToken::Punctuator(
                crate::token::Punctuator::OpenBracket,
            ) ==> (r matches Some(Type::Constructor(c)) && c.path.identifiers@.len() == n
                && c.arguments@.len() == 0),
            None => r is None,
        },
        types::type_constructor_at(filepath, source@, 0) matches Some((_, k, n)) ==> (r matches Some(
            Type::Constructor(c),
        ) && c.path.identifiers@.len() == k && c.arguments@.len() == n),
        r is None ==> final(diagnostics).diagnostics@.len() > old(
            diagnostics,
        ).diagnostics@.len() || lexes_an_error(filepath, source@),
{
    let mut state = begin(filepath, source, diagnostics, identifiers);
    let ghost s0 = state;
    let r = parse_type_using(&mut state);
    proof {
        state.lemma_next_is_lexed();
    }
    proof {
        assert(old(diagnostics).diagnostics@.is_prefix_of(state.reported())) by {
            let a = old(diagnostics).diagnostics@;
            assert(state.reported().subrange(0, a.len() as int) =~= s0.reported().subrange(0, a.len() as int));
        }
    }
    end(state, diagnostics, identifiers);
    r
}

/// Parses a type.
pub fn parse_type_using(state: &mut ParseState) -> (r: Option<Type>)
    requires
        old(state).wf(),
    ensures
        final(state).wf(),
        moved_on(*old(state), *final(state)),
        r is None ==> failure_reported(*old(state), *final(state)),
        r matches Some(ty) ==> types::spans(ty.location_of(), *old(state), *final(state)),
        types::type_fits_first_token(old(state).next().raw, r),
        old(state).next().raw == crate::token::RawToken::Identifier ==> match types::path_at(
            old(state).file(),
            old(state).text(),
            old(state).next_from(),
        ) {
            Some((e, n)) => token_from(old(state).file(), old(state).text(), e).raw
                != crate::token::RawToken::Punctuator(crate::token::Punctuator::OpenBracket) ==> (r matches Some(
                Type::Constructor(c),
            ) && c.path.identifiers@.len() == n && c.arguments@.len() == 0 && final(state).next_from()
                == e),
            None => r is None,
        },
        types::type_constructor_at(old(state).file(), old(state).text(), old(state).next_from()) matches Some(
            (e, k, n),
        ) ==> (r matches Some(Type::Constructor(c)) && c.path.identifiers@.len() == k && c.arguments@.len()
            == n && final(state).next_from() == e),
{
    types::parse_type(state)
}

/// Parses a pattern from the source, as [`parse_expression`] does an
/// expression.
pub fn parse_pattern(
    filepath: PathId,
    source: &str,
    diagnostics: &mut Diagnostics,
    identifiers: &mut IdentifierInterner,
) -> (r: Option<Pattern>)
    requires
        old(diagnostics).wf(),
        old(identifiers).wf(),
        source.spec_bytes().len() + 2 < usize::MAX,
        old(identifiers).view().len() + source@.len() + 4 < usize::MAX,
    ensures
        final(diagnostics).wf(),
        final(identifiers).wf(),
        old(diagnostics).diagnostics@.is_prefix_of(final(diagnostics).diagnostics@),
        no_stuck_chars(source@),
        !pattern::starts_pattern(first_token(filepath, source@).raw) ==> r is None,
        first_token(filepath, source@).raw == crate::token::RawToken::Identifier ==> exists|resume: int|
            pattern::path_pattern_follows(filepath, source@, 0, r, resume),
        r is None ==> final(diagnostics).diagnostics@.len() > old(
            diagnostics,
        ).diagnostics@.len() || lexes_an_error(filepath, source@),
{
    let mut state = begin(filepath, source, diagnostics, identifiers);
    let ghost s0 = state;
    let r = parse_pattern_using(&mut state);
    proof {
        if first_token(filepath, source@).raw == crate::token::RawToken::Identifier {
            assert(pattern::path_pattern_follows(filepath, source@, 0, r, state.next_from()));
        }
    }
    proof {
        state.lemma_next_is_lexed();
    }
    proof {
        assert(old(diagnostics).diagnostics@.is_prefix_of(state.reported())) by {
            let a = old(diagnostics).diagnostics@;
            assert(state.reported().subrange(0, a.len() as int) =~= s0.reported().subrange(0, a.len() as int));
        }
    }
    end(state, diagnostics, identifiers);
    r
}

/// Parses a pattern.
pub fn parse_pattern_using(state: &mut ParseState) -> (r: Option<Pattern>)
    requires
        old(state).wf(),
    ensures
        final(state).wf(),
        moved_on(*old(state), *final(state)),
        r is None ==> failure_reported(*old(state), *final(state)),
        r matches Some(p) ==> pattern::parsed_pattern(p, *old(state), *final(state), true),
        !pattern::starts_pattern(old(state).next().raw) ==> r is None,
        old(state).next().raw == crate::token::RawToken::Identifier ==> pattern::path_pattern_follows(
            old(state).file(),
            old(state).text(),
            old(state).next_from(),
            r,
            final(state).next_from(),
        ),
{
    pattern::parse_pattern(state)
}

/// Parses a module item from the source, as [`parse_expression`] does an
/// expression.
pub fn parse_item(
    filepath: PathId,
    source: &str,
    diagnostics: &mut Diagnostics,
    identifiers: &mut IdentifierInterner,
) -> (r: Option<ModuleItem>)
    requires
        old(diagnostics).wf(),
        old(identifiers).wf(),
        source.spec_bytes().len() + 2 < usize::MAX,
        old(identifiers).view().len() + source@.len() + 4 < usize::MAX,
    ensures
        final(diagnostics).wf(),
        final(identifiers).wf(),
        old(diagnostics).diagnostics@.is_prefix_of(final(diagnostics).diagnostics@),
        no_stuck_chars(source@),
        items::item_fits_first_token(first_token(filepath, source@).raw, r),
        first_token(filepath, source@).raw == crate::token::RawToken::Keyword(crate::token::Keyword::Import)
            ==> (items::import_item_at(filepath, source@, 0) is Some <==> r matches Some(
            ModuleItem::Import { .. },
        )),
        first_token(filepath, source@).raw == crate::token::RawToken::Keyword(crate::token::Keyword::Struct)
            ==> items::struct_fields_follow(filepath, source@, 0, r),
        items::struct_at(filepath, source@, 0) matches Some((_, n, m)) ==> (r matches Some(ModuleItem::Struct(st))
            && st.fields@.len() == n && st.methods@.len() == m),
        match items::plain_alias_at(filepath, source@, 0) {
            Some(n) => r matches Some(ModuleItem::TypeAlias(alias)) && (alias.value matches Type::Constructor(
                c,
            ) && c.path.identifiers@.len() == n),
            None => true,
        },
        items::function_at(filepath, source@, 0) matches Some((_, n, has_return, has_body)) ==> (r matches Some(
            ModuleItem::Function(function),
        ) && function.signature.parameters@.len() == n && (function.signature.return_type is Some
            <==> has_return) && (function.body is Some <==> has_body)),
        r is None ==> final(diagnostics).diagnostics@.len() > old(
            diagnostics,
        ).diagnostics@.len() || lexes_an_error(filepath, source@),
{
    let mut state = begin(filepath, source, diagnostics, identifiers);
    let ghost s0 = state;
    let r = parse_item_using(&mut state);
    proof {
        state.lemma_next_is_lexed();
    }
    proof {
        assert(old(diagnostics).diagnostics@.is_prefix_of(state.reported())) by {
            let a = old(diagnostics).diagnostics@;
            assert(state.reported().subrange(0, a.len() as int) =~= s0.reported().subrange(0, a.len() as int));
        }
    }
    end(state, diagnostics, identifiers);
    r
}

/// Parses a module item.
pub fn parse_item_using(state: &mut ParseState) -> (r: Option<ModuleItem>)
    requires
        old(state).wf(),
    ensures
        final(state).wf(),
        moved_on(*old(state), *final(state)),
        r is None ==> failure_reported(*old(state), *final(state)),
        old(state).next().raw != crate::token::RawToken::EndOfFile ==> final(state).measure() < old(
            state,
        ).measure(),
        items::item_fits_first_token(old(state).next().raw, r),
        old(state).next().raw == crate::token::RawToken::Keyword(crate::token::Keyword::Import) ==> match items::import_item_at(
            old(state).file(),
            old(state).text(),
            old(state).next_from(),
        ) {
            Some(e) => r matches Some(item) && item is Import && final(state).next_from() == e,
            None => r is None,
        },
        old(state).next().raw == crate::token::RawToken::Keyword(crate::token::Keyword::Struct)
            ==> items::struct_fields_follow(old(state).file(), old(state).text(), old(state).next_from(), r),
        items::struct_at(old(state).file(), old(state).text(), old(state).next_from()) matches Some((e, n, m)) ==> (
        r matches Some(ModuleItem::Struct(st)) && st.fields@.len() == n && st.methods@.len() == m
            && final(state).next_from() == e),
        match items::plain_alias_at(old(state).file(), old(state).text(), old(state).next_from()) {
            Some(n) => r matches Some(ModuleItem::TypeAlias(alias)) && (alias.value matches Type::Constructor(
                c,
            ) && c.path.identifiers@.len() == n),
            None => true,
        },
        items::function_at(old(state).file(), old(state).text(), old(state).next_from()) matches Some(
            (e, n, has_return, has_body),
        ) ==> (r matches Some(ModuleItem::Function(function)) && function.signature.parameters@.len() == n
            && (function.signature.return_type is Some <==> has_return) && (function.body is Some <==> has_body)
            && final(state).next_from() == e),
{
    items::parse_item(state)
}

/// Parses a whole module: its doc comment and its items, up to the end of
/// the file. The module is added to the package in the database, with its
/// name and path. Without a doc comment, the items that
/// [`items::item_at`] reads one after another where it starts are its first
/// items, in order.
pub fn parse_module_using(
    state: &mut State,
    module_name: IdentifierId,
    package: PackageId,
    path: Path,
    parse_state: &mut ParseState,
) -> (r: ParsedModule)
    requires
        old(state).db_value().has_package(package),
        old(parse_state).wf(),
    ensures
        final(parse_state).wf(),
        moved_on(*old(parse_state), *final(parse_state)),
        final(parse_state).next().raw == crate::token::RawToken::EndOfFile,
        r.syntax().filepath == old(parse_state).file(),
        r.module_id().package_of() == package,
        final(state).db_value().has_module(r.module_id()),
        final(state).db_value().module_data(r.module_id()).name == module_name,
        final(state).db_value().module_data(r.module_id()).path == path,
        final(state).db_value().module_data(r.module_id()).filepath == old(parse_state).file(),
        final(state).diagnostics_value() == old(state).diagnostics_value(),
        old(parse_state).next().raw != crate::token::RawToken::GlobalDocComment ==> kinds_lead(
            r.syntax().items@,
            leading_items(old(parse_state).file(), old(parse_state).text(), old(parse_state).next_from()),
        ),
{
    let filepath = parse_state.file_id();
    let module = ModuleData::allocate(state.db_mut(), package, module_name, path, filepath);
    let ghost s0 = *parse_state;
    let docstring = items::parse_docstring(parse_state, true);
    let ghost s1 = *parse_state;
    let items = items::parse_items(parse_state);
    proof {
        lemma_moved_on_trans(s0, s1, *parse_state);
    }
    ParsedModule::new(module, Module { filepath, docstring, items })
}

/// Parses a module from the source, as [`parse_module_using`] does; it
/// always gives the module, whose first items are those that
/// [`items::item_at`] reads one after another from the start of the source,
/// if it has no doc comment.
pub fn parse_module(
    state: &mut State,
    module_name: IdentifierId,
    package: PackageId,
    path: Path,
    filepath: PathId,
    source: &str,
    identifiers: &mut IdentifierInterner,
) -> (r: Option<ParsedModule>)
    requires
        old(state).db_value().has_package(package),
        old(state).diagnostics_value().wf(),
        old(identifiers).wf(),
        source.spec_bytes().len() + 2 < usize::MAX,
        old(identifiers).view().len() + source@.len() + 4 < usize::MAX,
    ensures
        final(identifiers).wf(),
        final(state).diagnostics_value().wf(),
        no_stuck_chars(source@),
        (r matches Some(m) && m.syntax().filepath == filepath
            && m.module_id().package_of() == package && final(state).db_value().has_module(m.module_id())
            && final(state).db_value().module_data(m.module_id()).name == module_name
            && final(state).db_value().module_data(m.module_id()).path == path
            && final(state).db_value().module_data(m.module_id()).filepath == filepath),
        old(state).diagnostics_value().diagnostics@.is_prefix_of(
            final(state).diagnostics_value().diagnostics@,
        ),
        r matches Some(m) ==> (first_token(filepath, source@).raw
            != crate::token::RawToken::GlobalDocComment ==> kinds_lead(
            m.syntax().items@,
            leading_items(filepath, source@, 0),
        )),
{
    let mut diagnostics = Diagnostics::new();
    std::mem::swap(&mut diagnostics, state.diagnostics_mut());
    let ghost d0 = diagnostics;
    let mut parse_state = begin(filepath, source, &mut diagnostics, identifiers);
    let ghost s0 = parse_state;
    let parsed = parse_module_using(state, module_name, package, path, &mut parse_state);
    proof {
        assert(d0.diagnostics@.is_prefix_of(parse_state.reported())) by {
            let a = d0.diagnostics@;
            assert(parse_state.reported().subrange(0, a.len() as int) =~= s0.reported().subrange(0, a.len() as int));
        }
    }
    end(parse_state, &mut diagnostics, identifiers);
    std::mem::swap(&mut diagnostics, state.diagnostics_mut());
    Some(parsed)
}

} // verus!
