//! # AST Lowering
//!
//! AST Lowering is the process of converting AST into HIR.
//!
//! It:
//! * removes parenthesized expressions, types and grouped patterns.
//! * converts `loop {}` into `while true {}`.
//! * converts `interface A[T]: B[T] + C` into `interface A[T] where Self: B[T] + C`.
//! * converts `fun (A, B)` into `fun (A, B): ()` (adds unit type into function return types).
//!
//! Redundant parentheses are reported as warnings: a grouped pattern
//! (`W000`), and a parenthesized expression or type (`W001`) where it is
//! nested right inside another pair of parentheses, or stands as the
//! condition of a `while` or `if`, the scrutinee of a `match`, or the
//! right-hand side of a match arm.
//!
//! The result of each lowering function is stated by a relation between
//! the AST and the HIR (`lowers_*`), and the warnings by a function of the
//! AST (`*_warnings`) that lists them in the order they are reported.

use vstd::prelude::*;

use crate::ast;
use crate::diagnostic::{Diagnostic, Label, LabelStyle, Severity};
use crate::diagnostics::{BuildDiagnostic, Diagnostics};
use crate::hir;
use crate::interner::builtin_identifiers::BIG_SELF;
use crate::interner::{IdentifierId, PathId};
use crate::location::{dummy_location, ByteOffset, Location};

verus! {

/* Warnings */

/// A warning that lowering reports about redundant parentheses.
#[derive(Debug, Clone, Copy, PartialEq, Eq, Structural)]
pub enum LoweringWarning {
    /// `W000`: a grouped pattern, e.g. `(x)` in `let (x) = 1;`.
    UnnecessaryGroupedPattern(Location),
    /// `W001`: a parenthesized expression (or type) that needs no parentheses.
    UnnecessaryParenthesizedExpression(Location),
    /// `W002`: a parenthesized type that needs no parentheses.
    UnnecessaryParenthesizedType(Location),
}

/// `d` is a warning with the given code and message, whose primary label
/// points at the first byte of `location` and whose secondary label, at its
/// last byte, suggests removing the parentheses.
pub open spec fn is_parentheses_warning(
    d: Diagnostic,
    code: Seq<char>,
    message: Seq<char>,
    location: Location,
) -> bool {
    &&& d.severity == Severity::Warning
    &&& d.code matches Some(c) && c@ == code
    &&& d.message@ == message
    &&& d.labels@.len() == 2
    &&& d.labels@[0].style == LabelStyle::Primary
    &&& d.labels@[0].location == location.start_byte_of()
    &&& d.labels@[0].message@ == Seq::<char>::empty()
    &&& d.labels@[1].style == LabelStyle::Secondary
    &&& d.labels@[1].location == location.end_byte_of()
    &&& d.labels@[1].message@ == "consider removing these parentheses"@
    &&& d.notes@.len() == 0
}

impl LoweringWarning {
    /// The location of the parentheses the warning is about.
    pub open spec fn location_of(self) -> Location {
        match self {
            LoweringWarning::UnnecessaryGroupedPattern(l) => l,
            LoweringWarning::UnnecessaryParenthesizedExpression(l) => l,
            LoweringWarning::UnnecessaryParenthesizedType(l) => l,
        }
    }
}

/// Builds a diagnostic about redundant parentheses at `location`.
fn parentheses_warning(code: &str, message: &str, location: Location) -> (r: Diagnostic)
    ensures
        is_parentheses_warning(r, code@, message@, location),
{
    let primary = Label::primary(location.start_byte_location());
    let secondary = Label::secondary(location.end_byte_location()).with_message(
        String::from_str("consider removing these parentheses"),
    );
    Diagnostic::warning().with_code(String::from_str(code)).with_message(
        String::from_str(message),
    ).with_label(primary).with_label(secondary)
}

impl BuildDiagnostic for LoweringWarning {
    open spec fn describes(&self, d: Diagnostic) -> bool {
        match *self {
            LoweringWarning::UnnecessaryGroupedPattern(l) => is_parentheses_warning(
                d,
                "W000"@,
                "unnecessary grouped pattern"@,
                l,
            ),
            LoweringWarning::UnnecessaryParenthesizedExpression(l) => is_parentheses_warning(
                d,
                "W001"@,
                "unnecessary parenthesized expression"@,
                l,
            ),
            LoweringWarning::UnnecessaryParenthesizedType(l) => is_parentheses_warning(
                d,
                "W002"@,
                "unnecessary parenthesized type"@,
                l,
            ),
        }
    }

    fn build(self) -> (r: Diagnostic) {
        match self {
            LoweringWarning::UnnecessaryGroupedPattern(l) => parentheses_warning(
                "W000",
                "unnecessary grouped pattern",
                l,
            ),
            LoweringWarning::UnnecessaryParenthesizedExpression(l) => parentheses_warning(
                "W001",
                "unnecessary parenthesized expression",
                l,
            ),
            LoweringWarning::UnnecessaryParenthesizedType(l) => parentheses_warning(
                "W002",
                "unnecessary parenthesized type",
                l,
            ),
        }
    }
}

/// The files that the warnings point into.
pub open spec fn warning_files(ws: Seq<LoweringWarning>) -> Set<PathId> {
    Set::new(|p: PathId| exists|i: int| 0 <= i < ws.len() && ws[i].location_of().filepath == p)
}

/// Going from `d0` to `d1`, exactly the diagnostics of the warnings `ws` were
/// added, in order, and the files they point into were recorded.
pub open spec fn logged(d0: Diagnostics, d1: Diagnostics, ws: Seq<LoweringWarning>) -> bool {
    &&& d1.wf()
    &&& d1.diagnostics@.len() == d0.diagnostics@.len() + ws.len()
    &&& d1.diagnostics@.take(d0.diagnostics@.len() as int) == d0.diagnostics@
    &&& forall|i: int|
        0 <= i < ws.len() ==> ws[i].describes(
            #[trigger] d1.diagnostics@[d0.diagnostics@.len() + i],
        )
    &&& d1.files() == d0.files() + warning_files(ws)
}

/// The warnings for an expression that stands where parentheses are never
/// needed: one if it is parenthesized.
pub open spec fn parenthesized_warning(e: ast::Expression) -> Seq<LoweringWarning> {
    match e {
        ast::Expression::Parenthesized { location, .. } => seq![
            LoweringWarning::UnnecessaryParenthesizedExpression(location),
        ],
        _ => Seq::empty(),
    }
}

/// The warnings for a type right inside parentheses: one if it is
/// parenthesized too.
pub open spec fn parenthesized_type_warning(t: ast::Type) -> Seq<LoweringWarning> {
    match t {
        ast::Type::Parenthesized { location, .. } => seq![
            LoweringWarning::UnnecessaryParenthesizedExpression(location),
        ],
        _ => Seq::empty(),
    }
}

/// The unit type that lowering gives a function type without a return
/// type: an empty tuple type at the dummy location.
pub open spec fn is_unit_type(h: hir::Type) -> bool {
    h matches hir::Type::Tuple { location, element_types } && location == Location {
        filepath: PathId(0),
        start: ByteOffset(0),
        end: ByteOffset(0),
    } && element_types@.len() == 0
}

/* Types */

/// `h` is the HIR of the AST type `a`: parentheses are removed and a
/// function type gets the unit type as return type where it has none.
pub open spec fn lowers_type(a: ast::Type, h: hir::Type) -> bool
    decreases a,
{
    match a {
        ast::Type::Constructor(c) => h matches hir::Type::Constructor(hc)
            && lowers_type_constructor(c, hc),
        ast::Type::Tuple { location, element_types } => {
            &&& h matches hir::Type::Tuple { location: l, element_types: es }
            &&& l == location
            &&& lowers_types(element_types@, es@)
        },
        ast::Type::Function { location, parameter_types, return_type } => {
            &&& h matches hir::Type::Function { location: l, parameter_types: ps, return_type: rt }
            &&& l == location
            &&& lowers_types(parameter_types@, ps@)
            &&& rt matches Some(b) && match return_type {
                Some(t) => lowers_type(*t, *b),
                None => is_unit_type(*b),
            }
        },
        ast::Type::Parenthesized { inner, .. } => lowers_type(*inner, h),
        ast::Type::Underscore { location } => h == hir::Type::Underscore { location },
        ast::Type::InterfaceObject { location, bounds } => {
            &&& h matches hir::Type::InterfaceObject { location: l, bounds: bs }
            &&& l == location
            &&& lowers_type_constructors(bounds@, bs@)
        },
    }
}

/// The warnings that lowering the AST type `a` gives.
pub open spec fn type_warnings(a: ast::Type) -> Seq<LoweringWarning>
    decreases a,
{
    match a {
        ast::Type::Constructor(c) => type_constructor_warnings(c),
        ast::Type::Tuple { element_types, .. } => types_warnings(element_types@),
        ast::Type::Function { parameter_types, return_type, .. } => types_warnings(
            parameter_types@,
        ) + match return_type {
            Some(t) => type_warnings(*t),
            None => Seq::empty(),
        },
        ast::Type::Parenthesized { inner, .. } => parenthesized_type_warning(*inner) + type_warnings(
            *inner,
        ),
        ast::Type::Underscore { .. } => Seq::empty(),
        ast::Type::InterfaceObject { bounds, .. } => type_constructors_warnings(bounds@),
    }
}

/// `h` is the HIR of the AST type constructor `a`.
pub open spec fn lowers_type_constructor(a: ast::TypeConstructor, h: hir::TypeConstructor) -> bool
    decreases a,
{
    &&& h.location == a.location
    &&& h.path == a.path
    &&& lowers_types(a.arguments@, h.arguments@)
}

/// The warnings that lowering the AST type constructor `a` gives.
pub open spec fn type_constructor_warnings(a: ast::TypeConstructor) -> Seq<LoweringWarning>
    decreases a,
{
    types_warnings(a.arguments@)
}

/// `h` is the HIR of an optional AST type.
pub open spec fn lowers_optional_type(a: Option<ast::Type>, h: Option<hir::Type>) -> bool
    decreases a,
{
    match a {
        Some(t) => h matches Some(ht) && lowers_type(t, ht),
        None => h is None,
    }
}

/// The warnings that lowering an optional AST type gives.
pub open spec fn optional_type_warnings(a: Option<ast::Type>) -> Seq<LoweringWarning>
    decreases a,
{
    match a {
        Some(t) => type_warnings(t),
        None => Seq::empty(),
    }
}

/// `h` is the HIR of the AST generic parameter `a`.
pub open spec fn lowers_generic_parameter(a: ast::GenericParameter, h: hir::GenericParameter) -> bool
    decreases a,
{
    &&& h.name == a.name
    &&& match a.bounds {
        Some(bs) => h.bounds matches Some(hbs) && lowers_type_constructors(bs@, hbs@),
        None => h.bounds is None,
    }
    &&& lowers_optional_type(a.default_value, h.default_value)
}

/// The warnings that lowering the AST generic parameter `a` gives.
pub open spec fn generic_parameter_warnings(a: ast::GenericParameter) -> Seq<LoweringWarning>
    decreases a,
{
    (match a.bounds {
        Some(bs) => type_constructors_warnings(bs@),
        None => Seq::empty(),
    }) + optional_type_warnings(a.default_value)
}

/// `h` is the HIR of the AST where predicate `a`.
pub open spec fn lowers_where_predicate(a: ast::WherePredicate, h: hir::WherePredicate) -> bool
    decreases a,
{
    &&& lowers_type(a.ty, h.ty)
    &&& lowers_type_constructors(a.bounds@, h.bounds@)
}

/// The warnings that lowering the AST where predicate `a` gives.
pub open spec fn where_predicate_warnings(a: ast::WherePredicate) -> Seq<LoweringWarning>
    decreases a,
{
    type_warnings(a.ty) + type_constructors_warnings(a.bounds@)
}

/* Patterns */

/// `h` is the HIR of the AST pattern `a`: grouped patterns are removed.
pub open spec fn lowers_pattern(a: ast::Pattern, h: hir::Pattern) -> bool
    decreases a,
{
    match a {
        ast::Pattern::Literal(l) => h == hir::Pattern::Literal(l),
        ast::Pattern::NegativeNumericLiteral(l) => h == hir::Pattern::NegativeNumericLiteral(l),
        ast::Pattern::Identifier { location, identifier, pattern } => {
            &&& h matches hir::Pattern::Identifier { location: l, identifier: id, pattern: p }
            &&& l == location
            &&& id == identifier
            &&& match pattern {
                Some(inner) => p matches Some(hp) && lowers_pattern(*inner, *hp),
                None => p is None,
            }
        },
        ast::Pattern::Wildcard { location } => h == hir::Pattern::Wildcard { location },
        ast::Pattern::Struct { location, path, fields } => {
            &&& h matches hir::Pattern::Struct { location: l, path: p, fields: fs }
            &&& l == location
            &&& p == path
            &&& lowers_struct_field_patterns(fields@, fs@)
        },
        ast::Pattern::TupleLike { location, path, inner_patterns } => {
            &&& h matches hir::Pattern::TupleLike { location: l, path: p, inner_patterns: ps }
            &&& l == location
            &&& p == path
            &&& lowers_patterns(inner_patterns@, ps@)
        },
        ast::Pattern::Tuple { location, elements } => {
            &&& h matches hir::Pattern::Tuple { location: l, elements: es }
            &&& l == location
            &&& lowers_patterns(elements@, es@)
        },
        ast::Pattern::Path { path } => h == hir::Pattern::Path { path },
        ast::Pattern::List { location, inner_patterns } => {
            &&& h matches hir::Pattern::List { location: l, inner_patterns: ps }
            &&& l == location
            &&& lowers_patterns(inner_patterns@, ps@)
        },
        ast::Pattern::Grouped { inner, .. } => lowers_pattern(*inner, h),
        ast::Pattern::Or { location, left, right } => {
            &&& h matches hir::Pattern::Or { location: l, left: hl, right: hr }
            &&& l == location
            &&& lowers_pattern(*left, *hl)
            &&& lowers_pattern(*right, *hr)
        },
        ast::Pattern::Rest { location } => h == hir::Pattern::Rest { location },
    }
}

/// The warnings that lowering the AST pattern `a` gives.
pub open spec fn pattern_warnings(a: ast::Pattern) -> Seq<LoweringWarning>
    decreases a,
{
    match a {
        ast::Pattern::Identifier { pattern, .. } => match pattern {
            Some(inner) => pattern_warnings(*inner),
            None => Seq::empty(),
        },
        ast::Pattern::Struct { fields, .. } => struct_field_patterns_warnings(fields@),
        ast::Pattern::TupleLike { inner_patterns, .. } => patterns_warnings(inner_patterns@),
        ast::Pattern::Tuple { elements, .. } => patterns_warnings(elements@),
        ast::Pattern::List { inner_patterns, .. } => patterns_warnings(inner_patterns@),
        ast::Pattern::Grouped { location, inner } => seq![
            LoweringWarning::UnnecessaryGroupedPattern(location),
        ] + pattern_warnings(*inner),
        ast::Pattern::Or { left, right, .. } => pattern_warnings(*left) + pattern_warnings(*right),
        _ => Seq::empty(),
    }
}

/// `h` is the HIR of the AST struct field pattern `a`.
pub open spec fn lowers_struct_field_pattern(
    a: ast::StructFieldPattern,
    h: hir::StructFieldPattern,
) -> bool
    decreases a,
{
    match a {
        ast::StructFieldPattern::NotRest { location, field_name, value_pattern } => {
            &&& h matches hir::StructFieldPattern::NotRest {
                location: l,
                field_name: f,
                value_pattern: v,
            }
            &&& l == location
            &&& f == field_name
            &&& match value_pattern {
                Some(p) => v matches Some(hp) && lowers_pattern(p, hp),
                None => v is None,
            }
        },
        ast::StructFieldPattern::Rest { location } => h == hir::StructFieldPattern::Rest {
            location,
        },
    }
}

/// The warnings that lowering the AST struct field pattern `a` gives.
pub open spec fn struct_field_pattern_warnings(a: ast::StructFieldPattern) -> Seq<
    LoweringWarning,
>
    decreases a,
{
    match a {
        ast::StructFieldPattern::NotRest { value_pattern, .. } => match value_pattern {
            Some(p) => pattern_warnings(p),
            None => Seq::empty(),
        },
        ast::StructFieldPattern::Rest { .. } => Seq::empty(),
    }
}

/* Expressions */

/// `h` is the HIR of the AST expression `a`: parentheses are removed and
/// `loop` becomes `while true`, with the `true` at the location of the loop.
pub open spec fn lowers_expression(a: ast::Expression, h: hir::Expression) -> bool
    decreases a,
{
    match a {
        ast::Expression::List { location, elements } => {
            &&& h matches hir::Expression::List { location: l, elements: es }
            &&& l == location
            &&& lowers_expressions(elements@, es@)
        },
        ast::Expression::As { location, left, right } => {
            &&& h matches hir::Expression::As { location: l, left: hl, right: hr }
            &&& l == location
            &&& lowers_expression(*left, *hl)
            &&& lowers_type(right, hr)
        },
        ast::Expression::Binary { location, left, operator, right } => {
            &&& h matches hir::Expression::Binary {
                location: l,
                left: hl,
                operator: o,
                right: hr,
            }
            &&& l == location
            &&& o == operator
            &&& lowers_expression(*left, *hl)
            &&& lowers_expression(*right, *hr)
        },
        ast::Expression::StatementsBlock { location, block } => {
            &&& h matches hir::Expression::StatementsBlock { location: l, block: b }
            &&& l == location
            &&& lowers_statements(block@, b@)
        },
        ast::Expression::Literal(literal) => h == hir::Expression::Literal(literal),
        ast::Expression::Identifier(identifier) => h == hir::Expression::Identifier(identifier),
        ast::Expression::Parenthesized { inner, .. } => lowers_expression(*inner, h),
        ast::Expression::If { location, if_blocks, else_ } => {
            &&& h matches hir::Expression::If { location: l, if_blocks: bs, else_: e }
            &&& l == location
            &&& lowers_if_blocks(if_blocks@, bs@)
            &&& match else_ {
                Some(block) => e matches Some(he) && lowers_statements(block@, he@),
                None => e is None,
            }
        },
        ast::Expression::FieldAccess { location, left, right } => {
            &&& h matches hir::Expression::FieldAccess { location: l, left: hl, right: r }
            &&& l == location
            &&& r == right
            &&& lowers_expression(*left, *hl)
        },
        ast::Expression::Prefix { location, inner, operator } => {
            &&& h matches hir::Expression::Prefix { location: l, inner: hi, operator: o }
            &&& l == location
            &&& o == operator
            &&& lowers_expression(*inner, *hi)
        },
        ast::Expression::Postfix { location, inner, operator } => {
            &&& h matches hir::Expression::Postfix { location: l, inner: hi, operator: o }
            &&& l == location
            &&& o == operator
            &&& lowers_expression(*inner, *hi)
        },
        ast::Expression::Loop { location, statements_block } => {
            &&& h matches hir::Expression::While {
                location: l,
                condition: c,
                statements_block: b,
            }
            &&& l == location
            &&& *c == hir::Expression::Literal(ast::Literal::Boolean { value: true, location })
            &&& lowers_statements(statements_block@, b@)
        },
        ast::Expression::While { location, condition, statements_block } => {
            &&& h matches hir::Expression::While {
                location: l,
                condition: c,
                statements_block: b,
            }
            &&& l == location
            &&& lowers_expression(*condition, *c)
            &&& lowers_statements(statements_block@, b@)
        },
        ast::Expression::Call { location, callee, arguments } => {
            &&& h matches hir::Expression::Call { location: l, callee: c, arguments: args }
            &&& l == location
            &&& lowers_expression(*callee, *c)
            &&& lowers_expressions(arguments@, args@)
        },
        ast::Expression::TypeArguments { location, left, arguments } => {
            &&& h matches hir::Expression::TypeArguments {
                location: l,
                left: hl,
                type_arguments: args,
            }
            &&& l == location
            &&& lowers_expression(*left, *hl)
            &&& lowers_types(arguments@, args@)
        },
        ast::Expression::Tuple { location, elements } => {
            &&& h matches hir::Expression::Tuple { location: l, elements: es }
            &&& l == location
            &&& lowers_expressions(elements@, es@)
        },
        ast::Expression::Struct { location, left, fields } => {
            &&& h matches hir::Expression::Struct { location: l, left: hl, fields: fs }
            &&& l == location
            &&& lowers_expression(*left, *hl)
            &&& lowers_struct_field_expressions(fields@, fs@)
        },
        ast::Expression::Match { location, expression, block } => {
            &&& h matches hir::Expression::Match { location: l, expression: he, block: b }
            &&& l == location
            &&& lowers_expression(*expression, *he)
            &&& lowers_match_expression_items(block@, b@)
        },
        ast::Expression::Lambda { location, parameters, return_type, value } => {
            &&& h matches hir::Expression::Lambda {
                location: l,
                parameters: ps,
                return_type: rt,
                value: v,
            }
            &&& l == location
            &&& lowers_lambda_function_parameters(parameters@, ps@)
            &&& lowers_optional_type(return_type, rt)
            &&& lowers_expression(*value, *v)
        },
        ast::Expression::Underscore { location } => h == hir::Expression::Underscore { location },
    }
}

/// The warnings that lowering the AST expression `a` gives.
pub open spec fn expression_warnings(a: ast::Expression) -> Seq<LoweringWarning>
    decreases a,
{
    match a {
        ast::Expression::List { elements, .. } => expressions_warnings(elements@),
        ast::Expression::As { left, right, .. } => expression_warnings(*left) + type_warnings(
            right,
        ),
        ast::Expression::Binary { left, right, .. } => expression_warnings(*left)
            + expression_warnings(*right),
        ast::Expression::StatementsBlock { block, .. } => statements_warnings(block@),
        ast::Expression::Parenthesized { inner, .. } => parenthesized_warning(*inner)
            + expression_warnings(*inner),
        ast::Expression::If { if_blocks, else_, .. } => if_blocks_warnings(if_blocks@)
            + match else_ {
            Some(block) => statements_warnings(block@),
            None => Seq::empty(),
        },
        ast::Expression::FieldAccess { left, .. } => expression_warnings(*left),
        ast::Expression::Prefix { inner, .. } => expression_warnings(*inner),
        ast::Expression::Postfix { inner, .. } => expression_warnings(*inner),
        ast::Expression::Loop { statements_block, .. } => statements_warnings(statements_block@),
        ast::Expression::While { condition, statements_block, .. } => parenthesized_warning(
            *condition,
        ) + expression_warnings(*condition) + statements_warnings(statements_block@),
        ast::Expression::Call { callee, arguments, .. } => expression_warnings(*callee)
            + expressions_warnings(arguments@),
        ast::Expression::TypeArguments { left, arguments, .. } => expression_warnings(*left)
            + types_warnings(arguments@),
        ast::Expression::Tuple { elements, .. } => expressions_warnings(elements@),
        ast::Expression::Struct { left, fields, .. } => expression_warnings(*left)
            + struct_field_expressions_warnings(fields@),
        ast::Expression::Match { expression, block, .. } => parenthesized_warning(*expression)
            + expression_warnings(*expression) + match_expression_items_warnings(block@),
        ast::Expression::Lambda { parameters, return_type, value, .. } => {
            lambda_function_parameters_warnings(parameters@) + optional_type_warnings(return_type)
                + expression_warnings(*value)
        },
        _ => Seq::empty(),
    }
}

/// `h` is the HIR of the AST match expression item `a`.
pub open spec fn lowers_match_expression_item(
    a: ast::MatchExpressionItem,
    h: hir::MatchExpressionItem,
) -> bool
    decreases a,
{
    lowers_pattern(a.left, h.left) && lowers_expression(a.right, h.right)
}

/// The warnings that lowering the AST match expression item `a` gives.
pub open spec fn match_expression_item_warnings(a: ast::MatchExpressionItem) -> Seq<
    LoweringWarning,
>
    decreases a,
{
    parenthesized_warning(a.right) + pattern_warnings(a.left) + expression_warnings(a.right)
}

/// `h` is the HIR of the AST struct field expression `a`.
pub open spec fn lowers_struct_field_expression(
    a: ast::StructFieldExpression,
    h: hir::StructExpressionItem,
) -> bool
    decreases a,
{
    &&& h.name == a.name
    &&& match a.value {
        Some(v) => h.value matches Some(hv) && lowers_expression(v, hv),
        None => h.value is None,
    }
}

/// The warnings that lowering the AST struct field expression `a` gives.
pub open spec fn struct_field_expression_warnings(a: ast::StructFieldExpression) -> Seq<
    LoweringWarning,
>
    decreases a,
{
    match a.value {
        Some(v) => expression_warnings(v),
        None => Seq::empty(),
    }
}

/// `h` is the HIR of the AST lambda function parameter `a`.
pub open spec fn lowers_lambda_function_parameter(
    a: ast::LambdaFunctionParameter,
    h: hir::LambdaFunctionParameter,
) -> bool
    decreases a,
{
    h.name == a.name && lowers_optional_type(a.ty, h.ty)
}

/// The warnings that lowering the AST lambda function parameter `a` gives.
pub open spec fn lambda_function_parameter_warnings(a: ast::LambdaFunctionParameter) -> Seq<
    LoweringWarning,
>
    decreases a,
{
    optional_type_warnings(a.ty)
}

/// `h` is the HIR of the AST if block (condition and statements) `a`.
pub open spec fn lowers_if_block(
    a: (ast::Expression, Vec<ast::Statement>),
    h: (hir::Expression, Vec<hir::Statement>),
) -> bool
    decreases a,
{
    lowers_expression(a.0, h.0) && lowers_statements(a.1@, h.1@)
}

/// The warnings that lowering the AST if block `a` gives.
pub open spec fn if_block_warnings(a: (ast::Expression, Vec<ast::Statement>)) -> Seq<
    LoweringWarning,
>
    decreases a,
{
    parenthesized_warning(a.0) + expression_warnings(a.0) + statements_warnings(a.1@)
}

/* Statements */

/// `h` is the HIR of the AST statement `a`.
pub open spec fn lowers_statement(a: ast::Statement, h: hir::Statement) -> bool
    decreases a,
{
    match a {
        ast::Statement::Defer { call } => h matches hir::Statement::Defer { call: c }
            && lowers_expression(call, c),
        ast::Statement::Expression { expression, has_semicolon } => {
            &&& h matches hir::Statement::Expression { expression: e, has_semicolon: s }
            &&& s == has_semicolon
            &&& lowers_expression(expression, e)
        },
        ast::Statement::Break { location } => h == hir::Statement::Break { location },
        ast::Statement::Continue { location } => h == hir::Statement::Continue { location },
        ast::Statement::Return { expression } => h matches hir::Statement::Return {
            expression: e,
        } && lowers_expression(expression, e),
        ast::Statement::Let { pattern, value, ty } => {
            &&& h matches hir::Statement::Let { pattern: p, value: v, ty: t }
            &&& lowers_pattern(pattern, p)
            &&& lowers_expression(value, v)
            &&& lowers_optional_type(ty, t)
        },
    }
}

/// The warnings that lowering the AST statement `a` gives.
pub open spec fn statement_warnings(a: ast::Statement) -> Seq<LoweringWarning>
    decreases a,
{
    match a {
        ast::Statement::Defer { call } => expression_warnings(call),
        ast::Statement::Expression { expression, .. } => expression_warnings(expression),
        ast::Statement::Return { expression } => expression_warnings(expression),
        ast::Statement::Let { pattern, value, ty } => pattern_warnings(pattern)
            + expression_warnings(value) + optional_type_warnings(ty),
        _ => Seq::empty(),
    }
}

/* Items */

/// `h` is the HIR of the AST function parameter `a`.
pub open spec fn lowers_function_parameter(
    a: ast::FunctionParameter,
    h: hir::FunctionParameter,
) -> bool
    decreases a,
{
    match a {
        ast::FunctionParameter::NotSelfParameter(p) => {
            &&& h matches hir::FunctionParameter::NotSelfParameter(hp)
            &&& lowers_pattern(p.pattern, hp.pattern)
            &&& lowers_type(p.ty, hp.ty)
        },
        ast::FunctionParameter::SelfParameter(p) => {
            &&& h matches hir::FunctionParameter::SelfParameter(hp)
            &&& hp.self_location == p.self_location
            &&& lowers_optional_type(p.ty, hp.ty)
        },
    }
}

/// The warnings that lowering the AST function parameter `a` gives.
pub open spec fn function_parameter_warnings(a: ast::FunctionParameter) -> Seq<LoweringWarning>
    decreases a,
{
    match a {
        ast::FunctionParameter::NotSelfParameter(p) => pattern_warnings(p.pattern) + type_warnings(
            p.ty,
        ),
        ast::FunctionParameter::SelfParameter(p) => optional_type_warnings(p.ty),
    }
}

/// `h` is the HIR of the AST function `a`.
pub open spec fn lowers_function(a: ast::Function, h: hir::Function) -> bool
    decreases a,
{
    &&& h.signature.visibility == a.signature.visibility
    &&& h.signature.name == a.signature.name
    &&& lowers_generic_parameters(a.signature.generic_parameters@, h.signature.generic_parameters@)
    &&& lowers_function_parameters(a.signature.parameters@, h.signature.parameters@)
    &&& lowers_optional_type(a.signature.return_type, h.signature.return_type)
    &&& lowers_where_predicates(a.signature.where_predicates@, h.signature.where_predicates@)
    &&& h.signature.docstring == a.signature.docstring
    &&& match a.body {
        Some(b) => h.body matches Some(hb) && lowers_statements(b@, hb@),
        None => h.body is None,
    }
}

/// The warnings that lowering the AST function `a` gives.
pub open spec fn function_warnings(a: ast::Function) -> Seq<LoweringWarning>
    decreases a,
{
    generic_parameters_warnings(a.signature.generic_parameters@) + function_parameters_warnings(
        a.signature.parameters@,
    ) + optional_type_warnings(a.signature.return_type) + where_predicates_warnings(
        a.signature.where_predicates@,
    ) + match a.body {
        Some(b) => statements_warnings(b@),
        None => Seq::empty(),
    }
}

/// `h` is the HIR of the AST struct field `a`.
pub open spec fn lowers_struct_field(a: ast::StructField, h: hir::StructField) -> bool
    decreases a,
{
    &&& h.visibility == a.visibility
    &&& h.name == a.name
    &&& lowers_type(a.ty, h.ty)
    &&& h.docstring == a.docstring
}

/// The warnings that lowering the AST struct field `a` gives.
pub open spec fn struct_field_warnings(a: ast::StructField) -> Seq<LoweringWarning>
    decreases a,
{
    type_warnings(a.ty)
}

/// `h` is the HIR of the AST tuple field `a`.
pub open spec fn lowers_tuple_field(a: ast::TupleField, h: hir::TupleField) -> bool
    decreases a,
{
    h.visibility == a.visibility && lowers_type(a.ty, h.ty)
}

/// The warnings that lowering the AST tuple field `a` gives.
pub open spec fn tuple_field_warnings(a: ast::TupleField) -> Seq<LoweringWarning>
    decreases a,
{
    type_warnings(a.ty)
}

/// `h` is the HIR of the AST enum item `a`.
pub open spec fn lowers_enum_item(a: ast::EnumItem, h: hir::EnumItem) -> bool
    decreases a,
{
    match a {
        ast::EnumItem::Just { name, docstring } => h == hir::EnumItem::Just { name, docstring },
        ast::EnumItem::TupleLike { name, fields, docstring } => {
            &&& h matches hir::EnumItem::TupleLike { name: n, fields: fs, docstring: d }
            &&& n == name
            &&& d == docstring
            &&& lowers_tuple_fields(fields@, fs@)
        },
        ast::EnumItem::Struct { name, fields, docstring } => {
            &&& h matches hir::EnumItem::Struct { name: n, fields: fs, docstring: d }
            &&& n == name
            &&& d == docstring
            &&& lowers_struct_fields(fields@, fs@)
        },
    }
}

/// The warnings that lowering the AST enum item `a` gives.
pub open spec fn enum_item_warnings(a: ast::EnumItem) -> Seq<LoweringWarning>
    decreases a,
{
    match a {
        ast::EnumItem::Just { .. } => Seq::empty(),
        ast::EnumItem::TupleLike { fields, .. } => tuple_fields_warnings(fields@),
        ast::EnumItem::Struct { fields, .. } => struct_fields_warnings(fields@),
    }
}

/// `h` is the HIR of an optional list of AST type constructors (the
/// interfaces a type implements).
pub open spec fn lowers_implements(
    a: Option<Vec<ast::TypeConstructor>>,
    h: Option<Vec<hir::TypeConstructor>>,
) -> bool
    decreases a,
{
    match a {
        Some(cs) => h matches Some(hcs) && lowers_type_constructors(cs@, hcs@),
        None => h is None,
    }
}

/// The warnings that lowering an optional list of AST type constructors gives.
pub open spec fn implements_warnings(a: Option<Vec<ast::TypeConstructor>>) -> Seq<
    LoweringWarning,
>
    decreases a,
{
    match a {
        Some(cs) => type_constructors_warnings(cs@),
        None => Seq::empty(),
    }
}

/// `p` is the where predicate `Self: <bounds>` that an interface named
/// `name` gets for the interfaces it inherits.
pub open spec fn is_self_bound(
    p: hir::WherePredicate,
    name: ast::IdentifierAST,
    inherits: Seq<ast::TypeConstructor>,
) -> bool {
    &&& p.ty matches hir::Type::Constructor(c)
    &&& c.location == name.location
    &&& c.path.location == name.location
    &&& c.path.identifiers@ == seq![
        ast::IdentifierAST { location: name.location, id: IdentifierId(BIG_SELF) },
    ]
    &&& c.arguments@.len() == 0
    &&& lowers_type_constructors(inherits, p.bounds@)
}

/// `h` is the HIR of the AST module item `a`.
pub open spec fn lowers_module_item(a: ast::ModuleItem, h: hir::ModuleItem) -> bool
    decreases a,
{
    match a {
        ast::ModuleItem::Enum(e) => {
            &&& h matches hir::ModuleItem::Enum(he)
            &&& he.visibility == e.visibility
            &&& he.name == e.name
            &&& lowers_generic_parameters(e.generic_parameters@, he.generic_parameters@)
            &&& lowers_where_predicates(e.where_predicates@, he.where_predicates@)
            &&& lowers_enum_items(e.items@, he.items@)
            &&& lowers_functions(e.methods@, he.methods@)
            &&& lowers_implements(e.implements, he.implements)
            &&& he.docstring == e.docstring
        },
        ast::ModuleItem::Function(f) => h matches hir::ModuleItem::Function(hf)
            && lowers_function(f, hf),
        ast::ModuleItem::Import { location, path } => h == hir::ModuleItem::Import {
            location,
            path,
        },
        ast::ModuleItem::Interface(i) => {
            &&& h matches hir::ModuleItem::Interface(hi)
            &&& hi.visibility == i.visibility
            &&& hi.name == i.name
            &&& lowers_generic_parameters(i.generic_parameters@, hi.generic_parameters@)
            &&& match i.inherits {
                Some(inherits) => {
                    &&& hi.where_predicates@.len() == i.where_predicates@.len() + 1
                    &&& lowers_where_predicates(
                        i.where_predicates@,
                        hi.where_predicates@.drop_last(),
                    )
                    &&& is_self_bound(hi.where_predicates@.last(), i.name, inherits@)
                },
                None => lowers_where_predicates(i.where_predicates@, hi.where_predicates@),
            }
            &&& lowers_functions(i.methods@, hi.methods@)
            &&& hi.docstring == i.docstring
        },
        ast::ModuleItem::Struct(s) => {
            &&& h matches hir::ModuleItem::Struct(hs)
            &&& hs.visibility == s.visibility
            &&& hs.name == s.name
            &&& lowers_generic_parameters(s.generic_parameters@, hs.generic_parameters@)
            &&& lowers_where_predicates(s.where_predicates@, hs.where_predicates@)
            &&& lowers_struct_fields(s.fields@, hs.fields@)
            &&& lowers_functions(s.methods@, hs.methods@)
            &&& lowers_implements(s.implements, hs.implements)
            &&& hs.docstring == s.docstring
        },
        ast::ModuleItem::TupleLikeStruct(s) => {
            &&& h matches hir::ModuleItem::TupleLikeStruct(hs)
            &&& hs.visibility == s.visibility
            &&& hs.name == s.name
            &&& lowers_generic_parameters(s.generic_parameters@, hs.generic_parameters@)
            &&& lowers_where_predicates(s.where_predicates@, hs.where_predicates@)
            &&& lowers_tuple_fields(s.fields@, hs.fields@)
            &&& lowers_functions(s.methods@, hs.methods@)
            &&& lowers_implements(s.implements, hs.implements)
            &&& hs.docstring == s.docstring
        },
        ast::ModuleItem::TypeAlias(t) => {
            &&& h matches hir::ModuleItem::TypeAlias(ht)
            &&& ht.visibility == t.visibility
            &&& ht.name == t.name
            &&& lowers_generic_parameters(t.generic_parameters@, ht.generic_parameters@)
            &&& lowers_type(t.value, ht.value)
            &&& ht.docstring == t.docstring
        },
    }
}

/// The warnings that lowering the AST module item `a` gives.
pub open spec fn module_item_warnings(a: ast::ModuleItem) -> Seq<LoweringWarning>
    decreases a,
{
    match a {
        ast::ModuleItem::Enum(e) => generic_parameters_warnings(e.generic_parameters@)
            + where_predicates_warnings(e.where_predicates@) + enum_items_warnings(e.items@)
            + functions_warnings(e.methods@) + implements_warnings(e.implements),
        ast::ModuleItem::Function(f) => function_warnings(f),
        ast::ModuleItem::Import { .. } => Seq::empty(),
        ast::ModuleItem::Interface(i) => generic_parameters_warnings(i.generic_parameters@)
            + where_predicates_warnings(i.where_predicates@) + implements_warnings(i.inherits)
            + functions_warnings(i.methods@),
        ast::ModuleItem::Struct(s) => generic_parameters_warnings(s.generic_parameters@)
            + where_predicates_warnings(s.where_predicates@) + struct_fields_warnings(s.fields@)
            + functions_warnings(s.methods@) + implements_warnings(s.implements),
        ast::ModuleItem::TupleLikeStruct(s) => generic_parameters_warnings(s.generic_parameters@)
            + where_predicates_warnings(s.where_predicates@) + tuple_fields_warnings(s.fields@)
            + functions_warnings(s.methods@) + implements_warnings(s.implements),
        ast::ModuleItem::TypeAlias(t) => generic_parameters_warnings(t.generic_parameters@)
            + type_warnings(t.value),
    }
}

/// `h` is the HIR of the AST module `a`, lowered for the file `filepath`.
pub open spec fn lowers_module(a: ast::Module, h: hir::Module, filepath: PathId) -> bool {
    &&& h.filepath == filepath
    &&& lowers_module_items(a.items@, h.items@)
    &&& h.docstring == a.docstring
}

/// The warnings that lowering the AST module `a` gives.
pub open spec fn module_warnings(a: ast::Module) -> Seq<LoweringWarning> {
    module_items_warnings(a.items@)
}

/// `h` is, element by element, the HIR of the AST sequence `a`.
pub open spec fn lowers_types(a: Seq<ast::Type>, h: Seq<hir::Type>) -> bool
    decreases a,
{
    &&& h.len() == a.len()
    &&& forall|i: int| 0 <= i < a.len() ==> lowers_type(#[trigger] a[i], h[i])
}

/// The warnings that lowering the AST sequence `a` gives, in order.
pub open spec fn types_warnings(a: Seq<ast::Type>) -> Seq<LoweringWarning>
    decreases a,
{
    if a.len() == 0 {
        Seq::empty()
    } else {
        types_warnings(a.subrange(0, a.len() - 1)) + type_warnings(a[a.len() - 1])
    }
}

/// `h` is, element by element, the HIR of the AST sequence `a`.
pub open spec fn lowers_type_constructors(a: Seq<ast::TypeConstructor>, h: Seq<hir::TypeConstructor>) -> bool
    decreases a,
{
    &&& h.len() == a.len()
    &&& forall|i: int| 0 <= i < a.len() ==> lowers_type_constructor(#[trigger] a[i], h[i])
}

/// The warnings that lowering the AST sequence `a` gives, in order.
pub open spec fn type_constructors_warnings(a: Seq<ast::TypeConstructor>) -> Seq<LoweringWarning>
    decreases a,
{
    if a.len() == 0 {
        Seq::empty()
    } else {
        type_constructors_warnings(a.subrange(0, a.len() - 1)) + type_constructor_warnings(a[a.len() - 1])
    }
}

/// `h` is, element by element, the HIR of the AST sequence `a`.
pub open spec fn lowers_generic_parameters(a: Seq<ast::GenericParameter>, h: Seq<hir::GenericParameter>) -> bool
    decreases a,
{
    &&& h.len() == a.len()
    &&& forall|i: int| 0 <= i < a.len() ==> lowers_generic_parameter(#[trigger] a[i], h[i])
}

/// The warnings that lowering the AST sequence `a` gives, in order.
pub open spec fn generic_parameters_warnings(a: Seq<ast::GenericParameter>) -> Seq<LoweringWarning>
    decreases a,
{
    if a.len() == 0 {
        Seq::empty()
    } else {
        generic_parameters_warnings(a.subrange(0, a.len() - 1)) + generic_parameter_warnings(a[a.len() - 1])
    }
}

/// `h` is, element by element, the HIR of the AST sequence `a`.
pub open spec fn lowers_where_predicates(a: Seq<ast::WherePredicate>, h: Seq<hir::WherePredicate>) -> bool
    decreases a,
{
    &&& h.len() == a.len()
    &&& forall|i: int| 0 <= i < a.len() ==> lowers_where_predicate(#[trigger] a[i], h[i])
}

/// The warnings that lowering the AST sequence `a` gives, in order.
pub open spec fn where_predicates_warnings(a: Seq<ast::WherePredicate>) -> Seq<LoweringWarning>
    decreases a,
{
    if a.len() == 0 {
        Seq::empty()
    } else {
        where_predicates_warnings(a.subrange(0, a.len() - 1)) + where_predicate_warnings(a[a.len() - 1])
    }
}

/// `h` is, element by element, the HIR of the AST sequence `a`.
pub open spec fn lowers_patterns(a: Seq<ast::Pattern>, h: Seq<hir::Pattern>) -> bool
    decreases a,
{
    &&& h.len() == a.len()
    &&& forall|i: int| 0 <= i < a.len() ==> lowers_pattern(#[trigger] a[i], h[i])
}

/// The warnings that lowering the AST sequence `a` gives, in order.
pub open spec fn patterns_warnings(a: Seq<ast::Pattern>) -> Seq<LoweringWarning>
    decreases a,
{
    if a.len() == 0 {
        Seq::empty()
    } else {
        patterns_warnings(a.subrange(0, a.len() - 1)) + pattern_warnings(a[a.len() - 1])
    }
}

/// `h` is, element by element, the HIR of the AST sequence `a`.
pub open spec fn lowers_struct_field_patterns(a: Seq<ast::StructFieldPattern>, h: Seq<hir::StructFieldPattern>) -> bool
    decreases a,
{
    &&& h.len() == a.len()
    &&& forall|i: int| 0 <= i < a.len() ==> lowers_struct_field_pattern(#[trigger] a[i], h[i])
}

/// The warnings that lowering the AST sequence `a` gives, in order.
pub open spec fn struct_field_patterns_warnings(a: Seq<ast::StructFieldPattern>) -> Seq<LoweringWarning>
    decreases a,
{
    if a.len() == 0 {
        Seq::empty()
    } else {
        struct_field_patterns_warnings(a.subrange(0, a.len() - 1)) + struct_field_pattern_warnings(a[a.len() - 1])
    }
}

/// `h` is, element by element, the HIR of the AST sequence `a`.
pub open spec fn lowers_expressions(a: Seq<ast::Expression>, h: Seq<hir::Expression>) -> bool
    decreases a,
{
    &&& h.len() == a.len()
    &&& forall|i: int| 0 <= i < a.len() ==> lowers_expression(#[trigger] a[i], h[i])
}

/// The warnings that lowering the AST sequence `a` gives, in order.
pub open spec fn expressions_warnings(a: Seq<ast::Expression>) -> Seq<LoweringWarning>
    decreases a,
{
    if a.len() == 0 {
        Seq::empty()
    } else {
        expressions_warnings(a.subrange(0, a.len() - 1)) + expression_warnings(a[a.len() - 1])
    }
}

/// `h` is, element by element, the HIR of the AST sequence `a`.
pub open spec fn lowers_statements(a: Seq<ast::Statement>, h: Seq<hir::Statement>) -> bool
    decreases a,
{
    &&& h.len() == a.len()
    &&& forall|i: int| 0 <= i < a.len() ==> lowers_statement(#[trigger] a[i], h[i])
}

/// The warnings that lowering the AST sequence `a` gives, in order.
pub open spec fn statements_warnings(a: Seq<ast::Statement>) -> Seq<LoweringWarning>
    decreases a,
{
    if a.len() == 0 {
        Seq::empty()
    } else {
        statements_warnings(a.subrange(0, a.len() - 1)) + statement_warnings(a[a.len() - 1])
    }
}

/// `h` is, element by element, the HIR of the AST sequence `a`.
pub open spec fn lowers_match_expression_items(a: Seq<ast::MatchExpressionItem>, h: Seq<hir::MatchExpressionItem>) -> bool
    decreases a,
{
    &&& h.len() == a.len()
    &&& forall|i: int| 0 <= i < a.len() ==> lowers_match_expression_item(#[trigger] a[i], h[i])
}

/// The warnings that lowering the AST sequence `a` gives, in order.
pub open spec fn match_expression_items_warnings(a: Seq<ast::MatchExpressionItem>) -> Seq<LoweringWarning>
    decreases a,
{
    if a.len() == 0 {
        Seq::empty()
    } else {
        match_expression_items_warnings(a.subrange(0, a.len() - 1)) + match_expression_item_warnings(a[a.len() - 1])
    }
}

/// `h` is, element by element, the HIR of the AST sequence `a`.
pub open spec fn lowers_struct_field_expressions(a: Seq<ast::StructFieldExpression>, h: Seq<hir::StructExpressionItem>) -> bool
    decreases a,
{
    &&& h.len() == a.len()
    &&& forall|i: int| 0 <= i < a.len() ==> lowers_struct_field_expression(#[trigger] a[i], h[i])
}

/// The warnings that lowering the AST sequence `a` gives, in order.
pub open spec fn struct_field_expressions_warnings(a: Seq<ast::StructFieldExpression>) -> Seq<LoweringWarning>
    decreases a,
{
    if a.len() == 0 {
        Seq::empty()
    } else {
        struct_field_expressions_warnings(a.subrange(0, a.len() - 1)) + struct_field_expression_warnings(a[a.len() - 1])
    }
}

/// `h` is, element by element, the HIR of the AST sequence `a`.
pub open spec fn lowers_lambda_function_parameters(a: Seq<ast::LambdaFunctionParameter>, h: Seq<hir::LambdaFunctionParameter>) -> bool
    decreases a,
{
    &&& h.len() == a.len()
    &&& forall|i: int| 0 <= i < a.len() ==> lowers_lambda_function_parameter(#[trigger] a[i], h[i])
}

/// The warnings that lowering the AST sequence `a` gives, in order.
pub open spec fn lambda_function_parameters_warnings(a: Seq<ast::LambdaFunctionParameter>) -> Seq<LoweringWarning>
    decreases a,
{
    if a.len() == 0 {
        Seq::empty()
    } else {
        lambda_function_parameters_warnings(a.subrange(0, a.len() - 1)) + lambda_function_parameter_warnings(a[a.len() - 1])
    }
}

/// `h` is, element by element, the HIR of the AST sequence `a`.
pub open spec fn lowers_if_blocks(a: Seq<(ast::Expression, Vec<ast::Statement>)>, h: Seq<(hir::Expression, Vec<hir::Statement>)>) -> bool
    decreases a,
{
    &&& h.len() == a.len()
    &&& forall|i: int| 0 <= i < a.len() ==> lowers_if_block(#[trigger] a[i], h[i])
}

/// The warnings that lowering the AST sequence `a` gives, in order.
pub open spec fn if_blocks_warnings(a: Seq<(ast::Expression, Vec<ast::Statement>)>) -> Seq<LoweringWarning>
    decreases a,
{
    if a.len() == 0 {
        Seq::empty()
    } else {
        if_blocks_warnings(a.subrange(0, a.len() - 1)) + if_block_warnings(a[a.len() - 1])
    }
}

/// `h` is, element by element, the HIR of the AST sequence `a`.
pub open spec fn lowers_function_parameters(a: Seq<ast::FunctionParameter>, h: Seq<hir::FunctionParameter>) -> bool
    decreases a,
{
    &&& h.len() == a.len()
    &&& forall|i: int| 0 <= i < a.len() ==> lowers_function_parameter(#[trigger] a[i], h[i])
}

/// The warnings that lowering the AST sequence `a` gives, in order.
pub open spec fn function_parameters_warnings(a: Seq<ast::FunctionParameter>) -> Seq<LoweringWarning>
    decreases a,
{
    if a.len() == 0 {
        Seq::empty()
    } else {
        function_parameters_warnings(a.subrange(0, a.len() - 1)) + function_parameter_warnings(a[a.len() - 1])
    }
}

/// `h` is, element by element, the HIR of the AST sequence `a`.
pub open spec fn lowers_functions(a: Seq<ast::Function>, h: Seq<hir::Function>) -> bool
    decreases a,
{
    &&& h.len() == a.len()
    &&& forall|i: int| 0 <= i < a.len() ==> lowers_function(#[trigger] a[i], h[i])
}

/// The warnings that lowering the AST sequence `a` gives, in order.
pub open spec fn functions_warnings(a: Seq<ast::Function>) -> Seq<LoweringWarning>
    decreases a,
{
    if a.len() == 0 {
        Seq::empty()
    } else {
        functions_warnings(a.subrange(0, a.len() - 1)) + function_warnings(a[a.len() - 1])
    }
}

/// `h` is, element by element, the HIR of the AST sequence `a`.
pub open spec fn lowers_enum_items(a: Seq<ast::EnumItem>, h: Seq<hir::EnumItem>) -> bool
    decreases a,
{
    &&& h.len() == a.len()
    &&& forall|i: int| 0 <= i < a.len() ==> lowers_enum_item(#[trigger] a[i], h[i])
}

/// The warnings that lowering the AST sequence `a` gives, in order.
pub open spec fn enum_items_warnings(a: Seq<ast::EnumItem>) -> Seq<LoweringWarning>
    decreases a,
{
    if a.len() == 0 {
        Seq::empty()
    } else {
        enum_items_warnings(a.subrange(0, a.len() - 1)) + enum_item_warnings(a[a.len() - 1])
    }
}

/// `h` is, element by element, the HIR of the AST sequence `a`.
pub open spec fn lowers_struct_fields(a: Seq<ast::StructField>, h: Seq<hir::StructField>) -> bool
    decreases a,
{
    &&& h.len() == a.len()
    &&& forall|i: int| 0 <= i < a.len() ==> lowers_struct_field(#[trigger] a[i], h[i])
}

/// The warnings that lowering the AST sequence `a` gives, in order.
pub open spec fn struct_fields_warnings(a: Seq<ast::StructField>) -> Seq<LoweringWarning>
    decreases a,
{
    if a.len() == 0 {
        Seq::empty()
    } else {
        struct_fields_warnings(a.subrange(0, a.len() - 1)) + struct_field_warnings(a[a.len() - 1])
    }
}

/// `h` is, element by element, the HIR of the AST sequence `a`.
pub open spec fn lowers_tuple_fields(a: Seq<ast::TupleField>, h: Seq<hir::TupleField>) -> bool
    decreases a,
{
    &&& h.len() == a.len()
    &&& forall|i: int| 0 <= i < a.len() ==> lowers_tuple_field(#[trigger] a[i], h[i])
}

/// The warnings that lowering the AST sequence `a` gives, in order.
pub open spec fn tuple_fields_warnings(a: Seq<ast::TupleField>) -> Seq<LoweringWarning>
    decreases a,
{
    if a.len() == 0 {
        Seq::empty()
    } else {
        tuple_fields_warnings(a.subrange(0, a.len() - 1)) + tuple_field_warnings(a[a.len() - 1])
    }
}

/// `h` is, element by element, the HIR of the AST sequence `a`.
pub open spec fn lowers_module_items(a: Seq<ast::ModuleItem>, h: Seq<hir::ModuleItem>) -> bool
    decreases a,
{
    &&& h.len() == a.len()
    &&& forall|i: int| 0 <= i < a.len() ==> lowers_module_item(#[trigger] a[i], h[i])
}

/// The warnings that lowering the AST sequence `a` gives, in order.
pub open spec fn module_items_warnings(a: Seq<ast::ModuleItem>) -> Seq<LoweringWarning>
    decreases a,
{
    if a.len() == 0 {
        Seq::empty()
    } else {
        module_items_warnings(a.subrange(0, a.len() - 1)) + module_item_warnings(a[a.len() - 1])
    }
}

/* Laws */

/// The expression inside all the parentheses around `a`.
pub open spec fn unparenthesized_expression(a: ast::Expression) -> ast::Expression
    decreases a,
{
    match a {
        ast::Expression::Parenthesized { inner, .. } => unparenthesized_expression(*inner),
        _ => a,
    }
}

/// The type inside all the parentheses around `a`.
pub open spec fn unparenthesized_type(a: ast::Type) -> ast::Type
    decreases a,
{
    match a {
        ast::Type::Parenthesized { inner, .. } => unparenthesized_type(*inner),
        _ => a,
    }
}

/// The pattern inside all the groupings around `a`.
pub open spec fn ungrouped_pattern(a: ast::Pattern) -> ast::Pattern
    decreases a,
{
    match a {
        ast::Pattern::Grouped { inner, .. } => ungrouped_pattern(*inner),
        _ => a,
    }
}

/// Lowering keeps locations: a lowered expression has the location of the
/// expression inside its parentheses (a `loop` keeps its own location as
/// the `while` it becomes).
pub proof fn lemma_lowered_expression_location(a: ast::Expression, h: hir::Expression)
    requires
        lowers_expression(a, h),
    ensures
        h.location_of() == unparenthesized_expression(a).location_of(),
    decreases a,
{
    match a {
        ast::Expression::Parenthesized { inner, .. } => {
            lemma_lowered_expression_location(*inner, h);
        },
        ast::Expression::Literal(literal) => {
            assert(h == hir::Expression::Literal(literal));
        },
        _ => {},
    }
}

/// Lowering keeps locations: a lowered type has the location of the type
/// inside its parentheses.
pub proof fn lemma_lowered_type_location(a: ast::Type, h: hir::Type)
    requires
        lowers_type(a, h),
    ensures
        h.location_of() == unparenthesized_type(a).location_of(),
    decreases a,
{
    match a {
        ast::Type::Parenthesized { inner, .. } => {
            lemma_lowered_type_location(*inner, h);
        },
        ast::Type::Constructor(c) => {
            let hc = h->Constructor_0;
            assert(lowers_type_constructor(c, hc));
        },
        _ => {},
    }
}

/// Lowering keeps locations: a lowered pattern has the location of the
/// pattern inside its groupings.
pub proof fn lemma_lowered_pattern_location(a: ast::Pattern, h: hir::Pattern)
    requires
        lowers_pattern(a, h),
    ensures
        h.location_of() == ungrouped_pattern(a).location_of(),
    decreases a,
{
    match a {
        ast::Pattern::Grouped { inner, .. } => {
            lemma_lowered_pattern_location(*inner, h);
        },
        ast::Pattern::Literal(literal) => {
            assert(h == hir::Pattern::Literal(literal));
        },
        ast::Pattern::NegativeNumericLiteral(literal) => {
            assert(h == hir::Pattern::NegativeNumericLiteral(literal));
        },
        _ => {},
    }
}

/* Lowering */

/// Represents a context for AST lowering: the file whose AST is lowered.
#[derive(Debug, Clone, Copy)]
pub struct LoweringContext {
    pub file_path_id: PathId,
}

impl LoweringContext {
    /// Creates a new lowering context.
    pub fn new(file_path_id: PathId) -> (r: Self)
        ensures
            r.file_path_id == file_path_id,
    {
        LoweringContext { file_path_id }
    }

    /// Converts a given AST into HIR, and reports the warnings about
    /// redundant parentheses in `diagnostics`.
    pub fn lower(&self, ast: ast::Module, diagnostics: &mut Diagnostics) -> (r: hir::Module)
        requires
            old(diagnostics).wf(),
        ensures
            lowers_module(ast, r, self.file_path_id),
            logged(*old(diagnostics), *final(diagnostics), module_warnings(ast)),
    {
        let ghost ast_items = ast.items@;
        let mut warnings: Vec<LoweringWarning> = Vec::new();
        let items = self.lower_module_items(ast.items, &mut warnings);
        report_warnings(&warnings, diagnostics);
        proof {
            assert(warnings@ =~= module_warnings(ast));
        }
        hir::Module { filepath: self.file_path_id, items, docstring: ast.docstring }
    }

    /// Converts a given module item AST into HIR, collecting the warnings it gives.
    #[verifier::spinoff_prover]
    #[verifier::rlimit(50)]
    pub fn lower_module_item(&self, ast: ast::ModuleItem, warnings: &mut Vec<LoweringWarning>) -> (r: hir::ModuleItem)
        ensures
            lowers_module_item(ast, r),
            final(warnings)@ == old(warnings)@ + module_item_warnings(ast),
        decreases ast,
    {
        let ghost w0 = warnings@;
        match ast {
            ast::ModuleItem::Enum(e) => {
                let generic_parameters = self.lower_generic_parameters(e.generic_parameters, warnings);
                let where_predicates = self.lower_where_predicates(e.where_predicates, warnings);
                let items = self.lower_enum_items(e.items, warnings);
                let methods = self.lower_functions(e.methods, warnings);
                let implements = self.lower_implements(e.implements, warnings);
                proof {
                    assert(warnings@ =~= w0 + module_item_warnings(ast));
                }
                hir::ModuleItem::Enum(hir::Enum {
                    visibility: e.visibility,
                    name: e.name,
                    generic_parameters,
                    where_predicates,
                    items,
                    methods,
                    implements,
                    docstring: e.docstring,
                })
            },
            ast::ModuleItem::Struct(s) => {
                let generic_parameters = self.lower_generic_parameters(s.generic_parameters, warnings);
                let where_predicates = self.lower_where_predicates(s.where_predicates, warnings);
                let fields = self.lower_struct_fields(s.fields, warnings);
                let methods = self.lower_functions(s.methods, warnings);
                let implements = self.lower_implements(s.implements, warnings);
                proof {
                    assert(warnings@ =~= w0 + module_item_warnings(ast));
                }
                hir::ModuleItem::Struct(hir::Struct {
                    visibility: s.visibility,
                    name: s.name,
                    generic_parameters,
                    where_predicates,
                    fields,
                    methods,
                    implements,
                    docstring: s.docstring,
                })
            },
            ast::ModuleItem::Function(function) => {
                hir::ModuleItem::Function(self.lower_function(function, warnings))
            },
            ast::ModuleItem::Import { location, path } => {
                proof {
                    assert(warnings@ =~= w0 + module_item_warnings(ast));
                }
                hir::ModuleItem::Import { location, path }
            },
            ast::ModuleItem::TypeAlias(alias) => {
                let generic_parameters = self.lower_generic_parameters(alias.generic_parameters, warnings);
                let value = self.lower_type(alias.value, warnings);
                proof {
                    assert(warnings@ =~= w0 + module_item_warnings(ast));
                }
                hir::ModuleItem::TypeAlias(hir::TypeAlias {
                    visibility: alias.visibility,
                    name: alias.name,
                    generic_parameters,
                    value,
                    docstring: alias.docstring,
                })
            },
            ast::ModuleItem::TupleLikeStruct(s) => {
                let generic_parameters = self.lower_generic_parameters(s.generic_parameters, warnings);
                let where_predicates = self.lower_where_predicates(s.where_predicates, warnings);
                let fields = self.lower_tuple_fields(s.fields, warnings);
                let methods = self.lower_functions(s.methods, warnings);
                let implements = self.lower_implements(s.implements, warnings);
                proof {
                    assert(warnings@ =~= w0 + module_item_warnings(ast));
                }
                hir::ModuleItem::TupleLikeStruct(hir::TupleLikeStruct {
                    visibility: s.visibility,
                    name: s.name,
                    generic_parameters,
                    where_predicates,
                    fields,
                    methods,
                    implements,
                    docstring: s.docstring,
                })
            },
            ast::ModuleItem::Interface(i) => {
                let name = i.name;
                let generic_parameters = self.lower_generic_parameters(i.generic_parameters, warnings);
                let mut where_predicates = self.lower_where_predicates(i.where_predicates, warnings);
                let ghost lowered_predicates = where_predicates@;
                match i.inherits {
                    Some(inherits) => {
                        let bounds = self.lower_type_constructors(inherits, warnings);
                        let mut identifiers: Vec<ast::IdentifierAST> = Vec::new();
                        identifiers.push(ast::IdentifierAST { id: IdentifierId(BIG_SELF), location: name.location });
                        where_predicates.push(hir::WherePredicate {
                            ty: hir::Type::Constructor(hir::TypeConstructor {
                                location: name.location,
                                path: ast::Path { location: name.location, identifiers },
                                arguments: Vec::new(),
                            }),
                            bounds,
                        });
                        proof {
                            assert(where_predicates@.drop_last() =~= lowered_predicates);
                        }
                    },
                    None => {},
                }
                let methods = self.lower_functions(i.methods, warnings);
                proof {
                    assert(warnings@ =~= w0 + module_item_warnings(ast));
                }
                hir::ModuleItem::Interface(hir::Interface {
                    visibility: i.visibility,
                    name: i.name,
                    generic_parameters,
                    where_predicates,
                    methods,
                    docstring: i.docstring,
                })
            },
        }
    }

    /// Lowers the optional list of interfaces a type implements.
    fn lower_implements(
        &self,
        ast: Option<Vec<ast::TypeConstructor>>,
        warnings: &mut Vec<LoweringWarning>,
    ) -> (r: Option<Vec<hir::TypeConstructor>>)
        ensures
            lowers_implements(ast, r),
            final(warnings)@ == old(warnings)@ + implements_warnings(ast),
        decreases ast,
    {
        match ast {
            Some(constructors) => Some(self.lower_type_constructors(constructors, warnings)),
            None => {
                assert(warnings@ =~= old(warnings)@ + implements_warnings(ast));
                None
            },
        }
    }

    fn lower_function(&self, ast: ast::Function, warnings: &mut Vec<LoweringWarning>) -> (r: hir::Function)
        ensures
            lowers_function(ast, r),
            final(warnings)@ == old(warnings)@ + function_warnings(ast),
        decreases ast,
    {
        let ghost w0 = warnings@;
        let signature = ast.signature;
        let generic_parameters = self.lower_generic_parameters(signature.generic_parameters, warnings);
        let parameters = self.lower_function_parameters(signature.parameters, warnings);
        let return_type = self.lower_optional_type(signature.return_type, warnings);
        let where_predicates = self.lower_where_predicates(signature.where_predicates, warnings);
        let body = match ast.body {
            Some(block) => Some(self.lower_statements(block, warnings)),
            None => None,
        };
        proof {
            assert(warnings@ =~= w0 + function_warnings(ast));
        }
        hir::Function {
            signature: hir::FunctionSignature {
                visibility: signature.visibility,
                name: signature.name,
                generic_parameters,
                parameters,
                return_type,
                where_predicates,
                docstring: signature.docstring,
            },
            body,
        }
    }

    fn lower_enum_item(&self, ast: ast::EnumItem, warnings: &mut Vec<LoweringWarning>) -> (r: hir::EnumItem)
        ensures
            lowers_enum_item(ast, r),
            final(warnings)@ == old(warnings)@ + enum_item_warnings(ast),
        decreases ast,
    {
        match ast {
            ast::EnumItem::Just { name, docstring } => {
                assert(warnings@ =~= old(warnings)@ + enum_item_warnings(ast));
                hir::EnumItem::Just { name, docstring }
            },
            ast::EnumItem::Struct { name, fields, docstring } => hir::EnumItem::Struct {
                name,
                fields: self.lower_struct_fields(fields, warnings),
                docstring,
            },
            ast::EnumItem::TupleLike { name, fields, docstring } => hir::EnumItem::TupleLike {
                name,
                fields: self.lower_tuple_fields(fields, warnings),
                docstring,
            },
        }
    }

    fn lower_statement(&self, ast: ast::Statement, warnings: &mut Vec<LoweringWarning>) -> (r: hir::Statement)
        ensures
            lowers_statement(ast, r),
            final(warnings)@ == old(warnings)@ + statement_warnings(ast),
        decreases ast,
    {
        let ghost w0 = warnings@;
        match ast {
            ast::Statement::Break { location } => {
                assert(warnings@ =~= w0 + statement_warnings(ast));
                hir::Statement::Break { location }
            },
            ast::Statement::Continue { location } => {
                assert(warnings@ =~= w0 + statement_warnings(ast));
                hir::Statement::Continue { location }
            },
            ast::Statement::Defer { call } => {
                let call = self.lower_expression(call, warnings);
                hir::Statement::Defer { call }
            },
            ast::Statement::Return { expression } => hir::Statement::Return {
                expression: self.lower_expression(expression, warnings),
            },
            ast::Statement::Let { pattern, value, ty } => {
                let pattern = self.lower_pattern(pattern, warnings);
                let value = self.lower_expression(value, warnings);
                let ty = self.lower_optional_type(ty, warnings);
                proof {
                    assert(warnings@ =~= w0 + statement_warnings(ast));
                }
                hir::Statement::Let { pattern, value, ty }
            },
            ast::Statement::Expression { expression, has_semicolon } => hir::Statement::Expression {
                expression: self.lower_expression(expression, warnings),
                has_semicolon,
            },
        }
    }

    fn lower_pattern(&self, ast: ast::Pattern, warnings: &mut Vec<LoweringWarning>) -> (r: hir::Pattern)
        ensures
            lowers_pattern(ast, r),
            final(warnings)@ == old(warnings)@ + pattern_warnings(ast),
        decreases ast,
    {
        let ghost w0 = warnings@;
        match ast {
            ast::Pattern::Grouped { location, inner } => {
                warnings.push(LoweringWarning::UnnecessaryGroupedPattern(location));
                let r = self.lower_pattern(*inner, warnings);
                proof {
                    assert(warnings@ =~= w0 + pattern_warnings(ast));
                }
                r
            },
            ast::Pattern::Wildcard { location } => {
                assert(warnings@ =~= w0 + pattern_warnings(ast));
                hir::Pattern::Wildcard { location }
            },
            ast::Pattern::Identifier { location, identifier, pattern } => {
                let pattern = match pattern {
                    Some(p) => Some(Box::new(self.lower_pattern(*p, warnings))),
                    None => None,
                };
                proof {
                    assert(warnings@ =~= w0 + pattern_warnings(ast));
                }
                hir::Pattern::Identifier { location, identifier, pattern }
            },
            ast::Pattern::List { location, inner_patterns } => hir::Pattern::List {
                location,
                inner_patterns: self.lower_patterns(inner_patterns, warnings),
            },
            ast::Pattern::Literal(literal) => {
                assert(warnings@ =~= w0 + pattern_warnings(ast));
                hir::Pattern::Literal(literal)
            },
            ast::Pattern::NegativeNumericLiteral(literal) => {
                assert(warnings@ =~= w0 + pattern_warnings(ast));
                hir::Pattern::NegativeNumericLiteral(literal)
            },
            ast::Pattern::Or { location, left, right } => {
                let left = self.lower_pattern(*left, warnings);
                let right = self.lower_pattern(*right, warnings);
                proof {
                    assert(warnings@ =~= w0 + pattern_warnings(ast));
                }
                hir::Pattern::Or { location, left: Box::new(left), right: Box::new(right) }
            },
            ast::Pattern::Path { path } => {
                assert(warnings@ =~= w0 + pattern_warnings(ast));
                hir::Pattern::Path { path }
            },
            ast::Pattern::Rest { location } => {
                assert(warnings@ =~= w0 + pattern_warnings(ast));
                hir::Pattern::Rest { location }
            },
            ast::Pattern::Struct { location, path, fields } => hir::Pattern::Struct {
                location,
                path,
                fields: self.lower_struct_field_patterns(fields, warnings),
            },
            ast::Pattern::Tuple { location, elements } => hir::Pattern::Tuple {
                location,
                elements: self.lower_patterns(elements, warnings),
            },
            ast::Pattern::TupleLike { location, path, inner_patterns } => hir::Pattern::TupleLike {
                location,
                path,
                inner_patterns: self.lower_patterns(inner_patterns, warnings),
            },
        }
    }

    fn lower_struct_field_pattern(
        &self,
        ast: ast::StructFieldPattern,
        warnings: &mut Vec<LoweringWarning>,
    ) -> (r: hir::StructFieldPattern)
        ensures
            lowers_struct_field_pattern(ast, r),
            final(warnings)@ == old(warnings)@ + struct_field_pattern_warnings(ast),
        decreases ast,
    {
        let ghost w0 = warnings@;
        match ast {
            ast::StructFieldPattern::NotRest { location, field_name, value_pattern } => {
                let value_pattern = match value_pattern {
                    Some(p) => Some(self.lower_pattern(p, warnings)),
                    None => None,
                };
                proof {
                    assert(warnings@ =~= w0 + struct_field_pattern_warnings(ast));
                }
                hir::StructFieldPattern::NotRest { location, field_name, value_pattern }
            },
            ast::StructFieldPattern::Rest { location } => {
                assert(warnings@ =~= w0 + struct_field_pattern_warnings(ast));
                hir::StructFieldPattern::Rest { location }
            },
        }
    }

    /// Records a warning if the expression is parenthesized.
    fn warn_if_parenthesized(&self, ast: &ast::Expression, warnings: &mut Vec<LoweringWarning>)
        ensures
            final(warnings)@ == old(warnings)@ + parenthesized_warning(*ast),
    {
        match ast {
            ast::Expression::Parenthesized { location, .. } => {
                warnings.push(LoweringWarning::UnnecessaryParenthesizedExpression(*location));
            },
            _ => {
                assert(warnings@ =~= old(warnings)@ + parenthesized_warning(*ast));
            },
        }
    }

    #[verifier::spinoff_prover]
    #[verifier::rlimit(50)]
    fn lower_expression(&self, ast: ast::Expression, warnings: &mut Vec<LoweringWarning>) -> (r: hir::Expression)
        ensures
            lowers_expression(ast, r),
            final(warnings)@ == old(warnings)@ + expression_warnings(ast),
        decreases ast,
    {
        let ghost w0 = warnings@;
        match ast {
            ast::Expression::Literal(literal) => {
                assert(warnings@ =~= w0 + expression_warnings(ast));
                hir::Expression::Literal(literal)
            },
            ast::Expression::Identifier(identifier) => {
                assert(warnings@ =~= w0 + expression_warnings(ast));
                hir::Expression::Identifier(identifier)
            },
            ast::Expression::Underscore { location } => {
                assert(warnings@ =~= w0 + expression_warnings(ast));
                hir::Expression::Underscore { location }
            },
            ast::Expression::Loop { location, statements_block } => hir::Expression::While {
                location,
                condition: Box::new(
                    hir::Expression::Literal(ast::Literal::Boolean { value: true, location }),
                ),
                statements_block: self.lower_statements(statements_block, warnings),
            },
            ast::Expression::Tuple { location, elements } => hir::Expression::Tuple {
                location,
                elements: self.lower_expressions(elements, warnings),
            },
            ast::Expression::Lambda { location, parameters, return_type, value } => {
                let parameters = self.lower_lambda_function_parameters(parameters, warnings);
                let return_type = self.lower_optional_type(return_type, warnings);
                let value = self.lower_expression(*value, warnings);
                proof {
                    assert(warnings@ =~= w0 + expression_warnings(ast));
                }
                hir::Expression::Lambda { location, parameters, return_type, value: Box::new(value) }
            },
            ast::Expression::Match { location, expression, block } => {
                self.warn_if_parenthesized(&expression, warnings);
                let expression = self.lower_expression(*expression, warnings);
                let block = self.lower_match_expression_items(block, warnings);
                proof {
                    assert(warnings@ =~= w0 + expression_warnings(ast));
                }
                hir::Expression::Match { location, expression: Box::new(expression), block }
            },
            ast::Expression::Struct { location, left, fields } => {
                let left = self.lower_expression(*left, warnings);
                let fields = self.lower_struct_field_expressions(fields, warnings);
                proof {
                    assert(warnings@ =~= w0 + expression_warnings(ast));
                }
                hir::Expression::Struct { location, left: Box::new(left), fields }
            },
            ast::Expression::While { location, condition, statements_block } => {
                self.warn_if_parenthesized(&condition, warnings);
                let condition = self.lower_expression(*condition, warnings);
                let statements_block = self.lower_statements(statements_block, warnings);
                proof {
                    assert(warnings@ =~= w0 + expression_warnings(ast));
                }
                hir::Expression::While { location, condition: Box::new(condition), statements_block }
            },
            ast::Expression::Prefix { location, inner, operator } => hir::Expression::Prefix {
                location,
                inner: Box::new(self.lower_expression(*inner, warnings)),
                operator,
            },
            ast::Expression::Postfix { location, inner, operator } => hir::Expression::Postfix {
                location,
                inner: Box::new(self.lower_expression(*inner, warnings)),
                operator,
            },
            ast::Expression::If { location, if_blocks, else_ } => {
                let if_blocks = self.lower_if_blocks(if_blocks, warnings);
                let else_ = match else_ {
                    Some(block) => Some(self.lower_statements(block, warnings)),
                    None => None,
                };
                proof {
                    assert(warnings@ =~= w0 + expression_warnings(ast));
                }
                hir::Expression::If { location, if_blocks, else_ }
            },
            ast::Expression::Parenthesized { inner, .. } => {
                self.warn_if_parenthesized(&inner, warnings);
                let r = self.lower_expression(*inner, warnings);
                proof {
                    assert(warnings@ =~= w0 + expression_warnings(ast));
                }
                r
            },
            ast::Expression::Binary { location, left, operator, right } => {
                let left = self.lower_expression(*left, warnings);
                let right = self.lower_expression(*right, warnings);
                proof {
                    assert(warnings@ =~= w0 + expression_warnings(ast));
                }
                hir::Expression::Binary { location, left: Box::new(left), operator, right: Box::new(right) }
            },
            ast::Expression::Call { location, callee, arguments } => {
                let callee = self.lower_expression(*callee, warnings);
                let arguments = self.lower_expressions(arguments, warnings);
                proof {
                    assert(warnings@ =~= w0 + expression_warnings(ast));
                }
                hir::Expression::Call { location, callee: Box::new(callee), arguments }
            },
            ast::Expression::As { location, left, right } => {
                let left = self.lower_expression(*left, warnings);
                let right = self.lower_type(right, warnings);
                proof {
                    assert(warnings@ =~= w0 + expression_warnings(ast));
                }
                hir::Expression::As { location, left: Box::new(left), right }
            },
            ast::Expression::List { location, elements } => hir::Expression::List {
                location,
                elements: self.lower_expressions(elements, warnings),
            },
            ast::Expression::FieldAccess { location, left, right } => hir::Expression::FieldAccess {
                location,
                left: Box::new(self.lower_expression(*left, warnings)),
                right,
            },
            ast::Expression::TypeArguments { location, left, arguments } => {
                let left = self.lower_expression(*left, warnings);
                let type_arguments = self.lower_types(arguments, warnings);
                proof {
                    assert(warnings@ =~= w0 + expression_warnings(ast));
                }
                hir::Expression::TypeArguments { location, left: Box::new(left), type_arguments }
            },
            ast::Expression::StatementsBlock { location, block } => hir::Expression::StatementsBlock {
                location,
                block: self.lower_statements(block, warnings),
            },
        }
    }

    fn lower_match_expression_item(
        &self,
        ast: ast::MatchExpressionItem,
        warnings: &mut Vec<LoweringWarning>,
    ) -> (r: hir::MatchExpressionItem)
        ensures
            lowers_match_expression_item(ast, r),
            final(warnings)@ == old(warnings)@ + match_expression_item_warnings(ast),
        decreases ast,
    {
        let ghost w0 = warnings@;
        self.warn_if_parenthesized(&ast.right, warnings);
        let left = self.lower_pattern(ast.left, warnings);
        let right = self.lower_expression(ast.right, warnings);
        proof {
            assert(warnings@ =~= w0 + match_expression_item_warnings(ast));
        }
        hir::MatchExpressionItem { left, right }
    }

    fn lower_struct_field_expression(
        &self,
        ast: ast::StructFieldExpression,
        warnings: &mut Vec<LoweringWarning>,
    ) -> (r: hir::StructExpressionItem)
        ensures
            lowers_struct_field_expression(ast, r),
            final(warnings)@ == old(warnings)@ + struct_field_expression_warnings(ast),
        decreases ast,
    {
        let value = match ast.value {
            Some(v) => Some(self.lower_expression(v, warnings)),
            None => {
                assert(warnings@ =~= old(warnings)@ + struct_field_expression_warnings(ast));
                None
            },
        };
        hir::StructExpressionItem { name: ast.name, value }
    }

    fn lower_lambda_function_parameter(
        &self,
        ast: ast::LambdaFunctionParameter,
        warnings: &mut Vec<LoweringWarning>,
    ) -> (r: hir::LambdaFunctionParameter)
        ensures
            lowers_lambda_function_parameter(ast, r),
            final(warnings)@ == old(warnings)@ + lambda_function_parameter_warnings(ast),
        decreases ast,
    {
        hir::LambdaFunctionParameter { name: ast.name, ty: self.lower_optional_type(ast.ty, warnings) }
    }

    fn lower_if_block(
        &self,
        if_block: (ast::Expression, Vec<ast::Statement>),
        warnings: &mut Vec<LoweringWarning>,
    ) -> (r: (hir::Expression, Vec<hir::Statement>))
        ensures
            lowers_if_block(if_block, r),
            final(warnings)@ == old(warnings)@ + if_block_warnings(if_block),
        decreases if_block,
    {
        let ghost w0 = warnings@;
        let (condition, block) = if_block;
        self.warn_if_parenthesized(&condition, warnings);
        let condition = self.lower_expression(condition, warnings);
        let block = self.lower_statements(block, warnings);
        proof {
            assert(warnings@ =~= w0 + if_block_warnings(if_block));
        }
        (condition, block)
    }

    fn lower_function_parameter(
        &self,
        ast: ast::FunctionParameter,
        warnings: &mut Vec<LoweringWarning>,
    ) -> (r: hir::FunctionParameter)
        ensures
            lowers_function_parameter(ast, r),
            final(warnings)@ == old(warnings)@ + function_parameter_warnings(ast),
        decreases ast,
    {
        let ghost w0 = warnings@;
        match ast {
            ast::FunctionParameter::NotSelfParameter(parameter) => {
                let pattern = self.lower_pattern(parameter.pattern, warnings);
                let ty = self.lower_type(parameter.ty, warnings);
                proof {
                    assert(warnings@ =~= w0 + function_parameter_warnings(ast));
                }
                hir::FunctionParameter::NotSelfParameter(hir::NotSelfFunctionParameter { pattern, ty })
            },
            ast::FunctionParameter::SelfParameter(parameter) => {
                hir::FunctionParameter::SelfParameter(hir::SelfFunctionParameter {
                    self_location: parameter.self_location,
                    ty: self.lower_optional_type(parameter.ty, warnings),
                })
            },
        }
    }

    fn lower_struct_field(&self, ast: ast::StructField, warnings: &mut Vec<LoweringWarning>) -> (r: hir::StructField)
        ensures
            lowers_struct_field(ast, r),
            final(warnings)@ == old(warnings)@ + struct_field_warnings(ast),
        decreases ast,
    {
        hir::StructField {
            visibility: ast.visibility,
            name: ast.name,
            ty: self.lower_type(ast.ty, warnings),
            docstring: ast.docstring,
        }
    }

    fn lower_tuple_field(&self, ast: ast::TupleField, warnings: &mut Vec<LoweringWarning>) -> (r: hir::TupleField)
        ensures
            lowers_tuple_field(ast, r),
            final(warnings)@ == old(warnings)@ + tuple_field_warnings(ast),
        decreases ast,
    {
        hir::TupleField { visibility: ast.visibility, ty: self.lower_type(ast.ty, warnings) }
    }

    fn lower_generic_parameter(
        &self,
        ast: ast::GenericParameter,
        warnings: &mut Vec<LoweringWarning>,
    ) -> (r: hir::GenericParameter)
        ensures
            lowers_generic_parameter(ast, r),
            final(warnings)@ == old(warnings)@ + generic_parameter_warnings(ast),
        decreases ast,
    {
        let ghost w0 = warnings@;
        let bounds = match ast.bounds {
            Some(bounds) => Some(self.lower_type_constructors(bounds, warnings)),
            None => None,
        };
        let default_value = self.lower_optional_type(ast.default_value, warnings);
        proof {
            assert(warnings@ =~= w0 + generic_parameter_warnings(ast));
        }
        hir::GenericParameter { name: ast.name, bounds, default_value }
    }

    fn lower_where_predicate(
        &self,
        ast: ast::WherePredicate,
        warnings: &mut Vec<LoweringWarning>,
    ) -> (r: hir::WherePredicate)
        ensures
            lowers_where_predicate(ast, r),
            final(warnings)@ == old(warnings)@ + where_predicate_warnings(ast),
        decreases ast,
    {
        let ghost w0 = warnings@;
        let ty = self.lower_type(ast.ty, warnings);
        let bounds = self.lower_type_constructors(ast.bounds, warnings);
        proof {
            assert(warnings@ =~= w0 + where_predicate_warnings(ast));
        }
        hir::WherePredicate { ty, bounds }
    }

    fn lower_type_constructor(
        &self,
        ast: ast::TypeConstructor,
        warnings: &mut Vec<LoweringWarning>,
    ) -> (r: hir::TypeConstructor)
        ensures
            lowers_type_constructor(ast, r),
            final(warnings)@ == old(warnings)@ + type_constructor_warnings(ast),
        decreases ast,
    {
        hir::TypeConstructor {
            arguments: self.lower_types(ast.arguments, warnings),
            location: ast.location,
            path: ast.path,
        }
    }

    fn lower_optional_type(&self, ast: Option<ast::Type>, warnings: &mut Vec<LoweringWarning>) -> (r: Option<hir::Type>)
        ensures
            lowers_optional_type(ast, r),
            final(warnings)@ == old(warnings)@ + optional_type_warnings(ast),
        decreases ast,
    {
        match ast {
            Some(ty) => Some(self.lower_type(ty, warnings)),
            None => {
                assert(warnings@ =~= old(warnings)@ + optional_type_warnings(ast));
                None
            },
        }
    }

    fn lower_type(&self, ast: ast::Type, warnings: &mut Vec<LoweringWarning>) -> (r: hir::Type)
        ensures
            lowers_type(ast, r),
            final(warnings)@ == old(warnings)@ + type_warnings(ast),
        decreases ast,
    {
        let ghost w0 = warnings@;
        match ast {
            ast::Type::Function { location, parameter_types, return_type } => {
                let parameter_types = self.lower_types(parameter_types, warnings);
                let return_type = match return_type {
                    Some(ty) => self.lower_type(*ty, warnings),
                    None => hir::Type::Tuple { location: dummy_location(), element_types: Vec::new() },
                };
                proof {
                    assert(warnings@ =~= w0 + type_warnings(ast));
                }
                hir::Type::Function { location, parameter_types, return_type: Some(Box::new(return_type)) }
            },
            ast::Type::Constructor(constructor) => {
                hir::Type::Constructor(self.lower_type_constructor(constructor, warnings))
            },
            ast::Type::Parenthesized { inner, .. } => {
                match &*inner {
                    ast::Type::Parenthesized { location, .. } => {
                        warnings.push(LoweringWarning::UnnecessaryParenthesizedExpression(*location));
                    },
                    _ => {},
                }
                let r = self.lower_type(*inner, warnings);
                proof {
                    assert(warnings@ =~= w0 + type_warnings(ast));
                }
                r
            },
            ast::Type::Underscore { location } => {
                assert(warnings@ =~= w0 + type_warnings(ast));
                hir::Type::Underscore { location }
            },
            ast::Type::InterfaceObject { location, bounds } => hir::Type::InterfaceObject {
                location,
                bounds: self.lower_type_constructors(bounds, warnings),
            },
            ast::Type::Tuple { location, element_types } => hir::Type::Tuple {
                location,
                element_types: self.lower_types(element_types, warnings),
            },
        }
    }

    /// Lowers the elements of `ast` in order.
    fn lower_types(&self, ast: Vec<ast::Type>, warnings: &mut Vec<LoweringWarning>) -> (r: Vec<hir::Type>)
        ensures
            lowers_types(ast@, r@),
            final(warnings)@ == old(warnings)@ + types_warnings(ast@),
        decreases ast,
    {
        let ghost all = ast@;
        let ghost before = warnings@;
        let mut r: Vec<hir::Type> = Vec::new();
        proof {
            assert(all.take(0).subrange(0, 0) =~= all.take(0));
            assert(before + types_warnings(all.take(0)) =~= before);
        }
        for item in it: ast
            invariant
                it.seq() == all,
                lowers_types(all.take(it.index() as int), r@),
                warnings@ == before + types_warnings(all.take(it.index() as int)),
        {
            proof {
                assert(decreases_to!(ast => ast@));
                assert(item == all[it.index() as int]);
            }
            let ghost k = it.index() as int;
            let ghost mid = warnings@;
            let lowered = self.lower_type(item, warnings);
            r.push(lowered);
            proof {
                let next = all.take(k + 1);
                assert(next.subrange(0, k) =~= all.take(k));
                assert(next[k] == item);
                assert(warnings@ =~= before + types_warnings(next));
                assert(lowers_types(next, r@)) by {
                    assert forall|i: int| 0 <= i < next.len() implies lowers_type(#[trigger] next[i], r@[i]) by {
                        if i < k {
                            assert(next[i] == all.take(k)[i]);
                        }
                    }
                }
            }
        }
        proof {
            assert(all.take(all.len() as int) =~= all);
        }
        r
    }

    /// Lowers the elements of `ast` in order.
    fn lower_type_constructors(&self, ast: Vec<ast::TypeConstructor>, warnings: &mut Vec<LoweringWarning>) -> (r: Vec<hir::TypeConstructor>)
        ensures
            lowers_type_constructors(ast@, r@),
            final(warnings)@ == old(warnings)@ + type_constructors_warnings(ast@),
        decreases ast,
    {
        let ghost all = ast@;
        let ghost before = warnings@;
        let mut r: Vec<hir::TypeConstructor> = Vec::new();
        proof {
            assert(all.take(0).subrange(0, 0) =~= all.take(0));
            assert(before + type_constructors_warnings(all.take(0)) =~= before);
        }
        for item in it: ast
            invariant
                it.seq() == all,
                lowers_type_constructors(all.take(it.index() as int), r@),
                warnings@ == before + type_constructors_warnings(all.take(it.index() as int)),
        {
            proof {
                assert(decreases_to!(ast => ast@));
                assert(item == all[it.index() as int]);
            }
            let ghost k = it.index() as int;
            let ghost mid = warnings@;
            let lowered = self.lower_type_constructor(item, warnings);
            r.push(lowered);
            proof {
                let next = all.take(k + 1);
                assert(next.subrange(0, k) =~= all.take(k));
                assert(next[k] == item);
                assert(warnings@ =~= before + type_constructors_warnings(next));
                assert(lowers_type_constructors(next, r@)) by {
                    assert forall|i: int| 0 <= i < next.len() implies lowers_type_constructor(#[trigger] next[i], r@[i]) by {
                        if i < k {
                            assert(next[i] == all.take(k)[i]);
                        }
                    }
                }
            }
        }
        proof {
            assert(all.take(all.len() as int) =~= all);
        }
        r
    }

    /// Lowers the elements of `ast` in order.
    fn lower_generic_parameters(&self, ast: Vec<ast::GenericParameter>, warnings: &mut Vec<LoweringWarning>) -> (r: Vec<hir::GenericParameter>)
        ensures
            lowers_generic_parameters(ast@, r@),
            final(warnings)@ == old(warnings)@ + generic_parameters_warnings(ast@),
        decreases ast,
    {
        let ghost all = ast@;
        let ghost before = warnings@;
        let mut r: Vec<hir::GenericParameter> = Vec::new();
        proof {
            assert(all.take(0).subrange(0, 0) =~= all.take(0));
            assert(before + generic_parameters_warnings(all.take(0)) =~= before);
        }
        for item in it: ast
            invariant
                it.seq() == all,
                lowers_generic_parameters(all.take(it.index() as int), r@),
                warnings@ == before + generic_parameters_warnings(all.take(it.index() as int)),
        {
            proof {
                assert(decreases_to!(ast => ast@));
                assert(item == all[it.index() as int]);
            }
            let ghost k = it.index() as int;
            let ghost mid = warnings@;
            let lowered = self.lower_generic_parameter(item, warnings);
            r.push(lowered);
            proof {
                let next = all.take(k + 1);
                assert(next.subrange(0, k) =~= all.take(k));
                assert(next[k] == item);
                assert(warnings@ =~= before + generic_parameters_warnings(next));
                assert(lowers_generic_parameters(next, r@)) by {
                    assert forall|i: int| 0 <= i < next.len() implies lowers_generic_parameter(#[trigger] next[i], r@[i]) by {
                        if i < k {
                            assert(next[i] == all.take(k)[i]);
                        }
                    }
                }
            }
        }
        proof {
            assert(all.take(all.len() as int) =~= all);
        }
        r
    }

    /// Lowers the elements of `ast` in order.
    fn lower_where_predicates(&self, ast: Vec<ast::WherePredicate>, warnings: &mut Vec<LoweringWarning>) -> (r: Vec<hir::WherePredicate>)
        ensures
            lowers_where_predicates(ast@, r@),
            final(warnings)@ == old(warnings)@ + where_predicates_warnings(ast@),
        decreases ast,
    {
        let ghost all = ast@;
        let ghost before = warnings@;
        let mut r: Vec<hir::WherePredicate> = Vec::new();
        proof {
            assert(all.take(0).subrange(0, 0) =~= all.take(0));
            assert(before + where_predicates_warnings(all.take(0)) =~= before);
        }
        for item in it: ast
            invariant
                it.seq() == all,
                lowers_where_predicates(all.take(it.index() as int), r@),
                warnings@ == before + where_predicates_warnings(all.take(it.index() as int)),
        {
            proof {
                assert(decreases_to!(ast => ast@));
                assert(item == all[it.index() as int]);
            }
            let ghost k = it.index() as int;
            let ghost mid = warnings@;
            let lowered = self.lower_where_predicate(item, warnings);
            r.push(lowered);
            proof {
                let next = all.take(k + 1);
                assert(next.subrange(0, k) =~= all.take(k));
                assert(next[k] == item);
                assert(warnings@ =~= before + where_predicates_warnings(next));
                assert(lowers_where_predicates(next, r@)) by {
                    assert forall|i: int| 0 <= i < next.len() implies lowers_where_predicate(#[trigger] next[i], r@[i]) by {
                        if i < k {
                            assert(next[i] == all.take(k)[i]);
                        }
                    }
                }
            }
        }
        proof {
            assert(all.take(all.len() as int) =~= all);
        }
        r
    }

    /// Lowers the elements of `ast` in order.
    fn lower_patterns(&self, ast: Vec<ast::Pattern>, warnings: &mut Vec<LoweringWarning>) -> (r: Vec<hir::Pattern>)
        ensures
            lowers_patterns(ast@, r@),
            final(warnings)@ == old(warnings)@ + patterns_warnings(ast@),
        decreases ast,
    {
        let ghost all = ast@;
        let ghost before = warnings@;
        let mut r: Vec<hir::Pattern> = Vec::new();
        proof {
            assert(all.take(0).subrange(0, 0) =~= all.take(0));
            assert(before + patterns_warnings(all.take(0)) =~= before);
        }
        for item in it: ast
            invariant
                it.seq() == all,
                lowers_patterns(all.take(it.index() as int), r@),
                warnings@ == before + patterns_warnings(all.take(it.index() as int)),
        {
            proof {
                assert(decreases_to!(ast => ast@));
                assert(item == all[it.index() as int]);
            }
            let ghost k = it.index() as int;
            let ghost mid = warnings@;
            let lowered = self.lower_pattern(item, warnings);
            r.push(lowered);
            proof {
                let next = all.take(k + 1);
                assert(next.subrange(0, k) =~= all.take(k));
                assert(next[k] == item);
                assert(warnings@ =~= before + patterns_warnings(next));
                assert(lowers_patterns(next, r@)) by {
                    assert forall|i: int| 0 <= i < next.len() implies lowers_pattern(#[trigger] next[i], r@[i]) by {
                        if i < k {
                            assert(next[i] == all.take(k)[i]);
                        }
                    }
                }
            }
        }
        proof {
            assert(all.take(all.len() as int) =~= all);
        }
        r
    }

    /// Lowers the elements of `ast` in order.
    fn lower_struct_field_patterns(&self, ast: Vec<ast::StructFieldPattern>, warnings: &mut Vec<LoweringWarning>) -> (r: Vec<hir::StructFieldPattern>)
        ensures
            lowers_struct_field_patterns(ast@, r@),
            final(warnings)@ == old(warnings)@ + struct_field_patterns_warnings(ast@),
        decreases ast,
    {
        let ghost all = ast@;
        let ghost before = warnings@;
        let mut r: Vec<hir::StructFieldPattern> = Vec::new();
        proof {
            assert(all.take(0).subrange(0, 0) =~= all.take(0));
            assert(before + struct_field_patterns_warnings(all.take(0)) =~= before);
        }
        for item in it: ast
            invariant
                it.seq() == all,
                lowers_struct_field_patterns(all.take(it.index() as int), r@),
                warnings@ == before + struct_field_patterns_warnings(all.take(it.index() as int)),
        {
            proof {
                assert(decreases_to!(ast => ast@));
                assert(item == all[it.index() as int]);
            }
            let ghost k = it.index() as int;
            let ghost mid = warnings@;
            let lowered = self.lower_struct_field_pattern(item, warnings);
            r.push(lowered);
            proof {
                let next = all.take(k + 1);
                assert(next.subrange(0, k) =~= all.take(k));
                assert(next[k] == item);
                assert(warnings@ =~= before + struct_field_patterns_warnings(next));
                assert(lowers_struct_field_patterns(next, r@)) by {
                    assert forall|i: int| 0 <= i < next.len() implies lowers_struct_field_pattern(#[trigger] next[i], r@[i]) by {
                        if i < k {
                            assert(next[i] == all.take(k)[i]);
                        }
                    }
                }
            }
        }
        proof {
            assert(all.take(all.len() as int) =~= all);
        }
        r
    }

    /// Lowers the elements of `ast` in order.
    fn lower_expressions(&self, ast: Vec<ast::Expression>, warnings: &mut Vec<LoweringWarning>) -> (r: Vec<hir::Expression>)
        ensures
            lowers_expressions(ast@, r@),
            final(warnings)@ == old(warnings)@ + expressions_warnings(ast@),
        decreases ast,
    {
        let ghost all = ast@;
        let ghost before = warnings@;
        let mut r: Vec<hir::Expression> = Vec::new();
        proof {
            assert(all.take(0).subrange(0, 0) =~= all.take(0));
            assert(before + expressions_warnings(all.take(0)) =~= before);
        }
        for item in it: ast
            invariant
                it.seq() == all,
                lowers_expressions(all.take(it.index() as int), r@),
                warnings@ == before + expressions_warnings(all.take(it.index() as int)),
        {
            proof {
                assert(decreases_to!(ast => ast@));
                assert(item == all[it.index() as int]);
            }
            let ghost k = it.index() as int;
            let ghost mid = warnings@;
            let lowered = self.lower_expression(item, warnings);
            r.push(lowered);
            proof {
                let next = all.take(k + 1);
                assert(next.subrange(0, k) =~= all.take(k));
                assert(next[k] == item);
                assert(warnings@ =~= before + expressions_warnings(next));
                assert(lowers_expressions(next, r@)) by {
                    assert forall|i: int| 0 <= i < next.len() implies lowers_expression(#[trigger] next[i], r@[i]) by {
                        if i < k {
                            assert(next[i] == all.take(k)[i]);
                        }
                    }
                }
            }
        }
        proof {
            assert(all.take(all.len() as int) =~= all);
        }
        r
    }

    /// Lowers the elements of `ast` in order.
    fn lower_statements(&self, ast: Vec<ast::Statement>, warnings: &mut Vec<LoweringWarning>) -> (r: Vec<hir::Statement>)
        ensures
            lowers_statements(ast@, r@),
            final(warnings)@ == old(warnings)@ + statements_warnings(ast@),
        decreases ast,
    {
        let ghost all = ast@;
        let ghost before = warnings@;
        let mut r: Vec<hir::Statement> = Vec::new();
        proof {
            assert(all.take(0).subrange(0, 0) =~= all.take(0));
            assert(before + statements_warnings(all.take(0)) =~= before);
        }
        for item in it: ast
            invariant
                it.seq() == all,
                lowers_statements(all.take(it.index() as int), r@),
                warnings@ == before + statements_warnings(all.take(it.index() as int)),
        {
            proof {
                assert(decreases_to!(ast => ast@));
                assert(item == all[it.index() as int]);
            }
            let ghost k = it.index() as int;
            let ghost mid = warnings@;
            let lowered = self.lower_statement(item, warnings);
            r.push(lowered);
            proof {
                let next = all.take(k + 1);
                assert(next.subrange(0, k) =~= all.take(k));
                assert(next[k] == item);
                assert(warnings@ =~= before + statements_warnings(next));
                assert(lowers_statements(next, r@)) by {
                    assert forall|i: int| 0 <= i < next.len() implies lowers_statement(#[trigger] next[i], r@[i]) by {
                        if i < k {
                            assert(next[i] == all.take(k)[i]);
                        }
                    }
                }
            }
        }
        proof {
            assert(all.take(all.len() as int) =~= all);
        }
        r
    }

    /// Lowers the elements of `ast` in order.
    fn lower_match_expression_items(&self, ast: Vec<ast::MatchExpressionItem>, warnings: &mut Vec<LoweringWarning>) -> (r: Vec<hir::MatchExpressionItem>)
        ensures
            lowers_match_expression_items(ast@, r@),
            final(warnings)@ == old(warnings)@ + match_expression_items_warnings(ast@),
        decreases ast,
    {
        let ghost all = ast@;
        let ghost before = warnings@;
        let mut r: Vec<hir::MatchExpressionItem> = Vec::new();
        proof {
            assert(all.take(0).subrange(0, 0) =~= all.take(0));
            assert(before + match_expression_items_warnings(all.take(0)) =~= before);
        }
        for item in it: ast
            invariant
                it.seq() == all,
                lowers_match_expression_items(all.take(it.index() as int), r@),
                warnings@ == before + match_expression_items_warnings(all.take(it.index() as int)),
        {
            proof {
                assert(decreases_to!(ast => ast@));
                assert(item == all[it.index() as int]);
            }
            let ghost k = it.index() as int;
            let ghost mid = warnings@;
            let lowered = self.lower_match_expression_item(item, warnings);
            r.push(lowered);
            proof {
                let next = all.take(k + 1);
                assert(next.subrange(0, k) =~= all.take(k));
                assert(next[k] == item);
                assert(warnings@ =~= before + match_expression_items_warnings(next));
                assert(lowers_match_expression_items(next, r@)) by {
                    assert forall|i: int| 0 <= i < next.len() implies lowers_match_expression_item(#[trigger] next[i], r@[i]) by {
                        if i < k {
                            assert(next[i] == all.take(k)[i]);
                        }
                    }
                }
            }
        }
        proof {
            assert(all.take(all.len() as int) =~= all);
        }
        r
    }

    /// Lowers the elements of `ast` in order.
    fn lower_struct_field_expressions(&self, ast: Vec<ast::StructFieldExpression>, warnings: &mut Vec<LoweringWarning>) -> (r: Vec<hir::StructExpressionItem>)
        ensures
            lowers_struct_field_expressions(ast@, r@),
            final(warnings)@ == old(warnings)@ + struct_field_expressions_warnings(ast@),
        decreases ast,
    {
        let ghost all = ast@;
        let ghost before = warnings@;
        let mut r: Vec<hir::StructExpressionItem> = Vec::new();
        proof {
            assert(all.take(0).subrange(0, 0) =~= all.take(0));
            assert(before + struct_field_expressions_warnings(all.take(0)) =~= before);
        }
        for item in it: ast
            invariant
                it.seq() == all,
                lowers_struct_field_expressions(all.take(it.index() as int), r@),
                warnings@ == before + struct_field_expressions_warnings(all.take(it.index() as int)),
        {
            proof {
                assert(decreases_to!(ast => ast@));
                assert(item == all[it.index() as int]);
            }
            let ghost k = it.index() as int;
            let ghost mid = warnings@;
            let lowered = self.lower_struct_field_expression(item, warnings);
            r.push(lowered);
            proof {
                let next = all.take(k + 1);
                assert(next.subrange(0, k) =~= all.take(k));
                assert(next[k] == item);
                assert(warnings@ =~= before + struct_field_expressions_warnings(next));
                assert(lowers_struct_field_expressions(next, r@)) by {
                    assert forall|i: int| 0 <= i < next.len() implies lowers_struct_field_expression(#[trigger] next[i], r@[i]) by {
                        if i < k {
                            assert(next[i] == all.take(k)[i]);
                        }
                    }
                }
            }
        }
        proof {
            assert(all.take(all.len() as int) =~= all);
        }
        r
    }

    /// Lowers the elements of `ast` in order.
    fn lower_lambda_function_parameters(&self, ast: Vec<ast::LambdaFunctionParameter>, warnings: &mut Vec<LoweringWarning>) -> (r: Vec<hir::LambdaFunctionParameter>)
        ensures
            lowers_lambda_function_parameters(ast@, r@),
            final(warnings)@ == old(warnings)@ + lambda_function_parameters_warnings(ast@),
        decreases ast,
    {
        let ghost all = ast@;
        let ghost before = warnings@;
        let mut r: Vec<hir::LambdaFunctionParameter> = Vec::new();
        proof {
            assert(all.take(0).subrange(0, 0) =~= all.take(0));
            assert(before + lambda_function_parameters_warnings(all.take(0)) =~= before);
        }
        for item in it: ast
            invariant
                it.seq() == all,
                lowers_lambda_function_parameters(all.take(it.index() as int), r@),
                warnings@ == before + lambda_function_parameters_warnings(all.take(it.index() as int)),
        {
            proof {
                assert(decreases_to!(ast => ast@));
                assert(item == all[it.index() as int]);
            }
            let ghost k = it.index() as int;
            let ghost mid = warnings@;
            let lowered = self.lower_lambda_function_parameter(item, warnings);
            r.push(lowered);
            proof {
                let next = all.take(k + 1);
                assert(next.subrange(0, k) =~= all.take(k));
                assert(next[k] == item);
                assert(warnings@ =~= before + lambda_function_parameters_warnings(next));
                assert(lowers_lambda_function_parameters(next, r@)) by {
                    assert forall|i: int| 0 <= i < next.len() implies lowers_lambda_function_parameter(#[trigger] next[i], r@[i]) by {
                        if i < k {
                            assert(next[i] == all.take(k)[i]);
                        }
                    }
                }
            }
        }
        proof {
            assert(all.take(all.len() as int) =~= all);
        }
        r
    }

    /// Lowers the elements of `ast` in order.
    fn lower_if_blocks(&self, ast: Vec<(ast::Expression, Vec<ast::Statement>)>, warnings: &mut Vec<LoweringWarning>) -> (r: Vec<(hir::Expression, Vec<hir::Statement>)>)
        ensures
            lowers_if_blocks(ast@, r@),
            final(warnings)@ == old(warnings)@ + if_blocks_warnings(ast@),
        decreases ast,
    {
        let ghost all = ast@;
        let ghost before = warnings@;
        let mut r: Vec<(hir::Expression, Vec<hir::Statement>)> = Vec::new();
        proof {
            assert(all.take(0).subrange(0, 0) =~= all.take(0));
            assert(before + if_blocks_warnings(all.take(0)) =~= before);
        }
        for item in it: ast
            invariant
                it.seq() == all,
                lowers_if_blocks(all.take(it.index() as int), r@),
                warnings@ == before + if_blocks_warnings(all.take(it.index() as int)),
        {
            proof {
                assert(decreases_to!(ast => ast@));
                assert(item == all[it.index() as int]);
            }
            let ghost k = it.index() as int;
            let ghost mid = warnings@;
            let lowered = self.lower_if_block(item, warnings);
            r.push(lowered);
            proof {
                let next = all.take(k + 1);
                assert(next.subrange(0, k) =~= all.take(k));
                assert(next[k] == item);
                assert(warnings@ =~= before + if_blocks_warnings(next));
                assert(lowers_if_blocks(next, r@)) by {
                    assert forall|i: int| 0 <= i < next.len() implies lowers_if_block(#[trigger] next[i], r@[i]) by {
                        if i < k {
                            assert(next[i] == all.take(k)[i]);
                        }
                    }
                }
            }
        }
        proof {
            assert(all.take(all.len() as int) =~= all);
        }
        r
    }

    /// Lowers the elements of `ast` in order.
    fn lower_function_parameters(&self, ast: Vec<ast::FunctionParameter>, warnings: &mut Vec<LoweringWarning>) -> (r: Vec<hir::FunctionParameter>)
        ensures
            lowers_function_parameters(ast@, r@),
            final(warnings)@ == old(warnings)@ + function_parameters_warnings(ast@),
        decreases ast,
    {
        let ghost all = ast@;
        let ghost before = warnings@;
        let mut r: Vec<hir::FunctionParameter> = Vec::new();
        proof {
            assert(all.take(0).subrange(0, 0) =~= all.take(0));
            assert(before + function_parameters_warnings(all.take(0)) =~= before);
        }
        for item in it: ast
            invariant
                it.seq() == all,
                lowers_function_parameters(all.take(it.index() as int), r@),
                warnings@ == before + function_parameters_warnings(all.take(it.index() as int)),
        {
            proof {
                assert(decreases_to!(ast => ast@));
                assert(item == all[it.index() as int]);
            }
            let ghost k = it.index() as int;
            let ghost mid = warnings@;
            let lowered = self.lower_function_parameter(item, warnings);
            r.push(lowered);
            proof {
                let next = all.take(k + 1);
                assert(next.subrange(0, k) =~= all.take(k));
                assert(next[k] == item);
                assert(warnings@ =~= before + function_parameters_warnings(next));
                assert(lowers_function_parameters(next, r@)) by {
                    assert forall|i: int| 0 <= i < next.len() implies lowers_function_parameter(#[trigger] next[i], r@[i]) by {
                        if i < k {
                            assert(next[i] == all.take(k)[i]);
                        }
                    }
                }
            }
        }
        proof {
            assert(all.take(all.len() as int) =~= all);
        }
        r
    }

    /// Lowers the elements of `ast` in order.
    fn lower_functions(&self, ast: Vec<ast::Function>, warnings: &mut Vec<LoweringWarning>) -> (r: Vec<hir::Function>)
        ensures
            lowers_functions(ast@, r@),
            final(warnings)@ == old(warnings)@ + functions_warnings(ast@),
        decreases ast,
    {
        let ghost all = ast@;
        let ghost before = warnings@;
        let mut r: Vec<hir::Function> = Vec::new();
        proof {
            assert(all.take(0).subrange(0, 0) =~= all.take(0));
            assert(before + functions_warnings(all.take(0)) =~= before);
        }
        for item in it: ast
            invariant
                it.seq() == all,
                lowers_functions(all.take(it.index() as int), r@),
                warnings@ == before + functions_warnings(all.take(it.index() as int)),
        {
            proof {
                assert(decreases_to!(ast => ast@));
                assert(item == all[it.index() as int]);
            }
            let ghost k = it.index() as int;
            let ghost mid = warnings@;
            let lowered = self.lower_function(item, warnings);
            r.push(lowered);
            proof {
                let next = all.take(k + 1);
                assert(next.subrange(0, k) =~= all.take(k));
                assert(next[k] == item);
                assert(warnings@ =~= before + functions_warnings(next));
                assert(lowers_functions(next, r@)) by {
                    assert forall|i: int| 0 <= i < next.len() implies lowers_function(#[trigger] next[i], r@[i]) by {
                        if i < k {
                            assert(next[i] == all.take(k)[i]);
                        }
                    }
                }
            }
        }
        proof {
            assert(all.take(all.len() as int) =~= all);
        }
        r
    }

    /// Lowers the elements of `ast` in order.
    fn lower_enum_items(&self, ast: Vec<ast::EnumItem>, warnings: &mut Vec<LoweringWarning>) -> (r: Vec<hir::EnumItem>)
        ensures
            lowers_enum_items(ast@, r@),
            final(warnings)@ == old(warnings)@ + enum_items_warnings(ast@),
        decreases ast,
    {
        let ghost all = ast@;
        let ghost before = warnings@;
        let mut r: Vec<hir::EnumItem> = Vec::new();
        proof {
            assert(all.take(0).subrange(0, 0) =~= all.take(0));
            assert(before + enum_items_warnings(all.take(0)) =~= before);
        }
        for item in it: ast
            invariant
                it.seq() == all,
                lowers_enum_items(all.take(it.index() as int), r@),
                warnings@ == before + enum_items_warnings(all.take(it.index() as int)),
        {
            proof {
                assert(decreases_to!(ast => ast@));
                assert(item == all[it.index() as int]);
            }
            let ghost k = it.index() as int;
            let ghost mid = warnings@;
            let lowered = self.lower_enum_item(item, warnings);
            r.push(lowered);
            proof {
                let next = all.take(k + 1);
                assert(next.subrange(0, k) =~= all.take(k));
                assert(next[k] == item);
                assert(warnings@ =~= before + enum_items_warnings(next));
                assert(lowers_enum_items(next, r@)) by {
                    assert forall|i: int| 0 <= i < next.len() implies lowers_enum_item(#[trigger] next[i], r@[i]) by {
                        if i < k {
                            assert(next[i] == all.take(k)[i]);
                        }
                    }
                }
            }
        }
        proof {
            assert(all.take(all.len() as int) =~= all);
        }
        r
    }

    /// Lowers the elements of `ast` in order.
    fn lower_struct_fields(&self, ast: Vec<ast::StructField>, warnings: &mut Vec<LoweringWarning>) -> (r: Vec<hir::StructField>)
        ensures
            lowers_struct_fields(ast@, r@),
            final(warnings)@ == old(warnings)@ + struct_fields_warnings(ast@),
        decreases ast,
    {
        let ghost all = ast@;
        let ghost before = warnings@;
        let mut r: Vec<hir::StructField> = Vec::new();
        proof {
            assert(all.take(0).subrange(0, 0) =~= all.take(0));
            assert(before + struct_fields_warnings(all.take(0)) =~= before);
        }
        for item in it: ast
            invariant
                it.seq() == all,
                lowers_struct_fields(all.take(it.index() as int), r@),
                warnings@ == before + struct_fields_warnings(all.take(it.index() as int)),
        {
            proof {
                assert(decreases_to!(ast => ast@));
                assert(item == all[it.index() as int]);
            }
            let ghost k = it.index() as int;
            let ghost mid = warnings@;
            let lowered = self.lower_struct_field(item, warnings);
            r.push(lowered);
            proof {
                let next = all.take(k + 1);
                assert(next.subrange(0, k) =~= all.take(k));
                assert(next[k] == item);
                assert(warnings@ =~= before + struct_fields_warnings(next));
                assert(lowers_struct_fields(next, r@)) by {
                    assert forall|i: int| 0 <= i < next.len() implies lowers_struct_field(#[trigger] next[i], r@[i]) by {
                        if i < k {
                            assert(next[i] == all.take(k)[i]);
                        }
                    }
                }
            }
        }
        proof {
            assert(all.take(all.len() as int) =~= all);
        }
        r
    }

    /// Lowers the elements of `ast` in order.
    fn lower_tuple_fields(&self, ast: Vec<ast::TupleField>, warnings: &mut Vec<LoweringWarning>) -> (r: Vec<hir::TupleField>)
        ensures
            lowers_tuple_fields(ast@, r@),
            final(warnings)@ == old(warnings)@ + tuple_fields_warnings(ast@),
        decreases ast,
    {
        let ghost all = ast@;
        let ghost before = warnings@;
        let mut r: Vec<hir::TupleField> = Vec::new();
        proof {
            assert(all.take(0).subrange(0, 0) =~= all.take(0));
            assert(before + tuple_fields_warnings(all.take(0)) =~= before);
        }
        for item in it: ast
            invariant
                it.seq() == all,
                lowers_tuple_fields(all.take(it.index() as int), r@),
                warnings@ == before + tuple_fields_warnings(all.take(it.index() as int)),
        {
            proof {
                assert(decreases_to!(ast => ast@));
                assert(item == all[it.index() as int]);
            }
            let ghost k = it.index() as int;
            let ghost mid = warnings@;
            let lowered = self.lower_tuple_field(item, warnings);
            r.push(lowered);
            proof {
                let next = all.take(k + 1);
                assert(next.subrange(0, k) =~= all.take(k));
                assert(next[k] == item);
                assert(warnings@ =~= before + tuple_fields_warnings(next));
                assert(lowers_tuple_fields(next, r@)) by {
                    assert forall|i: int| 0 <= i < next.len() implies lowers_tuple_field(#[trigger] next[i], r@[i]) by {
                        if i < k {
                            assert(next[i] == all.take(k)[i]);
                        }
                    }
                }
            }
        }
        proof {
            assert(all.take(all.len() as int) =~= all);
        }
        r
    }

    /// Lowers the elements of `ast` in order.
    fn lower_module_items(&self, ast: Vec<ast::ModuleItem>, warnings: &mut Vec<LoweringWarning>) -> (r: Vec<hir::ModuleItem>)
        ensures
            lowers_module_items(ast@, r@),
            final(warnings)@ == old(warnings)@ + module_items_warnings(ast@),
        decreases ast,
    {
        let ghost all = ast@;
        let ghost before = warnings@;
        let mut r: Vec<hir::ModuleItem> = Vec::new();
        proof {
            assert(all.take(0).subrange(0, 0) =~= all.take(0));
            assert(before + module_items_warnings(all.take(0)) =~= before);
        }
        for item in it: ast
            invariant
                it.seq() == all,
                lowers_module_items(all.take(it.index() as int), r@),
                warnings@ == before + module_items_warnings(all.take(it.index() as int)),
        {
            proof {
                assert(decreases_to!(ast => ast@));
                assert(item == all[it.index() as int]);
            }
            let ghost k = it.index() as int;
            let ghost mid = warnings@;
            let lowered = self.lower_module_item(item, warnings);
            r.push(lowered);
            proof {
                let next = all.take(k + 1);
                assert(next.subrange(0, k) =~= all.take(k));
                assert(next[k] == item);
                assert(warnings@ =~= before + module_items_warnings(next));
                assert(lowers_module_items(next, r@)) by {
                    assert forall|i: int| 0 <= i < next.len() implies lowers_module_item(#[trigger] next[i], r@[i]) by {
                        if i < k {
                            assert(next[i] == all.take(k)[i]);
                        }
                    }
                }
            }
        }
        proof {
            assert(all.take(all.len() as int) =~= all);
        }
        r
    }
}

/// Reports the given warnings, in order, in `diagnostics`.
fn report_warnings(warnings: &Vec<LoweringWarning>, diagnostics: &mut Diagnostics)
    requires
        old(diagnostics).wf(),
    ensures
        logged(*old(diagnostics), *final(diagnostics), warnings@),
{
    let ghost d0 = *diagnostics;
    let mut i: usize = 0;
    proof {
        assert(warning_files(warnings@.take(0)) =~= Set::empty());
        assert(d0.files() + Set::empty() =~= d0.files());
        assert(diagnostics.diagnostics@.take(d0.diagnostics@.len() as int) =~= d0.diagnostics@);
    }
    while i < warnings.len()
        invariant
            i <= warnings@.len(),
            d0.wf(),
            logged(d0, *diagnostics, warnings@.take(i as int)),
        decreases warnings@.len() - i,
    {
        let ghost before = *diagnostics;
        let warning = warnings[i];
        diagnostics.add_diagnostic(warning);
        proof {
            let ws = warnings@.take(i + 1);
            let n = d0.diagnostics@.len();
            let d = diagnostics.diagnostics@.last();
            assert(ws =~= warnings@.take(i as int).push(warning));
            assert(d.label_files() =~= seq![warning.location_of().filepath, warning.location_of().filepath]);
            assert(d.label_files().to_set() =~= set![warning.location_of().filepath]);
            assert(warning_files(ws) =~= warning_files(warnings@.take(i as int)).insert(warning.location_of().filepath)) by {
                assert(ws[i as int] == warning);
                assert forall|p: PathId| #[trigger] warning_files(ws).contains(p)
                    implies warning_files(warnings@.take(i as int)).insert(warning.location_of().filepath).contains(p) by {
                    let j = choose|j: int| 0 <= j < ws.len() && ws[j].location_of().filepath == p;
                    if j < i {
                        assert(ws[j] == warnings@.take(i as int)[j]);
                    }
                }
                assert forall|p: PathId| #[trigger] warning_files(warnings@.take(i as int)).contains(p)
                    implies warning_files(ws).contains(p) by {
                    let j = choose|j: int| 0 <= j < i && warnings@.take(i as int)[j].location_of().filepath == p;
                    assert(ws[j] == warnings@.take(i as int)[j]);
                }
            }
            assert(diagnostics.files() =~= d0.files() + warning_files(ws));
            assert(diagnostics.diagnostics@.take(n as int) =~= d0.diagnostics@) by {
                assert(diagnostics.diagnostics@.drop_last() == before.diagnostics@);
                assert(before.diagnostics@.take(n as int) == d0.diagnostics@);
            }
            assert forall|j: int| 0 <= j < ws.len() implies ws[j].describes(
                #[trigger] diagnostics.diagnostics@[n + j],
            ) by {
                if j < i {
                    assert(diagnostics.diagnostics@[n + j] == before.diagnostics@[n + j]);
                    assert(ws[j] == warnings@.take(i as int)[j]);
                }
            }
        }
        i = i + 1;
    }
    proof {
        assert(warnings@.take(warnings@.len() as int) =~= warnings@);
    }
}

/// Provides the [`LowerExt::lower()`] method.
pub trait LowerExt: Sized {
    /// The HIR that lowering gives for the file `file_path_id`.
    spec fn lowers_to(self, h: hir::Module, file_path_id: PathId) -> bool;

    /// The warnings that lowering gives.
    spec fn lowering_warnings(self) -> Seq<LoweringWarning>;

    /// Converts a given AST into HIR.
    fn lower(self, file_path_id: PathId, diagnostics: &mut Diagnostics) -> (r: hir::Module)
        requires
            old(diagnostics).wf(),
        ensures
            self.lowers_to(r, file_path_id),
            logged(*old(diagnostics), *final(diagnostics), self.lowering_warnings()),
    ;
}

impl LowerExt for ast::Module {
    open spec fn lowers_to(self, h: hir::Module, file_path_id: PathId) -> bool {
        lowers_module(self, h, file_path_id)
    }

    open spec fn lowering_warnings(self) -> Seq<LoweringWarning> {
        module_warnings(self)
    }

    fn lower(self, file_path_id: PathId, diagnostics: &mut Diagnostics) -> (r: hir::Module) {
        LoweringContext::new(file_path_id).lower(self, diagnostics)
    }
}

} // verus!
