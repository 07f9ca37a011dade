//! The abstract syntax tree of a Stellar module, as the parser builds it.
//!
//! Compared to the HIR (see [`crate::hir`]), the AST keeps everything that
//! was written: parenthesized expressions and types, grouped patterns,
//! `loop` expressions and interface inheritance lists.

use vstd::prelude::*;

use crate::interner::{IdentifierId, PathId};
use crate::location::Location;

verus! {

/// An identifier together with its location, e.g. `foo`.
#[derive(Debug, Clone, Copy, PartialEq, Eq, Hash, Structural)]
pub struct IdentifierAST {
    /// The location of the identifier.
    pub location: Location,
    /// The interned identifier.
    pub id: IdentifierId,
}

/// A path, e.g. `std.io.println`.
#[derive(Debug, Clone, PartialEq, Eq, Hash)]
pub struct Path {
    /// The location of the whole path.
    pub location: Location,
    /// The identifiers of the path, separated by dots.
    pub identifiers: Vec<IdentifierAST>,
}

/// An import path, e.g. `std.io` or `std.io as io`.
#[derive(Debug, Clone, PartialEq, Eq, Hash)]
pub struct ImportPath {
    /// The imported path.
    pub path: Path,
    /// The name the import is given with `as`, if any.
    pub as_: Option<IdentifierAST>,
}

/// A visibility qualifier: `pub` or nothing.
#[derive(Debug, Clone, Copy, PartialEq, Eq, Hash, Structural)]
pub enum Visibility {
    /// No qualifier.
    Private,
    /// `pub`, with the location of the keyword.
    Public(Location),
}

/// The kind of a module item.
#[derive(Debug, Clone, Copy, PartialEq, Eq, Hash, Structural)]
pub enum ModuleItemKind {
    /// An enum.
    Enum,
    /// A function.
    Function,
    /// An import.
    Import,
    /// An interface.
    Interface,
    /// A struct.
    Struct,
    /// A tuple-like struct.
    TupleLikeStruct,
    /// A type alias.
    TypeAlias,
}

/// A literal, e.g. `true`, `3`, `\"hello\"`.
#[derive(Debug, PartialEq)]
pub enum Literal {
    /// A boolean literal, e.g. `true`.
    Boolean { value: bool, location: Location },
    /// A character literal, e.g. `'a'`.
    Character { value: char, location: Location },
    /// A string literal, e.g. `\"hello\"`.
    String { value: String, location: Location },
    /// An integer literal, e.g. `3`.
    Integer { value: u64, location: Location },
    /// A float literal, e.g. `3.14`; the value is kept as the literal is
    /// written, without its underscores, which is valid float syntax.
    Float { value: String, location: Location },
}

impl Literal {
    /// The location of the literal.
    pub open spec fn location_of(&self) -> Location {
        match self {
            Literal::Boolean { location, .. } => *location,
            Literal::Character { location, .. } => *location,
            Literal::String { location, .. } => *location,
            Literal::Integer { location, .. } => *location,
            Literal::Float { location, .. } => *location,
        }
    }

    /// Returns the location of the literal.
    pub fn location(&self) -> (r: Location)
        ensures
            r == self.location_of(),
    {
        match self {
            Literal::Boolean { location, .. } => *location,
            Literal::Character { location, .. } => *location,
            Literal::String { location, .. } => *location,
            Literal::Integer { location, .. } => *location,
            Literal::Float { location, .. } => *location,
        }
    }
}

/// A negative numeric literal, as it appears in patterns, e.g. `-3`.
#[derive(Debug, Clone, PartialEq)]
pub enum NegativeNumericLiteral {
    /// A negative integer; the value is the magnitude.
    Integer { value: u64, location: Location },
    /// A negative float; the value is the magnitude as it is written,
    /// without its underscores.
    Float { value: String, location: Location },
}

impl NegativeNumericLiteral {
    /// The location of the literal.
    pub open spec fn location_of(&self) -> Location {
        match self {
            NegativeNumericLiteral::Integer { location, .. } => *location,
            NegativeNumericLiteral::Float { location, .. } => *location,
        }
    }

    /// Returns the location of the literal.
    pub fn location(&self) -> (r: Location)
        ensures
            r == self.location_of(),
    {
        match self {
            NegativeNumericLiteral::Integer { location, .. } => *location,
            NegativeNumericLiteral::Float { location, .. } => *location,
        }
    }
}

/// A binary operator without its location.
#[derive(Debug, Clone, Copy, PartialEq, Eq, Hash, Structural)]
pub enum RawBinaryOperator {
    PlusEq,
    Plus,
    MinusEq,
    Minus,
    DoubleAsterisk,
    AsteriskEq,
    Asterisk,
    SlashEq,
    Slash,
    BangEq,
    RightShift,
    GreaterEq,
    Greater,
    LeftShift,
    LessEq,
    Less,
    DoubleEq,
    Eq,
    OrEq,
    DoubleOr,
    Or,
    DoubleAmpersand,
    Ampersand,
    CaretEq,
    Caret,
    PercentEq,
    Percent,
}

/// A binary operator with its location, e.g. `+` in `1 + 2`.
#[derive(Debug, Clone, Copy, PartialEq, Eq, Hash, Structural)]
pub struct BinaryOperator {
    pub location: Location,
    pub raw: RawBinaryOperator,
}

/// A prefix operator without its location.
#[derive(Debug, Clone, Copy, PartialEq, Eq, Hash, Structural)]
pub enum RawPrefixOperator {
    Bang,
    Tilde,
    DoublePlus,
    DoubleMinus,
    Plus,
    Minus,
}

/// A prefix operator with its location, e.g. `!` in `!false`.
#[derive(Debug, Clone, Copy, PartialEq, Eq, Hash, Structural)]
pub struct PrefixOperator {
    pub location: Location,
    pub raw: RawPrefixOperator,
}

/// A postfix operator without its location.
#[derive(Debug, Clone, Copy, PartialEq, Eq, Hash, Structural)]
pub enum RawPostfixOperator {
    QuestionMark,
    DoublePlus,
    DoubleMinus,
}

/// A postfix operator with its location, e.g. `?` in `read()?`.
#[derive(Debug, Clone, Copy, PartialEq, Eq, Hash, Structural)]
pub struct PostfixOperator {
    pub location: Location,
    pub raw: RawPostfixOperator,
}

/// Precedence of binary and postfix operators, from the loosest to the
/// tightest binding.
#[derive(Debug, Clone, Copy, PartialEq, Eq, PartialOrd, Ord, Hash, Default, Structural)]
pub enum Precedence {
    #[default]
    Lowest,
    Assign,
    OrOr,
    AndAnd,
    Or,
    Xor,
    And,
    Eq,
    LessOrGreater,
    LeftRightShift,
    Sum,
    Product,
    Power,
    Cast,
    Unary,
    Call,
    Dot,
}

/// A type constructor, e.g. `Option[T]`.
#[derive(Debug, PartialEq)]
pub struct TypeConstructor {
    pub location: Location,
    pub path: Path,
    pub arguments: Vec<Type>,
}

/// A type, e.g. `int32`, `(char): bool`, `(char, char)`.
#[derive(Debug, PartialEq)]
pub enum Type {
    /// A type constructor, e.g. `char`, `List[int32]`.
    Constructor(TypeConstructor),
    /// A tuple type, e.g. `(int32, String, char)`.
    Tuple { location: Location, element_types: Vec<Type> },
    /// A function type, e.g. `(char): bool`; the return type may be left out.
    Function { location: Location, parameter_types: Vec<Type>, return_type: Option<Box<Type>> },
    /// A parenthesized type, e.g. `(int32)`.
    Parenthesized { location: Location, inner: Box<Type> },
    /// An underscore type, e.g. `_`.
    Underscore { location: Location },
    /// An interface object type, e.g. `dyn Debug + Clone`.
    InterfaceObject { location: Location, bounds: Vec<TypeConstructor> },
}

impl Type {
    /// The location of the type.
    pub open spec fn location_of(&self) -> Location {
        match self {
            Type::Constructor(c) => c.location,
            Type::Tuple { location, .. } => *location,
            Type::Function { location, .. } => *location,
            Type::Parenthesized { location, .. } => *location,
            Type::Underscore { location } => *location,
            Type::InterfaceObject { location, .. } => *location,
        }
    }

    /// Returns the location of the type.
    pub fn location(&self) -> (r: Location)
        ensures
            r == self.location_of(),
    {
        match self {
            Type::Constructor(c) => c.location,
            Type::Tuple { location, .. } => *location,
            Type::Function { location, .. } => *location,
            Type::Parenthesized { location, .. } => *location,
            Type::Underscore { location } => *location,
            Type::InterfaceObject { location, .. } => *location,
        }
    }
}

/// A pattern, e.g. `Some(x)`, `None`, `a @ [3, ..]`, `(1, \"hello\")`.
#[derive(Debug, PartialEq)]
pub enum Pattern {
    /// A literal pattern, e.g. `'a'`, `true`.
    Literal(Literal),
    /// A negative numeric literal pattern, e.g. `-3`.
    NegativeNumericLiteral(NegativeNumericLiteral),
    /// An identifier pattern, e.g. `f`, `list @ [3, ..]`.
    Identifier { location: Location, identifier: IdentifierAST, pattern: Option<Box<Pattern>> },
    /// A wildcard pattern, `_`.
    Wildcard { location: Location },
    /// A struct pattern, e.g. `Person { name, age, .. }`.
    Struct { location: Location, path: Path, fields: Vec<StructFieldPattern> },
    /// A tuple-like pattern, e.g. `Some(x)`.
    TupleLike { location: Location, path: Path, inner_patterns: Vec<Pattern> },
    /// A tuple pattern, e.g. `(a, \"hello\", ..)`.
    Tuple { location: Location, elements: Vec<Pattern> },
    /// A path pattern, e.g. `Option.None`.
    Path { path: Path },
    /// A list pattern, e.g. `[1, .., 10]`.
    List { location: Location, inner_patterns: Vec<Pattern> },
    /// A grouped pattern, e.g. `(x)`.
    Grouped { location: Location, inner: Box<Pattern> },
    /// An or pattern, e.g. `Some(..) | None`.
    Or { location: Location, left: Box<Pattern>, right: Box<Pattern> },
    /// A rest pattern, `..`.
    Rest { location: Location },
}

impl Pattern {
    /// The location of the pattern.
    pub open spec fn location_of(&self) -> Location {
        match self {
            Pattern::Literal(literal) => literal.location_of(),
            Pattern::NegativeNumericLiteral(literal) => literal.location_of(),
            Pattern::Identifier { location, .. } => *location,
            Pattern::Wildcard { location } => *location,
            Pattern::Struct { location, .. } => *location,
            Pattern::TupleLike { location, .. } => *location,
            Pattern::Tuple { location, .. } => *location,
            Pattern::Path { path } => path.location,
            Pattern::List { location, .. } => *location,
            Pattern::Grouped { location, .. } => *location,
            Pattern::Or { location, .. } => *location,
            Pattern::Rest { location } => *location,
        }
    }

    /// Returns the location of the pattern.
    pub fn location(&self) -> (r: Location)
        ensures
            r == self.location_of(),
    {
        match self {
            Pattern::Literal(literal) => literal.location(),
            Pattern::NegativeNumericLiteral(literal) => literal.location(),
            Pattern::Identifier { location, .. } => *location,
            Pattern::Wildcard { location } => *location,
            Pattern::Struct { location, .. } => *location,
            Pattern::TupleLike { location, .. } => *location,
            Pattern::Tuple { location, .. } => *location,
            Pattern::Path { path } => path.location,
            Pattern::List { location, .. } => *location,
            Pattern::Grouped { location, .. } => *location,
            Pattern::Or { location, .. } => *location,
            Pattern::Rest { location } => *location,
        }
    }
}

/// A pattern matching a struct field, e.g. `name` or `age: 3` or `..`.
#[derive(Debug, PartialEq)]
pub enum StructFieldPattern {
    /// A field, optionally with a pattern for its value.
    NotRest { location: Location, field_name: IdentifierAST, value_pattern: Option<Pattern> },
    /// A rest pattern, `..`.
    Rest { location: Location },
}

/// A generic parameter, e.g. `T` in `fun into[T](a: T);`.
#[derive(Debug, PartialEq)]
pub struct GenericParameter {
    pub name: IdentifierAST,
    pub bounds: Option<Vec<TypeConstructor>>,
    pub default_value: Option<Type>,
}

/// A where clause item, e.g. `T: ToString`.
#[derive(Debug, PartialEq)]
pub struct WherePredicate {
    pub ty: Type,
    pub bounds: Vec<TypeConstructor>,
}

/// An expression.
#[derive(Debug, PartialEq)]
pub enum Expression {
    /// List expression, e.g. `[1, 2, 3]`.
    List { location: Location, elements: Vec<Expression> },
    /// As expression, e.g. `a as float32`.
    As { location: Location, left: Box<Expression>, right: Type },
    /// Binary expression, e.g. `1 + 2`.
    Binary {
        location: Location,
        left: Box<Expression>,
        operator: BinaryOperator,
        right: Box<Expression>,
    },
    /// Block expression, e.g. `{ let b = 1; b }`.
    StatementsBlock { location: Location, block: Vec<Statement> },
    /// Literal expression, e.g. `true`, `1.2`.
    Literal(Literal),
    /// Identifier expression, e.g. `foo`.
    Identifier(IdentifierAST),
    /// Parenthesized expression, e.g. `(foo)`.
    Parenthesized { location: Location, inner: Box<Expression> },
    /// If expression, e.g. `if x { ... } else { ... }`.
    If {
        location: Location,
        if_blocks: Vec<(Expression, Vec<Statement>)>,
        else_: Option<Vec<Statement>>,
    },
    /// Field access expression, e.g. `x.y`.
    FieldAccess { location: Location, left: Box<Expression>, right: IdentifierAST },
    /// Prefix expression, e.g. `!false`.
    Prefix { location: Location, inner: Box<Expression>, operator: PrefixOperator },
    /// Postfix expression, e.g. `safe_div(1, 0)?`.
    Postfix { location: Location, inner: Box<Expression>, operator: PostfixOperator },
    /// Loop expression, e.g. `loop { ... }`.
    Loop { location: Location, statements_block: Vec<Statement> },
    /// While expression, e.g. `while x != 0 {}`.
    While { location: Location, condition: Box<Expression>, statements_block: Vec<Statement> },
    /// Call expression, e.g. `s.to_string()`.
    Call { location: Location, callee: Box<Expression>, arguments: Vec<Expression> },
    /// Type arguments expression, e.g. `A[int32]`.
    TypeArguments { location: Location, left: Box<Expression>, arguments: Vec<Type> },
    /// Tuple expression, e.g. `(a, 32, \"hello\")`.
    Tuple { location: Location, elements: Vec<Expression> },
    /// Struct expression, e.g. `Person { name: \"John\", age: 25 }`.
    Struct { location: Location, left: Box<Expression>, fields: Vec<StructFieldExpression> },
    /// Match expression, e.g. `match x { ... }`.
    Match { location: Location, expression: Box<Expression>, block: Vec<MatchExpressionItem> },
    /// Lambda expression, e.g. `|x| { x + 1 }`.
    Lambda {
        location: Location,
        parameters: Vec<LambdaFunctionParameter>,
        return_type: Option<Type>,
        value: Box<Expression>,
    },
    /// Underscore expression, `_`.
    Underscore { location: Location },
}

impl Expression {
    /// The location of the expression.
    pub open spec fn location_of(&self) -> Location {
        match self {
            Expression::List { location, .. } => *location,
            Expression::As { location, .. } => *location,
            Expression::Binary { location, .. } => *location,
            Expression::StatementsBlock { location, .. } => *location,
            Expression::Literal(literal) => literal.location_of(),
            Expression::Identifier(identifier) => identifier.location,
            Expression::Parenthesized { location, .. } => *location,
            Expression::If { location, .. } => *location,
            Expression::FieldAccess { location, .. } => *location,
            Expression::Prefix { location, .. } => *location,
            Expression::Postfix { location, .. } => *location,
            Expression::Loop { location, .. } => *location,
            Expression::While { location, .. } => *location,
            Expression::Call { location, .. } => *location,
            Expression::TypeArguments { location, .. } => *location,
            Expression::Tuple { location, .. } => *location,
            Expression::Struct { location, .. } => *location,
            Expression::Match { location, .. } => *location,
            Expression::Lambda { location, .. } => *location,
            Expression::Underscore { location } => *location,
        }
    }

    /// Returns the location of the expression.
    pub fn location(&self) -> (r: Location)
        ensures
            r == self.location_of(),
    {
        match self {
            Expression::List { location, .. } => *location,
            Expression::As { location, .. } => *location,
            Expression::Binary { location, .. } => *location,
            Expression::StatementsBlock { location, .. } => *location,
            Expression::Literal(literal) => literal.location(),
            Expression::Identifier(identifier) => identifier.location,
            Expression::Parenthesized { location, .. } => *location,
            Expression::If { location, .. } => *location,
            Expression::FieldAccess { location, .. } => *location,
            Expression::Prefix { location, .. } => *location,
            Expression::Postfix { location, .. } => *location,
            Expression::Loop { location, .. } => *location,
            Expression::While { location, .. } => *location,
            Expression::Call { location, .. } => *location,
            Expression::TypeArguments { location, .. } => *location,
            Expression::Tuple { location, .. } => *location,
            Expression::Struct { location, .. } => *location,
            Expression::Match { location, .. } => *location,
            Expression::Lambda { location, .. } => *location,
            Expression::Underscore { location } => *location,
        }
    }

    /// Returns `true` if this expression has a block in it (except
    /// function expressions). Used to determine if this expression has to
    /// have semicolon at the end.
    pub fn with_block(&self) -> (r: bool)
        ensures
            r == (self is If || self is While || self is Match || self is Loop || self is StatementsBlock),
    {
        match self {
            Expression::If { .. } | Expression::While { .. } | Expression::Match { .. }
            | Expression::Loop { .. } | Expression::StatementsBlock { .. } => true,
            _ => false,
        }
    }
}

/// A match expression item - `pattern` `=>` `expression`.
#[derive(Debug, PartialEq)]
pub struct MatchExpressionItem {
    pub left: Pattern,
    pub right: Expression,
}

/// A field item in a struct expression, e.g. `name: \"John\"` or `age`.
#[derive(Debug, PartialEq)]
pub struct StructFieldExpression {
    pub name: IdentifierAST,
    pub value: Option<Expression>,
}

/// A lambda function parameter, e.g. `x` in `|x| { x + 1 }`.
#[derive(Debug, PartialEq)]
pub struct LambdaFunctionParameter {
    pub name: IdentifierAST,
    pub ty: Option<Type>,
}

/// A statement, e.g. `defer file.close()`, `return Some(\"hello\");`.
#[derive(Debug, PartialEq)]
pub enum Statement {
    /// Defer statement, e.g. `defer file.close();`.
    Defer { call: Expression },
    /// Expression statement, e.g. `call();`.
    Expression { expression: Expression, has_semicolon: bool },
    /// Break statement, `break;`.
    Break { location: Location },
    /// Continue statement, `continue;`.
    Continue { location: Location },
    /// Return statement, e.g. `return 42;`.
    Return { expression: Expression },
    /// Let statement, e.g. `let x = 1;`.
    Let { pattern: Pattern, value: Expression, ty: Option<Type> },
}

/// A function parameter that is not `self`, e.g. `a: uint32`.
#[derive(Debug, PartialEq)]
pub struct NotSelfFunctionParameter {
    pub pattern: Pattern,
    pub ty: Type,
}

/// A self parameter, e.g. `self`, `self: Self`.
#[derive(Debug, PartialEq)]
pub struct SelfFunctionParameter {
    pub self_location: Location,
    pub ty: Option<Type>,
}

/// A function parameter, e.g. `self`, `a: uint32`.
#[derive(Debug, PartialEq)]
pub enum FunctionParameter {
    /// A function parameter that is not `self`.
    NotSelfParameter(NotSelfFunctionParameter),
    /// A self parameter.
    SelfParameter(SelfFunctionParameter),
}

/// A function signature: everything about a function except its body.
#[derive(Debug, PartialEq)]
pub struct FunctionSignature {
    pub visibility: Visibility,
    pub name: IdentifierAST,
    pub generic_parameters: Vec<GenericParameter>,
    pub parameters: Vec<FunctionParameter>,
    pub return_type: Option<Type>,
    pub where_predicates: Vec<WherePredicate>,
    pub docstring: Option<String>,
}

/// A function, e.g. `fun main() {}`.
#[derive(Debug, PartialEq)]
pub struct Function {
    pub signature: FunctionSignature,
    pub body: Option<Vec<Statement>>,
}

/// A tuple field, e.g. `pub String` in `pub struct Wrapper(pub String);`.
#[derive(Debug, PartialEq)]
pub struct TupleField {
    pub visibility: Visibility,
    pub ty: Type,
}

/// A struct field, e.g. `name: String`, `pub age: uint32`.
#[derive(Debug, PartialEq)]
pub struct StructField {
    pub visibility: Visibility,
    pub name: IdentifierAST,
    pub ty: Type,
    pub docstring: Option<String>,
}

/// An enum item, e.g. `None`, `Ok(T)`, `A { b: T }`.
#[derive(Debug, PartialEq)]
pub enum EnumItem {
    /// Just an identifier, e.g. `None`.
    Just { name: IdentifierAST, docstring: Option<String> },
    /// A tuple-like item, e.g. `Some(T)`.
    TupleLike { name: IdentifierAST, fields: Vec<TupleField>, docstring: Option<String> },
    /// A struct item, e.g. `A { b: T }`.
    Struct { name: IdentifierAST, fields: Vec<StructField>, docstring: Option<String> },
}

/// An enum module item.
#[derive(Debug, PartialEq)]
pub struct Enum {
    pub visibility: Visibility,
    pub name: IdentifierAST,
    pub generic_parameters: Vec<GenericParameter>,
    pub where_predicates: Vec<WherePredicate>,
    pub items: Vec<EnumItem>,
    pub methods: Vec<Function>,
    pub implements: Option<Vec<TypeConstructor>>,
    pub docstring: Option<String>,
}

/// A struct module item.
#[derive(Debug, PartialEq)]
pub struct Struct {
    pub visibility: Visibility,
    pub name: IdentifierAST,
    pub generic_parameters: Vec<GenericParameter>,
    pub where_predicates: Vec<WherePredicate>,
    pub fields: Vec<StructField>,
    pub methods: Vec<Function>,
    pub implements: Option<Vec<TypeConstructor>>,
    pub docstring: Option<String>,
}

/// A tuple-like struct module item.
#[derive(Debug, PartialEq)]
pub struct TupleLikeStruct {
    pub visibility: Visibility,
    pub name: IdentifierAST,
    pub generic_parameters: Vec<GenericParameter>,
    pub where_predicates: Vec<WherePredicate>,
    pub fields: Vec<TupleField>,
    pub methods: Vec<Function>,
    pub implements: Option<Vec<TypeConstructor>>,
    pub docstring: Option<String>,
}

/// An interface module item, e.g. `interface A[T]: B[T] + C { ... }`.
#[derive(Debug, PartialEq)]
pub struct Interface {
    pub visibility: Visibility,
    pub name: IdentifierAST,
    pub generic_parameters: Vec<GenericParameter>,
    pub where_predicates: Vec<WherePredicate>,
    pub methods: Vec<Function>,
    pub inherits: Option<Vec<TypeConstructor>>,
    pub docstring: Option<String>,
}

/// A type alias, e.g. `type MyResult = Result[String, MyError];`.
#[derive(Debug, PartialEq)]
pub struct TypeAlias {
    pub visibility: Visibility,
    pub name: IdentifierAST,
    pub generic_parameters: Vec<GenericParameter>,
    pub value: Type,
    pub docstring: Option<String>,
}

/// A module item.
#[derive(Debug, PartialEq)]
pub enum ModuleItem {
    /// Enum item.
    Enum(Enum),
    /// Function item.
    Function(Function),
    /// Import item, with the location of the entire item.
    Import { location: Location, path: ImportPath },
    /// Interface item.
    Interface(Interface),
    /// Struct item.
    Struct(Struct),
    /// Tuple-like struct item.
    TupleLikeStruct(TupleLikeStruct),
    /// Type alias item.
    TypeAlias(TypeAlias),
}

/// A Stellar module, as parsed from one file.
#[derive(Debug, PartialEq)]
pub struct Module {
    pub filepath: PathId,
    pub items: Vec<ModuleItem>,
    pub docstring: Option<String>,
}

} // verus!
