//! The high-level intermediate representation (HIR) of a Stellar module.
//!
//! The HIR is a desugared AST: it has no parenthesized expressions or
//! types and no grouped patterns, `loop` becomes `while true`, an
//! interface's inheritance list becomes a where predicate on `Self`, and a
//! function type always has a return type. See [`crate::lowering`] for the
//! conversion.

use vstd::prelude::*;

pub use crate::ast::{
    BinaryOperator, IdentifierAST, ImportPath, Literal, ModuleItemKind, NegativeNumericLiteral,
    Path, PostfixOperator, PrefixOperator, Visibility,
};
use crate::interner::{IdentifierId, PathId};
use crate::location::Location;

verus! {

/// A type constructor, e.g. `Option[T]`.
#[derive(Debug, PartialEq)]
pub struct TypeConstructor {
    pub location: Location,
    pub path: Path,
    pub arguments: Vec<Type>,
}

/// A pattern, e.g. `Some(x)`, `None`, `a @ [3, ..]`, `[1, .., 3]`, `(1, \"hello\")`.
#[derive(Debug, PartialEq)]
pub enum Pattern {
    /// A literal pattern, e.g. `'a'`, `true`.
    Literal(Literal),
    /// A negative numeric literal pattern, e.g. `-3`.
    NegativeNumericLiteral(NegativeNumericLiteral),
    /// An identifier pattern, e.g. `f`, `list @ [3, ..]`.
    Identifier { location: Location, identifier: IdentifierAST, pattern: Option<Box<Pattern>> },
    /// A wildcard pattern, `_`.
    Wildcard { location: Location },
    /// A struct pattern, e.g. `Person { name, age, .. }`.
    Struct { location: Location, path: Path, fields: Vec<StructFieldPattern> },
    /// A tuple-like pattern, e.g. `Some(x)`, `A()`.
    TupleLike { location: Location, path: Path, inner_patterns: Vec<Pattern> },
    /// A tuple pattern, e.g. `(a, \"hello\", ..)`.
    Tuple { location: Location, elements: Vec<Pattern> },
    /// A path pattern.
    Path { path: Path },
    /// A list pattern, e.g. `[1, .., 10]`.
    List { location: Location, inner_patterns: Vec<Pattern> },
    /// An or pattern, e.g. `Some(..) | None`.
    Or { location: Location, left: Box<Pattern>, right: Box<Pattern> },
    /// A rest pattern, `..`.
    Rest { location: Location },
}

impl Pattern {
    /// The location of the pattern.
    pub open spec fn location_of(&self) -> Location {
        match self {
            Pattern::Literal(literal) => literal.location_of(),
            Pattern::NegativeNumericLiteral(literal) => literal.location_of(),
            Pattern::Identifier { location, .. } => *location,
            Pattern::Wildcard { location } => *location,
            Pattern::Struct { location, .. } => *location,
            Pattern::TupleLike { location, .. } => *location,
            Pattern::Tuple { location, .. } => *location,
            Pattern::Path { path } => path.location,
            Pattern::List { location, .. } => *location,
            Pattern::Or { location, .. } => *location,
            Pattern::Rest { location } => *location,
        }
    }

    /// Returns the location of the pattern.
    pub fn location(&self) -> (r: Location)
        ensures
            r == self.location_of(),
    {
        match self {
            Pattern::Literal(literal) => literal.location(),
            Pattern::NegativeNumericLiteral(literal) => match literal {
                NegativeNumericLiteral::Integer { location, .. } => *location,
                NegativeNumericLiteral::Float { location, .. } => *location,
            },
            Pattern::Identifier { location, .. } => *location,
            Pattern::Wildcard { location } => *location,
            Pattern::Struct { location, .. } => *location,
            Pattern::TupleLike { location, .. } => *location,
            Pattern::Tuple { location, .. } => *location,
            Pattern::Path { path } => path.location,
            Pattern::List { location, .. } => *location,
            Pattern::Or { location, .. } => *location,
            Pattern::Rest { location } => *location,
        }
    }
}

/// A pattern used to match a struct field, e.g. `citizenship: \"USA\"`,
/// `name` and `..` in `Person { citizenship: \"USA\", name, .. }`.
#[derive(Debug, PartialEq)]
pub enum StructFieldPattern {
    /// A field, optionally with a pattern for its value.
    NotRest { location: Location, field_name: IdentifierAST, value_pattern: Option<Pattern> },
    /// A rest pattern, `..`.
    Rest { location: Location },
}

/// A type, e.g. `int32`, `(char): bool`, `(char, char)`.
#[derive(Debug, PartialEq)]
pub enum Type {
    /// A type constructor, e.g. `char`, `List[int32]`.
    Constructor(TypeConstructor),
    /// A tuple type, e.g. `(int32, String, char)`.
    Tuple { location: Location, element_types: Vec<Type> },
    /// A function type, e.g. `(char): bool`.
    Function { location: Location, parameter_types: Vec<Type>, return_type: Option<Box<Type>> },
    /// An underscore type, `_`.
    Underscore { location: Location },
    /// An interface object type, e.g. `dyn Debug + Clone`.
    InterfaceObject { location: Location, bounds: Vec<TypeConstructor> },
}

impl Type {
    /// The location of the type.
    pub open spec fn location_of(&self) -> Location {
        match self {
            Type::Constructor(c) => c.location,
            Type::Tuple { location, .. } => *location,
            Type::Function { location, .. } => *location,
            Type::Underscore { location } => *location,
            Type::InterfaceObject { location, .. } => *location,
        }
    }

    /// Returns the location of the type.
    pub fn location(&self) -> (r: Location)
        ensures
            r == self.location_of(),
    {
        match self {
            Type::Constructor(c) => c.location,
            Type::Tuple { location, .. } => *location,
            Type::Function { location, .. } => *location,
            Type::Underscore { location } => *location,
            Type::InterfaceObject { location, .. } => *location,
        }
    }
}

/// A generic parameter, e.g. `T` in `fun into[T](a: T);`.
#[derive(Debug, PartialEq)]
pub struct GenericParameter {
    pub name: IdentifierAST,
    pub bounds: Option<Vec<TypeConstructor>>,
    pub default_value: Option<Type>,
}

/// A type alias, e.g. `type MyResult = Result[String, MyError]`.
#[derive(Debug, PartialEq)]
pub struct TypeAlias {
    pub visibility: Visibility,
    pub name: IdentifierAST,
    pub generic_parameters: Vec<GenericParameter>,
    pub value: Type,
    pub docstring: Option<String>,
}

/// A where clause item, e.g. `T: ToString`.
#[derive(Debug, PartialEq)]
pub struct WherePredicate {
    pub ty: Type,
    pub bounds: Vec<TypeConstructor>,
}

/// An expression.
#[derive(Debug, PartialEq)]
pub enum Expression {
    /// List expression, e.g. `[1, 2, 3]`.
    List { location: Location, elements: Vec<Expression> },
    /// As expression, e.g. `a as float32`.
    As { location: Location, left: Box<Expression>, right: Type },
    /// Binary expression, e.g. `1 + 2`.
    Binary {
        location: Location,
        left: Box<Expression>,
        operator: BinaryOperator,
        right: Box<Expression>,
    },
    /// Block expression, e.g. `{ let b = 1; b }`.
    StatementsBlock { location: Location, block: Vec<Statement> },
    /// Literal expression, e.g. `true`, `1.2`.
    Literal(Literal),
    /// Identifier expression, e.g. `foo`.
    Identifier(IdentifierAST),
    /// Underscore expression, `_`.
    Underscore { location: Location },
    /// If expression, e.g. `if x { ... } else { ... }`.
    If {
        location: Location,
        if_blocks: Vec<(Expression, Vec<Statement>)>,
        else_: Option<Vec<Statement>>,
    },
    /// Field access expression, e.g. `x.y`.
    FieldAccess { location: Location, left: Box<Expression>, right: IdentifierAST },
    /// Prefix expression, e.g. `!false`, `++a`.
    Prefix { location: Location, inner: Box<Expression>, operator: PrefixOperator },
    /// Postfix expression, e.g. `safe_div(1, 0)?`, `a++`.
    Postfix { location: Location, inner: Box<Expression>, operator: PostfixOperator },
    /// While expression, e.g. `while x != 0 {}`.
    While { location: Location, condition: Box<Expression>, statements_block: Vec<Statement> },
    /// Call expression, e.g. `s.to_string()`.
    Call { location: Location, callee: Box<Expression>, arguments: Vec<Expression> },
    /// Type arguments expression, e.g. `A[int32]`.
    TypeArguments { location: Location, left: Box<Expression>, type_arguments: Vec<Type> },
    /// Tuple expression, e.g. `(a, 32, \"hello\")`.
    Tuple { location: Location, elements: Vec<Expression> },
    /// Struct expression, e.g. `Person { name: \"John\", age: 25 }`.
    Struct { location: Location, left: Box<Expression>, fields: Vec<StructExpressionItem> },
    /// Match expression, e.g. `match fs.read_file(...) { ... }`.
    Match { location: Location, expression: Box<Expression>, block: Vec<MatchExpressionItem> },
    /// Lambda expression, e.g. `|x| { x + 1 }`.
    Lambda {
        location: Location,
        parameters: Vec<LambdaFunctionParameter>,
        return_type: Option<Type>,
        value: Box<Expression>,
    },
}

/// A lambda function parameter, e.g. `x` in `|x| { x + 1 }`.
#[derive(Debug, PartialEq)]
pub struct LambdaFunctionParameter {
    pub name: IdentifierAST,
    pub ty: Option<Type>,
}

impl Expression {
    /// The location of the expression.
    pub open spec fn location_of(&self) -> Location {
        match self {
            Expression::List { location, .. } => *location,
            Expression::As { location, .. } => *location,
            Expression::Binary { location, .. } => *location,
            Expression::StatementsBlock { location, .. } => *location,
            Expression::Literal(literal) => literal.location_of(),
            Expression::Identifier(identifier) => identifier.location,
            Expression::Underscore { location } => *location,
            Expression::If { location, .. } => *location,
            Expression::FieldAccess { location, .. } => *location,
            Expression::Prefix { location, .. } => *location,
            Expression::Postfix { location, .. } => *location,
            Expression::While { location, .. } => *location,
            Expression::Call { location, .. } => *location,
            Expression::TypeArguments { location, .. } => *location,
            Expression::Tuple { location, .. } => *location,
            Expression::Struct { location, .. } => *location,
            Expression::Match { location, .. } => *location,
            Expression::Lambda { location, .. } => *location,
        }
    }

    /// Returns the location of the expression.
    pub fn location(&self) -> (r: Location)
        ensures
            r == self.location_of(),
    {
        match self {
            Expression::List { location, .. } => *location,
            Expression::As { location, .. } => *location,
            Expression::Binary { location, .. } => *location,
            Expression::StatementsBlock { location, .. } => *location,
            Expression::Literal(literal) => literal.location(),
            Expression::Identifier(identifier) => identifier.location,
            Expression::Underscore { location } => *location,
            Expression::If { location, .. } => *location,
            Expression::FieldAccess { location, .. } => *location,
            Expression::Prefix { location, .. } => *location,
            Expression::Postfix { location, .. } => *location,
            Expression::While { location, .. } => *location,
            Expression::Call { location, .. } => *location,
            Expression::TypeArguments { location, .. } => *location,
            Expression::Tuple { location, .. } => *location,
            Expression::Struct { location, .. } => *location,
            Expression::Match { location, .. } => *location,
            Expression::Lambda { location, .. } => *location,
        }
    }

    /// Returns `true` if this expression has a block in it (except function
    /// expressions). Used to determine if this expression has to have a
    /// semicolon at the end.
    pub fn with_block(&self) -> (r: bool)
        ensures
            r == (self is If || self is While || self is Match || self is StatementsBlock),
    {
        match self {
            Expression::If { .. } | Expression::While { .. } | Expression::Match { .. } | Expression::StatementsBlock { .. } => true,
            _ => false,
        }
    }
}

/// A match expression item - `pattern` `=>` `expression`.
#[derive(Debug, PartialEq)]
pub struct MatchExpressionItem {
    pub left: Pattern,
    pub right: Expression,
}

/// A field item in a struct expression (identifier and optionally `:`
/// expression), e.g. `name: \"John\"` and `age`.
#[derive(Debug, PartialEq)]
pub struct StructExpressionItem {
    pub name: IdentifierAST,
    pub value: Option<Expression>,
}

/// A statement, e.g. `defer file.close()`, `return Some(\"hello\");`, `break;`.
#[derive(Debug, PartialEq)]
pub enum Statement {
    /// Defer statement, e.g. `defer file.close();`.
    Defer { call: Expression },
    /// Expression statement, e.g. `call();`.
    Expression { expression: Expression, has_semicolon: bool },
    /// Break statement, `break;`.
    Break { location: Location },
    /// Continue statement, `continue;`.
    Continue { location: Location },
    /// Return statement, e.g. `return 42;`.
    Return { expression: Expression },
    /// Let statement, e.g. `let x = 1;`.
    Let { pattern: Pattern, value: Expression, ty: Option<Type> },
}

/// A function.
#[derive(Debug, PartialEq)]
pub struct Function {
    pub signature: FunctionSignature,
    pub body: Option<Vec<Statement>>,
}

/// A function signature - information about function except a block.
#[derive(Debug, PartialEq)]
pub struct FunctionSignature {
    pub visibility: Visibility,
    pub name: IdentifierAST,
    pub generic_parameters: Vec<GenericParameter>,
    pub parameters: Vec<FunctionParameter>,
    pub return_type: Option<Type>,
    pub where_predicates: Vec<WherePredicate>,
    pub docstring: Option<String>,
}

/// An enum module item.
#[derive(Debug, PartialEq)]
pub struct Enum {
    pub visibility: Visibility,
    pub name: IdentifierAST,
    pub generic_parameters: Vec<GenericParameter>,
    pub where_predicates: Vec<WherePredicate>,
    pub items: Vec<EnumItem>,
    pub methods: Vec<Function>,
    pub implements: Option<Vec<TypeConstructor>>,
    pub docstring: Option<String>,
}

/// An interface module item.
#[derive(Debug, PartialEq)]
pub struct Interface {
    pub visibility: Visibility,
    pub name: IdentifierAST,
    pub generic_parameters: Vec<GenericParameter>,
    pub where_predicates: Vec<WherePredicate>,
    pub methods: Vec<Function>,
    pub docstring: Option<String>,
}

/// A struct module item.
#[derive(Debug, PartialEq)]
pub struct Struct {
    pub visibility: Visibility,
    pub name: IdentifierAST,
    pub generic_parameters: Vec<GenericParameter>,
    pub where_predicates: Vec<WherePredicate>,
    pub fields: Vec<StructField>,
    pub methods: Vec<Function>,
    pub implements: Option<Vec<TypeConstructor>>,
    pub docstring: Option<String>,
}

/// A tuple-like struct module item.
#[derive(Debug, PartialEq)]
pub struct TupleLikeStruct {
    pub visibility: Visibility,
    pub name: IdentifierAST,
    pub generic_parameters: Vec<GenericParameter>,
    pub where_predicates: Vec<WherePredicate>,
    pub fields: Vec<TupleField>,
    pub methods: Vec<Function>,
    pub implements: Option<Vec<TypeConstructor>>,
    pub docstring: Option<String>,
}

/// A module item.
#[derive(Debug, PartialEq)]
pub enum ModuleItem {
    /// Enum item.
    Enum(Enum),
    /// Function item.
    Function(Function),
    /// Import item, with the location of the entire import item.
    Import { location: Location, path: ImportPath },
    /// Interface item.
    Interface(Interface),
    /// Struct item.
    Struct(Struct),
    /// Tuple-like struct item.
    TupleLikeStruct(TupleLikeStruct),
    /// Type alias item.
    TypeAlias(TypeAlias),
}

impl ModuleItem {
    /// The location of the item: that of its name, or of the whole import.
    pub open spec fn location_of(&self) -> Location {
        match self {
            ModuleItem::Enum(e) => e.name.location,
            ModuleItem::Function(f) => f.signature.name.location,
            ModuleItem::Import { location, .. } => *location,
            ModuleItem::Interface(i) => i.name.location,
            ModuleItem::Struct(s) => s.name.location,
            ModuleItem::TupleLikeStruct(s) => s.name.location,
            ModuleItem::TypeAlias(a) => a.name.location,
        }
    }

    /// The name of the item; imports have none.
    pub open spec fn name_of(&self) -> Option<IdentifierId> {
        match self {
            ModuleItem::Enum(e) => Some(e.name.id),
            ModuleItem::Function(f) => Some(f.signature.name.id),
            ModuleItem::Import { .. } => None,
            ModuleItem::Interface(i) => Some(i.name.id),
            ModuleItem::Struct(s) => Some(s.name.id),
            ModuleItem::TupleLikeStruct(s) => Some(s.name.id),
            ModuleItem::TypeAlias(a) => Some(a.name.id),
        }
    }

    /// Returns the location of the item.
    pub fn location(&self) -> (r: Location)
        ensures
            r == self.location_of(),
    {
        match self {
            ModuleItem::Enum(e) => e.name.location,
            ModuleItem::Function(f) => f.signature.name.location,
            ModuleItem::Import { location, .. } => *location,
            ModuleItem::Interface(i) => i.name.location,
            ModuleItem::Struct(s) => s.name.location,
            ModuleItem::TupleLikeStruct(s) => s.name.location,
            ModuleItem::TypeAlias(a) => a.name.location,
        }
    }

    /// Returns the name of the item, if it has one.
    pub fn name(&self) -> (r: Option<IdentifierId>)
        ensures
            r == self.name_of(),
    {
        match self {
            ModuleItem::Enum(e) => Some(e.name.id),
            ModuleItem::Function(f) => Some(f.signature.name.id),
            ModuleItem::Import { .. } => None,
            ModuleItem::Interface(i) => Some(i.name.id),
            ModuleItem::Struct(s) => Some(s.name.id),
            ModuleItem::TupleLikeStruct(s) => Some(s.name.id),
            ModuleItem::TypeAlias(a) => Some(a.name.id),
        }
    }

    /// Returns the id of the item name identifier; the item must have a
    /// name (it is not an import).
    pub fn name_or_panic(&self) -> (r: IdentifierId)
        requires
            !(self is Import),
        ensures
            self.name_of() == Some(r),
    {
        self.name().unwrap()
    }

    /// Returns the kind of the item.
    pub fn kind(&self) -> (r: ModuleItemKind)
        ensures
            r == (match self {
                ModuleItem::Enum(..) => ModuleItemKind::Enum,
                ModuleItem::Function(..) => ModuleItemKind::Function,
                ModuleItem::Import { .. } => ModuleItemKind::Import,
                ModuleItem::Interface(..) => ModuleItemKind::Interface,
                ModuleItem::Struct(..) => ModuleItemKind::Struct,
                ModuleItem::TupleLikeStruct(..) => ModuleItemKind::TupleLikeStruct,
                ModuleItem::TypeAlias(..) => ModuleItemKind::TypeAlias,
            }),
    {
        match self {
            ModuleItem::Enum(..) => ModuleItemKind::Enum,
            ModuleItem::Function(..) => ModuleItemKind::Function,
            ModuleItem::Import { .. } => ModuleItemKind::Import,
            ModuleItem::Interface(..) => ModuleItemKind::Interface,
            ModuleItem::Struct(..) => ModuleItemKind::Struct,
            ModuleItem::TupleLikeStruct(..) => ModuleItemKind::TupleLikeStruct,
            ModuleItem::TypeAlias(..) => ModuleItemKind::TypeAlias,
        }
    }

    /// Returns the visibility of the item; imports are private.
    pub fn visibility(&self) -> (r: Visibility)
        ensures
            r == (match self {
                ModuleItem::Enum(e) => e.visibility,
                ModuleItem::Function(f) => f.signature.visibility,
                ModuleItem::Import { .. } => Visibility::Private,
                ModuleItem::Interface(i) => i.visibility,
                ModuleItem::Struct(s) => s.visibility,
                ModuleItem::TupleLikeStruct(s) => s.visibility,
                ModuleItem::TypeAlias(a) => a.visibility,
            }),
    {
        match self {
            ModuleItem::Enum(e) => e.visibility,
            ModuleItem::Function(f) => f.signature.visibility,
            ModuleItem::Import { .. } => Visibility::Private,
            ModuleItem::Interface(i) => i.visibility,
            ModuleItem::Struct(s) => s.visibility,
            ModuleItem::TupleLikeStruct(s) => s.visibility,
            ModuleItem::TypeAlias(a) => a.visibility,
        }
    }

    /// Returns the type alias variant of the item.
    pub fn type_alias(&self) -> (r: Option<&TypeAlias>)
        ensures
            (self is TypeAlias) ==> r == Some(&self->TypeAlias_0),
            !(self is TypeAlias) ==> r is None,
    {
        match self {
            ModuleItem::TypeAlias(alias) => Some(alias),
            _ => None,
        }
    }

    /// Returns the type alias variant of the item, which must be a type
    /// alias.
    pub fn type_alias_or_panic(&self) -> (r: &TypeAlias)
        requires
            self is TypeAlias,
        ensures
            r == &self->TypeAlias_0,
    {
        self.type_alias().unwrap()
    }
}

/// An enum item, e.g. `None`, `Ok(T)`, `A { b: T }`.
#[derive(Debug, PartialEq)]
pub enum EnumItem {
    /// Just an identifier, e.g. `None` in `enum Option[T] { Some(T), None }`.
    Just { name: IdentifierAST, docstring: Option<String> },
    /// A tuple-like enum item, e.g. `Some(T)`.
    TupleLike { name: IdentifierAST, fields: Vec<TupleField>, docstring: Option<String> },
    /// A struct item, e.g. `A { b: T }` in `enum B { A { b: T } }`.
    Struct { name: IdentifierAST, fields: Vec<StructField>, docstring: Option<String> },
}

impl EnumItem {
    /// The name of the item.
    pub open spec fn name_of(&self) -> IdentifierAST {
        match self {
            EnumItem::Just { name, .. } => *name,
            EnumItem::TupleLike { name, .. } => *name,
            EnumItem::Struct { name, .. } => *name,
        }
    }

    /// Returns the name of the item.
    pub fn name(&self) -> (r: IdentifierAST)
        ensures
            r == self.name_of(),
    {
        match self {
            EnumItem::Just { name, .. } => *name,
            EnumItem::TupleLike { name, .. } => *name,
            EnumItem::Struct { name, .. } => *name,
        }
    }

    /// Returns the interned name of the item.
    pub fn name_id(&self) -> (r: IdentifierId)
        ensures
            r == self.name_of().id,
    {
        self.name().id
    }
}

/// A tuple field, e.g. `pub String` in `pub struct Wrapper(pub String);`.
#[derive(Debug, PartialEq)]
pub struct TupleField {
    pub visibility: Visibility,
    pub ty: Type,
}

/// A struct field, e.g. `name: String`, `pub age: uint32`.
#[derive(Debug, PartialEq)]
pub struct StructField {
    pub visibility: Visibility,
    pub name: IdentifierAST,
    pub ty: Type,
    pub docstring: Option<String>,
}

/// A function parameter, e.g. `self`, `self: Self`, `a: uint32`.
#[derive(Debug, PartialEq)]
pub enum FunctionParameter {
    /// A function parameter that is not `self`.
    NotSelfParameter(NotSelfFunctionParameter),
    /// A self parameter.
    SelfParameter(SelfFunctionParameter),
}

/// A self parameter, e.g. `self`, `self: Self`.
#[derive(Debug, PartialEq)]
pub struct SelfFunctionParameter {
    pub self_location: Location,
    pub ty: Option<Type>,
}

/// A function parameter that is not `self`, e.g. `a: uint32`.
#[derive(Debug, PartialEq)]
pub struct NotSelfFunctionParameter {
    pub pattern: Pattern,
    pub ty: Type,
}

/// A Stellar module.
#[derive(Debug, PartialEq)]
pub struct Module {
    pub filepath: PathId,
    pub items: Vec<ModuleItem>,
    pub docstring: Option<String>,
}

} // verus!
