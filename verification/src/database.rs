//! Entities that the Stellar compiler stores about a package: their IDs,
//! the data it keeps about each, and resolved types.

use vstd::prelude::*;

pub mod identifier_map;
pub mod store;
pub mod entities;
pub mod state;
pub mod laws;

pub use identifier_map::{IdentifierMap, KeyMap, MapKey};
pub use state::State;
pub use store::{
    Database, EnumData, GenericParameterScopeData, InterfaceData, ModificationTime, ModuleData,
    PackageData, PackageView, StructData, Symbol,
};

use crate::ast::{IdentifierAST, Visibility};
use crate::interner::builtin_identifiers;
use crate::interner::IdentifierId;
use crate::location::Location;

verus! {

/// A path to an entity: the names of the modules and items that lead to
/// it, e.g. `std.io.println`.
#[derive(Debug, PartialEq, Eq, Clone, Hash)]
pub struct Path {
    segments: Vec<IdentifierId>,
}

impl Path {
    /// The segments of the path.
    pub closed spec fn view(&self) -> Seq<IdentifierId> {
        self.segments@
    }

    /// Creates a path from its segments.
    pub fn new(segments: Vec<IdentifierId>) -> (r: Self)
        ensures
            r.view() == segments@,
    {
        Path { segments }
    }

    /// Returns the segments of the path.
    pub fn segments(&self) -> (r: &[IdentifierId])
        ensures
            r@ == self.view(),
    {
        self.segments.as_slice()
    }

    /// Creates a path of one segment.
    pub fn from_identifier(id: IdentifierId) -> (r: Self)
        ensures
            r.view() == seq![id],
    {
        let mut segments = Vec::new();
        segments.push(id);
        Path { segments }
    }

    /// Appends the segments of `rhs` to the path.
    pub fn concat(self, rhs: Path) -> (r: Self)
        ensures
            r.view() == self.view() + rhs.view(),
    {
        let mut segments = self.segments;
        let mut other = rhs.segments;
        segments.append(&mut other);
        Path { segments }
    }

    /// Appends one segment to the path.
    pub fn child(self, rhs: IdentifierId) -> (r: Self)
        ensures
            r.view() == self.view().push(rhs),
    {
        let mut segments = self.segments;
        segments.push(rhs);
        Path { segments }
    }
}

/// The ID of a package in the database.
#[derive(Debug, Clone, Copy, PartialEq, Eq, PartialOrd, Ord, Hash, Default, Structural)]
pub struct PackageId(pub usize);

/// The number of the package ID that never exists: `PackageId(DUMMY_PACKAGE_ID)`.
pub const DUMMY_PACKAGE_ID: usize = 0;

/// A unique ID that maps to [`EnumData`]: the package that the data is
/// associated with, and its index within the package.
#[derive(Debug, PartialEq, Eq, Clone, Copy, Hash, Structural)]
pub struct EnumId(PackageId, usize);

impl EnumId {
    /// The package the ID belongs to.
    pub closed spec fn package_of(&self) -> PackageId {
        self.0
    }

    /// The index of the data within its package.
    pub closed spec fn index_of(&self) -> usize {
        self.1
    }

    /// Constructs a new index type.
    pub fn new(package: PackageId, id: usize) -> (r: Self)
        ensures
            r.package_of() == package,
            r.index_of() == id,
    {
        EnumId(package, id)
    }

    /// Returns the package ID of the index type.
    pub fn package(&self) -> (r: PackageId)
        ensures
            r == self.package_of(),
    {
        self.0
    }

    /// Returns the underlying ID of the index type within the package.
    pub fn idx(&self) -> (r: usize)
        ensures
            r == self.index_of(),
    {
        self.1
    }
}

/// A unique ID that maps to [`EnumItemData`]: the package that the data is
/// associated with, and its index within the package.
#[derive(Debug, PartialEq, Eq, Clone, Copy, Hash, Structural)]
pub struct EnumItemId(PackageId, usize);

impl EnumItemId {
    /// The package the ID belongs to.
    pub closed spec fn package_of(&self) -> PackageId {
        self.0
    }

    /// The index of the data within its package.
    pub closed spec fn index_of(&self) -> usize {
        self.1
    }

    /// Constructs a new index type.
    pub fn new(package: PackageId, id: usize) -> (r: Self)
        ensures
            r.package_of() == package,
            r.index_of() == id,
    {
        EnumItemId(package, id)
    }

    /// Returns the package ID of the index type.
    pub fn package(&self) -> (r: PackageId)
        ensures
            r == self.package_of(),
    {
        self.0
    }

    /// Returns the underlying ID of the index type within the package.
    pub fn idx(&self) -> (r: usize)
        ensures
            r == self.index_of(),
    {
        self.1
    }
}

/// A unique ID that maps to [`StructData`]: the package that the data is
/// associated with, and its index within the package.
#[derive(Debug, PartialEq, Eq, Clone, Copy, Hash, Structural)]
pub struct StructId(PackageId, usize);

impl StructId {
    /// The package the ID belongs to.
    pub closed spec fn package_of(&self) -> PackageId {
        self.0
    }

    /// The index of the data within its package.
    pub closed spec fn index_of(&self) -> usize {
        self.1
    }

    /// Constructs a new index type.
    pub fn new(package: PackageId, id: usize) -> (r: Self)
        ensures
            r.package_of() == package,
            r.index_of() == id,
    {
        StructId(package, id)
    }

    /// Returns the package ID of the index type.
    pub fn package(&self) -> (r: PackageId)
        ensures
            r == self.package_of(),
    {
        self.0
    }

    /// Returns the underlying ID of the index type within the package.
    pub fn idx(&self) -> (r: usize)
        ensures
            r == self.index_of(),
    {
        self.1
    }
}

/// A unique ID that maps to [`TupleLikeStructData`]: the package that the data is
/// associated with, and its index within the package.
#[derive(Debug, PartialEq, Eq, Clone, Copy, Hash, Structural)]
pub struct TupleLikeStructId(PackageId, usize);

impl TupleLikeStructId {
    /// The package the ID belongs to.
    pub closed spec fn package_of(&self) -> PackageId {
        self.0
    }

    /// The index of the data within its package.
    pub closed spec fn index_of(&self) -> usize {
        self.1
    }

    /// Constructs a new index type.
    pub fn new(package: PackageId, id: usize) -> (r: Self)
        ensures
            r.package_of() == package,
            r.index_of() == id,
    {
        TupleLikeStructId(package, id)
    }

    /// Returns the package ID of the index type.
    pub fn package(&self) -> (r: PackageId)
        ensures
            r == self.package_of(),
    {
        self.0
    }

    /// Returns the underlying ID of the index type within the package.
    pub fn idx(&self) -> (r: usize)
        ensures
            r == self.index_of(),
    {
        self.1
    }
}

/// A unique ID that maps to [`FieldData`]: the package that the data is
/// associated with, and its index within the package.
#[derive(Debug, PartialEq, Eq, Clone, Copy, Hash, Structural)]
pub struct FieldId(PackageId, usize);

impl FieldId {
    /// The package the ID belongs to.
    pub closed spec fn package_of(&self) -> PackageId {
        self.0
    }

    /// The index of the data within its package.
    pub closed spec fn index_of(&self) -> usize {
        self.1
    }

    /// Constructs a new index type.
    pub fn new(package: PackageId, id: usize) -> (r: Self)
        ensures
            r.package_of() == package,
            r.index_of() == id,
    {
        FieldId(package, id)
    }

    /// Returns the package ID of the index type.
    pub fn package(&self) -> (r: PackageId)
        ensures
            r == self.package_of(),
    {
        self.0
    }

    /// Returns the underlying ID of the index type within the package.
    pub fn idx(&self) -> (r: usize)
        ensures
            r == self.index_of(),
    {
        self.1
    }
}

/// A unique ID that maps to [`PredicateData`]: the package that the data is
/// associated with, and its index within the package.
#[derive(Debug, PartialEq, Eq, Clone, Copy, Hash, Structural)]
pub struct PredicateId(PackageId, usize);

impl PredicateId {
    /// The package the ID belongs to.
    pub closed spec fn package_of(&self) -> PackageId {
        self.0
    }

    /// The index of the data within its package.
    pub closed spec fn index_of(&self) -> usize {
        self.1
    }

    /// Constructs a new index type.
    pub fn new(package: PackageId, id: usize) -> (r: Self)
        ensures
            r.package_of() == package,
            r.index_of() == id,
    {
        PredicateId(package, id)
    }

    /// Returns the package ID of the index type.
    pub fn package(&self) -> (r: PackageId)
        ensures
            r == self.package_of(),
    {
        self.0
    }

    /// Returns the underlying ID of the index type within the package.
    pub fn idx(&self) -> (r: usize)
        ensures
            r == self.index_of(),
    {
        self.1
    }
}

/// A unique ID that maps to [`GenericParameterScopeData`]: the package that the data is
/// associated with, and its index within the package.
#[derive(Debug, PartialEq, Eq, Clone, Copy, Hash, Structural)]
pub struct GenericParameterScopeId(PackageId, usize);

impl GenericParameterScopeId {
    /// The package the ID belongs to.
    pub closed spec fn package_of(&self) -> PackageId {
        self.0
    }

    /// The index of the data within its package.
    pub closed spec fn index_of(&self) -> usize {
        self.1
    }

    /// Constructs a new index type.
    pub fn new(package: PackageId, id: usize) -> (r: Self)
        ensures
            r.package_of() == package,
            r.index_of() == id,
    {
        GenericParameterScopeId(package, id)
    }

    /// Returns the package ID of the index type.
    pub fn package(&self) -> (r: PackageId)
        ensures
            r == self.package_of(),
    {
        self.0
    }

    /// Returns the underlying ID of the index type within the package.
    pub fn idx(&self) -> (r: usize)
        ensures
            r == self.index_of(),
    {
        self.1
    }
}

/// A unique ID that maps to [`GenericParameterData`]: the package that the data is
/// associated with, and its index within the package.
#[derive(Debug, PartialEq, Eq, Clone, Copy, Hash, Structural)]
pub struct GenericParameterId(PackageId, usize);

impl GenericParameterId {
    /// The package the ID belongs to.
    pub closed spec fn package_of(&self) -> PackageId {
        self.0
    }

    /// The index of the data within its package.
    pub closed spec fn index_of(&self) -> usize {
        self.1
    }

    /// Constructs a new index type.
    pub fn new(package: PackageId, id: usize) -> (r: Self)
        ensures
            r.package_of() == package,
            r.index_of() == id,
    {
        GenericParameterId(package, id)
    }

    /// Returns the package ID of the index type.
    pub fn package(&self) -> (r: PackageId)
        ensures
            r == self.package_of(),
    {
        self.0
    }

    /// Returns the underlying ID of the index type within the package.
    pub fn idx(&self) -> (r: usize)
        ensures
            r == self.index_of(),
    {
        self.1
    }
}

/// A unique ID that maps to [`SignatureData`]: the package that the data is
/// associated with, and its index within the package.
#[derive(Debug, PartialEq, Eq, Clone, Copy, Hash, Structural)]
pub struct SignatureId(PackageId, usize);

impl SignatureId {
    /// The package the ID belongs to.
    pub closed spec fn package_of(&self) -> PackageId {
        self.0
    }

    /// The index of the data within its package.
    pub closed spec fn index_of(&self) -> usize {
        self.1
    }

    /// Constructs a new index type.
    pub fn new(package: PackageId, id: usize) -> (r: Self)
        ensures
            r.package_of() == package,
            r.index_of() == id,
    {
        SignatureId(package, id)
    }

    /// Returns the package ID of the index type.
    pub fn package(&self) -> (r: PackageId)
        ensures
            r == self.package_of(),
    {
        self.0
    }

    /// Returns the underlying ID of the index type within the package.
    pub fn idx(&self) -> (r: usize)
        ensures
            r == self.index_of(),
    {
        self.1
    }
}

/// A unique ID that maps to [`FunctionData`]: the package that the data is
/// associated with, and its index within the package.
#[derive(Debug, PartialEq, Eq, Clone, Copy, Hash, Structural)]
pub struct FunctionId(PackageId, usize);

impl FunctionId {
    /// The package the ID belongs to.
    pub closed spec fn package_of(&self) -> PackageId {
        self.0
    }

    /// The index of the data within its package.
    pub closed spec fn index_of(&self) -> usize {
        self.1
    }

    /// Constructs a new index type.
    pub fn new(package: PackageId, id: usize) -> (r: Self)
        ensures
            r.package_of() == package,
            r.index_of() == id,
    {
        FunctionId(package, id)
    }

    /// Returns the package ID of the index type.
    pub fn package(&self) -> (r: PackageId)
        ensures
            r == self.package_of(),
    {
        self.0
    }

    /// Returns the underlying ID of the index type within the package.
    pub fn idx(&self) -> (r: usize)
        ensures
            r == self.index_of(),
    {
        self.1
    }
}

/// A unique ID that maps to [`InterfaceData`]: the package that the data is
/// associated with, and its index within the package.
#[derive(Debug, PartialEq, Eq, Clone, Copy, Hash, Structural)]
pub struct InterfaceId(PackageId, usize);

impl InterfaceId {
    /// The package the ID belongs to.
    pub closed spec fn package_of(&self) -> PackageId {
        self.0
    }

    /// The index of the data within its package.
    pub closed spec fn index_of(&self) -> usize {
        self.1
    }

    /// Constructs a new index type.
    pub fn new(package: PackageId, id: usize) -> (r: Self)
        ensures
            r.package_of() == package,
            r.index_of() == id,
    {
        InterfaceId(package, id)
    }

    /// Returns the package ID of the index type.
    pub fn package(&self) -> (r: PackageId)
        ensures
            r == self.package_of(),
    {
        self.0
    }

    /// Returns the underlying ID of the index type within the package.
    pub fn idx(&self) -> (r: usize)
        ensures
            r == self.index_of(),
    {
        self.1
    }
}

/// A unique ID that maps to [`TypeAliasData`]: the package that the data is
/// associated with, and its index within the package.
#[derive(Debug, PartialEq, Eq, Clone, Copy, Hash, Structural)]
pub struct TypeAliasId(PackageId, usize);

impl TypeAliasId {
    /// The package the ID belongs to.
    pub closed spec fn package_of(&self) -> PackageId {
        self.0
    }

    /// The index of the data within its package.
    pub closed spec fn index_of(&self) -> usize {
        self.1
    }

    /// Constructs a new index type.
    pub fn new(package: PackageId, id: usize) -> (r: Self)
        ensures
            r.package_of() == package,
            r.index_of() == id,
    {
        TypeAliasId(package, id)
    }

    /// Returns the package ID of the index type.
    pub fn package(&self) -> (r: PackageId)
        ensures
            r == self.package_of(),
    {
        self.0
    }

    /// Returns the underlying ID of the index type within the package.
    pub fn idx(&self) -> (r: usize)
        ensures
            r == self.index_of(),
    {
        self.1
    }
}

/// A unique ID that maps to [`ModuleData`]: the package that the data is
/// associated with, and its index within the package.
#[derive(Debug, PartialEq, Eq, Clone, Copy, Hash, Structural)]
pub struct ModuleId(PackageId, usize);

impl ModuleId {
    /// The package the ID belongs to.
    pub closed spec fn package_of(&self) -> PackageId {
        self.0
    }

    /// The index of the data within its package.
    pub closed spec fn index_of(&self) -> usize {
        self.1
    }

    /// Constructs a new index type.
    pub fn new(package: PackageId, id: usize) -> (r: Self)
        ensures
            r.package_of() == package,
            r.index_of() == id,
    {
        ModuleId(package, id)
    }

    /// Returns the package ID of the index type.
    pub fn package(&self) -> (r: PackageId)
        ensures
            r == self.package_of(),
    {
        self.0
    }

    /// Returns the underlying ID of the index type within the package.
    pub fn idx(&self) -> (r: usize)
        ensures
            r == self.index_of(),
    {
        self.1
    }
}

/* Types */

/// A raw representation of types in the Stellar programming language.
///
/// Compared to HIR and AST types, it doesn't store information about
/// locations and all paths are fully unwrapped: `Iterator` becomes
/// `std.iterator.Iterator`.
#[derive(Debug, PartialEq, Eq, Hash)]
pub enum Type {
    /// A unit type: `()`.
    Unit,
    /// An unknown type.
    Unknown,
    /// A type constructor: `List[uint32]`, `uint32`, `String`.
    Constructor(TypeConstructor),
    /// A tuple type: `(uint32,)`, `(String, uint32)`; never empty, as the
    /// unit type has its own variant.
    Tuple { element_types: Vec<Type> },
    /// A function type: `(String): bool`, `(): ()`; a function that
    /// returns nothing has the unit type as return type.
    Function { parameter_types: Vec<Type>, return_type: Box<Type> },
    /// A type variable (placeholder for types, that aren't inferred yet).
    Variable(TypeVariable),
    /// An interface object type, e.g. `dyn Iterator[char] + ToString`.
    InterfaceObject { bounds: Vec<TypeConstructor> },
}

/// A kind of type. See [`Type`] for more details.
#[derive(Debug, PartialEq, Eq, Clone, Copy, Hash, Structural)]
pub enum TypeKind {
    Unit,
    Unknown,
    Constructor,
    Tuple,
    Function,
    Variable,
    InterfaceObject,
}

impl TypeKind {
    /// How the kind is written in messages.
    pub open spec fn text(self) -> Seq<char> {
        match self {
            TypeKind::Unit => "unit type"@,
            TypeKind::Unknown => "unknown type"@,
            TypeKind::Constructor => "type constructor"@,
            TypeKind::Tuple => "tuple type"@,
            TypeKind::Function => "function type"@,
            TypeKind::Variable => "uninferred type"@,
            TypeKind::InterfaceObject => "interface object type"@,
        }
    }

    /// Returns how the kind is written in messages, e.g. `tuple type`.
    pub fn as_str(self) -> (r: &'static str)
        ensures
            r@ == self.text(),
    {
        match self {
            TypeKind::Unit => "unit type",
            TypeKind::Unknown => "unknown type",
            TypeKind::Constructor => "type constructor",
            TypeKind::Tuple => "tuple type",
            TypeKind::Function => "function type",
            TypeKind::Variable => "uninferred type",
            TypeKind::InterfaceObject => "interface object type",
        }
    }
}

impl Type {
    /// The kind of the type.
    pub open spec fn kind_of(&self) -> TypeKind {
        match self {
            Type::Constructor(..) => TypeKind::Constructor,
            Type::Tuple { .. } => TypeKind::Tuple,
            Type::Function { .. } => TypeKind::Function,
            Type::Variable(..) => TypeKind::Variable,
            Type::InterfaceObject { .. } => TypeKind::InterfaceObject,
            Type::Unit => TypeKind::Unit,
            Type::Unknown => TypeKind::Unknown,
        }
    }

    /// Returns a type's kind.
    pub fn kind(&self) -> (r: TypeKind)
        ensures
            r == self.kind_of(),
    {
        match self {
            Type::Constructor(..) => TypeKind::Constructor,
            Type::Tuple { .. } => TypeKind::Tuple,
            Type::Function { .. } => TypeKind::Function,
            Type::Variable(..) => TypeKind::Variable,
            Type::InterfaceObject { .. } => TypeKind::InterfaceObject,
            Type::Unit => TypeKind::Unit,
            Type::Unknown => TypeKind::Unknown,
        }
    }

    /// `self` is the primitive type named by the identifier `id`: a type
    /// constructor of one segment and no arguments.
    pub open spec fn is_primitive(&self, id: IdentifierId) -> bool {
        self matches Type::Constructor(c) && c.is_primitive(id)
    }

    /// Creates the primitive type named by `identifier_id`.
    pub fn new_primitive(identifier_id: IdentifierId) -> (r: Self)
        ensures
            r.is_primitive(identifier_id),
    {
        Type::Constructor(TypeConstructor::new_primitive(identifier_id))
    }
}

/// A type variable.
#[derive(Debug, PartialEq, Eq, Clone, Hash)]
pub enum TypeVariable {
    /// A type argument to infer, e.g. `_` in `HashMap[_, int32]`.
    TypePlaceholder {
        /// Location of the type argument itself (if exists).
        location: Option<Location>,
        /// Path to the type that contains the corresponding generic parameter.
        origin_type_path: Path,
        /// Location of the corresponding generic parameter name.
        origin_location: Location,
        /// Type variable ID.
        id: TypeVariableId,
    },
    /// The type of an expression.
    Expression {
        /// Location of the expression.
        location: Location,
        /// Type variable ID.
        id: TypeVariableId,
    },
}

impl TypeVariable {
    /// Returns ID of the type variable.
    pub fn id(&self) -> (r: TypeVariableId)
        ensures
            r == match self {
                TypeVariable::TypePlaceholder { id, .. } => *id,
                TypeVariable::Expression { id, .. } => *id,
            },
    {
        match self {
            TypeVariable::TypePlaceholder { id, .. } => *id,
            TypeVariable::Expression { id, .. } => *id,
        }
    }
}

/// A type variable ID.
#[derive(Debug, PartialEq, Eq, Clone, Copy, Hash, Structural)]
pub struct TypeVariableId(pub usize);

/// A type constructor: `List[uint32]`, `uint32`, `String`; anything that
/// has a name and optionally has generic arguments.
#[derive(Debug, PartialEq, Eq, Hash)]
pub struct TypeConstructor {
    pub symbol: Path,
    pub arguments: Vec<Type>,
}

impl TypeConstructor {
    /// `self` names the primitive type `id` and has no arguments.
    pub open spec fn is_primitive(&self, id: IdentifierId) -> bool {
        self.symbol.view() == seq![id] && self.arguments@.len() == 0
    }

    /// Creates a type constructor from its path and arguments.
    pub fn new(left: Path, right: Vec<Type>) -> (r: Self)
        ensures
            r.symbol == left,
            r.arguments == right,
    {
        TypeConstructor { symbol: left, arguments: right }
    }

    /// Creates the type constructor of the primitive type `identifier_id`.
    pub fn new_primitive(identifier_id: IdentifierId) -> (r: Self)
        ensures
            r.is_primitive(identifier_id),
    {
        TypeConstructor { symbol: Path::from_identifier(identifier_id), arguments: Vec::new() }
    }
}

/// Returns a list type with the given element type.
pub fn list_of(element_type: Type) -> (r: Type)
    ensures
        r matches Type::Constructor(c) && c.symbol.view() == seq![
            IdentifierId(builtin_identifiers::LIST),
        ] && c.arguments@ == seq![element_type],
{
    let mut arguments = Vec::new();
    arguments.push(element_type);
    Type::Constructor(
        TypeConstructor {
            symbol: Path::from_identifier(IdentifierId(builtin_identifiers::LIST)),
            arguments,
        },
    )
}

/// Returns the `int8` type.
pub fn int8() -> (r: Type)
    ensures
        r.is_primitive(IdentifierId(builtin_identifiers::INT8)),
{
    Type::new_primitive(IdentifierId(builtin_identifiers::INT8))
}

/// Returns the `int16` type.
pub fn int16() -> (r: Type)
    ensures
        r.is_primitive(IdentifierId(builtin_identifiers::INT16)),
{
    Type::new_primitive(IdentifierId(builtin_identifiers::INT16))
}

/// Returns the `int32` type.
pub fn int32() -> (r: Type)
    ensures
        r.is_primitive(IdentifierId(builtin_identifiers::INT32)),
{
    Type::new_primitive(IdentifierId(builtin_identifiers::INT32))
}

/// Returns the `int64` type.
pub fn int64() -> (r: Type)
    ensures
        r.is_primitive(IdentifierId(builtin_identifiers::INT64)),
{
    Type::new_primitive(IdentifierId(builtin_identifiers::INT64))
}

/// Returns the `uint8` type.
pub fn uint8() -> (r: Type)
    ensures
        r.is_primitive(IdentifierId(builtin_identifiers::UINT8)),
{
    Type::new_primitive(IdentifierId(builtin_identifiers::UINT8))
}

/// Returns the `uint16` type.
pub fn uint16() -> (r: Type)
    ensures
        r.is_primitive(IdentifierId(builtin_identifiers::UINT16)),
{
    Type::new_primitive(IdentifierId(builtin_identifiers::UINT16))
}

/// Returns the `uint32` type.
pub fn uint32() -> (r: Type)
    ensures
        r.is_primitive(IdentifierId(builtin_identifiers::UINT32)),
{
    Type::new_primitive(IdentifierId(builtin_identifiers::UINT32))
}

/// Returns the `uint64` type.
pub fn uint64() -> (r: Type)
    ensures
        r.is_primitive(IdentifierId(builtin_identifiers::UINT64)),
{
    Type::new_primitive(IdentifierId(builtin_identifiers::UINT64))
}

/// Returns the `float32` type.
pub fn float32() -> (r: Type)
    ensures
        r.is_primitive(IdentifierId(builtin_identifiers::FLOAT32)),
{
    Type::new_primitive(IdentifierId(builtin_identifiers::FLOAT32))
}

/// Returns the `float64` type.
pub fn float64() -> (r: Type)
    ensures
        r.is_primitive(IdentifierId(builtin_identifiers::FLOAT64)),
{
    Type::new_primitive(IdentifierId(builtin_identifiers::FLOAT64))
}

/// Returns the `char` type.
pub fn char() -> (r: Type)
    ensures
        r.is_primitive(IdentifierId(builtin_identifiers::CHAR)),
{
    Type::new_primitive(IdentifierId(builtin_identifiers::CHAR))
}

/// Returns the `String` type.
pub fn string() -> (r: Type)
    ensures
        r.is_primitive(IdentifierId(builtin_identifiers::STRING)),
{
    Type::new_primitive(IdentifierId(builtin_identifiers::STRING))
}

/* Data */

/// A data that Stellar compiler has about a tuple-like struct.
#[derive(Debug)]
pub struct TupleLikeStructData {
    pub signature: SignatureId,
    pub fields: Vec<(Visibility, Type)>,
}

impl TupleLikeStructData {
    /// Creates a new tuple-like struct data object, with no fields yet.
    pub fn new(signature: SignatureId) -> (r: Self)
        ensures
            r.signature == signature,
            r.fields@.len() == 0,
    {
        TupleLikeStructData { signature, fields: Vec::new() }
    }
}

/// A data that Stellar compiler has about a field.
#[derive(Debug)]
pub struct FieldData {
    pub visibility: Visibility,
    pub name: IdentifierAST,
    pub ty: Type,
}

impl FieldData {
    /// Creates a new field data object.
    pub fn new(visibility: Visibility, name: IdentifierAST, ty: Type) -> (r: Self)
        ensures
            r.visibility == visibility,
            r.name == name,
            r.ty == ty,
    {
        FieldData { visibility, name, ty }
    }
}

/// A data that Stellar compiler has about a predicate.
#[derive(Debug)]
pub struct PredicateData {
    pub ty: Type,
    pub bounds: Vec<TypeConstructor>,
}

impl PredicateData {
    /// Creates a new predicate data object.
    pub fn new(ty: Type, bounds: Vec<TypeConstructor>) -> (r: Self)
        ensures
            r.ty == ty,
            r.bounds == bounds,
    {
        PredicateData { ty, bounds }
    }
}

/// A data, that the Stellar compiler has about a generic parameter.
#[derive(Debug, PartialEq, Eq)]
pub struct GenericParameterData {
    /// Location of the name of the generic parameter.
    pub location: Location,
    /// Default value of the generic parameter.
    pub default_value: Option<Type>,
}

impl GenericParameterData {
    /// Creates a new generic parameter data object.
    pub fn new(location: Location, default_value: Option<Type>) -> (r: Self)
        ensures
            r.location == location,
            r.default_value == default_value,
    {
        GenericParameterData { location, default_value }
    }
}

/// A data that Stellar compiler has about an enum item.
#[derive(Debug)]
pub struct EnumItemData {
    pub enum_: EnumId,
    pub name: IdentifierAST,
    pub module: ModuleId,
}

impl EnumItemData {
    /// Creates a new enum item data object.
    pub fn new(enum_: EnumId, name: IdentifierAST, module: ModuleId) -> (r: Self)
        ensures
            r.enum_ == enum_,
            r.name == name,
            r.module == module,
    {
        EnumItemData { name, module, enum_ }
    }
}

/// A data that Stellar compiler has about a particular type signature.
#[derive(Debug)]
pub struct SignatureData {
    pub visibility: Visibility,
    pub name: IdentifierAST,
    pub node_idx: usize,
    pub module: ModuleId,
    pub generic_parameter_scope: GenericParameterScopeId,
    pub predicates: Vec<PredicateId>,
    pub implements: Vec<TypeConstructor>,
    pub is_analyzed: bool,
}

impl SignatureData {
    /// Creates a new signature data object, not analyzed yet and with no
    /// predicates or implemented interfaces.
    pub fn new(
        visibility: Visibility,
        name: IdentifierAST,
        node_idx: usize,
        generic_parameter_scope: GenericParameterScopeId,
        module: ModuleId,
    ) -> (r: Self)
        ensures
            r.visibility == visibility,
            r.name == name,
            r.node_idx == node_idx,
            r.module == module,
            r.generic_parameter_scope == generic_parameter_scope,
            r.predicates@.len() == 0,
            r.implements@.len() == 0,
            !r.is_analyzed,
    {
        SignatureData {
            visibility,
            name,
            node_idx,
            module,
            generic_parameter_scope,
            predicates: Vec::new(),
            implements: Vec::new(),
            is_analyzed: false,
        }
    }
}

/// A data that Stellar compiler has about a function.
#[derive(Debug)]
pub struct FunctionData {
    pub signature: SignatureId,
}

impl FunctionData {
    /// Creates a new function data object.
    pub fn new(signature: SignatureId) -> (r: Self)
        ensures
            r.signature == signature,
    {
        FunctionData { signature }
    }
}

/// A data that Stellar compiler has about a type alias.
#[derive(Debug)]
pub struct TypeAliasData {
    pub signature: SignatureId,
    pub ty: Type,
}

impl TypeAliasData {
    /// Creates a new type alias data object, whose type is not known yet.
    pub fn new(signature: SignatureId) -> (r: Self)
        ensures
            r.signature == signature,
            r.ty == Type::Unknown,
    {
        TypeAliasData { signature, ty: Type::Unknown }
    }
}

/// The configuration of the compiler.
#[derive(Debug, Default, Clone, Copy, PartialEq, Eq, Structural)]
pub struct Config {}

impl Config {
    /// Creates the default configuration.
    pub fn new() -> (r: Self)
        ensures
            r == (Config {}),
    {
        Config {}
    }
}

} // verus!
