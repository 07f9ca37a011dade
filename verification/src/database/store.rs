//! The database of the compiler: what it knows about each package and about
//! the modules, items and signatures defined in it, each stored under an ID.

use vstd::prelude::*;

use super::identifier_map::IdentifierMap;
use super::{
    EnumId, EnumItemData, EnumItemId, FieldData, FieldId, FunctionData, FunctionId,
    GenericParameterData, GenericParameterId, GenericParameterScopeId, InterfaceId, ModuleId,
    PackageId, Path, DUMMY_PACKAGE_ID, PredicateData, PredicateId, SignatureData, SignatureId, StructId,
    TupleLikeStructData, TupleLikeStructId, TypeAliasData, TypeAliasId,
};
use crate::interner::{IdentifierId, PathId};

verus! {

/// What a name in a module stands for: a module item or a submodule.
#[derive(Debug, Clone, Copy, PartialEq, Eq, Hash, Structural)]
pub enum Symbol {
    Module(ModuleId),
    Enum(EnumId),
    EnumItem(EnumItemId),
    Struct(StructId),
    TupleLikeStruct(TupleLikeStructId),
    Function(FunctionId),
    Interface(InterfaceId),
    TypeAlias(TypeAliasId),
}

/// The time of the last modification of a folder: whole seconds since the
/// Unix epoch and the nanoseconds within that second.
#[derive(Debug, Clone, Copy, PartialEq, Eq, Hash, Structural)]
pub struct ModificationTime {
    pub seconds: i64,
    pub nanoseconds: u32,
}

/// A data that Stellar compiler has about an enum.
#[derive(Debug)]
pub struct EnumData {
    pub signature: SignatureId,
    pub items: IdentifierMap<EnumItemId>,
    pub methods: IdentifierMap<FunctionId>,
}

impl EnumData {
    /// Creates a new enum data object, with no items and no methods.
    pub fn new(signature: SignatureId) -> (r: Self)
        ensures
            r.signature == signature,
            r.items@ == Map::<IdentifierId, EnumItemId>::empty(),
            r.methods@ == Map::<IdentifierId, FunctionId>::empty(),
    {
        EnumData { signature, items: IdentifierMap::new(), methods: IdentifierMap::new() }
    }
}

/// A data that Stellar compiler has about a struct.
#[derive(Debug)]
pub struct StructData {
    pub signature: SignatureId,
    pub fields: IdentifierMap<FieldId>,
    pub methods: IdentifierMap<FunctionId>,
}

impl StructData {
    /// Creates a new struct data object, with no fields and no methods.
    pub fn new(signature: SignatureId) -> (r: Self)
        ensures
            r.signature == signature,
            r.fields@ == Map::<IdentifierId, FieldId>::empty(),
            r.methods@ == Map::<IdentifierId, FunctionId>::empty(),
    {
        StructData { signature, fields: IdentifierMap::new(), methods: IdentifierMap::new() }
    }
}

/// A data that Stellar compiler has about an interface.
#[derive(Debug)]
pub struct InterfaceData {
    pub signature: SignatureId,
    pub methods: IdentifierMap<FunctionId>,
}

impl InterfaceData {
    /// Creates a new interface data object, with no methods.
    pub fn new(signature: SignatureId) -> (r: Self)
        ensures
            r.signature == signature,
            r.methods@ == Map::<IdentifierId, FunctionId>::empty(),
    {
        InterfaceData { signature, methods: IdentifierMap::new() }
    }
}

/// A data that Stellar compiler has about a generic parameter scope.
#[derive(Debug)]
pub struct GenericParameterScopeData {
    /// A parent scope, for example:
    ///
    /// ```stellar
    /// interface Foo[T] { // self.parent = Scope { parent: None, parameters: [T] }
    ///     fun bar[M]();  // self = Scope { parent: ..., parameters: [M] }
    /// }
    /// ```
    pub parent_scope: Option<GenericParameterScopeId>,
    /// The generic parameters of the scope, by name.
    pub parameters: IdentifierMap<GenericParameterId>,
}

impl GenericParameterScopeData {
    /// Creates a new empty generic parameter scope.
    pub fn new(parent_scope: Option<GenericParameterScopeId>) -> (r: Self)
        ensures
            r.parent_scope == parent_scope,
            r.parameters@ == Map::<IdentifierId, GenericParameterId>::empty(),
    {
        GenericParameterScopeData { parent_scope, parameters: IdentifierMap::new() }
    }
}

/// A data that Stellar compiler has about a module.
#[derive(Debug)]
pub struct ModuleData {
    pub name: IdentifierId,
    pub path: Path,
    pub filepath: PathId,
    pub module_item_symbols: IdentifierMap<Symbol>,
    pub submodules: IdentifierMap<ModuleId>,
    pub resolved_imports: IdentifierMap<Symbol>,
}

impl ModuleData {
    /// Creates a new module data object, with no items, submodules or
    /// imports.
    pub fn new(name: IdentifierId, path: Path, filepath: PathId) -> (r: Self)
        ensures
            r.name == name,
            r.path == path,
            r.filepath == filepath,
            r.module_item_symbols@ == Map::<IdentifierId, Symbol>::empty(),
            r.submodules@ == Map::<IdentifierId, ModuleId>::empty(),
            r.resolved_imports@ == Map::<IdentifierId, Symbol>::empty(),
    {
        ModuleData {
            name,
            path,
            filepath,
            module_item_symbols: IdentifierMap::new(),
            submodules: IdentifierMap::new(),
            resolved_imports: IdentifierMap::new(),
        }
    }
}

/// What the database holds about a package, as mathematical values.
pub struct PackageView {
    pub name: IdentifierId,
    pub path: PathId,
    pub root_module: ModuleId,
    pub parent: Option<PackageId>,
    pub dependencies: Map<IdentifierId, PackageId>,
    pub last_modification_time: Option<ModificationTime>,
    /// The modules of the package, the one with index `i` at `i - 1`.
    pub modules: Seq<ModuleData>,
    /// The enums of the package, the one with index `i` at `i - 1`.
    pub enums: Seq<EnumData>,
    /// The enum items of the package, the one with index `i` at `i - 1`.
    pub enum_items: Seq<EnumItemData>,
    /// The predicates of the package, the one with index `i` at `i - 1`.
    pub predicates: Seq<PredicateData>,
    /// The structs of the package, the one with index `i` at `i - 1`.
    pub structs: Seq<StructData>,
    /// The tuple like structs of the package, the one with index `i` at `i - 1`.
    pub tuple_like_structs: Seq<TupleLikeStructData>,
    /// The fields of the package, the one with index `i` at `i - 1`.
    pub fields: Seq<FieldData>,
    /// The functions of the package, the one with index `i` at `i - 1`.
    pub functions: Seq<FunctionData>,
    /// The interfaces of the package, the one with index `i` at `i - 1`.
    pub interfaces: Seq<InterfaceData>,
    /// The type aliases of the package, the one with index `i` at `i - 1`.
    pub type_aliases: Seq<TypeAliasData>,
    /// The generic parameter scopes of the package, the one with index `i` at `i - 1`.
    pub generic_parameter_scopes: Seq<GenericParameterScopeData>,
    /// The generic parameters of the package, the one with index `i` at `i - 1`.
    pub generic_parameters: Seq<GenericParameterData>,
    /// The signatures of the package, the one with index `i` at `i - 1`.
    pub signatures: Seq<SignatureData>,
}

/// The information Stellar compiler has about a particular package.
#[derive(Debug)]
pub struct PackageData {
    name: IdentifierId,
    path: PathId,
    /// The ID of the root module of the package.
    ///
    /// ```txt
    /// test 1.0.0
    /// |_ src
    ///    |_ main.sr (not a root module)
    ///    |_ package.sr (the root module)
    /// ```
    root_module: ModuleId,
    /// If the package is local, this is the package ID of the package that
    /// uses it as a dependency and is in the Stellar repository index, or
    /// the one currently processed.
    parent: Option<PackageId>,
    /// The packages that the package depends on.
    dependencies: IdentifierMap<PackageId>,
    /// The time of the last modification of the package folder.
    last_modification_time: Option<ModificationTime>,
    module_: Vec<ModuleData>,
    enum_: Vec<EnumData>,
    enum_item_: Vec<EnumItemData>,
    predicate_: Vec<PredicateData>,
    struct_: Vec<StructData>,
    tuple_like_struct_: Vec<TupleLikeStructData>,
    field_: Vec<FieldData>,
    function_: Vec<FunctionData>,
    interface_: Vec<InterfaceData>,
    type_alias_: Vec<TypeAliasData>,
    generic_parameter_scope_: Vec<GenericParameterScopeData>,
    generic_parameter_: Vec<GenericParameterData>,
    signature_: Vec<SignatureData>,
}

impl PackageData {
    /// What the package data holds.
    pub closed spec fn view(&self) -> PackageView {
        PackageView {
            name: self.name,
            path: self.path,
            root_module: self.root_module,
            parent: self.parent,
            dependencies: self.dependencies@,
            last_modification_time: self.last_modification_time,
            modules: self.module_@,
            enums: self.enum_@,
            enum_items: self.enum_item_@,
            predicates: self.predicate_@,
            structs: self.struct_@,
            tuple_like_structs: self.tuple_like_struct_@,
            fields: self.field_@,
            functions: self.function_@,
            interfaces: self.interface_@,
            type_aliases: self.type_alias_@,
            generic_parameter_scopes: self.generic_parameter_scope_@,
            generic_parameters: self.generic_parameter_@,
            signatures: self.signature_@,
        }
    }
}

/// What a list of package data holds.
pub closed spec fn views_of(packages: Seq<PackageData>) -> Seq<PackageView> {
    packages.map_values(|p: PackageData| p.view())
}

/// Storage for Stellar compiler entities. The package with ID `n` is the
/// `n`-th one added, counting from 1; so is each entity within its package.
#[derive(Debug)]
pub struct Database {
    packages: Vec<PackageData>,
}

impl Database {
    /// The packages of the database, the one with ID `n` at `n - 1`.
    pub closed spec fn view(&self) -> Seq<PackageView> {
        views_of(self.packages@)
    }

    /// Whether the database holds a package with the ID.
    pub open spec fn has_package(&self, id: PackageId) -> bool {
        1 <= id.0 <= self@.len()
    }

    /// What the database holds about the package with the ID.
    pub open spec fn package_view(&self, id: PackageId) -> PackageView {
        self@[id.0 - 1]
    }

    /// Whether the database holds a module with the ID.
    pub open spec fn has_module(&self, id: ModuleId) -> bool {
        &&& 1 <= id.package_of().0 <= self@.len()
        &&& 1 <= id.index_of() <= self@[id.package_of().0 - 1].modules.len()
    }

    /// The data that the database holds for a module with the ID.
    pub open spec fn module_data(&self, id: ModuleId) -> ModuleData {
        self@[id.package_of().0 - 1].modules[id.index_of() - 1]
    }

    /// Whether the database holds an enum with the ID.
    pub open spec fn has_enum(&self, id: EnumId) -> bool {
        &&& 1 <= id.package_of().0 <= self@.len()
        &&& 1 <= id.index_of() <= self@[id.package_of().0 - 1].enums.len()
    }

    /// The data that the database holds for an enum with the ID.
    pub open spec fn enum_data(&self, id: EnumId) -> EnumData {
        self@[id.package_of().0 - 1].enums[id.index_of() - 1]
    }

    /// Whether the database holds an enum item with the ID.
    pub open spec fn has_enum_item(&self, id: EnumItemId) -> bool {
        &&& 1 <= id.package_of().0 <= self@.len()
        &&& 1 <= id.index_of() <= self@[id.package_of().0 - 1].enum_items.len()
    }

    /// The data that the database holds for an enum item with the ID.
    pub open spec fn enum_item_data(&self, id: EnumItemId) -> EnumItemData {
        self@[id.package_of().0 - 1].enum_items[id.index_of() - 1]
    }

    /// Whether the database holds a predicate with the ID.
    pub open spec fn has_predicate(&self, id: PredicateId) -> bool {
        &&& 1 <= id.package_of().0 <= self@.len()
        &&& 1 <= id.index_of() <= self@[id.package_of().0 - 1].predicates.len()
    }

    /// The data that the database holds for a predicate with the ID.
    pub open spec fn predicate_data(&self, id: PredicateId) -> PredicateData {
        self@[id.package_of().0 - 1].predicates[id.index_of() - 1]
    }

    /// Whether the database holds a struct with the ID.
    pub open spec fn has_struct(&self, id: StructId) -> bool {
        &&& 1 <= id.package_of().0 <= self@.len()
        &&& 1 <= id.index_of() <= self@[id.package_of().0 - 1].structs.len()
    }

    /// The data that the database holds for a struct with the ID.
    pub open spec fn struct_data(&self, id: StructId) -> StructData {
        self@[id.package_of().0 - 1].structs[id.index_of() - 1]
    }

    /// Whether the database holds a tuple-like struct with the ID.
    pub open spec fn has_tuple_like_struct(&self, id: TupleLikeStructId) -> bool {
        &&& 1 <= id.package_of().0 <= self@.len()
        &&& 1 <= id.index_of() <= self@[id.package_of().0 - 1].tuple_like_structs.len()
    }

    /// The data that the database holds for a tuple-like struct with the ID.
    pub open spec fn tuple_like_struct_data(&self, id: TupleLikeStructId) -> TupleLikeStructData {
        self@[id.package_of().0 - 1].tuple_like_structs[id.index_of() - 1]
    }

    /// Whether the database holds a field with the ID.
    pub open spec fn has_field(&self, id: FieldId) -> bool {
        &&& 1 <= id.package_of().0 <= self@.len()
        &&& 1 <= id.index_of() <= self@[id.package_of().0 - 1].fields.len()
    }

    /// The data that the database holds for a field with the ID.
    pub open spec fn field_data(&self, id: FieldId) -> FieldData {
        self@[id.package_of().0 - 1].fields[id.index_of() - 1]
    }

    /// Whether the database holds a function with the ID.
    pub open spec fn has_function(&self, id: FunctionId) -> bool {
        &&& 1 <= id.package_of().0 <= self@.len()
        &&& 1 <= id.index_of() <= self@[id.package_of().0 - 1].functions.len()
    }

    /// The data that the database holds for a function with the ID.
    pub open spec fn function_data(&self, id: FunctionId) -> FunctionData {
        self@[id.package_of().0 - 1].functions[id.index_of() - 1]
    }

    /// Whether the database holds an interface with the ID.
    pub open spec fn has_interface(&self, id: InterfaceId) -> bool {
        &&& 1 <= id.package_of().0 <= self@.len()
        &&& 1 <= id.index_of() <= self@[id.package_of().0 - 1].interfaces.len()
    }

    /// The data that the database holds for an interface with the ID.
    pub open spec fn interface_data(&self, id: InterfaceId) -> InterfaceData {
        self@[id.package_of().0 - 1].interfaces[id.index_of() - 1]
    }

    /// Whether the database holds a type alias with the ID.
    pub open spec fn has_type_alias(&self, id: TypeAliasId) -> bool {
        &&& 1 <= id.package_of().0 <= self@.len()
        &&& 1 <= id.index_of() <= self@[id.package_of().0 - 1].type_aliases.len()
    }

    /// The data that the database holds for a type alias with the ID.
    pub open spec fn type_alias_data(&self, id: TypeAliasId) -> TypeAliasData {
        self@[id.package_of().0 - 1].type_aliases[id.index_of() - 1]
    }

    /// Whether the database holds a generic parameter scope with the ID.
    pub open spec fn has_generic_parameter_scope(&self, id: GenericParameterScopeId) -> bool {
        &&& 1 <= id.package_of().0 <= self@.len()
        &&& 1 <= id.index_of() <= self@[id.package_of().0 - 1].generic_parameter_scopes.len()
    }

    /// The data that the database holds for a generic parameter scope with the ID.
    pub open spec fn generic_parameter_scope_data(&self, id: GenericParameterScopeId) -> GenericParameterScopeData {
        self@[id.package_of().0 - 1].generic_parameter_scopes[id.index_of() - 1]
    }

    /// Whether the database holds a generic parameter with the ID.
    pub open spec fn has_generic_parameter(&self, id: GenericParameterId) -> bool {
        &&& 1 <= id.package_of().0 <= self@.len()
        &&& 1 <= id.index_of() <= self@[id.package_of().0 - 1].generic_parameters.len()
    }

    /// The data that the database holds for a generic parameter with the ID.
    pub open spec fn generic_parameter_data(&self, id: GenericParameterId) -> GenericParameterData {
        self@[id.package_of().0 - 1].generic_parameters[id.index_of() - 1]
    }

    /// Whether the database holds a signature with the ID.
    pub open spec fn has_signature(&self, id: SignatureId) -> bool {
        &&& 1 <= id.package_of().0 <= self@.len()
        &&& 1 <= id.index_of() <= self@[id.package_of().0 - 1].signatures.len()
    }

    /// The data that the database holds for a signature with the ID.
    pub open spec fn signature_data(&self, id: SignatureId) -> SignatureData {
        self@[id.package_of().0 - 1].signatures[id.index_of() - 1]
    }

    /// The packages of the database after the data of a module with the ID is
    /// replaced by `data`.
    pub open spec fn with_module(&self, id: ModuleId, data: ModuleData) -> Seq<PackageView> {
        let p = self@[id.package_of().0 - 1];
        self@.update(
            id.package_of().0 - 1,
            (PackageView { modules: p.modules.update(id.index_of() - 1, data), ..p }),
        )
    }

    /// The packages of the database after the data of an enum with the ID is
    /// replaced by `data`.
    pub open spec fn with_enum(&self, id: EnumId, data: EnumData) -> Seq<PackageView> {
        let p = self@[id.package_of().0 - 1];
        self@.update(
            id.package_of().0 - 1,
            (PackageView { enums: p.enums.update(id.index_of() - 1, data), ..p }),
        )
    }

    /// The packages of the database after the data of an enum item with the ID is
    /// replaced by `data`.
    pub open spec fn with_enum_item(&self, id: EnumItemId, data: EnumItemData) -> Seq<PackageView> {
        let p = self@[id.package_of().0 - 1];
        self@.update(
            id.package_of().0 - 1,
            (PackageView { enum_items: p.enum_items.update(id.index_of() - 1, data), ..p }),
        )
    }

    /// The packages of the database after the data of a predicate with the ID is
    /// replaced by `data`.
    pub open spec fn with_predicate(&self, id: PredicateId, data: PredicateData) -> Seq<PackageView> {
        let p = self@[id.package_of().0 - 1];
        self@.update(
            id.package_of().0 - 1,
            (PackageView { predicates: p.predicates.update(id.index_of() - 1, data), ..p }),
        )
    }

    /// The packages of the database after the data of a struct with the ID is
    /// replaced by `data`.
    pub open spec fn with_struct(&self, id: StructId, data: StructData) -> Seq<PackageView> {
        let p = self@[id.package_of().0 - 1];
        self@.update(
            id.package_of().0 - 1,
            (PackageView { structs: p.structs.update(id.index_of() - 1, data), ..p }),
        )
    }

    /// The packages of the database after the data of a tuple-like struct with the ID is
    /// replaced by `data`.
    pub open spec fn with_tuple_like_struct(&self, id: TupleLikeStructId, data: TupleLikeStructData) -> Seq<PackageView> {
        let p = self@[id.package_of().0 - 1];
        self@.update(
            id.package_of().0 - 1,
            (PackageView { tuple_like_structs: p.tuple_like_structs.update(id.index_of() - 1, data), ..p }),
        )
    }

    /// The packages of the database after the data of a field with the ID is
    /// replaced by `data`.
    pub open spec fn with_field(&self, id: FieldId, data: FieldData) -> Seq<PackageView> {
        let p = self@[id.package_of().0 - 1];
        self@.update(
            id.package_of().0 - 1,
            (PackageView { fields: p.fields.update(id.index_of() - 1, data), ..p }),
        )
    }

    /// The packages of the database after the data of a function with the ID is
    /// replaced by `data`.
    pub open spec fn with_function(&self, id: FunctionId, data: FunctionData) -> Seq<PackageView> {
        let p = self@[id.package_of().0 - 1];
        self@.update(
            id.package_of().0 - 1,
            (PackageView { functions: p.functions.update(id.index_of() - 1, data), ..p }),
        )
    }

    /// The packages of the database after the data of an interface with the ID is
    /// replaced by `data`.
    pub open spec fn with_interface(&self, id: InterfaceId, data: InterfaceData) -> Seq<PackageView> {
        let p = self@[id.package_of().0 - 1];
        self@.update(
            id.package_of().0 - 1,
            (PackageView { interfaces: p.interfaces.update(id.index_of() - 1, data), ..p }),
        )
    }

    /// The packages of the database after the data of a type alias with the ID is
    /// replaced by `data`.
    pub open spec fn with_type_alias(&self, id: TypeAliasId, data: TypeAliasData) -> Seq<PackageView> {
        let p = self@[id.package_of().0 - 1];
        self@.update(
            id.package_of().0 - 1,
            (PackageView { type_aliases: p.type_aliases.update(id.index_of() - 1, data), ..p }),
        )
    }

    /// The packages of the database after the data of a generic parameter scope with the ID is
    /// replaced by `data`.
    pub open spec fn with_generic_parameter_scope(&self, id: GenericParameterScopeId, data: GenericParameterScopeData) -> Seq<PackageView> {
        let p = self@[id.package_of().0 - 1];
        self@.update(
            id.package_of().0 - 1,
            (PackageView { generic_parameter_scopes: p.generic_parameter_scopes.update(id.index_of() - 1, data), ..p }),
        )
    }

    /// The packages of the database after the data of a generic parameter with the ID is
    /// replaced by `data`.
    pub open spec fn with_generic_parameter(&self, id: GenericParameterId, data: GenericParameterData) -> Seq<PackageView> {
        let p = self@[id.package_of().0 - 1];
        self@.update(
            id.package_of().0 - 1,
            (PackageView { generic_parameters: p.generic_parameters.update(id.index_of() - 1, data), ..p }),
        )
    }

    /// The packages of the database after the data of a signature with the ID is
    /// replaced by `data`.
    pub open spec fn with_signature(&self, id: SignatureId, data: SignatureData) -> Seq<PackageView> {
        let p = self@[id.package_of().0 - 1];
        self@.update(
            id.package_of().0 - 1,
            (PackageView { signatures: p.signatures.update(id.index_of() - 1, data), ..p }),
        )
    }
}

impl Database {
    /// Creates a new empty database.
    pub fn new() -> (r: Self)
        ensures
            r@ == Seq::<PackageView>::empty(),
    {
        let r = Database { packages: Vec::new() };
        assert(r@ =~= Seq::<PackageView>::empty());
        r
    }

    /// Returns the package data by its ID.
    pub fn package(&self, id: PackageId) -> (r: &PackageData)
        requires
            self.has_package(id),
        ensures
            r@ == self.package_view(id),
    {
        &self.packages[id.0 - 1]
    }

    /// Returns the package data by its ID, or `None` if there is no package
    /// with it.
    pub fn package_or_none(&self, id: PackageId) -> (r: Option<&PackageData>)
        ensures
            r is Some <==> self.has_package(id),
            r is Some ==> r->0@ == self.package_view(id),
    {
        if id.0 == 0 || id.0 > self.packages.len() {
            None
        } else {
            Some(&self.packages[id.0 - 1])
        }
    }

    /// Returns a mutable reference to the package data by its ID.
    pub fn package_mut(&mut self, id: PackageId) -> (r: &mut PackageData)
        requires
            old(self).has_package(id),
        ensures
            r@ == old(self).package_view(id),
            final(self)@ == old(self)@.update(id.0 - 1, final(r)@),
    {
        proof {
            Self::lemma_view_update(self.packages@, id.0 - 1);
        }
        &mut self.packages[id.0 - 1]
    }

    proof fn lemma_view_update(packages: Seq<PackageData>, i: int)
        requires
            0 <= i < packages.len(),
        ensures
            forall|p: PackageData|
                #[trigger] views_of(packages.update(i, p)) == views_of(packages).update(i, p.view()),
    {
        assert forall|p: PackageData|
            #[trigger] views_of(packages.update(i, p)) == views_of(packages).update(i, p.view()) by {
            assert(views_of(packages.update(i, p)) =~= views_of(packages).update(i, p.view()));
        }
    }

    /// Returns a mutable reference to the package data by its ID, or `None`
    /// if there is no package with it.
    pub fn package_mut_or_none(&mut self, id: PackageId) -> (r: Option<&mut PackageData>)
        ensures
            r is Some <==> old(self).has_package(id),
            r is Some ==> r->0@ == old(self).package_view(id),
            r is Some ==> final(self)@ == old(self)@.update(id.0 - 1, final(r->0)@),
            r is None ==> final(self)@ == old(self)@,
    {
        if id.0 == 0 || id.0 > self.packages.len() {
            None
        } else {
            Some(self.package_mut(id))
        }
    }

    /// Returns a mutable reference to the data of a module by its ID.
    pub fn resolve_module_mut(&mut self, id: ModuleId) -> (r: &mut ModuleData)
        requires
            old(self).has_module(id),
        ensures
            *r == old(self).module_data(id),
            final(self)@ == old(self).with_module(id, *final(r)),
    {
        proof {
            Self::lemma_view_update(self.packages@, id.0.0 - 1);
        }
        &mut self.packages[id.0.0 - 1].module_[id.1 - 1]
    }

    /// Returns a mutable reference to the data of an enum by its ID.
    pub fn resolve_enum_mut(&mut self, id: EnumId) -> (r: &mut EnumData)
        requires
            old(self).has_enum(id),
        ensures
            *r == old(self).enum_data(id),
            final(self)@ == old(self).with_enum(id, *final(r)),
    {
        proof {
            Self::lemma_view_update(self.packages@, id.0.0 - 1);
        }
        &mut self.packages[id.0.0 - 1].enum_[id.1 - 1]
    }

    /// Returns a mutable reference to the data of an enum item by its ID.
    pub fn resolve_enum_item_mut(&mut self, id: EnumItemId) -> (r: &mut EnumItemData)
        requires
            old(self).has_enum_item(id),
        ensures
            *r == old(self).enum_item_data(id),
            final(self)@ == old(self).with_enum_item(id, *final(r)),
    {
        proof {
            Self::lemma_view_update(self.packages@, id.0.0 - 1);
        }
        &mut self.packages[id.0.0 - 1].enum_item_[id.1 - 1]
    }

    /// Returns a mutable reference to the data of a predicate by its ID.
    pub fn resolve_predicate_mut(&mut self, id: PredicateId) -> (r: &mut PredicateData)
        requires
            old(self).has_predicate(id),
        ensures
            *r == old(self).predicate_data(id),
            final(self)@ == old(self).with_predicate(id, *final(r)),
    {
        proof {
            Self::lemma_view_update(self.packages@, id.0.0 - 1);
        }
        &mut self.packages[id.0.0 - 1].predicate_[id.1 - 1]
    }

    /// Returns a mutable reference to the data of a struct by its ID.
    pub fn resolve_struct_mut(&mut self, id: StructId) -> (r: &mut StructData)
        requires
            old(self).has_struct(id),
        ensures
            *r == old(self).struct_data(id),
            final(self)@ == old(self).with_struct(id, *final(r)),
    {
        proof {
            Self::lemma_view_update(self.packages@, id.0.0 - 1);
        }
        &mut self.packages[id.0.0 - 1].struct_[id.1 - 1]
    }

    /// Returns a mutable reference to the data of a tuple-like struct by its ID.
    pub fn resolve_tuple_like_struct_mut(&mut self, id: TupleLikeStructId) -> (r: &mut TupleLikeStructData)
        requires
            old(self).has_tuple_like_struct(id),
        ensures
            *r == old(self).tuple_like_struct_data(id),
            final(self)@ == old(self).with_tuple_like_struct(id, *final(r)),
    {
        proof {
            Self::lemma_view_update(self.packages@, id.0.0 - 1);
        }
        &mut self.packages[id.0.0 - 1].tuple_like_struct_[id.1 - 1]
    }

    /// Returns a mutable reference to the data of a field by its ID.
    pub fn resolve_field_mut(&mut self, id: FieldId) -> (r: &mut FieldData)
        requires
            old(self).has_field(id),
        ensures
            *r == old(self).field_data(id),
            final(self)@ == old(self).with_field(id, *final(r)),
    {
        proof {
            Self::lemma_view_update(self.packages@, id.0.0 - 1);
        }
        &mut self.packages[id.0.0 - 1].field_[id.1 - 1]
    }

    /// Returns a mutable reference to the data of a function by its ID.
    pub fn resolve_function_mut(&mut self, id: FunctionId) -> (r: &mut FunctionData)
        requires
            old(self).has_function(id),
        ensures
            *r == old(self).function_data(id),
            final(self)@ == old(self).with_function(id, *final(r)),
    {
        proof {
            Self::lemma_view_update(self.packages@, id.0.0 - 1);
        }
        &mut self.packages[id.0.0 - 1].function_[id.1 - 1]
    }

    /// Returns a mutable reference to the data of an interface by its ID.
    pub fn resolve_interface_mut(&mut self, id: InterfaceId) -> (r: &mut InterfaceData)
        requires
            old(self).has_interface(id),
        ensures
            *r == old(self).interface_data(id),
            final(self)@ == old(self).with_interface(id, *final(r)),
    {
        proof {
            Self::lemma_view_update(self.packages@, id.0.0 - 1);
        }
        &mut self.packages[id.0.0 - 1].interface_[id.1 - 1]
    }

    /// Returns a mutable reference to the data of a type alias by its ID.
    pub fn resolve_type_alias_mut(&mut self, id: TypeAliasId) -> (r: &mut TypeAliasData)
        requires
            old(self).has_type_alias(id),
        ensures
            *r == old(self).type_alias_data(id),
            final(self)@ == old(self).with_type_alias(id, *final(r)),
    {
        proof {
            Self::lemma_view_update(self.packages@, id.0.0 - 1);
        }
        &mut self.packages[id.0.0 - 1].type_alias_[id.1 - 1]
    }

    /// Returns a mutable reference to the data of a generic parameter scope by its ID.
    pub fn resolve_generic_parameter_scope_mut(&mut self, id: GenericParameterScopeId) -> (r: &mut GenericParameterScopeData)
        requires
            old(self).has_generic_parameter_scope(id),
        ensures
            *r == old(self).generic_parameter_scope_data(id),
            final(self)@ == old(self).with_generic_parameter_scope(id, *final(r)),
    {
        proof {
            Self::lemma_view_update(self.packages@, id.0.0 - 1);
        }
        &mut self.packages[id.0.0 - 1].generic_parameter_scope_[id.1 - 1]
    }

    /// Returns a mutable reference to the data of a generic parameter by its ID.
    pub fn resolve_generic_parameter_mut(&mut self, id: GenericParameterId) -> (r: &mut GenericParameterData)
        requires
            old(self).has_generic_parameter(id),
        ensures
            *r == old(self).generic_parameter_data(id),
            final(self)@ == old(self).with_generic_parameter(id, *final(r)),
    {
        proof {
            Self::lemma_view_update(self.packages@, id.0.0 - 1);
        }
        &mut self.packages[id.0.0 - 1].generic_parameter_[id.1 - 1]
    }

    /// Returns a mutable reference to the data of a signature by its ID.
    pub fn resolve_signature_mut(&mut self, id: SignatureId) -> (r: &mut SignatureData)
        requires
            old(self).has_signature(id),
        ensures
            *r == old(self).signature_data(id),
            final(self)@ == old(self).with_signature(id, *final(r)),
    {
        proof {
            Self::lemma_view_update(self.packages@, id.0.0 - 1);
        }
        &mut self.packages[id.0.0 - 1].signature_[id.1 - 1]
    }

    /// Adds a module to the package and returns its ID: the package and the
    /// next index in it.
    pub fn add_module(&mut self, package: PackageId, data: ModuleData) -> (r: ModuleId)
        requires
            old(self).has_package(package),
        ensures
            r.package_of() == package,
            r.index_of() == old(self)@[package.0 - 1].modules.len() + 1,
            !old(self).has_module(r),
            final(self).has_module(r),
            final(self).module_data(r) == data,
            forall|id: ModuleId|
                #[trigger] old(self).has_module(id) ==> final(self).has_module(id)
                    && final(self).module_data(id) == old(self).module_data(id),
            final(self)@ == old(self)@.update(
                package.0 - 1,
                (PackageView { modules: old(self)@[package.0 - 1].modules.push(data), ..old(self)@[package.0 - 1] }),
            ),
    {
        let i = package.0 - 1;
        self.packages[i].module_.push(data);
        let len = self.packages[i].module_.len();
        proof {
            let p = old(self)@[package.0 - 1];
            assert(self@ =~= old(self)@.update(
                package.0 - 1,
                (PackageView { modules: p.modules.push(data), ..p }),
            ));
        }
        ModuleId::new(package, len)
    }

    /// Returns the data of a module by its ID.
    pub fn resolve_module(&self, id: ModuleId) -> (r: &ModuleData)
        requires
            self.has_module(id),
        ensures
            *r == self.module_data(id),
    {
        &self.packages[id.0.0 - 1].module_[id.1 - 1]
    }

    /// Returns the data of a module by its ID, or `None` if the database holds
    /// none with it.
    pub fn resolve_module_or_none(&self, id: ModuleId) -> (r: Option<&ModuleData>)
        ensures
            r == (if self.has_module(id) {
                Some(&self.module_data(id))
            } else {
                None
            }),
    {
        if self.contains_module(id) {
            Some(self.resolve_module(id))
        } else {
            None
        }
    }

    /// Whether the database holds a module with the ID.
    pub fn contains_module(&self, id: ModuleId) -> (r: bool)
        ensures
            r == self.has_module(id),
    {
        if id.0.0 == 0 || id.0.0 > self.packages.len() {
            return false;
        }
        1 <= id.1 && id.1 <= self.packages[id.0.0 - 1].module_.len()
    }

    /// Adds an enum to the package and returns its ID: the package and the
    /// next index in it.
    pub fn add_enum(&mut self, package: PackageId, data: EnumData) -> (r: EnumId)
        requires
            old(self).has_package(package),
        ensures
            r.package_of() == package,
            r.index_of() == old(self)@[package.0 - 1].enums.len() + 1,
            !old(self).has_enum(r),
            final(self).has_enum(r),
            final(self).enum_data(r) == data,
            forall|id: EnumId|
                #[trigger] old(self).has_enum(id) ==> final(self).has_enum(id)
                    && final(self).enum_data(id) == old(self).enum_data(id),
            final(self)@ == old(self)@.update(
                package.0 - 1,
                (PackageView { enums: old(self)@[package.0 - 1].enums.push(data), ..old(self)@[package.0 - 1] }),
            ),
    {
        let i = package.0 - 1;
        self.packages[i].enum_.push(data);
        let len = self.packages[i].enum_.len();
        proof {
            let p = old(self)@[package.0 - 1];
            assert(self@ =~= old(self)@.update(
                package.0 - 1,
                (PackageView { enums: p.enums.push(data), ..p }),
            ));
        }
        EnumId::new(package, len)
    }

    /// Returns the data of an enum by its ID.
    pub fn resolve_enum(&self, id: EnumId) -> (r: &EnumData)
        requires
            self.has_enum(id),
        ensures
            *r == self.enum_data(id),
    {
        &self.packages[id.0.0 - 1].enum_[id.1 - 1]
    }

    /// Returns the data of an enum by its ID, or `None` if the database holds
    /// none with it.
    pub fn resolve_enum_or_none(&self, id: EnumId) -> (r: Option<&EnumData>)
        ensures
            r == (if self.has_enum(id) {
                Some(&self.enum_data(id))
            } else {
                None
            }),
    {
        if self.contains_enum(id) {
            Some(self.resolve_enum(id))
        } else {
            None
        }
    }

    /// Whether the database holds an enum with the ID.
    pub fn contains_enum(&self, id: EnumId) -> (r: bool)
        ensures
            r == self.has_enum(id),
    {
        if id.0.0 == 0 || id.0.0 > self.packages.len() {
            return false;
        }
        1 <= id.1 && id.1 <= self.packages[id.0.0 - 1].enum_.len()
    }

    /// Adds an enum item to the package and returns its ID: the package and the
    /// next index in it.
    pub fn add_enum_item(&mut self, package: PackageId, data: EnumItemData) -> (r: EnumItemId)
        requires
            old(self).has_package(package),
        ensures
            r.package_of() == package,
            r.index_of() == old(self)@[package.0 - 1].enum_items.len() + 1,
            !old(self).has_enum_item(r),
            final(self).has_enum_item(r),
            final(self).enum_item_data(r) == data,
            forall|id: EnumItemId|
                #[trigger] old(self).has_enum_item(id) ==> final(self).has_enum_item(id)
                    && final(self).enum_item_data(id) == old(self).enum_item_data(id),
            final(self)@ == old(self)@.update(
                package.0 - 1,
                (PackageView { enum_items: old(self)@[package.0 - 1].enum_items.push(data), ..old(self)@[package.0 - 1] }),
            ),
    {
        let i = package.0 - 1;
        self.packages[i].enum_item_.push(data);
        let len = self.packages[i].enum_item_.len();
        proof {
            let p = old(self)@[package.0 - 1];
            assert(self@ =~= old(self)@.update(
                package.0 - 1,
                (PackageView { enum_items: p.enum_items.push(data), ..p }),
            ));
        }
        EnumItemId::new(package, len)
    }

    /// Returns the data of an enum item by its ID.
    pub fn resolve_enum_item(&self, id: EnumItemId) -> (r: &EnumItemData)
        requires
            self.has_enum_item(id),
        ensures
            *r == self.enum_item_data(id),
    {
        &self.packages[id.0.0 - 1].enum_item_[id.1 - 1]
    }

    /// Returns the data of an enum item by its ID, or `None` if the database holds
    /// none with it.
    pub fn resolve_enum_item_or_none(&self, id: EnumItemId) -> (r: Option<&EnumItemData>)
        ensures
            r == (if self.has_enum_item(id) {
                Some(&self.enum_item_data(id))
            } else {
                None
            }),
    {
        if self.contains_enum_item(id) {
            Some(self.resolve_enum_item(id))
        } else {
            None
        }
    }

    /// Whether the database holds an enum item with the ID.
    pub fn contains_enum_item(&self, id: EnumItemId) -> (r: bool)
        ensures
            r == self.has_enum_item(id),
    {
        if id.0.0 == 0 || id.0.0 > self.packages.len() {
            return false;
        }
        1 <= id.1 && id.1 <= self.packages[id.0.0 - 1].enum_item_.len()
    }

    /// Adds a predicate to the package and returns its ID: the package and the
    /// next index in it.
    pub fn add_predicate(&mut self, package: PackageId, data: PredicateData) -> (r: PredicateId)
        requires
            old(self).has_package(package),
        ensures
            r.package_of() == package,
            r.index_of() == old(self)@[package.0 - 1].predicates.len() + 1,
            !old(self).has_predicate(r),
            final(self).has_predicate(r),
            final(self).predicate_data(r) == data,
            forall|id: PredicateId|
                #[trigger] old(self).has_predicate(id) ==> final(self).has_predicate(id)
                    && final(self).predicate_data(id) == old(self).predicate_data(id),
            final(self)@ == old(self)@.update(
                package.0 - 1,
                (PackageView { predicates: old(self)@[package.0 - 1].predicates.push(data), ..old(self)@[package.0 - 1] }),
            ),
    {
        let i = package.0 - 1;
        self.packages[i].predicate_.push(data);
        let len = self.packages[i].predicate_.len();
        proof {
            let p = old(self)@[package.0 - 1];
            assert(self@ =~= old(self)@.update(
                package.0 - 1,
                (PackageView { predicates: p.predicates.push(data), ..p }),
            ));
        }
        PredicateId::new(package, len)
    }

    /// Returns the data of a predicate by its ID.
    pub fn resolve_predicate(&self, id: PredicateId) -> (r: &PredicateData)
        requires
            self.has_predicate(id),
        ensures
            *r == self.predicate_data(id),
    {
        &self.packages[id.0.0 - 1].predicate_[id.1 - 1]
    }

    /// Returns the data of a predicate by its ID, or `None` if the database holds
    /// none with it.
    pub fn resolve_predicate_or_none(&self, id: PredicateId) -> (r: Option<&PredicateData>)
        ensures
            r == (if self.has_predicate(id) {
                Some(&self.predicate_data(id))
            } else {
                None
            }),
    {
        if self.contains_predicate(id) {
            Some(self.resolve_predicate(id))
        } else {
            None
        }
    }

    /// Whether the database holds a predicate with the ID.
    pub fn contains_predicate(&self, id: PredicateId) -> (r: bool)
        ensures
            r == self.has_predicate(id),
    {
        if id.0.0 == 0 || id.0.0 > self.packages.len() {
            return false;
        }
        1 <= id.1 && id.1 <= self.packages[id.0.0 - 1].predicate_.len()
    }

    /// Adds a struct to the package and returns its ID: the package and the
    /// next index in it.
    pub fn add_struct(&mut self, package: PackageId, data: StructData) -> (r: StructId)
        requires
            old(self).has_package(package),
        ensures
            r.package_of() == package,
            r.index_of() == old(self)@[package.0 - 1].structs.len() + 1,
            !old(self).has_struct(r),
            final(self).has_struct(r),
            final(self).struct_data(r) == data,
            forall|id: StructId|
                #[trigger] old(self).has_struct(id) ==> final(self).has_struct(id)
                    && final(self).struct_data(id) == old(self).struct_data(id),
            final(self)@ == old(self)@.update(
                package.0 - 1,
                (PackageView { structs: old(self)@[package.0 - 1].structs.push(data), ..old(self)@[package.0 - 1] }),
            ),
    {
        let i = package.0 - 1;
        self.packages[i].struct_.push(data);
        let len = self.packages[i].struct_.len();
        proof {
            let p = old(self)@[package.0 - 1];
            assert(self@ =~= old(self)@.update(
                package.0 - 1,
                (PackageView { structs: p.structs.push(data), ..p }),
            ));
        }
        StructId::new(package, len)
    }

    /// Returns the data of a struct by its ID.
    pub fn resolve_struct(&self, id: StructId) -> (r: &StructData)
        requires
            self.has_struct(id),
        ensures
            *r == self.struct_data(id),
    {
        &self.packages[id.0.0 - 1].struct_[id.1 - 1]
    }

    /// Returns the data of a struct by its ID, or `None` if the database holds
    /// none with it.
    pub fn resolve_struct_or_none(&self, id: StructId) -> (r: Option<&StructData>)
        ensures
            r == (if self.has_struct(id) {
                Some(&self.struct_data(id))
            } else {
                None
            }),
    {
        if self.contains_struct(id) {
            Some(self.resolve_struct(id))
        } else {
            None
        }
    }

    /// Whether the database holds a struct with the ID.
    pub fn contains_struct(&self, id: StructId) -> (r: bool)
        ensures
            r == self.has_struct(id),
    {
        if id.0.0 == 0 || id.0.0 > self.packages.len() {
            return false;
        }
        1 <= id.1 && id.1 <= self.packages[id.0.0 - 1].struct_.len()
    }

    /// Adds a tuple-like struct to the package and returns its ID: the package and the
    /// next index in it.
    pub fn add_tuple_like_struct(&mut self, package: PackageId, data: TupleLikeStructData) -> (r: TupleLikeStructId)
        requires
            old(self).has_package(package),
        ensures
            r.package_of() == package,
            r.index_of() == old(self)@[package.0 - 1].tuple_like_structs.len() + 1,
            !old(self).has_tuple_like_struct(r),
            final(self).has_tuple_like_struct(r),
            final(self).tuple_like_struct_data(r) == data,
            forall|id: TupleLikeStructId|
                #[trigger] old(self).has_tuple_like_struct(id) ==> final(self).has_tuple_like_struct(id)
                    && final(self).tuple_like_struct_data(id) == old(self).tuple_like_struct_data(id),
            final(self)@ == old(self)@.update(
                package.0 - 1,
                (PackageView { tuple_like_structs: old(self)@[package.0 - 1].tuple_like_structs.push(data), ..old(self)@[package.0 - 1] }),
            ),
    {
        let i = package.0 - 1;
        self.packages[i].tuple_like_struct_.push(data);
        let len = self.packages[i].tuple_like_struct_.len();
        proof {
            let p = old(self)@[package.0 - 1];
            assert(self@ =~= old(self)@.update(
                package.0 - 1,
                (PackageView { tuple_like_structs: p.tuple_like_structs.push(data), ..p }),
            ));
        }
        TupleLikeStructId::new(package, len)
    }

    /// Returns the data of a tuple-like struct by its ID.
    pub fn resolve_tuple_like_struct(&self, id: TupleLikeStructId) -> (r: &TupleLikeStructData)
        requires
            self.has_tuple_like_struct(id),
        ensures
            *r == self.tuple_like_struct_data(id),
    {
        &self.packages[id.0.0 - 1].tuple_like_struct_[id.1 - 1]
    }

    /// Returns the data of a tuple-like struct by its ID, or `None` if the database holds
    /// none with it.
    pub fn resolve_tuple_like_struct_or_none(&self, id: TupleLikeStructId) -> (r: Option<&TupleLikeStructData>)
        ensures
            r == (if self.has_tuple_like_struct(id) {
                Some(&self.tuple_like_struct_data(id))
            } else {
                None
            }),
    {
        if self.contains_tuple_like_struct(id) {
            Some(self.resolve_tuple_like_struct(id))
        } else {
            None
        }
    }

    /// Whether the database holds a tuple-like struct with the ID.
    pub fn contains_tuple_like_struct(&self, id: TupleLikeStructId) -> (r: bool)
        ensures
            r == self.has_tuple_like_struct(id),
    {
        if id.0.0 == 0 || id.0.0 > self.packages.len() {
            return false;
        }
        1 <= id.1 && id.1 <= self.packages[id.0.0 - 1].tuple_like_struct_.len()
    }

    /// Adds a field to the package and returns its ID: the package and the
    /// next index in it.
    pub fn add_field(&mut self, package: PackageId, data: FieldData) -> (r: FieldId)
        requires
            old(self).has_package(package),
        ensures
            r.package_of() == package,
            r.index_of() == old(self)@[package.0 - 1].fields.len() + 1,
            !old(self).has_field(r),
            final(self).has_field(r),
            final(self).field_data(r) == data,
            forall|id: FieldId|
                #[trigger] old(self).has_field(id) ==> final(self).has_field(id)
                    && final(self).field_data(id) == old(self).field_data(id),
            final(self)@ == old(self)@.update(
                package.0 - 1,
                (PackageView { fields: old(self)@[package.0 - 1].fields.push(data), ..old(self)@[package.0 - 1] }),
            ),
    {
        let i = package.0 - 1;
        self.packages[i].field_.push(data);
        let len = self.packages[i].field_.len();
        proof {
            let p = old(self)@[package.0 - 1];
            assert(self@ =~= old(self)@.update(
                package.0 - 1,
                (PackageView { fields: p.fields.push(data), ..p }),
            ));
        }
        FieldId::new(package, len)
    }

    /// Returns the data of a field by its ID.
    pub fn resolve_field(&self, id: FieldId) -> (r: &FieldData)
        requires
            self.has_field(id),
        ensures
            *r == self.field_data(id),
    {
        &self.packages[id.0.0 - 1].field_[id.1 - 1]
    }

    /// Returns the data of a field by its ID, or `None` if the database holds
    /// none with it.
    pub fn resolve_field_or_none(&self, id: FieldId) -> (r: Option<&FieldData>)
        ensures
            r == (if self.has_field(id) {
                Some(&self.field_data(id))
            } else {
                None
            }),
    {
        if self.contains_field(id) {
            Some(self.resolve_field(id))
        } else {
            None
        }
    }

    /// Whether the database holds a field with the ID.
    pub fn contains_field(&self, id: FieldId) -> (r: bool)
        ensures
            r == self.has_field(id),
    {
        if id.0.0 == 0 || id.0.0 > self.packages.len() {
            return false;
        }
        1 <= id.1 && id.1 <= self.packages[id.0.0 - 1].field_.len()
    }

    /// Adds a function to the package and returns its ID: the package and the
    /// next index in it.
    pub fn add_function(&mut self, package: PackageId, data: FunctionData) -> (r: FunctionId)
        requires
            old(self).has_package(package),
        ensures
            r.package_of() == package,
            r.index_of() == old(self)@[package.0 - 1].functions.len() + 1,
            !old(self).has_function(r),
            final(self).has_function(r),
            final(self).function_data(r) == data,
            forall|id: FunctionId|
                #[trigger] old(self).has_function(id) ==> final(self).has_function(id)
                    && final(self).function_data(id) == old(self).function_data(id),
            final(self)@ == old(self)@.update(
                package.0 - 1,
                (PackageView { functions: old(self)@[package.0 - 1].functions.push(data), ..old(self)@[package.0 - 1] }),
            ),
    {
        let i = package.0 - 1;
        self.packages[i].function_.push(data);
        let len = self.packages[i].function_.len();
        proof {
            let p = old(self)@[package.0 - 1];
            assert(self@ =~= old(self)@.update(
                package.0 - 1,
                (PackageView { functions: p.functions.push(data), ..p }),
            ));
        }
        FunctionId::new(package, len)
    }

    /// Returns the data of a function by its ID.
    pub fn resolve_function(&self, id: FunctionId) -> (r: &FunctionData)
        requires
            self.has_function(id),
        ensures
            *r == self.function_data(id),
    {
        &self.packages[id.0.0 - 1].function_[id.1 - 1]
    }

    /// Returns the data of a function by its ID, or `None` if the database holds
    /// none with it.
    pub fn resolve_function_or_none(&self, id: FunctionId) -> (r: Option<&FunctionData>)
        ensures
            r == (if self.has_function(id) {
                Some(&self.function_data(id))
            } else {
                None
            }),
    {
        if self.contains_function(id) {
            Some(self.resolve_function(id))
        } else {
            None
        }
    }

    /// Whether the database holds a function with the ID.
    pub fn contains_function(&self, id: FunctionId) -> (r: bool)
        ensures
            r == self.has_function(id),
    {
        if id.0.0 == 0 || id.0.0 > self.packages.len() {
            return false;
        }
        1 <= id.1 && id.1 <= self.packages[id.0.0 - 1].function_.len()
    }

    /// Adds an interface to the package and returns its ID: the package and the
    /// next index in it.
    pub fn add_interface(&mut self, package: PackageId, data: InterfaceData) -> (r: InterfaceId)
        requires
            old(self).has_package(package),
        ensures
            r.package_of() == package,
            r.index_of() == old(self)@[package.0 - 1].interfaces.len() + 1,
            !old(self).has_interface(r),
            final(self).has_interface(r),
            final(self).interface_data(r) == data,
            forall|id: InterfaceId|
                #[trigger] old(self).has_interface(id) ==> final(self).has_interface(id)
                    && final(self).interface_data(id) == old(self).interface_data(id),
            final(self)@ == old(self)@.update(
                package.0 - 1,
                (PackageView { interfaces: old(self)@[package.0 - 1].interfaces.push(data), ..old(self)@[package.0 - 1] }),
            ),
    {
        let i = package.0 - 1;
        self.packages[i].interface_.push(data);
        let len = self.packages[i].interface_.len();
        proof {
            let p = old(self)@[package.0 - 1];
            assert(self@ =~= old(self)@.update(
                package.0 - 1,
                (PackageView { interfaces: p.interfaces.push(data), ..p }),
            ));
        }
        InterfaceId::new(package, len)
    }

    /// Returns the data of an interface by its ID.
    pub fn resolve_interface(&self, id: InterfaceId) -> (r: &InterfaceData)
        requires
            self.has_interface(id),
        ensures
            *r == self.interface_data(id),
    {
        &self.packages[id.0.0 - 1].interface_[id.1 - 1]
    }

    /// Returns the data of an interface by its ID, or `None` if the database holds
    /// none with it.
    pub fn resolve_interface_or_none(&self, id: InterfaceId) -> (r: Option<&InterfaceData>)
        ensures
            r == (if self.has_interface(id) {
                Some(&self.interface_data(id))
            } else {
                None
            }),
    {
        if self.contains_interface(id) {
            Some(self.resolve_interface(id))
        } else {
            None
        }
    }

    /// Whether the database holds an interface with the ID.
    pub fn contains_interface(&self, id: InterfaceId) -> (r: bool)
        ensures
            r == self.has_interface(id),
    {
        if id.0.0 == 0 || id.0.0 > self.packages.len() {
            return false;
        }
        1 <= id.1 && id.1 <= self.packages[id.0.0 - 1].interface_.len()
    }

    /// Adds a type alias to the package and returns its ID: the package and the
    /// next index in it.
    pub fn add_type_alias(&mut self, package: PackageId, data: TypeAliasData) -> (r: TypeAliasId)
        requires
            old(self).has_package(package),
        ensures
            r.package_of() == package,
            r.index_of() == old(self)@[package.0 - 1].type_aliases.len() + 1,
            !old(self).has_type_alias(r),
            final(self).has_type_alias(r),
            final(self).type_alias_data(r) == data,
            forall|id: TypeAliasId|
                #[trigger] old(self).has_type_alias(id) ==> final(self).has_type_alias(id)
                    && final(self).type_alias_data(id) == old(self).type_alias_data(id),
            final(self)@ == old(self)@.update(
                package.0 - 1,
                (PackageView { type_aliases: old(self)@[package.0 - 1].type_aliases.push(data), ..old(self)@[package.0 - 1] }),
            ),
    {
        let i = package.0 - 1;
        self.packages[i].type_alias_.push(data);
        let len = self.packages[i].type_alias_.len();
        proof {
            let p = old(self)@[package.0 - 1];
            assert(self@ =~= old(self)@.update(
                package.0 - 1,
                (PackageView { type_aliases: p.type_aliases.push(data), ..p }),
            ));
        }
        TypeAliasId::new(package, len)
    }

    /// Returns the data of a type alias by its ID.
    pub fn resolve_type_alias(&self, id: TypeAliasId) -> (r: &TypeAliasData)
        requires
            self.has_type_alias(id),
        ensures
            *r == self.type_alias_data(id),
    {
        &self.packages[id.0.0 - 1].type_alias_[id.1 - 1]
    }

    /// Returns the data of a type alias by its ID, or `None` if the database holds
    /// none with it.
    pub fn resolve_type_alias_or_none(&self, id: TypeAliasId) -> (r: Option<&TypeAliasData>)
        ensures
            r == (if self.has_type_alias(id) {
                Some(&self.type_alias_data(id))
            } else {
                None
            }),
    {
        if self.contains_type_alias(id) {
            Some(self.resolve_type_alias(id))
        } else {
            None
        }
    }

    /// Whether the database holds a type alias with the ID.
    pub fn contains_type_alias(&self, id: TypeAliasId) -> (r: bool)
        ensures
            r == self.has_type_alias(id),
    {
        if id.0.0 == 0 || id.0.0 > self.packages.len() {
            return false;
        }
        1 <= id.1 && id.1 <= self.packages[id.0.0 - 1].type_alias_.len()
    }

    /// Adds a generic parameter scope to the package and returns its ID: the package and the
    /// next index in it.
    pub fn add_generic_parameter_scope(&mut self, package: PackageId, data: GenericParameterScopeData) -> (r: GenericParameterScopeId)
        requires
            old(self).has_package(package),
        ensures
            r.package_of() == package,
            r.index_of() == old(self)@[package.0 - 1].generic_parameter_scopes.len() + 1,
            !old(self).has_generic_parameter_scope(r),
            final(self).has_generic_parameter_scope(r),
            final(self).generic_parameter_scope_data(r) == data,
            forall|id: GenericParameterScopeId|
                #[trigger] old(self).has_generic_parameter_scope(id) ==> final(self).has_generic_parameter_scope(id)
                    && final(self).generic_parameter_scope_data(id) == old(self).generic_parameter_scope_data(id),
            final(self)@ == old(self)@.update(
                package.0 - 1,
                (PackageView { generic_parameter_scopes: old(self)@[package.0 - 1].generic_parameter_scopes.push(data), ..old(self)@[package.0 - 1] }),
            ),
    {
        let i = package.0 - 1;
        self.packages[i].generic_parameter_scope_.push(data);
        let len = self.packages[i].generic_parameter_scope_.len();
        proof {
            let p = old(self)@[package.0 - 1];
            assert(self@ =~= old(self)@.update(
                package.0 - 1,
                (PackageView { generic_parameter_scopes: p.generic_parameter_scopes.push(data), ..p }),
            ));
        }
        GenericParameterScopeId::new(package, len)
    }

    /// Returns the data of a generic parameter scope by its ID.
    pub fn resolve_generic_parameter_scope(&self, id: GenericParameterScopeId) -> (r: &GenericParameterScopeData)
        requires
            self.has_generic_parameter_scope(id),
        ensures
            *r == self.generic_parameter_scope_data(id),
    {
        &self.packages[id.0.0 - 1].generic_parameter_scope_[id.1 - 1]
    }

    /// Returns the data of a generic parameter scope by its ID, or `None` if the database holds
    /// none with it.
    pub fn resolve_generic_parameter_scope_or_none(&self, id: GenericParameterScopeId) -> (r: Option<&GenericParameterScopeData>)
        ensures
            r == (if self.has_generic_parameter_scope(id) {
                Some(&self.generic_parameter_scope_data(id))
            } else {
                None
            }),
    {
        if self.contains_generic_parameter_scope(id) {
            Some(self.resolve_generic_parameter_scope(id))
        } else {
            None
        }
    }

    /// Whether the database holds a generic parameter scope with the ID.
    pub fn contains_generic_parameter_scope(&self, id: GenericParameterScopeId) -> (r: bool)
        ensures
            r == self.has_generic_parameter_scope(id),
    {
        if id.0.0 == 0 || id.0.0 > self.packages.len() {
            return false;
        }
        1 <= id.1 && id.1 <= self.packages[id.0.0 - 1].generic_parameter_scope_.len()
    }

    /// Adds a generic parameter to the package and returns its ID: the package and the
    /// next index in it.
    pub fn add_generic_parameter(&mut self, package: PackageId, data: GenericParameterData) -> (r: GenericParameterId)
        requires
            old(self).has_package(package),
        ensures
            r.package_of() == package,
            r.index_of() == old(self)@[package.0 - 1].generic_parameters.len() + 1,
            !old(self).has_generic_parameter(r),
            final(self).has_generic_parameter(r),
            final(self).generic_parameter_data(r) == data,
            forall|id: GenericParameterId|
                #[trigger] old(self).has_generic_parameter(id) ==> final(self).has_generic_parameter(id)
                    && final(self).generic_parameter_data(id) == old(self).generic_parameter_data(id),
            final(self)@ == old(self)@.update(
                package.0 - 1,
                (PackageView { generic_parameters: old(self)@[package.0 - 1].generic_parameters.push(data), ..old(self)@[package.0 - 1] }),
            ),
    {
        let i = package.0 - 1;
        self.packages[i].generic_parameter_.push(data);
        let len = self.packages[i].generic_parameter_.len();
        proof {
            let p = old(self)@[package.0 - 1];
            assert(self@ =~= old(self)@.update(
                package.0 - 1,
                (PackageView { generic_parameters: p.generic_parameters.push(data), ..p }),
            ));
        }
        GenericParameterId::new(package, len)
    }

    /// Returns the data of a generic parameter by its ID.
    pub fn resolve_generic_parameter(&self, id: GenericParameterId) -> (r: &GenericParameterData)
        requires
            self.has_generic_parameter(id),
        ensures
            *r == self.generic_parameter_data(id),
    {
        &self.packages[id.0.0 - 1].generic_parameter_[id.1 - 1]
    }

    /// Returns the data of a generic parameter by its ID, or `None` if the database holds
    /// none with it.
    pub fn resolve_generic_parameter_or_none(&self, id: GenericParameterId) -> (r: Option<&GenericParameterData>)
        ensures
            r == (if self.has_generic_parameter(id) {
                Some(&self.generic_parameter_data(id))
            } else {
                None
            }),
    {
        if self.contains_generic_parameter(id) {
            Some(self.resolve_generic_parameter(id))
        } else {
            None
        }
    }

    /// Whether the database holds a generic parameter with the ID.
    pub fn contains_generic_parameter(&self, id: GenericParameterId) -> (r: bool)
        ensures
            r == self.has_generic_parameter(id),
    {
        if id.0.0 == 0 || id.0.0 > self.packages.len() {
            return false;
        }
        1 <= id.1 && id.1 <= self.packages[id.0.0 - 1].generic_parameter_.len()
    }

    /// Adds a signature to the package and returns its ID: the package and the
    /// next index in it.
    pub fn add_signature(&mut self, package: PackageId, data: SignatureData) -> (r: SignatureId)
        requires
            old(self).has_package(package),
        ensures
            r.package_of() == package,
            r.index_of() == old(self)@[package.0 - 1].signatures.len() + 1,
            !old(self).has_signature(r),
            final(self).has_signature(r),
            final(self).signature_data(r) == data,
            forall|id: SignatureId|
                #[trigger] old(self).has_signature(id) ==> final(self).has_signature(id)
                    && final(self).signature_data(id) == old(self).signature_data(id),
            final(self)@ == old(self)@.update(
                package.0 - 1,
                (PackageView { signatures: old(self)@[package.0 - 1].signatures.push(data), ..old(self)@[package.0 - 1] }),
            ),
    {
        let i = package.0 - 1;
        self.packages[i].signature_.push(data);
        let len = self.packages[i].signature_.len();
        proof {
            let p = old(self)@[package.0 - 1];
            assert(self@ =~= old(self)@.update(
                package.0 - 1,
                (PackageView { signatures: p.signatures.push(data), ..p }),
            ));
        }
        SignatureId::new(package, len)
    }

    /// Returns the data of a signature by its ID.
    pub fn resolve_signature(&self, id: SignatureId) -> (r: &SignatureData)
        requires
            self.has_signature(id),
        ensures
            *r == self.signature_data(id),
    {
        &self.packages[id.0.0 - 1].signature_[id.1 - 1]
    }

    /// Returns the data of a signature by its ID, or `None` if the database holds
    /// none with it.
    pub fn resolve_signature_or_none(&self, id: SignatureId) -> (r: Option<&SignatureData>)
        ensures
            r == (if self.has_signature(id) {
                Some(&self.signature_data(id))
            } else {
                None
            }),
    {
        if self.contains_signature(id) {
            Some(self.resolve_signature(id))
        } else {
            None
        }
    }

    /// Whether the database holds a signature with the ID.
    pub fn contains_signature(&self, id: SignatureId) -> (r: bool)
        ensures
            r == self.has_signature(id),
    {
        if id.0.0 == 0 || id.0.0 > self.packages.len() {
            return false;
        }
        1 <= id.1 && id.1 <= self.packages[id.0.0 - 1].signature_.len()
    }
}

impl ModuleId {
    /// Whether the database holds data for the ID.
    pub fn is_valid(self, db: &Database) -> (r: bool)
        ensures
            r == db.has_module(self),
    {
        db.contains_module(self)
    }
}

impl EnumId {
    /// Whether the database holds data for the ID.
    pub fn is_valid(self, db: &Database) -> (r: bool)
        ensures
            r == db.has_enum(self),
    {
        db.contains_enum(self)
    }
}

impl EnumItemId {
    /// Whether the database holds data for the ID.
    pub fn is_valid(self, db: &Database) -> (r: bool)
        ensures
            r == db.has_enum_item(self),
    {
        db.contains_enum_item(self)
    }
}

impl PredicateId {
    /// Whether the database holds data for the ID.
    pub fn is_valid(self, db: &Database) -> (r: bool)
        ensures
            r == db.has_predicate(self),
    {
        db.contains_predicate(self)
    }
}

impl StructId {
    /// Whether the database holds data for the ID.
    pub fn is_valid(self, db: &Database) -> (r: bool)
        ensures
            r == db.has_struct(self),
    {
        db.contains_struct(self)
    }
}

impl TupleLikeStructId {
    /// Whether the database holds data for the ID.
    pub fn is_valid(self, db: &Database) -> (r: bool)
        ensures
            r == db.has_tuple_like_struct(self),
    {
        db.contains_tuple_like_struct(self)
    }
}

impl FieldId {
    /// Whether the database holds data for the ID.
    pub fn is_valid(self, db: &Database) -> (r: bool)
        ensures
            r == db.has_field(self),
    {
        db.contains_field(self)
    }
}

impl FunctionId {
    /// Whether the database holds data for the ID.
    pub fn is_valid(self, db: &Database) -> (r: bool)
        ensures
            r == db.has_function(self),
    {
        db.contains_function(self)
    }
}

impl InterfaceId {
    /// Whether the database holds data for the ID.
    pub fn is_valid(self, db: &Database) -> (r: bool)
        ensures
            r == db.has_interface(self),
    {
        db.contains_interface(self)
    }
}

impl TypeAliasId {
    /// Whether the database holds data for the ID.
    pub fn is_valid(self, db: &Database) -> (r: bool)
        ensures
            r == db.has_type_alias(self),
    {
        db.contains_type_alias(self)
    }
}

impl GenericParameterScopeId {
    /// Whether the database holds data for the ID.
    pub fn is_valid(self, db: &Database) -> (r: bool)
        ensures
            r == db.has_generic_parameter_scope(self),
    {
        db.contains_generic_parameter_scope(self)
    }
}

impl GenericParameterId {
    /// Whether the database holds data for the ID.
    pub fn is_valid(self, db: &Database) -> (r: bool)
        ensures
            r == db.has_generic_parameter(self),
    {
        db.contains_generic_parameter(self)
    }
}

impl SignatureId {
    /// Whether the database holds data for the ID.
    pub fn is_valid(self, db: &Database) -> (r: bool)
        ensures
            r == db.has_signature(self),
    {
        db.contains_signature(self)
    }
}

impl PackageData {
    /// Adds a new package, with no entities, dependencies or parent, to the
    /// database and returns its ID: the number of packages in it after the
    /// addition. `last_modification_time` is that of the package folder.
    pub fn allocate(
        db: &mut Database,
        name: IdentifierId,
        path: PathId,
        last_modification_time: Option<ModificationTime>,
    ) -> (r: PackageId)
        ensures
            r.0 == old(db)@.len() + 1,
            !old(db).has_package(r),
            final(db).has_package(r),
            final(db)@.drop_last() == old(db)@,
            final(db)@.last().name == name,
            final(db)@.last().path == path,
            final(db)@.last().root_module.package_of() == PackageId(DUMMY_PACKAGE_ID),
            final(db)@.last().root_module.index_of() == 0,
            final(db)@.last().parent is None,
            final(db)@.last().dependencies == Map::<IdentifierId, PackageId>::empty(),
            final(db)@.last().last_modification_time == last_modification_time,
            final(db)@.last().modules.len() == 0,
            final(db)@.last().enums.len() == 0,
            final(db)@.last().enum_items.len() == 0,
            final(db)@.last().predicates.len() == 0,
            final(db)@.last().structs.len() == 0,
            final(db)@.last().tuple_like_structs.len() == 0,
            final(db)@.last().fields.len() == 0,
            final(db)@.last().functions.len() == 0,
            final(db)@.last().interfaces.len() == 0,
            final(db)@.last().type_aliases.len() == 0,
            final(db)@.last().generic_parameter_scopes.len() == 0,
            final(db)@.last().generic_parameters.len() == 0,
            final(db)@.last().signatures.len() == 0,
    {
        let package = PackageData {
            name,
            path,
            last_modification_time,
            root_module: ModuleId::new(PackageId(DUMMY_PACKAGE_ID), 0),
            parent: None,
            dependencies: IdentifierMap::new(),
                module_: Vec::new(),
                enum_: Vec::new(),
                enum_item_: Vec::new(),
                predicate_: Vec::new(),
                struct_: Vec::new(),
                tuple_like_struct_: Vec::new(),
                field_: Vec::new(),
                function_: Vec::new(),
                interface_: Vec::new(),
                type_alias_: Vec::new(),
                generic_parameter_scope_: Vec::new(),
                generic_parameter_: Vec::new(),
                signature_: Vec::new(),
        };
        db.packages.push(package);
        proof {
            assert(views_of(db.packages@).drop_last() =~= views_of(old(db).packages@));
        }
        PackageId(db.packages.len())
    }
}

impl PackageId {
    /// Returns the name of the package.
    pub fn name(self, db: &Database) -> (r: IdentifierId)
        requires
            db.has_package(self),
        ensures
            r == db.package_view(self).name,
    {
        db.packages[self.0 - 1].name
    }

    /// Returns the parent package.
    pub fn parent(self, db: &Database) -> (r: Option<PackageId>)
        requires
            db.has_package(self),
        ensures
            r == db.package_view(self).parent,
    {
        db.packages[self.0 - 1].parent
    }

    /// Returns the parent package, or `None` if there is none or the
    /// database holds no package with the ID.
    pub fn parent_or_none(self, db: &Database) -> (r: Option<PackageId>)
        ensures
            r == (if db.has_package(self) {
                db.package_view(self).parent
            } else {
                None
            }),
    {
        match db.package_or_none(self) {
            Some(package) => package.parent,
            None => None,
        }
    }

    /// Returns the packages that the package depends on, by name.
    pub fn dependencies(self, db: &Database) -> (r: &IdentifierMap<PackageId>)
        requires
            db.has_package(self),
        ensures
            r@ == db.package_view(self).dependencies,
    {
        &db.packages[self.0 - 1].dependencies
    }

    /// Returns the packages that the package depends on, or `None` if the
    /// database holds no package with the ID.
    pub fn dependencies_or_none(self, db: &Database) -> (r: Option<&IdentifierMap<PackageId>>)
        ensures
            r is Some <==> db.has_package(self),
            r is Some ==> r->0@ == db.package_view(self).dependencies,
    {
        match db.package_or_none(self) {
            Some(package) => Some(&package.dependencies),
            None => None,
        }
    }

    /// Returns the root module of the package.
    pub fn root_module(self, db: &Database) -> (r: ModuleId)
        requires
            db.has_package(self),
        ensures
            r == db.package_view(self).root_module,
    {
        db.packages[self.0 - 1].root_module
    }

    /// Returns the root module of the package, or `None` if the database
    /// holds no package with the ID.
    pub fn root_module_or_none(self, db: &Database) -> (r: Option<ModuleId>)
        ensures
            r == (if db.has_package(self) {
                Some(db.package_view(self).root_module)
            } else {
                None
            }),
    {
        match db.package_or_none(self) {
            Some(package) => Some(package.root_module),
            None => None,
        }
    }

    /// Sets the root module of the package.
    pub fn set_root_module(self, db: &mut Database, module: ModuleId)
        requires
            old(db).has_package(self),
        ensures
            final(db)@ == old(db)@.update(
                self.0 - 1,
                (PackageView { root_module: module, ..old(db).package_view(self) }),
            ),
    {
        db.package_mut(self).root_module = module;
    }
}

} // verus!
