//! Creating the entities of a package in the database, and reading and
//! changing what the database holds about them by their IDs.

use vstd::prelude::*;

use super::identifier_map::IdentifierMap;
use super::store::{
    Database, EnumData, GenericParameterScopeData, InterfaceData, ModuleData, PackageView,
    StructData, Symbol,
};
use super::{
    EnumId, EnumItemData, EnumItemId, FieldData, FieldId, FunctionData, FunctionId,
    GenericParameterData, GenericParameterId, GenericParameterScopeId, InterfaceId, ModuleId,
    PackageId, Path, PredicateData, PredicateId, SignatureData, SignatureId, StructId,
    TupleLikeStructData, TupleLikeStructId, Type, TypeAliasData, TypeAliasId, TypeConstructor,
};
use crate::ast::{IdentifierAST, Visibility};
use crate::interner::{IdentifierId, PathId};
use crate::location::Location;

verus! {

impl EnumData {
    /// Creates a new enum data object in the database and returns its ID.
    pub fn allocate(db: &mut Database, signature: SignatureId) -> (r: EnumId)
        requires
            old(db).has_package(signature.package_of()),
        ensures
            r.package_of() == signature.package_of(),
            !old(db).has_enum(r),
            final(db).has_enum(r),
            final(db).enum_data(r).signature == signature,
            final(db).enum_data(r).items@ == Map::<IdentifierId, EnumItemId>::empty(),
            final(db).enum_data(r).methods@ == Map::<IdentifierId, FunctionId>::empty(),
            final(db)@ == old(db)@.update(
                signature.package_of().0 - 1,
                (PackageView {
                    enums: old(db)@[signature.package_of().0 - 1].enums.push(final(db).enum_data(r)),
                    ..old(db)@[signature.package_of().0 - 1]
                }),
            ),
    {
        db.add_enum(signature.package(), EnumData::new(signature))
    }
}

impl EnumId {
    /// Returns the type signature of the enum.
    pub fn signature(self, db: &Database) -> (r: SignatureId)
        requires
            db.has_enum(self),
        ensures
            r == db.enum_data(self).signature,
    {
        db.resolve_enum(self).signature
    }

    /// Returns the items of the enum, by name.
    pub fn items(self, db: &Database) -> (r: &IdentifierMap<EnumItemId>)
        requires
            db.has_enum(self),
        ensures
            *r == db.enum_data(self).items,
    {
        &db.resolve_enum(self).items
    }

    /// Returns `true` if an item with a given name is contained in the enum definition.
    pub fn contains_item(self, db: &Database, name: IdentifierId) -> (r: bool)
        requires
            db.has_enum(self),
        ensures
            r == db.enum_data(self).items@.contains_key(name),
    {
        db.resolve_enum(self).items.contains_key(name)
    }

    /// Returns an item with a given name.
    pub fn item(self, db: &Database, name: IdentifierId) -> (r: Option<EnumItemId>)
        requires
            db.has_enum(self),
        ensures
            r == (if db.enum_data(self).items@.contains_key(name) {
                Some(db.enum_data(self).items@[name])
            } else {
                None
            }),
    {
        db.resolve_enum(self).items.get(name)
    }
}

impl StructData {
    /// Creates a new struct data object in the database and returns its ID.
    pub fn allocate(db: &mut Database, signature: SignatureId) -> (r: StructId)
        requires
            old(db).has_package(signature.package_of()),
        ensures
            r.package_of() == signature.package_of(),
            !old(db).has_struct(r),
            final(db).has_struct(r),
            final(db).struct_data(r).signature == signature,
            final(db).struct_data(r).fields@ == Map::<IdentifierId, FieldId>::empty(),
            final(db).struct_data(r).methods@ == Map::<IdentifierId, FunctionId>::empty(),
            final(db)@ == old(db)@.update(
                signature.package_of().0 - 1,
                (PackageView {
                    structs: old(db)@[signature.package_of().0 - 1].structs.push(
                        final(db).struct_data(r),
                    ),
                    ..old(db)@[signature.package_of().0 - 1]
                }),
            ),
    {
        db.add_struct(signature.package(), StructData::new(signature))
    }
}

impl StructId {
    /// Returns the type signature of the struct.
    pub fn signature(self, db: &Database) -> (r: SignatureId)
        requires
            db.has_struct(self),
        ensures
            r == db.struct_data(self).signature,
    {
        db.resolve_struct(self).signature
    }

    /// Returns the fields of the struct, by name.
    pub fn fields(self, db: &Database) -> (r: &IdentifierMap<FieldId>)
        requires
            db.has_struct(self),
        ensures
            *r == db.struct_data(self).fields,
    {
        &db.resolve_struct(self).fields
    }
}

impl TupleLikeStructData {
    /// Creates a new tuple-like struct data object in the database and
    /// returns its ID.
    pub fn allocate(db: &mut Database, signature: SignatureId) -> (r: TupleLikeStructId)
        requires
            old(db).has_package(signature.package_of()),
        ensures
            r.package_of() == signature.package_of(),
            !old(db).has_tuple_like_struct(r),
            final(db).has_tuple_like_struct(r),
            final(db).tuple_like_struct_data(r).signature == signature,
            final(db).tuple_like_struct_data(r).fields@.len() == 0,
            final(db)@ == old(db)@.update(
                signature.package_of().0 - 1,
                (PackageView {
                    tuple_like_structs: old(db)@[signature.package_of().0
                        - 1].tuple_like_structs.push(final(db).tuple_like_struct_data(r)),
                    ..old(db)@[signature.package_of().0 - 1]
                }),
            ),
    {
        db.add_tuple_like_struct(signature.package(), TupleLikeStructData::new(signature))
    }
}

impl TupleLikeStructId {
    /// Returns the type signature of the struct.
    pub fn signature(self, db: &Database) -> (r: SignatureId)
        requires
            db.has_tuple_like_struct(self),
        ensures
            r == db.tuple_like_struct_data(self).signature,
    {
        db.resolve_tuple_like_struct(self).signature
    }
}

impl FieldData {
    /// Creates a new field data object in the database and returns its ID.
    pub fn allocate(
        db: &mut Database,
        package: PackageId,
        visibility: Visibility,
        name: IdentifierAST,
        ty: Type,
    ) -> (r: FieldId)
        requires
            old(db).has_package(package),
        ensures
            r.package_of() == package,
            !old(db).has_field(r),
            final(db).has_field(r),
            final(db).field_data(r) == (FieldData { visibility, name, ty }),
            final(db)@ == old(db)@.update(
                package.0 - 1,
                (PackageView {
                    fields: old(db)@[package.0 - 1].fields.push(FieldData { visibility, name, ty }),
                    ..old(db)@[package.0 - 1]
                }),
            ),
    {
        db.add_field(package, FieldData::new(visibility, name, ty))
    }
}

impl PredicateData {
    /// Creates a new predicate data object in the database and returns its ID.
    pub fn allocate(db: &mut Database, package: PackageId, ty: Type, bounds: Vec<TypeConstructor>) -> (r:
        PredicateId)
        requires
            old(db).has_package(package),
        ensures
            r.package_of() == package,
            !old(db).has_predicate(r),
            final(db).has_predicate(r),
            final(db).predicate_data(r) == (PredicateData { ty, bounds }),
            final(db)@ == old(db)@.update(
                package.0 - 1,
                (PackageView {
                    predicates: old(db)@[package.0 - 1].predicates.push(PredicateData { ty, bounds }),
                    ..old(db)@[package.0 - 1]
                }),
            ),
    {
        db.add_predicate(package, PredicateData::new(ty, bounds))
    }
}

impl PredicateId {
    /// Returns the type of the predicate.
    pub fn ty(self, db: &Database) -> (r: &Type)
        requires
            db.has_predicate(self),
        ensures
            *r == db.predicate_data(self).ty,
    {
        &db.resolve_predicate(self).ty
    }

    /// Returns the bounds of the predicate.
    pub fn bounds(self, db: &Database) -> (r: &[TypeConstructor])
        requires
            db.has_predicate(self),
        ensures
            r@ == db.predicate_data(self).bounds@,
    {
        db.resolve_predicate(self).bounds.as_slice()
    }
}

impl GenericParameterScopeData {
    /// Creates a new generic parameter scope with no parent in the database
    /// and returns its ID.
    pub fn allocate(db: &mut Database, package: PackageId) -> (r: GenericParameterScopeId)
        requires
            old(db).has_package(package),
        ensures
            r.package_of() == package,
            !old(db).has_generic_parameter_scope(r),
            final(db).has_generic_parameter_scope(r),
            final(db).generic_parameter_scope_data(r).parent_scope == None::<GenericParameterScopeId>,
            final(db).generic_parameter_scope_data(r).parameters@ == Map::<
                IdentifierId,
                GenericParameterId,
            >::empty(),
            final(db)@ == old(db)@.update(
                package.0 - 1,
                (PackageView {
                    generic_parameter_scopes: old(db)@[package.0 - 1].generic_parameter_scopes.push(
                        final(db).generic_parameter_scope_data(r),
                    ),
                    ..old(db)@[package.0 - 1]
                }),
            ),
    {
        db.add_generic_parameter_scope(package, GenericParameterScopeData::new(None))
    }
}

impl Database {
    /// Whether the chain of parent scopes that starts at the scope with the
    /// ID ends, in at most `n` steps, at a scope without a parent, every
    /// scope on the way being in the database.
    pub open spec fn scope_chain_within(&self, id: GenericParameterScopeId, n: nat) -> bool
        decreases n,
    {
        &&& self.has_generic_parameter_scope(id)
        &&& match self.generic_parameter_scope_data(id).parent_scope {
            None => true,
            Some(parent) => n > 0 && self.scope_chain_within(parent, (n - 1) as nat),
        }
    }

    /// Whether the chain of parent scopes that starts at the scope with the
    /// ID ends at a scope without a parent.
    pub open spec fn scope_chain_ends(&self, id: GenericParameterScopeId) -> bool {
        exists|n: nat| self.scope_chain_within(id, n)
    }

    /// The generic parameter that a name stands for in the scope with the
    /// ID, looking through at most `n` parent scopes: the innermost scope
    /// that has a parameter with the name decides.
    pub open spec fn scope_lookup_within(
        &self,
        id: GenericParameterScopeId,
        name: IdentifierId,
        n: nat,
    ) -> Option<GenericParameterId>
        decreases n,
    {
        let data = self.generic_parameter_scope_data(id);
        if data.parameters@.contains_key(name) {
            Some(data.parameters@[name])
        } else {
            match data.parent_scope {
                None => None,
                Some(parent) => if n > 0 {
                    self.scope_lookup_within(parent, name, (n - 1) as nat)
                } else {
                    None
                },
            }
        }
    }

    /// The generic parameter that a name stands for in the scope with the
    /// ID: the innermost scope on the chain of parents that has a parameter
    /// with the name decides.
    pub open spec fn scope_lookup(&self, id: GenericParameterScopeId, name: IdentifierId) -> Option<
        GenericParameterId,
    > {
        self.scope_lookup_within(
            id,
            name,
            choose|n: nat| self.scope_chain_within(id, n),
        )
    }

    /// A longer bound on the chain of scopes changes nothing.
    pub proof fn lemma_scope_lookup_stable(
        &self,
        id: GenericParameterScopeId,
        name: IdentifierId,
        n: nat,
        m: nat,
    )
        requires
            self.scope_chain_within(id, n),
            n <= m,
        ensures
            self.scope_chain_within(id, m),
            self.scope_lookup_within(id, name, n) == self.scope_lookup_within(id, name, m),
        decreases n,
    {
        if let Some(parent) = self.generic_parameter_scope_data(id).parent_scope {
            self.lemma_scope_lookup_stable(parent, name, (n - 1) as nat, (m - 1) as nat);
        }
    }

    /// Any bound on the chain of scopes gives the lookup.
    pub proof fn lemma_scope_lookup_any(&self, id: GenericParameterScopeId, name: IdentifierId, n: nat)
        requires
            self.scope_chain_within(id, n),
        ensures
            self.scope_lookup(id, name) == self.scope_lookup_within(id, name, n),
    {
        let k = choose|k: nat| self.scope_chain_within(id, k);
        if k <= n {
            self.lemma_scope_lookup_stable(id, name, k, n);
        } else {
            self.lemma_scope_lookup_stable(id, name, n, k);
        }
    }
}

impl GenericParameterScopeId {
    /// Returns the parent scope.
    pub fn parent_scope(self, db: &Database) -> (r: Option<GenericParameterScopeId>)
        requires
            db.has_generic_parameter_scope(self),
        ensures
            r == db.generic_parameter_scope_data(self).parent_scope,
    {
        db.resolve_generic_parameter_scope(self).parent_scope
    }

    /// Returns the generic parameters of the scope, by name.
    pub fn parameters(self, db: &Database) -> (r: &IdentifierMap<GenericParameterId>)
        requires
            db.has_generic_parameter_scope(self),
        ensures
            *r == db.generic_parameter_scope_data(self).parameters,
    {
        &db.resolve_generic_parameter_scope(self).parameters
    }

    /// Adds a generic parameter into the scope.
    pub fn add_generic_parameter(
        self,
        db: &mut Database,
        parameter_name: IdentifierId,
        parameter: GenericParameterId,
    )
        requires
            old(db).has_generic_parameter_scope(self),
        ensures
            final(db).generic_parameter_scope_data(self).parameters@ == old(
                db,
            ).generic_parameter_scope_data(self).parameters@.insert(parameter_name, parameter),
            final(db)@ == old(db).with_generic_parameter_scope(
                self,
                (GenericParameterScopeData {
                    parameters: final(db).generic_parameter_scope_data(self).parameters,
                    ..old(db).generic_parameter_scope_data(self)
                }),
            ),
    {
        db.resolve_generic_parameter_scope_mut(self).parameters.insert(parameter_name, parameter);
    }

    /// Resolves a data about generic parameter in the scope: the parameter
    /// of the innermost scope on the chain of parents that has one with the
    /// name.
    ///
    /// **Note**: the method shouldn't be used to check if the parameter exists
    /// in the scope. Use the [`contains()`] method.
    ///
    /// [`contains()`]: GenericParameterScopeId::contains
    pub fn resolve(&self, db: &Database, parameter_name: IdentifierId) -> (r: Option<
        GenericParameterId,
    >)
        requires
            db.scope_chain_ends(*self),
        ensures
            r == db.scope_lookup(*self, parameter_name),
    {
        let ghost n = choose|n: nat| db.scope_chain_within(*self, n);
        self.resolve_within(db, parameter_name, Ghost(n))
    }

    fn resolve_within(&self, db: &Database, parameter_name: IdentifierId, Ghost(n): Ghost<nat>) -> (r:
        Option<GenericParameterId>)
        requires
            db.scope_chain_within(*self, n),
        ensures
            r == db.scope_lookup(*self, parameter_name),
        decreases n,
    {
        proof {
            db.lemma_scope_lookup_any(*self, parameter_name, n);
        }
        if let Some(parameter_id) = self.parameters(db).get(parameter_name) {
            Some(parameter_id)
        } else if let Some(parent_scope_id) = self.parent_scope(db) {
            proof {
                db.lemma_scope_lookup_any(parent_scope_id, parameter_name, (n - 1) as nat);
            }
            parent_scope_id.resolve_within(db, parameter_name, Ghost((n - 1) as nat))
        } else {
            None
        }
    }

    /// Checks if the generic parameter exists in the scope or in one of its
    /// parents.
    pub fn contains(&self, db: &Database, parameter_name: IdentifierId) -> (r: bool)
        requires
            db.scope_chain_ends(*self),
        ensures
            r == db.scope_lookup(*self, parameter_name) is Some,
    {
        let ghost n = choose|n: nat| db.scope_chain_within(*self, n);
        self.contains_within(db, parameter_name, Ghost(n))
    }

    fn contains_within(&self, db: &Database, parameter_name: IdentifierId, Ghost(n): Ghost<nat>) -> (r:
        bool)
        requires
            db.scope_chain_within(*self, n),
        ensures
            r == db.scope_lookup(*self, parameter_name) is Some,
        decreases n,
    {
        proof {
            db.lemma_scope_lookup_any(*self, parameter_name, n);
        }
        self.parameters(db).contains_key(parameter_name) || if let Some(parent_scope_id) =
            self.parent_scope(db) {
            proof {
                db.lemma_scope_lookup_any(parent_scope_id, parameter_name, (n - 1) as nat);
            }
            parent_scope_id.contains_within(db, parameter_name, Ghost((n - 1) as nat))
        } else {
            false
        }
    }
}

impl GenericParameterData {
    /// Creates a new generic parameter data object in the database and
    /// returns its ID.
    pub fn allocate(
        db: &mut Database,
        package: PackageId,
        location: Location,
        default_value: Option<Type>,
    ) -> (r: GenericParameterId)
        requires
            old(db).has_package(package),
        ensures
            r.package_of() == package,
            !old(db).has_generic_parameter(r),
            final(db).has_generic_parameter(r),
            final(db).generic_parameter_data(r) == (GenericParameterData { location, default_value }),
            final(db)@ == old(db)@.update(
                package.0 - 1,
                (PackageView {
                    generic_parameters: old(db)@[package.0 - 1].generic_parameters.push(
                        GenericParameterData { location, default_value },
                    ),
                    ..old(db)@[package.0 - 1]
                }),
            ),
    {
        db.add_generic_parameter(package, GenericParameterData::new(location, default_value))
    }
}

impl EnumItemData {
    /// Creates a new enum item data object in the database, in the package
    /// of its module, and returns its ID.
    pub fn allocate(db: &mut Database, enum_: EnumId, name: IdentifierAST, module: ModuleId) -> (r:
        EnumItemId)
        requires
            old(db).has_package(module.package_of()),
        ensures
            r.package_of() == module.package_of(),
            !old(db).has_enum_item(r),
            final(db).has_enum_item(r),
            final(db).enum_item_data(r) == (EnumItemData { enum_, name, module }),
            final(db)@ == old(db)@.update(
                module.package_of().0 - 1,
                (PackageView {
                    enum_items: old(db)@[module.package_of().0 - 1].enum_items.push(
                        EnumItemData { enum_, name, module },
                    ),
                    ..old(db)@[module.package_of().0 - 1]
                }),
            ),
    {
        db.add_enum_item(module.package(), EnumItemData::new(enum_, name, module))
    }
}

impl EnumItemId {
    /// Returns the name of the enum item.
    pub fn name(self, db: &Database) -> (r: IdentifierAST)
        requires
            db.has_enum_item(self),
        ensures
            r == db.enum_item_data(self).name,
    {
        db.resolve_enum_item(self).name
    }

    /// Returns the module the enum item is defined in.
    pub fn module(self, db: &Database) -> (r: ModuleId)
        requires
            db.has_enum_item(self),
        ensures
            r == db.enum_item_data(self).module,
    {
        db.resolve_enum_item(self).module
    }

    /// Returns the enum the item belongs to.
    pub fn enum_(self, db: &Database) -> (r: EnumId)
        requires
            db.has_enum_item(self),
        ensures
            r == db.enum_item_data(self).enum_,
    {
        db.resolve_enum_item(self).enum_
    }
}

impl SignatureData {
    /// Creates a new signature in the database, together with a new empty
    /// generic parameter scope for it, both in the package of its module,
    /// and returns the ID of the signature.
    pub fn allocate(
        db: &mut Database,
        visibility: Visibility,
        name: IdentifierAST,
        node_idx: usize,
        module: ModuleId,
    ) -> (r: SignatureId)
        requires
            old(db).has_package(module.package_of()),
        ensures
            r.package_of() == module.package_of(),
            !old(db).has_signature(r),
            final(db).has_signature(r),
            ({
                let data = final(db).signature_data(r);
                let scope = data.generic_parameter_scope;
                &&& data.visibility == visibility
                &&& data.name == name
                &&& data.node_idx == node_idx
                &&& data.module == module
                &&& data.predicates@.len() == 0
                &&& data.implements@.len() == 0
                &&& !data.is_analyzed
                &&& scope.package_of() == module.package_of()
                &&& !old(db).has_generic_parameter_scope(scope)
                &&& final(db).has_generic_parameter_scope(scope)
                &&& final(db).generic_parameter_scope_data(scope).parent_scope is None
                &&& final(db).generic_parameter_scope_data(scope).parameters@.len() == 0
                &&& final(db)@ == old(db)@.update(
                    module.package_of().0 - 1,
                    (PackageView {
                        generic_parameter_scopes: old(db)@[module.package_of().0
                            - 1].generic_parameter_scopes.push(
                            final(db).generic_parameter_scope_data(scope),
                        ),
                        signatures: old(db)@[module.package_of().0 - 1].signatures.push(data),
                        ..old(db)@[module.package_of().0 - 1]
                    }),
                )
            }),
    {
        let generic_parameter_scope = GenericParameterScopeData::allocate(db, module.package());
        let r = db.add_signature(
            module.package(),
            SignatureData::new(visibility, name, node_idx, generic_parameter_scope, module),
        );
        r
    }
}

impl SignatureId {
    /// Returns the name.
    pub fn name(self, db: &Database) -> (r: IdentifierAST)
        requires
            db.has_signature(self),
        ensures
            r == db.signature_data(self).name,
    {
        db.resolve_signature(self).name
    }

    /// Returns the visibility.
    pub fn visibility(self, db: &Database) -> (r: Visibility)
        requires
            db.has_signature(self),
        ensures
            r == db.signature_data(self).visibility,
    {
        db.resolve_signature(self).visibility
    }

    /// Returns the module.
    pub fn module(self, db: &Database) -> (r: ModuleId)
        requires
            db.has_signature(self),
        ensures
            r == db.signature_data(self).module,
    {
        db.resolve_signature(self).module
    }

    /// Returns the corresponding HIR/THIR node index.
    pub fn node_idx(self, db: &Database) -> (r: usize)
        requires
            db.has_signature(self),
        ensures
            r == db.signature_data(self).node_idx,
    {
        db.resolve_signature(self).node_idx
    }

    /// Marks the signature as analyzed.
    pub fn set_analyzed(self, db: &mut Database)
        requires
            old(db).has_signature(self),
        ensures
            final(db)@ == old(db).with_signature(
                self,
                (SignatureData { is_analyzed: true, ..old(db).signature_data(self) }),
            ),
    {
        db.resolve_signature_mut(self).is_analyzed = true;
    }

    /// Whether the signature was analyzed.
    pub fn is_analyzed(self, db: &Database) -> (r: bool)
        requires
            db.has_signature(self),
        ensures
            r == db.signature_data(self).is_analyzed,
    {
        db.resolve_signature(self).is_analyzed
    }

    /// Returns the predicates of the signature.
    pub fn predicates(self, db: &Database) -> (r: &[PredicateId])
        requires
            db.has_signature(self),
        ensures
            r@ == db.signature_data(self).predicates@,
    {
        db.resolve_signature(self).predicates.as_slice()
    }

    /// Adds a predicate to the signature, after the others.
    pub fn add_predicate(self, db: &mut Database, predicate: PredicateId)
        requires
            old(db).has_signature(self),
        ensures
            final(db).signature_data(self).predicates@ == old(db).signature_data(
                self,
            ).predicates@.push(predicate),
            final(db)@ == old(db).with_signature(
                self,
                (SignatureData {
                    predicates: final(db).signature_data(self).predicates,
                    ..old(db).signature_data(self)
                }),
            ),
    {
        db.resolve_signature_mut(self).predicates.push(predicate);
    }

    /// Records an interface that the signature implements, after the others.
    pub fn add_implemented_interface(self, db: &mut Database, interface: TypeConstructor)
        requires
            old(db).has_signature(self),
        ensures
            final(db).signature_data(self).implements@ == old(db).signature_data(
                self,
            ).implements@.push(interface),
            final(db)@ == old(db).with_signature(
                self,
                (SignatureData {
                    implements: final(db).signature_data(self).implements,
                    ..old(db).signature_data(self)
                }),
            ),
    {
        db.resolve_signature_mut(self).implements.push(interface);
    }

    /// Returns the generic parameter scope of the signature.
    pub fn generic_parameter_scope(self, db: &Database) -> (r: GenericParameterScopeId)
        requires
            db.has_signature(self),
        ensures
            r == db.signature_data(self).generic_parameter_scope,
    {
        db.resolve_signature(self).generic_parameter_scope
    }

    /// Sets the generic parameter scope of the signature.
    pub fn set_generic_parameter_scope(
        self,
        db: &mut Database,
        generic_parameter_scope: GenericParameterScopeId,
    )
        requires
            old(db).has_signature(self),
        ensures
            final(db)@ == old(db).with_signature(
                self,
                (SignatureData { generic_parameter_scope, ..old(db).signature_data(self) }),
            ),
    {
        db.resolve_signature_mut(self).generic_parameter_scope = generic_parameter_scope;
    }
}

impl FunctionData {
    /// Creates a new function data object in the database and returns its ID.
    pub fn allocate(db: &mut Database, signature: SignatureId) -> (r: FunctionId)
        requires
            old(db).has_package(signature.package_of()),
        ensures
            r.package_of() == signature.package_of(),
            !old(db).has_function(r),
            final(db).has_function(r),
            final(db).function_data(r) == (FunctionData { signature }),
            final(db)@ == old(db)@.update(
                signature.package_of().0 - 1,
                (PackageView {
                    functions: old(db)@[signature.package_of().0 - 1].functions.push(
                        FunctionData { signature },
                    ),
                    ..old(db)@[signature.package_of().0 - 1]
                }),
            ),
    {
        db.add_function(signature.package(), FunctionData::new(signature))
    }
}

impl FunctionId {
    /// Returns the function signature.
    pub fn signature(self, db: &Database) -> (r: SignatureId)
        requires
            db.has_function(self),
        ensures
            r == db.function_data(self).signature,
    {
        db.resolve_function(self).signature
    }
}

impl InterfaceData {
    /// Creates a new interface data object in the database and returns its ID.
    pub fn allocate(db: &mut Database, signature: SignatureId) -> (r: InterfaceId)
        requires
            old(db).has_package(signature.package_of()),
        ensures
            r.package_of() == signature.package_of(),
            !old(db).has_interface(r),
            final(db).has_interface(r),
            final(db).interface_data(r).signature == signature,
            final(db).interface_data(r).methods@ == Map::<IdentifierId, FunctionId>::empty(),
            final(db)@ == old(db)@.update(
                signature.package_of().0 - 1,
                (PackageView {
                    interfaces: old(db)@[signature.package_of().0 - 1].interfaces.push(
                        final(db).interface_data(r),
                    ),
                    ..old(db)@[signature.package_of().0 - 1]
                }),
            ),
    {
        db.add_interface(signature.package(), InterfaceData::new(signature))
    }
}

impl InterfaceId {
    /// Returns the type signature of the interface.
    pub fn signature(self, db: &Database) -> (r: SignatureId)
        requires
            db.has_interface(self),
        ensures
            r == db.interface_data(self).signature,
    {
        db.resolve_interface(self).signature
    }
}

impl TypeAliasData {
    /// Creates a new type alias data object, whose type is not known yet, in
    /// the database and returns its ID.
    pub fn allocate(db: &mut Database, signature: SignatureId) -> (r: TypeAliasId)
        requires
            old(db).has_package(signature.package_of()),
        ensures
            r.package_of() == signature.package_of(),
            !old(db).has_type_alias(r),
            final(db).has_type_alias(r),
            final(db).type_alias_data(r) == (TypeAliasData { signature, ty: Type::Unknown }),
            final(db)@ == old(db)@.update(
                signature.package_of().0 - 1,
                (PackageView {
                    type_aliases: old(db)@[signature.package_of().0 - 1].type_aliases.push(
                        TypeAliasData { signature, ty: Type::Unknown },
                    ),
                    ..old(db)@[signature.package_of().0 - 1]
                }),
            ),
    {
        db.add_type_alias(signature.package(), TypeAliasData::new(signature))
    }
}

impl TypeAliasId {
    /// Returns the signature of the type alias.
    pub fn signature(self, db: &Database) -> (r: SignatureId)
        requires
            db.has_type_alias(self),
        ensures
            r == db.type_alias_data(self).signature,
    {
        db.resolve_type_alias(self).signature
    }

    /// Returns the type that the alias stands for.
    pub fn ty(self, db: &Database) -> (r: &Type)
        requires
            db.has_type_alias(self),
        ensures
            *r == db.type_alias_data(self).ty,
    {
        &db.resolve_type_alias(self).ty
    }

    /// Sets the type that the alias stands for.
    pub fn set_type(self, db: &mut Database, ty: Type)
        requires
            old(db).has_type_alias(self),
        ensures
            final(db)@ == old(db).with_type_alias(
                self,
                (TypeAliasData { ty, ..old(db).type_alias_data(self) }),
            ),
    {
        db.resolve_type_alias_mut(self).ty = ty;
    }
}

impl ModuleData {
    /// Creates a new module data object in the database and returns its ID.
    pub fn allocate(
        db: &mut Database,
        package: PackageId,
        name: IdentifierId,
        path: Path,
        filepath: PathId,
    ) -> (r: ModuleId)
        requires
            old(db).has_package(package),
        ensures
            r.package_of() == package,
            !old(db).has_module(r),
            final(db).has_module(r),
            final(db).module_data(r).name == name,
            final(db).module_data(r).path == path,
            final(db).module_data(r).filepath == filepath,
            final(db).module_data(r).module_item_symbols@ == Map::<IdentifierId, Symbol>::empty(),
            final(db).module_data(r).submodules@ == Map::<IdentifierId, ModuleId>::empty(),
            final(db).module_data(r).resolved_imports@ == Map::<IdentifierId, Symbol>::empty(),
            final(db)@ == old(db)@.update(
                package.0 - 1,
                (PackageView {
                    modules: old(db)@[package.0 - 1].modules.push(final(db).module_data(r)),
                    ..old(db)@[package.0 - 1]
                }),
            ),
    {
        db.add_module(package, ModuleData::new(name, path, filepath))
    }
}

impl Database {
    /// What a name stands for in the module with the ID: an item of the
    /// module if there is one with the name, else a submodule.
    pub open spec fn module_symbol(&self, id: ModuleId, name: IdentifierId) -> Option<Symbol> {
        let data = self.module_data(id);
        if data.module_item_symbols@.contains_key(name) {
            Some(data.module_item_symbols@[name])
        } else if data.submodules@.contains_key(name) {
            Some(Symbol::Module(data.submodules@[name]))
        } else {
            None
        }
    }
}

impl ModuleId {
    /// Returns module's file path ID.
    pub fn filepath(self, db: &Database) -> (r: PathId)
        requires
            db.has_module(self),
        ensures
            r == db.module_data(self).filepath,
    {
        db.resolve_module(self).filepath
    }

    /// Returns module's path.
    pub fn path(self, db: &Database) -> (r: &Path)
        requires
            db.has_module(self),
        ensures
            *r == db.module_data(self).path,
    {
        &db.resolve_module(self).path
    }

    /// Returns module's name.
    pub fn name(self, db: &Database) -> (r: IdentifierId)
        requires
            db.has_module(self),
        ensures
            r == db.module_data(self).name,
    {
        db.resolve_module(self).name
    }

    /// Returns the symbols of the module items, by name.
    pub fn module_item_symbols(self, db: &Database) -> (r: &IdentifierMap<Symbol>)
        requires
            db.has_module(self),
        ensures
            *r == db.module_data(self).module_item_symbols,
    {
        &db.resolve_module(self).module_item_symbols
    }

    /// Adds a module item symbol to the module.
    pub fn add_module_item(self, db: &mut Database, name: IdentifierId, symbol: Symbol)
        requires
            old(db).has_module(self),
        ensures
            final(db).module_data(self).module_item_symbols@ == old(db).module_data(
                self,
            ).module_item_symbols@.insert(name, symbol),
            final(db)@ == old(db).with_module(
                self,
                (ModuleData {
                    module_item_symbols: final(db).module_data(self).module_item_symbols,
                    ..old(db).module_data(self)
                }),
            ),
    {
        db.resolve_module_mut(self).module_item_symbols.insert(name, symbol);
    }

    /// Returns the submodules of the module, by name.
    pub fn submodules(self, db: &Database) -> (r: &IdentifierMap<ModuleId>)
        requires
            db.has_module(self),
        ensures
            *r == db.module_data(self).submodules,
    {
        &db.resolve_module(self).submodules
    }

    /// Returns a mutable reference to the submodules of the module.
    pub fn submodules_mut(self, db: &mut Database) -> (r: &mut IdentifierMap<ModuleId>)
        requires
            old(db).has_module(self),
        ensures
            *r == old(db).module_data(self).submodules,
            final(db)@ == old(db).with_module(
                self,
                (ModuleData { submodules: *final(r), ..old(db).module_data(self) }),
            ),
    {
        &mut db.resolve_module_mut(self).submodules
    }

    /// Resolves a symbol related to only module item in the module.
    ///
    /// If you want to additionally resolve submodules, use [`ModuleId::symbol()`].
    pub fn module_item_symbol_or_none(self, db: &Database, item_name: IdentifierId) -> (r: Option<
        Symbol,
    >)
        requires
            db.has_module(self),
        ensures
            r == (if db.module_data(self).module_item_symbols@.contains_key(item_name) {
                Some(db.module_data(self).module_item_symbols@[item_name])
            } else {
                None
            }),
    {
        self.module_item_symbols(db).get(item_name)
    }

    /// Resolves a symbol in the module: an item of the module, else a
    /// submodule.
    pub fn symbol_or_none(self, db: &Database, name: IdentifierId) -> (r: Option<Symbol>)
        requires
            db.has_module(self),
        ensures
            r == db.module_symbol(self, name),
    {
        let item = self.module_item_symbol_or_none(db, name);
        let submodule = match self.submodule(db, name) {
            Some(module) => Some(Symbol::Module(module)),
            None => None,
        };
        match item {
            Some(symbol) => Some(symbol),
            None => submodule,
        }
    }

    /// Resolves a symbol in the module, which has one for the name.
    pub fn symbol(self, db: &Database, name: IdentifierId) -> (r: Symbol)
        requires
            db.has_module(self),
            db.module_symbol(self, name) is Some,
        ensures
            Some(r) == db.module_symbol(self, name),
    {
        self.symbol_or_none(db, name).unwrap()
    }

    /// Resolves an item of the module, which has one with the name.
    pub fn module_item_symbol(self, db: &Database, name: IdentifierId) -> (r: Symbol)
        requires
            db.has_module(self),
            db.module_data(self).module_item_symbols@.contains_key(name),
        ensures
            r == db.module_data(self).module_item_symbols@[name],
    {
        self.module_item_symbol_or_none(db, name).unwrap()
    }

    /// Checks if a symbol is contained in the module.
    pub fn contains_module_item_symbol(self, db: &Database, item_name: IdentifierId) -> (r: bool)
        requires
            db.has_module(self),
        ensures
            r == db.module_data(self).module_item_symbols@.contains_key(item_name),
    {
        self.module_item_symbols(db).contains_key(item_name)
    }

    /// Returns the ID of the submodule of the module by its name.
    pub fn submodule(self, db: &Database, name: IdentifierId) -> (r: Option<ModuleId>)
        requires
            db.has_module(self),
        ensures
            r == (if db.module_data(self).submodules@.contains_key(name) {
                Some(db.module_data(self).submodules@[name])
            } else {
                None
            }),
    {
        self.submodules(db).get(name)
    }

    /// Adds a submodule to the module, under the submodule's name.
    pub fn add_submodule(self, db: &mut Database, module: ModuleId)
        requires
            old(db).has_module(self),
            old(db).has_module(module),
        ensures
            final(db).module_data(self).submodules@ == old(db).module_data(self).submodules@.insert(
                old(db).module_data(module).name,
                module,
            ),
            final(db)@ == old(db).with_module(
                self,
                (ModuleData {
                    submodules: final(db).module_data(self).submodules,
                    ..old(db).module_data(self)
                }),
            ),
    {
        let name = module.name(db);
        self.submodules_mut(db).insert(name, module);
    }

    /// Checks if a submodule with a given name is contained in the module.
    pub fn contains_submodule_with_name(self, db: &Database, name: IdentifierId) -> (r: bool)
        requires
            db.has_module(self),
        ensures
            r == db.module_data(self).submodules@.contains_key(name),
    {
        self.submodules(db).contains_key(name)
    }

    /// Checks if a submodule with a given ID is contained in the module.
    pub fn contains_submodule_with_id(self, db: &Database, id: ModuleId) -> (r: bool)
        requires
            db.has_module(self),
        ensures
            r == db.module_data(self).submodules@.values().contains(id),
    {
        let submodules = self.submodules(db).values();
        let mut i: usize = 0;
        while i < submodules.len()
            invariant
                i <= submodules@.len(),
                forall|j: int| 0 <= j < i ==> submodules@[j] != id,
                forall|v: ModuleId|
                    submodules@.contains(v) <==> db.module_data(self).submodules@.values().contains(v),
            decreases submodules@.len() - i,
        {
            if submodules[i] == id {
                assert(submodules@.contains(id)) by {
                    assert(submodules@[i as int] == id);
                }
                return true;
            }
            i += 1;
        }
        assert(!submodules@.contains(id));
        false
    }

    /// Returns the resolved imports of the module, by name.
    pub fn resolved_imports(self, db: &Database) -> (r: &IdentifierMap<Symbol>)
        requires
            db.has_module(self),
        ensures
            *r == db.module_data(self).resolved_imports,
    {
        &db.resolve_module(self).resolved_imports
    }

    /// Adds a resolved import to the module.
    pub fn add_resolved_import(self, db: &mut Database, name: IdentifierId, symbol: Symbol)
        requires
            old(db).has_module(self),
        ensures
            final(db).module_data(self).resolved_imports@ == old(db).module_data(
                self,
            ).resolved_imports@.insert(name, symbol),
            final(db)@ == old(db).with_module(
                self,
                (ModuleData {
                    resolved_imports: final(db).module_data(self).resolved_imports,
                    ..old(db).module_data(self)
                }),
            ),
    {
        db.resolve_module_mut(self).resolved_imports.insert(name, symbol);
    }
}

} // verus!
