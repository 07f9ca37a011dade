use std::sync::Arc;

use stellar::ast::{IdentifierAST, Visibility};
use stellar::database::{
    Config, Database, EnumData, EnumItemData, EnumItemId, FieldData, FunctionData,
    GenericParameterData, GenericParameterScopeData, IdentifierMap, InterfaceData, ModificationTime,
    ModuleData, ModuleId, PackageData, PackageId, Path, PredicateData, SignatureData, State,
    StructData, Symbol, TupleLikeStructData, Type, TypeAliasData, DUMMY_PACKAGE_ID,
};
use stellar::files::Error;
use stellar::in_memory_file::InMemoryFile;
use stellar::in_memory_file_storage::InMemoryFileStorage;
use stellar::interner::{IdentifierId, PathId};
use stellar::location::{ByteOffset, Location};
use stellar::thir::{self, GenericParameterScope};

fn ident(id: usize) -> IdentifierAST {
    IdentifierAST {
        location: Location { filepath: PathId(1), start: ByteOffset(0), end: ByteOffset(1) },
        id: IdentifierId(id),
    }
}

fn db_with_package() -> (Database, PackageId, ModuleId) {
    let mut db = Database::new();
    let package = PackageData::allocate(&mut db, IdentifierId(30), PathId(1), None);
    let module = ModuleData::allocate(
        &mut db,
        package,
        IdentifierId(30),
        Path::new(vec![IdentifierId(30)]),
        PathId(2),
    );
    (db, package, module)
}

#[test]
fn packages_are_numbered_from_one() {
    let mut db = Database::new();
    assert!(db.package_or_none(PackageId(1)).is_none());
    let first = PackageData::allocate(&mut db, IdentifierId(30), PathId(1), None);
    let time = ModificationTime { seconds: 1_700_000_000, nanoseconds: 5 };
    let second = PackageData::allocate(&mut db, IdentifierId(31), PathId(2), Some(time));
    assert_eq!(first, PackageId(1));
    assert_eq!(second, PackageId(2));
    assert_eq!(first.name(&db), IdentifierId(30));
    assert_eq!(second.name(&db), IdentifierId(31));
    assert_eq!(second.parent(&db), None);
    assert_eq!(second.parent_or_none(&db), None);
    assert!(PackageId(3).parent_or_none(&db).is_none());
    assert!(PackageId(DUMMY_PACKAGE_ID).root_module_or_none(&db).is_none());
    assert!(PackageId(DUMMY_PACKAGE_ID).dependencies_or_none(&db).is_none());
    assert_eq!(first.dependencies(&db).len(), 0);
    assert!(db.package_or_none(PackageId(0)).is_none());
    assert!(db.package_or_none(PackageId(2)).is_some());
    assert_eq!(first.root_module(&db).package(), PackageId(DUMMY_PACKAGE_ID));
    assert_eq!(first.root_module(&db).idx(), 0);
}

#[test]
fn set_root_module_is_read_back() {
    let (mut db, package, module) = db_with_package();
    package.set_root_module(&mut db, module);
    assert_eq!(package.root_module(&db), module);
    assert_eq!(package.root_module_or_none(&db), Some(module));
}

#[test]
fn entities_are_numbered_per_package_from_one() {
    let (mut db, package, module) = db_with_package();
    assert_eq!(module.package(), package);
    assert_eq!(module.idx(), 1);
    let other = ModuleData::allocate(&mut db, package, IdentifierId(31), Path::new(vec![]), PathId(3));
    assert_eq!(other.idx(), 2);
    assert!(module.is_valid(&db));
    assert!(other.is_valid(&db));
    assert!(!ModuleId::new(package, 3).is_valid(&db));
    assert!(!ModuleId::new(package, 0).is_valid(&db));
    assert!(!ModuleId::new(PackageId(2), 1).is_valid(&db));
    assert!(db.resolve_module_or_none(ModuleId::new(package, 3)).is_none());
    assert_eq!(db.resolve_module(other).filepath, PathId(3));
    assert_eq!(module.name(&db), IdentifierId(30));
    assert_eq!(module.filepath(&db), PathId(2));
    assert_eq!(module.path(&db).segments(), &[IdentifierId(30)]);
}

#[test]
fn module_symbols_prefer_items_over_submodules() {
    let (mut db, package, module) = db_with_package();
    let child = ModuleData::allocate(&mut db, package, IdentifierId(40), Path::new(vec![]), PathId(4));
    module.add_submodule(&mut db, child);
    assert!(module.contains_submodule_with_name(&db, IdentifierId(40)));
    assert!(module.contains_submodule_with_id(&db, child));
    assert!(!module.contains_submodule_with_id(&db, module));
    assert_eq!(module.submodule(&db, IdentifierId(40)), Some(child));
    assert_eq!(module.symbol_or_none(&db, IdentifierId(40)), Some(Symbol::Module(child)));
    assert_eq!(module.symbol(&db, IdentifierId(40)), Symbol::Module(child));
    assert_eq!(module.symbol_or_none(&db, IdentifierId(41)), None);

    let signature = SignatureData::allocate(&mut db, Visibility::Private, ident(40), 0, module);
    let function = FunctionData::allocate(&mut db, signature);
    module.add_module_item(&mut db, IdentifierId(40), Symbol::Function(function));
    assert_eq!(module.symbol_or_none(&db, IdentifierId(40)), Some(Symbol::Function(function)));
    assert_eq!(module.module_item_symbol(&db, IdentifierId(40)), Symbol::Function(function));
    assert!(module.contains_module_item_symbol(&db, IdentifierId(40)));
    assert_eq!(module.module_item_symbol_or_none(&db, IdentifierId(41)), None);
    assert_eq!(module.module_item_symbols(&db).len(), 1);

    module.add_resolved_import(&mut db, IdentifierId(42), Symbol::Module(child));
    assert_eq!(module.resolved_imports(&db).get(IdentifierId(42)), Some(Symbol::Module(child)));
    assert_eq!(module.submodules(&db).values(), vec![child]);
    module.submodules_mut(&mut db).insert(IdentifierId(43), module);
    assert_eq!(module.submodule(&db, IdentifierId(43)), Some(module));
}

#[test]
fn signatures_get_their_own_scope() {
    let (mut db, _package, module) = db_with_package();
    let signature = SignatureData::allocate(&mut db, Visibility::Private, ident(50), 7, module);
    assert_eq!(signature.idx(), 1);
    assert_eq!(signature.name(&db), ident(50));
    assert_eq!(signature.visibility(&db), Visibility::Private);
    assert_eq!(signature.module(&db), module);
    assert_eq!(signature.node_idx(&db), 7);
    assert!(!signature.is_analyzed(&db));
    signature.set_analyzed(&mut db);
    assert!(signature.is_analyzed(&db));
    let scope = signature.generic_parameter_scope(&db);
    assert!(scope.is_valid(&db));
    assert_eq!(scope.parent_scope(&db), None);
    assert_eq!(scope.parameters(&db).len(), 0);

    let predicate = PredicateData::allocate(&mut db, module.package(), Type::Unknown, vec![]);
    signature.add_predicate(&mut db, predicate);
    assert_eq!(signature.predicates(&db), &[predicate]);
    assert_eq!(predicate.ty(&db), &Type::Unknown);
    assert!(predicate.bounds(&db).is_empty());

    let other_scope = GenericParameterScopeData::allocate(&mut db, module.package());
    signature.set_generic_parameter_scope(&mut db, other_scope);
    assert_eq!(signature.generic_parameter_scope(&db), other_scope);
}

#[test]
fn generic_parameters_are_found_through_parent_scopes() {
    let (mut db, package, module) = db_with_package();
    let parent = GenericParameterScopeData::allocate(&mut db, package);
    let child = db.add_generic_parameter_scope(package, GenericParameterScopeData::new(Some(parent)));
    let location = Location { filepath: PathId(2), start: ByteOffset(3), end: ByteOffset(4) };
    let t = GenericParameterData::allocate(&mut db, package, location, None);
    let u = GenericParameterData::allocate(&mut db, package, location, Some(Type::Unit));
    assert_eq!(db.resolve_generic_parameter(u).default_value, Some(Type::Unit));
    parent.add_generic_parameter(&mut db, IdentifierId(60), t);
    assert_eq!(child.resolve(&db, IdentifierId(60)), Some(t));
    assert!(child.contains(&db, IdentifierId(60)));
    assert!(!child.contains(&db, IdentifierId(61)));
    assert_eq!(child.resolve(&db, IdentifierId(61)), None);
    child.add_generic_parameter(&mut db, IdentifierId(60), u);
    assert_eq!(child.resolve(&db, IdentifierId(60)), Some(u));
    assert_eq!(parent.resolve(&db, IdentifierId(60)), Some(t));
    assert_eq!(module.idx(), 1);
}

#[test]
fn items_of_each_kind_keep_their_data() {
    let (mut db, package, module) = db_with_package();
    let signature = SignatureData::allocate(&mut db, Visibility::Private, ident(70), 0, module);

    let enum_ = EnumData::allocate(&mut db, signature);
    assert_eq!(enum_.signature(&db), signature);
    assert!(!enum_.contains_item(&db, IdentifierId(71)));
    let item = EnumItemData::allocate(&mut db, enum_, ident(71), module);
    db.resolve_enum_mut(enum_).items.insert(IdentifierId(71), item);
    assert!(enum_.contains_item(&db, IdentifierId(71)));
    assert_eq!(enum_.item(&db, IdentifierId(71)), Some(item));
    assert_eq!(enum_.item(&db, IdentifierId(72)), None);
    assert_eq!(enum_.items(&db).len(), 1);
    assert_eq!(item.name(&db), ident(71));
    assert_eq!(item.module(&db), module);
    assert_eq!(item.enum_(&db), enum_);
    assert!(!EnumItemId::new(package, 2).is_valid(&db));

    let struct_ = StructData::allocate(&mut db, signature);
    assert_eq!(struct_.signature(&db), signature);
    let field = FieldData::allocate(&mut db, package, Visibility::Private, ident(73), Type::Unit);
    db.resolve_struct_mut(struct_).fields.insert(IdentifierId(73), field);
    assert_eq!(struct_.fields(&db).get(IdentifierId(73)), Some(field));
    assert_eq!(db.resolve_field(field).ty, Type::Unit);

    let tuple_like = TupleLikeStructData::allocate(&mut db, signature);
    assert_eq!(tuple_like.signature(&db), signature);
    let interface = InterfaceData::allocate(&mut db, signature);
    assert_eq!(interface.signature(&db), signature);
    let alias = TypeAliasData::allocate(&mut db, signature);
    assert_eq!(alias.signature(&db), signature);
    assert_eq!(alias.ty(&db), &Type::Unknown);
    alias.set_type(&mut db, Type::Unit);
    assert_eq!(alias.ty(&db), &Type::Unit);
    let function = FunctionData::allocate(&mut db, signature);
    assert_eq!(function.signature(&db), signature);
    assert_eq!(function.idx(), 1);
    assert_eq!(alias.idx(), 1);
}

#[test]
fn identifier_map_keeps_first_insertion_order() {
    let mut map: IdentifierMap<u32> = IdentifierMap::new();
    assert_eq!(map.insert(IdentifierId(5), 50), None);
    assert_eq!(map.insert(IdentifierId(2), 20), None);
    assert_eq!(map.insert(IdentifierId(5), 55), Some(50));
    assert_eq!(map.len(), 2);
    assert_eq!(map.values(), vec![55, 20]);
    assert_eq!(map.get(IdentifierId(5)), Some(55));
    assert_eq!(map.get_ref(IdentifierId(2)), Some(&20));
    assert!(!map.contains_key(IdentifierId(3)));
}

#[test]
fn state_holds_database_and_diagnostics() {
    let mut state = State::new().with_config(Config::new());
    assert_eq!(state.config(), &Config::new());
    let package = PackageData::allocate(state.db_mut(), IdentifierId(1), PathId(1), None);
    assert_eq!(package.name(state.db()), IdentifierId(1));
    assert!(state.diagnostics().is_ok());
    assert!(state.diagnostics_mut().diagnostics.is_empty());
    let db = state.into_db();
    assert!(db.package_or_none(package).is_some());
}

fn storage_with_file() -> InMemoryFileStorage {
    let mut storage = InMemoryFileStorage::new();
    let file = InMemoryFile::new_from_source("test.sr".to_string(), "ab\nαβγ\n".to_string());
    storage.add_file(PathId(7), file);
    storage
}

#[test]
fn storage_resolves_only_added_files() {
    let mut storage = storage_with_file();
    assert!(storage.resolve_file(PathId(7)).is_some());
    assert!(storage.resolve_file(PathId(8)).is_none());
    let other = InMemoryFile::new_from_source("other.sr".to_string(), "x".to_string());
    storage.add_file_if_not_exists(PathId(7), other);
    assert_eq!(storage.resolve_file(PathId(7)).unwrap().path, "test.sr");
    let other = InMemoryFile::new_from_source("other.sr".to_string(), "x".to_string());
    storage.add_file_if_not_exists(PathId(8), other);
    assert_eq!(storage.resolve_file(PathId(8)).unwrap().source, "x");
}

#[test]
fn storage_locates_lines_and_columns() {
    let storage = storage_with_file();
    assert_eq!(storage.name(PathId(7)).unwrap(), "test.sr");
    assert_eq!(storage.source(PathId(7)).unwrap(), "ab\nαβγ\n");
    assert!(matches!(storage.name(PathId(8)), Err(Error::FileMissing)));
    assert_eq!(storage.line_index(PathId(7), ByteOffset(4)).unwrap(), 1);
    assert_eq!(storage.line_number(PathId(7), ByteOffset(0)).unwrap(), 1);
    let line = storage.line_location(PathId(7), 1).unwrap();
    assert_eq!(line, Location { filepath: PathId(7), start: ByteOffset(3), end: ByteOffset(10) });
    // The third character of the second line starts at byte 7.
    assert_eq!(storage.column_number(PathId(7), 1, ByteOffset(7)).unwrap(), 3);
    let location = storage.location(PathId(7), ByteOffset(7)).unwrap();
    assert_eq!(location.line_number, 2);
    assert_eq!(location.column_number, 3);
    assert!(matches!(storage.line_location(PathId(7), 3), Err(Error::LineTooLarge { given: 4, max: 2 })));
    assert!(matches!(storage.line_location(PathId(7), 5), Err(Error::LineTooLarge { given: 5, max: 2 })));
    assert!(matches!(storage.location(PathId(9), ByteOffset(0)), Err(Error::FileMissing)));
}

#[test]
fn thir_scope_resolves_through_parents() {
    let location = Location { filepath: PathId(1), start: ByteOffset(0), end: ByteOffset(1) };
    let mut parent = GenericParameterScope::new(None);
    parent.add_generic_parameter(IdentifierId(1), thir::GenericParameterData::new(location, None));
    let parent = Arc::new(parent);
    let mut child = GenericParameterScope::new(Some(parent.clone()));
    child.add_generic_parameter(IdentifierId(2), thir::GenericParameterData::new(location, Some(Type::Unit)));
    assert!(child.contains(IdentifierId(1)));
    assert!(child.contains(IdentifierId(2)));
    assert!(!parent.contains(IdentifierId(2)));
    assert!(!child.contains(IdentifierId(3)));
    assert_eq!(child.resolve(IdentifierId(2)).unwrap().default_value, Some(Type::Unit));
    assert_eq!(child.resolve(IdentifierId(1)).unwrap().default_value, None);
    assert!(child.resolve(IdentifierId(3)).is_none());
}
