use stellar::interner::builtin_identifiers::{BIG_SELF, INT8, STD, UINT8};
use stellar::interner::{IdentifierId, IdentifierInterner, PathId, PathInterner, DUMMY_IDENTIFIER_ID, DUMMY_PATH_ID};

#[test]
fn builtin_identifiers_are_interned() {
    let interner = IdentifierInterner::new();
    assert_eq!(interner.len(), 20);
    assert_eq!(interner.resolve_or_none(IdentifierId(UINT8)), Some("uint8"));
    assert_eq!(interner.resolve(IdentifierId(INT8)), "int8");
    assert_eq!(interner.resolve(IdentifierId(BIG_SELF)), "Self");
    assert_eq!(interner.resolve(IdentifierId(STD)), "std");
}

#[test]
fn resolve_or_none_examples() {
    let mut interner = IdentifierInterner::new();
    let hello = interner.get_or_intern("hello");
    assert_eq!(interner.resolve_or_none(hello), Some("hello"));
    assert_eq!(interner.resolve_or_none(IdentifierId(3123123123)), None);
    assert_eq!(interner.resolve_or_none(IdentifierId(DUMMY_IDENTIFIER_ID)), None);
}

#[test]
fn interning_twice_gives_the_same_id() {
    let mut interner = IdentifierInterner::new();
    let a = interner.get_or_intern("test");
    let b = interner.get_or_intern("halo");
    let c = interner.get_or_intern("test");
    assert_eq!(a, c);
    assert_ne!(a, b);
    assert_eq!(a, IdentifierId(21));
    assert_eq!(b, IdentifierId(22));
    assert_eq!(interner.len(), 22);
    assert_eq!(interner.get_or_intern("int8"), IdentifierId(INT8));
    assert_eq!(interner.len(), 22);
}

#[test]
fn paths_round_trip() {
    let mut paths = PathInterner::new();
    let a = paths.get_or_intern("a/b.sr");
    let b = paths.get_or_intern("a/c.sr");
    assert_eq!(a, PathId(1));
    assert_eq!(b, PathId(2));
    assert_eq!(paths.get_or_intern("a/b.sr"), a);
    assert_eq!(paths.resolve(a), "a/b.sr");
    assert_eq!(paths.resolve_or_none(PathId(DUMMY_PATH_ID)), None);
    assert_eq!(paths.resolve_or_none(PathId(3)), None);
}

#[test]
fn empty_and_unicode_strings() {
    let mut interner = IdentifierInterner::new();
    let empty = interner.get_or_intern("");
    let cyrillic = interner.get_or_intern("тест");
    assert_eq!(interner.resolve(empty), "");
    assert_eq!(interner.resolve(cyrillic), "тест");
}
