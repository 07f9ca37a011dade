use stellar::ast::{IdentifierAST, ModuleItemKind, Precedence, Visibility};
use stellar::database::{self, list_of, PackageId, Path, SignatureId, Type, TypeKind};
use stellar::diagnostic::{Diagnostic, Label, LabelStyle, Severity};
use stellar::diagnostics::{BuildDiagnostic, Diagnostics};
use stellar::files::{column_index, Error};
use stellar::hir;
use stellar::interner::builtin_identifiers::{LIST, STRING, UINT8};
use stellar::interner::{IdentifierId, PathId};
use stellar::likely::{likely, unlikely};
use stellar::location::{ByteOffset, Location};
use stellar::parser::{ExpressionParser, UnnecessaryVisibilityQualifierContext, UnnecessaryVisibilityQualifierDiagnostic};
use stellar::term::{ColorArg, ColorChoice};

fn loc(start: usize, end: usize) -> Location {
    Location { filepath: PathId(3), start: ByteOffset(start), end: ByteOffset(end) }
}

#[test]
fn error_messages() {
    assert_eq!(Error::FileMissing.to_string(), "file missing");
    assert_eq!(Error::IndexTooLarge { given: 10, max: 3 }.to_string(), "invalid index 10, maximum index is 3");
    assert_eq!(Error::LineTooLarge { given: 7, max: 2 }.to_string(), "invalid line 7, maximum line is 2");
    assert_eq!(Error::ColumnTooLarge { given: 120, max: 80 }.to_string(), "invalid column 120, maximum column 80");
    assert_eq!(Error::InvalidCharBoundary { given: 1 }.to_string(), "index is not a code point boundary");
}

#[test]
fn color_arguments() {
    assert_eq!(ColorArg::from_text("auto"), Ok(ColorArg(ColorChoice::Auto)));
    assert_eq!(ColorArg::from_text("ALWAYS"), Ok(ColorArg(ColorChoice::Always)));
    assert_eq!(ColorArg::from_text("Ansi"), Ok(ColorArg(ColorChoice::AlwaysAnsi)));
    assert_eq!(ColorArg::from_text("never"), Ok(ColorArg(ColorChoice::Never)));
    assert_eq!(ColorArg::from_text("sometimes"), Err("valid values: auto, always, ansi, never"));
}

#[test]
fn branch_hints_keep_the_condition() {
    assert!(likely(true));
    assert!(!likely(false));
    assert!(unlikely(true));
    assert!(!unlikely(false));
}

#[test]
fn column_of_byte() {
    let source = "ab\ncd";
    assert_eq!(column_index(source, loc(3, 5), ByteOffset(4)), 1);
    assert_eq!(column_index(source, loc(0, 3), ByteOffset(0)), 0);
}

#[test]
fn diagnostics_status() {
    let mut diagnostics = Diagnostics::new();
    assert!(diagnostics.is_ok());
    diagnostics.add_diagnostic(Diagnostic::warning().with_label(Label::primary(loc(0, 1))));
    assert!(diagnostics.is_ok());
    diagnostics.add_diagnostic(Diagnostic::error().with_label(Label::secondary(loc(1, 2))));
    assert!(diagnostics.is_fatal());
    assert_eq!(diagnostics.files_involved, vec![PathId(3)]);
}

#[test]
fn visibility_qualifier_diagnostic() {
    let d = UnnecessaryVisibilityQualifierDiagnostic {
        location: loc(0, 3),
        context: UnnecessaryVisibilityQualifierContext::InterfaceMethod { name_location: loc(8, 9) },
    }
    .build();
    assert_eq!(d.severity, Severity::Error);
    assert_eq!(d.code.as_deref(), Some("E004"));
    assert_eq!(d.labels.len(), 2);
    assert_eq!(d.labels[1].style, LabelStyle::Secondary);
    assert_eq!(d.notes.len(), 2);
    let import = UnnecessaryVisibilityQualifierDiagnostic {
        location: loc(0, 3),
        context: UnnecessaryVisibilityQualifierContext::Import,
    }
    .build();
    assert_eq!(import.labels.len(), 1);
    assert_eq!(import.notes, vec!["note: using `pub` will not make the import public.".to_owned()]);
}

#[test]
fn expression_parser_settings() {
    let parser = ExpressionParser::new();
    assert_eq!(parser, ExpressionParser::default());
    let parser = parser.with_precedence(Precedence::Sum).prohibit_struct_expressions().in_statements_block();
    assert_ne!(parser, ExpressionParser::new());
    assert_eq!(parser.prohibit_struct_expressions_if(false).with_precedence(Precedence::Lowest).prohibit_struct_expressions(), parser.with_precedence(Precedence::Lowest));
}

#[test]
fn primitive_and_list_types() {
    let t = Type::new_primitive(IdentifierId(UINT8));
    assert_eq!(t.kind(), TypeKind::Constructor);
    assert_eq!(t.kind().as_str(), "type constructor");
    assert_eq!(database::uint8(), t);
    match database::string() {
        Type::Constructor(c) => assert_eq!(c.symbol.segments(), &[IdentifierId(STRING)]),
        _ => panic!("expected a type constructor"),
    }
    match list_of(Type::Unit) {
        Type::Constructor(c) => {
            assert_eq!(c.symbol.segments(), &[IdentifierId(LIST)]);
            assert_eq!(c.arguments, vec![Type::Unit]);
        }
        _ => panic!("expected a type constructor"),
    }
    assert_eq!(Type::Unknown.kind().as_str(), "unknown type");
}

#[test]
fn database_paths_and_ids() {
    let path = Path::new(vec![IdentifierId(21)]).child(IdentifierId(22)).concat(Path::from_identifier(IdentifierId(23)));
    assert_eq!(path.segments(), &[IdentifierId(21), IdentifierId(22), IdentifierId(23)]);
    let id = SignatureId::new(PackageId(2), 5);
    assert_eq!(id.package(), PackageId(2));
    assert_eq!(id.idx(), 5);
    let data = database::FunctionData::new(id);
    assert_eq!(data.signature, id);
    let alias = database::TypeAliasData::new(id);
    assert_eq!(alias.ty, Type::Unknown);
}

#[test]
fn hir_module_item_accessors() {
    let name = IdentifierAST { location: loc(4, 7), id: IdentifierId(30) };
    let item = hir::ModuleItem::TypeAlias(hir::TypeAlias {
        visibility: Visibility::Public(loc(0, 3)),
        name,
        generic_parameters: vec![],
        value: hir::Type::Underscore { location: loc(10, 11) },
        docstring: None,
    });
    assert_eq!(item.location(), loc(4, 7));
    assert_eq!(item.name(), Some(IdentifierId(30)));
    assert_eq!(item.name_or_panic(), IdentifierId(30));
    assert_eq!(item.kind(), ModuleItemKind::TypeAlias);
    assert_eq!(item.visibility(), Visibility::Public(loc(0, 3)));
    assert!(item.type_alias().is_some());
    assert_eq!(item.type_alias_or_panic().name, name);
    let import = hir::ModuleItem::Import {
        location: loc(0, 12),
        path: stellar::ast::ImportPath {
            path: stellar::ast::Path { location: loc(7, 11), identifiers: vec![name] },
            as_: None,
        },
    };
    assert_eq!(import.name(), None);
    assert_eq!(import.visibility(), Visibility::Private);
    assert_eq!(import.location(), loc(0, 12));
    assert!(import.type_alias().is_none());
}
