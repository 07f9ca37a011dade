use stellar::ast::{self, IdentifierAST, Literal};
use stellar::diagnostic::{LabelStyle, Severity};
use stellar::diagnostics::Diagnostics;
use stellar::hir;
use stellar::interner::{IdentifierId, PathId};
use stellar::location::{ByteOffset, Location};
use stellar::lowering::{LowerExt, LoweringContext, LoweringWarning};

fn loc(start: usize, end: usize) -> Location {
    Location { filepath: PathId(1), start: ByteOffset(start), end: ByteOffset(end) }
}

fn ident(start: usize, end: usize, id: usize) -> ast::Expression {
    ast::Expression::Identifier(IdentifierAST { location: loc(start, end), id: IdentifierId(id) })
}

fn module_with_body(statements: Vec<ast::Statement>) -> ast::Module {
    ast::Module {
        filepath: PathId(1),
        docstring: None,
        items: vec![ast::ModuleItem::Function(ast::Function {
            signature: ast::FunctionSignature {
                visibility: ast::Visibility::Private,
                name: IdentifierAST { location: loc(4, 8), id: IdentifierId(21) },
                generic_parameters: vec![],
                parameters: vec![],
                return_type: None,
                where_predicates: vec![],
                docstring: None,
            },
            body: Some(statements),
        })],
    }
}

fn body_of(module: &hir::Module) -> &Vec<hir::Statement> {
    match &module.items[0] {
        hir::ModuleItem::Function(f) => f.body.as_ref().unwrap(),
        _ => panic!("expected a function"),
    }
}

#[test]
fn loop_becomes_while_true() {
    let module = module_with_body(vec![ast::Statement::Expression {
        expression: ast::Expression::Loop { location: loc(17, 21), statements_block: vec![] },
        has_semicolon: false,
    }]);
    let mut diagnostics = Diagnostics::new();
    let lowered = module.lower(PathId(1), &mut diagnostics);
    assert_eq!(lowered.filepath, PathId(1));
    match &body_of(&lowered)[0] {
        hir::Statement::Expression { expression: hir::Expression::While { location, condition, statements_block }, has_semicolon } => {
            assert_eq!(*location, loc(17, 21));
            assert_eq!(**condition, hir::Expression::Literal(Literal::Boolean { value: true, location: loc(17, 21) }));
            assert!(statements_block.is_empty());
            assert!(!has_semicolon);
        }
        other => panic!("unexpected {:?}", other),
    }
    assert!(diagnostics.diagnostics.is_empty());
}

#[test]
fn double_parentheses_are_removed_and_reported() {
    let inner = ident(2, 3, 22);
    let expression = ast::Expression::Parenthesized {
        location: loc(0, 5),
        inner: Box::new(ast::Expression::Parenthesized { location: loc(1, 4), inner: Box::new(inner) }),
    };
    let module = module_with_body(vec![ast::Statement::Return { expression }]);
    let mut diagnostics = Diagnostics::new();
    let lowered = module.lower(PathId(1), &mut diagnostics);
    match &body_of(&lowered)[0] {
        hir::Statement::Return { expression } => {
            assert_eq!(*expression, hir::Expression::Identifier(IdentifierAST { location: loc(2, 3), id: IdentifierId(22) }));
        }
        other => panic!("unexpected {:?}", other),
    }
    assert_eq!(diagnostics.diagnostics.len(), 1);
    let warning = &diagnostics.diagnostics[0];
    assert_eq!(warning.severity, Severity::Warning);
    assert_eq!(warning.code.as_deref(), Some("W001"));
    assert_eq!(warning.message, "unnecessary parenthesized expression");
    assert_eq!(warning.labels[0].style, LabelStyle::Primary);
    assert_eq!(warning.labels[0].location, loc(1, 2));
    assert_eq!(warning.labels[1].location, loc(3, 4));
    assert_eq!(warning.labels[1].message, "consider removing these parentheses");
    assert!(diagnostics.files_involved.contains(&PathId(1)));
}

#[test]
fn parenthesized_while_condition_and_grouped_pattern() {
    let condition = ast::Expression::Parenthesized { location: loc(6, 12), inner: Box::new(ident(7, 11, 22)) };
    let while_ = ast::Expression::While { location: loc(0, 15), condition: Box::new(condition), statements_block: vec![] };
    let pattern = ast::Pattern::Grouped {
        location: loc(20, 23),
        inner: Box::new(ast::Pattern::Wildcard { location: loc(21, 22) }),
    };
    let module = module_with_body(vec![
        ast::Statement::Expression { expression: while_, has_semicolon: false },
        ast::Statement::Let { pattern, value: ident(26, 27, 23), ty: None },
    ]);
    let mut warnings = Vec::new();
    let context = LoweringContext::new(PathId(1));
    let mut items = module.items;
    let lowered = context.lower_module_item(items.remove(0), &mut warnings);
    assert_eq!(
        warnings,
        vec![
            LoweringWarning::UnnecessaryParenthesizedExpression(loc(6, 12)),
            LoweringWarning::UnnecessaryGroupedPattern(loc(20, 23)),
        ]
    );
    match lowered {
        hir::ModuleItem::Function(f) => match &f.body.unwrap()[1] {
            hir::Statement::Let { pattern, .. } => {
                assert_eq!(*pattern, hir::Pattern::Wildcard { location: loc(21, 22) })
            }
            other => panic!("unexpected {:?}", other),
        },
        _ => panic!("expected a function"),
    }
}

#[test]
fn function_type_gets_unit_return_type() {
    let alias = ast::ModuleItem::TypeAlias(ast::TypeAlias {
        visibility: ast::Visibility::Private,
        name: IdentifierAST { location: loc(5, 6), id: IdentifierId(21) },
        generic_parameters: vec![],
        value: ast::Type::Parenthesized {
            location: loc(9, 20),
            inner: Box::new(ast::Type::Function { location: loc(10, 19), parameter_types: vec![], return_type: None }),
        },
        docstring: None,
    });
    let mut warnings = Vec::new();
    let lowered = LoweringContext::new(PathId(1)).lower_module_item(alias, &mut warnings);
    assert!(warnings.is_empty());
    match lowered {
        hir::ModuleItem::TypeAlias(t) => match t.value {
            hir::Type::Function { location, parameter_types, return_type } => {
                assert_eq!(location, loc(10, 19));
                assert!(parameter_types.is_empty());
                assert_eq!(
                    *return_type.unwrap(),
                    hir::Type::Tuple {
                        location: Location { filepath: PathId(0), start: ByteOffset(0), end: ByteOffset(0) },
                        element_types: vec![]
                    }
                );
            }
            other => panic!("unexpected {:?}", other),
        },
        _ => panic!("expected a type alias"),
    }
}

#[test]
fn interface_inheritance_becomes_where_predicate() {
    let name = IdentifierAST { location: loc(10, 11), id: IdentifierId(21) };
    let bound = ast::TypeConstructor {
        location: loc(13, 14),
        path: ast::Path { location: loc(13, 14), identifiers: vec![IdentifierAST { location: loc(13, 14), id: IdentifierId(22) }] },
        arguments: vec![],
    };
    let interface = ast::ModuleItem::Interface(ast::Interface {
        visibility: ast::Visibility::Private,
        name,
        generic_parameters: vec![],
        where_predicates: vec![],
        methods: vec![],
        inherits: Some(vec![bound]),
        docstring: None,
    });
    let mut warnings = Vec::new();
    let lowered = LoweringContext::new(PathId(1)).lower_module_item(interface, &mut warnings);
    match lowered {
        hir::ModuleItem::Interface(i) => {
            assert_eq!(i.where_predicates.len(), 1);
            match &i.where_predicates[0].ty {
                hir::Type::Constructor(c) => {
                    assert_eq!(c.path.identifiers[0].id, IdentifierId(stellar::interner::builtin_identifiers::BIG_SELF));
                    assert_eq!(c.location, loc(10, 11));
                }
                other => panic!("unexpected {:?}", other),
            }
            assert_eq!(i.where_predicates[0].bounds[0].location, loc(13, 14));
        }
        _ => panic!("expected an interface"),
    }
}
