use stellar::ast::{
    Expression, Literal, ModuleItem, Pattern, RawBinaryOperator, RawPostfixOperator,
    RawPrefixOperator, Statement, Type, Visibility,
};
use stellar::database::{Config, ModuleData, PackageData, Path, State};
use stellar::diagnostics::Diagnostics;
use stellar::interner::{IdentifierId, IdentifierInterner, PathId, DUMMY_PATH_ID};
use stellar::lexer::has_no_stuck_chars;
use stellar::location::ByteOffset;
use stellar::parser::{
    parse_expression, parse_item, parse_module, parse_pattern, parse_statement, parse_type,
    ExpressionParser, ParsedModule,
};

fn expression(source: &str) -> (Option<Expression>, Diagnostics) {
    let mut diagnostics = Diagnostics::new();
    let mut identifiers = IdentifierInterner::new();
    let r = parse_expression(PathId(DUMMY_PATH_ID), source, &mut diagnostics, &mut identifiers);
    (r, diagnostics)
}

fn parses(source: &str) -> bool {
    let (r, diagnostics) = expression(source);
    r.is_some() && diagnostics.diagnostics.is_empty()
}

#[test]
fn int_literal() {
    assert!(parses("1"));
}

#[test]
fn float_literal() {
    assert!(parses("1.2"));
}

#[test]
fn string_literal() {
    assert!(parses("\"string\""));
}

#[test]
fn bool_literal() {
    assert!(parses("true"));
}

#[test]
fn identifier_expression() {
    assert!(parses("foo"));
}

#[test]
fn call() {
    assert!(parses("f()"));
}

#[test]
fn nested_call() {
    assert!(parses("f()()"));
}

#[test]
fn method_call() {
    assert!(parses("a.f()"));
}

#[test]
fn integer_method_call() {
    assert!(parses("1.to_string()"));
}

#[test]
fn float_method_call() {
    assert!(parses("1.2.to_string()"));
}

#[test]
fn binary1() {
    assert!(parses("1 + 2"));
}

#[test]
fn binary2() {
    assert!(parses("(f()? + 2) / 3.2 + !a()"));
}

#[test]
fn struct_() {
    assert!(parses("Person { name: \"John\", age }"));
}

#[test]
fn tuple() {
    assert!(parses("(1, (1, \"hello\"), true)"));
}

#[test]
fn list() {
    assert!(parses("[1, 2, 3]"));
}

#[test]
fn postfix() {
    assert!(parses("checked_div(1, 0)?"));
}

#[test]
fn prefix() {
    assert!(parses("!++a"));
}

#[test]
fn double_plus_hell() {
    assert!(parses("++a++"));
}

#[test]
fn if_else() {
    assert!(parses("if true { 1 } else if f() { 3 } else { 2 }"));
}

#[test]
fn loop_() {
    assert!(parses("loop {}"));
}

#[test]
fn while_() {
    assert!(parses("while true { }"));
}

#[test]
fn underscore() {
    assert!(parses("_"));
}

#[test]
fn match_() {
    assert!(parses("match true { true -> 1, _ -> 2 }"));
}

#[test]
fn lambda() {
    assert!(parses("|a, b: usize| a + b"));
}

#[test]
fn block() {
    assert!(parses("{ a++; a }"));
}

#[test]
fn product_binds_tighter_than_sum() {
    let (r, _) = expression("1 + 2 * 3");
    match r {
        Some(Expression::Binary { operator, right, location, .. }) => {
            assert_eq!(operator.raw, RawBinaryOperator::Plus);
            assert_eq!(location.start, ByteOffset(0));
            assert_eq!(location.end, ByteOffset(9));
            match *right {
                Expression::Binary { operator, .. } => {
                    assert_eq!(operator.raw, RawBinaryOperator::Asterisk)
                }
                _ => panic!("the right operand is not a product"),
            }
        }
        _ => panic!("not a sum"),
    }
}

#[test]
fn sums_group_to_the_left() {
    let (r, _) = expression("1 - 2 - 3");
    match r {
        Some(Expression::Binary { operator, left, right, .. }) => {
            assert_eq!(operator.raw, RawBinaryOperator::Minus);
            assert!(matches!(*left, Expression::Binary { .. }));
            assert!(matches!(*right, Expression::Literal(Literal::Integer { value: 3, .. })));
        }
        _ => panic!("not a difference"),
    }
}

#[test]
fn prefix_binds_tighter_than_binary() {
    let (r, _) = expression("-a + b");
    match r {
        Some(Expression::Binary { left, .. }) => match *left {
            Expression::Prefix { operator, .. } => assert_eq!(operator.raw, RawPrefixOperator::Minus),
            _ => panic!("the left operand is not a negation"),
        },
        _ => panic!("not a sum"),
    }
}

#[test]
fn postfix_question_mark() {
    let (r, _) = expression("f()?");
    match r {
        Some(Expression::Postfix { operator, inner, location }) => {
            assert_eq!(operator.raw, RawPostfixOperator::QuestionMark);
            assert!(matches!(*inner, Expression::Call { .. }));
            assert_eq!(location.start, ByteOffset(0));
            assert_eq!(location.end, ByteOffset(4));
        }
        _ => panic!("not a postfix expression"),
    }
}

#[test]
fn one_parenthesized_element_with_comma_is_a_tuple() {
    let (r, _) = expression("(1,)");
    match r {
        Some(Expression::Tuple { elements, .. }) => assert_eq!(elements.len(), 1),
        _ => panic!("not a tuple"),
    }
    let (r, _) = expression("(1)");
    assert!(matches!(r, Some(Expression::Parenthesized { .. })));
    let (r, _) = expression("()");
    match r {
        Some(Expression::Tuple { elements, .. }) => assert!(elements.is_empty()),
        _ => panic!("not an empty tuple"),
    }
}

#[test]
fn if_without_struct_expression_in_condition() {
    let (r, diagnostics) = expression("if a { b } else { c }");
    assert!(diagnostics.diagnostics.is_empty());
    match r {
        Some(Expression::If { if_blocks, else_, .. }) => {
            assert_eq!(if_blocks.len(), 1);
            assert!(matches!(if_blocks[0].0, Expression::Identifier(_)));
            assert!(else_.is_some());
        }
        _ => panic!("not an if expression"),
    }
}

#[test]
fn struct_expression_where_allowed() {
    let (r, _) = expression("A { b: 1 }");
    match r {
        Some(Expression::Struct { fields, .. }) => {
            assert_eq!(fields.len(), 1);
            assert!(fields[0].value.is_some());
        }
        _ => panic!("not a struct expression"),
    }
}

#[test]
fn loop_is_located_at_keyword() {
    let (r, _) = expression("loop { }");
    match r {
        Some(Expression::Loop { location, statements_block }) => {
            assert_eq!(location.start, ByteOffset(0));
            assert_eq!(location.end, ByteOffset(4));
            assert!(statements_block.is_empty());
        }
        _ => panic!("not a loop"),
    }
}

#[test]
fn expression_with_block_ends_expression() {
    let (r, _) = expression("while a {} + 1");
    assert!(matches!(r, Some(Expression::While { .. })));
}

#[test]
fn missing_expression_is_reported() {
    let (r, diagnostics) = expression(")");
    assert!(r.is_none());
    assert_eq!(diagnostics.diagnostics.len(), 1);
    let d = &diagnostics.diagnostics[0];
    assert_eq!(d.code, Some("E001".to_string()));
    assert_eq!(d.message, "expected expression, found `)`".to_string());
}

#[test]
fn list_without_comma_is_reported() {
    let (r, diagnostics) = expression("[1 2]");
    assert!(r.is_none());
    assert_eq!(diagnostics.diagnostics.len(), 1);
    assert_eq!(
        diagnostics.diagnostics[0].message,
        "expected `]` or `,`, found integer literal".to_string()
    );
}

#[test]
fn integer_overflow_is_reported() {
    let (r, diagnostics) = expression("99999999999999999999999");
    assert!(r.is_none());
    assert_eq!(diagnostics.diagnostics.len(), 1);
    assert_eq!(diagnostics.diagnostics[0].code, Some("E002".to_string()));
}

#[test]
fn expression_parser_builders() {
    let parser = ExpressionParser::new();
    assert!(!parser.is_in_block());
    assert!(!parser.struct_expressions_prohibited());
    let parser = parser.prohibit_struct_expressions().in_statements_block();
    assert!(parser.is_in_block());
    assert!(parser.struct_expressions_prohibited());
    assert!(!parser.prohibit_struct_expressions_if(false).struct_expressions_prohibited());
}

fn statement(source: &str) -> (Option<Statement>, Diagnostics) {
    let mut diagnostics = Diagnostics::new();
    let mut identifiers = IdentifierInterner::new();
    let r = parse_statement(PathId(DUMMY_PATH_ID), source, &mut diagnostics, &mut identifiers);
    (r, diagnostics)
}

#[test]
fn statements_of_each_kind() {
    assert!(matches!(statement("return 1;").0, Some(Statement::Return { .. })));
    assert!(matches!(statement("defer f();").0, Some(Statement::Defer { .. })));
    assert!(matches!(statement("let a: int32 = 1;").0, Some(Statement::Let { ty: Some(_), .. })));
    assert!(matches!(statement("let (a, b) = c;").0, Some(Statement::Let { ty: None, .. })));
    match statement("continue;").0 {
        Some(Statement::Continue { location }) => {
            assert_eq!(location.start, ByteOffset(0));
            assert_eq!(location.end, ByteOffset(8));
        }
        _ => panic!("not a continue statement"),
    }
    assert!(matches!(statement("break;").0, Some(Statement::Break { .. })));
    assert!(matches!(
        statement("a = 1;").0,
        Some(Statement::Expression { has_semicolon: true, .. })
    ));
    assert!(matches!(
        statement("a").0,
        Some(Statement::Expression { has_semicolon: false, .. })
    ));
}

#[test]
fn missing_semicolon_is_reported() {
    let (r, diagnostics) = statement("return 1");
    assert!(r.is_none());
    assert_eq!(diagnostics.diagnostics.len(), 1);
    assert_eq!(
        diagnostics.diagnostics[0].message,
        "expected `;`, found end of file".to_string()
    );
}

#[test]
fn unterminated_block_is_reported() {
    let (r, diagnostics) = expression("{ a; ");
    assert!(r.is_none());
    assert_eq!(diagnostics.diagnostics.len(), 1);
    assert_eq!(
        diagnostics.diagnostics[0].message,
        "expected `}`, found end of file".to_string()
    );
}

#[test]
fn statement_expected_in_block() {
    let (r, diagnostics) = expression("{ ) }");
    assert!(r.is_none());
    assert_eq!(
        diagnostics.diagnostics[0].message,
        "expected statement, `;`, or `}`, found `)`".to_string()
    );
}

fn ty(source: &str) -> Option<Type> {
    let mut diagnostics = Diagnostics::new();
    let mut identifiers = IdentifierInterner::new();
    parse_type(PathId(DUMMY_PATH_ID), source, &mut diagnostics, &mut identifiers)
}

#[test]
fn types_of_each_kind() {
    assert!(matches!(ty("List[int32]"), Some(Type::Constructor(_))));
    assert!(matches!(ty("(int32, String)"), Some(Type::Tuple { .. })));
    assert!(matches!(ty("(int32)"), Some(Type::Parenthesized { .. })));
    assert!(matches!(ty("fun(int32): bool"), Some(Type::Function { .. })));
    assert!(matches!(ty("dyn A + B"), Some(Type::InterfaceObject { .. })));
    assert!(matches!(ty("_"), Some(Type::Underscore { .. })));
    assert!(ty("1").is_none());
}

fn pattern(source: &str) -> Option<Pattern> {
    let mut diagnostics = Diagnostics::new();
    let mut identifiers = IdentifierInterner::new();
    parse_pattern(PathId(DUMMY_PATH_ID), source, &mut diagnostics, &mut identifiers)
}

#[test]
fn patterns_of_each_kind() {
    assert!(matches!(pattern("Some(a)"), Some(Pattern::TupleLike { .. })));
    assert!(matches!(pattern("A { b, .. }"), Some(Pattern::Struct { .. })));
    assert!(matches!(pattern("[a, ..]"), Some(Pattern::List { .. })));
    assert!(matches!(pattern("1 | 2"), Some(Pattern::Or { .. })));
    assert!(matches!(pattern("_"), Some(Pattern::Wildcard { .. })));
    assert!(pattern("+").is_none());
}

fn item(source: &str) -> (Option<ModuleItem>, Diagnostics) {
    let mut diagnostics = Diagnostics::new();
    let mut identifiers = IdentifierInterner::new();
    let r = parse_item(PathId(DUMMY_PATH_ID), source, &mut diagnostics, &mut identifiers);
    (r, diagnostics)
}

#[test]
fn function_item() {
    let (r, diagnostics) = item("pub fun add[T: Add](a: T, b: T): T where T: Copy { a + b }");
    assert!(diagnostics.diagnostics.is_empty());
    match r {
        Some(ModuleItem::Function(function)) => {
            assert!(matches!(function.signature.visibility, Visibility::Public(_)));
            assert_eq!(function.signature.generic_parameters.len(), 1);
            assert_eq!(function.signature.parameters.len(), 2);
            assert!(function.signature.return_type.is_some());
            assert_eq!(function.signature.where_predicates.len(), 1);
            assert!(function.body.is_some());
        }
        _ => panic!("not a function"),
    }
}

#[test]
fn struct_items() {
    match item("struct A[T] { a: T, b: int32, fun new(): A { } }").0 {
        Some(ModuleItem::Struct(s)) => {
            assert_eq!(s.fields.len(), 2);
            assert_eq!(s.methods.len(), 1);
        }
        _ => panic!("not a struct"),
    }
    match item("struct B(int32, pub String);").0 {
        Some(ModuleItem::TupleLikeStruct(s)) => assert_eq!(s.fields.len(), 2),
        _ => panic!("not a tuple-like struct"),
    }
}

#[test]
fn enum_item() {
    match item("enum Option[T] { None, Some(T), Pair { a: T }, fun is_none(self): bool { true } }").0 {
        Some(ModuleItem::Enum(e)) => {
            assert_eq!(e.items.len(), 3);
            assert_eq!(e.methods.len(), 1);
        }
        _ => panic!("not an enum"),
    }
}

#[test]
fn interface_method_visibility_is_reported() {
    let (r, diagnostics) = item("interface A: B { pub fun f(self); }");
    match r {
        Some(ModuleItem::Interface(interface)) => {
            assert_eq!(interface.methods.len(), 1);
            assert!(interface.inherits.is_some());
        }
        _ => panic!("not an interface"),
    }
    assert_eq!(diagnostics.diagnostics.len(), 1);
    assert_eq!(diagnostics.diagnostics[0].code, Some("E004".to_string()));
}

#[test]
fn import_visibility_is_reported() {
    let (r, diagnostics) = item("pub import std.io as inout;");
    assert!(matches!(r, Some(ModuleItem::Import { .. })));
    assert_eq!(diagnostics.diagnostics.len(), 1);
    assert_eq!(diagnostics.diagnostics[0].notes.len(), 1);
}

#[test]
fn type_alias_item() {
    assert!(matches!(item("type A = List[int32];").0, Some(ModuleItem::TypeAlias(_))));
}

#[test]
fn unknown_item_is_reported() {
    let (r, diagnostics) = item("1");
    assert!(r.is_none());
    assert_eq!(
        diagnostics.diagnostics[0].message,
        "expected module item, found integer literal".to_string()
    );
}

#[test]
fn module_is_parsed_and_added() {
    let mut state = State::new().with_config(Config::new());
    let package = PackageData::allocate(state.db_mut(), IdentifierId(1), PathId(1), None);
    let mut identifiers = IdentifierInterner::new();
    let source = "//! Module.\nimport std;\nfun main() {}\n1\nstruct A {}\n";
    let parsed = parse_module(
        &mut state,
        IdentifierId(2),
        package,
        Path::new(vec![IdentifierId(1), IdentifierId(2)]),
        PathId(3),
        source,
        &mut identifiers,
    )
    .unwrap();
    assert_eq!(parsed.ast().filepath, PathId(3));
    assert_eq!(parsed.ast().items.len(), 3);
    assert!(parsed.ast().docstring.is_some());
    assert_eq!(state.diagnostics().diagnostics.len(), 1);
    let module = parsed.module();
    let data: &ModuleData = state.db().resolve_module_or_none(module).unwrap();
    assert_eq!(data.name, IdentifierId(2));
    assert_eq!(data.filepath, PathId(3));
}

#[test]
fn stuck_characters_are_found() {
    assert!(has_no_stuck_chars("fun main() {}"));
    assert!(has_no_stuck_chars(""));
}

#[test]
fn lexing_error_is_reported_before_the_unexpected_token() {
    let (r, diagnostics) = expression("\"abc");
    assert!(r.is_none());
    assert_eq!(diagnostics.diagnostics.len(), 2);
    assert_eq!(diagnostics.diagnostics[0].code, Some("E000".to_string()));
    assert_eq!(diagnostics.diagnostics[1].code, Some("E001".to_string()));
}

#[test]
fn struct_expression_not_allowed_in_condition() {
    let (r, diagnostics) = expression("while a { }");
    assert!(diagnostics.diagnostics.is_empty());
    match r {
        Some(Expression::While { condition, .. }) => {
            assert!(matches!(*condition, Expression::Identifier(_)))
        }
        _ => panic!("not a while expression"),
    }
}

fn item_parses(source: &str) -> bool {
    let (r, diagnostics) = item(source);
    r.is_some() && diagnostics.diagnostics.is_empty()
}

fn statement_parses(source: &str) -> bool {
    let (r, diagnostics) = statement(source);
    r.is_some() && diagnostics.diagnostics.is_empty()
}

#[test]
fn hello_world_program() {
    assert!(item_parses("pub fun main() {\n    println(\"hello world\");\n}"));
}

#[test]
fn match_with_block_arms_and_no_commas() {
    assert!(parses(
        "match tuple {
    (1, ..) -> {
        println(\"First element is 1\");
    }
    (.., 'b', true) | (.., 'a', true) -> {
        println(\"Second element is 'b' or 'a', and third element is true\");
    }
    (.., false) -> {
        println(\"Third element is false\");
    }
    _ -> {
        println(\"Default case\");
    }
}"
    ));
}

#[test]
fn match_arm_without_block_needs_comma() {
    let (r, diagnostics) = expression("match a { 1 -> 2 3 -> 4 }");
    assert!(r.is_none());
    assert_eq!(
        diagnostics.diagnostics[0].message,
        "expected `}` or `,`, found integer literal".to_string()
    );
}

#[test]
fn let_destructuring_struct() {
    assert!(statement_parses("let Person {\n    name,\n    age,\n} = get_person();"));
}

#[test]
fn factorial_function() {
    assert!(item_parses(
        "fun factorial(n: uint32): uint32 {
    if n < 2 {
        1
    } else {
        factorial(n - 1) * n
    }
}"
    ));
}

#[test]
fn function_type_parameter() {
    assert!(item_parses(
        "fun do_stuff_with(a: uint32, b: uint32, fn: fun (uint32, uint32)) {\n    fn(a, b)\n}"
    ));
}

#[test]
fn result_enum_with_method() {
    assert!(item_parses(
        "enum Result[T, E] {
    Ok(T),
    Err(E)

    fun ok(self): Option[T] {
        match self {
            Self.Ok(t) -> Option.Some(t),
            _ -> Option.None,
        }
    }
}"
    ));
}

#[test]
fn error_propagation() {
    assert!(item_parses(
        "fun safe_div[T](a: T, b: T): Option[T] where T: Numeric {
    if b == 0 {
        None
    } else {
        Some(a / b)
    }
}"
    ));
    assert!(item_parses(
        "fun main() {
    let a = safe_div(1, 1)?;
    assert(a == 1);

    safe_div(1, 0)?;
}"
    ));
}

#[test]
fn dynamic_dispatch() {
    assert!(item_parses(
        "fun main() {
    let to_string = 3 as dyn ToString;

    assert(to_string.to_string() == \"3\");
}"
    ));
}

#[test]
fn tuple_like_struct_and_its_pattern() {
    assert!(item_parses("pub struct MyStringWrapper(pub String);"));
    assert!(statement_parses("let MyStringWrapper(str) = wrapper;"));
    assert!(statement_parses("println(str);"));
}

#[test]
fn string_and_character_literal_values() {
    match expression("\"a\\nb\"").0 {
        Some(Expression::Literal(Literal::String { value, location })) => {
            assert_eq!(value, "a\nb".to_string());
            assert_eq!(location.start, ByteOffset(0));
            assert_eq!(location.end, ByteOffset(6));
        }
        _ => panic!("not a string literal"),
    }
    match expression("'x'").0 {
        Some(Expression::Literal(Literal::Character { value, .. })) => assert_eq!(value, 'x'),
        _ => panic!("not a character literal"),
    }
    match expression("1_000").0 {
        Some(Expression::Literal(Literal::Integer { value, .. })) => assert_eq!(value, 1000),
        _ => panic!("not an integer literal"),
    }
}

fn parsed_module(source: &str) -> ParsedModule {
    let mut state = State::new().with_config(Config::new());
    let package = PackageData::allocate(state.db_mut(), IdentifierId(1), PathId(1), None);
    let mut identifiers = IdentifierInterner::new();
    let parsed = parse_module(
        &mut state,
        IdentifierId(2),
        package,
        Path::new(vec![IdentifierId(1), IdentifierId(2)]),
        PathId(3),
        source,
        &mut identifiers,
    )
    .unwrap();
    parsed
}

#[test]
fn leading_imports_come_first() {
    let parsed = parsed_module("import a.b;\nimport c as d;\nfun main() {}\n");
    let items = &parsed.ast().items;
    assert_eq!(items.len(), 3);
    assert!(matches!(items[0], ModuleItem::Import { .. }));
    assert!(matches!(items[1], ModuleItem::Import { .. }));
    assert!(matches!(items[2], ModuleItem::Function(_)));
    match &items[1] {
        ModuleItem::Import { path, .. } => {
            assert_eq!(path.path.identifiers.len(), 1);
            assert!(path.as_.is_some());
        }
        _ => panic!("not an import"),
    }
}

#[test]
fn import_without_semicolon_is_no_item() {
    let (r, diagnostics) = item("import a.b");
    assert!(r.is_none());
    assert!(!diagnostics.diagnostics.is_empty());
    let (r, _) = item("import a.;");
    assert!(r.is_none());
}

#[test]
fn lone_identifier_is_an_identifier_expression() {
    assert!(matches!(expression("foo").0, Some(Expression::Identifier(_))));
    assert!(matches!(expression("foo;").0, Some(Expression::Identifier(_))));
    assert!(matches!(expression("foo + 1").0, Some(Expression::Binary { .. })));
}

#[test]
fn dotted_type_is_a_constructor() {
    let mut diagnostics = Diagnostics::new();
    let mut identifiers = IdentifierInterner::new();
    match parse_type(PathId(DUMMY_PATH_ID), "a.b.c", &mut diagnostics, &mut identifiers) {
        Some(Type::Constructor(c)) => {
            assert_eq!(c.path.identifiers.len(), 3);
            assert!(c.arguments.is_empty());
        }
        _ => panic!("not a type constructor"),
    }
}

#[test]
fn struct_fields_are_kept() {
    match item("struct A { x: int, y: int }").0 {
        Some(ModuleItem::Struct(s)) => assert_eq!(s.fields.len(), 2),
        _ => panic!("not a struct"),
    }
    match item("struct A { }").0 {
        Some(ModuleItem::Struct(s)) => assert!(s.fields.is_empty()),
        _ => panic!("not a struct"),
    }
}

#[test]
fn paths_as_patterns() {
    assert!(matches!(pattern("a"), Some(Pattern::Identifier { .. })));
    assert!(matches!(pattern("a.b"), Some(Pattern::Path { .. })));
    assert!(pattern("a.").is_none());
}

#[test]
fn bare_functions_parse() {
    match item("fun f();").0 {
        Some(ModuleItem::Function(function)) => {
            assert!(function.signature.parameters.is_empty());
            assert!(function.signature.return_type.is_none());
            assert!(function.body.is_none());
        }
        _ => panic!("not a function"),
    }
    match item("fun f() {}").0 {
        Some(ModuleItem::Function(function)) => {
            assert!(function.signature.parameters.is_empty());
            assert_eq!(function.body.map(|b| b.len()), Some(0));
        }
        _ => panic!("not a function"),
    }
}

#[test]
fn identifiers_around_an_operator_give_a_binary_expression() {
    match expression("a * b").0 {
        Some(Expression::Binary { left, right, operator, .. }) => {
            assert!(matches!(*left, Expression::Identifier(_)));
            assert!(matches!(*right, Expression::Identifier(_)));
            assert_eq!(operator.raw, RawBinaryOperator::Asterisk);
        }
        _ => panic!("not a binary expression"),
    }
}

#[test]
fn identifier_statements_keep_their_semicolon() {
    match statement("x;").0 {
        Some(Statement::Expression { expression, has_semicolon }) => {
            assert!(matches!(expression, Expression::Identifier(_)));
            assert!(has_semicolon);
        }
        _ => panic!("not an expression statement"),
    }
    match statement("x").0 {
        Some(Statement::Expression { expression, has_semicolon }) => {
            assert!(matches!(expression, Expression::Identifier(_)));
            assert!(!has_semicolon);
        }
        _ => panic!("not an expression statement"),
    }
}

#[test]
fn type_alias_of_a_path() {
    match item("type A = b.C;").0 {
        Some(ModuleItem::TypeAlias(alias)) => match alias.value {
            Type::Constructor(c) => assert_eq!(c.path.identifiers.len(), 2),
            _ => panic!("not a type constructor"),
        },
        _ => panic!("not a type alias"),
    }
}

#[test]
fn empty_struct_parses() {
    match item("struct A {}").0 {
        Some(ModuleItem::Struct(s)) => {
            assert!(s.fields.is_empty());
            assert!(s.methods.is_empty());
        }
        _ => panic!("not a struct"),
    }
}

#[test]
fn function_parameters_are_kept() {
    match item("fun f(x: int32, y: a.B) {}").0 {
        Some(ModuleItem::Function(function)) => {
            assert_eq!(function.signature.parameters.len(), 2);
            assert!(function.signature.return_type.is_none());
        }
        _ => panic!("not a function"),
    }
    match item("fun g(x: int32,): int32;").0 {
        Some(ModuleItem::Function(function)) => {
            assert_eq!(function.signature.parameters.len(), 1);
            assert!(function.signature.return_type.is_some());
            assert!(function.body.is_none());
        }
        _ => panic!("not a function"),
    }
}

#[test]
fn struct_fields_and_methods_are_kept() {
    match item("struct S { x: int32, y: int32, fun f(); fun g() {} }").0 {
        Some(ModuleItem::Struct(s)) => {
            assert_eq!(s.fields.len(), 2);
            assert_eq!(s.methods.len(), 2);
            assert!(s.implements.is_none());
        }
        _ => panic!("not a struct"),
    }
}

#[test]
fn leading_items_keep_their_kinds() {
    let parsed = parsed_module("import a;\nfun main() {}\nstruct S { x: int32 }\n");
    let items = &parsed.ast().items;
    assert_eq!(items.len(), 3);
    assert!(matches!(items[0], ModuleItem::Import { .. }));
    assert!(matches!(items[1], ModuleItem::Function(_)));
    assert!(matches!(items[2], ModuleItem::Struct(_)));
}

#[test]
fn operators_group_by_precedence() {
    match expression("a + b * c").0 {
        Some(Expression::Binary { left, right, operator, .. }) => {
            assert_eq!(operator.raw, RawBinaryOperator::Plus);
            assert!(matches!(*left, Expression::Identifier(_)));
            assert!(matches!(*right, Expression::Binary { .. }));
        }
        _ => panic!("not a binary expression"),
    }
    match expression("a - b - c").0 {
        Some(Expression::Binary { left, right, .. }) => {
            assert!(matches!(*left, Expression::Binary { .. }));
            assert!(matches!(*right, Expression::Identifier(_)));
        }
        _ => panic!("not a binary expression"),
    }
}

#[test]
fn type_arguments_are_kept() {
    match ty("List[int32]") {
        Some(Type::Constructor(c)) => {
            assert_eq!(c.path.identifiers.len(), 1);
            assert_eq!(c.arguments.len(), 1);
        }
        _ => panic!("not a type constructor"),
    }
    match ty("Map[a.B, C,]") {
        Some(Type::Constructor(c)) => assert_eq!(c.arguments.len(), 2),
        _ => panic!("not a type constructor"),
    }
}

#[test]
fn path_identifiers_carry_their_names() {
    match ty("a.b.a") {
        Some(Type::Constructor(c)) => {
            let ids = &c.path.identifiers;
            assert_eq!(ids.len(), 3);
            assert_eq!(ids[0].id, ids[2].id);
            assert_ne!(ids[0].id, ids[1].id);
            assert_eq!(ids[1].location.start, ByteOffset(2));
        }
        _ => panic!("not a type constructor"),
    }
}

#[test]
fn function_and_struct_names_carry_their_names() {
    match item("fun f(f: g, h: f) {}").0 {
        Some(ModuleItem::Function(function)) => {
            let name = function.signature.name.id;
            assert_eq!(function.signature.parameters.len(), 2);
            match &function.signature.parameters[1] {
                stellar::ast::FunctionParameter::NotSelfParameter(p) => match &p.ty {
                    Type::Constructor(c) => assert_eq!(c.path.identifiers[0].id, name),
                    _ => panic!("not a type constructor"),
                },
                _ => panic!("not a named parameter"),
            }
        }
        _ => panic!("not a function"),
    }
    match item("struct S { x: S }").0 {
        Some(ModuleItem::Struct(s)) => match &s.fields[0].ty {
            Type::Constructor(c) => assert_eq!(c.path.identifiers[0].id, s.name.id),
            _ => panic!("not a type constructor"),
        },
        _ => panic!("not a struct"),
    }
}
