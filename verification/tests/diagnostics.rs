use cbt::{
    function_diagnostics, generate_c_api_and_rust_exports, recognizes, struct_diagnostics,
    Declaration, Diagnostic, FieldDecl, FunctionDecl, Generation, ModuleBody, ModuleDecl, Param,
    SourceType, StructDecl, Visibility,
};

fn named(head: &str) -> SourceType {
    SourceType::Named(head.to_string())
}

fn text_ref() -> SourceType {
    SourceType::Reference(Box::new(named("str")))
}

fn param(name: &str, ty: SourceType) -> Param {
    Param { name: name.to_string(), ty }
}

fn function(name: &str, visibility: Visibility, params: Vec<Param>, output: Option<SourceType>) -> FunctionDecl {
    FunctionDecl { name: name.to_string(), visibility, params, output }
}

fn field(name: Option<&str>, ty: SourceType) -> FieldDecl {
    FieldDecl { name: name.map(|n| n.to_string()), ty }
}

fn record(name: &str, visibility: Visibility, fields: Vec<FieldDecl>) -> StructDecl {
    StructDecl { name: name.to_string(), visibility, fields }
}

fn module(name: &str, visibility: Visibility, body: ModuleBody) -> Declaration {
    Declaration::Module(ModuleDecl { name: name.to_string(), visibility, body })
}

fn run(items: &Vec<Declaration>, inherited: bool) -> (String, String, Vec<Diagnostic>) {
    match generate_c_api_and_rust_exports(items, &vec![], inherited, "c", "c") {
        Generation::Complete { header, wrapper, diagnostics } => (header, wrapper, diagnostics),
        other => panic!("the traversal halted: {:?}", other),
    }
}

fn opaque_parameter(function: &str, parameter: &str) -> Diagnostic {
    Diagnostic::OpaqueParameter { function: function.to_string(), parameter: parameter.to_string() }
}

#[test]
fn mapper_knows_primitives_and_text() {
    assert!(recognizes(&named("i32")));
    assert!(recognizes(&named("f64")));
    assert!(recognizes(&named("u32")));
    assert!(recognizes(&named("bool")));
    assert!(recognizes(&named("String")));
    assert!(recognizes(&text_ref()));
}

#[test]
fn mapper_knows_nothing_else() {
    assert!(!recognizes(&named("Vec")));
    assert!(!recognizes(&named("Option")));
    assert!(!recognizes(&named("Widget")));
    assert!(!recognizes(&named("str")));
    assert!(!recognizes(&SourceType::Anonymous));
    assert!(!recognizes(&SourceType::Reference(Box::new(named("String")))));
    assert!(!recognizes(&SourceType::Reference(Box::new(text_ref()))));
}

#[test]
fn fully_mapped_function_has_no_diagnostics() {
    let f = function(
        "f",
        Visibility::Public,
        vec![param("a", named("i32")), param("b", named("String")), param("c", text_ref())],
        Some(named("bool")),
    );
    assert_eq!(function_diagnostics(&f), vec![]);
    let g = function("g", Visibility::Public, vec![], None);
    assert_eq!(function_diagnostics(&g), vec![]);
}

#[test]
fn opaque_types_of_a_function_are_listed_in_order() {
    let f = function(
        "f",
        Visibility::Public,
        vec![
            param("a", named("Widget")),
            param("b", named("i32")),
            param("c", named("Vec")),
            param("d", SourceType::Anonymous),
        ],
        Some(named("Option")),
    );
    assert_eq!(
        function_diagnostics(&f),
        vec![
            opaque_parameter("f", "a"),
            opaque_parameter("f", "c"),
            opaque_parameter("f", "d"),
            Diagnostic::OpaqueResult { function: "f".to_string() },
        ]
    );
}

#[test]
fn dropped_and_opaque_fields_are_listed_in_order() {
    let s = record(
        "S",
        Visibility::Public,
        vec![
            field(Some("x"), named("i32")),
            field(None, named("Widget")),
            field(Some("w"), named("Widget")),
            field(None, named("i32")),
        ],
    );
    assert_eq!(
        struct_diagnostics(&s),
        vec![
            Diagnostic::FieldDropped { record: "S".to_string(), position: 1 },
            Diagnostic::OpaqueField { record: "S".to_string(), field: "w".to_string() },
            Diagnostic::FieldDropped { record: "S".to_string(), position: 3 },
        ]
    );
    assert_eq!(struct_diagnostics(&record("T", Visibility::Public, vec![])), vec![]);
}

#[test]
fn run_collects_diagnostics_in_traversal_order() {
    let items = vec![
        Declaration::Function(function("first", Visibility::Public, vec![param("w", named("Widget"))], None)),
        module(
            "api",
            Visibility::Public,
            ModuleBody::Inline(vec![
                Declaration::Struct(record("Inner", Visibility::Private, vec![field(None, named("i32"))])),
                module("gone", Visibility::Public, ModuleBody::Absent),
            ]),
        ),
        Declaration::Function(function("last", Visibility::Public, vec![], Some(SourceType::Anonymous))),
    ];
    let (_, _, diagnostics) = run(&items, false);
    assert_eq!(
        diagnostics,
        vec![
            opaque_parameter("first", "w"),
            Diagnostic::FieldDropped { record: "Inner".to_string(), position: 0 },
            Diagnostic::ModuleNotFound { module: "gone".to_string() },
            Diagnostic::OpaqueResult { function: "last".to_string() },
        ]
    );
}

#[test]
fn what_is_not_exported_or_not_entered_has_no_diagnostics() {
    let items = vec![
        Declaration::Function(function("hidden", Visibility::Private, vec![param("w", named("Widget"))], None)),
        Declaration::Struct(record("Hidden", Visibility::Private, vec![field(None, named("i32"))])),
        module(
            "detail",
            Visibility::Private,
            ModuleBody::Inline(vec![Declaration::Function(function(
                "f",
                Visibility::Public,
                vec![param("w", named("Widget"))],
                None,
            ))]),
        ),
        module("gone", Visibility::Private, ModuleBody::Absent),
    ];
    let (header, _, diagnostics) = run(&items, false);
    assert_eq!(header, "");
    assert_eq!(diagnostics, vec![]);
}

#[test]
fn diagnostics_do_not_change_the_texts() {
    let degraded = vec![
        Declaration::Function(function("f", Visibility::Public, vec![], None)),
        module("gone", Visibility::Public, ModuleBody::Absent),
    ];
    let plain = vec![Declaration::Function(function("f", Visibility::Public, vec![], None))];
    let (header, wrapper, diagnostics) = run(&degraded, false);
    let (plain_header, plain_wrapper, plain_diagnostics) = run(&plain, false);
    assert_eq!(header, plain_header);
    assert_eq!(wrapper, plain_wrapper);
    assert_eq!(diagnostics, vec![Diagnostic::ModuleNotFound { module: "gone".to_string() }]);
    assert_eq!(plain_diagnostics, vec![]);
}
