use cbt::{
    generate_c_struct_binding_and_rust_wrapper, generate_c_struct_field, struct_binding_with_tag,
    FieldDecl, SourceType, StructDecl, Visibility,
};

fn field(name: &str, head: &str) -> FieldDecl {
    FieldDecl { name: Some(name.to_string()), ty: SourceType::Named(head.to_string()) }
}

fn positional(head: &str) -> FieldDecl {
    FieldDecl { name: None, ty: SourceType::Named(head.to_string()) }
}

fn record(name: &str, fields: Vec<FieldDecl>) -> StructDecl {
    StructDecl { name: name.to_string(), visibility: Visibility::Public, fields }
}

fn wrapper_for(tag: &str, name: &str, module: &str) -> String {
    format!(
        "\nuse alloc::boxed::Box;\nuse {module}::{name};\n\n#[no_mangle]\npub extern \"C\" fn {tag}_new() -> *mut {name} {{\n    Box::into_raw(Box::new({name}::default()))\n}}\n\n#[no_mangle]\npub extern \"C\" fn {tag}_free(obj: *mut {name}) {{\n    if !obj.is_null() {{\n        unsafe {{\n            let _ = Box::from_raw(obj);\n        }}\n    }}\n}}\n"
    )
}

#[test]
fn struct_with_two_integer_fields() {
    let item = record("MyStruct", vec![field("x", "i32"), field("y", "i32")]);
    let (header, wrapper) = generate_c_struct_binding_and_rust_wrapper(&item, "test_crate").unwrap();
    assert_eq!(
        header,
        "typedef struct my_struct {\n    int x;\n    int y;\n} my_struct;\nmy_struct* my_struct_new();\nvoid my_struct_free(my_struct* obj);"
    );
    assert_eq!(
        wrapper,
        "\nuse alloc::boxed::Box;\nuse test_crate::MyStruct;\n\n#[no_mangle]\npub extern \"C\" fn my_struct_new() -> *mut MyStruct {\n    Box::into_raw(Box::new(MyStruct::default()))\n}\n\n#[no_mangle]\npub extern \"C\" fn my_struct_free(obj: *mut MyStruct) {\n    if !obj.is_null() {\n        unsafe {\n            let _ = Box::from_raw(obj);\n        }\n    }\n}\n"
    );
}

#[test]
fn struct_fields_keep_declaration_order() {
    let item = record("MyStruct", vec![field("x", "i32"), field("y", "i32")]);
    let (header, _) = generate_c_struct_binding_and_rust_wrapper(&item, "test_crate").unwrap();
    let x = header.find("    int x;").unwrap();
    let y = header.find("    int y;").unwrap();
    assert!(x < y);
    assert!(header.starts_with("typedef struct my_struct {"));
    assert!(header.contains("my_struct* my_struct_new();"));
    assert!(header.contains("void my_struct_free(my_struct* obj);"));
}

#[test]
fn tag_is_the_name_in_snake_case() {
    let item = record("HttpRequestLine", vec![]);
    let (header, wrapper) = generate_c_struct_binding_and_rust_wrapper(&item, "net").unwrap();
    assert_eq!(
        header,
        "typedef struct http_request_line {\n\n} http_request_line;\nhttp_request_line* http_request_line_new();\nvoid http_request_line_free(http_request_line* obj);"
    );
    assert_eq!(wrapper, wrapper_for("http_request_line", "HttpRequestLine", "net"));
}

#[test]
fn positional_fields_are_left_out() {
    let item = record(
        "Mixed",
        vec![positional("i32"), field("flag", "bool"), positional("String"), field("label", "String")],
    );
    let (header, _) = struct_binding_with_tag(&item, "mixed", "m");
    assert_eq!(
        header,
        "typedef struct mixed {\n    bool flag;\n    char* label;\n} mixed;\nmixed* mixed_new();\nvoid mixed_free(mixed* obj);"
    );
}

#[test]
fn struct_of_positional_fields_only_has_an_empty_body() {
    let item = record("Pair", vec![positional("i32"), positional("i32")]);
    let (header, wrapper) = struct_binding_with_tag(&item, "pair", "m");
    assert_eq!(header, "typedef struct pair {\n\n} pair;\npair* pair_new();\nvoid pair_free(pair* obj);");
    assert_eq!(wrapper, wrapper_for("pair", "Pair", "m"));
}

#[test]
fn binding_uses_the_tag_it_is_given() {
    let item = record("MyStruct", vec![field("ratio", "f64")]);
    let (header, wrapper) = struct_binding_with_tag(&item, "custom_tag", "some::path");
    assert_eq!(
        header,
        "typedef struct custom_tag {\n    double ratio;\n} custom_tag;\ncustom_tag* custom_tag_new();\nvoid custom_tag_free(custom_tag* obj);"
    );
    assert_eq!(wrapper, wrapper_for("custom_tag", "MyStruct", "some::path"));
}

#[test]
fn field_lines() {
    assert_eq!(generate_c_struct_field(&field("x", "i32")), Some("    int x;".to_string()));
    assert_eq!(generate_c_struct_field(&field("n", "u32")), Some("    unsigned int n;".to_string()));
    assert_eq!(generate_c_struct_field(&field("w", "Widget")), Some("    Widget* w;".to_string()));
    assert_eq!(
        generate_c_struct_field(&FieldDecl {
            name: Some("view".to_string()),
            ty: SourceType::Reference(Box::new(SourceType::Named("str".to_string()))),
        }),
        Some("    char* view;".to_string())
    );
    assert_eq!(
        generate_c_struct_field(&FieldDecl { name: Some("t".to_string()), ty: SourceType::Anonymous }),
        Some("    void* t;".to_string())
    );
    assert_eq!(generate_c_struct_field(&positional("i32")), None);
}

#[test]
fn struct_binding_ignores_the_visibility_marker() {
    let mut item = record("Hidden", vec![]);
    item.visibility = Visibility::Private;
    let (header, _) = generate_c_struct_binding_and_rust_wrapper(&item, "m").unwrap();
    assert!(header.starts_with("typedef struct hidden {"));
}
