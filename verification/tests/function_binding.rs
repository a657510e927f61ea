use cbt::{
    argument_for, conversion_text, generate_c_binding_and_rust_wrapper, return_text, FunctionDecl,
    Param, SourceType, Visibility,
};

fn named(head: &str) -> SourceType {
    SourceType::Named(head.to_string())
}

fn param(name: &str, ty: SourceType) -> Param {
    Param { name: name.to_string(), ty }
}

fn function(name: &str, params: Vec<Param>, output: Option<SourceType>) -> FunctionDecl {
    FunctionDecl { name: name.to_string(), visibility: Visibility::Public, params, output }
}

fn slots(text: &str) -> usize {
    let open = text.find('(').unwrap();
    let close = open + text[open..].find(')').unwrap();
    let inside = &text[open + 1..close];
    if inside.is_empty() {
        0
    } else {
        inside.split(", ").count()
    }
}

#[test]
fn binding_of_integer_function() {
    let add = function(
        "add",
        vec![param("a", named("i32")), param("b", named("i32"))],
        Some(named("i32")),
    );
    let (header, wrapper) = generate_c_binding_and_rust_wrapper(&add, "test_crate").unwrap();
    assert_eq!(header, "int add(int, int, void*);");
    assert_eq!(
        wrapper,
        "\n#[no_mangle]\npub extern \"C\" fn add(a: i32, b: i32) -> i32 {\n    use test_crate::add;\n    let a = unsafe { std::mem::transmute::<i32, _>(a) };\n    let b = unsafe { std::mem::transmute::<i32, _>(b) };\n    let result = add(a, b);\n    unsafe { std::mem::transmute::<_, i32>(result) }\n}\n"
    );
}

#[test]
fn binding_of_text_function() {
    let greet = function("greet", vec![param("name", named("String"))], Some(named("String")));
    let (header, wrapper) = generate_c_binding_and_rust_wrapper(&greet, "test_crate").unwrap();
    assert_eq!(header, "char* greet(char*, void*);");
    assert_eq!(
        wrapper,
        "\n#[no_mangle]\npub extern \"C\" fn greet(name: *mut core::ffi::c_char) -> *mut core::ffi::c_char {\n    use test_crate::greet;\n    let name = unsafe { std::ffi::CStr::from_ptr(name).to_string_lossy().into_owned() };\n    let result = greet(name);\n    let result = std::ffi::CString::new(result).unwrap().into_raw();\n    result\n}\n"
    );
}

#[test]
fn binding_without_parameters_or_result() {
    let tick = function("tick", vec![], None);
    let (header, wrapper) = generate_c_binding_and_rust_wrapper(&tick, "clock").unwrap();
    assert_eq!(header, "void tick(void*);");
    assert_eq!(
        wrapper,
        "\n#[no_mangle]\npub extern \"C\" fn tick() -> () {\n    use clock::tick;\n    let result = tick();\n}\n"
    );
}

#[test]
fn borrowed_text_parameter_is_viewed_not_copied() {
    let shout = function(
        "shout",
        vec![param("text", SourceType::Reference(Box::new(named("str"))))],
        Some(named("u32")),
    );
    let (header, wrapper) = generate_c_binding_and_rust_wrapper(&shout, "voice").unwrap();
    assert_eq!(header, "unsigned int shout(char*, void*);");
    assert_eq!(
        wrapper,
        "\n#[no_mangle]\npub extern \"C\" fn shout(text: *mut core::ffi::c_char) -> u32 {\n    use voice::shout;\n    let text = unsafe { std::ffi::CStr::from_ptr(text).to_str().unwrap() };\n    let result = shout(text);\n    unsafe { std::mem::transmute::<_, u32>(result) }\n}\n"
    );
}

#[test]
fn unclassified_types_degrade_to_reinterpretation() {
    let merge = function(
        "merge",
        vec![
            param("left", named("Widget")),
            param("right", SourceType::Reference(Box::new(named("Widget")))),
            param("rest", named("Vec")),
            param("other", SourceType::Anonymous),
        ],
        Some(named("Widget")),
    );
    let (header, wrapper) = generate_c_binding_and_rust_wrapper(&merge, "shop").unwrap();
    assert_eq!(header, "Widget* merge(Widget*, void*, void*, void*, void*);");
    assert_eq!(
        wrapper,
        "\n#[no_mangle]\npub extern \"C\" fn merge(left: Widget, right: void, rest: *mut cor:::ffi::c_void, other: void) -> Widget {\n    use shop::merge;\n    let left = unsafe { std::mem::transmute::<Widget, _>(left) };\n    let right = unsafe { std::mem::transmute::<void, _>(right) };\n    let rest = unsafe { std::mem::transmute::<*mut cor:::ffi::c_void, _>(rest) };\n    let other = unsafe { std::mem::transmute::<void, _>(other) };\n    let result = merge(left, right, rest, other);\n    unsafe { std::mem::transmute::<_, Widget>(result) }\n}\n"
    );
}

#[test]
fn anonymous_result_is_reinterpreted() {
    let pair = function("pair", vec![], Some(SourceType::Anonymous));
    let (header, wrapper) = generate_c_binding_and_rust_wrapper(&pair, "m").unwrap();
    assert_eq!(header, "void* pair(void*);");
    assert_eq!(
        wrapper,
        "\n#[no_mangle]\npub extern \"C\" fn pair() -> void {\n    use m::pair;\n    let result = pair();\n    unsafe { std::mem::transmute::<_, void>(result) }\n}\n"
    );
}

#[test]
fn borrowed_text_result_is_handed_over_as_buffer() {
    let label = function("label", vec![], Some(SourceType::Reference(Box::new(named("str")))));
    let (header, wrapper) = generate_c_binding_and_rust_wrapper(&label, "m").unwrap();
    assert_eq!(header, "char* label(void*);");
    assert_eq!(
        wrapper,
        "\n#[no_mangle]\npub extern \"C\" fn label() -> *mut core::ffi::c_char {\n    use m::label;\n    let result = label();\n    let result = std::ffi::CString::new(result).unwrap().into_raw();\n    result\n}\n"
    );
}

#[test]
fn header_has_one_slot_more_than_wrapper() {
    let cases = vec![
        function("zero", vec![], None),
        function("one", vec![param("a", named("bool"))], Some(named("bool"))),
        function(
            "three",
            vec![param("a", named("i32")), param("b", named("f64")), param("c", named("String"))],
            Some(named("f64")),
        ),
    ];
    for case in &cases {
        let (header, wrapper) = generate_c_binding_and_rust_wrapper(case, "m").unwrap();
        assert_eq!(slots(&header), slots(&wrapper) + 1);
        assert_eq!(slots(&wrapper), case.params.len());
        assert!(header.contains(&format!(" {}(", case.name)));
        assert!(wrapper.contains(&format!("fn {}(", case.name)));
        assert_eq!(header.matches(';').count(), 1);
        assert!(header.ends_with(");"));
        assert_eq!(header.find(';'), Some(header.len() - 1));
        assert_eq!(wrapper.matches("#[no_mangle]").count(), 1);
        assert_eq!(wrapper.find("#[no_mangle]"), Some(1));
        assert_eq!(wrapper.matches("extern \"C\" fn").count(), 1);
        assert_eq!(wrapper.find("extern \"C\" fn"), Some(18));
    }
}

#[test]
fn binding_ignores_the_visibility_marker() {
    let mut hidden = function("hidden", vec![], Some(named("i32")));
    hidden.visibility = Visibility::Private;
    let (header, _) = generate_c_binding_and_rust_wrapper(&hidden, "m").unwrap();
    assert_eq!(header, "int hidden(void*);");
}

#[test]
fn argument_holds_both_mapped_types() {
    let arg = argument_for(&param("name", named("String")));
    assert_eq!(arg.name, "name");
    assert!(matches!(&arg.ty, SourceType::Named(head) if head == "String"));
    assert_eq!(arg.c_ty, "char*");
    assert_eq!(arg.extern_c_ty, "*mut core::ffi::c_char");
    let arg = argument_for(&param("w", SourceType::Reference(Box::new(named("Widget")))));
    assert!(matches!(&arg.ty, SourceType::Reference(inner) if matches!(&**inner, SourceType::Named(head) if head == "Widget")));
    assert_eq!(arg.c_ty, "void*");
    assert_eq!(arg.extern_c_ty, "void");
}

#[test]
fn conversion_statements_by_strategy() {
    assert_eq!(
        conversion_text(&argument_for(&param("s", named("String")))),
        "    let s = unsafe { std::ffi::CStr::from_ptr(s).to_string_lossy().into_owned() };\n"
    );
    assert_eq!(
        conversion_text(&argument_for(&param("s", SourceType::Reference(Box::new(named("str")))))),
        "    let s = unsafe { std::ffi::CStr::from_ptr(s).to_str().unwrap() };\n"
    );
    assert_eq!(
        conversion_text(&argument_for(&param("n", named("u32")))),
        "    let n = unsafe { std::mem::transmute::<u32, _>(n) };\n"
    );
    assert_eq!(
        conversion_text(&argument_for(&param("o", named("Option")))),
        "    let o = unsafe { std::mem::transmute::<*mut core::ffi::c_void, _>(o) };\n"
    );
}

#[test]
fn return_statements_by_return_type() {
    assert_eq!(return_text(&function("f", vec![], None)), "");
    assert_eq!(
        return_text(&function("f", vec![], Some(named("String")))),
        "    let result = std::ffi::CString::new(result).unwrap().into_raw();\n    result\n"
    );
    assert_eq!(
        return_text(&function("f", vec![], Some(named("f64")))),
        "    unsafe { std::mem::transmute::<_, f64>(result) }\n"
    );
}
