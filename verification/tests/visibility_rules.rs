use cbt::{
    is_public_function, is_public_mod, is_public_struct, FunctionDecl, ModuleBody, ModuleDecl,
    StructDecl, Visibility,
};

fn function(visibility: Visibility) -> FunctionDecl {
    FunctionDecl { name: "f".to_string(), visibility, params: vec![], output: None }
}

fn record(visibility: Visibility) -> StructDecl {
    StructDecl { name: "S".to_string(), visibility, fields: vec![] }
}

fn module(visibility: Visibility) -> ModuleDecl {
    ModuleDecl { name: "m".to_string(), visibility, body: ModuleBody::Inline(vec![]) }
}

#[test]
fn function_is_exported_by_marker_or_inheritance() {
    assert!(is_public_function(&function(Visibility::Public), false));
    assert!(is_public_function(&function(Visibility::Public), true));
    assert!(is_public_function(&function(Visibility::Private), true));
    assert!(!is_public_function(&function(Visibility::Private), false));
}

#[test]
fn struct_is_exported_by_marker_or_inheritance() {
    assert!(is_public_struct(&record(Visibility::Public), false));
    assert!(is_public_struct(&record(Visibility::Public), true));
    assert!(is_public_struct(&record(Visibility::Private), true));
    assert!(!is_public_struct(&record(Visibility::Private), false));
}

#[test]
fn module_is_entered_by_its_own_marker_alone() {
    assert!(is_public_mod(&module(Visibility::Public)));
    assert!(!is_public_mod(&module(Visibility::Private)));
}
