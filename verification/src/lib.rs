//! Generation of a C-callable surface for a library: a header text and the
//! wrapper source that implements it, from the library's declarations.
//!
//! The input is a tree of declarations: free functions, plain data structs
//! and modules. [`generate_c_api_and_rust_exports`] walks it depth first and
//! in declaration order, and joins the fragments of what is exported into the
//! two texts.
//!
//! The library reads no storage. Where the walk enters a module without a
//! body, it halts with a [`ProbeRequest`] for the candidate path that is to be
//! looked at next. The caller looks, hands what it found to [`record_probe`],
//! and runs the walk again, until it ends in [`Generation::Complete`] or in a
//! failure.
//!
//! The header struct of a struct is informative only, and a type that the
//! mapper does not know crosses the boundary by an unchecked
//! reinterpretation: the generated bindings can be unsound. The diagnostics
//! of a completed run list where that may be so.

pub mod casing;
pub mod decl;
pub mod diagnose;
pub mod function;
pub mod laws;
pub mod resolve;
pub mod structs;
pub mod text;
pub mod traverse;
pub mod shape;
pub mod types;
pub mod visibility;

pub use crate::decl::{
    Declaration, FieldDecl, FunctionDecl, ModuleBody, ModuleDecl, Param, SourceType, StructDecl,
    Visibility,
};
pub use crate::diagnose::{function_diagnostics, struct_diagnostics, Diagnostic};
pub use crate::function::{
    argument_for, conversion_text, generate_c_binding_and_rust_wrapper, return_text, Argument,
};
pub use crate::resolve::{advance, record_probe, Probe, ProbeRequest};
pub use crate::structs::{
    generate_c_struct_binding_and_rust_wrapper, generate_c_struct_field, struct_binding_with_tag,
};
pub use crate::traverse::{
    emit_declarations, gather_declarations, generate_c_api_and_rust_exports,
    process_external_mod_and_generate_rust, Gathering, Generation,
};
pub use crate::types::{
    conversion_for, recognizes, rust_type_to_c, rust_type_to_rust_extern_c, Conversion,
};
pub use crate::visibility::{is_public_function, is_public_mod, is_public_struct};
