//! The type mapper: how each source type crosses the foreign boundary.
//!
//! Every type is mapped. One that the table does not know degrades to an
//! opaque pointer in the header and to an unchecked reinterpretation in the
//! wrapper, which is sound only where the two representations share a layout;
//! nothing here verifies that they do.

use vstd::prelude::*;
use crate::decl::{type_view, SourceType, TypeView};
use crate::text::same_text;

verus! {

/// How a wrapper turns a foreign parameter into the library's own value.
#[derive(Clone, Copy, Debug, PartialEq, Eq, Structural)]
pub enum Conversion {
    /// Copy the null-terminated text into an owned string.
    TextCopy,
    /// View the null-terminated text as borrowed text for the call.
    BorrowedView,
    /// Reinterpret the bits as the real type, unchecked.
    Reinterpret,
}

/// Whether `ty` is a reference to borrowed text.
pub open spec fn is_text_ref(ty: TypeView) -> bool {
    ty matches TypeView::Reference(inner) && *inner == TypeView::Named("str"@)
}

/// Whether the table knows `ty`: the primitive types, owned text and
/// borrowed text. Every other type crosses the boundary as an opaque value.
pub open spec fn is_recognized(ty: TypeView) -> bool {
    is_text_ref(ty) || (ty matches TypeView::Named(head) && (head == "i32"@ || head == "f64"@
        || head == "u32"@ || head == "bool"@ || head == "String"@))
}

/// The type's name in the header.
pub open spec fn header_type(ty: TypeView) -> Seq<char> {
    match ty {
        TypeView::Named(head) => {
            if head == "i32"@ {
                "int"@
            } else if head == "f64"@ {
                "double"@
            } else if head == "u32"@ {
                "unsigned int"@
            } else if head == "bool"@ {
                "bool"@
            } else if head == "String"@ {
                "char*"@
            } else if head == "Vec"@ {
                "void*"@
            } else if head == "Option"@ {
                "void*"@
            } else {
                head + "*"@
            }
        },
        TypeView::Reference(_) => if is_text_ref(ty) {
            "char*"@
        } else {
            "void*"@
        },
        TypeView::Anonymous => "void*"@,
    }
}

/// The type of the wrapper's parameter or result that stands for `ty`. The
/// primitive types, and every name that the table does not know, stand for
/// themselves.
pub open spec fn wrapper_type(ty: TypeView) -> Seq<char> {
    match ty {
        TypeView::Named(head) => {
            if head == "String"@ {
                "*mut core::ffi::c_char"@
            } else if head == "Vec"@ {
                "*mut cor:::ffi::c_void"@
            } else if head == "Option"@ {
                "*mut core::ffi::c_void"@
            } else {
                head
            }
        },
        TypeView::Reference(_) => if is_text_ref(ty) {
            "*mut core::ffi::c_char"@
        } else {
            "void"@
        },
        TypeView::Anonymous => "void"@,
    }
}

/// The conversion that a wrapper applies to a parameter of type `ty`.
pub open spec fn conversion_of(ty: TypeView) -> Conversion {
    if ty == TypeView::Named("String"@) {
        Conversion::TextCopy
    } else if is_text_ref(ty) {
        Conversion::BorrowedView
    } else {
        Conversion::Reinterpret
    }
}

/// Decides whether `ty` is a reference to borrowed text.
pub fn refers_to_text(ty: &SourceType) -> (yes: bool)
    ensures
        yes == is_text_ref(ty@),
{
    match ty {
        SourceType::Reference(inner) => {
            assert(ty@ == TypeView::Reference(Box::new(type_view(**inner))));
            match &**inner {
                SourceType::Named(head) => same_text(head.as_str(), "str"),
                _ => false,
            }
        },
        _ => false,
    }
}

/// Decides whether the table knows `ty`.
pub fn recognizes(ty: &SourceType) -> (yes: bool)
    ensures
        yes == is_recognized(ty@),
{
    match ty {
        SourceType::Named(head) => {
            let head = head.as_str();
            same_text(head, "i32") || same_text(head, "f64") || same_text(head, "u32")
                || same_text(head, "bool") || same_text(head, "String")
        },
        SourceType::Reference(_) => refers_to_text(ty),
        SourceType::Anonymous => false,
    }
}

/// Maps a source type to its name in the header.
pub fn rust_type_to_c(ty: &SourceType) -> (out: String)
    ensures
        out@ == header_type(ty@),
{
    match ty {
        SourceType::Named(head) => {
            let head = head.as_str();
            if same_text(head, "i32") {
                "int".to_owned()
            } else if same_text(head, "f64") {
                "double".to_owned()
            } else if same_text(head, "u32") {
                "unsigned int".to_owned()
            } else if same_text(head, "bool") {
                "bool".to_owned()
            } else if same_text(head, "String") {
                "char*".to_owned()
            } else if same_text(head, "Vec") {
                "void*".to_owned()
            } else if same_text(head, "Option") {
                "void*".to_owned()
            } else {
                let mut out = head.to_owned();
                out.append("*");
                out
            }
        },
        SourceType::Reference(_) => {
            if refers_to_text(ty) {
                "char*".to_owned()
            } else {
                "void*".to_owned()
            }
        },
        SourceType::Anonymous => "void*".to_owned(),
    }
}

/// Maps a source type to the type that stands for it in a wrapper's
/// signature.
pub fn rust_type_to_rust_extern_c(ty: &SourceType) -> (out: String)
    ensures
        out@ == wrapper_type(ty@),
{
    match ty {
        SourceType::Named(head) => {
            let head = head.as_str();
            if same_text(head, "String") {
                "*mut core::ffi::c_char".to_owned()
            } else if same_text(head, "Vec") {
                "*mut cor:::ffi::c_void".to_owned()
            } else if same_text(head, "Option") {
                "*mut core::ffi::c_void".to_owned()
            } else {
                head.to_owned()
            }
        },
        SourceType::Reference(_) => {
            if refers_to_text(ty) {
                "*mut core::ffi::c_char".to_owned()
            } else {
                "void".to_owned()
            }
        },
        SourceType::Anonymous => "void".to_owned(),
    }
}

/// Chooses the conversion for a parameter of type `ty`.
pub fn conversion_for(ty: &SourceType) -> (out: Conversion)
    ensures
        out == conversion_of(ty@),
{
    match ty {
        SourceType::Named(head) => {
            if same_text(head.as_str(), "String") {
                Conversion::TextCopy
            } else {
                Conversion::Reinterpret
            }
        },
        SourceType::Reference(_) => {
            if refers_to_text(ty) {
                Conversion::BorrowedView
            } else {
                Conversion::Reinterpret
            }
        },
        SourceType::Anonymous => Conversion::Reinterpret,
    }
}

} // verus!
