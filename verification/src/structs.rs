//! The struct binding generator: a header struct, a constructor and a
//! destructor for a plain data struct.
//!
//! The header struct is informative only. A field without a name is left out
//! of it, so it can differ from the real struct in field count and layout; no
//! accessor is generated. The constructor builds the real struct by its
//! parameterless default construction, which the struct must support.

use vstd::prelude::*;
use vstd::string::*;
use crate::casing::{snake_case_of, to_snake};
use crate::decl::{FieldDecl, FieldView, StructDecl, StructView};
use crate::text::{join, join_spec, views};
use crate::types::{header_type, rust_type_to_c};

verus! {

/// The header line of a named field.
pub open spec fn field_line(name: Seq<char>, field: FieldView) -> Seq<char> {
    "    "@ + header_type(field.ty) + " "@ + name + ";"@
}

/// The header lines of the named fields, in declaration order. A field
/// without a name has no line.
pub open spec fn field_lines(fields: Seq<FieldView>) -> Seq<Seq<char>>
    decreases fields.len(),
{
    if fields.len() == 0 {
        Seq::empty()
    } else {
        let rest = field_lines(fields.drop_last());
        match fields.last().name {
            Some(name) => rest.push(field_line(name, fields.last())),
            None => rest,
        }
    }
}

/// The header fragment of a struct whose tag is `tag`: the struct definition,
/// then the declarations of the constructor and of the destructor.
pub open spec fn struct_header(s: StructView, tag: Seq<char>) -> Seq<char> {
    "typedef struct "@ + tag + " {\n"@ + join_spec(field_lines(s.fields), "\n"@) + "\n} "@ + tag
        + ";"@ + "\n"@ + tag + "* "@ + tag + "_new();"@ + "\n"@ + "void "@ + tag + "_free("@
        + tag + "* obj);"@
}

/// The wrapper fragment of a struct whose tag is `tag`: the constructor, which
/// returns an owning handle to a default-initialised instance on the heap, and
/// the destructor, which reclaims a handle and does nothing for a null one.
/// The real struct is imported from `module`.
pub open spec fn struct_wrapper(s: StructView, tag: Seq<char>, module: Seq<char>) -> Seq<char> {
    "\nuse alloc::boxed::Box;\nuse "@ + module + "::"@ + s.name
        + ";\n\n#[no_mangle]\npub extern \"C\" fn "@ + tag + "_new() -> *mut "@ + s.name
        + " {\n    Box::into_raw(Box::new("@ + s.name
        + "::default()))\n}\n\n#[no_mangle]\npub extern \"C\" fn "@ + tag + "_free(obj: *mut "@
        + s.name
        + ") {\n    if !obj.is_null() {\n        unsafe {\n            let _ = Box::from_raw(obj);\n        }\n    }\n}\n"@
}

/// Generates the header line of a field, or nothing for a field without a
/// name.
pub fn generate_c_struct_field(field: &FieldDecl) -> (out: Option<String>)
    ensures
        match field@.name {
            Some(name) => out matches Some(line) && line@ == field_line(name, field@),
            None => out is None,
        },
{
    match &field.name {
        None => None,
        Some(name) => {
            let mut line = "    ".to_owned();
            line.append(rust_type_to_c(&field.ty).as_str());
            line.append(" ");
            line.append(name.as_str());
            line.append(";");
            Some(line)
        },
    }
}

/// Generates the header and wrapper fragments of a struct under the tag
/// `tag`, importing the real struct from `mod_name`.
pub fn struct_binding_with_tag(struct_item: &StructDecl, tag: &str, mod_name: &str) -> (out: (
    String,
    String,
))
    ensures
        out.0@ == struct_header(struct_item@, tag@),
        out.1@ == struct_wrapper(struct_item@, tag@, mod_name@),
{
    let name = struct_item.name.as_str();
    let count = struct_item.fields.len();
    let mut lines: Vec<String> = Vec::new();
    let mut i: usize = 0;
    while i < count
        invariant
            count == struct_item.fields.len(),
            i <= count,
            views(lines@) == field_lines(struct_item@.fields.take(i as int)),
        decreases count - i,
    {
        let field = &struct_item.fields[i];
        let ghost before = struct_item@.fields.take(i as int);
        let ghost after = struct_item@.fields.take(i as int + 1);
        proof {
            assert(after.drop_last() =~= before);
            assert(after.last() == field@);
        }
        match generate_c_struct_field(field) {
            Some(line) => {
                proof {
                    assert(views(lines@.push(line)) =~= views(lines@).push(line@));
                }
                lines.push(line);
            },
            None => {},
        }
        i = i + 1;
    }
    proof {
        assert(struct_item@.fields.take(count as int) =~= struct_item@.fields);
    }
    let mut header = "typedef struct ".to_owned();
    header.append(tag);
    header.append(" {\n");
    header.append(join(&lines, "\n").as_str());
    header.append("\n} ");
    header.append(tag);
    header.append(";");
    header.append("\n");
    header.append(tag);
    header.append("* ");
    header.append(tag);
    header.append("_new();");
    header.append("\n");
    header.append("void ");
    header.append(tag);
    header.append("_free(");
    header.append(tag);
    header.append("* obj);");

    let mut wrapper = "\nuse alloc::boxed::Box;\nuse ".to_owned();
    wrapper.append(mod_name);
    wrapper.append("::");
    wrapper.append(name);
    wrapper.append(";\n\n#[no_mangle]\npub extern \"C\" fn ");
    wrapper.append(tag);
    wrapper.append("_new() -> *mut ");
    wrapper.append(name);
    wrapper.append(" {\n    Box::into_raw(Box::new(");
    wrapper.append(name);
    wrapper.append("::default()))\n}\n\n#[no_mangle]\npub extern \"C\" fn ");
    wrapper.append(tag);
    wrapper.append("_free(obj: *mut ");
    wrapper.append(name);
    wrapper.append(
        ") {\n    if !obj.is_null() {\n        unsafe {\n            let _ = Box::from_raw(obj);\n        }\n    }\n}\n",
    );
    (header, wrapper)
}

/// Generates the header and wrapper fragments of a struct. The tag is the
/// struct's name in snake case; the real struct is imported from `mod_name`.
/// A binding is always produced.
pub fn generate_c_struct_binding_and_rust_wrapper(struct_item: &StructDecl, mod_name: &str) -> (out:
    Option<(String, String)>)
    ensures
        out matches Some(pair) && pair.0@ == struct_header(
            struct_item@,
            snake_case_of(struct_item@.name),
        ) && pair.1@ == struct_wrapper(
            struct_item@,
            snake_case_of(struct_item@.name),
            mod_name@,
        ),
{
    let tag = to_snake(struct_item.name.as_str());
    Some(struct_binding_with_tag(struct_item, tag.as_str(), mod_name))
}

} // verus!
