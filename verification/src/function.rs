//! The function binding generator: one header declaration and one wrapper
//! definition for a free function.
//!
//! No function is rejected for a type that the mapper cannot classify: the
//! binding is produced with the opaque mapping, sound or not.

use vstd::prelude::*;
use vstd::string::*;
use crate::decl::{
    copy_type, FunctionDecl, FunctionView, Param, ParamView, SourceType, TypeView,
};
use crate::text::{join, join_spec, same_text, views};
use crate::types::{
    conversion_for, conversion_of, header_type, rust_type_to_c, rust_type_to_rust_extern_c,
    wrapper_type, Conversion,
};

verus! {

/// A parameter together with what the mapper makes of its type. It is derived
/// once for each parameter when a binding is generated, and kept no longer.
#[derive(Debug)]
pub struct Argument {
    pub name: String,
    pub ty: SourceType,
    pub c_ty: String,
    pub extern_c_ty: String,
}

/// The view of an [`Argument`].
pub struct ArgumentView {
    pub name: Seq<char>,
    pub ty: TypeView,
    pub c_ty: Seq<char>,
    pub extern_c_ty: Seq<char>,
}

impl View for Argument {
    type V = ArgumentView;

    open spec fn view(&self) -> ArgumentView {
        ArgumentView {
            name: self.name@,
            ty: self.ty@,
            c_ty: self.c_ty@,
            extern_c_ty: self.extern_c_ty@,
        }
    }
}

/// The argument that is derived from parameter `p`.
pub open spec fn argument_of(p: ParamView) -> ArgumentView {
    ArgumentView {
        name: p.name,
        ty: p.ty,
        c_ty: header_type(p.ty),
        extern_c_ty: wrapper_type(p.ty),
    }
}

/// The header's name for what a function returns.
pub open spec fn return_header(output: Option<TypeView>) -> Seq<char> {
    match output {
        None => "void"@,
        Some(ty) => header_type(ty),
    }
}

/// The wrapper's declared return type.
pub open spec fn return_wrapper(output: Option<TypeView>) -> Seq<char> {
    match output {
        None => "()"@,
        Some(ty) => wrapper_type(ty),
    }
}

/// The parameter slots of the header declaration: each parameter's header
/// type, then the reserved context slot, an opaque pointer.
pub open spec fn header_slots(params: Seq<ParamView>) -> Seq<Seq<char>> {
    params.map_values(|p: ParamView| header_type(p.ty)).push("void*"@)
}

/// The parameter slots of the wrapper definition: each parameter's name with
/// its wrapper type. There is no context slot on this side.
pub open spec fn wrapper_slots(params: Seq<ParamView>) -> Seq<Seq<char>> {
    params.map_values(|p: ParamView| p.name + ": "@ + wrapper_type(p.ty))
}

/// The parameters' names, in order.
pub open spec fn param_names(params: Seq<ParamView>) -> Seq<Seq<char>> {
    params.map_values(|p: ParamView| p.name)
}

/// The header declaration of `f`.
pub open spec fn header_declaration(f: FunctionView) -> Seq<char> {
    return_header(f.output) + " "@ + f.name + "("@ + join_spec(header_slots(f.params), ", "@)
        + ");"@
}

/// The statement that converts one argument inside the wrapper, by the
/// conversion that the mapper chooses for its type.
pub open spec fn argument_statement(a: ArgumentView) -> Seq<char> {
    match conversion_of(a.ty) {
        Conversion::TextCopy => "    let "@ + a.name + " = unsafe { std::ffi::CStr::from_ptr("@
            + a.name + ").to_string_lossy().into_owned() };\n"@,
        Conversion::BorrowedView => "    let "@ + a.name
            + " = unsafe { std::ffi::CStr::from_ptr("@ + a.name + ").to_str().unwrap() };\n"@,
        Conversion::Reinterpret => "    let "@ + a.name + " = unsafe { std::mem::transmute::<"@
            + a.extern_c_ty + ", _>("@ + a.name + ") };\n"@,
    }
}

/// The statement that converts one parameter inside the wrapper.
pub open spec fn conversion_statement(p: ParamView) -> Seq<char> {
    argument_statement(argument_of(p))
}

/// The conversion statements of all parameters, in declaration order.
pub open spec fn conversion_statements(params: Seq<ParamView>) -> Seq<char>
    decreases params.len(),
{
    if params.len() == 0 {
        Seq::empty()
    } else {
        conversion_statements(params.drop_last()) + conversion_statement(params.last())
    }
}

/// The opening of the wrapper: attribute, signature and the import of the
/// real function from `module`.
pub open spec fn wrapper_opening(f: FunctionView, module: Seq<char>) -> Seq<char> {
    "\n#[no_mangle]\npub extern \"C\" fn "@ + f.name + "("@ + join_spec(
        wrapper_slots(f.params),
        ", "@,
    ) + ") -> "@ + return_wrapper(f.output) + " {\n    use "@ + module + "::"@ + f.name + ";\n"@
}

/// The call of the real function with the converted parameters, by position.
pub open spec fn call_statement(f: FunctionView) -> Seq<char> {
    "    let result = "@ + f.name + "("@ + join_spec(param_names(f.params), ", "@) + ");\n"@
}

/// What the wrapper does with the result: nothing where the function returns
/// nothing; a new heap-allocated null-terminated buffer, handed to the caller,
/// where the return type maps to the text pointer; else a reinterpretation
/// into the declared return type.
pub open spec fn return_statement(output: Option<TypeView>) -> Seq<char> {
    match output {
        None => Seq::empty(),
        Some(ty) => if wrapper_type(ty) == "*mut core::ffi::c_char"@ {
            "    let result = std::ffi::CString::new(result).unwrap().into_raw();\n"@
                + "    result\n"@
        } else {
            "    unsafe { std::mem::transmute::<_, "@ + wrapper_type(ty) + ">(result) }\n"@
        },
    }
}

/// The wrapper definition of `f`, which imports the real function from
/// `module`.
pub open spec fn wrapper_definition(f: FunctionView, module: Seq<char>) -> Seq<char> {
    wrapper_opening(f, module) + conversion_statements(f.params) + call_statement(f)
        + return_statement(f.output) + "}\n"@
}

/// Derives the argument of a parameter.
pub fn argument_for(param: &Param) -> (out: Argument)
    ensures
        out@ == argument_of(param@),
{
    Argument {
        name: param.name.clone(),
        ty: copy_type(&param.ty),
        c_ty: rust_type_to_c(&param.ty),
        extern_c_ty: rust_type_to_rust_extern_c(&param.ty),
    }
}

/// Writes the conversion statement of one argument.
pub fn conversion_text(arg: &Argument) -> (out: String)
    ensures
        out@ == argument_statement(arg@),
{
    let name = arg.name.as_str();
    let mut out = "    let ".to_owned();
    out.append(name);
    match conversion_for(&arg.ty) {
        Conversion::TextCopy => {
            out.append(" = unsafe { std::ffi::CStr::from_ptr(");
            out.append(name);
            out.append(").to_string_lossy().into_owned() };\n");
        },
        Conversion::BorrowedView => {
            out.append(" = unsafe { std::ffi::CStr::from_ptr(");
            out.append(name);
            out.append(").to_str().unwrap() };\n");
        },
        Conversion::Reinterpret => {
            out.append(" = unsafe { std::mem::transmute::<");
            out.append(arg.extern_c_ty.as_str());
            out.append(", _>(");
            out.append(name);
            out.append(") };\n");
        },
    }
    out
}

/// Writes what the wrapper does with the result.
pub fn return_text(func: &FunctionDecl) -> (out: String)
    ensures
        out@ == return_statement(func@.output),
{
    match &func.output {
        None => String::new(),
        Some(ty) => {
            let foreign = rust_type_to_rust_extern_c(ty);
            if same_text(foreign.as_str(), "*mut core::ffi::c_char") {
                let mut out =
                    "    let result = std::ffi::CString::new(result).unwrap().into_raw();\n".to_owned();
                out.append("    result\n");
                out
            } else {
                let mut out = "    unsafe { std::mem::transmute::<_, ".to_owned();
                out.append(foreign.as_str());
                out.append(">(result) }\n");
                out
            }
        },
    }
}

/// Generates the header declaration and the wrapper definition of a free
/// function. `module_name` is the module from which the wrapper imports the
/// real function. A binding is always produced.
pub fn generate_c_binding_and_rust_wrapper(func: &FunctionDecl, module_name: &str) -> (out: Option<
    (String, String),
>)
    ensures
        out matches Some(pair) && pair.0@ == header_declaration(func@) && pair.1@
            == wrapper_definition(func@, module_name@),
{
    let name = func.name.as_str();
    let count = func.params.len();
    let mut header_parts: Vec<String> = Vec::new();
    let mut wrapper_parts: Vec<String> = Vec::new();
    let mut names: Vec<String> = Vec::new();
    let mut conversions = String::new();
    let mut i: usize = 0;
    while i < count
        invariant
            count == func.params.len(),
            i <= count,
            header_parts@.len() == i,
            wrapper_parts@.len() == i,
            names@.len() == i,
            views(header_parts@) == func@.params.take(i as int).map_values(
                |p: ParamView| header_type(p.ty),
            ),
            views(wrapper_parts@) == wrapper_slots(func@.params.take(i as int)),
            views(names@) == param_names(func@.params.take(i as int)),
            conversions@ == conversion_statements(func@.params.take(i as int)),
        decreases count - i,
    {
        let param = &func.params[i];
        let arg = argument_for(param);
        let mut slot = arg.name.clone();
        slot.append(": ");
        slot.append(arg.extern_c_ty.as_str());
        let statement = conversion_text(&arg);
        let header_ty = arg.c_ty;
        let arg_name = arg.name;
        proof {
            let before = func@.params.take(i as int);
            let after = func@.params.take(i as int + 1);
            assert(after.drop_last() =~= before);
            assert(after.last() == param@);
            assert(after =~= before.push(param@));
            assert(slot@ =~= param@.name + ": "@ + wrapper_type(param@.ty));
            assert forall|j: int| 0 <= j < i implies views(header_parts@.push(header_ty))[j]
                == header_type(after[j].ty) by {
                assert(views(header_parts@)[j] == header_type(before[j].ty));
            }
            assert(views(header_parts@.push(header_ty)) =~= after.map_values(
                |p: ParamView| header_type(p.ty),
            ));
            assert forall|j: int| 0 <= j < i implies views(wrapper_parts@.push(slot))[j]
                == wrapper_slots(after)[j] by {
                assert(views(wrapper_parts@)[j] == wrapper_slots(before)[j]);
            }
            assert(views(wrapper_parts@.push(slot)) =~= wrapper_slots(after));
            assert forall|j: int| 0 <= j < i implies views(names@.push(arg_name))[j]
                == param_names(after)[j] by {
                assert(views(names@)[j] == param_names(before)[j]);
            }
            assert(views(names@.push(arg_name)) =~= param_names(after));
        }
        header_parts.push(header_ty);
        wrapper_parts.push(slot);
        names.push(arg_name);
        conversions.append(statement.as_str());
        i = i + 1;
    }
    let context = "void*".to_owned();
    proof {
        assert(func@.params.take(count as int) =~= func@.params);
        assert(views(header_parts@.push(context)) =~= header_slots(func@.params));
    }
    header_parts.push(context);

    let mut header = match &func.output {
        None => "void".to_owned(),
        Some(ty) => rust_type_to_c(ty),
    };
    header.append(" ");
    header.append(name);
    header.append("(");
    header.append(join(&header_parts, ", ").as_str());
    header.append(");");

    let mut wrapper = "\n#[no_mangle]\npub extern \"C\" fn ".to_owned();
    wrapper.append(name);
    wrapper.append("(");
    wrapper.append(join(&wrapper_parts, ", ").as_str());
    wrapper.append(") -> ");
    let declared = match &func.output {
        None => "()".to_owned(),
        Some(ty) => rust_type_to_rust_extern_c(ty),
    };
    wrapper.append(declared.as_str());
    wrapper.append(" {\n    use ");
    wrapper.append(module_name);
    wrapper.append("::");
    wrapper.append(name);
    wrapper.append(";\n");
    assert(wrapper@ =~= wrapper_opening(func@, module_name@));
    wrapper.append(conversions.as_str());
    wrapper.append("    let result = ");
    wrapper.append(name);
    wrapper.append("(");
    wrapper.append(join(&names, ", ").as_str());
    wrapper.append(");\n");
    assert(wrapper@ =~= wrapper_opening(func@, module_name@) + conversion_statements(
        func@.params,
    ) + call_statement(func@));
    wrapper.append(return_text(func).as_str());
    wrapper.append("}\n");
    Some((header, wrapper))
}

} // verus!
