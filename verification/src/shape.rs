//! The shape of a function's binding, counted in the texts themselves: where
//! the names that go into them are plain, the header fragment holds exactly
//! one declaration and the wrapper fragment exactly one definition.

use vstd::prelude::*;
use crate::decl::{FunctionView, ParamView, TypeView};
use crate::function::{
    call_statement, conversion_statement, conversion_statements, header_declaration,
    header_slots, param_names, return_header, return_statement, return_wrapper,
    wrapper_definition, wrapper_opening, wrapper_slots,
};
use crate::text::join_spec;
use crate::types::{header_type, wrapper_type};

verus! {

/// Whether `text` holds no `c`.
pub open spec fn lacks(text: Seq<char>, c: char) -> bool {
    forall|i: int| 0 <= i < text.len() ==> text[i] != c
}

/// Whether `c` is one of the marks by which declarations are counted: the
/// semicolon, the hash sign and the double quote.
pub open spec fn is_mark(c: char) -> bool {
    c == ';' || c == '#' || c == '"'
}

/// Whether `text` holds none of the marks, as every identifier does.
pub open spec fn is_plain(text: Seq<char>) -> bool {
    lacks(text, ';') && lacks(text, '#') && lacks(text, '"')
}

/// Whether the name by which the mapper knows `ty`, if it has one, is plain.
pub open spec fn is_plain_type(ty: TypeView) -> bool {
    ty matches TypeView::Named(head) ==> is_plain(head)
}

/// Whether every name that goes into the binding of `f` is plain.
pub open spec fn is_plain_function(f: FunctionView) -> bool {
    &&& is_plain(f.name)
    &&& forall|i: int|
        0 <= i < f.params.len() ==> is_plain((#[trigger] f.params[i]).name) && is_plain_type(
            f.params[i].ty,
        )
    &&& f.output matches Some(ty) ==> is_plain_type(ty)
}

/// Whether `pattern` stands in `text` at index `at`.
pub open spec fn occurs_at(text: Seq<char>, pattern: Seq<char>, at: int) -> bool {
    0 <= at && at + pattern.len() <= text.len() && text.subrange(at, at + pattern.len())
        == pattern
}

/// Two texts, one behind the other, lack a character where both lack it.
pub proof fn lemma_lacks_concat(first: Seq<char>, second: Seq<char>, c: char)
    ensures
        lacks(first + second, c) <==> lacks(first, c) && lacks(second, c),
{
    if lacks(first + second, c) {
        assert forall|i: int| 0 <= i < first.len() implies first[i] != c by {
            assert((first + second)[i] == first[i]);
        }
        assert forall|i: int| 0 <= i < second.len() implies second[i] != c by {
            assert((first + second)[first.len() + i] == second[i]);
        }
    }
}

/// Joined fragments lack a character that the fragments and the separator
/// lack.
pub proof fn lemma_lacks_join(parts: Seq<Seq<char>>, sep: Seq<char>, c: char)
    requires
        forall|k: int| 0 <= k < parts.len() ==> lacks(#[trigger] parts[k], c),
        lacks(sep, c),
    ensures
        lacks(join_spec(parts, sep), c),
    decreases parts.len(),
{
    if parts.len() == 1 {
        assert(lacks(parts[0], c));
    } else if parts.len() > 1 {
        let rest = parts.drop_last();
        assert forall|k: int| 0 <= k < rest.len() implies lacks(#[trigger] rest[k], c) by {
            assert(rest[k] == parts[k]);
        }
        lemma_lacks_join(rest, sep, c);
        assert(lacks(parts.last(), c));
        lemma_lacks_concat(join_spec(rest, sep), sep, c);
        lemma_lacks_concat(join_spec(rest, sep) + sep, parts.last(), c);
    }
}

/// The header type of a plain type holds no mark.
pub proof fn lemma_header_type_plain(ty: TypeView, c: char)
    requires
        is_mark(c),
        is_plain_type(ty),
    ensures
        lacks(header_type(ty), c),
{
    reveal_strlit("int");
    reveal_strlit("double");
    reveal_strlit("unsigned int");
    reveal_strlit("bool");
    reveal_strlit("char*");
    reveal_strlit("void*");
    reveal_strlit("*");
    match ty {
        TypeView::Named(head) => {
            lemma_lacks_concat(head, "*"@, c);
        },
        _ => {},
    }
}

/// The wrapper type of a plain type holds no mark.
pub proof fn lemma_wrapper_type_plain(ty: TypeView, c: char)
    requires
        is_mark(c),
        is_plain_type(ty),
    ensures
        lacks(wrapper_type(ty), c),
{
    reveal_strlit("*mut core::ffi::c_char");
    reveal_strlit("*mut cor:::ffi::c_void");
    reveal_strlit("*mut core::ffi::c_void");
    reveal_strlit("void");
}

/// The header of what a plain function returns holds no mark.
pub proof fn lemma_return_header_plain(f: FunctionView, c: char)
    requires
        is_mark(c),
        is_plain_function(f),
    ensures
        lacks(return_header(f.output), c),
{
    reveal_strlit("void");
    match f.output {
        Some(ty) => {
            lemma_header_type_plain(ty, c);
        },
        None => {},
    }
}

/// The parameter slots of a plain function's header declaration, joined,
/// hold no mark.
pub proof fn lemma_header_slots_plain(f: FunctionView, c: char)
    requires
        is_mark(c),
        is_plain_function(f),
    ensures
        lacks(join_spec(header_slots(f.params), ", "@), c),
{
    reveal_strlit("void*");
    reveal_strlit(", ");
    let slots = header_slots(f.params);
    assert forall|k: int| 0 <= k < slots.len() implies lacks(#[trigger] slots[k], c) by {
        if k < f.params.len() {
            assert(is_plain_type(f.params[k].ty));
            lemma_header_type_plain(f.params[k].ty, c);
        }
    }
    lemma_lacks_join(slots, ", "@, c);
}

/// The header declaration of a plain function in front of its closing `);`.
pub open spec fn header_front(f: FunctionView) -> Seq<char> {
    return_header(f.output) + " "@ + f.name + "("@ + join_spec(header_slots(f.params), ", "@)
}

/// The header declaration of a plain function holds no semicolon in front of
/// its closing `);`.
pub proof fn lemma_header_front_plain(f: FunctionView)
    requires
        is_plain_function(f),
    ensures
        lacks(header_front(f), ';'),
        header_declaration(f) == header_front(f) + ");"@,
{
    reveal_strlit(" ");
    reveal_strlit("(");
    lemma_return_header_plain(f, ';');
    lemma_header_slots_plain(f, ';');
    let a = return_header(f.output);
    lemma_lacks_concat(a, " "@, ';');
    lemma_lacks_concat(a + " "@, f.name, ';');
    lemma_lacks_concat(a + " "@ + f.name, "("@, ';');
    lemma_lacks_concat(
        a + " "@ + f.name + "("@,
        join_spec(header_slots(f.params), ", "@),
        ';',
    );
}

/// The header fragment of a function whose names are plain holds exactly
/// one declaration: it ends in `);`, and its one semicolon is its last
/// character.
pub proof fn law_header_holds_one_declaration(f: FunctionView)
    requires
        is_plain_function(f),
    ensures
        occurs_at(header_declaration(f), ");"@, header_declaration(f).len() - 2),
        forall|at: int|
            occurs_at(header_declaration(f), ";"@, at) <==> at == header_declaration(f).len() - 1,
{
    let front = header_front(f);
    let whole = header_declaration(f);
    lemma_header_front_plain(f);
    reveal_strlit(");");
    reveal_strlit(";");
    assert(whole.len() == front.len() + 2);
    assert(whole.subrange(whole.len() - 2, whole.len() as int) =~= ");"@);
    assert(whole.subrange(whole.len() - 1, whole.len() as int) =~= ";"@);
    assert forall|at: int| occurs_at(whole, ";"@, at) implies at == whole.len() - 1 by {
        assert(whole.subrange(at, at + 1)[0] == ';');
        assert(whole[at] == ';');
        if at < front.len() {
            assert(whole[at] == front[at]);
        } else if at == front.len() {
            assert(whole[at] == ");"@[0]);
        }
    }
}

/// Texts put one behind the other lack a character where each lacks it.
pub proof fn lemma_lacks_concat_all(c: char)
    ensures
        forall|first: Seq<char>, second: Seq<char>| #[trigger]
            lacks(first + second, c) <==> lacks(first, c) && lacks(second, c),
{
    assert forall|first: Seq<char>, second: Seq<char>| #[trigger]
        lacks(first + second, c) <==> lacks(first, c) && lacks(second, c) by {
        lemma_lacks_concat(first, second, c);
    }
}

/// The conversion statement of a plain parameter holds neither a hash sign
/// nor a double quote.
pub proof fn lemma_conversion_statement_plain(p: ParamView, c: char)
    requires
        c == '#' || c == '"',
        is_plain(p.name),
        is_plain_type(p.ty),
    ensures
        lacks(conversion_statement(p), c),
{
    reveal_strlit("    let ");
    reveal_strlit(" = unsafe { std::ffi::CStr::from_ptr(");
    reveal_strlit(").to_string_lossy().into_owned() };\n");
    reveal_strlit(").to_str().unwrap() };\n");
    reveal_strlit(" = unsafe { std::mem::transmute::<");
    reveal_strlit(", _>(");
    reveal_strlit(") };\n");
    lemma_wrapper_type_plain(p.ty, c);
    lemma_lacks_concat_all(c);
}

/// The conversion statements of plain parameters hold neither a hash sign
/// nor a double quote.
pub proof fn lemma_conversion_statements_plain(params: Seq<ParamView>, c: char)
    requires
        c == '#' || c == '"',
        forall|i: int|
            0 <= i < params.len() ==> is_plain((#[trigger] params[i]).name) && is_plain_type(
                params[i].ty,
            ),
    ensures
        lacks(conversion_statements(params), c),
    decreases params.len(),
{
    if params.len() > 0 {
        let rest = params.drop_last();
        assert forall|i: int| 0 <= i < rest.len() implies is_plain((#[trigger] rest[i]).name)
            && is_plain_type(rest[i].ty) by {
            assert(rest[i] == params[i]);
        }
        lemma_conversion_statements_plain(rest, c);
        assert(is_plain(params[params.len() - 1].name));
        lemma_conversion_statement_plain(params.last(), c);
        lemma_lacks_concat(conversion_statements(rest), conversion_statement(params.last()), c);
    }
}

/// The call of a plain function holds neither a hash sign nor a double
/// quote.
pub proof fn lemma_call_statement_plain(f: FunctionView, c: char)
    requires
        c == '#' || c == '"',
        is_plain_function(f),
    ensures
        lacks(call_statement(f), c),
{
    reveal_strlit("    let result = ");
    reveal_strlit("(");
    reveal_strlit(", ");
    reveal_strlit(");\n");
    let names = param_names(f.params);
    assert forall|k: int| 0 <= k < names.len() implies lacks(#[trigger] names[k], c) by {
        assert(is_plain(f.params[k].name));
    }
    lemma_lacks_join(names, ", "@, c);
    lemma_lacks_concat_all(c);
}

/// What the wrapper of a plain function does with the result holds neither
/// a hash sign nor a double quote.
pub proof fn lemma_return_statement_plain(f: FunctionView, c: char)
    requires
        c == '#' || c == '"',
        is_plain_function(f),
    ensures
        lacks(return_statement(f.output), c),
{
    reveal_strlit("    let result = std::ffi::CString::new(result).unwrap().into_raw();\n");
    reveal_strlit("    result\n");
    reveal_strlit("    unsafe { std::mem::transmute::<_, ");
    reveal_strlit(">(result) }\n");
    match f.output {
        Some(ty) => {
            lemma_wrapper_type_plain(ty, c);
        },
        None => {},
    }
    lemma_lacks_concat_all(c);
}

/// The signature of the wrapper definition behind the words that open it,
/// with the import of the real function.
pub open spec fn wrapper_head(f: FunctionView, module: Seq<char>) -> Seq<char> {
    f.name + "("@ + join_spec(wrapper_slots(f.params), ", "@) + ") -> "@ + return_wrapper(
        f.output,
    ) + " {\n    use "@ + module + "::"@ + f.name + ";\n"@
}

/// The statements of the wrapper definition, with the brace that closes it.
pub open spec fn wrapper_body(f: FunctionView) -> Seq<char> {
    conversion_statements(f.params) + call_statement(f) + return_statement(f.output) + "}\n"@
}

/// The wrapper definition of a function behind the attribute and the words
/// that open it.
pub open spec fn wrapper_rest(f: FunctionView, module: Seq<char>) -> Seq<char> {
    wrapper_head(f, module) + wrapper_body(f)
}

/// The parameter slots of a plain function's wrapper definition, joined,
/// hold no mark.
pub proof fn lemma_wrapper_slots_plain(f: FunctionView, c: char)
    requires
        is_mark(c),
        is_plain_function(f),
    ensures
        lacks(join_spec(wrapper_slots(f.params), ", "@), c),
{
    reveal_strlit(", ");
    reveal_strlit(": ");
    let slots = wrapper_slots(f.params);
    assert forall|k: int| 0 <= k < slots.len() implies lacks(#[trigger] slots[k], c) by {
        let p = f.params[k];
        assert(is_plain(p.name));
        lemma_wrapper_type_plain(p.ty, c);
        lemma_lacks_concat(p.name, ": "@, c);
        lemma_lacks_concat(p.name + ": "@, wrapper_type(p.ty), c);
    }
    lemma_lacks_join(slots, ", "@, c);
}

/// The declared return type of a plain function's wrapper holds no mark.
pub proof fn lemma_return_wrapper_plain(f: FunctionView, c: char)
    requires
        is_mark(c),
        is_plain_function(f),
    ensures
        lacks(return_wrapper(f.output), c),
{
    reveal_strlit("()");
    match f.output {
        Some(ty) => {
            lemma_wrapper_type_plain(ty, c);
        },
        None => {},
    }
}

/// The signature and the import of a plain function's wrapper hold neither
/// a hash sign nor a double quote behind the words that open it.
pub proof fn lemma_wrapper_head_plain(f: FunctionView, module: Seq<char>, c: char)
    requires
        c == '#' || c == '"',
        is_plain_function(f),
        is_plain(module),
    ensures
        lacks(wrapper_head(f, module), c),
{
    reveal_strlit("(");
    reveal_strlit(") -> ");
    reveal_strlit(" {\n    use ");
    reveal_strlit("::");
    reveal_strlit(";\n");
    lemma_wrapper_slots_plain(f, c);
    lemma_return_wrapper_plain(f, c);
    let t1 = f.name + "("@;
    lemma_lacks_concat(f.name, "("@, c);
    let t2 = t1 + join_spec(wrapper_slots(f.params), ", "@);
    lemma_lacks_concat(t1, join_spec(wrapper_slots(f.params), ", "@), c);
    let t3 = t2 + ") -> "@;
    lemma_lacks_concat(t2, ") -> "@, c);
    let t4 = t3 + return_wrapper(f.output);
    lemma_lacks_concat(t3, return_wrapper(f.output), c);
    let t5 = t4 + " {\n    use "@;
    lemma_lacks_concat(t4, " {\n    use "@, c);
    let t6 = t5 + module;
    lemma_lacks_concat(t5, module, c);
    let t7 = t6 + "::"@;
    lemma_lacks_concat(t6, "::"@, c);
    let t8 = t7 + f.name;
    lemma_lacks_concat(t7, f.name, c);
    lemma_lacks_concat(t8, ";\n"@, c);
}

/// The statements of a plain function's wrapper hold neither a hash sign
/// nor a double quote.
pub proof fn lemma_wrapper_body_plain(f: FunctionView, c: char)
    requires
        c == '#' || c == '"',
        is_plain_function(f),
    ensures
        lacks(wrapper_body(f), c),
{
    reveal_strlit("}\n");
    lemma_conversion_statements_plain(f.params, c);
    lemma_call_statement_plain(f, c);
    lemma_return_statement_plain(f, c);
    let t1 = conversion_statements(f.params) + call_statement(f);
    lemma_lacks_concat(conversion_statements(f.params), call_statement(f), c);
    let t2 = t1 + return_statement(f.output);
    lemma_lacks_concat(t1, return_statement(f.output), c);
    lemma_lacks_concat(t2, "}\n"@, c);
}

/// The wrapper definition is made of the words that open it and of what
/// stands behind them.
pub proof fn lemma_wrapper_split(f: FunctionView, module: Seq<char>)
    ensures
        wrapper_definition(f, module) == "\n#[no_mangle]\npub extern \"C\" fn "@ + wrapper_rest(
            f,
            module,
        ),
{
    assert(wrapper_opening(f, module) =~= "\n#[no_mangle]\npub extern \"C\" fn "@
        + wrapper_head(f, module));
    assert(wrapper_definition(f, module) =~= wrapper_opening(f, module) + wrapper_body(f));
    assert(("\n#[no_mangle]\npub extern \"C\" fn "@ + wrapper_head(f, module)) + wrapper_body(f)
        =~= "\n#[no_mangle]\npub extern \"C\" fn "@ + (wrapper_head(f, module) + wrapper_body(
        f,
    )));
}

/// Behind the attribute and the words that open it, the wrapper definition
/// of a plain function holds neither a hash sign nor a double quote.
pub proof fn lemma_wrapper_rest_plain(f: FunctionView, module: Seq<char>, c: char)
    requires
        c == '#' || c == '"',
        is_plain_function(f),
        is_plain(module),
    ensures
        lacks(wrapper_rest(f, module), c),
        wrapper_definition(f, module) == "\n#[no_mangle]\npub extern \"C\" fn "@ + wrapper_rest(
            f,
            module,
        ),
{
    lemma_wrapper_head_plain(f, module, c);
    lemma_wrapper_body_plain(f, c);
    lemma_lacks_concat(wrapper_head(f, module), wrapper_body(f), c);
    lemma_wrapper_split(f, module);
}

/// The wrapper fragment of a function whose names are plain, imported from a
/// module whose name is plain, holds exactly one definition: the attribute
/// `#[no_mangle]` stands in it once, at its start behind a line break, and
/// the words `extern "C" fn` stand in it once, behind the attribute.
pub proof fn law_wrapper_holds_one_definition(f: FunctionView, module: Seq<char>)
    requires
        is_plain_function(f),
        is_plain(module),
    ensures
        forall|at: int| occurs_at(wrapper_definition(f, module), "#[no_mangle]"@, at) <==> at == 1,
        forall|at: int|
            occurs_at(wrapper_definition(f, module), "extern \"C\" fn"@, at) <==> at == 18,
{
    let intro = "\n#[no_mangle]\npub extern \"C\" fn "@;
    let rest = wrapper_rest(f, module);
    let whole = wrapper_definition(f, module);
    let attribute = "#[no_mangle]"@;
    let words = "extern \"C\" fn"@;
    lemma_wrapper_rest_plain(f, module, '#');
    lemma_wrapper_rest_plain(f, module, '"');
    reveal_strlit("\n#[no_mangle]\npub extern \"C\" fn ");
    reveal_strlit("#[no_mangle]");
    reveal_strlit("extern \"C\" fn");
    assert(whole.subrange(1, 13) =~= attribute);
    assert(whole.subrange(18, 31) =~= words);
    assert forall|at: int| occurs_at(whole, attribute, at) implies at == 1 by {
        assert(whole.subrange(at, at + 12)[0] == '#');
        assert(whole[at] == '#');
        if at >= intro.len() {
            assert(whole[at] == rest[at - intro.len()]);
        } else {
            assert(whole[at] == intro[at]);
        }
    }
    assert forall|at: int| occurs_at(whole, words, at) implies at == 18 by {
        assert(whole.subrange(at, at + 13)[7] == '"');
        assert(whole.subrange(at, at + 13)[9] == '"');
        assert(whole[at + 7] == '"');
        assert(whole[at + 9] == '"');
        if at + 7 >= intro.len() {
            assert(whole[at + 7] == rest[at + 7 - intro.len()]);
        } else {
            assert(whole[at + 7] == intro[at + 7]);
        }
        if at + 9 >= intro.len() {
            assert(whole[at + 9] == rest[at + 9 - intro.len()]);
        } else {
            assert(whole[at + 9] == intro[at + 9]);
        }
    }
}

} // verus!
