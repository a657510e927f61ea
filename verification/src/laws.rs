//! Laws of the generator, stated over the models of the other modules and
//! proved from their definitions.

use vstd::prelude::*;
use crate::casing::snake_case_of;
use crate::decl::{BodyView, DeclView, FunctionView, ModuleView, Visibility};
use crate::diagnose::{function_notes, parameter_notes, DiagnosticView};
use crate::function::{
    call_statement, conversion_statements, header_declaration, header_slots, return_header,
    return_statement, return_wrapper, wrapper_definition, wrapper_slots,
};
use crate::resolve::{
    advanced, base_within, below, first_halt, item_halt, recorded, Halt, ProbeView,
};
use crate::text::join_spec;
use crate::traverse::{
    artifacts, generation, headers, item_artifacts, item_notes, joined, notes, qualified, texts,
    wrappers, Artifact, GenerationView,
};
use crate::types::is_recognized;
use crate::visibility::is_exported;

verus! {

/// A list of one artifact joins into that artifact's header, and into its
/// wrapper behind the opening line.
pub proof fn lemma_joined_single(only: Artifact)
    ensures
        joined(seq![only]) == (Artifact {
            header: only.header,
            wrapper: "extern crate alloc;\n"@ + only.wrapper,
        }),
{
    assert(headers(seq![only]) =~= seq![only.header]);
    assert(wrappers(seq![only]) =~= seq![only.wrapper]);
}

/// The artifacts of a list of one declaration are the artifacts of that
/// declaration.
pub proof fn lemma_artifacts_single(
    item: DeclView,
    inherited: bool,
    mod_name: Seq<char>,
)
    ensures
        artifacts(seq![item], 1, inherited, mod_name) == item_artifacts(
            item,
            inherited,
            mod_name,
        ),
{
    let items = seq![item];
    assert(artifacts(items, 0, inherited, mod_name) =~= Seq::<Artifact>::empty());
    assert(artifacts(items, 1, inherited, mod_name) =~= item_artifacts(
        items[0],
        inherited,
        mod_name,
    ));
}

/// The diagnostics of a list of one declaration are the diagnostics of that
/// declaration.
pub proof fn lemma_notes_single(item: DeclView, inherited: bool)
    ensures
        notes(seq![item], 1, inherited) == item_notes(item, inherited),
{
    let items = seq![item];
    assert(notes(items, 0, inherited) =~= Seq::<DiagnosticView>::empty());
    assert(notes(items, 1, inherited) =~= item_notes(items[0], inherited));
}

/// Whether the mapper knows every parameter type of `f` and its return type,
/// if it has one.
pub open spec fn fully_mapped(f: FunctionView) -> bool {
    &&& forall|i: int| 0 <= i < f.params.len() ==> is_recognized(#[trigger] f.params[i].ty)
    &&& f.output matches Some(ty) ==> is_recognized(ty)
}

/// Parameters whose types the mapper knows have no diagnostics.
pub proof fn lemma_mapped_parameters_have_no_notes(f: FunctionView, upto: int)
    requires
        forall|i: int| 0 <= i < f.params.len() ==> is_recognized(#[trigger] f.params[i].ty),
    ensures
        parameter_notes(f, upto) == Seq::<DiagnosticView>::empty(),
    decreases upto,
{
    if 0 < upto <= f.params.len() {
        lemma_mapped_parameters_have_no_notes(f, upto - 1);
        assert(is_recognized(f.params[upto - 1].ty));
    }
}

/// A declaration that has no artifacts can be taken out of a list without a
/// change to the artifacts of the list.
pub proof fn lemma_artifacts_without(
    items: Seq<DeclView>,
    index: int,
    upto: int,
    inherited: bool,
    mod_name: Seq<char>,
)
    requires
        0 <= index < items.len(),
        0 <= upto <= items.len(),
        item_artifacts(items[index], inherited, mod_name) == Seq::<Artifact>::empty(),
    ensures
        artifacts(items, upto, inherited, mod_name) == artifacts(
            items.remove(index),
            if upto > index {
                upto - 1
            } else {
                upto
            },
            inherited,
            mod_name,
        ),
    decreases upto,
{
    let rest = items.remove(index);
    if upto > 0 {
        lemma_artifacts_without(items, index, upto - 1, inherited, mod_name);
        let before = artifacts(items, upto - 1, inherited, mod_name);
        if upto - 1 < index {
            assert(rest[upto - 1] == items[upto - 1]);
        } else if upto - 1 == index {
            assert(before + Seq::<Artifact>::empty() =~= before);
        } else {
            assert(rest[upto - 2] == items[upto - 1]);
        }
    }
}

/// A declaration that has no diagnostics can be taken out of a list without
/// a change to the diagnostics of the list.
pub proof fn lemma_notes_without(items: Seq<DeclView>, index: int, upto: int, inherited: bool)
    requires
        0 <= index < items.len(),
        0 <= upto <= items.len(),
        item_notes(items[index], inherited) == Seq::<DiagnosticView>::empty(),
    ensures
        notes(items, upto, inherited) == notes(
            items.remove(index),
            if upto > index {
                upto - 1
            } else {
                upto
            },
            inherited,
        ),
    decreases upto,
{
    let rest = items.remove(index);
    if upto > 0 {
        lemma_notes_without(items, index, upto - 1, inherited);
        let before = notes(items, upto - 1, inherited);
        if upto - 1 < index {
            assert(rest[upto - 1] == items[upto - 1]);
        } else if upto - 1 == index {
            assert(before + Seq::<DiagnosticView>::empty() =~= before);
        } else {
            assert(rest[upto - 2] == items[upto - 1]);
        }
    }
}

/// An exported function yields exactly one artifact: one header declaration
/// and one wrapper definition. Both carry the function's name in front of
/// their parameter list, and the header declaration has exactly one slot more
/// than the wrapper definition, the context slot. A run over an exported
/// function alone gives that declaration as the header text, and no
/// diagnostic where the mapper knows all the function's types.
pub proof fn law_exported_function_has_one_binding(
    f: FunctionView,
    inherited: bool,
    base: Seq<Seq<char>>,
    mod_name: Seq<char>,
)
    requires
        is_exported(f.visibility, inherited),
    ensures
        item_artifacts(DeclView::Function(f), inherited, mod_name) == seq![
            Artifact {
                header: header_declaration(f),
                wrapper: wrapper_definition(f, mod_name),
            },
        ],
        header_declaration(f) == return_header(f.output) + " "@ + f.name + "("@ + join_spec(
            header_slots(f.params),
            ", "@,
        ) + ");"@,
        wrapper_definition(f, mod_name) == "\n#[no_mangle]\npub extern \"C\" fn "@ + f.name + "("@
            + join_spec(wrapper_slots(f.params), ", "@) + (") -> "@ + return_wrapper(f.output)
            + " {\n    use "@ + mod_name + "::"@ + f.name + ";\n"@ + conversion_statements(
            f.params,
        ) + call_statement(f) + return_statement(f.output) + "}\n"@),
        header_slots(f.params).len() == wrapper_slots(f.params).len() + 1,
        wrapper_slots(f.params).len() == f.params.len(),
        generation(seq![DeclView::Function(f)], base, inherited, mod_name)
            == GenerationView::Complete(
            Artifact {
                header: header_declaration(f),
                wrapper: "extern crate alloc;\n"@ + wrapper_definition(
                    f,
                    snake_case_of(mod_name),
                ),
            },
            function_notes(f),
        ),
        fully_mapped(f) ==> function_notes(f) == Seq::<DiagnosticView>::empty(),
{
    lemma_notes_single(DeclView::Function(f), inherited);
    if fully_mapped(f) {
        lemma_mapped_parameters_have_no_notes(f, f.params.len() as int);
    }
    let item = DeclView::Function(f);
    let items = seq![item];
    let tail = ") -> "@ + return_wrapper(f.output) + " {\n    use "@ + mod_name + "::"@ + f.name
        + ";\n"@ + conversion_statements(f.params) + call_statement(f) + return_statement(
        f.output,
    ) + "}\n"@;
    assert(wrapper_definition(f, mod_name) =~= "\n#[no_mangle]\npub extern \"C\" fn "@ + f.name
        + "("@ + join_spec(wrapper_slots(f.params), ", "@) + tail);
    assert(item_halt(item, base) is None);
    assert(first_halt(items, 1, base) is None);
    assert(first_halt(items, 0, base) is None);
    lemma_artifacts_single(item, inherited, snake_case_of(mod_name));
    lemma_joined_single(
        Artifact {
            header: header_declaration(f),
            wrapper: wrapper_definition(f, snake_case_of(mod_name)),
        },
    );
}

/// The result of a run is determined by the declarations, the base
/// directory, the inherited flag and the two names: two results that both
/// meet the contract of a run on the same inputs are the same, text for text.
pub proof fn law_runs_agree(
    items: Seq<DeclView>,
    base: Seq<Seq<char>>,
    inherited: bool,
    mod_name: Seq<char>,
    first: GenerationView,
    second: GenerationView,
)
    requires
        first == generation(items, base, inherited, mod_name),
        second == generation(items, base, inherited, mod_name),
    ensures
        first == second,
        first matches GenerationView::Complete(a, _) ==> second matches GenerationView::Complete(
            b,
            _,
        ) && a.header == b.header && a.wrapper == b.wrapper,
{
}

/// A module without a public marker is not entered, whatever it holds and
/// whether or not export is inherited from the modules around it: it has no
/// artifacts and no diagnostics, no unit is looked for on its account, and the
/// two texts and the diagnostics of a list are those of the list without it.
pub proof fn law_unmarked_module_is_skipped(
    items: Seq<DeclView>,
    index: int,
    inherited: bool,
    base: Seq<Seq<char>>,
    mod_name: Seq<char>,
)
    requires
        0 <= index < items.len(),
        items[index] matches DeclView::Module(m) && m.visibility == Visibility::Private,
    ensures
        item_artifacts(items[index], inherited, mod_name) == Seq::<Artifact>::empty(),
        item_notes(items[index], inherited) == Seq::<DiagnosticView>::empty(),
        item_halt(items[index], base) is None,
        texts(items, inherited, mod_name) == texts(
            items.remove(index),
            inherited,
            mod_name,
        ),
        notes(items, items.len() as int, inherited) == notes(
            items.remove(index),
            items.len() - 1,
            inherited,
        ),
{
    lemma_notes_without(items, index, items.len() as int, inherited);
    assert(item_artifacts(items[index], inherited, mod_name) =~= Seq::<
        Artifact,
    >::empty());
    lemma_artifacts_without(
        items,
        index,
        items.len() as int,
        inherited,
        mod_name,
    );
}

/// The artifacts of a list do not depend on what follows the declarations
/// that are counted.
pub proof fn lemma_artifacts_prefix(
    first: Seq<DeclView>,
    second: Seq<DeclView>,
    upto: int,
    inherited: bool,
    mod_name: Seq<char>,
)
    requires
        0 <= upto <= first.len(),
    ensures
        artifacts(first + second, upto, inherited, mod_name) == artifacts(
            first,
            upto,
            inherited,
            mod_name,
        ),
    decreases upto,
{
    if upto > 0 {
        lemma_artifacts_prefix(first, second, upto - 1, inherited, mod_name);
        assert((first + second)[upto - 1] == first[upto - 1]);
    }
}

/// The artifacts of two lists, one behind the other, are the artifacts of the
/// first and then those of the second: fragments are gathered strictly in
/// declaration order.
pub proof fn lemma_artifacts_concat(
    first: Seq<DeclView>,
    second: Seq<DeclView>,
    upto: int,
    inherited: bool,
    mod_name: Seq<char>,
)
    requires
        0 <= upto <= second.len(),
    ensures
        artifacts(first + second, first.len() + upto, inherited, mod_name) == artifacts(
            first,
            first.len() as int,
            inherited,
            mod_name,
        ) + artifacts(second, upto, inherited, mod_name),
    decreases upto,
{
    let whole = first + second;
    let head = artifacts(first, first.len() as int, inherited, mod_name);
    if upto == 0 {
        lemma_artifacts_prefix(first, second, first.len() as int, inherited, mod_name);
        assert(head + Seq::<Artifact>::empty() =~= head);
    } else {
        lemma_artifacts_concat(first, second, upto - 1, inherited, mod_name);
        assert(whole[first.len() + upto - 1] == second[upto - 1]);
        let tail = artifacts(second, upto - 1, inherited, mod_name);
        let last = item_artifacts(second[upto - 1], inherited, mod_name);
        assert((head + tail) + last =~= head + (tail + last));
    }
}

/// The members of an entered module, whether they stand in its body or in the
/// unit that backs it.
pub open spec fn members_of(m: ModuleView) -> Seq<DeclView> {
    match m.body {
        BodyView::Inline(members) => members,
        BodyView::Loaded { nested, items } => items,
        _ => Seq::empty(),
    }
}

/// An entered module contributes the artifacts of its members and nothing of
/// its own: they are spliced in where the module stands, between what comes
/// before it and what comes after it, and they are generated under the
/// module's qualified name. A module without members leaves no trace in
/// either text.
pub proof fn law_module_is_spliced_in_place(
    before: Seq<DeclView>,
    m: ModuleView,
    after: Seq<DeclView>,
    inherited: bool,
    mod_name: Seq<char>,
)
    requires
        m.visibility == Visibility::Public,
        m.body is Inline || m.body is Loaded,
    ensures
        artifacts(
            before + seq![DeclView::Module(m)] + after,
            (before.len() + 1 + after.len()) as int,
            inherited,
            mod_name,
        ) == artifacts(before, before.len() as int, inherited, mod_name) + artifacts(
            members_of(m),
            members_of(m).len() as int,
            true,
            qualified(mod_name, m.name),
        ) + artifacts(after, after.len() as int, inherited, mod_name),
        members_of(m).len() == 0 ==> texts(
            before + seq![DeclView::Module(m)] + after,
            inherited,
            mod_name,
        ) == texts(before + after, inherited, mod_name),
{
    let item = DeclView::Module(m);
    let front = before + seq![item];
    lemma_artifacts_concat(front, after, after.len() as int, inherited, mod_name);
    lemma_artifacts_concat(before, seq![item], 1, inherited, mod_name);
    lemma_artifacts_single(item, inherited, mod_name);
    if members_of(m).len() == 0 {
        lemma_artifacts_concat(before, after, after.len() as int, inherited, mod_name);
        let head = artifacts(before, before.len() as int, inherited, mod_name);
        assert(head + Seq::<Artifact>::empty() =~= head);
    }
}

/// A run over an entered module without members gives what a run over
/// nothing gives: the module adds no fragment and no second opening line.
pub proof fn law_empty_module_leaves_no_trace(
    m: ModuleView,
    base: Seq<Seq<char>>,
    inherited: bool,
    mod_name: Seq<char>,
)
    requires
        m.visibility == Visibility::Public,
        m.body == BodyView::Inline(Seq::<DeclView>::empty()),
    ensures
        generation(seq![DeclView::Module(m)], base, inherited, mod_name) == generation(
            Seq::<DeclView>::empty(),
            base,
            inherited,
            mod_name,
        ),
{
    let item = DeclView::Module(m);
    let items = seq![item];
    let name = snake_case_of(mod_name);
    assert(item_halt(item, base) is None);
    assert(first_halt(items, 1, base) is None);
    assert(first_halt(items, 0, base) is None);
    lemma_artifacts_single(item, inherited, name);
    lemma_notes_single(item, inherited);
    assert(artifacts(Seq::<DeclView>::empty(), 0, inherited, name) =~= artifacts(
        items,
        1,
        inherited,
        name,
    ));
    assert(notes(Seq::<DeclView>::empty(), 0, inherited) =~= notes(items, 1, inherited));
}

/// A module with a public marker is entered whether or not export is
/// inherited, and every function among its members is exported, its own
/// marker notwithstanding, and imported through the module's qualified name.
/// A run over a public module that holds one function gives that function's
/// binding, whatever the function's marker.
pub proof fn law_entered_module_exports_every_member(
    m: ModuleView,
    members: Seq<DeclView>,
    f: FunctionView,
    inherited: bool,
    base: Seq<Seq<char>>,
    mod_name: Seq<char>,
)
    requires
        m.visibility == Visibility::Public,
        m.body == BodyView::Inline(members),
    ensures
        item_artifacts(DeclView::Module(m), inherited, mod_name) == artifacts(
            members,
            members.len() as int,
            true,
            qualified(mod_name, m.name),
        ),
        item_artifacts(DeclView::Function(f), true, qualified(mod_name, m.name)) == seq![
            Artifact {
                header: header_declaration(f),
                wrapper: wrapper_definition(f, qualified(mod_name, m.name)),
            },
        ],
        members == seq![DeclView::Function(f)] ==> generation(
            seq![DeclView::Module(m)],
            base,
            inherited,
            mod_name,
        ) == GenerationView::Complete(
            Artifact {
                header: header_declaration(f),
                wrapper: "extern crate alloc;\n"@ + wrapper_definition(
                    f,
                    qualified(snake_case_of(mod_name), m.name),
                ),
            },
            function_notes(f),
        ),
{
    if members == seq![DeclView::Function(f)] {
        let item = DeclView::Module(m);
        let items = seq![item];
        let inner = qualified(snake_case_of(mod_name), m.name);
        assert(item_halt(members[0], base) is None);
        assert(first_halt(members, 1, base) is None);
        assert(first_halt(members, 0, base) is None);
        assert(item_halt(item, base) is None);
        assert(first_halt(items, 1, base) is None);
        assert(first_halt(items, 0, base) is None);
        lemma_artifacts_single(item, inherited, snake_case_of(mod_name));
        lemma_artifacts_single(DeclView::Function(f), true, inner);
        lemma_notes_single(item, inherited);
        lemma_notes_single(DeclView::Function(f), true);
        lemma_joined_single(
            Artifact { header: header_declaration(f), wrapper: wrapper_definition(f, inner) },
        );
    }
}

/// A module without a body whose unit is absent under both naming
/// conventions halts nothing and contributes nothing: the two texts of a list
/// are those of the list without it. Where the module is entered, one
/// diagnostic records that it was passed over. Two looks that find nothing
/// leave a module in that state.
pub proof fn law_absent_module_contributes_nothing(
    items: Seq<DeclView>,
    index: int,
    inherited: bool,
    base: Seq<Seq<char>>,
    mod_name: Seq<char>,
)
    requires
        0 <= index < items.len(),
        items[index] matches DeclView::Module(m) && m.body == BodyView::Absent,
    ensures
        item_artifacts(items[index], inherited, mod_name) == Seq::<Artifact>::empty(),
        item_halt(items[index], base) is None,
        items[index]->Module_0.visibility == Visibility::Public ==> item_notes(
            items[index],
            inherited,
        ) == seq![DiagnosticView::ModuleNotFound { module: items[index]->Module_0.name }],
        texts(items, inherited, mod_name) == texts(
            items.remove(index),
            inherited,
            mod_name,
        ),
        advanced(advanced(BodyView::Unprobed, ProbeView::Absent), ProbeView::Absent)
            == BodyView::Absent,
{
    assert(item_artifacts(items[index], inherited, mod_name) =~= Seq::<
        Artifact,
    >::empty());
    lemma_artifacts_without(
        items,
        index,
        items.len() as int,
        inherited,
        mod_name,
    );
}

/// Where nothing before it halts the traversal, the first halt of a list is
/// that of the declaration at `index`.
pub proof fn lemma_first_halt_at(items: Seq<DeclView>, index: int, from: int, base: Seq<Seq<char>>)
    requires
        0 <= from <= index < items.len(),
        forall|j: int| from <= j < index ==> item_halt(#[trigger] items[j], base) is None,
        item_halt(items[index], base) is Some,
    ensures
        first_halt(items, from, base) == Some(
            below(item_halt(items[index], base)->Some_0, index),
        ),
    decreases index - from,
{
    if from < index {
        assert(item_halt(items[from], base) is None);
        lemma_first_halt_at(items, index, from + 1, base);
    }
}

/// An entered module whose unit exists and cannot be read, or is no list of
/// declarations, aborts the whole run, where the traversal reaches it: there
/// are no texts, whatever the rest of the list would give. A look that finds
/// such a unit leaves the module in that state.
pub proof fn law_unusable_module_aborts(
    items: Seq<DeclView>,
    index: int,
    inherited: bool,
    base: Seq<Seq<char>>,
    mod_name: Seq<char>,
)
    requires
        0 <= index < items.len(),
        items[index] matches DeclView::Module(m) && m.visibility == Visibility::Public && (m.body
            == BodyView::Unparsable || m.body == BodyView::Unreadable),
        forall|j: int| 0 <= j < index ==> item_halt(#[trigger] items[j], base) is None,
    ensures
        generation(items, base, inherited, mod_name) == GenerationView::Halted(
            if items[index]->Module_0.body == BodyView::Unparsable {
                Halt::Unparsable
            } else {
                Halt::Unreadable
            },
        ),
        forall|body: BodyView|
            body == BodyView::Unprobed || body == BodyView::FlatAbsent ==> advanced(
                body,
                ProbeView::Unparsable,
            ) == BodyView::Unparsable && advanced(body, ProbeView::Unreadable)
                == BodyView::Unreadable,
{
    lemma_first_halt_at(items, index, 0, base);
}

/// The halt that a look which found an unusable unit leaves behind.
pub open spec fn failure_of(outcome: ProbeView) -> Halt {
    if outcome == ProbeView::Unreadable {
        Halt::Unreadable
    } else {
        Halt::Unparsable
    }
}

/// Where the traversal from `from` on halts with a request, and the look finds
/// a unit that cannot be used, the traversal of the tree with that outcome
/// recorded halts with the failure.
pub proof fn lemma_failed_look_halts(
    items: Seq<DeclView>,
    from: int,
    base: Seq<Seq<char>>,
    location: Seq<int>,
    path: Seq<Seq<char>>,
    outcome: ProbeView,
)
    requires
        0 <= from,
        first_halt(items, from, base) == Some(Halt::Probe { location, path }),
        outcome == ProbeView::Unreadable || outcome == ProbeView::Unparsable,
    ensures
        first_halt(recorded(items, location, outcome), from, base) == Some(failure_of(outcome)),
    decreases items, items.len() - from,
{
    let after = recorded(items, location, outcome);
    if from < items.len() {
        match item_halt(items[from], base) {
            None => {
                lemma_failed_look_halts(items, from + 1, base, location, path, outcome);
                lemma_first_index(items, from + 1, base);
                assert(after[from] == items[from]);
            },
            Some(inner) => {
                assert(below(inner, from) == Halt::Probe { location, path });
                let inner_location = inner->Probe_location;
                assert(location =~= seq![from] + inner_location);
                assert(location.drop_first() =~= inner_location);
                let m = items[from]->Module_0;
                match m.body {
                    BodyView::Inline(members) => {
                        lemma_first_index(members, 0, base);
                        lemma_failed_look_halts(members, 0, base, inner_location, path, outcome);
                    },
                    BodyView::Loaded { nested, items: members } => {
                        let within = base_within(base, m.name, nested);
                        lemma_first_index(members, 0, within);
                        lemma_failed_look_halts(members, 0, within, inner_location, path, outcome);
                    },
                    _ => {},
                }
                assert(item_halt(after[from], base) == Some(failure_of(outcome)));
            },
        }
    }
}

/// A request that the traversal from `from` on halts with leads through a
/// declaration at or after `from`.
pub proof fn lemma_first_index(items: Seq<DeclView>, from: int, base: Seq<Seq<char>>)
    requires
        0 <= from,
    ensures
        first_halt(items, from, base) matches Some(Halt::Probe { location, .. })
            ==> location.len() > 0 && from <= location[0] < items.len(),
    decreases items.len() - from,
{
    if from < items.len() {
        if item_halt(items[from], base) is None {
            lemma_first_index(items, from + 1, base);
        }
    }
}

/// A look that finds a unit which cannot be read, or which is no list of
/// declarations, aborts the run: once the outcome is recorded at the place
/// that asked, the run ends with the failure and without texts.
pub proof fn law_failed_look_aborts(
    items: Seq<DeclView>,
    base: Seq<Seq<char>>,
    inherited: bool,
    mod_name: Seq<char>,
    location: Seq<int>,
    path: Seq<Seq<char>>,
    outcome: ProbeView,
)
    requires
        generation(items, base, inherited, mod_name) == GenerationView::Halted(
            Halt::Probe { location, path },
        ),
        outcome == ProbeView::Unreadable || outcome == ProbeView::Unparsable,
    ensures
        generation(recorded(items, location, outcome), base, inherited, mod_name)
            == GenerationView::Halted(failure_of(outcome)),
{
    lemma_failed_look_halts(items, 0, base, location, path, outcome);
}

} // verus!
