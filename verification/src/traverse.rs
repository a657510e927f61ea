//! The traversal engine: a depth-first walk of the declaration tree in
//! declaration order, which gathers the header and wrapper fragments of what
//! is exported and joins them, once, into the two output texts.
//!
//! A module contributes the fragments of its members, spliced in where the
//! module stands, and nothing of its own. The members of a module are
//! imported through the module's qualified name.

use vstd::prelude::*;
use vstd::string::*;
use crate::casing::{snake_case_of, to_snake};
use crate::decl::{
    decl_views, BodyView, DeclView, Declaration, ModuleBody, ModuleDecl, ModuleView,
};
use crate::diagnose::{
    diagnostic_views, function_diagnostics, function_notes, struct_diagnostics, struct_notes,
    Diagnostic, DiagnosticView,
};
use crate::resolve::{
    base_within, below, first_halt, flat_candidate, indices, item_halt, nested_candidate, Halt,
    ProbeRequest,
};
use crate::function::{generate_c_binding_and_rust_wrapper, header_declaration, wrapper_definition};
use crate::structs::{generate_c_struct_binding_and_rust_wrapper, struct_header, struct_wrapper};
use crate::text::{extended, join, join_spec, lemma_views_push, views};
use crate::visibility::{
    is_exported, is_public_function, is_public_mod, is_public_struct, is_recursable,
};

verus! {

/// What one emitted declaration contributes: a header fragment and a wrapper
/// fragment.
pub struct Artifact {
    pub header: Seq<char>,
    pub wrapper: Seq<char>,
}

/// The header fragments of a list of artifacts, in order.
pub open spec fn headers(parts: Seq<Artifact>) -> Seq<Seq<char>> {
    parts.map_values(|a: Artifact| a.header)
}

/// The wrapper fragments of a list of artifacts, in order.
pub open spec fn wrappers(parts: Seq<Artifact>) -> Seq<Seq<char>> {
    parts.map_values(|a: Artifact| a.wrapper)
}

/// The two texts that a list of artifacts joins into. The wrapper text opens
/// with one line that makes the allocation library known.
pub open spec fn joined(parts: Seq<Artifact>) -> Artifact {
    Artifact {
        header: join_spec(headers(parts), "\n"@),
        wrapper: "extern crate alloc;\n"@ + join_spec(wrappers(parts), "\n"@),
    }
}

/// The qualified name of module `name` inside the module whose qualified
/// name is `mod_name`.
pub open spec fn qualified(mod_name: Seq<char>, name: Seq<char>) -> Seq<char> {
    mod_name + "::"@ + name
}

/// The artifacts of the first `upto` declarations of `items`, in declaration
/// order. `inherited` says whether export is inherited from an entered
/// module; `mod_name` is the qualified name of the module that holds `items`.
pub open spec fn artifacts(
    items: Seq<DeclView>,
    upto: int,
    inherited: bool,
    mod_name: Seq<char>,
) -> Seq<Artifact>
    decreases items, upto,
{
    if 0 < upto <= items.len() {
        artifacts(items, upto - 1, inherited, mod_name) + item_artifacts(
            items[upto - 1],
            inherited,
            mod_name,
        )
    } else {
        Seq::empty()
    }
}

/// The artifacts of one declaration: one for an exported function or struct,
/// none for one that is not exported. A module that is not entered, or whose
/// backing unit is absent, gives none; an entered module gives the artifacts
/// of its members, all of which inherit export and are imported through the
/// module's qualified name.
pub open spec fn item_artifacts(item: DeclView, inherited: bool, mod_name: Seq<char>) -> Seq<
    Artifact,
>
    decreases item, 0int,
{
    match item {
        DeclView::Function(f) => if is_exported(f.visibility, inherited) {
            seq![
                Artifact {
                    header: header_declaration(f),
                    wrapper: wrapper_definition(f, mod_name),
                },
            ]
        } else {
            Seq::empty()
        },
        DeclView::Struct(s) => if is_exported(s.visibility, inherited) {
            seq![
                Artifact {
                    header: struct_header(s, snake_case_of(s.name)),
                    wrapper: struct_wrapper(s, snake_case_of(s.name), mod_name),
                },
            ]
        } else {
            Seq::empty()
        },
        DeclView::Module(m) => if is_recursable(m.visibility) {
            match m.body {
                BodyView::Inline(members) => artifacts(
                    members,
                    members.len() as int,
                    true,
                    qualified(mod_name, m.name),
                ),
                BodyView::Loaded { nested, items } => artifacts(
                    items,
                    items.len() as int,
                    true,
                    qualified(mod_name, m.name),
                ),
                _ => Seq::empty(),
            }
        } else {
            Seq::empty()
        },
    }
}

/// The two texts of a list of declarations.
pub open spec fn texts(items: Seq<DeclView>, inherited: bool, mod_name: Seq<char>) -> Artifact {
    joined(artifacts(items, items.len() as int, inherited, mod_name))
}

/// The diagnostics of the first `upto` declarations of `items`, in
/// declaration order.
pub open spec fn notes(items: Seq<DeclView>, upto: int, inherited: bool) -> Seq<DiagnosticView>
    decreases items, upto,
{
    if 0 < upto <= items.len() {
        notes(items, upto - 1, inherited) + item_notes(items[upto - 1], inherited)
    } else {
        Seq::empty()
    }
}

/// The diagnostics of one declaration: those of its binding for an exported
/// function or struct; those of its members for an entered module; one for an
/// entered module whose backing unit is absent. What is not exported or not
/// entered has none.
pub open spec fn item_notes(item: DeclView, inherited: bool) -> Seq<DiagnosticView>
    decreases item, 0int,
{
    match item {
        DeclView::Function(f) => if is_exported(f.visibility, inherited) {
            function_notes(f)
        } else {
            Seq::empty()
        },
        DeclView::Struct(s) => if is_exported(s.visibility, inherited) {
            struct_notes(s)
        } else {
            Seq::empty()
        },
        DeclView::Module(m) => if is_recursable(m.visibility) {
            match m.body {
                BodyView::Inline(members) => notes(members, members.len() as int, true),
                BodyView::Loaded { nested, items } => notes(items, items.len() as int, true),
                BodyView::Absent => seq![DiagnosticView::ModuleNotFound { module: m.name }],
                _ => Seq::empty(),
            }
        } else {
            Seq::empty()
        },
    }
}

/// What the walk of a list of declarations gathered.
#[derive(Debug)]
pub enum Gathering {
    /// The walk was completed: the header fragments and the wrapper
    /// fragments, one of each for every emitted declaration, and what was
    /// degraded on the way.
    Gathered { headers: Vec<String>, wrappers: Vec<String>, diagnostics: Vec<Diagnostic> },
    /// A candidate path has to be looked at first.
    Pending(ProbeRequest),
    /// A backing unit exists and could not be read.
    Unreadable,
    /// A backing unit is no list of declarations.
    Unparsable,
}

/// The view of a [`Gathering`].
pub enum GatheringView {
    Gathered { headers: Seq<Seq<char>>, wrappers: Seq<Seq<char>>, notes: Seq<DiagnosticView> },
    Halted(Halt),
}

impl View for Gathering {
    type V = GatheringView;

    open spec fn view(&self) -> GatheringView {
        match self {
            Gathering::Gathered { headers, wrappers, diagnostics } => GatheringView::Gathered {
                headers: views(headers@),
                wrappers: views(wrappers@),
                notes: diagnostic_views(diagnostics@),
            },
            Gathering::Pending(request) => GatheringView::Halted(request@),
            Gathering::Unreadable => GatheringView::Halted(Halt::Unreadable),
            Gathering::Unparsable => GatheringView::Halted(Halt::Unparsable),
        }
    }
}

/// What the walk of `items` under the base directory `base` gathers: the
/// first halt that it meets, or, where it meets none, the fragments of the
/// artifacts and the diagnostics.
pub open spec fn gathering(
    items: Seq<DeclView>,
    base: Seq<Seq<char>>,
    inherited: bool,
    mod_name: Seq<char>,
) -> GatheringView {
    match first_halt(items, 0, base) {
        Some(halt) => GatheringView::Halted(halt),
        None => GatheringView::Gathered {
            headers: headers(artifacts(items, items.len() as int, inherited, mod_name)),
            wrappers: wrappers(artifacts(items, items.len() as int, inherited, mod_name)),
            notes: notes(items, items.len() as int, inherited),
        },
    }
}

/// What entering module `m` under the base directory `base` gathers: what
/// the walk of its members gathers, with export inherited and under the
/// module's qualified name, where it has a body or its backing unit was
/// loaded; a request for the candidate that is next where a look is due; the
/// failure where the unit cannot be used; and nothing, softly, where there is
/// no unit under either convention.
pub open spec fn module_gathering(m: ModuleView, base: Seq<Seq<char>>, mod_name: Seq<char>) -> Option<
    GatheringView,
> {
    match m.body {
        BodyView::Inline(members) => Some(
            gathering(members, base, true, qualified(mod_name, m.name)),
        ),
        BodyView::Unprobed => Some(
            GatheringView::Halted(
                Halt::Probe { location: Seq::empty(), path: flat_candidate(base, m.name) },
            ),
        ),
        BodyView::FlatAbsent => Some(
            GatheringView::Halted(
                Halt::Probe { location: Seq::empty(), path: nested_candidate(base, m.name) },
            ),
        ),
        BodyView::Absent => None,
        BodyView::Unreadable => Some(GatheringView::Halted(Halt::Unreadable)),
        BodyView::Unparsable => Some(GatheringView::Halted(Halt::Unparsable)),
        BodyView::Loaded { nested, items } => Some(
            gathering(
                items,
                base_within(base, m.name, nested),
                true,
                qualified(mod_name, m.name),
            ),
        ),
    }
}

/// The result of a run.
#[derive(Debug)]
pub enum Generation {
    /// The run was completed: the header text, the wrapper text, and what
    /// was degraded on the way.
    Complete { header: String, wrapper: String, diagnostics: Vec<Diagnostic> },
    /// A candidate path has to be looked at first. There is no partial output.
    Pending(ProbeRequest),
    /// A backing unit exists and could not be read: the run is aborted.
    Unreadable,
    /// A backing unit is no list of declarations: the run is aborted.
    Unparsable,
}

/// The view of a [`Generation`].
pub enum GenerationView {
    Complete(Artifact, Seq<DiagnosticView>),
    Halted(Halt),
}

impl View for Generation {
    type V = GenerationView;

    open spec fn view(&self) -> GenerationView {
        match self {
            Generation::Complete { header, wrapper, diagnostics } => GenerationView::Complete(
                Artifact { header: header@, wrapper: wrapper@ },
                diagnostic_views(diagnostics@),
            ),
            Generation::Pending(request) => GenerationView::Halted(request@),
            Generation::Unreadable => GenerationView::Halted(Halt::Unreadable),
            Generation::Unparsable => GenerationView::Halted(Halt::Unparsable),
        }
    }
}

/// What a run over `items` under the base directory `base` results in, with
/// a module name that is in snake case already: the first halt that the walk
/// meets, or, where it meets none, the two texts joined from the artifacts,
/// and the diagnostics.
pub open spec fn emission(
    items: Seq<DeclView>,
    base: Seq<Seq<char>>,
    inherited: bool,
    mod_name: Seq<char>,
) -> GenerationView {
    match first_halt(items, 0, base) {
        Some(halt) => GenerationView::Halted(halt),
        None => GenerationView::Complete(
            texts(items, inherited, mod_name),
            notes(items, items.len() as int, inherited),
        ),
    }
}

/// What a run over `items` under the base directory `base` results in. The
/// name of the module that holds `items` is taken in snake case.
pub open spec fn generation(
    items: Seq<DeclView>,
    base: Seq<Seq<char>>,
    inherited: bool,
    mod_name: Seq<char>,
) -> GenerationView {
    emission(items, base, inherited, snake_case_of(mod_name))
}

/// A halt met inside the declaration at `index`, seen from the list that
/// holds it.
fn halted_below(inner: Gathering, index: usize) -> (out: Gathering)
    requires
        inner@ is Halted,
    ensures
        out@ == GatheringView::Halted(below(inner@->Halted_0, index as int)),
{
    match inner {
        Gathering::Pending(request) => {
            let ProbeRequest { location, path } = request;
            let mut location = location;
            location.insert(0, index);
            proof {
                assert(indices(location@) =~= seq![index as int] + indices(request.location@));
            }
            Gathering::Pending(ProbeRequest { location, path })
        },
        other => other,
    }
}

/// Traverses a list of declarations and generates the header text and the
/// wrapper text of what it exports. `parent_public` says whether export is
/// inherited from an entered module, `base_path` is the directory under which
/// the backing units of modules without a body are looked for. `mod_name` is
/// the qualified name of the module that holds the declarations, for the root
/// of a crate the crate's name; it is put into snake case, and every wrapper
/// imports what it wraps through it. Neither text depends on `crate_name`.
pub fn generate_c_api_and_rust_exports(
    syntax_tree: &Vec<Declaration>,
    base_path: &Vec<String>,
    parent_public: bool,
    crate_name: &str,
    mod_name: &str,
) -> (out: Generation)
    ensures
        out@ == generation(
            decl_views(syntax_tree@),
            views(base_path@),
            parent_public,
            mod_name@,
        ),
{
    let mod_name = to_snake(mod_name);
    emit_declarations(syntax_tree, base_path, parent_public, mod_name.as_str())
}

/// Traverses a list of declarations under a module name that is in snake
/// case already, and joins what the walk gathered into the two texts.
pub fn emit_declarations(
    items: &Vec<Declaration>,
    base: &Vec<String>,
    inherited: bool,
    mod_name: &str,
) -> (out: Generation)
    ensures
        out@ == emission(decl_views(items@), views(base@), inherited, mod_name@),
{
    match gather_declarations(items, base, inherited, mod_name) {
        Gathering::Gathered { headers, wrappers, diagnostics } => {
            let header = join(&headers, "\n");
            let mut wrapper = "extern crate alloc;\n".to_owned();
            wrapper.append(join(&wrappers, "\n").as_str());
            Generation::Complete { header, wrapper, diagnostics }
        },
        Gathering::Pending(request) => Generation::Pending(request),
        Gathering::Unreadable => Generation::Unreadable,
        Gathering::Unparsable => Generation::Unparsable,
    }
}

/// Resolves the backing unit of a module without a body and walks it. The
/// unit is looked for under `base_path` as `name.rs`, then as `name/mod.rs`;
/// the result is a request for the look that is due, the failure where the
/// unit exists and cannot be used, and `None` where neither candidate exists.
/// The members of a unit that was loaded are walked with export inherited,
/// under the module's qualified name, and with the directory that holds the
/// unit as the base. A module with a body needs no unit: its members are
/// walked in place.
pub fn process_external_mod_and_generate_rust(
    module: &ModuleDecl,
    base_path: &Vec<String>,
    mod_name: &str,
) -> (out: Option<Gathering>)
    ensures
        match module_gathering(module@, views(base_path@), mod_name@) {
            Some(result) => out matches Some(given) && given@ == result,
            None => out is None,
        },
    decreases module, 0int,
{
    let mut inner_name = mod_name.to_owned();
    inner_name.append("::");
    inner_name.append(module.name.as_str());
    match &module.body {
        ModuleBody::Inline(members) => Some(
            gather_declarations(members, base_path, true, inner_name.as_str()),
        ),
        ModuleBody::Unprobed => {
            let mut file = module.name.clone();
            file.append(".rs");
            let request = ProbeRequest { location: Vec::new(), path: extended(base_path, file) };
            proof {
                assert(indices(request.location@) =~= Seq::<int>::empty());
            }
            Some(Gathering::Pending(request))
        },
        ModuleBody::FlatAbsent => {
            let directory = extended(base_path, module.name.clone());
            let request = ProbeRequest {
                location: Vec::new(),
                path: extended(&directory, "mod.rs".to_owned()),
            };
            proof {
                assert(indices(request.location@) =~= Seq::<int>::empty());
            }
            Some(Gathering::Pending(request))
        },
        ModuleBody::Absent => None,
        ModuleBody::Unreadable => Some(Gathering::Unreadable),
        ModuleBody::Unparsable => Some(Gathering::Unparsable),
        ModuleBody::Loaded { nested, items: members } => {
            if *nested {
                let directory = extended(base_path, module.name.clone());
                Some(gather_declarations(members, &directory, true, inner_name.as_str()))
            } else {
                Some(gather_declarations(members, base_path, true, inner_name.as_str()))
            }
        },
    }
}

/// Walks a list of declarations, depth first and in declaration order, and
/// gathers the fragments of what it exports. `mod_name` is the qualified name
/// of the module that holds the declarations.
pub fn gather_declarations(
    items: &Vec<Declaration>,
    base: &Vec<String>,
    inherited: bool,
    mod_name: &str,
) -> (out: Gathering)
    ensures
        out@ == gathering(decl_views(items@), views(base@), inherited, mod_name@),
    decreases items, 0int,
{
    let ghost all = decl_views(items@);
    let ghost root = views(base@);
    let count = items.len();
    let mut headers_out: Vec<String> = Vec::new();
    let mut wrappers_out: Vec<String> = Vec::new();
    let mut diagnostics: Vec<Diagnostic> = Vec::new();
    let mut i: usize = 0;
    proof {
        assert(diagnostic_views(diagnostics@) =~= notes(all, 0, inherited));
        assert(views(headers_out@) =~= headers(artifacts(all, 0, inherited, mod_name@)));
        assert(views(wrappers_out@) =~= wrappers(artifacts(all, 0, inherited, mod_name@)));
    }
    while i < count
        invariant
            count == items.len(),
            all == decl_views(items@),
            root == views(base@),
            i <= count,
            first_halt(all, 0, root) == first_halt(all, i as int, root),
            views(headers_out@) == headers(artifacts(all, i as int, inherited, mod_name@)),
            views(wrappers_out@) == wrappers(artifacts(all, i as int, inherited, mod_name@)),
            diagnostic_views(diagnostics@) == notes(all, i as int, inherited),
        decreases count - i,
    {
        let ghost sofar = artifacts(all, i as int, inherited, mod_name@);
        let ghost added = item_artifacts(all[i as int], inherited, mod_name@);
        let ghost noted = item_notes(all[i as int], inherited);
        let mut more_headers: Vec<String> = Vec::new();
        let mut more_wrappers: Vec<String> = Vec::new();
        let mut more: Vec<Diagnostic> = Vec::new();
        proof {
            assert(diagnostic_views(more@) =~= Seq::<DiagnosticView>::empty());
            assert(views(more_headers@) =~= headers(Seq::<Artifact>::empty()));
            assert(views(more_wrappers@) =~= wrappers(Seq::<Artifact>::empty()));
        }
        match &items[i] {
            Declaration::Function(func) => {
                if is_public_function(func, inherited) {
                    match generate_c_binding_and_rust_wrapper(func, mod_name) {
                        Some((header, wrapper)) => {
                            proof {
                                lemma_views_push(more_headers@, header);
                                lemma_views_push(more_wrappers@, wrapper);
                                assert(headers(added) =~= seq![header@]);
                                assert(wrappers(added) =~= seq![wrapper@]);
                            }
                            more_headers.push(header);
                            more_wrappers.push(wrapper);
                        },
                        None => {},
                    }
                    more = function_diagnostics(func);
                }
            },
            Declaration::Struct(struct_item) => {
                if is_public_struct(struct_item, inherited) {
                    match generate_c_struct_binding_and_rust_wrapper(struct_item, mod_name) {
                        Some((header, wrapper)) => {
                            proof {
                                lemma_views_push(more_headers@, header);
                                lemma_views_push(more_wrappers@, wrapper);
                                assert(headers(added) =~= seq![header@]);
                                assert(wrappers(added) =~= seq![wrapper@]);
                            }
                            more_headers.push(header);
                            more_wrappers.push(wrapper);
                        },
                        None => {},
                    }
                    more = struct_diagnostics(struct_item);
                }
            },
            Declaration::Module(module) => {
                if is_public_mod(module) {
                    match process_external_mod_and_generate_rust(module, base, mod_name) {
                        None => {
                            let note = Diagnostic::ModuleNotFound { module: module.name.clone() };
                            proof {
                                assert(diagnostic_views(more@.push(note)) =~= seq![note@]);
                            }
                            more.push(note);
                        },
                        Some(Gathering::Gathered { headers, wrappers, diagnostics: inside }) => {
                            more_headers = headers;
                            more_wrappers = wrappers;
                            more = inside;
                        },
                        Some(halted) => {
                            return halted_below(halted, i);
                        },
                    }
                }
            },
        }
        proof {
            assert(item_halt(all[i as int], root) is None);
            assert(artifacts(all, i as int + 1, inherited, mod_name@) == sofar + added);
            assert(views(more_headers@) == headers(added));
            assert(views(more_wrappers@) == wrappers(added));
            assert(diagnostic_views(more@) == noted);
            assert(views(headers_out@ + more_headers@) =~= views(headers_out@) + views(
                more_headers@,
            ));
            assert(views(wrappers_out@ + more_wrappers@) =~= views(wrappers_out@) + views(
                more_wrappers@,
            ));
            assert(headers(sofar + added) =~= headers(sofar) + headers(added));
            assert(wrappers(sofar + added) =~= wrappers(sofar) + wrappers(added));
            assert(diagnostic_views(diagnostics@ + more@) =~= diagnostic_views(diagnostics@)
                + diagnostic_views(more@));
        }
        headers_out.append(&mut more_headers);
        wrappers_out.append(&mut more_wrappers);
        diagnostics.append(&mut more);
        i = i + 1;
    }
    Gathering::Gathered { headers: headers_out, wrappers: wrappers_out, diagnostics }
}

} // verus!
