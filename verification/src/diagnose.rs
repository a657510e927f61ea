//! Diagnostics: what a run degraded without failing.
//!
//! Nothing recorded here changes the generated texts. A diagnostic says that
//! a module was passed over because it has no backing unit, that a field was
//! left out of a header struct, or that a type crosses the boundary as an
//! opaque value, so that the binding may be unsound.

use vstd::prelude::*;
use crate::decl::{FunctionDecl, FunctionView, StructDecl, StructView};
use crate::types::{is_recognized, recognizes};

verus! {

/// One degraded outcome of a run.
#[derive(Debug, PartialEq, Eq)]
pub enum Diagnostic {
    /// An entered module without a body has no backing unit under either
    /// naming convention; it contributed nothing.
    ModuleNotFound { module: String },
    /// The field at `position` of an exported struct has no name; it was left
    /// out of the header struct.
    FieldDropped { record: String, position: usize },
    /// The type of a parameter of an exported function is not known to the
    /// mapper.
    OpaqueParameter { function: String, parameter: String },
    /// The return type of an exported function is not known to the mapper.
    OpaqueResult { function: String },
    /// The type of a named field of an exported struct is not known to the
    /// mapper.
    OpaqueField { record: String, field: String },
}

/// The view of a [`Diagnostic`].
pub enum DiagnosticView {
    ModuleNotFound { module: Seq<char> },
    FieldDropped { record: Seq<char>, position: int },
    OpaqueParameter { function: Seq<char>, parameter: Seq<char> },
    OpaqueResult { function: Seq<char> },
    OpaqueField { record: Seq<char>, field: Seq<char> },
}

impl View for Diagnostic {
    type V = DiagnosticView;

    open spec fn view(&self) -> DiagnosticView {
        match self {
            Diagnostic::ModuleNotFound { module } => DiagnosticView::ModuleNotFound {
                module: module@,
            },
            Diagnostic::FieldDropped { record, position } => DiagnosticView::FieldDropped {
                record: record@,
                position: *position as int,
            },
            Diagnostic::OpaqueParameter { function, parameter } => DiagnosticView::OpaqueParameter {
                function: function@,
                parameter: parameter@,
            },
            Diagnostic::OpaqueResult { function } => DiagnosticView::OpaqueResult {
                function: function@,
            },
            Diagnostic::OpaqueField { record, field } => DiagnosticView::OpaqueField {
                record: record@,
                field: field@,
            },
        }
    }
}

/// The views of a list of diagnostics, in order.
pub open spec fn diagnostic_views(notes: Seq<Diagnostic>) -> Seq<DiagnosticView> {
    notes.map_values(|d: Diagnostic| d@)
}

/// The diagnostics of the first `upto` parameters of `f`, in order: one for
/// each whose type the mapper does not know.
pub open spec fn parameter_notes(f: FunctionView, upto: int) -> Seq<DiagnosticView>
    decreases upto,
{
    if 0 < upto <= f.params.len() {
        let p = f.params[upto - 1];
        if is_recognized(p.ty) {
            parameter_notes(f, upto - 1)
        } else {
            parameter_notes(f, upto - 1).push(
                DiagnosticView::OpaqueParameter { function: f.name, parameter: p.name },
            )
        }
    } else {
        Seq::empty()
    }
}

/// The diagnostics of an exported function: those of its parameters, then one
/// for its return type where the mapper does not know it.
pub open spec fn function_notes(f: FunctionView) -> Seq<DiagnosticView> {
    let params = parameter_notes(f, f.params.len() as int);
    match f.output {
        Some(ty) => if is_recognized(ty) {
            params
        } else {
            params.push(DiagnosticView::OpaqueResult { function: f.name })
        },
        None => params,
    }
}

/// The diagnostics of the first `upto` fields of `s`, in order: one for each
/// field without a name, and one for each named field whose type the mapper
/// does not know.
pub open spec fn field_notes(s: StructView, upto: int) -> Seq<DiagnosticView>
    decreases upto,
{
    if 0 < upto <= s.fields.len() {
        let field = s.fields[upto - 1];
        match field.name {
            None => field_notes(s, upto - 1).push(
                DiagnosticView::FieldDropped { record: s.name, position: upto - 1 },
            ),
            Some(name) => if is_recognized(field.ty) {
                field_notes(s, upto - 1)
            } else {
                field_notes(s, upto - 1).push(
                    DiagnosticView::OpaqueField { record: s.name, field: name },
                )
            },
        }
    } else {
        Seq::empty()
    }
}

/// The diagnostics of an exported struct.
pub open spec fn struct_notes(s: StructView) -> Seq<DiagnosticView> {
    field_notes(s, s.fields.len() as int)
}

/// Lists what the binding of an exported function degrades.
pub fn function_diagnostics(func: &FunctionDecl) -> (out: Vec<Diagnostic>)
    ensures
        diagnostic_views(out@) == function_notes(func@),
{
    let mut out: Vec<Diagnostic> = Vec::new();
    let count = func.params.len();
    let mut i: usize = 0;
    proof {
        assert(diagnostic_views(out@) =~= parameter_notes(func@, 0));
    }
    while i < count
        invariant
            count == func.params.len(),
            i <= count,
            diagnostic_views(out@) == parameter_notes(func@, i as int),
        decreases count - i,
    {
        let param = &func.params[i];
        assert(func@.params[i as int] == param@);
        if !recognizes(&param.ty) {
            let note = Diagnostic::OpaqueParameter {
                function: func.name.clone(),
                parameter: param.name.clone(),
            };
            proof {
                assert(diagnostic_views(out@.push(note)) =~= diagnostic_views(out@).push(note@));
            }
            out.push(note);
        }
        i = i + 1;
    }
    match &func.output {
        Some(ty) => {
            if !recognizes(ty) {
                let note = Diagnostic::OpaqueResult { function: func.name.clone() };
                proof {
                    assert(diagnostic_views(out@.push(note)) =~= diagnostic_views(out@).push(
                        note@,
                    ));
                }
                out.push(note);
            }
        },
        None => {},
    }
    out
}

/// Lists what the binding of an exported struct degrades.
pub fn struct_diagnostics(struct_item: &StructDecl) -> (out: Vec<Diagnostic>)
    ensures
        diagnostic_views(out@) == struct_notes(struct_item@),
{
    let mut out: Vec<Diagnostic> = Vec::new();
    let count = struct_item.fields.len();
    let mut i: usize = 0;
    proof {
        assert(diagnostic_views(out@) =~= field_notes(struct_item@, 0));
    }
    while i < count
        invariant
            count == struct_item.fields.len(),
            i <= count,
            diagnostic_views(out@) == field_notes(struct_item@, i as int),
        decreases count - i,
    {
        let field = &struct_item.fields[i];
        assert(struct_item@.fields[i as int] == field@);
        let note = match &field.name {
            None => Some(Diagnostic::FieldDropped { record: struct_item.name.clone(), position: i }),
            Some(name) => {
                if recognizes(&field.ty) {
                    None
                } else {
                    Some(
                        Diagnostic::OpaqueField {
                            record: struct_item.name.clone(),
                            field: name.clone(),
                        },
                    )
                }
            },
        };
        match note {
            Some(note) => {
                proof {
                    assert(diagnostic_views(out@.push(note)) =~= diagnostic_views(out@).push(
                        note@,
                    ));
                }
                out.push(note);
            },
            None => {},
        }
        i = i + 1;
    }
    out
}

} // verus!
