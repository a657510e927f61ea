//! The module resolver: where the backing source unit of a module without a
//! body is looked for, and what the traversal makes of what was found.
//!
//! The library reads no storage itself. A traversal that needs a unit halts
//! with a request that names the candidate path; the caller looks, and records
//! what it found in the tree. The candidates of a module `name` under a base
//! directory are `name.rs`, then `name/mod.rs`. A unit that is found is
//! traversed with the directory that holds it as the base.

use vstd::prelude::*;
use vstd::string::*;
use crate::decl::{
    body_view, decl_views, BodyView, DeclView, Declaration, ModuleBody, ModuleDecl, ModuleView,
};
use crate::text::views;
use crate::visibility::is_recursable;

verus! {

/// What a look at one candidate path found.
#[derive(Debug)]
pub enum Probe {
    /// Nothing exists at the path.
    Absent,
    /// Something exists at the path and could not be read.
    Unreadable,
    /// The unit was read and is no list of declarations.
    Unparsable,
    /// The unit holds these declarations.
    Loaded(Vec<Declaration>),
}

/// The view of a [`Probe`].
pub enum ProbeView {
    Absent,
    Unreadable,
    Unparsable,
    Loaded(Seq<DeclView>),
}

impl View for Probe {
    type V = ProbeView;

    open spec fn view(&self) -> ProbeView {
        match self {
            Probe::Absent => ProbeView::Absent,
            Probe::Unreadable => ProbeView::Unreadable,
            Probe::Unparsable => ProbeView::Unparsable,
            Probe::Loaded(items) => ProbeView::Loaded(decl_views(items@)),
        }
    }
}

/// A request to look at one candidate path. `location` leads to the module
/// that asks: the index of a declaration in the top-level list, then of one
/// among its members, and so on. `path` holds the components of the candidate
/// path, the base directory's first.
#[derive(Debug)]
pub struct ProbeRequest {
    pub location: Vec<usize>,
    pub path: Vec<String>,
}

/// The indices of a location, as integers.
pub open spec fn indices(location: Seq<usize>) -> Seq<int> {
    location.map_values(|i: usize| i as int)
}

impl View for ProbeRequest {
    type V = Halt;

    open spec fn view(&self) -> Halt {
        Halt::Probe { location: indices(self.location@), path: views(self.path@) }
    }
}

/// Why a traversal cannot be completed.
pub enum Halt {
    /// A candidate path has to be looked at.
    Probe { location: Seq<int>, path: Seq<Seq<char>> },
    /// A backing unit exists and could not be read.
    Unreadable,
    /// A backing unit is no list of declarations.
    Unparsable,
}

/// The first candidate of module `name` under `base`: `name.rs`.
pub open spec fn flat_candidate(base: Seq<Seq<char>>, name: Seq<char>) -> Seq<Seq<char>> {
    base.push(name + ".rs"@)
}

/// The second candidate of module `name` under `base`: `name/mod.rs`.
pub open spec fn nested_candidate(base: Seq<Seq<char>>, name: Seq<char>) -> Seq<Seq<char>> {
    base.push(name).push("mod.rs"@)
}

/// The base directory for the members of module `name`, found under `base`:
/// the directory that holds the unit.
pub open spec fn base_within(base: Seq<Seq<char>>, name: Seq<char>, nested: bool) -> Seq<
    Seq<char>,
> {
    if nested {
        base.push(name)
    } else {
        base
    }
}

/// A halt inside the declaration at `index`, seen from the list that holds
/// the declaration.
pub open spec fn below(halt: Halt, index: int) -> Halt {
    match halt {
        Halt::Probe { location, path } => Halt::Probe {
            location: seq![index] + location,
            path,
        },
        other => other,
    }
}

/// The first halt that a traversal of `items` meets at or after the
/// declaration at `from`, in declaration order and depth first; `None` where
/// it meets none.
pub open spec fn first_halt(items: Seq<DeclView>, from: int, base: Seq<Seq<char>>) -> Option<
    Halt,
>
    decreases items, items.len() - from,
{
    if 0 <= from < items.len() {
        match item_halt(items[from], base) {
            Some(halt) => Some(below(halt, from)),
            None => first_halt(items, from + 1, base),
        }
    } else {
        None
    }
}

/// The first halt inside one declaration. Only a module that is entered can
/// halt a traversal: by a candidate that was not looked at yet, by a unit that
/// cannot be used, or by a halt among its members. A module whose unit is
/// absent under both conventions halts nothing.
pub open spec fn item_halt(item: DeclView, base: Seq<Seq<char>>) -> Option<Halt>
    decreases item, 0int,
{
    match item {
        DeclView::Module(m) => if is_recursable(m.visibility) {
            match m.body {
                BodyView::Inline(members) => first_halt(members, 0, base),
                BodyView::Unprobed => Some(
                    Halt::Probe { location: Seq::empty(), path: flat_candidate(base, m.name) },
                ),
                BodyView::FlatAbsent => Some(
                    Halt::Probe { location: Seq::empty(), path: nested_candidate(base, m.name) },
                ),
                BodyView::Absent => None,
                BodyView::Unreadable => Some(Halt::Unreadable),
                BodyView::Unparsable => Some(Halt::Unparsable),
                BodyView::Loaded { nested, items } => first_halt(
                    items,
                    0,
                    base_within(base, m.name, nested),
                ),
            }
        } else {
            None
        },
        _ => None,
    }
}

/// What is known of a module's backing unit after a look at the candidate
/// that its state asks for. Where the first candidate is absent the second is
/// next; where both are, the module has no unit. A state that asks for no look
/// stays as it is.
pub open spec fn advanced(body: BodyView, outcome: ProbeView) -> BodyView {
    match body {
        BodyView::Unprobed => match outcome {
            ProbeView::Absent => BodyView::FlatAbsent,
            ProbeView::Unreadable => BodyView::Unreadable,
            ProbeView::Unparsable => BodyView::Unparsable,
            ProbeView::Loaded(items) => BodyView::Loaded { nested: false, items },
        },
        BodyView::FlatAbsent => match outcome {
            ProbeView::Absent => BodyView::Absent,
            ProbeView::Unreadable => BodyView::Unreadable,
            ProbeView::Unparsable => BodyView::Unparsable,
            ProbeView::Loaded(items) => BodyView::Loaded { nested: true, items },
        },
        other => other,
    }
}

/// The tree after `outcome` was recorded for the module at `location`. A
/// location that leads to no module changes nothing.
pub open spec fn recorded(items: Seq<DeclView>, location: Seq<int>, outcome: ProbeView) -> Seq<
    DeclView,
>
    decreases location.len(),
{
    if location.len() == 0 {
        items
    } else if 0 <= location[0] < items.len() {
        match items[location[0]] {
            DeclView::Module(m) => items.update(
                location[0],
                DeclView::Module(
                    ModuleView {
                        name: m.name,
                        visibility: m.visibility,
                        body: if location.len() == 1 {
                            advanced(m.body, outcome)
                        } else {
                            match m.body {
                                BodyView::Inline(members) => BodyView::Inline(
                                    recorded(members, location.drop_first(), outcome),
                                ),
                                BodyView::Loaded { nested, items: members } => BodyView::Loaded {
                                    nested,
                                    items: recorded(members, location.drop_first(), outcome),
                                },
                                other => other,
                            }
                        },
                    },
                ),
            ),
            _ => items,
        }
    } else {
        items
    }
}

/// Advances what is known of a module's backing unit by one look.
pub fn advance(body: ModuleBody, outcome: Probe) -> (out: ModuleBody)
    ensures
        body_view(out) == advanced(body_view(body), outcome@),
{
    match body {
        ModuleBody::Unprobed => match outcome {
            Probe::Absent => ModuleBody::FlatAbsent,
            Probe::Unreadable => ModuleBody::Unreadable,
            Probe::Unparsable => ModuleBody::Unparsable,
            Probe::Loaded(items) => ModuleBody::Loaded { nested: false, items },
        },
        ModuleBody::FlatAbsent => match outcome {
            Probe::Absent => ModuleBody::Absent,
            Probe::Unreadable => ModuleBody::Unreadable,
            Probe::Unparsable => ModuleBody::Unparsable,
            Probe::Loaded(items) => ModuleBody::Loaded { nested: true, items },
        },
        other => other,
    }
}

/// Records in the tree what a look for the module at `location` found.
pub fn record_probe(items: &mut Vec<Declaration>, location: &Vec<usize>, outcome: Probe)
    ensures
        decl_views(final(items)@) == recorded(
            decl_views(old(items)@),
            indices(location@),
            outcome@,
        ),
{
    proof {
        assert(indices(location@).skip(0) =~= indices(location@));
    }
    record_below(items, location, 0, outcome);
}

/// Records `outcome` for the module to which the part of `location` from
/// `depth` on leads, starting at `items`.
fn record_below(items: &mut Vec<Declaration>, location: &Vec<usize>, depth: usize, outcome: Probe)
    requires
        depth <= location.len(),
    ensures
        decl_views(final(items)@) == recorded(
            decl_views(old(items)@),
            indices(location@).skip(depth as int),
            outcome@,
        ),
    decreases location.len() - depth,
{
    let ghost rest = indices(location@).skip(depth as int);
    let ghost before = decl_views(items@);
    if depth == location.len() {
        return ;
    }
    let index = location[depth];
    proof {
        assert(rest[0] == index as int);
        assert(rest.drop_first() =~= indices(location@).skip(depth as int + 1));
    }
    if index >= items.len() {
        return ;
    }
    let last = depth + 1 == location.len();
    let replaced = match items.remove(index) {
        Declaration::Module(module) => {
            let ModuleDecl { name, visibility, body } = module;
            let body = if last {
                advance(body, outcome)
            } else {
                match body {
                    ModuleBody::Inline(mut members) => {
                        record_below(&mut members, location, depth + 1, outcome);
                        ModuleBody::Inline(members)
                    },
                    ModuleBody::Loaded { nested, items: mut members } => {
                        record_below(&mut members, location, depth + 1, outcome);
                        ModuleBody::Loaded { nested, items: members }
                    },
                    other => other,
                }
            };
            Declaration::Module(ModuleDecl { name, visibility, body })
        },
        other => other,
    };
    items.insert(index, replaced);
    proof {
        assert(decl_views(items@) =~= recorded(before, rest, outcome@));
    }
}

} // verus!
