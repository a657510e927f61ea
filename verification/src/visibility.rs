//! The visibility resolver: which declarations are exported, and which
//! modules are entered.
//!
//! The two rules differ on purpose. A function or a struct inherits export
//! from an entered module; a module never does: whether it is entered hangs
//! on its own marker alone.

use vstd::prelude::*;
use crate::decl::{FunctionDecl, ModuleDecl, StructDecl, Visibility};

verus! {

/// A function or struct is exported where its own marker is public or export
/// is inherited.
pub open spec fn is_exported(own: Visibility, inherited: bool) -> bool {
    own == Visibility::Public || inherited
}

/// A module is entered only where its own marker is public.
pub open spec fn is_recursable(own: Visibility) -> bool {
    own == Visibility::Public
}

/// Decides whether a function is exported.
pub fn is_public_function(func: &FunctionDecl, parent_public: bool) -> (out: bool)
    ensures
        out == is_exported(func@.visibility, parent_public),
{
    match func.visibility {
        Visibility::Public => true,
        Visibility::Private => parent_public,
    }
}

/// Decides whether a struct is exported.
pub fn is_public_struct(struct_item: &StructDecl, parent_public: bool) -> (out: bool)
    ensures
        out == is_exported(struct_item@.visibility, parent_public),
{
    match struct_item.visibility {
        Visibility::Public => true,
        Visibility::Private => parent_public,
    }
}

/// Decides whether a module is entered.
pub fn is_public_mod(module: &ModuleDecl) -> (out: bool)
    ensures
        out == is_recursable(module.visibility),
{
    match module.visibility {
        Visibility::Public => true,
        Visibility::Private => false,
    }
}

} // verus!
