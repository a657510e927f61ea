//! Snake-case names, as the `convert_case` crate forms them.

use vstd::prelude::*;
use convert_case::{Case, Casing};

verus! {

/// The snake-case form of a text: what `convert_case` returns for it with
/// `Case::Snake` and the crate's default word boundaries. It depends on the
/// text alone.
pub uninterp spec fn snake_case_of(text: Seq<char>) -> Seq<char>;

/// Calls `convert_case::Casing::to_case` with `Case::Snake` on `text`. The
/// contract gives the result its name and claims nothing else about it.
#[verifier::external_body]
pub(crate) fn to_snake(text: &str) -> (out: String)
    ensures
        out@ == snake_case_of(text@),
{
    text.to_case(Case::Snake)
}

} // verus!
