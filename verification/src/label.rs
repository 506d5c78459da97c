//! Optional debug labels carried by descriptors.
//!
//! Labels take part in descriptor equality, so the cache keys them along
//! with the structural fields.

use vstd::prelude::*;

verus! {

/// The value of an optional label, as a mathematical key component.
pub open spec fn label_view(label: Option<String>) -> Option<Seq<char>> {
    match label {
        Some(s) => Some(s@),
        None => None,
    }
}

/// Structural equality of optional labels.
pub fn label_eq(a: &Option<String>, b: &Option<String>) -> (r: bool)
    ensures
        r == (label_view(*a) == label_view(*b)),
{
    match (a, b) {
        (Some(x), Some(y)) => *x == *y,
        (None, None) => true,
        _ => false,
    }
}

} // verus!
