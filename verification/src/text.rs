//! Text comparison shared by the tagged-union codecs.

use vstd::prelude::*;

verus! {

/// Compares two string slices with `str`'s own `==`.
///
/// Trusted: `str::eq` is taken to answer `true` exactly when the two slices
/// hold the same characters in the same order.
#[verifier::external_body]
pub(crate) fn same_text(left: &str, right: &str) -> (same: bool)
    ensures
        same == (left@ == right@),
{
    left == right
}

} // verus!
