//! The randomness source of the computer player.

use vstd::prelude::*;

verus! {

/// Relies on `fastrand::usize`: a draw from the range `0..n` lies below
/// `n`; the call panics only on an empty range, which the precondition
/// excludes.  Nothing more is assumed of the drawn value.
#[verifier::external_body]
pub(crate) fn random_below(n: usize) -> (r: usize)
    requires
        n > 0,
    ensures
        r < n,
{
    fastrand::usize(0..n)
}

} // verus!
