//! The pseudo-random source of a session.

use vstd::prelude::*;

verus! {

/// The generator of the `fastrand` crate, carried through unopened.
#[verifier::external_type_specification]
#[verifier::external_body]
pub struct ExRng(fastrand::Rng);

/// Relies on `fastrand::Rng::usize` called with the inclusive range
/// `lo..=hi`: it panics on an empty range, and otherwise returns a value
/// that lies within the range.
#[verifier::external_body]
pub(crate) fn draw_between(rng: &mut fastrand::Rng, lo: usize, hi: usize) -> (r: usize)
    requires
        lo <= hi,
    ensures
        lo <= r <= hi,
{
    rng.usize(lo..=hi)
}

} // verus!
