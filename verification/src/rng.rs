//! The one place the simulation touches a source of randomness: picking
//! which surviving enemy fires a shot.

use vstd::prelude::*;

use rand::RngExt;

verus! {

/// Relies on rand::rng and rand::RngExt::random_range: sampling the range
/// `0..n` yields a value of that range, which is nonempty since `n > 0`
/// (`random_range` panics on an empty range, and `rand::rng` can fail only
/// while seeding the thread-local generator).  Nothing is assumed about
/// which value comes back: callers must be correct for every index below
/// `n`.
#[verifier::external_body]
pub fn random_below(n: usize) -> (r: usize)
    requires
        n > 0,
    ensures
        r < n,
{
    rand::rng().random_range(0..n)
}

} // verus!
