//! Uniform random draws folded into a half-open range.

use vstd::prelude::*;

verus! {

/// Relies on `rand::random::<u64>`: a random 64-bit value.  Nothing can be
/// promised of it.
#[verifier::external_body]
fn random_u64() -> u64 {
    rand::random::<u64>()
}

pub struct RandomGen {}

impl RandomGen {
    /// Fold `n` into the half-open range `[x, y)` by taking it modulo the
    /// range's width.
    pub fn clamp(n: u64, range: (u64, u64)) -> (r: u64)
        requires
            range.0 < range.1,
        ensures
            r == range.0 + (n as int) % (range.1 - range.0),
            range.0 <= r < range.1,
    {
        let (x, y) = range;
        x + n % (y - x)
    }

    /// A random value in the half-open range `[x, y)`.
    pub fn range(x: u64, y: u64) -> (r: u64)
        requires
            x < y,
        ensures
            x <= r < y,
    {
        RandomGen::clamp(random_u64(), (x, y))
    }
}

} // verus!
