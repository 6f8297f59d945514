//! A linear congruential walk modulo 65521.
use vstd::prelude::*;

verus! {

/// The value after `n` steps of `x <- (17 * x + i) % 65521`, where `i` is
/// the index of the step, starting from `seed`.
pub open spec fn arithmetic_state(seed: u64, n: nat) -> int
    decreases n,
{
    if n == 0 {
        seed as int
    } else {
        (17 * arithmetic_state(seed, (n - 1) as nat) + (n - 1)) % 65521
    }
}

/// Every step before `iterations` computes `17 * x + i` within `u64`.
pub open spec fn arithmetic_fits(iterations: u64, seed: u64) -> bool {
    forall|i: nat| i < iterations ==> 17 * #[trigger] arithmetic_state(seed, i) + i <= u64::MAX
}

/// Runs `iterations` steps of `x <- (17 * x + i) % 65521` from `seed`.
pub fn run(iterations: u64, seed: u64) -> (r: u64)
    requires
        arithmetic_fits(iterations, seed),
    ensures
        r == arithmetic_state(seed, iterations as nat),
{
    let mut x = seed;
    let mut i: u64 = 0;
    while i < iterations
        invariant
            i <= iterations,
            x == arithmetic_state(seed, i as nat),
            arithmetic_fits(iterations, seed),
        decreases iterations - i,
    {
        assert(17 * arithmetic_state(seed, i as nat) + i <= u64::MAX);
        x = (17 * x + i) % 65_521;
        i = i + 1;
    }
    x
}

} // verus!
