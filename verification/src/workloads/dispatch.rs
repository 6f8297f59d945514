//! A 16-bit shift-and-xor state update per step.
use vstd::prelude::*;

verus! {

/// One step from `x` at step index `i`.
pub open spec fn dispatch_step(x: u64, i: u64) -> u64 {
    ((x << 1u64) ^ (x >> 15u64) ^ i) & 65535
}

/// The value after `n` steps from `seed`.
pub open spec fn dispatch_state(seed: u64, n: nat) -> u64
    decreases n,
{
    if n == 0 {
        seed
    } else {
        dispatch_step(dispatch_state(seed, (n - 1) as nat), (n - 1) as u64)
    }
}

/// Runs `iterations` steps of `x <- ((x << 1) ^ (x >> 15) ^ i) & 0xffff`
/// from `seed`; the left shift drops the bits shifted out of the word.
pub fn run(iterations: u64, seed: u64) -> (r: u64)
    ensures
        r == dispatch_state(seed, iterations as nat),
{
    let mut x = seed;
    let mut i: u64 = 0;
    while i < iterations
        invariant
            i <= iterations,
            x == dispatch_state(seed, i as nat),
        decreases iterations - i,
    {
        x = ((x << 1u64) ^ (x >> 15u64) ^ i) & 65_535;
        i = i + 1;
    }
    x
}

} // verus!
