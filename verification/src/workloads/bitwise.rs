//! Mixing of two words by rotations, a truncating shift, AND and XOR.
use vstd::prelude::*;
use crate::arith::{rotl64, rotr64, rotate_left_u64, rotate_right_u64};

verus! {

/// The second word's start value.
pub open spec fn bitwise_other_start() -> u64 {
    305_419_896
}

/// One step on the pair `(value, other)`.
pub open spec fn bitwise_step(state: (u64, u64), seed: u64) -> (u64, u64) {
    let (value, other) = state;
    let mixed = rotr64(value ^ other, 13);
    (((mixed << 7u64) & other) ^ seed, rotl64(other, 3))
}

/// The pair `(value, other)` after `n` steps.
pub open spec fn bitwise_state(seed: u64, n: nat) -> (u64, u64)
    decreases n,
{
    if n == 0 {
        (seed, bitwise_other_start())
    } else {
        bitwise_step(bitwise_state(seed, (n - 1) as nat), seed)
    }
}

/// The low 16 bits of the value after `iterations` steps.
pub open spec fn bitwise_result(iterations: u64, seed: u64) -> u64 {
    bitwise_state(seed, iterations as nat).0 & 65535
}

/// Runs `iterations` mixing steps from `seed` and returns the low 16 bits.
pub fn run(iterations: u64, seed: u64) -> (r: u64)
    ensures
        r == bitwise_result(iterations, seed),
{
    let mut value = seed;
    let mut other: u64 = 305_419_896;
    let mut i: u64 = 0;
    while i < iterations
        invariant
            i <= iterations,
            (value, other) == bitwise_state(seed, i as nat),
        decreases iterations - i,
    {
        value = rotate_right_u64(value ^ other, 13);
        value = ((value << 7u64) & other) ^ seed;
        other = rotate_left_u64(other, 3);
        i = i + 1;
    }
    value & 65_535
}

} // verus!
