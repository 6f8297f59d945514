//! A data-dependent branch per step: halve and add, or a Collatz-style step.
use vstd::prelude::*;

verus! {

/// One step from `x` at step index `i`.
pub open spec fn branching_step(x: int, i: int) -> int {
    if x % 2 == 0 {
        x / 2 + i
    } else {
        (3 * x + 1) % 65521
    }
}

/// The value after `n` steps from `seed`.
pub open spec fn branching_state(seed: u64, n: nat) -> int
    decreases n,
{
    if n == 0 {
        seed as int
    } else {
        branching_step(branching_state(seed, (n - 1) as nat), n - 1)
    }
}

/// The step from `x` at index `i` computes within `u64`.
pub open spec fn branching_step_fits(x: int, i: int) -> bool {
    if x % 2 == 0 {
        x / 2 + i <= u64::MAX
    } else {
        3 * x + 1 <= u64::MAX
    }
}

/// Every step before `iterations` computes within `u64`.
pub open spec fn branching_fits(iterations: u64, seed: u64) -> bool {
    forall|i: nat| i < iterations ==> branching_step_fits(#[trigger] branching_state(seed, i), i as int)
}

/// Runs `iterations` steps: an even value is halved and the step index is
/// added; an odd value `x` becomes `(3 * x + 1) % 65521`.
pub fn run(iterations: u64, seed: u64) -> (r: u64)
    requires
        branching_fits(iterations, seed),
    ensures
        r == branching_state(seed, iterations as nat),
{
    let mut x = seed;
    let mut i: u64 = 0;
    while i < iterations
        invariant
            i <= iterations,
            x == branching_state(seed, i as nat),
            branching_fits(iterations, seed),
        decreases iterations - i,
    {
        assert(branching_step_fits(branching_state(seed, i as nat), i as int));
        if x % 2 == 0 {
            x = x / 2 + i;
        } else {
            x = (3 * x + 1) % 65_521;
        }
        i = i + 1;
    }
    x
}

} // verus!
