//! Ten frame slots, each updated from its previously updated neighbour.
use vstd::prelude::*;

verus! {

/// The number of frame slots.
pub open spec fn slots() -> int {
    10
}

/// The slots before the first step: `seed + k` in slot `k`.
pub open spec fn initial_frame(seed: u64) -> Seq<int> {
    Seq::new(10, |k: int| seed + k)
}

/// Slot `k` after one step over `f`: slot 0 mixes in the old last slot, and
/// every later slot mixes in the new value of the slot before it.
pub open spec fn step_slot(f: Seq<int>, k: nat) -> int
    decreases k,
{
    if k == 0 {
        (f[0] * 17 + f[9]) % 65521
    } else {
        (f[k as int] * 17 + step_slot(f, (k - 1) as nat)) % 65521
    }
}

/// The neighbour value that slot `k` mixes in during a step over `f`.
pub open spec fn step_neighbour(f: Seq<int>, k: nat) -> int {
    if k == 0 {
        f[9]
    } else {
        step_slot(f, (k - 1) as nat)
    }
}

/// The whole frame after one step over `f`.
pub open spec fn frame_step(f: Seq<int>) -> Seq<int> {
    Seq::new(10, |k: int| step_slot(f, k as nat))
}

/// The frame after `n` steps from `seed`.
pub open spec fn frame_state(seed: u64, n: nat) -> Seq<int>
    decreases n,
{
    if n == 0 {
        initial_frame(seed)
    } else {
        frame_step(frame_state(seed, (n - 1) as nat))
    }
}

/// The sum of the first `n` slots of `f`.
pub open spec fn prefix_sum(f: Seq<int>, n: nat) -> int
    decreases n,
{
    if n == 0 {
        0
    } else {
        prefix_sum(f, (n - 1) as nat) + f[n - 1]
    }
}

/// The sum of the slots after `iterations` steps.
pub open spec fn large_frame_result(iterations: u64, seed: u64) -> int {
    prefix_sum(frame_state(seed, iterations as nat), 10)
}

/// Every product and sum of one step over `f` fits in `u64`.
pub open spec fn step_fits(f: Seq<int>) -> bool {
    forall|k: nat| k < 10 ==> f[k as int] * 17 + #[trigger] step_neighbour(f, k) <= u64::MAX
}

/// The initial slots, every step before `iterations` and the final sum
/// compute within `u64`.
pub open spec fn large_frame_fits(iterations: u64, seed: u64) -> bool {
    &&& seed + 9 <= u64::MAX
    &&& forall|n: nat| n < iterations ==> step_fits(#[trigger] frame_state(seed, n))
    &&& large_frame_result(iterations, seed) <= u64::MAX
}

/// Prefix sums of non-negative slots grow with the prefix.
proof fn lemma_prefix_sum_monotonic(f: Seq<int>, i: nat, j: nat)
    requires
        i <= j <= f.len(),
        forall|k: int| 0 <= k < f.len() ==> f[k] >= 0,
    ensures
        0 <= prefix_sum(f, i) <= prefix_sum(f, j),
    decreases j,
{
    if j > 0 {
        if i == j {
            lemma_prefix_sum_monotonic(f, (j - 1) as nat, (j - 1) as nat);
        } else {
            lemma_prefix_sum_monotonic(f, i, (j - 1) as nat);
        }
    }
}

/// Steps produce slots in `0..65521`.
proof fn lemma_frame_state_nonneg(seed: u64, n: nat)
    ensures
        frame_state(seed, n).len() == 10,
        forall|k: int| 0 <= k < 10 ==> #[trigger] frame_state(seed, n)[k] >= 0,
{
    if n > 0 {
        let f = frame_state(seed, (n - 1) as nat);
        assert forall|k: int| 0 <= k < 10 implies #[trigger] frame_state(seed, n)[k] >= 0 by {
            assert(frame_state(seed, n)[k] == step_slot(f, k as nat));
        }
    }
}

/// Runs `iterations` steps over ten slots starting at `seed, seed + 1, ..`
/// and returns the sum of the slots.
pub fn run(iterations: u64, seed: u64) -> (r: u64)
    requires
        large_frame_fits(iterations, seed),
    ensures
        r == large_frame_result(iterations, seed),
{
    let mut frame: Vec<u64> = Vec::new();
    let mut k: u64 = 0;
    while k < 10
        invariant
            k <= 10,
            seed + 9 <= u64::MAX,
            frame@.len() == k,
            forall|j: int| 0 <= j < k ==> frame@[j] == initial_frame(seed)[j],
        decreases 10 - k,
    {
        frame.push(seed + k);
        k = k + 1;
    }
    let mut i: u64 = 0;
    while i < iterations
        invariant
            i <= iterations,
            large_frame_fits(iterations, seed),
            frame@.len() == 10,
            forall|j: int| 0 <= j < 10 ==> frame@[j] == #[trigger] frame_state(seed, i as nat)[j],
        decreases iterations - i,
    {
        let ghost f = frame_state(seed, i as nat);
        assert(step_fits(f));
        let mut previous = frame[9];
        let mut s: usize = 0;
        while s < 10
            invariant
                s <= 10,
                step_fits(f),
                frame@.len() == 10,
                previous == step_neighbour(f, s as nat),
                forall|j: int| 0 <= j < s ==> frame@[j] == step_slot(f, j as nat),
                forall|j: int| s <= j < 10 ==> frame@[j] == f[j],
            decreases 10 - s,
        {
            assert(f[s as int] * 17 + step_neighbour(f, s as nat) <= u64::MAX);
            let updated = (frame[s] * 17 + previous) % 65_521;
            frame.set(s, updated);
            previous = updated;
            s = s + 1;
        }
        proof {
            assert forall|j: int| 0 <= j < 10 implies frame@[j] == #[trigger] frame_state(
                seed,
                (i + 1) as nat,
            )[j] by {
                assert(frame_state(seed, (i + 1) as nat) == frame_step(f));
            }
        }
        i = i + 1;
    }
    let ghost f = frame_state(seed, iterations as nat);
    proof {
        lemma_frame_state_nonneg(seed, iterations as nat);
    }
    let mut total: u64 = 0;
    let mut s: usize = 0;
    while s < 10
        invariant
            s <= 10,
            f == frame_state(seed, iterations as nat),
            f.len() == 10,
            forall|j: int| 0 <= j < 10 ==> f[j] >= 0,
            prefix_sum(f, 10) <= u64::MAX,
            frame@.len() == 10,
            forall|j: int| 0 <= j < 10 ==> frame@[j] == f[j],
            total == prefix_sum(f, s as nat),
        decreases 10 - s,
    {
        proof {
            lemma_prefix_sum_monotonic(f, (s + 1) as nat, 10);
        }
        total = total + frame[s];
        s = s + 1;
    }
    total
}

} // verus!
