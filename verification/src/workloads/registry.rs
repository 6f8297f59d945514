//! The native reference implementations by workload id, and the check of a
//! contract's cases against them.
use vstd::prelude::*;
use crate::workloads::contract::{Case, Contract, contract_error};
use crate::workloads::{arith_pow_squaring, arithmetic, bitwise, branching, dispatch, large_frame, recursive_fibonacci};
use crate::workloads::arithmetic::{arithmetic_fits, arithmetic_state};
use crate::workloads::branching::{branching_fits, branching_state, branching_step_fits};
use crate::workloads::large_frame::{
    frame_state, large_frame_fits, large_frame_result, prefix_sum, step_fits,
    step_neighbour, step_slot,
};
use crate::workloads::recursive_fibonacci::fib;

verus! {

/// Why a native run did not give a result.
#[derive(Debug, Clone, Copy, PartialEq, Eq, Structural)]
pub enum NativeError {
    /// No native implementation has this id.
    UnknownWorkload,
    /// The result does not fit in `u64`.
    ResultTooLarge,
}

/// Why a contract's cases failed.
#[derive(Debug, Clone, Copy, PartialEq, Eq, Structural)]
pub enum CaseError {
    /// The native implementation could not run the case at this index.
    Native(usize, NativeError),
    /// The native result of the case at this index differs from the expected one.
    Mismatch(usize),
}

/// The bounded inputs that every validated contract keeps.
pub open spec fn bounded(iterations: u64, seed: u64) -> bool {
    iterations <= 1_000_000 && seed < 65_536
}

/// The arithmetic walk stays below 65536.
proof fn lemma_arithmetic_small(seed: u64, n: nat)
    requires
        seed < 65_536,
    ensures
        0 <= arithmetic_state(seed, n) < 65_536,
    decreases n,
{
    if n > 0 {
        lemma_arithmetic_small(seed, (n - 1) as nat);
    }
}

/// Bounded inputs keep the arithmetic walk within `u64`.
pub proof fn lemma_arithmetic_bounded(iterations: u64, seed: u64)
    requires
        bounded(iterations, seed),
    ensures
        arithmetic_fits(iterations, seed),
{
    assert forall|i: nat| i < iterations implies 17 * #[trigger] arithmetic_state(seed, i) + i <= u64::MAX by {
        lemma_arithmetic_small(seed, i);
    }
}

/// The branching walk stays below 2^21 for a million steps.
proof fn lemma_branching_small(seed: u64, n: nat)
    requires
        seed < 65_536,
        n <= 1_000_000,
    ensures
        0 <= branching_state(seed, n) < 2_097_152,
    decreases n,
{
    if n > 0 {
        lemma_branching_small(seed, (n - 1) as nat);
    }
}

/// Bounded inputs keep the branching walk within `u64`.
pub proof fn lemma_branching_bounded(iterations: u64, seed: u64)
    requires
        bounded(iterations, seed),
    ensures
        branching_fits(iterations, seed),
{
    assert forall|i: nat| i < iterations implies branching_step_fits(#[trigger] branching_state(seed, i), i as int) by {
        lemma_branching_small(seed, i);
    }
}

/// Every slot of a frame state is below 65545.
proof fn lemma_frame_small(seed: u64, n: nat)
    requires
        seed < 65_536,
    ensures
        frame_state(seed, n).len() == 10,
        forall|k: int| 0 <= k < 10 ==> 0 <= #[trigger] frame_state(seed, n)[k] < 65_545,
    decreases n,
{
    if n > 0 {
        let f = frame_state(seed, (n - 1) as nat);
        lemma_frame_small(seed, (n - 1) as nat);
        assert forall|k: int| 0 <= k < 10 implies 0 <= #[trigger] frame_state(seed, n)[k] < 65_545 by {
            assert(frame_state(seed, n)[k] == step_slot(f, k as nat));
        }
    }
}

/// Slots of a step are below 65521.
proof fn lemma_step_slot_small(f: Seq<int>, k: nat)
    ensures
        0 <= step_slot(f, k) < 65_521,
{
}

/// The sum of slots below a bound is below ten times the bound.
proof fn lemma_prefix_sum_small(f: Seq<int>, n: nat)
    requires
        n <= f.len(),
        forall|k: int| 0 <= k < f.len() ==> 0 <= #[trigger] f[k] < 65_545,
    ensures
        0 <= prefix_sum(f, n) <= n * 65_545,
    decreases n,
{
    if n > 0 {
        lemma_prefix_sum_small(f, (n - 1) as nat);
    }
}

/// Bounded inputs keep the large-frame workload within `u64`.
pub proof fn lemma_large_frame_bounded(iterations: u64, seed: u64)
    requires
        bounded(iterations, seed),
    ensures
        large_frame_fits(iterations, seed),
{
    assert forall|n: nat| n < iterations implies step_fits(#[trigger] frame_state(seed, n)) by {
        lemma_frame_small(seed, n);
        let f = frame_state(seed, n);
        assert forall|k: nat| k < 10 implies f[k as int] * 17 + #[trigger] step_neighbour(f, k) <= u64::MAX by {
            if k > 0 {
                lemma_step_slot_small(f, (k - 1) as nat);
            }
        }
    }
    lemma_frame_small(seed, iterations as nat);
    lemma_prefix_sum_small(frame_state(seed, iterations as nat), 10);
}

/// `fib(n)` computed from the bottom, or `None` once it exceeds `u64`.
fn checked_fib(n: u64) -> (r: Option<u64>)
    ensures
        match r {
            Some(v) => v == fib(n as nat),
            None => fib(n as nat) > u64::MAX,
        },
{
    if n == 0 {
        return Some(0);
    }
    let mut prev: u64 = 0;
    let mut cur: u64 = 1;
    let mut i: u64 = 1;
    while i < n
        invariant
            1 <= i <= n,
            prev == fib((i - 1) as nat),
            cur == fib(i as nat),
        decreases n - i,
    {
        let next = match cur.checked_add(prev) {
            Some(next) => next,
            None => {
                proof {
                    recursive_fibonacci::lemma_fib_monotonic((i + 1) as nat, n as nat);
                }
                return None;
            },
        };
        prev = cur;
        cur = next;
        i = i + 1;
    }
    Some(cur)
}

/// The result of the native implementation with id `id`, when there is one.
pub open spec fn native_result(id: Seq<char>, iterations: u64, seed: u64) -> Option<int> {
    if id == "arith_pow_squaring"@ {
        Some(arith_pow_squaring::pow_squaring_result(iterations, seed))
    } else if id == "arithmetic"@ {
        Some(arithmetic_state(seed, iterations as nat))
    } else if id == "bitwise"@ {
        Some(bitwise::bitwise_result(iterations, seed) as int)
    } else if id == "branching"@ {
        Some(branching_state(seed, iterations as nat))
    } else if id == "dispatch"@ {
        Some(dispatch::dispatch_state(seed, iterations as nat) as int)
    } else if id == "large_frame"@ {
        Some(large_frame_result(iterations, seed))
    } else if id == "recursive_fibonacci"@ {
        Some(fib(iterations as nat) + seed)
    } else {
        None
    }
}

/// Runs the native implementation with id `id` on bounded inputs.
pub fn run_native(id: &str, iterations: u64, seed: u64) -> (r: Result<u64, NativeError>)
    requires
        bounded(iterations, seed),
    ensures
        match native_result(id@, iterations, seed) {
            None => r == Err::<u64, NativeError>(NativeError::UnknownWorkload),
            Some(v) => if 0 <= v <= u64::MAX {
                r == Ok::<u64, NativeError>(v as u64)
            } else {
                r == Err::<u64, NativeError>(NativeError::ResultTooLarge)
            },
        },
{
    if crate::resolve::same_text(id, "arith_pow_squaring") {
        Ok(arith_pow_squaring::run(iterations, seed))
    } else if crate::resolve::same_text(id, "arithmetic") {
        proof {
            lemma_arithmetic_bounded(iterations, seed);
        }
        Ok(arithmetic::run(iterations, seed))
    } else if crate::resolve::same_text(id, "bitwise") {
        Ok(bitwise::run(iterations, seed))
    } else if crate::resolve::same_text(id, "branching") {
        proof {
            lemma_branching_bounded(iterations, seed);
        }
        Ok(branching::run(iterations, seed))
    } else if crate::resolve::same_text(id, "dispatch") {
        Ok(dispatch::run(iterations, seed))
    } else if crate::resolve::same_text(id, "large_frame") {
        proof {
            lemma_large_frame_bounded(iterations, seed);
        }
        Ok(large_frame::run(iterations, seed))
    } else if crate::resolve::same_text(id, "recursive_fibonacci") {
        match checked_fib(iterations) {
            Some(f) => {
                if f > u64::MAX - seed {
                    Err(NativeError::ResultTooLarge)
                } else {
                    Ok(recursive_fibonacci::run(iterations, seed))
                }
            },
            None => Err(NativeError::ResultTooLarge),
        }
    } else {
        Err(NativeError::UnknownWorkload)
    }
}

/// The first failing case among cases `k..` of a contract.
pub open spec fn case_failure(id: Seq<char>, cases: Seq<Case>, k: int) -> Option<CaseError>
    decreases cases.len() - k,
{
    if k < 0 || k >= cases.len() {
        None
    } else {
        match native_result(id, cases[k].iterations, cases[k].seed) {
            None => Some(CaseError::Native(k as usize, NativeError::UnknownWorkload)),
            Some(v) => if !(0 <= v <= u64::MAX) {
                Some(CaseError::Native(k as usize, NativeError::ResultTooLarge))
            } else if v != cases[k].expected {
                Some(CaseError::Mismatch(k as usize))
            } else {
                case_failure(id, cases, k + 1)
            },
        }
    }
}

/// Checks every case of a valid contract against the native implementation
/// of the contract's workload; the first failing case is reported.
pub fn validate_native(contract: &Contract) -> (r: Result<(), CaseError>)
    requires
        contract_error(*contract) is None,
    ensures
        match case_failure(contract.id@, contract.cases@, 0) {
            None => r is Ok,
            Some(e) => r == Err::<(), CaseError>(e),
        },
{
    let mut k: usize = 0;
    while k < contract.cases.len()
        invariant
            0 <= k <= contract.cases@.len(),
            contract_error(*contract) is None,
            case_failure(contract.id@, contract.cases@, 0) == case_failure(contract.id@, contract.cases@, k as int),
        decreases contract.cases@.len() - k,
    {
        let case = &contract.cases[k];
        proof {
            crate::workloads::contract::lemma_valid_case_bounds(*contract, k as int);
        }
        match run_native(contract.id.as_str(), case.iterations, case.seed) {
            Ok(v) => {
                if v != case.expected {
                    return Err(CaseError::Mismatch(k));
                }
                assert(native_result(contract.id@, case.iterations, case.seed) == Some(v as int));
                assert(case_failure(contract.id@, contract.cases@, k as int) == case_failure(
                    contract.id@,
                    contract.cases@,
                    k + 1,
                ));
            },
            Err(e) => return Err(CaseError::Native(k, e)),
        }
        k += 1;
    }
    Ok(())
}

} // verus!
