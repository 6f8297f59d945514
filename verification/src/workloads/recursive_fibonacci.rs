//! Naive doubly recursive Fibonacci plus the seed.
use vstd::prelude::*;

verus! {

/// The Fibonacci numbers, with `fib(0) == 0` and `fib(1) == 1`.
pub open spec fn fib(n: nat) -> nat
    decreases n,
{
    if n < 2 {
        n
    } else {
        fib((n - 1) as nat) + fib((n - 2) as nat)
    }
}

/// Fibonacci numbers do not decrease.
pub proof fn lemma_fib_monotonic(i: nat, j: nat)
    requires
        i <= j,
    ensures
        fib(i) <= fib(j),
    decreases j - i,
{
    if i < j {
        lemma_fib_monotonic(i, (j - 1) as nat);
    }
}

/// Computes `fib(n)` by the two recursive calls.
fn fibonacci(n: u64) -> (r: u64)
    requires
        fib(n as nat) <= u64::MAX,
    ensures
        r == fib(n as nat),
    decreases n,
{
    if n < 2 {
        n
    } else {
        proof {
            lemma_fib_monotonic((n - 1) as nat, n as nat);
            lemma_fib_monotonic((n - 2) as nat, n as nat);
        }
        fibonacci(n - 1) + fibonacci(n - 2)
    }
}

/// Returns `fib(iterations) + seed`.
pub fn run(iterations: u64, seed: u64) -> (r: u64)
    requires
        fib(iterations as nat) + seed <= u64::MAX,
    ensures
        r == fib(iterations as nat) + seed,
{
    fibonacci(iterations) + seed
}

} // verus!
