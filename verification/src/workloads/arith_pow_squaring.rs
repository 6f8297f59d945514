//! Modular exponentiation by repeated squaring.
use vstd::prelude::*;
use vstd::arithmetic::power::{pow, lemma_pow_adds, lemma_pow_multiplies, lemma_pow_mod_noop, lemma_pow1};
use vstd::arithmetic::div_mod::{lemma_mul_mod_noop_left, lemma_mul_mod_noop_right};
use vstd::arithmetic::mul::lemma_mul_is_associative;

verus! {

/// The modulus of the workload: the largest prime below 2^16.
pub open spec fn modulus() -> int {
    65521
}

/// `seed` raised to the power `iterations`, reduced modulo 65521.
pub open spec fn pow_squaring_result(iterations: u64, seed: u64) -> int {
    pow(seed as int, iterations as nat) % modulus()
}

/// One squaring step keeps `result * base^exponent` fixed modulo 65521.
proof fn lemma_square_step(result: int, base: int, exponent: nat)
    requires
        0 <= result,
        0 <= base,
    ensures
        ({
            let k = exponent / 2;
            let next_result = if exponent % 2 == 1 { result * base % modulus() } else { result };
            next_result * pow(base * base % modulus(), k) % modulus()
                == result * pow(base, exponent) % modulus()
        }),
{
    let m = modulus();
    let k = exponent / 2;
    let x = pow(base * base, k);
    lemma_pow1(base);
    lemma_pow_adds(base, 1, 1);
    lemma_pow_multiplies(base, 2, k);
    assert(pow(base, 2) == base * base);
    assert(pow(base, 2 * k) == x);
    lemma_pow_mod_noop(base * base, k, m);
    let next_result = if exponent % 2 == 1 { result * base % m } else { result };
    // next_result * pow(base', k) % m == next_result * x % m
    lemma_mul_mod_noop_right(next_result, pow(base * base % m, k), m);
    lemma_mul_mod_noop_right(next_result, x, m);
    if exponent % 2 == 1 {
        assert(exponent == 1 + 2 * k);
        lemma_pow_adds(base, 1, 2 * k);
        assert(pow(base, exponent) == base * x);
        lemma_mul_mod_noop_left(result * base, x, m);
        lemma_mul_is_associative(result, base, x);
    } else {
        assert(exponent == 2 * k);
    }
}

/// Computes `seed^iterations mod 65521` by exponentiation by squaring.
pub fn run(iterations: u64, seed: u64) -> (r: u64)
    ensures
        r == pow_squaring_result(iterations, seed),
{
    let mut exponent = iterations;
    let mut base = seed % 65_521;
    let mut result: u64 = 1;
    proof {
        lemma_pow_mod_noop(seed as int, iterations as nat, modulus());
    }
    while exponent != 0
        invariant
            base < 65_521,
            result < 65_521,
            result * pow(base as int, exponent as nat) % modulus()
                == pow(seed as int, iterations as nat) % modulus(),
        decreases exponent,
    {
        proof {
            lemma_square_step(result as int, base as int, exponent as nat);
        }
        let odd = exponent & 1 != 0;
        assert(odd == (exponent % 2 == 1)) by (bit_vector)
            requires
                odd == (exponent & 1 != 0),
        ;
        assert(result * base < 65_521 * 65_521) by (nonlinear_arith)
            requires
                result < 65_521,
                base < 65_521,
        ;
        assert(base * base < 65_521 * 65_521) by (nonlinear_arith)
            requires
                base < 65_521,
        ;
        if odd {
            result = result * base % 65_521;
        }
        base = base * base % 65_521;
        assert(exponent >> 1 == exponent / 2) by (bit_vector);
        exponent >>= 1;
    }
    proof {
        vstd::arithmetic::power::lemma_pow0(base as int);
    }
    result
}

} // verus!
