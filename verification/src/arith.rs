//! Integer semantics of the typed arithmetic, bitwise and comparison
//! instructions, over words.
//!
//! Arithmetic wraps, shift amounts are masked to the operand width, rotation
//! counts are taken modulo the width, and division or remainder by zero (or
//! the one overflowing signed quotient) has no result.
use vstd::prelude::*;
use vstd::arithmetic::power2::pow2;
use crate::instruction::{IntKind, IntOp};
use crate::word::{
    Word, decode_i32, decode_i64, decode_u32, encode_bool, encode_i32, encode_i64, encode_u32,
    decoded_i32, decoded_i64, decoded_u32, encoded_bool, encoded_i32, encoded_i64, encoded_u32,
};

verus! {

/// `x` rotated left by `n` bit positions, modulo the 32-bit width.
pub open spec fn rotl32(x: u32, n: u32) -> u32 {
    let s = n % 32;
    if s == 0 { x } else { (x << s) | (x >> ((32 - s) as u32)) }
}

/// `x` rotated right by `n` bit positions, modulo the 32-bit width.
pub open spec fn rotr32(x: u32, n: u32) -> u32 {
    let s = n % 32;
    if s == 0 { x } else { (x >> s) | (x << ((32 - s) as u32)) }
}

/// `x` rotated left by `n` bit positions, modulo the 64-bit width.
pub open spec fn rotl64(x: u64, n: u32) -> u64 {
    let s = n % 64;
    if s == 0 { x } else { (x << s) | (x >> ((64 - s) as u32)) }
}

/// `x` rotated right by `n` bit positions, modulo the 64-bit width.
pub open spec fn rotr64(x: u64, n: u32) -> u64 {
    let s = n % 64;
    if s == 0 { x } else { (x >> s) | (x << ((64 - s) as u32)) }
}

/// Rotates the bits of `x` left by `n` positions (modulo 32).
pub fn rotate_left_u32(x: u32, n: u32) -> (r: u32)
    ensures
        r == rotl32(x, n),
{
    let s = n % 32;
    if s == 0 { x } else { (x << s) | (x >> (32 - s)) }
}

/// Rotates the bits of `x` right by `n` positions (modulo 32).
pub fn rotate_right_u32(x: u32, n: u32) -> (r: u32)
    ensures
        r == rotr32(x, n),
{
    let s = n % 32;
    if s == 0 { x } else { (x >> s) | (x << (32 - s)) }
}

/// Rotates the bits of `x` left by `n` positions (modulo 64).
pub fn rotate_left_u64(x: u64, n: u32) -> (r: u64)
    ensures
        r == rotl64(x, n),
{
    let s = n % 64;
    if s == 0 { x } else { (x << s) | (x >> (64 - s)) }
}

/// Rotates the bits of `x` right by `n` positions (modulo 64).
pub fn rotate_right_u64(x: u64, n: u32) -> (r: u64)
    ensures
        r == rotr64(x, n),
{
    let s = n % 64;
    if s == 0 { x } else { (x >> s) | (x << (64 - s)) }
}

/// The word result of `op` on two `i32` operands; `shift` is the right
/// operand read as a `u32`, used by the shifts and rotations.
pub open spec fn i32_result(op: IntOp, a: i32, b: i32, shift: u32) -> Option<Word> {
    match op {
        IntOp::Add => Some(encoded_i32(a.wrapping_add(b))),
        IntOp::Sub => Some(encoded_i32(a.wrapping_sub(b))),
        IntOp::Mul => Some(encoded_i32(a.wrapping_mul(b))),
        IntOp::Div => match a.checked_div(b) {
            Some(q) => Some(encoded_i32(q)),
            None => None,
        },
        IntOp::Rem => match a.checked_rem(b) {
            Some(q) => Some(encoded_i32(q)),
            None => None,
        },
        IntOp::Shl => Some(encoded_i32(a.wrapping_shl(shift & 31))),
        IntOp::Shr => Some(encoded_i32(a.wrapping_shr(shift & 31))),
        IntOp::Rol => Some(encoded_u32(rotl32(a as u32, shift))),
        IntOp::Ror => Some(encoded_u32(rotr32(a as u32, shift))),
        IntOp::BitAnd => Some(encoded_i32(a & b)),
        IntOp::BitOr => Some(encoded_i32(a | b)),
        IntOp::BitXor => Some(encoded_i32(a ^ b)),
        IntOp::Eq => Some(encoded_bool(a == b)),
        IntOp::Ne => Some(encoded_bool(a != b)),
        IntOp::Lt => Some(encoded_bool(a < b)),
        IntOp::Gt => Some(encoded_bool(a > b)),
        IntOp::Le => Some(encoded_bool(a <= b)),
        IntOp::Ge => Some(encoded_bool(a >= b)),
    }
}

/// The word result of `op` on two `i64` operands; `shift` is the right
/// operand's low half read as a `u32`.
pub open spec fn i64_result(op: IntOp, a: i64, b: i64, shift: u32) -> Option<Word> {
    match op {
        IntOp::Add => Some(encoded_i64(a.wrapping_add(b))),
        IntOp::Sub => Some(encoded_i64(a.wrapping_sub(b))),
        IntOp::Mul => Some(encoded_i64(a.wrapping_mul(b))),
        IntOp::Div => match a.checked_div(b) {
            Some(q) => Some(encoded_i64(q)),
            None => None,
        },
        IntOp::Rem => match a.checked_rem(b) {
            Some(q) => Some(encoded_i64(q)),
            None => None,
        },
        IntOp::Shl => Some(encoded_i64(a.wrapping_shl(shift & 63))),
        IntOp::Shr => Some(encoded_i64(a.wrapping_shr(shift & 63))),
        IntOp::Rol => Some(rotl64(a as u64, shift)),
        IntOp::Ror => Some(rotr64(a as u64, shift)),
        IntOp::BitAnd => Some(encoded_i64(a & b)),
        IntOp::BitOr => Some(encoded_i64(a | b)),
        IntOp::BitXor => Some(encoded_i64(a ^ b)),
        IntOp::Eq => Some(encoded_bool(a == b)),
        IntOp::Ne => Some(encoded_bool(a != b)),
        IntOp::Lt => Some(encoded_bool(a < b)),
        IntOp::Gt => Some(encoded_bool(a > b)),
        IntOp::Le => Some(encoded_bool(a <= b)),
        IntOp::Ge => Some(encoded_bool(a >= b)),
    }
}

/// The word result of `op` on two `u32` operands.
pub open spec fn u32_result(op: IntOp, a: u32, b: u32) -> Option<Word> {
    match op {
        IntOp::Add => Some(encoded_u32(a.wrapping_add(b))),
        IntOp::Sub => Some(encoded_u32(a.wrapping_sub(b))),
        IntOp::Mul => Some(encoded_u32(a.wrapping_mul(b))),
        IntOp::Div => if b == 0 { None } else { Some(encoded_u32(a / b)) },
        IntOp::Rem => if b == 0 { None } else { Some(encoded_u32(a % b)) },
        IntOp::Shl => Some(encoded_u32(a.wrapping_shl(b & 31))),
        IntOp::Shr => Some(encoded_u32(a.wrapping_shr(b & 31))),
        IntOp::Rol => Some(encoded_u32(rotl32(a, b))),
        IntOp::Ror => Some(encoded_u32(rotr32(a, b))),
        IntOp::BitAnd => Some(encoded_u32(a & b)),
        IntOp::BitOr => Some(encoded_u32(a | b)),
        IntOp::BitXor => Some(encoded_u32(a ^ b)),
        IntOp::Eq => Some(encoded_bool(a == b)),
        IntOp::Ne => Some(encoded_bool(a != b)),
        IntOp::Lt => Some(encoded_bool(a < b)),
        IntOp::Gt => Some(encoded_bool(a > b)),
        IntOp::Le => Some(encoded_bool(a <= b)),
        IntOp::Ge => Some(encoded_bool(a >= b)),
    }
}

/// The word result of `op` on two `u64` operands; `shift` is the right
/// operand's low half read as a `u32`.
pub open spec fn u64_result(op: IntOp, a: u64, b: u64, shift: u32) -> Option<Word> {
    match op {
        IntOp::Add => Some(a.wrapping_add(b)),
        IntOp::Sub => Some(a.wrapping_sub(b)),
        IntOp::Mul => Some(a.wrapping_mul(b)),
        IntOp::Div => if b == 0 { None } else { Some(a / b) },
        IntOp::Rem => if b == 0 { None } else { Some(a % b) },
        IntOp::Shl => Some(a.wrapping_shl(shift & 63)),
        IntOp::Shr => Some(a.wrapping_shr(shift & 63)),
        IntOp::Rol => Some(rotl64(a, shift)),
        IntOp::Ror => Some(rotr64(a, shift)),
        IntOp::BitAnd => Some(a & b),
        IntOp::BitOr => Some(a | b),
        IntOp::BitXor => Some(a ^ b),
        IntOp::Eq => Some(encoded_bool(a == b)),
        IntOp::Ne => Some(encoded_bool(a != b)),
        IntOp::Lt => Some(encoded_bool(a < b)),
        IntOp::Gt => Some(encoded_bool(a > b)),
        IntOp::Le => Some(encoded_bool(a <= b)),
        IntOp::Ge => Some(encoded_bool(a >= b)),
    }
}

/// The word result of integer instruction `op` of width `kind` on the words
/// `lhs` and `rhs`, or `None` where division or remainder has no result.
pub open spec fn int_result(op: IntOp, kind: IntKind, lhs: Word, rhs: Word) -> Option<Word> {
    match kind {
        IntKind::I32 => i32_result(op, decoded_i32(lhs), decoded_i32(rhs), decoded_u32(rhs)),
        IntKind::I64 => i64_result(op, decoded_i64(lhs), decoded_i64(rhs), decoded_u32(rhs)),
        IntKind::U32 => u32_result(op, decoded_u32(lhs), decoded_u32(rhs)),
        IntKind::U64 => u64_result(op, lhs, rhs, decoded_u32(rhs)),
    }
}

/// The negation of a signed integer word, wrapping at the minimum.
pub open spec fn int_neg(kind: IntKind, value: Word) -> Word {
    match kind {
        IntKind::I32 => encoded_i32(0i32.wrapping_sub(decoded_i32(value))),
        IntKind::I64 => encoded_i64(0i64.wrapping_sub(decoded_i64(value))),
        IntKind::U32 => encoded_u32(0u32.wrapping_sub(decoded_u32(value))),
        IntKind::U64 => 0u64.wrapping_sub(value),
    }
}

fn compare(op: IntOp, eq: bool, lt: bool) -> (w: Word)
    ensures
        w == encoded_bool(
            match op {
                IntOp::Eq => eq,
                IntOp::Ne => !eq,
                IntOp::Lt => lt,
                IntOp::Gt => !lt && !eq,
                IntOp::Le => lt || eq,
                _ => !lt,
            },
        ),
{
    let b = match op {
        IntOp::Eq => eq,
        IntOp::Ne => !eq,
        IntOp::Lt => lt,
        IntOp::Gt => !lt && !eq,
        IntOp::Le => lt || eq,
        _ => !lt,
    };
    encode_bool(b)
}

fn i32_op(op: IntOp, lhs: Word, rhs: Word) -> (r: Option<Word>)
    ensures
        r == i32_result(op, decoded_i32(lhs), decoded_i32(rhs), decoded_u32(rhs)),
{
    let a = decode_i32(lhs);
    let b = decode_i32(rhs);
    let shift = decode_u32(rhs);
    match op {
        IntOp::Add => Some(encode_i32(a.wrapping_add(b))),
        IntOp::Sub => Some(encode_i32(a.wrapping_sub(b))),
        IntOp::Mul => Some(encode_i32(a.wrapping_mul(b))),
        IntOp::Div => match a.checked_div(b) {
            Some(q) => Some(encode_i32(q)),
            None => None,
        },
        IntOp::Rem => match a.checked_rem(b) {
            Some(q) => Some(encode_i32(q)),
            None => None,
        },
        IntOp::Shl => Some(encode_i32(a.wrapping_shl(shift & 31))),
        IntOp::Shr => Some(encode_i32(a.wrapping_shr(shift & 31))),
        IntOp::Rol => Some(encode_u32(rotate_left_u32(a as u32, shift))),
        IntOp::Ror => Some(encode_u32(rotate_right_u32(a as u32, shift))),
        IntOp::BitAnd => Some(encode_i32(a & b)),
        IntOp::BitOr => Some(encode_i32(a | b)),
        IntOp::BitXor => Some(encode_i32(a ^ b)),
        _ => Some(compare(op, a == b, a < b)),
    }
}

fn i64_op(op: IntOp, lhs: Word, rhs: Word) -> (r: Option<Word>)
    ensures
        r == i64_result(op, decoded_i64(lhs), decoded_i64(rhs), decoded_u32(rhs)),
{
    let a = decode_i64(lhs);
    let b = decode_i64(rhs);
    let shift = decode_u32(rhs);
    match op {
        IntOp::Add => Some(encode_i64(a.wrapping_add(b))),
        IntOp::Sub => Some(encode_i64(a.wrapping_sub(b))),
        IntOp::Mul => Some(encode_i64(a.wrapping_mul(b))),
        IntOp::Div => match a.checked_div(b) {
            Some(q) => Some(encode_i64(q)),
            None => None,
        },
        IntOp::Rem => match a.checked_rem(b) {
            Some(q) => Some(encode_i64(q)),
            None => None,
        },
        IntOp::Shl => Some(encode_i64(a.wrapping_shl(shift & 63))),
        IntOp::Shr => Some(encode_i64(a.wrapping_shr(shift & 63))),
        IntOp::Rol => Some(rotate_left_u64(a as u64, shift)),
        IntOp::Ror => Some(rotate_right_u64(a as u64, shift)),
        IntOp::BitAnd => Some(encode_i64(a & b)),
        IntOp::BitOr => Some(encode_i64(a | b)),
        IntOp::BitXor => Some(encode_i64(a ^ b)),
        _ => Some(compare(op, a == b, a < b)),
    }
}

fn u32_op(op: IntOp, lhs: Word, rhs: Word) -> (r: Option<Word>)
    ensures
        r == u32_result(op, decoded_u32(lhs), decoded_u32(rhs)),
{
    let a = decode_u32(lhs);
    let b = decode_u32(rhs);
    match op {
        IntOp::Add => Some(encode_u32(a.wrapping_add(b))),
        IntOp::Sub => Some(encode_u32(a.wrapping_sub(b))),
        IntOp::Mul => Some(encode_u32(a.wrapping_mul(b))),
        IntOp::Div => if b == 0 { None } else { Some(encode_u32(a / b)) },
        IntOp::Rem => if b == 0 { None } else { Some(encode_u32(a % b)) },
        IntOp::Shl => Some(encode_u32(a.wrapping_shl(b & 31))),
        IntOp::Shr => Some(encode_u32(a.wrapping_shr(b & 31))),
        IntOp::Rol => Some(encode_u32(rotate_left_u32(a, b))),
        IntOp::Ror => Some(encode_u32(rotate_right_u32(a, b))),
        IntOp::BitAnd => Some(encode_u32(a & b)),
        IntOp::BitOr => Some(encode_u32(a | b)),
        IntOp::BitXor => Some(encode_u32(a ^ b)),
        _ => Some(compare(op, a == b, a < b)),
    }
}

fn u64_op(op: IntOp, a: Word, b: Word) -> (r: Option<Word>)
    ensures
        r == u64_result(op, a, b, decoded_u32(b)),
{
    let shift = decode_u32(b);
    match op {
        IntOp::Add => Some(a.wrapping_add(b)),
        IntOp::Sub => Some(a.wrapping_sub(b)),
        IntOp::Mul => Some(a.wrapping_mul(b)),
        IntOp::Div => if b == 0 { None } else { Some(a / b) },
        IntOp::Rem => if b == 0 { None } else { Some(a % b) },
        IntOp::Shl => Some(a.wrapping_shl(shift & 63)),
        IntOp::Shr => Some(a.wrapping_shr(shift & 63)),
        IntOp::Rol => Some(rotate_left_u64(a, shift)),
        IntOp::Ror => Some(rotate_right_u64(a, shift)),
        IntOp::BitAnd => Some(a & b),
        IntOp::BitOr => Some(a | b),
        IntOp::BitXor => Some(a ^ b),
        _ => Some(compare(op, a == b, a < b)),
    }
}

/// Computes integer instruction `op` of width `kind` on the words `lhs`
/// (the deeper operand) and `rhs` (the top operand).
pub fn int_binary(op: IntOp, kind: IntKind, lhs: Word, rhs: Word) -> (r: Option<Word>)
    ensures
        r == int_result(op, kind, lhs, rhs),
{
    match kind {
        IntKind::I32 => i32_op(op, lhs, rhs),
        IntKind::I64 => i64_op(op, lhs, rhs),
        IntKind::U32 => u32_op(op, lhs, rhs),
        IntKind::U64 => u64_op(op, lhs, rhs),
    }
}

/// Negates a signed integer word of width `kind`, wrapping at the minimum.
pub fn int_negate(kind: IntKind, value: Word) -> (r: Word)
    ensures
        r == int_neg(kind, value),
{
    match kind {
        IntKind::I32 => encode_i32(0i32.wrapping_sub(decode_i32(value))),
        IntKind::I64 => encode_i64(0i64.wrapping_sub(decode_i64(value))),
        IntKind::U32 => encode_u32(0u32.wrapping_sub(decode_u32(value))),
        IntKind::U64 => 0u64.wrapping_sub(value),
    }
}

/// Floor division of a negative number goes through its bitwise complement:
/// `a / p == -1 - (-1 - a) / p`.
proof fn lemma_floor_div_complement(a: int, p: int)
    requires
        a < 0,
        p > 0,
    ensures
        -1 - ((-1 - a) / p) == a / p,
{
    let b = -1 - a;
    let q = b / p;
    let r = b % p;
    vstd::arithmetic::div_mod::lemma_fundamental_div_mod(b, p);
    assert(0 <= r < p) by {
        vstd::arithmetic::div_mod::lemma_mod_bound(b, p);
    }
    assert(a == (-1 - q) * p + (p - 1 - r)) by (nonlinear_arith)
        requires
            b == p * q + r,
            a == -1 - b,
    ;
    vstd::arithmetic::div_mod::lemma_fundamental_div_mod_converse_div(a, p, -1 - q, p - 1 - r);
}

/// A non-negative `i32` shifted right by `n < 32` is its floor quotient by
/// `2^n`.
proof fn lemma_nonnegative_i32_shr(a: i32, n: u32)
    requires
        a >= 0,
        n < 32,
    ensures
        (a >> n) as int == a as int / pow2(n as nat) as int,
        a >> n >= 0,
{
    assert((a >> n) as u32 == (a as u32) >> n && a >> n >= 0) by (bit_vector)
        requires
            a >= 0,
            n < 32,
    ;
    vstd::bits::lemma_u32_shr_is_div(a as u32, n);
}

/// Shifting a signed 32-bit integer right is arithmetic: the result, read
/// as an `i32`, is the operand divided by 2 to the power of the shift amount
/// (the right operand modulo 32), rounded down. A negative operand stays
/// negative; a logical shift would make it a large positive number.
pub proof fn lemma_i32_shr_is_floor_division(lhs: Word, rhs: Word)
    ensures
        int_result(IntOp::Shr, IntKind::I32, lhs, rhs) matches Some(w)
            && decoded_i32(w) as int == decoded_i32(lhs) as int / pow2((decoded_u32(rhs) % 32) as nat) as int,
{
    let a = decoded_i32(lhs);
    let shift = decoded_u32(rhs);
    let n = shift & 31;
    assert(n % 32 == shift % 32 && n < 32) by (bit_vector)
        requires
            n == shift & 31,
    ;
    let r = a.wrapping_shr(n);
    assert(r == a >> (n % 32));
    assert(r == a >> n);
    crate::word::lemma_i32_round_trip(r);
    vstd::arithmetic::power2::lemma_pow2_pos(n as nat);
    if a >= 0 {
        lemma_nonnegative_i32_shr(a, n);
    } else {
        let b = !a;
        assert(b >= 0 && b as int == -1 - a as int && a >> n == !(b >> n)) by (bit_vector)
            requires
                a < 0,
                b == !a,
                n < 32,
        ;
        lemma_nonnegative_i32_shr(b, n);
        let c = b >> n;
        assert((!c) as int == -1 - c as int) by (bit_vector);
        lemma_floor_div_complement(a as int, pow2(n as nat) as int);
    }
}

/// The number that word `w` holds as an operand of type `kind`: signed for
/// `i32` and `i64`, unsigned for `u32` and `u64`; the 32-bit types read the
/// low half of the word.
pub open spec fn int_value(kind: IntKind, w: Word) -> int {
    match kind {
        IntKind::I32 => decoded_i32(w) as int,
        IntKind::I64 => decoded_i64(w) as int,
        IntKind::U32 => decoded_u32(w) as int,
        IntKind::U64 => w as int,
    }
}

/// The number of bits of type `kind`.
pub open spec fn int_width(kind: IntKind) -> nat {
    match kind {
        IntKind::I32 | IntKind::U32 => 32,
        IntKind::I64 | IntKind::U64 => 64,
    }
}

/// Whether `op` is a comparison.
pub open spec fn is_comparison(op: IntOp) -> bool {
    op is Eq || op is Ne || op is Lt || op is Gt || op is Le || op is Ge
}

/// The truth of comparison `op` between the numbers `a` and `b`.
pub open spec fn compares(op: IntOp, a: int, b: int) -> bool {
    match op {
        IntOp::Eq => a == b,
        IntOp::Ne => a != b,
        IntOp::Lt => a < b,
        IntOp::Gt => a > b,
        IntOp::Le => a <= b,
        _ => a >= b,
    }
}

/// A comparison compares the numbers its operands hold as the
/// instruction's type, signed for `i32` and `i64` and unsigned for `u32` and
/// `u64`, and gives the canonical boolean word.
pub proof fn lemma_int_comparisons(op: IntOp, kind: IntKind, lhs: Word, rhs: Word)
    requires
        is_comparison(op),
    ensures
        int_result(op, kind, lhs, rhs) == Some(
            encoded_bool(compares(op, int_value(kind, lhs), int_value(kind, rhs))),
        ),
{
}

/// A non-negative `i64` shifted right by `n < 64` is its floor quotient by
/// `2^n`.
proof fn lemma_nonnegative_i64_shr(a: i64, n: u32)
    requires
        a >= 0,
        n < 64,
    ensures
        (a >> n) as int == a as int / pow2(n as nat) as int,
        a >> n >= 0,
{
    assert((a >> n) as u64 == (a as u64) >> (n as u64) && a >> n >= 0) by (bit_vector)
        requires
            a >= 0,
            n < 64,
    ;
    vstd::bits::lemma_u64_shr_is_div(a as u64, n as u64);
}

/// A right shift divides by 2 to the shift amount (the right operand
/// modulo the type's width), rounding down: arithmetic for `i32` and `i64`,
/// so a negative operand stays negative, and logical for `u32` and `u64`.
pub proof fn lemma_int_shr_is_floor_division(kind: IntKind, lhs: Word, rhs: Word)
    ensures
        int_result(IntOp::Shr, kind, lhs, rhs) matches Some(w) && int_value(kind, w) == int_value(kind, lhs)
            / pow2((decoded_u32(rhs) as int % int_width(kind) as int) as nat) as int,
{
    let shift = decoded_u32(rhs);
    match kind {
        IntKind::I32 => {
            lemma_i32_shr_is_floor_division(lhs, rhs);
        },
        IntKind::I64 => {
            let a = decoded_i64(lhs);
            let n = shift & 63;
            assert(n % 64 == shift % 64 && n < 64) by (bit_vector)
                requires
                    n == shift & 63,
            ;
            let r = a.wrapping_shr(n);
            assert(r == a >> n);
            crate::word::lemma_i64_round_trip(r, 0);
            vstd::arithmetic::power2::lemma_pow2_pos(n as nat);
            if a >= 0 {
                lemma_nonnegative_i64_shr(a, n);
            } else {
                let b = !a;
                assert(b >= 0 && b as int == -1 - a as int && a >> n == !(b >> n)) by (bit_vector)
                    requires
                        a < 0,
                        b == !a,
                        n < 64,
                ;
                lemma_nonnegative_i64_shr(b, n);
                let c = b >> n;
                assert((!c) as int == -1 - c as int) by (bit_vector);
                lemma_floor_div_complement(a as int, pow2(n as nat) as int);
            }
        },
        IntKind::U32 => {
            let a = decoded_u32(lhs);
            let n = shift & 31;
            assert(n % 32 == shift % 32 && n < 32) by (bit_vector)
                requires
                    n == shift & 31,
            ;
            assert(a.wrapping_shr(n) == a >> n);
            vstd::bits::lemma_u32_shr_is_div(a, n);
            crate::word::lemma_u32_round_trip(a >> n);
        },
        IntKind::U64 => {
            let a = lhs;
            let n = shift & 63;
            assert(n % 64 == shift % 64 && n < 64) by (bit_vector)
                requires
                    n == shift & 63,
            ;
            assert(a.wrapping_shr(n) == a >> n);
            vstd::bits::lemma_u64_shr_is_div(a, n as u64);
            assert(a >> n == a >> (n as u64)) by (bit_vector)
                requires
                    n < 64,
            ;
        },
    }
}

/// The number of type `kind` that is congruent to `x` modulo 2 to the
/// type's width: what a computation that wraps around gives.
#[verifier::opaque]
pub open spec fn wrapped(kind: IntKind, x: int) -> int {
    let m = pow2(int_width(kind)) as int;
    match kind {
        IntKind::I32 | IntKind::I64 => (x + m / 2) % m - m / 2,
        IntKind::U32 | IntKind::U64 => x % m,
    }
}

/// The exact sum, difference or product of `a` and `b`.
pub open spec fn exact_arithmetic(op: IntOp, a: int, b: int) -> int {
    match op {
        IntOp::Add => a + b,
        IntOp::Sub => a - b,
        _ => a * b,
    }
}

/// A number of type `kind` that differs from `x` by a multiple `k` of 2 to
/// the type's width is `x` wrapped into the type.
proof fn lemma_wrapped_by(kind: IntKind, x: int, r: int, k: int)
    requires
        r == x + k * pow2(int_width(kind)) as int,
        kind is I32 ==> i32::MIN <= r <= i32::MAX,
        kind is I64 ==> i64::MIN <= r <= i64::MAX,
        kind is U32 ==> 0 <= r <= u32::MAX,
        kind is U64 ==> 0 <= r <= u64::MAX,
    ensures
        wrapped(kind, x) == r,
{
    reveal(wrapped);
    vstd::arithmetic::power2::lemma2_to64();
    vstd::arithmetic::power2::lemma2_to64_rest();
    let m = pow2(int_width(kind)) as int;
    match kind {
        IntKind::I32 | IntKind::I64 => {
            assert(m == 0x1_0000_0000 || m == 0x1_0000_0000_0000_0000);
            assert(x + m / 2 == (-k) * m + (r + m / 2)) by (nonlinear_arith)
                requires
                    r == x + k * m,
            ;
            vstd::arithmetic::div_mod::lemma_fundamental_div_mod_converse_mod(x + m / 2, m, -k, r + m / 2);
        },
        IntKind::U32 | IntKind::U64 => {
            assert(m == 0x1_0000_0000 || m == 0x1_0000_0000_0000_0000);
            assert(x == (-k) * m + r) by (nonlinear_arith)
                requires
                    r == x + k * m,
            ;
            vstd::arithmetic::div_mod::lemma_fundamental_div_mod_converse_mod(x, m, -k, r);
        },
    }
}

/// A signed product cropped to a type of modulus `m` differs from the exact
/// product by a multiple of `m`.
proof fn lemma_signed_crop(q: int, m: int, max: int) -> (k: int)
    requires
        m > 0,
    ensures
        (if q % m > max { q % m - m } else { q % m }) == q + k * m,
{
    vstd::arithmetic::div_mod::lemma_fundamental_div_mod(q, m);
    let d = q / m;
    assert(q % m - m == q + (-d - 1) * m && q % m == q + (-d) * m) by (nonlinear_arith)
        requires
            q == m * d + q % m,
    ;
    if q % m > max { -d - 1 } else { -d }
}

/// The `i32` case of `lemma_int_wrapping_arithmetic`.
proof fn lemma_i32_wrapping_arithmetic(op: IntOp, lhs: Word, rhs: Word)
    requires
        op is Add || op is Sub || op is Mul,
    ensures
        int_result(op, IntKind::I32, lhs, rhs) matches Some(w) && int_value(IntKind::I32, w) == wrapped(
            IntKind::I32,
            exact_arithmetic(op, int_value(IntKind::I32, lhs), int_value(IntKind::I32, rhs)),
        ),
{
    vstd::arithmetic::power2::lemma2_to64();
    let x = decoded_i32(lhs);
    let y = decoded_i32(rhs);
    let e = exact_arithmetic(op, x as int, y as int);
    let r = match op {
        IntOp::Add => x.wrapping_add(y),
        IntOp::Sub => x.wrapping_sub(y),
        _ => x.wrapping_mul(y),
    };
    crate::word::lemma_i32_round_trip(r);
    let k = match op {
        IntOp::Add | IntOp::Sub => if e > i32::MAX { -1int } else if e < i32::MIN { 1int } else { 0int },
        _ => lemma_signed_crop(e, 0x1_0000_0000, i32::MAX as int),
    };
    lemma_wrapped_by(IntKind::I32, e, r as int, k);
}

/// The `i64` case of `lemma_int_wrapping_arithmetic`.
proof fn lemma_i64_wrapping_arithmetic(op: IntOp, lhs: Word, rhs: Word)
    requires
        op is Add || op is Sub || op is Mul,
    ensures
        int_result(op, IntKind::I64, lhs, rhs) matches Some(w) && int_value(IntKind::I64, w) == wrapped(
            IntKind::I64,
            exact_arithmetic(op, int_value(IntKind::I64, lhs), int_value(IntKind::I64, rhs)),
        ),
{
    vstd::arithmetic::power2::lemma2_to64();
    vstd::arithmetic::power2::lemma2_to64_rest();
    let x = decoded_i64(lhs);
    let y = decoded_i64(rhs);
    let e = exact_arithmetic(op, x as int, y as int);
    let r = match op {
        IntOp::Add => x.wrapping_add(y),
        IntOp::Sub => x.wrapping_sub(y),
        _ => x.wrapping_mul(y),
    };
    crate::word::lemma_i64_round_trip(r, 0);
    let k = match op {
        IntOp::Add | IntOp::Sub => if e > i64::MAX { -1int } else if e < i64::MIN { 1int } else { 0int },
        _ => lemma_signed_crop(e, 0x1_0000_0000_0000_0000, i64::MAX as int),
    };
    lemma_wrapped_by(IntKind::I64, e, r as int, k);
}

/// The `u32` case of `lemma_int_wrapping_arithmetic`.
proof fn lemma_u32_wrapping_arithmetic(op: IntOp, lhs: Word, rhs: Word)
    requires
        op is Add || op is Sub || op is Mul,
    ensures
        int_result(op, IntKind::U32, lhs, rhs) matches Some(w) && int_value(IntKind::U32, w) == wrapped(
            IntKind::U32,
            exact_arithmetic(op, int_value(IntKind::U32, lhs), int_value(IntKind::U32, rhs)),
        ),
{
    vstd::arithmetic::power2::lemma2_to64();
    let x = decoded_u32(lhs);
    let y = decoded_u32(rhs);
    let e = exact_arithmetic(op, x as int, y as int);
    let r = match op {
        IntOp::Add => x.wrapping_add(y),
        IntOp::Sub => x.wrapping_sub(y),
        _ => x.wrapping_mul(y),
    };
    crate::word::lemma_u32_round_trip(r);
    let k = match op {
        IntOp::Add => if e > u32::MAX { -1int } else { 0int },
        IntOp::Sub => if e < 0 { 1int } else { 0int },
        _ => lemma_signed_crop(e, 0x1_0000_0000, 0x1_0000_0000),
    };
    lemma_wrapped_by(IntKind::U32, e, r as int, k);
}

/// The `u64` case of `lemma_int_wrapping_arithmetic`.
proof fn lemma_u64_wrapping_arithmetic(op: IntOp, lhs: Word, rhs: Word)
    requires
        op is Add || op is Sub || op is Mul,
    ensures
        int_result(op, IntKind::U64, lhs, rhs) matches Some(w) && int_value(IntKind::U64, w) == wrapped(
            IntKind::U64,
            exact_arithmetic(op, int_value(IntKind::U64, lhs), int_value(IntKind::U64, rhs)),
        ),
{
    vstd::arithmetic::power2::lemma2_to64();
    vstd::arithmetic::power2::lemma2_to64_rest();
    let x = lhs;
    let y = rhs;
    let e = exact_arithmetic(op, x as int, y as int);
    let r = match op {
        IntOp::Add => x.wrapping_add(y),
        IntOp::Sub => x.wrapping_sub(y),
        _ => x.wrapping_mul(y),
    };
    let k = match op {
        IntOp::Add => if e > u64::MAX { -1int } else { 0int },
        IntOp::Sub => if e < 0 { 1int } else { 0int },
        _ => lemma_signed_crop(e, 0x1_0000_0000_0000_0000, 0x1_0000_0000_0000_0000),
    };
    lemma_wrapped_by(IntKind::U64, e, r as int, k);
}

/// Addition, subtraction and multiplication wrap around: the result, read
/// as the instruction's type, is the exact sum, difference or product of
/// the operands brought into the type's range modulo 2 to the type's width.
pub proof fn lemma_int_wrapping_arithmetic(op: IntOp, kind: IntKind, lhs: Word, rhs: Word)
    requires
        op is Add || op is Sub || op is Mul,
    ensures
        int_result(op, kind, lhs, rhs) matches Some(w) && int_value(kind, w) == wrapped(
            kind,
            exact_arithmetic(op, int_value(kind, lhs), int_value(kind, rhs)),
        ),
{
    match kind {
        IntKind::I32 => lemma_i32_wrapping_arithmetic(op, lhs, rhs),
        IntKind::I64 => lemma_i64_wrapping_arithmetic(op, lhs, rhs),
        IntKind::U32 => lemma_u32_wrapping_arithmetic(op, lhs, rhs),
        IntKind::U64 => lemma_u64_wrapping_arithmetic(op, lhs, rhs),
    }
}

} // verus!
