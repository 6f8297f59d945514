//! The CPU's raw word representation and its typed bit conversions.
//!
//! Narrow values (`i32`, `u32`, references, string ids) live in the low 32 bits
//! of a word with the high bits clear; wide values keep their bit pattern.
use vstd::prelude::*;

verus! {

/// The value stored by the word-based CPU.
pub type Word = u64;

/// The word holding an `i32`: its two's-complement bits in the low half.
pub open spec fn encoded_i32(value: i32) -> Word {
    value as u32 as Word
}

/// The `i32` held by the low half of a word.
pub open spec fn decoded_i32(word: Word) -> i32 {
    word as u32 as i32
}

/// The word holding a `u32`.
pub open spec fn encoded_u32(value: u32) -> Word {
    value as Word
}

/// The `u32` held by the low half of a word.
pub open spec fn decoded_u32(word: Word) -> u32 {
    word as u32
}

/// The word holding an `i64`: its two's-complement bits.
pub open spec fn encoded_i64(value: i64) -> Word {
    value as Word
}

/// The `i64` whose bits are those of the word.
pub open spec fn decoded_i64(word: Word) -> i64 {
    word as i64
}

/// The canonical word of a boolean: `1` for true, `0` for false.
pub open spec fn encoded_bool(value: bool) -> Word {
    if value { 1 } else { 0 }
}

/// A word read as a boolean: every nonzero word is true.
pub open spec fn decoded_bool(word: Word) -> bool {
    word != 0
}

/// Encodes an `i32` in the low 32 bits of a word.
pub fn encode_i32(value: i32) -> (w: Word)
    ensures
        w == encoded_i32(value),
{
    value as u32 as Word
}

/// Decodes an `i32` from the low 32 bits of a word.
pub fn decode_i32(word: Word) -> (v: i32)
    ensures
        v == decoded_i32(word),
{
    word as u32 as i32
}

/// Encodes a `u32` in the low 32 bits of a word.
pub fn encode_u32(value: u32) -> (w: Word)
    ensures
        w == encoded_u32(value),
{
    value as Word
}

/// Decodes a `u32` from the low 32 bits of a word.
pub fn decode_u32(word: Word) -> (v: u32)
    ensures
        v == decoded_u32(word),
{
    word as u32
}

/// Encodes an `i64` without changing its bit pattern.
pub fn encode_i64(value: i64) -> (w: Word)
    ensures
        w == encoded_i64(value),
{
    value as Word
}

/// Decodes an `i64` without changing its bit pattern.
pub fn decode_i64(word: Word) -> (v: i64)
    ensures
        v == decoded_i64(word),
{
    word as i64
}

/// Encodes a `u64` without changing its bit pattern.
pub fn encode_u64(value: u64) -> (w: Word)
    ensures
        w == value,
{
    value
}

/// Decodes a `u64` without changing its bit pattern.
pub fn decode_u64(word: Word) -> (v: u64)
    ensures
        v == word,
{
    word
}

/// Encodes a boolean as its canonical word representation, `0` or `1`.
pub fn encode_bool(value: bool) -> (w: Word)
    ensures
        w == encoded_bool(value),
{
    if value { 1 } else { 0 }
}

/// Decodes a boolean word. Zero is false and every nonzero word is true.
pub fn decode_bool(word: Word) -> (b: bool)
    ensures
        b == decoded_bool(word),
{
    word != 0
}

/// Encodes a numeric function reference.
pub fn encode_function_ref(id: u32) -> (w: Word)
    ensures
        w == encoded_u32(id),
{
    encode_u32(id)
}

/// Decodes a numeric function reference.
pub fn decode_function_ref(word: Word) -> (id: u32)
    ensures
        id == decoded_u32(word),
{
    decode_u32(word)
}

/// Encodes a numeric heap reference.
pub fn encode_heap_ref(id: u32) -> (w: Word)
    ensures
        w == encoded_u32(id),
{
    encode_u32(id)
}

/// Decodes a numeric heap reference.
pub fn decode_heap_ref(word: Word) -> (id: u32)
    ensures
        id == decoded_u32(word),
{
    decode_u32(word)
}

/// Encodes an interned string identifier.
pub fn encode_string_id(id: u32) -> (w: Word)
    ensures
        w == encoded_u32(id),
{
    encode_u32(id)
}

/// Decodes an interned string identifier.
pub fn decode_string_id(word: Word) -> (id: u32)
    ensures
        id == decoded_u32(word),
{
    decode_u32(word)
}

/// Decoding an encoded `i32` gives it back, and the encoding leaves the high
/// 32 bits of the word clear.
pub proof fn lemma_i32_round_trip(value: i32)
    ensures
        decoded_i32(encoded_i32(value)) == value,
        encoded_i32(value) <= u32::MAX,
{
    assert((value as u32 as u64) as u32 as i32 == value) by (bit_vector);
}

/// Decoding an encoded `u32` (or reference, or string id) gives it back, and
/// the encoding leaves the high 32 bits of the word clear.
pub proof fn lemma_u32_round_trip(value: u32)
    ensures
        decoded_u32(encoded_u32(value)) == value,
        encoded_u32(value) <= u32::MAX,
{
    assert((value as u64) as u32 == value) by (bit_vector);
}

/// The `i64` encoding is a bijection between `i64` values and words.
pub proof fn lemma_i64_round_trip(value: i64, word: Word)
    ensures
        decoded_i64(encoded_i64(value)) == value,
        encoded_i64(decoded_i64(word)) == word,
{
    assert((value as u64) as i64 == value) by (bit_vector);
    assert((word as i64) as u64 == word) by (bit_vector);
}

/// Decoding an encoded boolean gives it back, and the encoding is `0` or `1`.
pub proof fn lemma_bool_round_trip(value: bool)
    ensures
        decoded_bool(encoded_bool(value)) == value,
        encoded_bool(value) <= 1,
{
}

/// A word that holds a narrow value is the encoding of what it decodes to.
pub proof fn lemma_narrow_word_round_trip(word: Word)
    requires
        word <= u32::MAX,
    ensures
        encoded_u32(decoded_u32(word)) == word,
        encoded_i32(decoded_i32(word)) == word,
{
    assert(word <= 0xffff_ffffu64 ==> (word as u32) as u64 == word) by (bit_vector);
    assert(word <= 0xffff_ffffu64 ==> ((word as u32 as i32) as u32) as u64 == word) by (bit_vector);
}

} // verus!
