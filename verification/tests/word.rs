use vihaco::word::{
    decode_bool, decode_function_ref, decode_heap_ref, decode_i32, decode_i64, decode_string_id,
    decode_u32, decode_u64, encode_bool, encode_function_ref, encode_heap_ref, encode_i32,
    encode_i64, encode_string_id, encode_u32, encode_u64, Word,
};

#[test]
fn narrow_integers_are_canonicalized_to_low_32_bits() {
    assert_eq!(encode_i32(-1), u64::from(u32::MAX));
    assert_eq!(decode_i32(u64::MAX), -1);
    assert_eq!(encode_u32(u32::MAX), u64::from(u32::MAX));
    assert_eq!(decode_u32(u64::MAX), u32::MAX);
}

#[test]
fn wide_integers_preserve_bits() {
    let signed = i64::MIN + 123;
    assert_eq!(decode_i64(encode_i64(signed)), signed);

    let unsigned = u64::MAX - 123;
    assert_eq!(decode_u64(encode_u64(unsigned)), unsigned);
}

#[test]
fn booleans_use_canonical_encoding() {
    assert_eq!(encode_bool(false), 0);
    assert_eq!(encode_bool(true), 1);
    assert!(!decode_bool(0));
    assert!(decode_bool(1));
    assert!(decode_bool(Word::MAX));
}

#[test]
fn references_and_string_ids_are_numeric_words() {
    assert_eq!(decode_function_ref(encode_function_ref(7)), 7);
    assert_eq!(decode_heap_ref(encode_heap_ref(11)), 11);
    assert_eq!(decode_string_id(encode_string_id(13)), 13);
    assert_eq!(encode_heap_ref(u32::MAX), u64::from(u32::MAX));
}

#[test]
fn narrow_round_trips_on_sample_values() {
    for v in [i32::MIN, -7, 0, 7, i32::MAX] {
        assert_eq!(decode_i32(encode_i32(v)), v);
        assert!(encode_i32(v) <= u64::from(u32::MAX));
    }
    for v in [0u32, 1, 65_535, u32::MAX] {
        assert_eq!(decode_u32(encode_u32(v)), v);
    }
    assert_eq!(encode_i32(-7), 0xffff_fff9);
    assert_eq!(decode_i32(0x1_0000_0005), 5);
}

#[test]
fn boolean_round_trips() {
    for b in [false, true] {
        assert_eq!(decode_bool(encode_bool(b)), b);
    }
}
