use alglobo::wire::{
    decode_i32_le, decode_u64_be, decode_u64_le, encode_i32_le, encode_u64_be, encode_u64_le,
};

const SIGNED: [i32; 9] = [0, 1, -1, 255, 256, -256, 0x1234_5678, i32::MAX, i32::MIN];
const UNSIGNED: [u64; 8] =
    [0, 1, 255, 256, 0x0102_0304_0506_0708, 0xffff_ffff, 0x1_0000_0000, u64::MAX];

#[test]
fn i32_bytes_are_little_endian() {
    for x in SIGNED {
        assert_eq!(encode_i32_le(x), x.to_le_bytes());
    }
    assert_eq!(encode_i32_le(0x1234_5678), [0x78, 0x56, 0x34, 0x12]);
    assert_eq!(encode_i32_le(-2), [0xfe, 0xff, 0xff, 0xff]);
}

#[test]
fn i32_bytes_round_trip() {
    for x in SIGNED {
        let b = encode_i32_le(x);
        assert_eq!(decode_i32_le(&b), x);
        assert_eq!(decode_i32_le(&x.to_le_bytes()), x);
    }
    assert_eq!(decode_i32_le(&[0, 0, 0, 0x80]), i32::MIN);
    assert_eq!(decode_i32_le(&[0xff, 0xff, 0xff, 0x7f]), i32::MAX);
    assert_eq!(decode_i32_le(&[0x2c, 1, 0, 0]), 300);
}

#[test]
fn u64_bytes_in_both_orders() {
    for x in UNSIGNED {
        assert_eq!(encode_u64_le(x), x.to_le_bytes());
        assert_eq!(encode_u64_be(x), x.to_be_bytes());
    }
    assert_eq!(encode_u64_be(1), [0, 0, 0, 0, 0, 0, 0, 1]);
    assert_eq!(encode_u64_le(1), [1, 0, 0, 0, 0, 0, 0, 0]);
}

#[test]
fn u64_bytes_round_trip() {
    for x in UNSIGNED {
        assert_eq!(decode_u64_le(&encode_u64_le(x)), x);
        assert_eq!(decode_u64_be(&encode_u64_be(x)), x);
        assert_eq!(decode_u64_le(&x.to_le_bytes()), x);
        assert_eq!(decode_u64_be(&x.to_be_bytes()), x);
    }
    assert_eq!(decode_u64_be(&[0, 0, 0, 0, 0, 0, 1, 2]), 258);
    assert_eq!(decode_u64_le(&[2, 1, 0, 0, 0, 0, 0, 0]), 258);
}
