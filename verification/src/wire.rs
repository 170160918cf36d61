//! Fixed-width integers as bytes on the wire.
use vstd::prelude::*;

verus! {

/// The number that the 32 bits of `x` spell when they are read without a sign.
pub open spec fn unsigned_of(x: i32) -> int {
    if x < 0 {
        x + 0x1_0000_0000
    } else {
        x as int
    }
}

/// The signed number whose 32 bits spell `u`.
pub open spec fn signed_of(u: int) -> i32
    recommends
        0 <= u < 0x1_0000_0000,
{
    if u >= 0x8000_0000 {
        (u - 0x1_0000_0000) as i32
    } else {
        u as i32
    }
}

/// The four base-256 digits of `u`, lowest first.
pub open spec fn digits4(u: int) -> Seq<u8> {
    seq![
        (u % 256) as u8,
        (u / 0x100 % 256) as u8,
        (u / 0x1_0000 % 256) as u8,
        (u / 0x100_0000 % 256) as u8,
    ]
}

/// The number whose base-256 digits, lowest first, are the first four of `b`.
pub open spec fn value4(b: Seq<u8>) -> int {
    b[0] + b[1] * 0x100 + b[2] * 0x1_0000 + b[3] * 0x100_0000
}

/// The eight base-256 digits of `x`, lowest first.
pub open spec fn digits8(x: int) -> Seq<u8> {
    seq![
        (x % 256) as u8,
        (x / 0x100 % 256) as u8,
        (x / 0x1_0000 % 256) as u8,
        (x / 0x100_0000 % 256) as u8,
        (x / 0x1_0000_0000 % 256) as u8,
        (x / 0x100_0000_0000 % 256) as u8,
        (x / 0x1_0000_0000_0000 % 256) as u8,
        (x / 0x100_0000_0000_0000 % 256) as u8,
    ]
}

/// The number whose base-256 digits, lowest first, are the first eight of `b`.
pub open spec fn value8(b: Seq<u8>) -> int {
    b[0] + b[1] * 0x100 + b[2] * 0x1_0000 + b[3] * 0x100_0000 + b[4] * 0x1_0000_0000 + b[5]
        * 0x100_0000_0000 + b[6] * 0x1_0000_0000_0000 + b[7] * 0x100_0000_0000_0000
}

/// The little-endian two's complement encoding of `x`.
pub open spec fn i32_le_bytes(x: i32) -> Seq<u8> {
    digits4(unsigned_of(x))
}

/// The number that four little-endian two's complement bytes encode.
pub open spec fn i32_from_le_bytes(b: Seq<u8>) -> i32 {
    signed_of(value4(b))
}

/// The little-endian encoding of `x`.
pub open spec fn u64_le_bytes(x: u64) -> Seq<u8> {
    digits8(x as int)
}

/// The number that eight little-endian bytes encode.
pub open spec fn u64_from_le_bytes(b: Seq<u8>) -> u64 {
    value8(b) as u64
}

/// The big-endian encoding of `x`.
pub open spec fn u64_be_bytes(x: u64) -> Seq<u8> {
    digits8(x as int).reverse()
}

/// The number that eight big-endian bytes encode.
pub open spec fn u64_from_be_bytes(b: Seq<u8>) -> u64 {
    value8(b.reverse()) as u64
}

/// The quotients of `x` by the powers of 256 are successive quotients by 256.
proof fn lemma_quotients(x: int)
    requires
        0 <= x,
    ensures
        x / 0x1_0000 == x / 0x100 / 256,
        x / 0x100_0000 == x / 0x1_0000 / 256,
        x / 0x1_0000_0000 == x / 0x100_0000 / 256,
        x / 0x100_0000_0000 == x / 0x1_0000_0000 / 256,
        x / 0x1_0000_0000_0000 == x / 0x100_0000_0000 / 256,
        x / 0x100_0000_0000_0000 == x / 0x1_0000_0000_0000 / 256,
{
    vstd::arithmetic::div_mod::lemma_div_denominator(x, 0x100, 256);
    vstd::arithmetic::div_mod::lemma_div_denominator(x, 0x1_0000, 256);
    vstd::arithmetic::div_mod::lemma_div_denominator(x, 0x100_0000, 256);
    vstd::arithmetic::div_mod::lemma_div_denominator(x, 0x1_0000_0000, 256);
    vstd::arithmetic::div_mod::lemma_div_denominator(x, 0x100_0000_0000, 256);
    vstd::arithmetic::div_mod::lemma_div_denominator(x, 0x1_0000_0000_0000, 256);
}

/// A number is its lowest base-256 digit plus 256 times the rest.
proof fn lemma_split(v: int, low: int, high: int)
    requires
        v == low + 256 * high,
        0 <= low < 256,
    ensures
        v % 256 == low,
        v / 256 == high,
{
}

/// The four digits of a number below 2^32 add up to it.
pub proof fn lemma_value_of_digits4(u: int)
    requires
        0 <= u < 0x1_0000_0000,
    ensures
        value4(digits4(u)) == u,
{
    lemma_quotients(u);
    let k1 = u / 0x100;
    let k2 = u / 0x1_0000;
    let k3 = u / 0x100_0000;
    assert(u == u % 256 + 256 * k1);
    assert(k1 == k1 % 256 + 256 * k2);
    assert(k2 == k2 % 256 + 256 * k3);
    assert(k3 == k3 % 256);
}

/// Four bytes are the digits of the number that they add up to.
pub proof fn lemma_digits_of_value4(b: Seq<u8>)
    requires
        b.len() == 4,
    ensures
        0 <= value4(b) < 0x1_0000_0000,
        digits4(value4(b)) == b,
{
    let v = value4(b);
    let k3 = b[3] as int;
    let k2 = b[2] + 256 * k3;
    let k1 = b[1] + 256 * k2;
    assert(v == b[0] + 256 * k1);
    lemma_quotients(v);
    lemma_split(v, b[0] as int, k1);
    lemma_split(k1, b[1] as int, k2);
    lemma_split(k2, b[2] as int, k3);
    assert(k3 % 256 == k3);
    assert(digits4(v) =~= b);
}

/// Decoding undoes encoding, for every 32-bit signed number.
pub proof fn lemma_i32_le_round_trip(x: i32)
    ensures
        i32_le_bytes(x).len() == 4,
        i32_from_le_bytes(i32_le_bytes(x)) == x,
{
    lemma_value_of_digits4(unsigned_of(x));
}

/// Encoding undoes decoding, for every four bytes.
pub proof fn lemma_i32_le_bytes_unique(b: Seq<u8>)
    requires
        b.len() == 4,
    ensures
        i32_le_bytes(i32_from_le_bytes(b)) == b,
{
    lemma_digits_of_value4(b);
}

/// The eight digits of a number below 2^64 add up to it.
pub proof fn lemma_value_of_digits8(x: int)
    requires
        0 <= x < 0x1_0000_0000_0000_0000,
    ensures
        value8(digits8(x)) == x,
{
    lemma_quotients(x);
    let k1 = x / 0x100;
    let k2 = x / 0x1_0000;
    let k3 = x / 0x100_0000;
    let k4 = x / 0x1_0000_0000;
    let k5 = x / 0x100_0000_0000;
    let k6 = x / 0x1_0000_0000_0000;
    let k7 = x / 0x100_0000_0000_0000;
    assert(x == x % 256 + 256 * k1);
    assert(k1 == k1 % 256 + 256 * k2);
    assert(k2 == k2 % 256 + 256 * k3);
    assert(k3 == k3 % 256 + 256 * k4);
    assert(k4 == k4 % 256 + 256 * k5);
    assert(k5 == k5 % 256 + 256 * k6);
    assert(k6 == k6 % 256 + 256 * k7);
    assert(k7 == k7 % 256);
}

/// Eight bytes are the digits of the number that they add up to.
pub proof fn lemma_digits_of_value8(b: Seq<u8>)
    requires
        b.len() == 8,
    ensures
        0 <= value8(b) < 0x1_0000_0000_0000_0000,
        digits8(value8(b)) == b,
{
    let v = value8(b);
    let k7 = b[7] as int;
    let k6 = b[6] + 256 * k7;
    let k5 = b[5] + 256 * k6;
    let k4 = b[4] + 256 * k5;
    let k3 = b[3] + 256 * k4;
    let k2 = b[2] + 256 * k3;
    let k1 = b[1] + 256 * k2;
    assert(v == b[0] + 256 * k1);
    lemma_quotients(v);
    lemma_split(v, b[0] as int, k1);
    lemma_split(k1, b[1] as int, k2);
    lemma_split(k2, b[2] as int, k3);
    lemma_split(k3, b[3] as int, k4);
    lemma_split(k4, b[4] as int, k5);
    lemma_split(k5, b[5] as int, k6);
    lemma_split(k6, b[6] as int, k7);
    assert(k7 % 256 == k7);
    assert(digits8(v) =~= b);
}

/// Decoding undoes encoding, for every 64-bit unsigned number, in both byte
/// orders.
pub proof fn lemma_u64_round_trip(x: u64)
    ensures
        u64_le_bytes(x).len() == 8,
        u64_be_bytes(x).len() == 8,
        u64_from_le_bytes(u64_le_bytes(x)) == x,
        u64_from_be_bytes(u64_be_bytes(x)) == x,
{
    lemma_value_of_digits8(x as int);
    assert(u64_be_bytes(x).reverse() =~= digits8(x as int));
}

/// Encoding undoes decoding, for every eight bytes, in both byte orders.
pub proof fn lemma_u64_bytes_unique(b: Seq<u8>)
    requires
        b.len() == 8,
    ensures
        u64_le_bytes(u64_from_le_bytes(b)) == b,
        u64_be_bytes(u64_from_be_bytes(b)) == b,
{
    lemma_digits_of_value8(b);
    lemma_digits_of_value8(b.reverse());
    assert(b.reverse().reverse() =~= b);
}

/// Encodes `x` in four bytes, lowest first.
pub fn encode_i32_le(x: i32) -> (bytes: [u8; 4])
    ensures
        bytes@ == i32_le_bytes(x),
{
    let wide: i64 = x as i64;
    let u: u64 = if wide < 0 {
        (wide + 0x1_0000_0000) as u64
    } else {
        wide as u64
    };
    let bytes: [u8; 4] = [
        (u % 256) as u8,
        (u / 0x100 % 256) as u8,
        (u / 0x1_0000 % 256) as u8,
        (u / 0x100_0000 % 256) as u8,
    ];
    assert(bytes@ =~= i32_le_bytes(x));
    bytes
}

/// Decodes four bytes, lowest first, as a signed number.
pub fn decode_i32_le(b: &[u8; 4]) -> (x: i32)
    ensures
        x == i32_from_le_bytes(b@),
{
    let u: u64 = b[0] as u64 + b[1] as u64 * 0x100 + b[2] as u64 * 0x1_0000 + b[3] as u64
        * 0x100_0000;
    if u >= 0x8000_0000 {
        (u as i64 - 0x1_0000_0000) as i32
    } else {
        u as i32
    }
}

/// Encodes `x` in eight bytes, lowest first.
pub fn encode_u64_le(x: u64) -> (bytes: [u8; 8])
    ensures
        bytes@ == u64_le_bytes(x),
{
    let bytes: [u8; 8] = [
        (x % 256) as u8,
        (x / 0x100 % 256) as u8,
        (x / 0x1_0000 % 256) as u8,
        (x / 0x100_0000 % 256) as u8,
        (x / 0x1_0000_0000 % 256) as u8,
        (x / 0x100_0000_0000 % 256) as u8,
        (x / 0x1_0000_0000_0000 % 256) as u8,
        (x / 0x100_0000_0000_0000 % 256) as u8,
    ];
    assert(bytes@ =~= u64_le_bytes(x));
    bytes
}

/// Decodes eight bytes, lowest first.
pub fn decode_u64_le(b: &[u8; 8]) -> (x: u64)
    ensures
        x == u64_from_le_bytes(b@),
{
    b[0] as u64 + b[1] as u64 * 0x100 + b[2] as u64 * 0x1_0000 + b[3] as u64 * 0x100_0000 + b[4] as u64
        * 0x1_0000_0000 + b[5] as u64 * 0x100_0000_0000 + b[6] as u64 * 0x1_0000_0000_0000 + b[7] as u64
        * 0x100_0000_0000_0000
}

/// Encodes `x` in eight bytes, highest first.
pub fn encode_u64_be(x: u64) -> (bytes: [u8; 8])
    ensures
        bytes@ == u64_be_bytes(x),
{
    let bytes: [u8; 8] = [
        (x / 0x100_0000_0000_0000 % 256) as u8,
        (x / 0x1_0000_0000_0000 % 256) as u8,
        (x / 0x100_0000_0000 % 256) as u8,
        (x / 0x1_0000_0000 % 256) as u8,
        (x / 0x100_0000 % 256) as u8,
        (x / 0x1_0000 % 256) as u8,
        (x / 0x100 % 256) as u8,
        (x % 256) as u8,
    ];
    assert(bytes@ =~= u64_be_bytes(x));
    bytes
}

/// Decodes eight bytes, highest first.
pub fn decode_u64_be(b: &[u8; 8]) -> (x: u64)
    ensures
        x == u64_from_be_bytes(b@),
{
    assert(b@.reverse() =~= seq![b@[7], b@[6], b@[5], b@[4], b@[3], b@[2], b@[1], b@[0]]);
    b[7] as u64 + b[6] as u64 * 0x100 + b[5] as u64 * 0x1_0000 + b[4] as u64 * 0x100_0000 + b[3] as u64
        * 0x1_0000_0000 + b[2] as u64 * 0x100_0000_0000 + b[1] as u64 * 0x1_0000_0000_0000 + b[0] as u64
        * 0x100_0000_0000_0000
}

} // verus!
