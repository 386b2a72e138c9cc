//! Little-endian numbers.

use vstd::prelude::*;

verus! {

/// The two bytes of `v`, least significant first.
pub open spec fn le16(v: u16) -> Seq<u8> {
    seq![(v % 256) as u8, (v / 256) as u8]
}

/// The four bytes of `v`, least significant first.
pub open spec fn le32(v: u32) -> Seq<u8> {
    seq![
        (v % 256) as u8,
        (v / 256 % 256) as u8,
        (v / 65_536 % 256) as u8,
        (v / 16_777_216) as u8,
    ]
}

/// The unsigned number with the same 8 bits as `v`.
pub open spec fn wrap8(v: i8) -> u8 {
    (v as int % 256) as u8
}

/// The unsigned number with the same 16 bits as `v`.
pub open spec fn wrap16(v: i16) -> u16 {
    (v as int % 65_536) as u16
}

/// The unsigned number with the same 32 bits as `v`.
pub open spec fn wrap32(v: i32) -> u32 {
    (v as int % 4_294_967_296) as u32
}

/// The number whose bytes are `b[at]` and `b[at + 1]`.
pub open spec fn value16(b: Seq<u8>, at: int) -> u16 {
    (b[at] + 256 * b[at + 1]) as u16
}

/// The number whose bytes are `b[at]` to `b[at + 3]`.
pub open spec fn value32(b: Seq<u8>, at: int) -> u32 {
    (b[at] + 256 * b[at + 1] + 65_536 * b[at + 2] + 16_777_216 * b[at + 3]) as u32
}

/// The signed number with the same 16 bits as `v`.
pub open spec fn signed16(v: u16) -> i16 {
    if v < 0x8000 {
        v as i16
    } else {
        (v - 0x1_0000) as i16
    }
}

/// The two bytes of `v`.
pub fn u16_bytes(v: u16) -> (r: Vec<u8>)
    ensures
        r@ == le16(v),
{
    let r = vec![(v % 256) as u8, (v / 256) as u8];
    assert(r@ =~= le16(v));
    r
}

/// The four bytes of `v`.
pub fn u32_bytes(v: u32) -> (r: Vec<u8>)
    ensures
        r@ == le32(v),
{
    let r = vec![
        (v % 256) as u8,
        (v / 256 % 256) as u8,
        (v / 65_536 % 256) as u8,
        (v / 16_777_216) as u8,
    ];
    assert(r@ =~= le32(v));
    r
}

/// The unsigned number with the same bits.
pub fn i8_bits(v: i8) -> (r: u8)
    ensures
        r == wrap8(v),
{
    if v < 0 {
        (v as i16 + 256) as u8
    } else {
        v as u8
    }
}

/// The unsigned number with the same bits.
pub fn i16_bits(v: i16) -> (r: u16)
    ensures
        r == wrap16(v),
{
    if v < 0 {
        (v as i32 + 65_536) as u16
    } else {
        v as u16
    }
}

/// The unsigned number with the same bits.
pub fn i32_bits(v: i32) -> (r: u32)
    ensures
        r == wrap32(v),
{
    if v < 0 {
        (v as i64 + 4_294_967_296) as u32
    } else {
        v as u32
    }
}

/// The number in the two bytes from `at` on.
pub fn u16_at(b: &[u8], at: usize) -> (r: u16)
    requires
        at + 2 <= b@.len(),
    ensures
        r == value16(b@, at as int),
{
    b[at] as u16 + 256 * (b[at + 1] as u16)
}

/// The number in the four bytes from `at` on.
pub fn u32_at(b: &[u8], at: usize) -> (r: u32)
    requires
        at + 4 <= b@.len(),
    ensures
        r == value32(b@, at as int),
{
    b[at] as u32 + 256 * (b[at + 1] as u32) + 65_536 * (b[at + 2] as u32) + 16_777_216 * (b[at
        + 3] as u32)
}

/// The signed number with the same bits.
pub fn bits_i16(v: u16) -> (r: i16)
    ensures
        r == signed16(v),
{
    if v < 0x8000 {
        v as i16
    } else {
        (v as i32 - 0x1_0000) as i16
    }
}

/// The bytes of a 16-bit number read back as the number.
pub proof fn value16_of_le16(v: u16)
    ensures
        value16(le16(v), 0) == v,
{
}

/// The bytes of a 32-bit number read back as the number.
pub proof fn value32_of_le32(v: u32)
    ensures
        value32(le32(v), 0) == v,
{
}

/// Reading a signed number gives back the one that was written.
pub proof fn signed16_of_wrap16(v: i16)
    ensures
        signed16(wrap16(v)) == v,
{
}

/// The bytes of a 16-bit number are its digits to the base 256, the lowest
/// first.
pub proof fn le16_holds_the_digits(v: u16)
    ensures
        le16(v).len() == 2,
        le16(v)[0] + 0x100 * le16(v)[1] == v,
{
}

/// The bytes of a 32-bit number are its digits to the base 256, the lowest
/// first.
pub proof fn le32_holds_the_digits(v: u32)
    ensures
        le32(v).len() == 4,
        le32(v)[0] + 0x100 * le32(v)[1] + 0x1_0000 * le32(v)[2] + 0x100_0000 * le32(v)[3] == v,
{
}

/// A number that is read from two bytes has those two bytes.
pub proof fn le16_of_value16(b: Seq<u8>, at: int)
    requires
        0 <= at,
        at + 2 <= b.len(),
    ensures
        le16(value16(b, at)) == b.subrange(at, at + 2),
{
    assert(le16(value16(b, at)) =~= b.subrange(at, at + 2));
}

/// A number that is read from four bytes has those four bytes.
pub proof fn le32_of_value32(b: Seq<u8>, at: int)
    requires
        0 <= at,
        at + 4 <= b.len(),
    ensures
        le32(value32(b, at)) == b.subrange(at, at + 4),
{
    let (b0, b1, b2, b3) = (b[at] as int, b[at + 1] as int, b[at + 2] as int, b[at + 3] as int);
    let v = value32(b, at);
    let low2 = b0 + 0x100 * b1;
    assert(v == low2 + 0x1_0000 * (b2 + 0x100 * b3));
    assert(low2 < 0x1_0000);
    assert(v as int / 0x1_0000 == b2 + 0x100 * b3);
    assert(v as int % 0x1_0000 == low2);
    assert(v as int / 0x100_0000 == b3);
    assert(v as int / 0x1_0000 % 0x100 == b2);
    assert(v as int / 0x100 % 0x100 == b1) by {
        assert(v as int / 0x100 == b1 + 0x100 * (b2 + 0x100 * b3));
    }
    assert(v as int % 0x100 == b0);
    let r = le32(v);
    assert(r[0] == b[at]);
    assert(r[1] == b[at + 1]);
    assert(r[2] == b[at + 2]);
    assert(r[3] == b[at + 3]);
    assert(r =~= b.subrange(at, at + 4));
}

/// Signed numbers are carried in two's complement.
pub proof fn signed_numbers_are_in_twos_complement(a: i8, b: i16, c: i32)
    ensures
        a >= 0 ==> wrap8(a) == a,
        a < 0 ==> wrap8(a) == a + 0x100,
        b >= 0 ==> wrap16(b) == b,
        b < 0 ==> wrap16(b) == b + 0x1_0000,
        c >= 0 ==> wrap32(c) == c,
        c < 0 ==> wrap32(c) == c + 0x1_0000_0000,
{
}

} // verus!
