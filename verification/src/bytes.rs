//! Big-endian integers and two's-complement bytes.
//!
//! Every multi-byte field of a CANaerospace payload is sent most significant
//! byte first. A slice that is too short is read as if it were followed by
//! zero bytes, so reading never fails.

use vstd::prelude::*;

verus! {

/// The byte at position `i` of `s`, or zero past the end.
pub open spec fn byte_at(s: Seq<u8>, i: int) -> u8 {
    if 0 <= i < s.len() {
        s[i]
    } else {
        0
    }
}

/// The number that four bytes spell, most significant byte first.
pub open spec fn be_u32(b0: u8, b1: u8, b2: u8, b3: u8) -> u32 {
    (b0 as int * 0x100_0000 + b1 as int * 0x1_0000 + b2 as int * 0x100 + b3 as int) as u32
}

/// The number that two bytes spell, most significant byte first.
pub open spec fn be_u16(b0: u8, b1: u8) -> u16 {
    (b0 as int * 0x100 + b1 as int) as u16
}

/// Byte `i` of `v`, counted from the most significant byte.
pub open spec fn u32_byte(v: u32, i: int) -> u8 {
    if i == 0 {
        (v / 0x100_0000) as u8
    } else if i == 1 {
        ((v / 0x1_0000) % 0x100) as u8
    } else if i == 2 {
        ((v / 0x100) % 0x100) as u8
    } else {
        (v % 0x100) as u8
    }
}

/// Byte `i` of `v`, counted from the most significant byte.
pub open spec fn u16_byte(v: u16, i: int) -> u8 {
    if i == 0 {
        (v / 0x100) as u8
    } else {
        (v % 0x100) as u8
    }
}

/// The four bytes of `v`, most significant first.
pub open spec fn u32_be_bytes(v: u32) -> Seq<u8> {
    seq![u32_byte(v, 0), u32_byte(v, 1), u32_byte(v, 2), u32_byte(v, 3)]
}

/// The two bytes of `v`, most significant first.
pub open spec fn u16_be_bytes(v: u16) -> Seq<u8> {
    seq![u16_byte(v, 0), u16_byte(v, 1)]
}

/// The first four bytes of `s` as a big-endian number.
pub open spec fn spec_as_u32(s: Seq<u8>) -> u32 {
    be_u32(byte_at(s, 0), byte_at(s, 1), byte_at(s, 2), byte_at(s, 3))
}

/// The first two bytes of `s` as a big-endian number.
pub open spec fn spec_as_u16(s: Seq<u8>) -> u16 {
    be_u16(byte_at(s, 0), byte_at(s, 1))
}

/// The signed reading of a byte in two's complement.
pub open spec fn i8_of(b: u8) -> i8 {
    if b < 0x80 {
        b as i8
    } else {
        (b as int - 0x100) as i8
    }
}

/// The byte that holds `x` in two's complement.
pub open spec fn u8_of(x: i8) -> u8 {
    if x >= 0 {
        x as u8
    } else {
        (x as int + 0x100) as u8
    }
}

/// The signed reading of sixteen bits in two's complement.
pub open spec fn i16_of(v: u16) -> i16 {
    if v < 0x8000 {
        v as i16
    } else {
        (v as int - 0x1_0000) as i16
    }
}

/// The sixteen bits that hold `x` in two's complement.
pub open spec fn u16_of(x: i16) -> u16 {
    if x >= 0 {
        x as u16
    } else {
        (x as int + 0x1_0000) as u16
    }
}

/// The signed reading of thirty-two bits in two's complement.
pub open spec fn i32_of(v: u32) -> i32 {
    if v < 0x8000_0000 {
        v as i32
    } else {
        (v as int - 0x1_0000_0000) as i32
    }
}

/// The thirty-two bits that hold `x` in two's complement.
pub open spec fn u32_of(x: i32) -> u32 {
    if x >= 0 {
        x as u32
    } else {
        (x as int + 0x1_0000_0000) as u32
    }
}

/// Reading the bytes of a number gives the number back.
pub proof fn lemma_u32_bytes_roundtrip(v: u32)
    ensures
        be_u32(u32_byte(v, 0), u32_byte(v, 1), u32_byte(v, 2), u32_byte(v, 3)) == v,
        spec_as_u32(u32_be_bytes(v)) == v,
{
}

/// Splitting the number that four bytes spell gives the bytes back.
pub proof fn lemma_u32_from_bytes_roundtrip(b0: u8, b1: u8, b2: u8, b3: u8)
    ensures
        u32_byte(be_u32(b0, b1, b2, b3), 0) == b0,
        u32_byte(be_u32(b0, b1, b2, b3), 1) == b1,
        u32_byte(be_u32(b0, b1, b2, b3), 2) == b2,
        u32_byte(be_u32(b0, b1, b2, b3), 3) == b3,
{
    let low: int = b1 as int * 0x1_0000 + b2 as int * 0x100 + b3 as int;
    let n: int = b0 as int * 0x100_0000 + low;
    assert(0 <= low < 0x100_0000);
    assert(be_u32(b0, b1, b2, b3) == n);
    assert(n / 0x100_0000 == b0 as int);
    assert(n / 0x1_0000 == b0 as int * 0x100 + b1 as int);
    assert(n / 0x100 == b0 as int * 0x1_0000 + b1 as int * 0x100 + b2 as int);
}

/// Reading the bytes of a number gives the number back.
pub proof fn lemma_u16_bytes_roundtrip(v: u16)
    ensures
        be_u16(u16_byte(v, 0), u16_byte(v, 1)) == v,
        spec_as_u16(u16_be_bytes(v)) == v,
{
}

/// Splitting the number that two bytes spell gives the bytes back.
pub proof fn lemma_u16_from_bytes_roundtrip(b0: u8, b1: u8)
    ensures
        u16_byte(be_u16(b0, b1), 0) == b0,
        u16_byte(be_u16(b0, b1), 1) == b1,
{
}

/// The signed and the unsigned reading of the same bits determine each other.
pub proof fn lemma_twos_complement_roundtrip(b: u8, h: u16, w: u32, x: i8, y: i16, z: i32)
    ensures
        u8_of(i8_of(b)) == b,
        i8_of(u8_of(x)) == x,
        u16_of(i16_of(h)) == h,
        i16_of(u16_of(y)) == y,
        u32_of(i32_of(w)) == w,
        i32_of(u32_of(z)) == z,
{
}

/// Reads the first four bytes of `arr` as a big-endian number; missing bytes
/// count as zero.
pub fn as_u32(arr: &[u8]) -> (v: u32)
    ensures
        v == spec_as_u32(arr@),
{
    let b0: u8 = if arr.len() > 0 { arr[0] } else { 0 };
    let b1: u8 = if arr.len() > 1 { arr[1] } else { 0 };
    let b2: u8 = if arr.len() > 2 { arr[2] } else { 0 };
    let b3: u8 = if arr.len() > 3 { arr[3] } else { 0 };
    u32_from_be(b0, b1, b2, b3)
}

/// Reads the first two bytes of `arr` as a big-endian number; missing bytes
/// count as zero.
pub fn as_u16(arr: &[u8]) -> (v: u16)
    ensures
        v == spec_as_u16(arr@),
{
    let b0: u8 = if arr.len() > 0 { arr[0] } else { 0 };
    let b1: u8 = if arr.len() > 1 { arr[1] } else { 0 };
    u16_from_be(b0, b1)
}

/// Joins four bytes, most significant first.
pub fn u32_from_be(b0: u8, b1: u8, b2: u8, b3: u8) -> (v: u32)
    ensures
        v == be_u32(b0, b1, b2, b3),
{
    (b0 as u32) * 0x100_0000 + (b1 as u32) * 0x1_0000 + (b2 as u32) * 0x100 + (b3 as u32)
}

/// Joins two bytes, most significant first.
pub fn u16_from_be(b0: u8, b1: u8) -> (v: u16)
    ensures
        v == be_u16(b0, b1),
{
    (b0 as u16) * 0x100 + (b1 as u16)
}

/// Splits a number into its four bytes, most significant first.
pub fn u32_to_be(v: u32) -> (b: [u8; 4])
    ensures
        b@ == u32_be_bytes(v),
{
    let b = [
        (v / 0x100_0000) as u8,
        ((v / 0x1_0000) % 0x100) as u8,
        ((v / 0x100) % 0x100) as u8,
        (v % 0x100) as u8,
    ];
    assert(b@ =~= u32_be_bytes(v));
    b
}

/// Splits a number into its two bytes, most significant first.
pub fn u16_to_be(v: u16) -> (b: [u8; 2])
    ensures
        b@ == u16_be_bytes(v),
{
    let b = [(v / 0x100) as u8, (v % 0x100) as u8];
    assert(b@ =~= u16_be_bytes(v));
    b
}

/// Reads a byte as a signed number.
pub fn u8_as_i8(b: u8) -> (x: i8)
    ensures
        x == i8_of(b),
{
    if b < 0x80 {
        b as i8
    } else {
        (b as i16 - 0x100) as i8
    }
}

/// The byte that holds a signed number.
pub fn i8_as_u8(x: i8) -> (b: u8)
    ensures
        b == u8_of(x),
{
    if x >= 0 {
        x as u8
    } else {
        (x as i16 + 0x100) as u8
    }
}

/// Reads sixteen bits as a signed number.
pub fn u16_as_i16(v: u16) -> (x: i16)
    ensures
        x == i16_of(v),
{
    if v < 0x8000 {
        v as i16
    } else {
        (v as i32 - 0x1_0000) as i16
    }
}

/// The sixteen bits that hold a signed number.
pub fn i16_as_u16(x: i16) -> (v: u16)
    ensures
        v == u16_of(x),
{
    if x >= 0 {
        x as u16
    } else {
        (x as i32 + 0x1_0000) as u16
    }
}

/// Reads thirty-two bits as a signed number.
pub fn u32_as_i32(v: u32) -> (x: i32)
    ensures
        x == i32_of(v),
{
    if v < 0x8000_0000 {
        v as i32
    } else {
        (v as i64 - 0x1_0000_0000) as i32
    }
}

/// The thirty-two bits that hold a signed number.
pub fn i32_as_u32(x: i32) -> (v: u32)
    ensures
        v == u32_of(x),
{
    if x >= 0 {
        x as u32
    } else {
        (x as i64 + 0x1_0000_0000) as u32
    }
}

} // verus!
