//! Resolution of the value of a numeric character reference to bytes.
//!
//! A numeric reference names a codepoint by its number. Not every number is
//! taken at face value: a handful of values in the C1 control range stand
//! for the characters that Windows-1252 has at those positions, and values
//! that no text may hold give the replacement character U+FFFD.
use vstd::prelude::*;
use vstd::utf8::*;

verus! {

/// The replacement character, U+FFFD.
pub const REPLACEMENT: u32 = 0xFFFD;

/// The largest Unicode scalar value.
pub const MAX_SCALAR: u32 = 0x10FFFF;

/// The character that a legacy Windows-1252 value stands for, if `v` is one
/// of the 27 such values.
pub open spec fn legacy_remap(v: int) -> Option<u32> {
    if v == 0x80 {
        Some(0x20ACu32)
    } else if v == 0x82 {
        Some(0x201Au32)
    } else if v == 0x83 {
        Some(0x0192u32)
    } else if v == 0x84 {
        Some(0x201Eu32)
    } else if v == 0x85 {
        Some(0x2026u32)
    } else if v == 0x86 {
        Some(0x2020u32)
    } else if v == 0x87 {
        Some(0x2021u32)
    } else if v == 0x88 {
        Some(0x02C6u32)
    } else if v == 0x89 {
        Some(0x2030u32)
    } else if v == 0x8A {
        Some(0x0160u32)
    } else if v == 0x8B {
        Some(0x2039u32)
    } else if v == 0x8C {
        Some(0x0152u32)
    } else if v == 0x8E {
        Some(0x017Du32)
    } else if v == 0x91 {
        Some(0x2018u32)
    } else if v == 0x92 {
        Some(0x2019u32)
    } else if v == 0x93 {
        Some(0x201Cu32)
    } else if v == 0x94 {
        Some(0x201Du32)
    } else if v == 0x95 {
        Some(0x2022u32)
    } else if v == 0x96 {
        Some(0x2013u32)
    } else if v == 0x97 {
        Some(0x2014u32)
    } else if v == 0x98 {
        Some(0x02DCu32)
    } else if v == 0x99 {
        Some(0x2122u32)
    } else if v == 0x9A {
        Some(0x0161u32)
    } else if v == 0x9B {
        Some(0x203Au32)
    } else if v == 0x9C {
        Some(0x0153u32)
    } else if v == 0x9E {
        Some(0x017Eu32)
    } else if v == 0x9F {
        Some(0x0178u32)
    } else {
        None
    }
}

/// Whether `v` lies in a range of codepoints that a reference may not name:
/// most C0 and all C1 controls, U+FDD0 to U+FDEF, and the last two
/// codepoints of each of the 17 planes.
pub open spec fn is_forbidden(v: int) -> bool {
    ||| 0x0000 <= v <= 0x0008
    ||| v == 0x000B
    ||| 0x000D <= v <= 0x001F
    ||| 0x007F <= v <= 0x009F
    ||| 0xFDD0 <= v <= 0xFDEF
    ||| (0 <= v <= 0x10FFFF && v % 0x10000 >= 0xFFFE)
}

/// Whether `v` is a Unicode scalar value: at most U+10FFFF and no surrogate.
pub open spec fn is_scalar_value(v: int) -> bool {
    0 <= v <= 0x10FFFF && !(0xD800 <= v <= 0xDFFF)
}

/// The scalar value that a reference to the number `v` stands for.
pub open spec fn resolved_scalar(v: int) -> u32 {
    if legacy_remap(v) is Some {
        legacy_remap(v)->0
    } else if is_forbidden(v) || !is_scalar_value(v) {
        REPLACEMENT
    } else {
        v as u32
    }
}

/// The bytes that a reference to the number `v` stands for: the UTF-8
/// encoding of `resolved_scalar(v)`.
pub open spec fn resolve_codepoint(v: int) -> Seq<u8> {
    encode_scalar(resolved_scalar(v))
}

/// Every number resolves to a scalar value, so its encoding never fails.
pub proof fn lemma_resolved_is_scalar(v: int)
    ensures
        is_scalar(resolved_scalar(v)),
        1 <= resolve_codepoint(v).len() <= 4,
{
}

/// The character that the legacy value `codepoint` stands for, if it is one.
pub fn remap_legacy(codepoint: u32) -> (remapped: Option<u32>)
    ensures
        remapped == legacy_remap(codepoint as int),
{
    match codepoint {
        0x80 => Some(0x20AC),
        0x82 => Some(0x201A),
        0x83 => Some(0x0192),
        0x84 => Some(0x201E),
        0x85 => Some(0x2026),
        0x86 => Some(0x2020),
        0x87 => Some(0x2021),
        0x88 => Some(0x02C6),
        0x89 => Some(0x2030),
        0x8A => Some(0x0160),
        0x8B => Some(0x2039),
        0x8C => Some(0x0152),
        0x8E => Some(0x017D),
        0x91 => Some(0x2018),
        0x92 => Some(0x2019),
        0x93 => Some(0x201C),
        0x94 => Some(0x201D),
        0x95 => Some(0x2022),
        0x96 => Some(0x2013),
        0x97 => Some(0x2014),
        0x98 => Some(0x02DC),
        0x99 => Some(0x2122),
        0x9A => Some(0x0161),
        0x9B => Some(0x203A),
        0x9C => Some(0x0153),
        0x9E => Some(0x017E),
        0x9F => Some(0x0178),
        _ => None,
    }
}

/// Whether `codepoint` lies in a forbidden range.
pub fn forbidden(codepoint: u32) -> (b: bool)
    ensures
        b == is_forbidden(codepoint as int),
{
    codepoint <= 0x0008 || codepoint == 0x000B || (0x000D <= codepoint && codepoint <= 0x001F) || (
    0x007F <= codepoint && codepoint <= 0x009F) || (0xFDD0 <= codepoint && codepoint <= 0xFDEF) || (
    codepoint <= MAX_SCALAR && codepoint % 0x10000 >= 0xFFFE)
}

/// Encodes a scalar value in UTF-8.
pub fn encode_utf8(scalar: u32) -> (bytes: Vec<u8>)
    requires
        is_scalar(scalar),
    ensures
        bytes@ == encode_scalar(scalar),
{
    let mut bytes: Vec<u8> = Vec::new();
    let last: u32 = scalar & 0x3F;
    let second_last: u32 = (scalar >> 6) & 0x3F;
    let third_last: u32 = (scalar >> 12) & 0x3F;
    assert(scalar & 0x3F < 0x100) by (bit_vector);
    assert((scalar >> 6) & 0x3F < 0x100) by (bit_vector);
    assert((scalar >> 12) & 0x3F < 0x100) by (bit_vector);
    if scalar <= 0x7F {
        assert(scalar & 0x7F < 0x100) by (bit_vector);
        bytes.push((scalar & 0x7F) as u8);
    } else if scalar <= 0x7FF {
        assert((scalar >> 6) & 0x1F < 0x100) by (bit_vector);
        bytes.push(0xC0 | ((scalar >> 6) & 0x1F) as u8);
        bytes.push(0x80 | last as u8);
    } else if scalar <= 0xFFFF {
        assert((scalar >> 12) & 0x0F < 0x100) by (bit_vector);
        bytes.push(0xE0 | ((scalar >> 12) & 0x0F) as u8);
        bytes.push(0x80 | second_last as u8);
        bytes.push(0x80 | last as u8);
    } else {
        assert((scalar >> 18) & 0x7 < 0x100) by (bit_vector);
        bytes.push(0xF0 | ((scalar >> 18) & 0x7) as u8);
        bytes.push(0x80 | third_last as u8);
        bytes.push(0x80 | second_last as u8);
        bytes.push(0x80 | last as u8);
    }
    assert(bytes@ =~= encode_scalar(scalar));
    bytes
}

/// The bytes that a numeric reference with the value `codepoint` stands for.
pub fn resolve(codepoint: u32) -> (bytes: Vec<u8>)
    ensures
        bytes@ == resolve_codepoint(codepoint as int),
        1 <= bytes@.len() <= 4,
{
    let scalar: u32 = match remap_legacy(codepoint) {
        Some(remapped) => remapped,
        None => {
            if forbidden(codepoint) || codepoint > MAX_SCALAR || (0xD800 <= codepoint && codepoint
                <= 0xDFFF) {
                REPLACEMENT
            } else {
                codepoint
            }
        },
    };
    proof {
        lemma_resolved_is_scalar(codepoint as int);
    }
    encode_utf8(scalar)
}

} // verus!
