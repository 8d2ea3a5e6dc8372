//! Fixed-width numeric codec: big-endian byte assembly for 16-bit and
//! 32-bit unsigned integers, the byte decomposition inverse to it, and
//! fixed-length single-byte-per-character text decoding.

use vstd::prelude::*;
use vstd::arithmetic::div_mod::{
    lemma_fundamental_div_mod, lemma_fundamental_div_mod_converse, lemma_div_denominator,
};

verus! {

/// The value of two bytes assembled big-endian: the first byte is the
/// most significant.
pub open spec fn spec_u16_of_be(b: Seq<u8>) -> u16
    recommends
        b.len() == 2,
{
    (b[0] * 0x100 + b[1]) as u16
}

/// The value of four bytes assembled big-endian: the first byte is the
/// most significant.
pub open spec fn spec_u32_of_be(b: Seq<u8>) -> u32
    recommends
        b.len() == 4,
{
    (b[0] * 0x1000000 + b[1] * 0x10000 + b[2] * 0x100 + b[3]) as u32
}

/// The four bytes of a 32-bit value, most significant byte first.
pub open spec fn spec_be_bytes_of_u32(x: u32) -> Seq<u8> {
    seq![
        (x / 0x1000000) as u8,
        ((x / 0x10000) % 0x100) as u8,
        ((x / 0x100) % 0x100) as u8,
        (x % 0x100) as u8,
    ]
}

/// Assembles exactly two bytes into a `u16`, big-endian.
pub fn bytes_to_u16(bytes: &[u8]) -> (r: u16)
    requires
        bytes@.len() == 2,
    ensures
        r == spec_u16_of_be(bytes@),
{
    let first: u16 = bytes[0] as u16;
    first * 0x100 + bytes[1] as u16
}

/// Assembles exactly four bytes into a `u32`, big-endian.
pub fn bytes_to_u32(bytes: &[u8]) -> (r: u32)
    requires
        bytes@.len() == 4,
    ensures
        r == spec_u32_of_be(bytes@),
{
    let b0: u32 = bytes[0] as u32;
    let b1: u32 = bytes[1] as u32;
    let b2: u32 = bytes[2] as u32;
    let b3: u32 = bytes[3] as u32;
    b0 * 0x1000000 + b1 * 0x10000 + b2 * 0x100 + b3
}

/// Decomposes a 32-bit value into its four bytes, most significant
/// byte first. Inverse of `bytes_to_u32`.
pub fn u32_to_bytes(x: u32) -> (r: [u8; 4])
    ensures
        r@ == spec_be_bytes_of_u32(x),
{
    let b0: u32 = x / 0x1000000;
    let b1: u32 = (x / 0x10000) % 0x100;
    let b2: u32 = (x / 0x100) % 0x100;
    let b3: u32 = x % 0x100;
    [b0 as u8, b1 as u8, b2 as u8, b3 as u8]
}

/// The text a byte sequence stands for, one character per byte.
pub open spec fn spec_ascii_chars(b: Seq<u8>) -> Seq<char> {
    b.map_values(|x: u8| x as char)
}

/// Relies on `String::push` of std: it appends the given character to
/// the end of the string.
pub assume_specification[ String::push ](s: &mut String, ch: char)
    ensures
        final(s)@ == old(s)@.push(ch),
;

/// Decodes bytes as fixed-width text, one character per byte. No
/// trailing padding is trimmed.
pub fn bytes_to_string(bytes: &[u8]) -> (r: String)
    ensures
        r@ == spec_ascii_chars(bytes@),
{
    let n: usize = bytes.len();
    let mut text = String::new();
    for i in 0..n
        invariant
            n == bytes@.len(),
            text@ == spec_ascii_chars(bytes@.take(i as int)),
    {
        let c: char = bytes[i] as char;
        text.push(c);
        proof {
            assert(bytes@.take(i + 1) =~= bytes@.take(i as int).push(bytes@[i as int]));
            assert(spec_ascii_chars(bytes@.take(i + 1))
                =~= spec_ascii_chars(bytes@.take(i as int)).push(c));
        }
    }
    proof {
        assert(bytes@.take(n as int) =~= bytes@);
    }
    text
}

/// Law: assembling four bytes big-endian and decomposing the value
/// again yields the original bytes, for every 4-byte input.
pub proof fn lemma_bytes_to_u32_round_trip(b: Seq<u8>)
    requires
        b.len() == 4,
    ensures
        spec_be_bytes_of_u32(spec_u32_of_be(b)) == b,
{
    let x = b[0] * 0x1000000 + b[1] * 0x10000 + b[2] * 0x100 + b[3];
    assert(spec_u32_of_be(b) == x);
    lemma_fundamental_div_mod_converse(
        x, 0x1000000, b[0] as int, b[1] * 0x10000 + b[2] * 0x100 + b[3]);
    lemma_fundamental_div_mod_converse(
        x, 0x10000, b[0] * 0x100 + b[1], b[2] * 0x100 + b[3]);
    lemma_fundamental_div_mod_converse(
        b[0] * 0x100 + b[1], 0x100, b[0] as int, b[1] as int);
    lemma_fundamental_div_mod_converse(
        x, 0x100, b[0] * 0x10000 + b[1] * 0x100 + b[2], b[3] as int);
    lemma_fundamental_div_mod_converse(
        b[0] * 0x10000 + b[1] * 0x100 + b[2], 0x100,
        b[0] * 0x100 + b[1], b[2] as int);
    assert(spec_be_bytes_of_u32(spec_u32_of_be(b)) =~= b);
}

/// Law: decomposing a 32-bit value into bytes and assembling them
/// big-endian again yields the original value, for every value.
pub proof fn lemma_u32_to_bytes_round_trip(x: u32)
    ensures
        spec_u32_of_be(spec_be_bytes_of_u32(x)) == x,
{
    lemma_fundamental_div_mod(x as int, 0x100);
    lemma_fundamental_div_mod(x as int / 0x100, 0x100);
    lemma_fundamental_div_mod(x as int / 0x10000, 0x100);
    lemma_div_denominator(x as int, 0x100, 0x100);
    lemma_div_denominator(x as int, 0x10000, 0x100);
}

} // verus!
