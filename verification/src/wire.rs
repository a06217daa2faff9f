//! Little-endian 32-bit integers, the one primitive that both byte formats of
//! the program are made of. `borsh` does the encoding; this module says what
//! it yields.

use vstd::prelude::*;

verus! {

/// Number of bytes that an encoded `u32` takes.
pub const U32_LEN: usize = 4;

/// The number that the first four bytes of `s` spell, least significant byte
/// first.
pub open spec fn le_value(s: Seq<u8>) -> u32
    recommends
        s.len() >= 4,
{
    (s[0] + 0x100 * s[1] + 0x1_0000 * s[2] + 0x100_0000 * s[3]) as u32
}

/// The four bytes that spell `v`, least significant byte first.
pub open spec fn le_bytes(v: u32) -> Seq<u8> {
    seq![
        (v % 0x100) as u8,
        (v / 0x100 % 0x100) as u8,
        (v / 0x1_0000 % 0x100) as u8,
        (v / 0x100_0000) as u8,
    ]
}

/// What reading a `u32` off the front of `s` gives: the number that the
/// first four bytes spell, and nothing where there are fewer than four.
pub open spec fn read_u32(s: Seq<u8>) -> Option<u32> {
    if s.len() >= 4 {
        Some(le_value(s))
    } else {
        None
    }
}

/// Reads a `u32` off the front of `bytes` with
/// `borsh::BorshDeserialize::deserialize`.
///
/// Trusted: borsh takes exactly four bytes from the front of the input and
/// reads them as a little-endian number, whatever follows them; on an input
/// of fewer than four bytes it returns an error, which becomes `None` here.
#[verifier::external_body]
pub(crate) fn borsh_read_u32(bytes: &[u8]) -> (r: Option<u32>)
    ensures
        r == read_u32(bytes@),
{
    let mut rest: &[u8] = bytes;
    let read: borsh::io::Result<u32> = borsh::BorshDeserialize::deserialize(&mut rest);
    read.ok()
}

/// Encodes a `u32` with `borsh::to_vec`.
///
/// Trusted: borsh writes the four little-endian bytes of the number, and
/// nothing else, into a fresh vector; writing into a vector does not fail,
/// so the result is always `Some`.
#[verifier::external_body]
pub(crate) fn borsh_u32_to_vec(value: u32) -> (r: Option<Vec<u8>>)
    ensures
        r is Some,
        r.unwrap()@ == le_bytes(value),
{
    borsh::to_vec(&value).ok()
}

/// Four bytes spell a number below 2^32, so `le_value` loses nothing, and
/// the bytes of that number are the four bytes again: two buffers that read
/// as the same number start with the same four bytes.
pub proof fn lemma_le_bytes_of_value(s: Seq<u8>)
    requires
        s.len() >= 4,
    ensures
        le_value(s) == s[0] + 0x100 * s[1] + 0x1_0000 * s[2] + 0x100_0000 * s[3],
        le_bytes(le_value(s)) == s.subrange(0, 4),
{
    let v: int = s[0] + 0x100 * s[1] + 0x1_0000 * s[2] + 0x100_0000 * s[3];
    let high: int = s[1] + 0x100 * s[2] + 0x1_0000 * s[3];
    let higher: int = s[2] + 0x100 * s[3];
    assert(v == s[0] + 0x100 * high);
    assert(v % 0x100 == s[0] && v / 0x100 == high);
    assert(high == s[1] + 0x100 * higher);
    assert(high % 0x100 == s[1] && high / 0x100 == higher);
    assert(v / 0x1_0000 == higher) by {
        assert(v == (s[0] + 0x100 * s[1]) + 0x1_0000 * higher);
    }
    assert(higher % 0x100 == s[2] && higher / 0x100 == s[3]);
    assert(v / 0x100_0000 == s[3]) by {
        assert(v == (s[0] + 0x100 * s[1] + 0x1_0000 * s[2]) + 0x100_0000 * s[3]);
    }
    assert(le_value(s) == v);
    assert(le_bytes(le_value(s)) =~= s.subrange(0, 4));
}

/// Encoding a number and reading the bytes back gives the number, also when
/// other bytes follow the four.
pub proof fn lemma_le_value_of_bytes(v: u32, tail: Seq<u8>)
    ensures
        le_bytes(v).len() == 4,
        le_value(le_bytes(v) + tail) == v,
        read_u32(le_bytes(v) + tail) == Some(v),
{
    let s = le_bytes(v) + tail;
    let b0: u32 = v % 0x100;
    let b1: u32 = v / 0x100 % 0x100;
    let b2: u32 = v / 0x1_0000 % 0x100;
    let b3: u32 = v / 0x100_0000;
    assert(s[0] == b0 && s[1] == b1 && s[2] == b2 && s[3] == b3);
    assert(v == b0 + 0x100 * (v / 0x100));
    assert(v / 0x100 == b1 + 0x100 * (v / 0x100 / 0x100));
    assert(v / 0x100 / 0x100 == v / 0x1_0000);
    assert(v / 0x1_0000 == b2 + 0x100 * (v / 0x1_0000 / 0x100));
    assert(v / 0x1_0000 / 0x100 == v / 0x100_0000);
    assert(v == b0 + 0x100 * b1 + 0x1_0000 * b2 + 0x100_0000 * b3);
}

} // verus!
