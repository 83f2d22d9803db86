//! Byte layout primitives shared by every record kind.
//!
//! A record's wire form begins with an 8-byte record-kind tag and then holds
//! its fields in declaration order: fixed-width fields as little-endian
//! words, variable-length fields prefixed by a 4-byte little-endian count.

use vstd::prelude::*;

verus! {

use vstd::bytes::lemma_auto_spec_u32_to_from_le_bytes;
use vstd::bytes::lemma_auto_spec_u64_to_from_le_bytes;
use vstd::bytes::spec_u32_to_le_bytes;
use vstd::bytes::spec_u64_to_le_bytes;
use vstd::bytes::u32_to_le_bytes;
use vstd::bytes::u64_to_le_bytes;

/// Wire form of a variable-length field: a 4-byte little-endian count of the
/// content bytes, then the content itself.
pub open spec fn spec_len_prefixed(content: Seq<u8>) -> Seq<u8>
    recommends
        content.len() <= u32::MAX,
{
    spec_u32_to_le_bytes(content.len() as u32) + content
}

pub proof fn lemma_len_prefixed_len(content: Seq<u8>)
    requires
        content.len() <= u32::MAX,
    ensures
        spec_len_prefixed(content).len() == 4 + content.len(),
{
    lemma_auto_spec_u32_to_from_le_bytes();
}

/// Wire form of a fixed-width 64-bit word.
pub open spec fn spec_word(x: u64) -> Seq<u8> {
    spec_u64_to_le_bytes(x)
}

/// Wire form of a timestamp. Timestamps are non-negative, so the value fits
/// a 64-bit word unchanged.
pub open spec fn spec_time_word(t: i64) -> Seq<u8>
    recommends
        t >= 0,
{
    spec_u64_to_le_bytes(t as u64)
}

/// Wire form of a boolean flag: one byte, 1 for true and 0 for false.
pub open spec fn spec_flag(b: bool) -> Seq<u8> {
    seq![if b { 1u8 } else { 0u8 }]
}

pub proof fn lemma_word_len(x: u64)
    ensures
        spec_word(x).len() == 8,
{
    lemma_auto_spec_u64_to_from_le_bytes();
}

pub proof fn lemma_time_word_len(t: i64)
    ensures
        spec_time_word(t).len() == 8,
{
    lemma_auto_spec_u64_to_from_le_bytes();
}

/// Copies a byte string.
pub fn clone_bytes(v: &Vec<u8>) -> (r: Vec<u8>)
    ensures
        r@ == v@,
{
    let mut out: Vec<u8> = Vec::new();
    let mut i: usize = 0;
    while i < v.len()
        invariant
            i <= v@.len(),
            out@ == v@.take(i as int),
        decreases v@.len() - i,
    {
        out.push(v[i]);
        i = i + 1;
        proof {
            assert(v@.take(i as int) == v@.take(i - 1) + seq![v@[i - 1]]);
        }
    }
    proof {
        assert(v@.take(v@.len() as int) == v@);
    }
    out
}

/// Appends every byte of `src` to `out`.
pub fn append_bytes(out: &mut Vec<u8>, src: &Vec<u8>)
    ensures
        final(out)@ == old(out)@ + src@,
{
    let mut i: usize = 0;
    while i < src.len()
        invariant
            i <= src@.len(),
            out@ == old(out)@ + src@.take(i as int),
        decreases src@.len() - i,
    {
        out.push(src[i]);
        i = i + 1;
        proof {
            assert(src@.take(i as int) == src@.take(i - 1) + seq![src@[i - 1]]);
        }
    }
    proof {
        assert(src@.take(src@.len() as int) == src@);
    }
}

/// Appends the length-prefixed wire form of `content` to `out`.
pub fn append_len_prefixed(out: &mut Vec<u8>, content: &Vec<u8>)
    requires
        content@.len() <= u32::MAX,
    ensures
        final(out)@ == old(out)@ + spec_len_prefixed(content@),
{
    let mut prefix = u32_to_le_bytes(content.len() as u32);
    out.append(&mut prefix);
    append_bytes(out, content);
}

/// Appends the wire form of a fixed-width 64-bit word to `out`.
pub fn append_word(out: &mut Vec<u8>, x: u64)
    ensures
        final(out)@ == old(out)@ + spec_word(x),
{
    let mut word = u64_to_le_bytes(x);
    out.append(&mut word);
}

/// Appends the wire form of a timestamp to `out`.
pub fn append_time_word(out: &mut Vec<u8>, t: i64)
    requires
        t >= 0,
    ensures
        final(out)@ == old(out)@ + spec_time_word(t),
{
    let mut word = u64_to_le_bytes(t as u64);
    out.append(&mut word);
}

/// Appends the one-byte wire form of a flag to `out`.
pub fn append_flag(out: &mut Vec<u8>, b: bool)
    ensures
        final(out)@ == old(out)@ + spec_flag(b),
{
    out.push(if b { 1u8 } else { 0u8 });
    proof {
        assert(out@ == old(out)@ + spec_flag(b));
    }
}

} // verus!
