//! Identities and storage addresses.
//!
//! Every caller identity (a creator, a user, a token authority) and every
//! derived storage address is a 256-bit value, held as four 64-bit words so
//! that equality and byte layout are plain arithmetic facts.

use vstd::prelude::*;

verus! {

use vstd::bytes::lemma_auto_spec_u64_to_from_le_bytes;
use vstd::bytes::spec_u64_to_le_bytes;
use vstd::bytes::u64_to_le_bytes;

/// A 256-bit identity or storage address, as four little-endian 64-bit words.
#[derive(Clone, Copy, PartialEq, Eq, Structural, Debug, Hash)]
pub struct Pubkey {
    pub w0: u64,
    pub w1: u64,
    pub w2: u64,
    pub w3: u64,
}

impl Pubkey {
    /// The all-zero key. It is reserved: no derived address may equal it, and
    /// it serves callers as a sentinel identity.
    pub open spec fn spec_zero() -> Pubkey {
        Pubkey { w0: 0, w1: 0, w2: 0, w3: 0 }
    }

    pub fn zero() -> (r: Pubkey)
        ensures
            r == Pubkey::spec_zero(),
    {
        Pubkey { w0: 0, w1: 0, w2: 0, w3: 0 }
    }

    /// The 32-byte wire form: each word in little-endian order, words in
    /// ascending order.
    pub open spec fn spec_bytes(self) -> Seq<u8> {
        spec_u64_to_le_bytes(self.w0) + spec_u64_to_le_bytes(self.w1) + spec_u64_to_le_bytes(
            self.w2,
        ) + spec_u64_to_le_bytes(self.w3)
    }

    pub proof fn lemma_bytes_len(self)
        ensures
            self.spec_bytes().len() == 32,
    {
        lemma_auto_spec_u64_to_from_le_bytes();
    }

    /// Appends the 32-byte wire form of `self` to `out`.
    pub fn append_bytes(self, out: &mut Vec<u8>)
        ensures
            final(out)@ == old(out)@ + self.spec_bytes(),
    {
        let mut word_bytes = u64_to_le_bytes(self.w0);
        out.append(&mut word_bytes);
        let mut word_bytes = u64_to_le_bytes(self.w1);
        out.append(&mut word_bytes);
        let mut word_bytes = u64_to_le_bytes(self.w2);
        out.append(&mut word_bytes);
        let mut word_bytes = u64_to_le_bytes(self.w3);
        out.append(&mut word_bytes);
        proof {
            assert(out@ == old(out)@ + self.spec_bytes());
        }
    }
}

} // verus!
