//! Deterministic derivation of storage addresses.
//!
//! A record's address is computed from a namespace tag, a caller-supplied
//! identifier and an owner identity, so that identical inputs always yield
//! the same address and the caller never chooses addresses freely. Each of
//! the four words of the address is a 64-bit FNV-1a digest of the seed bytes,
//! started from a distinct basis. The all-zero address is reserved by the
//! hosting environment; when a candidate collides with that reserved class,
//! derivation retries with the next lower bump value, and fails once every
//! bump value is exhausted.

use vstd::prelude::*;

verus! {

use crate::encoding::append_len_prefixed;
use crate::encoding::append_word;
use crate::encoding::spec_len_prefixed;
use crate::encoding::spec_word;
use crate::keys::Pubkey;

/// 64-bit FNV-1a offset basis, the start value for the first address word.
pub const HASH_BASIS_0: u64 = 0xcbf2_9ce4_8422_2325;

/// Start value for the second address word.
pub const HASH_BASIS_1: u64 = 0x84cf_8f9b_a2fc_5ea1;

/// Start value for the third address word.
pub const HASH_BASIS_2: u64 = 0x517c_c1b7_2722_0a95;

/// Start value for the fourth address word.
pub const HASH_BASIS_3: u64 = 0x27d4_eb2f_1654_63a9;

/// 64-bit FNV prime.
pub const HASH_PRIME: u64 = 0x0000_0100_0000_01b3;

/// Number of bump values tried before derivation gives up.
pub const MAX_BUMP_TRIES: u16 = 256;

/// One FNV-1a round: fold one byte into the accumulator.
pub open spec fn spec_hash_step(acc: u64, byte: u8) -> u64 {
    vstd::wrapping::u64_specs::wrapping_mul(acc ^ (byte as u64), HASH_PRIME)
}

/// FNV-1a digest of `bytes`, started from `basis`.
pub open spec fn spec_hash64(bytes: Seq<u8>, basis: u64) -> u64
    decreases bytes.len(),
{
    if bytes.len() == 0 {
        basis
    } else {
        spec_hash_step(spec_hash64(bytes.drop_last(), basis), bytes.last())
    }
}

/// The seed bytes of a derivation: the namespace tag as a fixed word, the
/// identifier length-prefixed so distinct splits cannot alias, then the
/// owner identity.
pub open spec fn spec_seed_bytes(namespace: u64, identifier: Seq<u8>, owner: Pubkey) -> Seq<u8> {
    spec_word(namespace) + spec_len_prefixed(identifier) + owner.spec_bytes()
}

/// The candidate address for one bump value: the four digests of the seed
/// bytes extended by the bump byte.
pub open spec fn spec_candidate(
    namespace: u64,
    identifier: Seq<u8>,
    owner: Pubkey,
    bump: u8,
) -> Pubkey {
    let seed = spec_seed_bytes(namespace, identifier, owner).push(bump);
    Pubkey {
        w0: spec_hash64(seed, HASH_BASIS_0),
        w1: spec_hash64(seed, HASH_BASIS_1),
        w2: spec_hash64(seed, HASH_BASIS_2),
        w3: spec_hash64(seed, HASH_BASIS_3),
    }
}

/// Whether an address avoids the reserved class.
pub open spec fn spec_address_ok(a: Pubkey) -> bool {
    a != Pubkey::spec_zero()
}

/// The derivation result with `tries` bump values left to inspect; bump
/// values are tried in descending order starting at `tries - 1`.
pub open spec fn spec_derive_from(
    namespace: u64,
    identifier: Seq<u8>,
    owner: Pubkey,
    tries: nat,
) -> Option<(Pubkey, u8)>
    recommends
        tries <= MAX_BUMP_TRIES,
    decreases tries,
{
    if tries == 0 {
        None
    } else {
        let bump = (tries - 1) as u8;
        let candidate = spec_candidate(namespace, identifier, owner, bump);
        if spec_address_ok(candidate) {
            Some((candidate, bump))
        } else {
            spec_derive_from(namespace, identifier, owner, (tries - 1) as nat)
        }
    }
}

/// The canonical derivation: the first acceptable candidate, trying bump
/// values from 255 downward; `None` when every bump value collides with the
/// reserved class.
pub open spec fn spec_derive(namespace: u64, identifier: Seq<u8>, owner: Pubkey) -> Option<
    (Pubkey, u8),
> {
    spec_derive_from(namespace, identifier, owner, MAX_BUMP_TRIES as nat)
}

/// FNV-1a digest of `bytes` started from `basis`.
fn hash64(bytes: &Vec<u8>, basis: u64) -> (r: u64)
    ensures
        r == spec_hash64(bytes@, basis),
{
    let mut acc: u64 = basis;
    let mut i: usize = 0;
    while i < bytes.len()
        invariant
            i <= bytes@.len(),
            acc == spec_hash64(bytes@.take(i as int), basis),
        decreases bytes@.len() - i,
    {
        acc = (acc ^ (bytes[i] as u64)).wrapping_mul(HASH_PRIME);
        i = i + 1;
        proof {
            let prefix = bytes@.take(i as int);
            assert(prefix.drop_last() == bytes@.take(i - 1));
            assert(prefix.last() == bytes@[i - 1]);
        }
    }
    proof {
        assert(bytes@.take(bytes@.len() as int) == bytes@);
    }
    acc
}

/// Builds the seed bytes of a derivation.
fn seed_bytes(namespace: u64, identifier: &Vec<u8>, owner: Pubkey) -> (r: Vec<u8>)
    requires
        identifier@.len() <= u32::MAX,
    ensures
        r@ == spec_seed_bytes(namespace, identifier@, owner),
{
    let mut seed: Vec<u8> = Vec::new();
    append_word(&mut seed, namespace);
    append_len_prefixed(&mut seed, identifier);
    owner.append_bytes(&mut seed);
    seed
}

/// Derives the storage address for `(namespace, identifier, owner)` together
/// with the bump value that made it acceptable. The result is a pure
/// function of the inputs: identical inputs always yield the same address.
pub fn derive_address(namespace: u64, identifier: &Vec<u8>, owner: Pubkey) -> (r: Option<
    (Pubkey, u8),
>)
    requires
        identifier@.len() <= u32::MAX,
    ensures
        r == spec_derive(namespace, identifier@, owner),
{
    let mut seed = seed_bytes(namespace, identifier, owner);
    let mut tries: u16 = MAX_BUMP_TRIES;
    while tries > 0
        invariant
            tries <= MAX_BUMP_TRIES,
            seed@ == spec_seed_bytes(namespace, identifier@, owner),
            spec_derive(namespace, identifier@, owner) == spec_derive_from(
                namespace,
                identifier@,
                owner,
                tries as nat,
            ),
        decreases tries,
    {
        let bump = (tries - 1) as u8;
        seed.push(bump);
        let w0 = hash64(&seed, HASH_BASIS_0);
        let w1 = hash64(&seed, HASH_BASIS_1);
        let w2 = hash64(&seed, HASH_BASIS_2);
        let w3 = hash64(&seed, HASH_BASIS_3);
        let candidate = Pubkey { w0, w1, w2, w3 };
        proof {
            assert(seed@ == spec_seed_bytes(namespace, identifier@, owner).push(bump));
            assert(candidate == spec_candidate(namespace, identifier@, owner, bump));
        }
        if !(candidate.w0 == 0 && candidate.w1 == 0 && candidate.w2 == 0 && candidate.w3 == 0) {
            proof {
                assert(spec_address_ok(candidate));
            }
            return Some((candidate, bump));
        }
        let _discarded = seed.pop();
        proof {
            assert(seed@ == spec_seed_bytes(namespace, identifier@, owner)) by {
                assert(spec_seed_bytes(namespace, identifier@, owner).push(
                    bump,
                ).drop_last() == spec_seed_bytes(namespace, identifier@, owner));
            }
        }
        tries = tries - 1;
    }
    None
}

} // verus!
