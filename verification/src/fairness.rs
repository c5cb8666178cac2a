use vstd::prelude::*;

use vstd::bytes::spec_u128_from_le_bytes;
use vstd::bytes::u128_from_le_bytes;
use vstd::slice::slice_subrange;
use vstd::wrapping::u128_specs;

verus! {

/// Width of the digest the derivation consumes, in bytes.
pub const HASH_LEN: usize = 32;

/// The 32-byte blake3 digest of a byte string. Its value is a function of
/// the input bytes alone; it is named here, not written out.
pub uninterp spec fn blake3_of(data: Seq<u8>) -> Seq<u8>;

/// Relies on `solana_program::blake3::hash`: the 32-byte blake3 digest of
/// the input, computed from the input bytes alone.
#[verifier::external_body]
fn blake3_digest(data: &Vec<u8>) -> (r: Vec<u8>)
    ensures
        r@ == blake3_of(data@),
        r@.len() == HASH_LEN,
{
    solana_program::blake3::hash(data.as_slice()).to_bytes().to_vec()
}

/// The roll a 32-byte digest stands for: the digest is split into two
/// 128-bit little-endian halves; the lower half is reduced modulo 100 and
/// added to the upper half with 128-bit wraparound; the sum is reduced
/// modulo 100 once more, and one is added, landing the roll in [1, 100].
/// The wraparound in the addition is expected and intentional: the result
/// is immediately reduced modulo 100.
pub open spec fn outcome_spec(h: Seq<u8>) -> int
    recommends
        h.len() == HASH_LEN,
{
    let lower = spec_u128_from_le_bytes(h.subrange(0, 16));
    let upper = spec_u128_from_le_bytes(h.subrange(16, 32));
    u128_specs::wrapping_add((lower % 100) as u128, upper) % 100 + 1
}

/// Reduces a 32-byte digest to the roll it stands for.
pub fn derive_outcome(hash: &Vec<u8>) -> (r: u8)
    requires
        hash@.len() == HASH_LEN,
    ensures
        r == outcome_spec(hash@),
        1 <= r <= 100,
{
    let lower = u128_from_le_bytes(slice_subrange(hash.as_slice(), 0, 16));
    let upper = u128_from_le_bytes(slice_subrange(hash.as_slice(), 16, 32));
    let mixed = (lower % 100).wrapping_add(upper);
    ((mixed % 100) as u8) + 1
}

/// Derives the roll for a house signature: the blake3 digest of the
/// signature bytes, reduced to [1, 100]. The derivation is pure, so
/// identical signature bytes always yield the identical roll.
pub fn outcome_of_signature(signature: &Vec<u8>) -> (r: u8)
    ensures
        r == outcome_spec(blake3_of(signature@)),
        1 <= r <= 100,
{
    let digest = blake3_digest(signature);
    derive_outcome(&digest)
}

/// Every derivable outcome lies in [1, 100], whatever the digest holds.
pub proof fn lemma_outcome_bounded(h: Seq<u8>)
    ensures
        1 <= outcome_spec(h) <= 100,
{
}

/// Outcome derivation is deterministic: identical signature bytes always
/// yield the identical outcome.
pub proof fn lemma_outcome_deterministic(a: Seq<u8>, b: Seq<u8>)
    requires
        a == b,
    ensures
        outcome_spec(blake3_of(a)) == outcome_spec(blake3_of(b)),
{
}

/// A target roll of one can never be beaten: no derivable outcome lies
/// below one, so a bet on one loses whatever the signature was.
pub proof fn lemma_target_one_never_wins(h: Seq<u8>)
    ensures
        !(outcome_spec(h) < 1),
{
}

} // verus!
