use vstd::prelude::*;
use vstd::slice::slice_subrange;
use crate::encoding::{le_value, read_le};

verus! {

/// The SHA-256 digest of `data`.
pub uninterp spec fn sha256(data: Seq<u8>) -> Seq<u8>;

/// Calls `solana_program::hash::hash` and takes the digest's bytes with
/// `Hash::to_bytes`. The digest is SHA-256 of the data and of nothing else,
/// so the same bytes always give the same 32 bytes; that they are
/// `sha256(data)` is taken on trust.
#[verifier::external_body]
fn sha256_digest(data: &[u8]) -> (digest: [u8; 32])
    ensures
        digest@ == sha256(data@),
{
    solana_program::hash::hash(data).to_bytes()
}

/// The number of values a `u128` can hold.
pub open spec fn two_to_128() -> int {
    0x1_0000_0000_0000_0000_0000_0000_0000_0000int
}

/// The roll that a 32-byte digest gives: its two halves, each read as a
/// little-endian 128-bit number, are added modulo 2 to the 128; the sum
/// modulo 100, plus 1, is the roll.
pub open spec fn roll_of_hash(hash: Seq<u8>) -> int {
    let lower = le_value(hash.subrange(0, 16)) as int;
    let upper = le_value(hash.subrange(16, 32)) as int;
    ((lower + upper) % two_to_128()) % 100 + 1
}

/// The roll that a signature gives: that of its SHA-256 digest.
pub open spec fn roll_of_signature(sig: Seq<u8>) -> int {
    roll_of_hash(sha256(sig))
}

/// Every roll lies in `1..=100`.
pub proof fn lemma_roll_in_range(hash: Seq<u8>)
    ensures
        1 <= roll_of_hash(hash) <= 100,
{
}

/// The roll depends on the signature's bytes alone: equal bytes, equal roll.
pub proof fn lemma_roll_deterministic(first: Seq<u8>, second: Seq<u8>)
    requires
        first == second,
    ensures
        roll_of_signature(first) == roll_of_signature(second),
        1 <= roll_of_signature(first) <= 100,
{
}

/// Derives the roll from a digest.
pub fn roll_from_hash(hash: &[u8; 32]) -> (roll: u8)
    ensures
        roll == roll_of_hash(hash@),
        1 <= roll <= 100,
{
    let bytes = hash.as_slice();
    let lower: u128 = read_le(slice_subrange(bytes, 0, 16));
    let upper: u128 = read_le(slice_subrange(bytes, 16, 32));
    let sum: u128 = lower.wrapping_add(upper);
    proof {
        assert(sum == (lower + upper) % two_to_128());
    }
    (sum % 100) as u8 + 1
}

/// Derives the roll from the signature that the house produced.
pub fn roll_from_signature(sig: &[u8]) -> (roll: u8)
    ensures
        roll == roll_of_signature(sig@),
        1 <= roll <= 100,
{
    let digest = sha256_digest(sig);
    roll_from_hash(&digest)
}

} // verus!
