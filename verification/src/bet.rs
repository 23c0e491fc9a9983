use vstd::prelude::*;
use crate::encoding::{
    le_bytes, lemma_le_bytes_injective, lemma_le_bytes_len, lemma_pow256_widths, push_le,
};

verus! {

/// The lowest threshold a wager may name: it wins on a roll of 1 alone.
pub const MIN_ROLL: u8 = 2;

/// The highest threshold a wager may name: it wins on every roll but 100.
pub const MAX_ROLL: u8 = 100;

/// The number of bytes a serialized wager takes.
pub const BET_BYTES: usize = 58;

/// A committed wager, awaiting settlement. It is never changed once made.
#[derive(Clone, Copy, Debug, PartialEq, Eq)]
pub struct Bet {
    /// Who is paid on a win, and who gets the record's deposit back.
    pub player: [u8; 32],
    /// Tells one player's wagers apart; part of the record's address.
    pub seed: u128,
    /// The threshold: the wager wins on a roll strictly below it.
    pub roll: u8,
    /// The stake, in lamports.
    pub amount: u64,
    /// The bump that ties the record's address to its vault and seed.
    pub bump: u8,
}

impl Bet {
    /// What wager creation guarantees of every record: a threshold from 2 to
    /// 100 and a stake above zero.
    pub open spec fn well_formed(&self) -> bool {
        &&& MIN_ROLL <= self.roll <= MAX_ROLL
        &&& self.amount > 0
    }

    /// The message the house signs: the fields in their fixed order, integers
    /// little-endian at their full width, the player's key as it is.
    pub open spec fn spec_to_slice(&self) -> Seq<u8> {
        self.player@.add(le_bytes(self.seed as nat, 16)).add(seq![self.roll]).add(
            le_bytes(self.amount as nat, 8),
        ).add(seq![self.bump])
    }

    pub fn is_well_formed(&self) -> (ok: bool)
        ensures
            ok == self.well_formed(),
    {
        MIN_ROLL <= self.roll && self.roll <= MAX_ROLL && self.amount > 0
    }

    /// Serializes the wager into the message the house signs.
    pub fn to_slice(&self) -> (bytes: Vec<u8>)
        ensures
            bytes@ == self.spec_to_slice(),
            bytes@.len() == BET_BYTES,
    {
        let mut bytes: Vec<u8> = Vec::new();
        bytes.extend_from_slice(self.player.as_slice());
        push_le(&mut bytes, self.seed, 16);
        bytes.push(self.roll);
        push_le(&mut bytes, self.amount as u128, 8);
        bytes.push(self.bump);
        proof {
            lemma_le_bytes_len(self.seed as nat, 16);
            lemma_le_bytes_len(self.amount as nat, 8);
            assert(bytes@ =~= self.spec_to_slice());
        }
        bytes
    }
}

/// The serialization loses nothing: two wagers with the same message agree
/// in every field. A signature over one wager's message is therefore a
/// signature over no other wager's.
pub proof fn lemma_to_slice_injective(a: Bet, b: Bet)
    requires
        a.spec_to_slice() == b.spec_to_slice(),
    ensures
        a.player@ == b.player@,
        a.seed == b.seed,
        a.roll == b.roll,
        a.amount == b.amount,
        a.bump == b.bump,
{
    let sa = a.spec_to_slice();
    let sb = b.spec_to_slice();
    lemma_le_bytes_len(a.seed as nat, 16);
    lemma_le_bytes_len(b.seed as nat, 16);
    lemma_le_bytes_len(a.amount as nat, 8);
    lemma_le_bytes_len(b.amount as nat, 8);
    lemma_pow256_widths();
    assert(sa.subrange(0, 32) =~= a.player@);
    assert(sb.subrange(0, 32) =~= b.player@);
    assert(sa.subrange(32, 48) =~= le_bytes(a.seed as nat, 16));
    assert(sb.subrange(32, 48) =~= le_bytes(b.seed as nat, 16));
    lemma_le_bytes_injective(a.seed as nat, b.seed as nat, 16);
    assert(sa[48] == a.roll);
    assert(sb[48] == b.roll);
    assert(sa.subrange(49, 57) =~= le_bytes(a.amount as nat, 8));
    assert(sb.subrange(49, 57) =~= le_bytes(b.amount as nat, 8));
    lemma_le_bytes_injective(a.amount as nat, b.amount as nat, 8);
    assert(sa[57] == a.bump);
    assert(sb[57] == b.bump);
}

} // verus!
