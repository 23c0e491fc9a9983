use vstd::prelude::*;
use crate::numeric::{checked_pow10, lemma_pow10_monotone, pow10};

verus! {

/// The most decimals a reward mint may have: ten to the next power no
/// longer fits in 64 bits.
pub const MAX_REWARD_DECIMALS: u8 = 19;

/// A claim of staking rewards: the points that the user has earned, and the
/// decimals of the mint that rewards are paid in.
#[derive(Clone, Copy, Debug, PartialEq, Eq, Structural)]
pub struct Claim {
    pub points: u32,
    pub reward_decimals: u8,
}

/// The reward for `points`: one whole token each, in the mint's smallest
/// unit, and at most the largest `u64`.
pub open spec fn reward_of(points: u32, decimals: u8) -> u64 {
    let exact = points as nat * pow10(decimals as nat);
    if exact > u64::MAX {
        u64::MAX
    } else {
        exact as u64
    }
}

/// Ten to the nineteenth, the largest power of ten in 64 bits.
pub proof fn lemma_pow10_of_19()
    ensures
        pow10(19) == 10_000_000_000_000_000_000,
{
    reveal_with_fuel(pow10, 20);
}

impl Claim {
    /// Claims the reward: the amount to mint is returned and the points are
    /// spent. Without points there is nothing to claim and nothing changes.
    pub fn claim(&mut self) -> (minted: Option<u64>)
        requires
            old(self).reward_decimals <= MAX_REWARD_DECIMALS,
        ensures
            old(self).points == 0 ==> minted is None && *final(self) == *old(self),
            old(self).points > 0 ==> minted == Some(
                reward_of(old(self).points, old(self).reward_decimals),
            ) && final(self).points == 0 && final(self).reward_decimals == old(
                self,
            ).reward_decimals,
    {
        if self.points == 0 {
            return None;
        }
        proof {
            lemma_pow10_of_19();
            lemma_pow10_monotone(self.reward_decimals as nat, 19);
        }
        let unit: u64 = match checked_pow10(self.reward_decimals as u32) {
            Some(unit) => unit as u64,
            None => u64::MAX,
        };
        let minted: u64 = match (self.points as u64).checked_mul(unit) {
            Some(exact) => exact,
            None => u64::MAX,
        };
        self.points = 0;
        Some(minted)
    }
}

} // verus!
