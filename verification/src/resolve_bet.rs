use vstd::prelude::*;
use crate::bet::{lemma_to_slice_injective, Bet};
use crate::ed25519::{verification, verify, SignatureEnvelope};
use crate::errors::DiceError;
use crate::payout::{payout, payout_value};
use crate::randomness::{lemma_roll_in_range, roll_from_signature, roll_of_signature, sha256};

verus! {

/// The storage of a wager: the record while it awaits settlement, nothing
/// once it was settled.
#[derive(Clone, Copy, Debug, PartialEq, Eq)]
pub enum BetAccount {
    Open(Bet),
    Closed,
}

/// What a settlement works on: the house that must have signed, the player
/// and the vault between which a payout moves, the wager, and the
/// instruction found where the proof of the house's signature must stand
/// (`None` where the transaction holds none there).
#[derive(Clone, Debug, PartialEq, Eq)]
pub struct ResolveBet {
    pub house: [u8; 32],
    pub player: [u8; 32],
    pub vault: [u8; 32],
    pub bet: BetAccount,
    pub instruction: Option<SignatureEnvelope>,
}

/// The bumps of the addresses that a settlement derives.
#[derive(Clone, Copy, Debug)]
pub struct ResolveBetBumps {
    pub vault: u8,
}

/// The authority over a vault: no key, but the seeds its address derives
/// from, which are the tag `vault`, the house's key and the bump.
#[derive(Clone, Copy, Debug, PartialEq, Eq)]
pub struct VaultSigner {
    pub house: [u8; 32],
    pub bump: u8,
}

/// A payout to be moved from the vault to the player, signed for by the
/// vault's own seeds.
#[derive(Clone, Copy, Debug, PartialEq, Eq)]
pub struct Transfer {
    pub from: [u8; 32],
    pub to: [u8; 32],
    pub lamports: u64,
    pub signer: VaultSigner,
}

/// The outcome of a settlement: the roll, the payout to move if the wager
/// won, and who receives the deposit of the record, which is closed either
/// way.
#[derive(Clone, Copy, Debug, PartialEq, Eq)]
pub struct Resolution {
    pub roll: u8,
    pub transfer: Option<Transfer>,
    pub refund_to: [u8; 32],
}

/// The tag that a vault's seeds begin with: the bytes of `vault`.
pub open spec fn vault_tag() -> Seq<u8> {
    seq![118u8, 97, 117, 108, 116]
}

/// A wager wins when its threshold lies strictly above the roll.
pub open spec fn wins(threshold: u8, roll: u8) -> bool {
    threshold > roll
}

impl VaultSigner {
    /// The seeds that sign for the vault, in the order its address takes them.
    pub fn seeds(&self) -> (seeds: Vec<Vec<u8>>)
        ensures
            seeds@.len() == 3,
            seeds@[0]@ == vault_tag(),
            seeds@[1]@ == self.house@,
            seeds@[2]@ == seq![self.bump],
    {
        let tag: Vec<u8> = vec![118u8, 97, 117, 108, 116];
        let mut house: Vec<u8> = Vec::new();
        house.extend_from_slice(self.house.as_slice());
        let bump: Vec<u8> = vec![self.bump];
        let seeds: Vec<Vec<u8>> = vec![tag, house, bump];
        proof {
            assert(seeds@[0]@ =~= vault_tag());
            assert(seeds@[1]@ =~= self.house@);
            assert(seeds@[2]@ =~= seq![self.bump]);
        }
        seeds
    }
}

impl ResolveBet {
    /// The same settlement with its wager closed.
    pub open spec fn closed(&self) -> ResolveBet {
        ResolveBet {
            house: self.house,
            player: self.player,
            vault: self.vault,
            bet: BetAccount::Closed,
            instruction: self.instruction,
        }
    }

    /// The same settlement over another wager.
    pub open spec fn with_bet(&self, bet: Bet) -> ResolveBet {
        ResolveBet {
            house: self.house,
            player: self.player,
            vault: self.vault,
            bet: BetAccount::Open(bet),
            instruction: self.instruction,
        }
    }

    /// The verdict on the proof supplied for `sig`: a closed wager has
    /// nothing to prove; an open one asks for the house's signature `sig`
    /// over the wager's own serialization.
    pub open spec fn verified(&self, sig: Seq<u8>) -> Result<(), DiceError> {
        match self.bet {
            BetAccount::Closed => Err(DiceError::BetClosed),
            BetAccount::Open(bet) => verification(
                self.instruction,
                self.house@,
                sig,
                bet.spec_to_slice(),
            ),
        }
    }

    /// What resolving on `roll` gives. A losing wager moves nothing; a
    /// winning one moves its payout from the vault to the player. A
    /// threshold of 1 can only win on a roll of 0 and then has no payout.
    pub open spec fn resolved(&self, roll: u8, vault_bump: u8) -> Result<Resolution, DiceError> {
        match self.bet {
            BetAccount::Closed => Err(DiceError::BetClosed),
            BetAccount::Open(bet) => if !wins(bet.roll, roll) {
                Ok(Resolution { roll, transfer: None, refund_to: self.player })
            } else if bet.roll == 1 {
                Err(DiceError::Overflow)
            } else {
                Ok(
                    Resolution {
                        roll,
                        transfer: Some(
                            Transfer {
                                from: self.vault,
                                to: self.player,
                                lamports: payout_value(bet.amount as int, bet.roll as int) as u64,
                                signer: VaultSigner { house: self.house, bump: vault_bump },
                            },
                        ),
                        refund_to: self.player,
                    },
                )
            },
        }
    }

    /// What a whole settlement gives: the verdict on the proof if it fails,
    /// else the resolution on the roll that the signature gives.
    pub open spec fn settled(&self, sig: Seq<u8>, vault_bump: u8) -> Result<Resolution, DiceError> {
        match self.verified(sig) {
            Err(e) => Err(e),
            Ok(_) => self.resolved(roll_of_signature(sig) as u8, vault_bump),
        }
    }

    /// Checks that the inspected instruction proves `sig` to be the house's
    /// signature over this wager. Nothing is changed.
    pub fn verify_ed25519_signature(&mut self, sig: &Vec<u8>) -> (result: Result<(), DiceError>)
        ensures
            *final(self) == *old(self),
            result == old(self).verified(sig@),
    {
        match &self.bet {
            BetAccount::Closed => Err(DiceError::BetClosed),
            BetAccount::Open(bet) => {
                let message = bet.to_slice();
                verify(&self.instruction, &self.house, sig.as_slice(), message.as_slice())
            },
        }
    }

    /// Resolves the wager on a given roll and closes it. On an error the
    /// wager stays as it was.
    pub fn resolve_with_roll(&mut self, roll: u8, bumps: &ResolveBetBumps) -> (result: Result<
        Resolution,
        DiceError,
    >)
        ensures
            result == old(self).resolved(roll, bumps.vault),
            result is Ok ==> *final(self) == old(self).closed(),
            result is Err ==> *final(self) == *old(self),
    {
        let bet = match &self.bet {
            BetAccount::Closed => {
                return Err(DiceError::BetClosed);
            },
            BetAccount::Open(bet) => *bet,
        };
        let transfer = if bet.roll > roll {
            match payout(bet.amount, bet.roll) {
                Err(e) => {
                    return Err(e);
                },
                Ok(lamports) => Some(
                    Transfer {
                        from: self.vault,
                        to: self.player,
                        lamports,
                        signer: VaultSigner { house: self.house, bump: bumps.vault },
                    },
                ),
            }
        } else {
            None
        };
        self.bet = BetAccount::Closed;
        Ok(Resolution { roll, transfer, refund_to: self.player })
    }

    /// Resolves the wager on the roll that `sig` gives and closes it.
    pub fn resolve_bet(&mut self, sig: &Vec<u8>, bumps: &ResolveBetBumps) -> (result: Result<
        Resolution,
        DiceError,
    >)
        ensures
            result == old(self).resolved(roll_of_signature(sig@) as u8, bumps.vault),
            result is Ok ==> *final(self) == old(self).closed(),
            result is Err ==> *final(self) == *old(self),
    {
        let roll = roll_from_signature(sig.as_slice());
        self.resolve_with_roll(roll, bumps)
    }

    /// Settles the wager: the proof is checked first, and only a wager whose
    /// proof holds is resolved and closed.
    pub fn settle(&mut self, sig: &Vec<u8>, bumps: &ResolveBetBumps) -> (result: Result<
        Resolution,
        DiceError,
    >)
        ensures
            result == old(self).settled(sig@, bumps.vault),
            result is Ok ==> *final(self) == old(self).closed(),
            result is Err ==> *final(self) == *old(self),
    {
        match self.verify_ed25519_signature(sig) {
            Err(e) => Err(e),
            Ok(_) => self.resolve_bet(sig, bumps),
        }
    }
}

/// The win condition: on every roll from 1 to 100 a well-formed wager is
/// resolved, and it is paid exactly when its threshold lies strictly above
/// the roll. The lowest threshold, 2, wins on a roll of 1 alone; the
/// highest, 100, on every roll but 100. What is paid is the payout of the
/// stake at the threshold.
pub proof fn lemma_win_condition(ctx: ResolveBet, bet: Bet, roll: u8, vault_bump: u8)
    requires
        ctx.bet == BetAccount::Open(bet),
        bet.well_formed(),
        1 <= roll <= 100,
    ensures
        ctx.resolved(roll, vault_bump) is Ok,
        ctx.resolved(roll, vault_bump)->Ok_0.transfer is Some <==> bet.roll > roll,
        bet.roll == 2 ==> (ctx.resolved(roll, vault_bump)->Ok_0.transfer is Some <==> roll == 1),
        bet.roll == 100 ==> (ctx.resolved(roll, vault_bump)->Ok_0.transfer is Some <==> roll
            <= 99),
        bet.roll > roll ==> ctx.resolved(roll, vault_bump)->Ok_0.transfer->Some_0.lamports
            == payout_value(bet.amount as int, bet.roll as int),
{
    crate::payout::lemma_payout_bounded(bet.amount as int, bet.roll as int);
}

/// No stake overflows: whatever the amount and the threshold, an open wager
/// is resolved on every roll that a signature can give, so a settlement
/// fails on its proof or not at all.
pub proof fn lemma_settlement_never_overflows(ctx: ResolveBet, sig: Seq<u8>, vault_bump: u8)
    ensures
        ctx.bet is Open ==> ctx.resolved(roll_of_signature(sig) as u8, vault_bump) is Ok,
        ctx.settled(sig, vault_bump) is Ok <==> ctx.verified(sig) is Ok,
        ctx.settled(sig, vault_bump) is Err ==> ctx.settled(sig, vault_bump) == Err::<
            Resolution,
            DiceError,
        >(ctx.verified(sig)->Err_0),
{
    lemma_roll_in_range(sha256(sig));
}

/// A wager is settled at most once: after a settlement that succeeded, the
/// wager is closed, and every further attempt on it, with whatever
/// signature, fails because the wager no longer exists. Neither the proof
/// nor the payout is looked at again.
pub proof fn lemma_settled_once(
    ctx: ResolveBet,
    sig: Seq<u8>,
    vault_bump: u8,
    again: Seq<u8>,
    again_bump: u8,
    roll: u8,
)
    requires
        ctx.settled(sig, vault_bump) is Ok,
    ensures
        ctx.bet is Open,
        ctx.closed().bet is Closed,
        ctx.closed().settled(again, again_bump) == Err::<Resolution, DiceError>(
            DiceError::BetClosed,
        ),
        ctx.closed().verified(again) == Err::<(), DiceError>(DiceError::BetClosed),
        ctx.closed().resolved(roll, again_bump) == Err::<Resolution, DiceError>(
            DiceError::BetClosed,
        ),
{
}

/// A signature is bound to one wager: if the proof holds for a wager, it
/// fails with a message error for every wager that differs from it in any
/// field, the stake or the threshold among them.
pub proof fn lemma_altered_bet_refused(ctx: ResolveBet, bet: Bet, altered: Bet, sig: Seq<u8>)
    requires
        ctx.with_bet(bet).verified(sig) is Ok,
        altered.player@ != bet.player@ || altered.seed != bet.seed || altered.roll != bet.roll
            || altered.amount != bet.amount || altered.bump != bet.bump,
    ensures
        ctx.with_bet(altered).verified(sig) == Err::<(), DiceError>(DiceError::Ed25519Message),
{
    if altered.spec_to_slice() == bet.spec_to_slice() {
        lemma_to_slice_injective(altered, bet);
    }
}

} // verus!
