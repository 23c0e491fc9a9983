use vstd::prelude::*;

verus! {

/// Why a settlement was refused. Every refusal leaves the wager untouched.
#[derive(Clone, Copy, Debug, PartialEq, Eq, Structural)]
pub enum DiceError {
    /// A checked step of the payout computation had no result.
    Overflow,
    /// The transaction holds no instruction where the Ed25519 one must stand.
    Ed25519Missing,
    /// The inspected instruction does not belong to the Ed25519 program.
    Ed25519Program,
    /// The inspected instruction names accounts; the Ed25519 program takes none.
    Ed25519Accounts,
    /// The instruction data holds no signature set, the entry holds no
    /// signature or no message, or the signature differs from the one supplied.
    Ed25519Signature,
    /// The signature set does not hold exactly one entry.
    Ed25519SignatureCount,
    /// The entry is not marked as verifiable from the instruction's own data.
    Ed25519Header,
    /// The entry holds no public key, or one that is not the house's.
    Ed25519Pubkey,
    /// The signed message is not the serialized wager.
    Ed25519Message,
    /// The wager was settled before and no longer exists.
    BetClosed,
}

impl DiceError {
    /// A stable, human-readable description of the error.
    pub fn message(&self) -> (text: &'static str)
        ensures
            text@ == self.spec_message(),
    {
        match self {
            DiceError::Overflow => "Overflow",
            DiceError::Ed25519Missing => "Ed25519 instruction missing",
            DiceError::Ed25519Program => "Ed25519 Program Error",
            DiceError::Ed25519Accounts => "Ed25519 Accounts Error",
            DiceError::Ed25519Signature => "Ed25519 Signature Verification Error",
            DiceError::Ed25519SignatureCount => "Ed25519 Signature Count Error",
            DiceError::Ed25519Header => "Ed25519 Header Error",
            DiceError::Ed25519Pubkey => "Ed25519 Pubkey Error",
            DiceError::Ed25519Message => "Ed25519 Message Error",
            DiceError::BetClosed => "Bet already settled",
        }
    }

    pub open spec fn spec_message(&self) -> Seq<char> {
        match self {
            DiceError::Overflow => "Overflow"@,
            DiceError::Ed25519Missing => "Ed25519 instruction missing"@,
            DiceError::Ed25519Program => "Ed25519 Program Error"@,
            DiceError::Ed25519Accounts => "Ed25519 Accounts Error"@,
            DiceError::Ed25519Signature => "Ed25519 Signature Verification Error"@,
            DiceError::Ed25519SignatureCount => "Ed25519 Signature Count Error"@,
            DiceError::Ed25519Header => "Ed25519 Header Error"@,
            DiceError::Ed25519Pubkey => "Ed25519 Pubkey Error"@,
            DiceError::Ed25519Message => "Ed25519 Message Error"@,
            DiceError::BetClosed => "Bet already settled"@,
        }
    }
}

} // verus!
