use vstd::prelude::*;
use crate::encoding::bytes_eq;
use crate::errors::DiceError;

verus! {

/// One entry of the signature set that an Ed25519 instruction carries, as
/// read from the instruction's data. A part that the data does not hold is
/// `None`.
#[derive(Clone, Debug, PartialEq, Eq)]
pub struct SignatureEntry {
    /// Whether the entry refers to its own instruction's data alone, so that
    /// what is read here is what the Ed25519 program checked.
    pub is_verifiable: bool,
    pub public_key: Option<[u8; 32]>,
    pub signature: Option<[u8; 64]>,
    pub message: Option<Vec<u8>>,
}

/// The instruction that is inspected for the proof of a signature: the
/// program it is addressed to, how many accounts it names, and the signature
/// set unpacked from its data (`None` where the data is no such set).
#[derive(Clone, Debug, PartialEq, Eq)]
pub struct SignatureEnvelope {
    pub program_id: [u8; 32],
    pub accounts: usize,
    pub signatures: Option<Vec<SignatureEntry>>,
}

/// The address of the Ed25519 program, `Ed25519SigVerify111111111111111111111111111`.
pub open spec fn ed25519_program_id() -> Seq<u8> {
    seq![
        3u8, 125, 70, 214, 124, 147, 251, 190, 18, 249, 66, 143, 131, 141, 64, 255,
        5, 112, 116, 73, 39, 244, 138, 100, 252, 202, 112, 68, 128, 0, 0, 0,
    ]
}

/// Takes the bytes of `solana_program::ed25519_program::ID` with
/// `Pubkey::to_bytes`. That the constant decodes to the 32 bytes of
/// `ed25519_program_id` is taken on trust.
#[verifier::external_body]
fn ed25519_program_key() -> (id: [u8; 32])
    ensures
        id@ == ed25519_program_id(),
{
    solana_program::ed25519_program::ID.to_bytes()
}

impl SignatureEntry {
    /// The verdict on one entry: it must be verifiable, be signed by
    /// `signer`, carry exactly the signature `sig`, and sign exactly
    /// `message`. The first failing check, in this order, names the error.
    pub open spec fn spec_check(&self, signer: Seq<u8>, sig: Seq<u8>, message: Seq<u8>) -> Result<
        (),
        DiceError,
    > {
        if !self.is_verifiable {
            Err(DiceError::Ed25519Header)
        } else if self.public_key is None || self.public_key->Some_0@ != signer {
            Err(DiceError::Ed25519Pubkey)
        } else if self.signature is None || self.signature->Some_0@ != sig {
            Err(DiceError::Ed25519Signature)
        } else if self.message is None {
            Err(DiceError::Ed25519Signature)
        } else if self.message->Some_0@ != message {
            Err(DiceError::Ed25519Message)
        } else {
            Ok(())
        }
    }

    pub fn check(&self, signer: &[u8; 32], sig: &[u8], message: &[u8]) -> (result: Result<
        (),
        DiceError,
    >)
        ensures
            result == self.spec_check(signer@, sig@, message@),
    {
        if !self.is_verifiable {
            return Err(DiceError::Ed25519Header);
        }
        match &self.public_key {
            None => {
                return Err(DiceError::Ed25519Pubkey);
            },
            Some(key) => {
                if !bytes_eq(key.as_slice(), signer.as_slice()) {
                    return Err(DiceError::Ed25519Pubkey);
                }
            },
        }
        match &self.signature {
            None => {
                return Err(DiceError::Ed25519Signature);
            },
            Some(signed) => {
                if !bytes_eq(signed.as_slice(), sig) {
                    return Err(DiceError::Ed25519Signature);
                }
            },
        }
        match &self.message {
            None => Err(DiceError::Ed25519Signature),
            Some(signed) => {
                if !bytes_eq(signed.as_slice(), message) {
                    Err(DiceError::Ed25519Message)
                } else {
                    Ok(())
                }
            },
        }
    }
}

impl SignatureEnvelope {
    /// The verdict on an instruction: it must be addressed to the Ed25519
    /// program, name no account, carry a signature set of exactly one entry,
    /// and that entry must pass. The first failing check, in this order,
    /// names the error.
    pub open spec fn spec_check(&self, signer: Seq<u8>, sig: Seq<u8>, message: Seq<u8>) -> Result<
        (),
        DiceError,
    > {
        if self.program_id@ != ed25519_program_id() {
            Err(DiceError::Ed25519Program)
        } else if self.accounts != 0 {
            Err(DiceError::Ed25519Accounts)
        } else if self.signatures is None {
            Err(DiceError::Ed25519Signature)
        } else if self.signatures->Some_0@.len() != 1 {
            Err(DiceError::Ed25519SignatureCount)
        } else {
            self.signatures->Some_0@[0].spec_check(signer, sig, message)
        }
    }

    pub fn check(&self, signer: &[u8; 32], sig: &[u8], message: &[u8]) -> (result: Result<
        (),
        DiceError,
    >)
        ensures
            result == self.spec_check(signer@, sig@, message@),
    {
        let facility = ed25519_program_key();
        if !bytes_eq(self.program_id.as_slice(), facility.as_slice()) {
            return Err(DiceError::Ed25519Program);
        }
        if self.accounts != 0 {
            return Err(DiceError::Ed25519Accounts);
        }
        match &self.signatures {
            None => Err(DiceError::Ed25519Signature),
            Some(set) => {
                if set.len() != 1 {
                    Err(DiceError::Ed25519SignatureCount)
                } else {
                    set[0].check(signer, sig, message)
                }
            },
        }
    }
}

/// The verdict on what stands where the Ed25519 instruction must: nothing
/// there is an error of its own, an instruction is judged by `spec_check`.
pub open spec fn verification(
    instruction: Option<SignatureEnvelope>,
    signer: Seq<u8>,
    sig: Seq<u8>,
    message: Seq<u8>,
) -> Result<(), DiceError> {
    match instruction {
        None => Err(DiceError::Ed25519Missing),
        Some(envelope) => envelope.spec_check(signer, sig, message),
    }
}

/// Verifies that the inspected instruction proves `sig` to be the signature
/// of `signer` over `message`.
pub fn verify(
    instruction: &Option<SignatureEnvelope>,
    signer: &[u8; 32],
    sig: &[u8],
    message: &[u8],
) -> (result: Result<(), DiceError>)
    ensures
        result == verification(*instruction, signer@, sig@, message@),
{
    match instruction {
        None => Err(DiceError::Ed25519Missing),
        Some(envelope) => envelope.check(signer, sig, message),
    }
}

/// A proof made for one signer is refused for every other: the same
/// instruction, signature and message fail with a key error as soon as the
/// expected signer is another.
pub proof fn lemma_other_signer_refused(
    instruction: Option<SignatureEnvelope>,
    signer: Seq<u8>,
    other: Seq<u8>,
    sig: Seq<u8>,
    message: Seq<u8>,
)
    requires
        verification(instruction, signer, sig, message) is Ok,
        other != signer,
    ensures
        verification(instruction, other, sig, message) == Err::<(), DiceError>(
            DiceError::Ed25519Pubkey,
        ),
{
}

/// A proof made for one message is refused for every other: the same
/// instruction, signer and signature fail with a message error as soon as
/// the expected message differs, be it in a single byte.
pub proof fn lemma_other_message_refused(
    instruction: Option<SignatureEnvelope>,
    signer: Seq<u8>,
    sig: Seq<u8>,
    message: Seq<u8>,
    other: Seq<u8>,
)
    requires
        verification(instruction, signer, sig, message) is Ok,
        other != message,
    ensures
        verification(instruction, signer, sig, other) == Err::<(), DiceError>(
            DiceError::Ed25519Message,
        ),
{
}

/// A proof made for one signature is refused for every other supplied in
/// its place.
pub proof fn lemma_other_signature_refused(
    instruction: Option<SignatureEnvelope>,
    signer: Seq<u8>,
    sig: Seq<u8>,
    other: Seq<u8>,
    message: Seq<u8>,
)
    requires
        verification(instruction, signer, sig, message) is Ok,
        other != sig,
    ensures
        verification(instruction, signer, other, message) == Err::<(), DiceError>(
            DiceError::Ed25519Signature,
        ),
{
}

} // verus!
