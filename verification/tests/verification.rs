use anchor_logic::bet::Bet;
use anchor_logic::ed25519::{verify, SignatureEntry, SignatureEnvelope};
use anchor_logic::errors::DiceError;
use anchor_logic::resolve_bet::{BetAccount, ResolveBet, ResolveBetBumps};

const HOUSE: [u8; 32] = [1; 32];

fn the_bet() -> Bet {
    Bet { player: [2; 32], seed: 9, roll: 50, amount: 1_000_000, bump: 254 }
}

fn the_signature() -> Vec<u8> {
    let mut sig = 195u64.to_le_bytes().to_vec();
    sig.resize(64, 0);
    sig
}

fn entry_for(bet: &Bet) -> SignatureEntry {
    let mut signature = [0u8; 64];
    signature.copy_from_slice(&the_signature());
    SignatureEntry {
        is_verifiable: true,
        public_key: Some(HOUSE),
        signature: Some(signature),
        message: Some(bet.to_slice()),
    }
}

fn envelope_of(entries: Vec<SignatureEntry>) -> SignatureEnvelope {
    SignatureEnvelope {
        program_id: solana_program::ed25519_program::ID.to_bytes(),
        accounts: 0,
        signatures: Some(entries),
    }
}

fn context(instruction: Option<SignatureEnvelope>) -> ResolveBet {
    ResolveBet {
        house: HOUSE,
        player: [2; 32],
        vault: [3; 32],
        bet: BetAccount::Open(the_bet()),
        instruction,
    }
}

fn verdict(instruction: Option<SignatureEnvelope>) -> Result<(), DiceError> {
    let mut ctx = context(instruction);
    let before = ctx.clone();
    let result = ctx.verify_ed25519_signature(&the_signature());
    assert_eq!(ctx, before);
    result
}

#[test]
fn valid_proof_is_accepted() {
    assert_eq!(verdict(Some(envelope_of(vec![entry_for(&the_bet())]))), Ok(()));
}

#[test]
fn ed25519_program_id_is_the_known_address() {
    let id = solana_program::ed25519_program::ID;
    assert_eq!(id.to_string(), "Ed25519SigVerify111111111111111111111111111");
    let mut envelope = envelope_of(vec![entry_for(&the_bet())]);
    envelope.program_id = [
        3, 125, 70, 214, 124, 147, 251, 190, 18, 249, 66, 143, 131, 141, 64, 255, 5, 112, 116,
        73, 39, 244, 138, 100, 252, 202, 112, 68, 128, 0, 0, 0,
    ];
    assert_eq!(envelope.program_id, id.to_bytes());
    assert_eq!(verdict(Some(envelope)), Ok(()));
}

#[test]
fn missing_instruction_is_refused() {
    assert_eq!(verdict(None), Err(DiceError::Ed25519Missing));
}

#[test]
fn instruction_of_another_program_is_refused() {
    let mut envelope = envelope_of(vec![entry_for(&the_bet())]);
    envelope.program_id = [0; 32];
    assert_eq!(verdict(Some(envelope.clone())), Err(DiceError::Ed25519Program));
    envelope.program_id = solana_program::ed25519_program::ID.to_bytes();
    envelope.program_id[31] ^= 1;
    assert_eq!(verdict(Some(envelope)), Err(DiceError::Ed25519Program));
}

#[test]
fn instruction_with_accounts_is_refused() {
    let mut envelope = envelope_of(vec![entry_for(&the_bet())]);
    envelope.accounts = 1;
    assert_eq!(verdict(Some(envelope)), Err(DiceError::Ed25519Accounts));
}

#[test]
fn data_without_a_signature_set_is_refused() {
    let mut envelope = envelope_of(vec![]);
    envelope.signatures = None;
    assert_eq!(verdict(Some(envelope)), Err(DiceError::Ed25519Signature));
}

#[test]
fn empty_and_batched_sets_are_refused() {
    assert_eq!(verdict(Some(envelope_of(vec![]))), Err(DiceError::Ed25519SignatureCount));
    let two = vec![entry_for(&the_bet()), entry_for(&the_bet())];
    assert_eq!(verdict(Some(envelope_of(two))), Err(DiceError::Ed25519SignatureCount));
}

#[test]
fn unverifiable_entry_is_refused() {
    let mut entry = entry_for(&the_bet());
    entry.is_verifiable = false;
    assert_eq!(verdict(Some(envelope_of(vec![entry]))), Err(DiceError::Ed25519Header));
}

#[test]
fn entry_without_a_key_is_refused() {
    let mut entry = entry_for(&the_bet());
    entry.public_key = None;
    assert_eq!(verdict(Some(envelope_of(vec![entry]))), Err(DiceError::Ed25519Pubkey));
}

#[test]
fn signature_of_another_signer_is_refused() {
    let mut entry = entry_for(&the_bet());
    entry.public_key = Some([7; 32]);
    assert_eq!(verdict(Some(envelope_of(vec![entry]))), Err(DiceError::Ed25519Pubkey));
    let mut close = HOUSE;
    close[0] ^= 0x80;
    let mut entry = entry_for(&the_bet());
    entry.public_key = Some(close);
    assert_eq!(verdict(Some(envelope_of(vec![entry]))), Err(DiceError::Ed25519Pubkey));
}

#[test]
fn proof_for_one_signer_fails_for_another_house() {
    let envelope = Some(envelope_of(vec![entry_for(&the_bet())]));
    let message = the_bet().to_slice();
    assert_eq!(verify(&envelope, &HOUSE, &the_signature(), &message), Ok(()));
    assert_eq!(
        verify(&envelope, &[8; 32], &the_signature(), &message),
        Err(DiceError::Ed25519Pubkey)
    );
}

#[test]
fn entry_without_a_signature_is_refused() {
    let mut entry = entry_for(&the_bet());
    entry.signature = None;
    assert_eq!(verdict(Some(envelope_of(vec![entry]))), Err(DiceError::Ed25519Signature));
}

#[test]
fn substituted_signature_is_refused() {
    let mut entry = entry_for(&the_bet());
    entry.signature = Some([9; 64]);
    assert_eq!(verdict(Some(envelope_of(vec![entry]))), Err(DiceError::Ed25519Signature));
}

#[test]
fn supplied_signature_of_another_length_is_refused() {
    let envelope = Some(envelope_of(vec![entry_for(&the_bet())]));
    let mut ctx = context(envelope);
    let mut short = the_signature();
    short.pop();
    assert_eq!(ctx.verify_ed25519_signature(&short), Err(DiceError::Ed25519Signature));
    let mut long = the_signature();
    long.push(0);
    assert_eq!(ctx.verify_ed25519_signature(&long), Err(DiceError::Ed25519Signature));
}

#[test]
fn entry_without_a_message_is_refused() {
    let mut entry = entry_for(&the_bet());
    entry.message = None;
    assert_eq!(verdict(Some(envelope_of(vec![entry]))), Err(DiceError::Ed25519Signature));
}

#[test]
fn message_altered_in_one_byte_is_refused() {
    let altered = Bet { amount: 1_000_001, ..the_bet() };
    let entry = entry_for(&altered);
    assert_eq!(verdict(Some(envelope_of(vec![entry]))), Err(DiceError::Ed25519Message));
    for at in 0..58 {
        let mut entry = entry_for(&the_bet());
        let mut message = the_bet().to_slice();
        message[at] ^= 1;
        entry.message = Some(message);
        assert_eq!(verdict(Some(envelope_of(vec![entry]))), Err(DiceError::Ed25519Message));
    }
}

#[test]
fn message_of_another_length_is_refused() {
    let mut entry = entry_for(&the_bet());
    let mut message = the_bet().to_slice();
    message.push(0);
    entry.message = Some(message);
    assert_eq!(verdict(Some(envelope_of(vec![entry]))), Err(DiceError::Ed25519Message));
}

#[test]
fn signature_for_one_wager_fails_for_an_altered_one() {
    let envelope = Some(envelope_of(vec![entry_for(&the_bet())]));
    for altered in [
        Bet { amount: 2_000_000, ..the_bet() },
        Bet { roll: 99, ..the_bet() },
        Bet { seed: 10, ..the_bet() },
        Bet { bump: 253, ..the_bet() },
        Bet { player: [6; 32], ..the_bet() },
    ] {
        let mut ctx = context(envelope.clone());
        ctx.bet = BetAccount::Open(altered);
        assert_eq!(
            ctx.verify_ed25519_signature(&the_signature()),
            Err(DiceError::Ed25519Message)
        );
    }
}

#[test]
fn first_failing_check_names_the_error() {
    let mut entry = entry_for(&Bet { amount: 5, ..the_bet() });
    entry.signature = Some([9; 64]);
    entry.public_key = Some([7; 32]);
    entry.is_verifiable = false;
    let mut envelope = envelope_of(vec![entry.clone(), entry.clone()]);
    envelope.accounts = 3;
    envelope.program_id = [0; 32];
    assert_eq!(verdict(Some(envelope.clone())), Err(DiceError::Ed25519Program));
    envelope.program_id = solana_program::ed25519_program::ID.to_bytes();
    assert_eq!(verdict(Some(envelope.clone())), Err(DiceError::Ed25519Accounts));
    envelope.accounts = 0;
    assert_eq!(verdict(Some(envelope.clone())), Err(DiceError::Ed25519SignatureCount));
    envelope.signatures = Some(vec![entry.clone()]);
    assert_eq!(verdict(Some(envelope.clone())), Err(DiceError::Ed25519Header));
    entry.is_verifiable = true;
    envelope.signatures = Some(vec![entry.clone()]);
    assert_eq!(verdict(Some(envelope.clone())), Err(DiceError::Ed25519Pubkey));
    entry.public_key = Some(HOUSE);
    envelope.signatures = Some(vec![entry.clone()]);
    assert_eq!(verdict(Some(envelope.clone())), Err(DiceError::Ed25519Signature));
    entry.signature = entry_for(&the_bet()).signature;
    envelope.signatures = Some(vec![entry.clone()]);
    assert_eq!(verdict(Some(envelope.clone())), Err(DiceError::Ed25519Message));
    entry.message = Some(the_bet().to_slice());
    envelope.signatures = Some(vec![entry]);
    assert_eq!(verdict(Some(envelope)), Ok(()));
}

#[test]
fn settle_checks_the_proof_then_pays_and_closes() {
    let bumps = ResolveBetBumps { vault: 250 };
    let sig = the_signature();
    // The signature rolls 50; the wager's threshold is 50, so it loses.
    let mut lost = context(Some(envelope_of(vec![entry_for(&the_bet())])));
    let resolution = lost.settle(&sig, &bumps).unwrap();
    assert_eq!(resolution.roll, 50);
    assert_eq!(resolution.transfer, None);
    assert_eq!(resolution.refund_to, [2; 32]);
    assert_eq!(lost.bet, BetAccount::Closed);

    let better = Bet { roll: 51, ..the_bet() };
    let mut won = context(Some(envelope_of(vec![entry_for(&better)])));
    won.bet = BetAccount::Open(better);
    let resolution = won.settle(&sig, &bumps).unwrap();
    assert_eq!(resolution.roll, 50);
    let transfer = resolution.transfer.unwrap();
    assert_eq!(transfer.lamports, 19_700);
    assert_eq!(transfer.from, [3; 32]);
    assert_eq!(transfer.to, [2; 32]);
    assert_eq!(transfer.signer.house, HOUSE);
    assert_eq!(transfer.signer.bump, 250);
    assert_eq!(won.bet, BetAccount::Closed);
}

#[test]
fn settle_without_proof_leaves_the_wager_open() {
    let bumps = ResolveBetBumps { vault: 250 };
    let mut ctx = context(None);
    assert_eq!(ctx.settle(&the_signature(), &bumps), Err(DiceError::Ed25519Missing));
    assert_eq!(ctx, context(None));
    let mut entry = entry_for(&the_bet());
    entry.public_key = Some([7; 32]);
    let mut ctx = context(Some(envelope_of(vec![entry])));
    let before = ctx.clone();
    assert_eq!(ctx.settle(&the_signature(), &bumps), Err(DiceError::Ed25519Pubkey));
    assert_eq!(ctx, before);
}

#[test]
fn wager_is_settled_once() {
    let bumps = ResolveBetBumps { vault: 250 };
    let sig = the_signature();
    let mut ctx = context(Some(envelope_of(vec![entry_for(&the_bet())])));
    assert!(ctx.settle(&sig, &bumps).is_ok());
    assert_eq!(ctx.settle(&sig, &bumps), Err(DiceError::BetClosed));
    assert_eq!(ctx.settle(&[1u8; 64].to_vec(), &bumps), Err(DiceError::BetClosed));
    assert_eq!(ctx.bet, BetAccount::Closed);
}

#[test]
fn errors_have_distinct_messages() {
    let all = [
        DiceError::Overflow,
        DiceError::Ed25519Missing,
        DiceError::Ed25519Program,
        DiceError::Ed25519Accounts,
        DiceError::Ed25519Signature,
        DiceError::Ed25519SignatureCount,
        DiceError::Ed25519Header,
        DiceError::Ed25519Pubkey,
        DiceError::Ed25519Message,
        DiceError::BetClosed,
    ];
    for (at, first) in all.iter().enumerate() {
        assert!(!first.message().is_empty());
        for second in all.iter().skip(at + 1) {
            assert_ne!(first, second);
            assert_ne!(first.message(), second.message());
        }
    }
    assert_eq!(DiceError::Overflow.message(), "Overflow");
}
