use anchor_logic::bet::Bet;
use anchor_logic::errors::DiceError;
use anchor_logic::payout::{payout, HOUSE_EDGE};
use anchor_logic::randomness::{roll_from_hash, roll_from_signature};
use anchor_logic::resolve_bet::{
    BetAccount, Resolution, ResolveBet, ResolveBetBumps, Transfer, VaultSigner,
};

fn counter_signature(counter: u64) -> Vec<u8> {
    let mut sig = counter.to_le_bytes().to_vec();
    sig.resize(64, 0);
    sig
}

fn open_wager(roll: u8, amount: u64) -> ResolveBet {
    ResolveBet {
        house: [1; 32],
        player: [2; 32],
        vault: [3; 32],
        bet: BetAccount::Open(Bet { player: [2; 32], seed: 9, roll, amount, bump: 254 }),
        instruction: None,
    }
}

fn reference_roll(hash: &[u8; 32]) -> u8 {
    let mut half = [0u8; 16];
    half.copy_from_slice(&hash[0..16]);
    let lower = u128::from_le_bytes(half);
    half.copy_from_slice(&hash[16..32]);
    let upper = u128::from_le_bytes(half);
    (lower.wrapping_add(upper) % 100) as u8 + 1
}

#[test]
fn house_edge_is_one_and_a_half_percent() {
    assert_eq!(HOUSE_EDGE, 150);
}

#[test]
fn payout_truncates_both_divisions() {
    assert_eq!(payout(1_000_000, 50), Ok(20102));
    assert_eq!(1_000_000u128 * 9850 / 49 / 10_000, 20102);
}

#[test]
fn payout_at_the_extreme_thresholds() {
    assert_eq!(payout(1_000_000, 2), Ok(985_000));
    assert_eq!(payout(1_000_000, 100), Ok(9949));
    assert_eq!(payout(0, 2), Ok(0));
    assert_eq!(payout(1, 2), Ok(0));
}

#[test]
fn payout_never_grows_with_the_threshold() {
    for amount in [1u64, 999, 1_000_000, 123_456_789_012, u64::MAX] {
        let mut last = payout(amount, 2).unwrap();
        for threshold in 3..=100u8 {
            let next = payout(amount, threshold).unwrap();
            assert!(next <= last, "amount {amount} threshold {threshold}");
            last = next;
        }
    }
}

#[test]
fn payout_of_the_largest_stake_does_not_wrap() {
    assert!(u64::MAX.checked_mul(9850).is_none());
    assert_eq!(payout(u64::MAX, 2), Ok(18_170_042_912_603_908_340));
    assert_eq!(
        payout(u64::MAX, 100),
        Ok((u64::MAX as u128 * 9850 / 99 / 10_000) as u64)
    );
}

#[test]
fn payout_without_a_winning_outcome_overflows() {
    assert_eq!(payout(1_000_000, 1), Err(DiceError::Overflow));
    assert_eq!(payout(u64::MAX, 1), Err(DiceError::Overflow));
}

#[test]
fn roll_of_known_signatures() {
    assert_eq!(roll_from_signature(&[0u8; 64]), 73);
    assert_eq!(roll_from_signature(&[7u8; 64]), 96);
    let rising: Vec<u8> = (0u8..64).collect();
    assert_eq!(roll_from_signature(&rising), 10);
    assert_eq!(roll_from_signature(&[]), 55);
    assert_eq!(roll_from_signature(&counter_signature(46)), 1);
    assert_eq!(roll_from_signature(&counter_signature(195)), 50);
    assert_eq!(roll_from_signature(&counter_signature(265)), 100);
}

#[test]
fn roll_is_that_of_the_sha256_digest() {
    for counter in 0..200u64 {
        let sig = counter_signature(counter);
        let digest = solana_program::hash::hash(&sig).to_bytes();
        assert_eq!(roll_from_signature(&sig), roll_from_hash(&digest));
        assert_eq!(roll_from_hash(&digest), reference_roll(&digest));
    }
}

#[test]
fn roll_is_deterministic() {
    let sig = counter_signature(77);
    let first = roll_from_signature(&sig);
    let second = roll_from_signature(&sig.clone());
    assert_eq!(first, second);
}

#[test]
fn roll_from_hash_wraps_the_sum() {
    assert_eq!(roll_from_hash(&[0u8; 32]), 1);
    let mut hash = [0u8; 32];
    for byte in hash.iter_mut().take(16) {
        *byte = 0xff;
    }
    hash[16] = 1;
    // lower is the largest u128, upper is 1: the sum wraps to 0.
    assert_eq!(roll_from_hash(&hash), 1);
    hash[16] = 100;
    assert_eq!(roll_from_hash(&hash), 100);
    let all = [0xffu8; 32];
    assert_eq!(roll_from_hash(&all), reference_roll(&all));
    assert_eq!(roll_from_hash(&all), (((u128::MAX - 1) % 100) as u8) + 1);
}

#[test]
fn rolls_cover_one_to_hundred() {
    let mut seen = [0u32; 101];
    for counter in 0..20_000u64 {
        let roll = roll_from_signature(&counter_signature(counter));
        assert!((1..=100).contains(&roll));
        seen[roll as usize] += 1;
    }
    assert_eq!(seen[0], 0);
    for roll in 1..=100usize {
        assert!(seen[roll] >= 100 && seen[roll] <= 300, "roll {roll}: {}", seen[roll]);
    }
}

#[test]
fn wager_wins_strictly_below_its_threshold() {
    let bumps = ResolveBetBumps { vault: 255 };
    for threshold in 2..=100u8 {
        for roll in 1..=100u8 {
            let mut ctx = open_wager(threshold, 1_000_000);
            let resolution = ctx.resolve_with_roll(roll, &bumps).unwrap();
            assert_eq!(resolution.roll, roll);
            assert_eq!(resolution.refund_to, [2; 32]);
            assert_eq!(resolution.transfer.is_some(), threshold > roll);
            if let Some(transfer) = resolution.transfer {
                assert_eq!(Ok(transfer.lamports), payout(1_000_000, threshold));
            }
            assert_eq!(ctx.bet, BetAccount::Closed);
        }
    }
}

#[test]
fn lowest_threshold_wins_on_one_alone() {
    let bumps = ResolveBetBumps { vault: 255 };
    for roll in 1..=100u8 {
        let resolution = open_wager(2, 500).resolve_with_roll(roll, &bumps).unwrap();
        assert_eq!(resolution.transfer.is_some(), roll == 1);
    }
}

#[test]
fn highest_threshold_loses_on_hundred_alone() {
    let bumps = ResolveBetBumps { vault: 255 };
    for roll in 1..=100u8 {
        let resolution = open_wager(100, 500).resolve_with_roll(roll, &bumps).unwrap();
        assert_eq!(resolution.transfer.is_some(), roll <= 99);
    }
}

#[test]
fn winning_wager_is_paid_from_the_vault() {
    let mut ctx = open_wager(50, 1_000_000);
    let resolution = ctx.resolve_with_roll(49, &ResolveBetBumps { vault: 251 });
    assert_eq!(
        resolution,
        Ok(Resolution {
            roll: 49,
            transfer: Some(Transfer {
                from: [3; 32],
                to: [2; 32],
                lamports: 20102,
                signer: VaultSigner { house: [1; 32], bump: 251 },
            }),
            refund_to: [2; 32],
        })
    );
    assert_eq!(ctx, ResolveBet { bet: BetAccount::Closed, ..open_wager(50, 1_000_000) });
}

#[test]
fn losing_wager_moves_nothing() {
    let mut ctx = open_wager(50, 1_000_000);
    let resolution = ctx.resolve_with_roll(50, &ResolveBetBumps { vault: 251 });
    assert_eq!(resolution, Ok(Resolution { roll: 50, transfer: None, refund_to: [2; 32] }));
    assert_eq!(ctx.bet, BetAccount::Closed);
}

#[test]
fn resolve_bet_uses_the_roll_of_the_signature() {
    let bumps = ResolveBetBumps { vault: 250 };
    // The signature of counter 195 rolls 50.
    let sig = counter_signature(195);
    let won = open_wager(51, 1_000_000).resolve_bet(&sig, &bumps).unwrap();
    assert_eq!(won.roll, 50);
    assert_eq!(won.transfer.map(|t| t.lamports), Some(1_000_000 * 9850 / 50 / 10_000));
    let lost = open_wager(50, 1_000_000).resolve_bet(&sig, &bumps).unwrap();
    assert_eq!(lost.roll, 50);
    assert_eq!(lost.transfer, None);
}

#[test]
fn wager_is_resolved_once() {
    let bumps = ResolveBetBumps { vault: 250 };
    let sig = counter_signature(46);
    let mut ctx = open_wager(2, 1_000);
    let first = ctx.resolve_bet(&sig, &bumps).unwrap();
    assert_eq!(first.transfer.map(|t| t.lamports), Some(985));
    assert_eq!(ctx.bet, BetAccount::Closed);
    assert_eq!(ctx.resolve_bet(&sig, &bumps), Err(DiceError::BetClosed));
    assert_eq!(ctx.resolve_with_roll(1, &bumps), Err(DiceError::BetClosed));
    assert_eq!(ctx.verify_ed25519_signature(&sig), Err(DiceError::BetClosed));
    assert_eq!(ctx.settle(&sig, &bumps), Err(DiceError::BetClosed));
    assert_eq!(ctx.bet, BetAccount::Closed);
}

#[test]
fn threshold_of_one_has_no_payout() {
    let bumps = ResolveBetBumps { vault: 250 };
    let mut ctx = open_wager(1, 1_000);
    assert_eq!(ctx.resolve_with_roll(0, &bumps), Err(DiceError::Overflow));
    assert_eq!(ctx, open_wager(1, 1_000));
    let lost = ctx.resolve_with_roll(1, &bumps).unwrap();
    assert_eq!(lost.transfer, None);
}

#[test]
fn vault_seeds_are_tag_house_and_bump() {
    let signer = VaultSigner { house: [9; 32], bump: 253 };
    assert_eq!(signer.seeds(), vec![b"vault".to_vec(), vec![9u8; 32], vec![253u8]]);
}
