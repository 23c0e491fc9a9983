//! The rules of three on-chain programs, verified.
//!
//! The settlement of dice wagers is the main part: a house signature over
//! the wager record is checked against the Ed25519 instruction of the same
//! transaction (`ed25519`), a roll in `1..=100` is derived from the
//! signature (`randomness`), and a winning wager is paid from the vault
//! under a fixed house edge (`payout`, `resolve_bet`). Beside it stand the
//! counting of quadratic votes (`voting`) and the claim of staking rewards
//! (`staking`).
//!
//! Accounts, instructions and transfers are not touched here: every
//! function takes plain values and returns what is to be done.

pub mod bet;
pub mod ed25519;
pub mod encoding;
pub mod errors;
pub mod numeric;
pub mod payout;
pub mod randomness;
pub mod resolve_bet;
pub mod staking;
pub mod voting;
