//! Fixed-point scale, pricing tables, seeding amounts and risk caps.
//!
//! All monetary values are integers in base units with nine implied
//! decimals; odds and multipliers are fixed-point numbers scaled by
//! `ODDS_SCALE`.

use vstd::prelude::*;

verus! {

/// Basis-point denominator (10000 = 100%).
pub const BPS_DENOMINATOR: u64 = 10000;

/// Default protocol fee on all bets (5%).
pub const DEFAULT_PROTOCOL_FEE_BPS: u16 = 500;

/// Default winner share (25%).
pub const DEFAULT_WINNER_SHARE_BPS: u16 = 2500;

/// Default season pool share (2%).
pub const DEFAULT_SEASON_POOL_SHARE_BPS: u16 = 200;

/// Fixed-point scale for odds and multipliers (nine decimals).
pub const ODDS_SCALE: u64 = 1_000_000_000;

/// Parlay base multiplier for a single-leg bet (1.00x).
pub const PARLAY_MULTIPLIER_1_MATCH: u64 = 1_000_000_000;
/// Parlay base multiplier for two legs (1.05x).
pub const PARLAY_MULTIPLIER_2_MATCHES: u64 = 1_050_000_000;
/// Parlay base multiplier for three legs (1.10x).
pub const PARLAY_MULTIPLIER_3_MATCHES: u64 = 1_100_000_000;
/// Parlay base multiplier for four legs (1.13x).
pub const PARLAY_MULTIPLIER_4_MATCHES: u64 = 1_130_000_000;
/// Parlay base multiplier for five legs (1.16x).
pub const PARLAY_MULTIPLIER_5_MATCHES: u64 = 1_160_000_000;
/// Parlay base multiplier for six legs (1.19x).
pub const PARLAY_MULTIPLIER_6_MATCHES: u64 = 1_190_000_000;
/// Parlay base multiplier for seven legs (1.21x).
pub const PARLAY_MULTIPLIER_7_MATCHES: u64 = 1_210_000_000;
/// Parlay base multiplier for eight legs (1.23x).
pub const PARLAY_MULTIPLIER_8_MATCHES: u64 = 1_230_000_000;
/// Parlay base multiplier for nine legs (1.24x).
pub const PARLAY_MULTIPLIER_9_MATCHES: u64 = 1_240_000_000;
/// Parlay base multiplier for ten legs (1.25x).
pub const PARLAY_MULTIPLIER_10_MATCHES: u64 = 1_250_000_000;

/// Protocol seed per match (3000 tokens, nine decimals).
pub const SEED_PER_MATCH: u64 = 3_000_000_000_000;
/// Protocol seed per round of ten matches.
pub const SEED_PER_ROUND: u64 = SEED_PER_MATCH * 10;

/// Multiplier for virtual liquidity used to dampen market-odds movement.
pub const VIRTUAL_LIQUIDITY_MULTIPLIER: u64 = 12_000_000;

/// Minimum average pool imbalance (bps) for the full parlay bonus.
pub const MIN_IMBALANCE_FOR_FULL_BONUS: u64 = 4000;

/// Floor for the parlay multiplier of a multi-leg bet (1.1x).
pub const MIN_PARLAY_MULTIPLIER: u64 = 1_100_000_000;

/// Count tier bound: the first ten parlays of a round.
pub const COUNT_TIER_1: u64 = 10;
/// Count tier bound: parlays eleven to twenty.
pub const COUNT_TIER_2: u64 = 20;
/// Count tier bound: parlays twenty-one to thirty.
pub const COUNT_TIER_3: u64 = 30;
/// Count tier bound: parlays thirty-one to forty.
pub const COUNT_TIER_4: u64 = 40;

/// Count-based multiplier for the first tier (2.5x).
pub const COUNT_MULT_TIER_1: u64 = 2_500_000_000;
/// Count-based multiplier for the second tier (2.2x).
pub const COUNT_MULT_TIER_2: u64 = 2_200_000_000;
/// Count-based multiplier for the third tier (1.9x).
pub const COUNT_MULT_TIER_3: u64 = 1_900_000_000;
/// Count-based multiplier for the fourth tier (1.6x).
pub const COUNT_MULT_TIER_4: u64 = 1_600_000_000;
/// Count-based multiplier past the fourth tier (1.3x).
pub const COUNT_MULT_TIER_5: u64 = 1_300_000_000;

/// Locked-reserve bracket for full multipliers (100k tokens).
pub const RESERVE_TIER_1: u64 = 100_000_000_000_000;
/// Locked-reserve bracket for the second decay step (250k tokens).
pub const RESERVE_TIER_2: u64 = 250_000_000_000_000;
/// Locked-reserve bracket for the third decay step (500k tokens).
pub const RESERVE_TIER_3: u64 = 500_000_000_000_000;

/// Multiplier decay for the first reserve bracket (no decay).
pub const TIER_1_DECAY: u64 = 10000;
/// Multiplier decay for the second reserve bracket (12% decay).
pub const TIER_2_DECAY: u64 = 8800;
/// Multiplier decay for the third reserve bracket (24% decay).
pub const TIER_3_DECAY: u64 = 7600;
/// Multiplier decay past the third reserve bracket (36% decay).
pub const TIER_4_DECAY: u64 = 6400;

/// Largest stake a single bet may carry (10,000 tokens).
pub const MAX_BET_AMOUNT: u64 = 10_000_000_000_000;

/// Largest payout a single bet may receive (100,000 tokens).
pub const MAX_PAYOUT_PER_BET: u64 = 100_000_000_000_000;

/// Largest total payout a round may disburse (500,000 tokens).
pub const MAX_ROUND_PAYOUTS: u64 = 500_000_000_000_000;

/// Number of matches in every round.
pub const MATCHES_PER_ROUND: usize = 10;

/// Floor of the compressed odds band (1.2x).
pub const MIN_COMPRESSED_ODDS: u64 = 1_200_000_000;
/// Ceiling of the compressed odds band (2.2x).
pub const MAX_COMPRESSED_ODDS: u64 = 2_200_000_000;
/// Raw parimutuel odds at or below this compress to the floor (1.8x).
pub const RAW_ODDS_MIN: u64 = 1_800_000_000;
/// Raw parimutuel odds above this compress to the ceiling (5.5x).
pub const RAW_ODDS_MAX: u64 = 5_500_000_000;

/// Seconds a bettor has exclusive right to claim after settlement.
pub const CLAIM_GRACE_SECONDS: i64 = 86400;
/// Seconds past the claim deadline before revenue may be finalised.
pub const FINALIZE_BUFFER_SECONDS: i64 = 3600;
/// Bounty share (bps) paid to a third-party claimer after the deadline.
pub const BOUNTY_BPS: u64 = 1000;

} // verus!
