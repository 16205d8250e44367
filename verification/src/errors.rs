//! Error taxonomy shared by every fallible operation of the engine.

use vstd::prelude::*;

verus! {

/// Reason a request was rejected.
///
/// Validation errors abort a request before any state is touched; state
/// errors abort idempotently; arithmetic errors indicate adversarial input
/// or a genuine bug. Every operation that returns one of these leaves all
/// of its inputs unchanged.
#[derive(Clone, Copy, Debug, PartialEq, Eq, Structural)]
pub enum SportsbookError {
    /// A match index was outside 0..=9.
    InvalidMatchIndex,
    /// An outcome code was outside 1..=3.
    InvalidOutcome,
    /// Match indices and outcomes had different lengths.
    ArrayLengthMismatch,
    /// A bet carried no legs, or more than ten.
    InvalidBetCount,
    /// The stake was above `MAX_BET_AMOUNT`.
    BetExceedsMaximum,
    /// The round was already settled.
    RoundAlreadySettled,
    /// The round has not been settled yet.
    RoundNotSettled,
    /// The round was already seeded.
    RoundAlreadySeeded,
    /// The round has not been seeded yet.
    RoundNotSeeded,
    /// The odds of a selected match were not locked.
    OddsNotLocked,
    /// The bet was already claimed.
    BetAlreadyClaimed,
    /// The claimer is not the bettor and the claim window is still open.
    NotBettor,
    /// The payout fell below the claimer's slippage bound.
    PayoutBelowMinimum,
    /// The treasury or liquidity pool cannot cover the worst-case payout.
    InsufficientProtocolLiquidity,
    /// A withdrawal asked for more than the unlocked liquidity.
    InsufficientAvailableLiquidity,
    /// Paying this claim would push the round past `MAX_ROUND_PAYOUTS`.
    RoundPayoutLimitReached,
    /// Revenue of this round was already distributed.
    RevenueAlreadyDistributed,
    /// Revenue may only be distributed after the claim window and buffer.
    RevenueDistributedBeforeClaims,
    /// A checked arithmetic step would have overflowed.
    CalculationOverflow,
    /// The authority presented is not the pool's authority.
    InvalidAuthority,
    /// An amount was zero where a positive amount is required.
    InvalidAmount,
    /// The payout would exceed the per-bet maximum.
    MaxPayoutExceeded,
    /// The round id is not the next sequential id.
    InvalidRoundId,
    /// More than ten predictions were supplied.
    TooManyPredictions,
    /// A numeric narrowing lost information.
    NumericalOverflow,
}

} // verus!
