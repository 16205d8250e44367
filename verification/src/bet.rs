//! Bet lifecycle: placement with odds-weighted allocation, the payout
//! calculation against locked odds, and claims with the bounty window.

use vstd::prelude::*;

use crate::betting_pool::BettingPool;
use crate::constants::BOUNTY_BPS;
use crate::constants::BPS_DENOMINATOR;
use crate::constants::CLAIM_GRACE_SECONDS;
use crate::constants::MAX_BET_AMOUNT;
use crate::constants::MAX_PAYOUT_PER_BET;
use crate::constants::MAX_ROUND_PAYOUTS;
use crate::constants::ODDS_SCALE;
use crate::errors::SportsbookError;
use crate::liquidity::LiquidityPool;
use crate::match_pool::MatchOutcome;
use crate::match_pool::MatchPool;
use crate::parlay::calculate_max_payout;
use crate::parlay::calculate_odds_weighted_allocations;
use crate::parlay::calculate_parlay_multiplier_dynamic;
use crate::parlay::spec_allocation;
use crate::parlay::spec_leg_odds;
use crate::parlay::spec_legs_locked;
use crate::parlay::spec_max_payout;
use crate::parlay::spec_parlay_multiplier;
use crate::parlay::spec_target_payout_opt;
use crate::parlay::spec_total_allocated;
use crate::round::RoundAccounting;

verus! {

/// One predicted leg of a bet.
#[derive(Clone, Copy, Debug, PartialEq, Eq, Structural)]
pub struct Prediction {
    /// Index of the match, 0..=9.
    pub match_index: u8,
    /// Predicted outcome code, 1..=3.
    pub predicted_outcome: u8,
    /// Stake allocated to that match's pool for this bet.
    pub amount_in_pool: u64,
}

/// A bet placed by a user: a single or a parlay of up to ten legs.
#[derive(Clone, Copy, Debug)]
pub struct Bet {
    /// Identity of the bettor.
    pub bettor: u64,
    /// Round the bet belongs to.
    pub round_id: u64,
    /// Unique id of the bet.
    pub bet_id: u64,
    /// Original stake.
    pub amount: u64,
    /// Stake after the protocol fee.
    pub amount_after_fee: u64,
    /// Total allocated over the match pools.
    pub allocated_amount: u64,
    /// Stake bonus; unused in the unified liquidity model.
    pub bonus: u64,
    /// Parlay multiplier locked at placement.
    pub locked_multiplier: u64,
    /// Number of legs, 1..=10.
    pub num_predictions: u8,
    /// The legs; entries past `num_predictions` are unused.
    pub predictions: [Prediction; 10],
    /// Whether the bet has been settled.
    pub settled: bool,
    /// Whether the bet has been claimed.
    pub claimed: bool,
    /// Deadline for the bettor's exclusive claim; zero until first set.
    pub claim_deadline: i64,
    /// Identity of the bounty claimer, for a claim past the deadline.
    pub bounty_claimer: Option<u64>,
}

impl Bet {
    /// A bet has one to ten legs, each on a match index in range.
    pub open spec fn wf(self) -> bool {
        &&& 1 <= self.num_predictions <= 10
        &&& forall|i: int|
            0 <= i < self.num_predictions ==> (#[trigger] self.predictions@[i]).match_index < 10
    }

    /// The legs of the bet, without the unused tail of the array.
    pub fn get_predictions(&self) -> (r: &[Prediction])
        requires
            self.num_predictions <= 10,
        ensures
            r@ == self.predictions@.subrange(0, self.num_predictions as int),
    {
        vstd::slice::slice_subrange(
            self.predictions.as_slice(),
            0,
            self.num_predictions as usize,
        )
    }
}

/// Whether leg `i` of a bet predicted its match's actual outcome.
pub open spec fn spec_leg_correct(bet: Bet, round: RoundAccounting, i: int) -> bool {
    round.match_results@[bet.predictions@[i].match_index as int] == MatchOutcome::spec_from_u8(
        bet.predictions@[i].predicted_outcome,
    )
}

/// Whether a bet won: every leg predicted correctly.
pub open spec fn spec_bet_won(bet: Bet, round: RoundAccounting) -> bool {
    forall|i: int| 0 <= i < bet.num_predictions ==> spec_leg_correct(bet, round, i)
}

/// Base payout of the first `n` legs of a winning bet: each leg pays its
/// allocation times its locked odds, scaled down; `None` once a term or
/// the running sum leaves the `u64` range.
pub open spec fn spec_bet_base_payout_opt(bet: Bet, round: RoundAccounting, n: int) -> Option<int>
    decreases n,
{
    if n <= 0 {
        Option::Some(0)
    } else {
        match spec_bet_base_payout_opt(bet, round, n - 1) {
            Option::None => Option::None,
            Option::Some(b) => {
                let p = bet.predictions@[n - 1];
                let term = p.amount_in_pool * round.locked_odds@[p.match_index as int].spec_odds(
                    p.predicted_outcome as int,
                ) / (ODDS_SCALE as int);
                if term > u64::MAX || b + term > u64::MAX {
                    Option::None
                } else {
                    Option::Some(b + term)
                }
            },
        }
    }
}

/// Final payout of a winning bet: the base payout times the locked
/// multiplier, scaled down and capped at `MAX_PAYOUT_PER_BET`.
pub open spec fn spec_final_payout(base: int, multiplier: int) -> int {
    let f = base * multiplier / (ODDS_SCALE as int);
    if f > MAX_PAYOUT_PER_BET {
        MAX_PAYOUT_PER_BET as int
    } else {
        f
    }
}

/// Decide a settled bet and compute its payout.
///
/// A bet with any wrong leg lost: `(false, 0, 0)`. A winning bet pays the
/// sum over its legs of `allocation * locked_odds / ODDS_SCALE`, times
/// the locked multiplier, capped at `MAX_PAYOUT_PER_BET`. Fails with
/// `CalculationOverflow` only when the base payout of a winning bet
/// leaves the `u64` range.
pub fn calculate_bet_payout(bet: &Bet, round: &RoundAccounting) -> (r: Result<
    (bool, u64, u64),
    SportsbookError,
>)
    requires
        bet.wf(),
        round.wf(),
        round.settled,
    ensures
        match r {
            Ok(v) => {
                &&& v.0 == spec_bet_won(*bet, *round)
                &&& (!v.0 ==> v.1 == 0 && v.2 == 0)
                &&& (v.0 ==> Option::Some(v.1 as int) == spec_bet_base_payout_opt(
                    *bet,
                    *round,
                    bet.num_predictions as int,
                ) && v.2 == spec_final_payout(v.1 as int, bet.locked_multiplier as int))
                &&& v.2 <= MAX_PAYOUT_PER_BET
            },
            Err(e) => {
                &&& e == SportsbookError::CalculationOverflow
                &&& spec_bet_won(*bet, *round)
                &&& spec_bet_base_payout_opt(*bet, *round, bet.num_predictions as int) is None
            },
        },
{
    let n = bet.num_predictions as usize;

    // A single wrong leg loses the whole bet.
    let mut i: usize = 0;
    while i < n
        invariant
            n == bet.num_predictions as int,
            bet.wf(),
            round.wf(),
            round.settled,
            i <= n,
            forall|j: int| 0 <= j < i ==> spec_leg_correct(*bet, *round, j),
        decreases n - i,
    {
        let p = bet.predictions[i];
        let match_result = round.match_results[p.match_index as usize];
        let predicted = MatchOutcome::from_u8(p.predicted_outcome);
        if match_result != predicted {
            proof {
                assert(!spec_leg_correct(*bet, *round, i as int));
            }
            return Ok((false, 0, 0));
        }
        i = i + 1;
    }

    // All legs correct: sum the per-leg payouts at the locked odds.
    let mut total_base_payout: u64 = 0;
    let mut i: usize = 0;
    while i < n
        invariant
            n == bet.num_predictions as int,
            bet.wf(),
            round.wf(),
            round.settled,
            spec_bet_won(*bet, *round),
            i <= n,
            Option::Some(total_base_payout as int) == spec_bet_base_payout_opt(
                *bet,
                *round,
                i as int,
            ),
        decreases n - i,
    {
        let p = bet.predictions[i];
        let odds = round.locked_odds[p.match_index as usize].get_odds(p.predicted_outcome);
        proof {
            crate::arith::lemma_u64_mul_fits_u128(p.amount_in_pool as int, odds as int);
        }
        let term_wide: u128 = (p.amount_in_pool as u128) * (odds as u128) / (ODDS_SCALE as u128);
        if term_wide > u64::MAX as u128 {
            proof {
                lemma_bet_base_payout_none_persists(*bet, *round, i + 1, n as int);
            }
            return Err(SportsbookError::CalculationOverflow);
        }
        let term: u64 = term_wide as u64;
        if term > u64::MAX - total_base_payout {
            proof {
                lemma_bet_base_payout_none_persists(*bet, *round, i + 1, n as int);
            }
            return Err(SportsbookError::CalculationOverflow);
        }
        total_base_payout = total_base_payout + term;
        i = i + 1;
    }

    // Locked parlay multiplier, then the per-bet cap.
    proof {
        crate::arith::lemma_u64_mul_fits_u128(
            total_base_payout as int,
            bet.locked_multiplier as int,
        );
    }
    let final_wide: u128 = (total_base_payout as u128) * (bet.locked_multiplier as u128) / (
    ODDS_SCALE as u128);
    let capped: u64 = if final_wide > MAX_PAYOUT_PER_BET as u128 {
        MAX_PAYOUT_PER_BET
    } else {
        final_wide as u64
    };
    Ok((true, total_base_payout, capped))
}

/// Once the base payout of a bet has left the `u64` range, every longer
/// prefix of its legs does too.
proof fn lemma_bet_base_payout_none_persists(bet: Bet, round: RoundAccounting, k: int, n: int)
    requires
        0 <= k <= n,
        spec_bet_base_payout_opt(bet, round, k) is None,
    ensures
        spec_bet_base_payout_opt(bet, round, n) is None,
    decreases n - k,
{
    if k < n {
        lemma_bet_base_payout_none_persists(bet, round, k + 1, n);
    }
}

/// First validation error among the legs from position `i` on: a match
/// index out of range, then an outcome code outside 1..=3.
pub open spec fn spec_leg_scan_error(indices: Seq<u8>, outcomes: Seq<u8>, i: int) -> Option<
    SportsbookError,
>
    decreases indices.len() - i,
{
    if i < 0 || i >= indices.len() {
        Option::None
    } else if indices[i] >= 10 {
        Option::Some(SportsbookError::InvalidMatchIndex)
    } else if !(1 <= outcomes[i] <= 3) {
        Option::Some(SportsbookError::InvalidOutcome)
    } else {
        spec_leg_scan_error(indices, outcomes, i + 1)
    }
}

/// Scanning the legs from the front passes over a valid prefix.
proof fn lemma_leg_scan_skip(indices: Seq<u8>, outcomes: Seq<u8>, i: int)
    requires
        0 <= i <= indices.len(),
        forall|j: int| 0 <= j < i ==> indices[j] < 10,
        forall|j: int| 0 <= j < i ==> 1 <= #[trigger] outcomes[j] <= 3,
    ensures
        spec_leg_scan_error(indices, outcomes, 0) == spec_leg_scan_error(indices, outcomes, i),
    decreases i,
{
    if i > 0 {
        lemma_leg_scan_skip(indices, outcomes, i - 1);
    }
}

/// Validation error of a bet request, in the order the checks run: round
/// state, stake bounds, vector shape, then the legs front to back.
pub open spec fn spec_place_validation_error(
    round: RoundAccounting,
    indices: Seq<u8>,
    outcomes: Seq<u8>,
    amount: int,
) -> Option<SportsbookError> {
    if !round.seeded {
        Option::Some(SportsbookError::RoundNotSeeded)
    } else if round.settled {
        Option::Some(SportsbookError::RoundAlreadySettled)
    } else if amount == 0 {
        Option::Some(SportsbookError::InvalidAmount)
    } else if amount > MAX_BET_AMOUNT {
        Option::Some(SportsbookError::BetExceedsMaximum)
    } else if indices.len() != outcomes.len() {
        Option::Some(SportsbookError::ArrayLengthMismatch)
    } else if indices.len() == 0 || indices.len() > 10 {
        Option::Some(SportsbookError::InvalidBetCount)
    } else {
        spec_leg_scan_error(indices, outcomes, 0)
    }
}

/// Protocol fee of a stake at a basis-point rate.
pub open spec fn spec_protocol_fee(amount: int, fee_bps: int) -> int {
    amount * fee_bps / (BPS_DENOMINATOR as int)
}

/// A match pool with a stake added to one outcome, or `None` when the
/// addition would overflow.
pub open spec fn spec_pool_with_added(p: MatchPool, outcome: int, amount: int) -> Option<
    MatchPool,
> {
    if p.spec_pool_amount(outcome) + amount > u64::MAX || p.total_pool + amount > u64::MAX {
        Option::None
    } else if outcome == 1 {
        Option::Some(
            MatchPool {
                home_win_pool: (p.home_win_pool + amount) as u64,
                total_pool: (p.total_pool + amount) as u64,
                ..p
            },
        )
    } else if outcome == 2 {
        Option::Some(
            MatchPool {
                away_win_pool: (p.away_win_pool + amount) as u64,
                total_pool: (p.total_pool + amount) as u64,
                ..p
            },
        )
    } else if outcome == 3 {
        Option::Some(
            MatchPool {
                draw_pool: (p.draw_pool + amount) as u64,
                total_pool: (p.total_pool + amount) as u64,
                ..p
            },
        )
    } else {
        Option::None
    }
}

/// The ten match pools after the allocations of the first `n` legs have
/// been added, or `None` when an addition would overflow.
pub open spec fn spec_apply_allocations(
    pools: Seq<MatchPool>,
    round: RoundAccounting,
    indices: Seq<u8>,
    outcomes: Seq<u8>,
    per_leg: int,
    n: int,
) -> Option<Seq<MatchPool>>
    decreases n,
{
    if n <= 0 {
        Option::Some(pools)
    } else {
        match spec_apply_allocations(pools, round, indices, outcomes, per_leg, n - 1) {
            Option::None => Option::None,
            Option::Some(ps) => {
                let idx = indices[n - 1] as int;
                let alloc = spec_allocation(per_leg, spec_leg_odds(round, indices, outcomes, n - 1));
                match spec_pool_with_added(ps[idx], outcomes[n - 1] as int, alloc) {
                    Option::None => Option::None,
                    Option::Some(p) => Option::Some(ps.update(idx, p)),
                }
            },
        }
    }
}

/// Once an allocation step has overflowed a pool, every longer prefix of
/// legs does too.
proof fn lemma_apply_allocations_none_persists(
    pools: Seq<MatchPool>,
    round: RoundAccounting,
    indices: Seq<u8>,
    outcomes: Seq<u8>,
    per_leg: int,
    k: int,
    n: int,
)
    requires
        0 <= k <= n,
        spec_apply_allocations(pools, round, indices, outcomes, per_leg, k) is None,
    ensures
        spec_apply_allocations(pools, round, indices, outcomes, per_leg, n) is None,
    decreases n - k,
{
    if k < n {
        lemma_apply_allocations_none_persists(pools, round, indices, outcomes, per_leg, k + 1, n);
    }
}

/// The reason a bet request fails, or `None` when it succeeds: the
/// validation chain, then the solvency gate on the worst-case payout,
/// then the allocation pipeline, the borrow gate, and the overflow checks
/// of the counters and the pools.
pub open spec fn spec_place_bet_error(
    pool: BettingPool,
    round: RoundAccounting,
    lp: LiquidityPool,
    indices: Seq<u8>,
    outcomes: Seq<u8>,
    amount: int,
) -> Option<SportsbookError> {
    match spec_place_validation_error(round, indices, outcomes, amount) {
        Option::Some(e) => Option::Some(e),
        Option::None => {
            let len = indices.len() as int;
            let fee = spec_protocol_fee(amount, pool.protocol_fee_bps as int);
            let after_fee = amount - fee;
            let mult = spec_parlay_multiplier(round, indices, len);
            let maxp = spec_max_payout(after_fee, len, mult);
            if lp.available_liquidity < maxp {
                Option::Some(SportsbookError::InsufficientProtocolLiquidity)
            } else if !spec_legs_locked(round, indices) {
                Option::Some(SportsbookError::OddsNotLocked)
            } else {
                match spec_target_payout_opt(round, indices, outcomes, after_fee, mult) {
                    Option::None => Option::Some(SportsbookError::CalculationOverflow),
                    Option::Some(target) => {
                        let per_leg = target / len;
                        let total = spec_total_allocated(round, indices, outcomes, per_leg, len);
                        let borrowed = if total > after_fee {
                            total - after_fee
                        } else {
                            0
                        };
                        if borrowed > 0 && lp.available_liquidity < borrowed {
                            Option::Some(SportsbookError::InsufficientProtocolLiquidity)
                        } else if round.protocol_fee_collected + fee > u64::MAX
                            || round.total_bet_volume + after_fee > u64::MAX
                            || round.total_user_deposits + after_fee > u64::MAX || (len > 1
                            && round.parlay_count == u64::MAX) || pool.next_bet_id == u64::MAX {
                            Option::Some(SportsbookError::CalculationOverflow)
                        } else if spec_apply_allocations(
                            round.match_pools@,
                            round,
                            indices,
                            outcomes,
                            per_leg,
                            len,
                        ) is None {
                            Option::Some(SportsbookError::CalculationOverflow)
                        } else {
                            Option::None
                        }
                    },
                }
            }
        },
    }
}

/// Place a bet on one or more match outcomes of a seeded round.
///
/// Validates the request, prices the parlay, gates on the liquidity
/// pool's ability to cover the worst-case payout, allocates the stake
/// odds-weighted over the legs, assigns the next bet id, and adds each
/// allocation to its match pool. Returns the stored bet, the protocol
/// fee taken (to be forwarded to the treasury), and the amount borrowed
/// from the liquidity pool. On any failure all three records are
/// unchanged and the error follows `spec_place_bet_error`.
#[verifier::loop_isolation(false)]
#[verifier::rlimit(100)]
pub fn place_bet(
    pool: &mut BettingPool,
    round: &mut RoundAccounting,
    lp: &mut LiquidityPool,
    bettor: u64,
    match_indices: &Vec<u8>,
    outcomes: &Vec<u8>,
    amount: u64,
) -> (r: Result<(Bet, u64, u64), SportsbookError>)
    requires
        old(pool).wf(),
        old(round).wf(),
        old(lp).wf(),
    ensures
        match r {
            Ok(v) => {
                &&& spec_place_bet_error(
                    *old(pool),
                    *old(round),
                    *old(lp),
                    match_indices@,
                    outcomes@,
                    amount as int,
                ) is None
                &&& v.1 == spec_protocol_fee(amount as int, old(pool).protocol_fee_bps as int)
                &&& ({
                    let len = match_indices@.len() as int;
                    let after_fee = amount - v.1;
                    let mult = spec_parlay_multiplier(*old(round), match_indices@, len);
                    let target = spec_target_payout_opt(
                        *old(round),
                        match_indices@,
                        outcomes@,
                        after_fee,
                        mult,
                    )->0;
                    let per_leg = target / len;
                    let total = spec_total_allocated(
                        *old(round),
                        match_indices@,
                        outcomes@,
                        per_leg,
                        len,
                    );
                    &&& v.0.bettor == bettor
                    &&& v.0.round_id == old(round).round_id
                    &&& v.0.bet_id == old(pool).next_bet_id
                    &&& v.0.amount == amount
                    &&& v.0.amount_after_fee == after_fee
                    &&& v.0.allocated_amount == total
                    &&& v.0.bonus == 0
                    &&& v.0.locked_multiplier == mult
                    &&& v.0.num_predictions == len
                    &&& v.0.wf()
                    &&& !v.0.settled
                    &&& !v.0.claimed
                    &&& v.0.claim_deadline == 0
                    &&& v.0.bounty_claimer is None
                    &&& forall|i: int|
                        0 <= i < len ==> (#[trigger] v.0.predictions@[i]).match_index
                            == match_indices@[i] && v.0.predictions@[i].predicted_outcome
                            == outcomes@[i] && v.0.predictions@[i].amount_in_pool
                            == spec_allocation(
                            per_leg,
                            spec_leg_odds(*old(round), match_indices@, outcomes@, i),
                        )
                    &&& v.2 == if total > after_fee {
                        total - after_fee
                    } else {
                        0
                    }
                    &&& Option::Some(final(round).match_pools@) == spec_apply_allocations(
                        old(round).match_pools@,
                        *old(round),
                        match_indices@,
                        outcomes@,
                        per_leg,
                        len,
                    )
                    &&& final(round).protocol_fee_collected == old(round).protocol_fee_collected
                        + v.1
                    &&& final(round).total_bet_volume == old(round).total_bet_volume + after_fee
                    &&& final(round).total_user_deposits == old(round).total_user_deposits
                        + after_fee
                    &&& final(round).parlay_count == old(round).parlay_count + (if len > 1 {
                        1int
                    } else {
                        0int
                    })
                    &&& *final(round) == (RoundAccounting {
                        match_pools: final(round).match_pools,
                        protocol_fee_collected: final(round).protocol_fee_collected,
                        total_bet_volume: final(round).total_bet_volume,
                        total_user_deposits: final(round).total_user_deposits,
                        parlay_count: final(round).parlay_count,
                        ..*old(round)
                    })
                    &&& final(round).wf()
                    &&& final(pool).next_bet_id == old(pool).next_bet_id + 1
                    &&& *final(pool) == (BettingPool {
                        next_bet_id: final(pool).next_bet_id,
                        ..*old(pool)
                    })
                    &&& final(lp).total_liquidity == old(lp).total_liquidity - v.2
                    &&& final(lp).total_shares == old(lp).total_shares
                    &&& final(lp).locked_reserve == old(lp).locked_reserve
                    &&& final(lp).wf()
                })
            },
            Err(e) => {
                &&& *final(pool) == *old(pool)
                &&& *final(round) == *old(round)
                &&& *final(lp) == *old(lp)
                &&& Option::Some(e) == spec_place_bet_error(
                    *old(pool),
                    *old(round),
                    *old(lp),
                    match_indices@,
                    outcomes@,
                    amount as int,
                )
            },
        },
        crate::round::spec_flags_monotone(*old(round), *final(round)),
        final(pool).next_bet_id >= old(pool).next_bet_id,
{
    let ghost round0 = *round;
    let ghost indices = match_indices@;
    let ghost outs = outcomes@;

    if !round.seeded {
        return Err(SportsbookError::RoundNotSeeded);
    }
    if round.settled {
        return Err(SportsbookError::RoundAlreadySettled);
    }
    if amount == 0 {
        return Err(SportsbookError::InvalidAmount);
    }
    if amount > MAX_BET_AMOUNT {
        return Err(SportsbookError::BetExceedsMaximum);
    }
    if match_indices.len() != outcomes.len() {
        return Err(SportsbookError::ArrayLengthMismatch);
    }
    let n = match_indices.len();
    if n == 0 || n > 10 {
        return Err(SportsbookError::InvalidBetCount);
    }

    let mut i: usize = 0;
    while i < n
        invariant
            *round == round0,
            round0 == *old(round),
            *pool == *old(pool),
            *lp == *old(lp),
            indices == match_indices@,
            outs == outcomes@,
            n == indices.len() == outs.len(),
            1 <= n <= 10,
            i <= n,
            round0.seeded,
            !round0.settled,
            0 < amount <= MAX_BET_AMOUNT,
            forall|j: int| 0 <= j < i ==> indices[j] < 10,
            forall|j: int| 0 <= j < i ==> 1 <= #[trigger] outs[j] <= 3,
        decreases n - i,
    {
        if match_indices[i] >= 10 {
            proof {
                lemma_leg_scan_skip(indices, outs, i as int);
            }
            return Err(SportsbookError::InvalidMatchIndex);
        }
        if outcomes[i] < 1 || outcomes[i] > 3 {
            proof {
                lemma_leg_scan_skip(indices, outs, i as int);
            }
            return Err(SportsbookError::InvalidOutcome);
        }
        i = i + 1;
    }
    proof {
        lemma_leg_scan_skip(indices, outs, n as int);
    }

    // Protocol fee; the basis-point bound keeps it at or below the stake.
    proof {
        crate::arith::lemma_u64_mul_fits_u128(amount as int, pool.protocol_fee_bps as int);
        crate::arith::lemma_mul_div_le_factor(
            pool.protocol_fee_bps as int,
            amount as int,
            BPS_DENOMINATOR as int,
        );
        assert((amount as int) * (pool.protocol_fee_bps as int) == (pool.protocol_fee_bps as int)
            * (amount as int)) by (nonlinear_arith);
    }
    let fee_wide: u128 = (amount as u128) * (pool.protocol_fee_bps as u128) / (BPS_DENOMINATOR
        as u128);
    let protocol_fee: u64 = fee_wide as u64;
    let amount_after_fee: u64 = amount - protocol_fee;

    // Lock the parlay price and gate on the worst-case payout.
    let parlay_multiplier = calculate_parlay_multiplier_dynamic(round, match_indices, n as u8);
    let max_possible_payout = calculate_max_payout(amount_after_fee, n as u8, parlay_multiplier);
    if !lp.can_cover_payout(max_possible_payout) {
        return Err(SportsbookError::InsufficientProtocolLiquidity);
    }

    // Odds-weighted allocations of the stake over the legs.
    let (allocations, total_allocated, lp_borrowed) = match calculate_odds_weighted_allocations(
        round,
        match_indices,
        outcomes,
        amount_after_fee,
        parlay_multiplier,
    ) {
        Ok(v) => v,
        Err(e) => {
            return Err(e);
        },
    };
    if lp_borrowed > 0 && !lp.can_cover_payout(lp_borrowed) {
        return Err(SportsbookError::InsufficientProtocolLiquidity);
    }

    // Counter overflow gates, all before any mutation.
    if protocol_fee > u64::MAX - round.protocol_fee_collected {
        return Err(SportsbookError::CalculationOverflow);
    }
    if amount_after_fee > u64::MAX - round.total_bet_volume {
        return Err(SportsbookError::CalculationOverflow);
    }
    if amount_after_fee > u64::MAX - round.total_user_deposits {
        return Err(SportsbookError::CalculationOverflow);
    }
    if n > 1 && round.parlay_count == u64::MAX {
        return Err(SportsbookError::CalculationOverflow);
    }
    if pool.next_bet_id == u64::MAX {
        return Err(SportsbookError::CalculationOverflow);
    }

    let ghost target = spec_target_payout_opt(
        round0,
        indices,
        outs,
        amount_after_fee as int,
        parlay_multiplier as int,
    )->0;
    let ghost per_leg = target / n as int;

    // Grow the match pools on a scratch copy, so a failing step leaves
    // the round untouched.
    let mut new_pools: [MatchPool; 10] = round.match_pools;
    let mut predictions: [Prediction; 10] = [Prediction {
        match_index: 0,
        predicted_outcome: 0,
        amount_in_pool: 0,
    }; 10];
    let mut i: usize = 0;
    while i < n
        invariant
            *round == round0,
            round0 == *old(round),
            *pool == *old(pool),
            *lp == *old(lp),
            round0.wf(),
            indices == match_indices@,
            outs == outcomes@,
            n == indices.len() == outs.len(),
            1 <= n <= 10,
            i <= n,
            forall|j: int| 0 <= j < n ==> indices[j] < 10,
            forall|j: int| 0 <= j < n ==> 1 <= #[trigger] outs[j] <= 3,
            allocations@.len() == n,
            forall|j: int|
                0 <= j < n ==> #[trigger] allocations@[j] == spec_allocation(
                    per_leg,
                    spec_leg_odds(round0, indices, outs, j),
                ),
            Option::Some(new_pools@) == spec_apply_allocations(
                round0.match_pools@,
                round0,
                indices,
                outs,
                per_leg,
                i as int,
            ),
            new_pools@.len() == 10,
            forall|j: int| 0 <= j < 10 ==> (#[trigger] new_pools@[j]).wf(),
            forall|j: int|
                0 <= j < i ==> (#[trigger] predictions@[j]).match_index == indices[j]
                    && predictions@[j].predicted_outcome == outs[j]
                    && predictions@[j].amount_in_pool == spec_allocation(
                    per_leg,
                    spec_leg_odds(round0, indices, outs, j),
                ),
        decreases n - i,
    {
        let match_index = match_indices[i];
        let outcome = outcomes[i];
        let allocation = allocations[i];
        predictions[i] = Prediction {
            match_index,
            predicted_outcome: outcome,
            amount_in_pool: allocation,
        };
        let ghost ps = new_pools@;
        let ghost old_pool = ps[match_index as int];
        let ghost alloc_spec = spec_allocation(
            per_leg,
            spec_leg_odds(round0, indices, outs, i as int),
        );
        let mut p = new_pools[match_index as usize];
        match p.add_to_pool(outcome, allocation) {
            Ok(_) => {},
            Err(_) => {
                proof {
                    assert(spec_pool_with_added(old_pool, outcome as int, alloc_spec) is None);
                    assert(spec_apply_allocations(
                        round0.match_pools@,
                        round0,
                        indices,
                        outs,
                        per_leg,
                        i + 1,
                    ) is None);
                    lemma_apply_allocations_none_persists(
                        round0.match_pools@,
                        round0,
                        indices,
                        outs,
                        per_leg,
                        i + 1,
                        n as int,
                    );
                }
                return Err(SportsbookError::CalculationOverflow);
            },
        }
        proof {
            let expected = spec_pool_with_added(old_pool, outcome as int, alloc_spec)->0;
            assert(1 != outcome as int ==> p.spec_pool_amount(1) == old_pool.spec_pool_amount(1));
            assert(2 != outcome as int ==> p.spec_pool_amount(2) == old_pool.spec_pool_amount(2));
            assert(3 != outcome as int ==> p.spec_pool_amount(3) == old_pool.spec_pool_amount(3));
            assert(p.home_win_pool == expected.home_win_pool && p.away_win_pool
                == expected.away_win_pool && p.draw_pool == expected.draw_pool && p.total_pool
                == expected.total_pool);
            assert(p == expected);
        }
        new_pools[match_index as usize] = p;
        proof {
            assert(new_pools@ =~= ps.update(
                match_index as int,
                spec_pool_with_added(old_pool, outcome as int, alloc_spec)->0,
            ));
        }
        i = i + 1;
    }

    // All gates passed: commit the bet atomically.
    round.protocol_fee_collected = round.protocol_fee_collected + protocol_fee;
    round.total_bet_volume = round.total_bet_volume + amount_after_fee;
    round.total_user_deposits = round.total_user_deposits + amount_after_fee;
    if n > 1 {
        round.parlay_count = round.parlay_count + 1;
    }
    round.match_pools = new_pools;

    let bet_id = pool.next_bet_id;
    pool.next_bet_id = pool.next_bet_id + 1;

    if lp_borrowed > 0 {
        lp.total_liquidity = lp.total_liquidity - lp_borrowed;
        lp.available_liquidity = if lp.total_liquidity >= lp.locked_reserve {
            lp.total_liquidity - lp.locked_reserve
        } else {
            0
        };
    }

    let bet = Bet {
        bettor,
        round_id: round.round_id,
        bet_id,
        amount,
        amount_after_fee,
        allocated_amount: total_allocated,
        bonus: 0,
        locked_multiplier: parlay_multiplier,
        num_predictions: n as u8,
        predictions,
        settled: false,
        claimed: false,
        claim_deadline: 0,
        bounty_claimer: None,
    };
    Ok((bet, protocol_fee, lp_borrowed))
}

/// What a claim pays out and to whom.
#[derive(Clone, Copy, Debug)]
pub struct ClaimOutcome {
    /// Whether the bet won.
    pub won: bool,
    /// Base payout before the multiplier.
    pub base_payout: u64,
    /// Final payout after the multiplier and the per-bet cap.
    pub final_payout: u64,
    /// Share to transfer to the bettor.
    pub bettor_amount: u64,
    /// Share to transfer to the claimer, for a bounty claim.
    pub bounty_amount: u64,
    /// Whether this was a third-party bounty claim.
    pub is_bounty: bool,
}

/// Final payout a claim of this bet yields: the capped payout of a
/// winning bet, zero for a losing one.
pub open spec fn spec_claim_final_payout(bet: Bet, round: RoundAccounting) -> int {
    if spec_bet_won(bet, round) {
        spec_final_payout(
            spec_bet_base_payout_opt(bet, round, bet.num_predictions as int)->0,
            bet.locked_multiplier as int,
        )
    } else {
        0
    }
}

/// The reason a claim fails, or `None` when it succeeds: round and bet
/// state, the exclusive window, payout arithmetic, the slippage bound,
/// the round payout cap, and treasury solvency.
pub open spec fn spec_claim_error(
    round: RoundAccounting,
    bet: Bet,
    claimer: u64,
    min_payout: int,
    now: int,
    treasury_balance: int,
) -> Option<SportsbookError> {
    if !round.settled {
        Option::Some(SportsbookError::RoundNotSettled)
    } else if bet.claimed {
        Option::Some(SportsbookError::BetAlreadyClaimed)
    } else {
        let deadline = round.round_end_time + CLAIM_GRACE_SECONDS;
        if now <= deadline && claimer != bet.bettor {
            Option::Some(SportsbookError::NotBettor)
        } else if spec_bet_won(bet, round) && spec_bet_base_payout_opt(
            bet,
            round,
            bet.num_predictions as int,
        ) is None {
            Option::Some(SportsbookError::CalculationOverflow)
        } else {
            let fin = spec_claim_final_payout(bet, round);
            if fin < min_payout {
                Option::Some(SportsbookError::PayoutBelowMinimum)
            } else if spec_bet_won(bet, round) && fin > 0 {
                if round.total_paid_out + fin > MAX_ROUND_PAYOUTS {
                    Option::Some(SportsbookError::RoundPayoutLimitReached)
                } else if round.total_claimed + fin > u64::MAX {
                    Option::Some(SportsbookError::CalculationOverflow)
                } else if treasury_balance < fin {
                    Option::Some(SportsbookError::InsufficientProtocolLiquidity)
                } else {
                    Option::None
                }
            } else {
                Option::None
            }
        }
    }
}

/// Claim the winnings of a bet in a settled round.
///
/// Within 24 hours of settlement only the bettor may claim and receives
/// the full payout; after the deadline anyone may claim, the claimer
/// keeps a 10% bounty and the bettor receives the rest. A losing bet's
/// claim succeeds with no transfer. Either way the bet is marked claimed
/// and settled, so a second claim fails with `BetAlreadyClaimed`. A
/// winning claim never transfers more than `MAX_PAYOUT_PER_BET` and
/// never pushes the round past `MAX_ROUND_PAYOUTS`; on any failure round
/// and bet are unchanged.
pub fn claim_winnings(
    round: &mut RoundAccounting,
    bet: &mut Bet,
    claimer: u64,
    min_payout: u64,
    now: i64,
    treasury_balance: u64,
) -> (r: Result<ClaimOutcome, SportsbookError>)
    requires
        old(round).wf(),
        old(bet).wf(),
        old(round).round_end_time + CLAIM_GRACE_SECONDS <= i64::MAX,
    ensures
        match r {
            Ok(out) => {
                &&& spec_claim_error(
                    *old(round),
                    *old(bet),
                    claimer,
                    min_payout as int,
                    now as int,
                    treasury_balance as int,
                ) is None
                &&& out.won == spec_bet_won(*old(bet), *old(round))
                &&& out.final_payout == spec_claim_final_payout(*old(bet), *old(round))
                &&& out.final_payout <= MAX_PAYOUT_PER_BET
                &&& out.is_bounty == (now > old(round).round_end_time + CLAIM_GRACE_SECONDS
                    && claimer != old(bet).bettor)
                &&& out.bounty_amount == (if out.won && out.final_payout > 0 && out.is_bounty {
                    out.final_payout as int * (BOUNTY_BPS as int) / (BPS_DENOMINATOR as int)
                } else {
                    0int
                })
                &&& out.bettor_amount == (if out.won && out.final_payout > 0 {
                    out.final_payout - out.bounty_amount
                } else {
                    0int
                })
                &&& out.bounty_amount + out.bettor_amount <= out.final_payout
                &&& final(bet).claimed
                &&& final(bet).settled
                &&& final(bet).claim_deadline == (if old(bet).claim_deadline == 0 {
                    old(round).round_end_time + CLAIM_GRACE_SECONDS
                } else {
                    old(bet).claim_deadline as int
                })
                &&& final(bet).bounty_claimer == (if out.won && out.final_payout > 0
                    && out.is_bounty {
                    Option::Some(claimer)
                } else {
                    old(bet).bounty_claimer
                })
                &&& *final(bet) == (Bet {
                    settled: true,
                    claimed: true,
                    claim_deadline: final(bet).claim_deadline,
                    bounty_claimer: final(bet).bounty_claimer,
                    ..*old(bet)
                })
                &&& final(round).total_paid_out == old(round).total_paid_out + (if out.won
                    && out.final_payout > 0 {
                    out.final_payout as int
                } else {
                    0int
                })
                &&& final(round).total_claimed == old(round).total_claimed + (if out.won
                    && out.final_payout > 0 {
                    out.final_payout as int
                } else {
                    0int
                })
                &&& (out.won && out.final_payout > 0 ==> final(round).total_paid_out
                    <= MAX_ROUND_PAYOUTS)
                &&& *final(round) == (RoundAccounting {
                    total_claimed: final(round).total_claimed,
                    total_paid_out: final(round).total_paid_out,
                    ..*old(round)
                })
                &&& final(round).wf()
            },
            Err(e) => {
                &&& *final(round) == *old(round)
                &&& *final(bet) == *old(bet)
                &&& Option::Some(e) == spec_claim_error(
                    *old(round),
                    *old(bet),
                    claimer,
                    min_payout as int,
                    now as int,
                    treasury_balance as int,
                )
            },
        },
        crate::round::spec_flags_monotone(*old(round), *final(round)),
        final(round).total_paid_out >= old(round).total_paid_out,
        old(round).total_paid_out <= MAX_ROUND_PAYOUTS ==> final(round).total_paid_out
            <= MAX_ROUND_PAYOUTS,
{
    if !round.settled {
        return Err(SportsbookError::RoundNotSettled);
    }
    if bet.claimed {
        return Err(SportsbookError::BetAlreadyClaimed);
    }

    let claim_deadline: i64 = round.round_end_time + CLAIM_GRACE_SECONDS;
    let is_bettor = claimer == bet.bettor;
    let is_bounty_claim = now > claim_deadline && !is_bettor;
    if now <= claim_deadline && !is_bettor {
        return Err(SportsbookError::NotBettor);
    }

    let (won, base_payout, final_payout) = match calculate_bet_payout(bet, round) {
        Ok(v) => v,
        Err(e) => {
            return Err(e);
        },
    };
    if final_payout < min_payout {
        return Err(SportsbookError::PayoutBelowMinimum);
    }

    let mut bettor_amount: u64 = 0;
    let mut bounty_amount: u64 = 0;
    if won && final_payout > 0 {
        if round.total_paid_out > MAX_ROUND_PAYOUTS || final_payout > MAX_ROUND_PAYOUTS
            - round.total_paid_out {
            return Err(SportsbookError::RoundPayoutLimitReached);
        }
        if final_payout > u64::MAX - round.total_claimed {
            return Err(SportsbookError::CalculationOverflow);
        }
        if treasury_balance < final_payout {
            return Err(SportsbookError::InsufficientProtocolLiquidity);
        }
        if is_bounty_claim {
            proof {
                crate::arith::lemma_u64_mul_fits_u128(final_payout as int, BOUNTY_BPS as int);
                crate::arith::lemma_mul_div_le_factor(
                    BOUNTY_BPS as int,
                    final_payout as int,
                    BPS_DENOMINATOR as int,
                );
                assert((final_payout as int) * (BOUNTY_BPS as int) == (BOUNTY_BPS as int) * (
                final_payout as int)) by (nonlinear_arith);
            }
            let bounty_wide: u128 = (final_payout as u128) * (BOUNTY_BPS as u128) / (BPS_DENOMINATOR
                as u128);
            bounty_amount = bounty_wide as u64;
            bet.bounty_claimer = Some(claimer);
        }
        bettor_amount = final_payout - bounty_amount;
        round.total_claimed = round.total_claimed + final_payout;
        round.total_paid_out = round.total_paid_out + final_payout;
    }

    if bet.claim_deadline == 0 {
        bet.claim_deadline = claim_deadline;
    }
    bet.claimed = true;
    bet.settled = true;

    Ok(
        ClaimOutcome {
            won,
            base_payout,
            final_payout,
            bettor_amount,
            bounty_amount,
            is_bounty: is_bounty_claim,
        },
    )
}

} // verus!
