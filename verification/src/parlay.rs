//! Parlay pricer and odds-weighted allocator: base multiplier by leg
//! count, imbalance gate, reserve decay, the max-payout bound, and the
//! allocation of a stake over its legs so each leg contributes the same
//! target payout.

use vstd::prelude::*;

use crate::constants::BPS_DENOMINATOR;
use crate::constants::COUNT_MULT_TIER_1;
use crate::constants::COUNT_MULT_TIER_2;
use crate::constants::COUNT_MULT_TIER_3;
use crate::constants::COUNT_MULT_TIER_4;
use crate::constants::COUNT_MULT_TIER_5;
use crate::constants::COUNT_TIER_1;
use crate::constants::COUNT_TIER_2;
use crate::constants::COUNT_TIER_3;
use crate::constants::COUNT_TIER_4;
use crate::constants::MAX_COMPRESSED_ODDS;
use crate::constants::MAX_PAYOUT_PER_BET;
use crate::constants::MIN_COMPRESSED_ODDS;
use crate::constants::MIN_IMBALANCE_FOR_FULL_BONUS;
use crate::constants::MIN_PARLAY_MULTIPLIER;
use crate::constants::ODDS_SCALE;
use crate::constants::PARLAY_MULTIPLIER_10_MATCHES;
use crate::constants::PARLAY_MULTIPLIER_1_MATCH;
use crate::constants::PARLAY_MULTIPLIER_2_MATCHES;
use crate::constants::PARLAY_MULTIPLIER_3_MATCHES;
use crate::constants::PARLAY_MULTIPLIER_4_MATCHES;
use crate::constants::PARLAY_MULTIPLIER_5_MATCHES;
use crate::constants::PARLAY_MULTIPLIER_6_MATCHES;
use crate::constants::PARLAY_MULTIPLIER_7_MATCHES;
use crate::constants::PARLAY_MULTIPLIER_8_MATCHES;
use crate::constants::PARLAY_MULTIPLIER_9_MATCHES;
use crate::constants::TIER_1_DECAY;
use crate::errors::SportsbookError;
use crate::odds::calculate_pool_imbalance;
use crate::odds::spec_pool_imbalance;
use crate::round::RoundAccounting;

verus! {

/// Base parlay multiplier of a bet by its leg count: 1.00x for a single,
/// stepping up to 1.25x at ten legs; leg counts past ten keep 1.25x.
pub open spec fn spec_base_parlay_multiplier(num_matches: int) -> int {
    if num_matches == 1 {
        PARLAY_MULTIPLIER_1_MATCH as int
    } else if num_matches == 2 {
        PARLAY_MULTIPLIER_2_MATCHES as int
    } else if num_matches == 3 {
        PARLAY_MULTIPLIER_3_MATCHES as int
    } else if num_matches == 4 {
        PARLAY_MULTIPLIER_4_MATCHES as int
    } else if num_matches == 5 {
        PARLAY_MULTIPLIER_5_MATCHES as int
    } else if num_matches == 6 {
        PARLAY_MULTIPLIER_6_MATCHES as int
    } else if num_matches == 7 {
        PARLAY_MULTIPLIER_7_MATCHES as int
    } else if num_matches == 8 {
        PARLAY_MULTIPLIER_8_MATCHES as int
    } else if num_matches == 9 {
        PARLAY_MULTIPLIER_9_MATCHES as int
    } else {
        PARLAY_MULTIPLIER_10_MATCHES as int
    }
}

/// Base parlay multiplier for a leg count.
pub fn get_base_parlay_multiplier(num_matches: u8) -> (r: u64)
    ensures
        r == spec_base_parlay_multiplier(num_matches as int),
{
    match num_matches {
        1 => PARLAY_MULTIPLIER_1_MATCH,
        2 => PARLAY_MULTIPLIER_2_MATCHES,
        3 => PARLAY_MULTIPLIER_3_MATCHES,
        4 => PARLAY_MULTIPLIER_4_MATCHES,
        5 => PARLAY_MULTIPLIER_5_MATCHES,
        6 => PARLAY_MULTIPLIER_6_MATCHES,
        7 => PARLAY_MULTIPLIER_7_MATCHES,
        8 => PARLAY_MULTIPLIER_8_MATCHES,
        9 => PARLAY_MULTIPLIER_9_MATCHES,
        _ => PARLAY_MULTIPLIER_10_MATCHES,
    }
}

/// Count-based multiplier by the parlay's index in its round, highest for
/// the earliest parlays.
pub open spec fn spec_parlay_multiplier_by_count(parlay_index: int) -> int {
    if parlay_index < COUNT_TIER_1 {
        COUNT_MULT_TIER_1 as int
    } else if parlay_index < COUNT_TIER_2 {
        COUNT_MULT_TIER_2 as int
    } else if parlay_index < COUNT_TIER_3 {
        COUNT_MULT_TIER_3 as int
    } else if parlay_index < COUNT_TIER_4 {
        COUNT_MULT_TIER_4 as int
    } else {
        COUNT_MULT_TIER_5 as int
    }
}

/// Count-based parlay multiplier for the parlay at a given index of the
/// round.
pub fn get_parlay_multiplier_by_count(parlay_index: u64) -> (r: u64)
    ensures
        r == spec_parlay_multiplier_by_count(parlay_index as int),
{
    if parlay_index < COUNT_TIER_1 {
        COUNT_MULT_TIER_1
    } else if parlay_index < COUNT_TIER_2 {
        COUNT_MULT_TIER_2
    } else if parlay_index < COUNT_TIER_3 {
        COUNT_MULT_TIER_3
    } else if parlay_index < COUNT_TIER_4 {
        COUNT_MULT_TIER_4
    } else {
        COUNT_MULT_TIER_5
    }
}

/// Reserve-based decay factor: with a unified liquidity pool the pool
/// manages all risk, so the factor is always `TIER_1_DECAY` (no decay).
pub fn get_reserve_decay_factor(_locked_reserve: u64) -> (r: u64)
    ensures
        r == TIER_1_DECAY,
{
    TIER_1_DECAY
}

/// Sum of the pool imbalances of the selected matches.
pub open spec fn spec_total_imbalance(round: RoundAccounting, indices: Seq<u8>) -> int
    decreases indices.len(),
{
    if indices.len() == 0 {
        0
    } else {
        spec_total_imbalance(round, indices.drop_last()) + spec_pool_imbalance(
            round.match_pools@[indices.last() as int],
        )
    }
}

/// The dynamic parlay multiplier: exactly `ODDS_SCALE` for a single;
/// otherwise the base multiplier by leg count, collapsed to
/// `MIN_PARLAY_MULTIPLIER` when the selected pools are too balanced,
/// decayed by the reserve factor, and floored at `MIN_PARLAY_MULTIPLIER`.
pub open spec fn spec_parlay_multiplier(
    round: RoundAccounting,
    indices: Seq<u8>,
    num_legs: int,
) -> int {
    if num_legs == 1 {
        ODDS_SCALE as int
    } else {
        let base = spec_base_parlay_multiplier(num_legs);
        let avg = spec_total_imbalance(round, indices) / indices.len() as int;
        if avg < MIN_IMBALANCE_FOR_FULL_BONUS {
            MIN_PARLAY_MULTIPLIER as int
        } else {
            let decayed = base * (TIER_1_DECAY as int) / (BPS_DENOMINATOR as int);
            if decayed < MIN_PARLAY_MULTIPLIER {
                MIN_PARLAY_MULTIPLIER as int
            } else {
                decayed
            }
        }
    }
}

/// Price a parlay from the state of its round.
///
/// A single bet always prices at exactly `ODDS_SCALE`; any multi-leg bet
/// prices at `MIN_PARLAY_MULTIPLIER` or above.
pub fn calculate_parlay_multiplier_dynamic(
    round_accounting: &RoundAccounting,
    match_indices: &Vec<u8>,
    num_legs: u8,
) -> (r: u64)
    requires
        round_accounting.wf(),
        num_legs == match_indices@.len(),
        1 <= match_indices@.len() <= 10,
        forall|i: int| 0 <= i < match_indices@.len() ==> match_indices@[i] < 10,
    ensures
        r == spec_parlay_multiplier(*round_accounting, match_indices@, num_legs as int),
        num_legs == 1 ==> r == ODDS_SCALE,
        num_legs >= 2 ==> r >= MIN_PARLAY_MULTIPLIER,
{
    if num_legs == 1 {
        return ODDS_SCALE;
    }
    let base_multiplier = get_base_parlay_multiplier(num_legs);

    let mut total_imbalance: u64 = 0;
    let n = match_indices.len();
    let mut i: usize = 0;
    while i < n
        invariant
            round_accounting.wf(),
            n == match_indices@.len() <= 10,
            i <= n,
            forall|j: int| 0 <= j < match_indices@.len() ==> match_indices@[j] < 10,
            total_imbalance == spec_total_imbalance(
                *round_accounting,
                match_indices@.subrange(0, i as int),
            ),
            total_imbalance <= i * (BPS_DENOMINATOR as int),
        decreases n - i,
    {
        let match_index = match_indices[i];
        let imbalance = calculate_pool_imbalance(&round_accounting.match_pools[match_index as usize]);
        proof {
            let pre = match_indices@.subrange(0, i as int);
            let post = match_indices@.subrange(0, i + 1 as int);
            assert(post.drop_last() =~= pre);
            assert(post.last() == match_indices@[i as int]);
        }
        total_imbalance = total_imbalance + imbalance;
        i = i + 1;
    }
    proof {
        assert(match_indices@.subrange(0, n as int) =~= match_indices@);
    }
    let avg_imbalance = total_imbalance / (n as u64);

    if avg_imbalance < MIN_IMBALANCE_FOR_FULL_BONUS {
        return MIN_PARLAY_MULTIPLIER;
    }
    let decay_factor = get_reserve_decay_factor(0);
    let final_wide: u128 = (base_multiplier as u128) * (decay_factor as u128) / (BPS_DENOMINATOR
        as u128);
    assert((base_multiplier as int) * (TIER_1_DECAY as int) / (BPS_DENOMINATOR as int)
        <= base_multiplier as int) by (nonlinear_arith)
        requires
            TIER_1_DECAY == 10000u64,
            BPS_DENOMINATOR == 10000u64,
            base_multiplier >= 0,
    ;
    let final_multiplier: u64 = final_wide as u64;
    if final_multiplier < MIN_PARLAY_MULTIPLIER {
        MIN_PARLAY_MULTIPLIER
    } else {
        final_multiplier
    }
}

/// Saturating power of two: doubles `n` times, sticking at `u64::MAX`.
pub open spec fn spec_sat_pow2(n: nat) -> int
    decreases n,
{
    if n == 0 {
        1
    } else {
        let p = 2 * spec_sat_pow2((n - 1) as nat);
        if p > u64::MAX {
            u64::MAX as int
        } else {
            p
        }
    }
}

/// A saturating product, stuck at `u64::MAX`.
pub open spec fn spec_sat_mul(a: int, b: int) -> int {
    if a * b > u64::MAX {
        u64::MAX as int
    } else {
        a * b
    }
}

/// Worst-case payout bound of a bet: stake times 2 to the leg count,
/// times the multiplier, capped at `MAX_PAYOUT_PER_BET`; all products
/// saturate.
pub open spec fn spec_max_payout(amount: int, num_matches: int, multiplier: int) -> int {
    let base = spec_sat_mul(amount, spec_sat_pow2(num_matches as nat));
    let final_payout = base * multiplier / (ODDS_SCALE as int);
    if final_payout > MAX_PAYOUT_PER_BET {
        MAX_PAYOUT_PER_BET as int
    } else {
        final_payout
    }
}

/// Bound the payout a bet could ever require, for the solvency gate.
///
/// Pessimistic: assumes 2x odds on every leg, then applies the locked
/// multiplier and the per-bet cap.
pub fn calculate_max_payout(amount: u64, num_matches: u8, parlay_multiplier: u64) -> (r: u64)
    ensures
        r == spec_max_payout(amount as int, num_matches as int, parlay_multiplier as int),
        r <= MAX_PAYOUT_PER_BET,
{
    let mut pow: u64 = 1;
    let mut i: u8 = 0;
    while i < num_matches
        invariant
            i <= num_matches,
            pow == spec_sat_pow2(i as nat),
            1 <= pow <= u64::MAX,
        decreases num_matches - i,
    {
        if pow > u64::MAX / 2 {
            pow = u64::MAX;
        } else {
            pow = 2 * pow;
        }
        i = i + 1;
    }
    let max_base_payout: u64 = if amount > 0 && pow > u64::MAX / amount {
        assert(amount * pow > u64::MAX) by (nonlinear_arith)
            requires
                amount > 0,
                pow > u64::MAX as int / amount as int,
        ;
        u64::MAX
    } else {
        assert(amount * pow <= u64::MAX) by (nonlinear_arith)
            requires
                amount == 0 || pow <= u64::MAX as int / amount as int,
                amount >= 0,
                pow >= 1,
        ;
        amount * pow
    };
    proof {
        crate::arith::lemma_u64_mul_fits_u128(max_base_payout as int, parlay_multiplier as int);
    }
    let final_wide: u128 = (max_base_payout as u128) * (parlay_multiplier as u128) / (ODDS_SCALE
        as u128);
    if final_wide > MAX_PAYOUT_PER_BET as u128 {
        MAX_PAYOUT_PER_BET
    } else {
        final_wide as u64
    }
}

/// Locked odds of leg `i` of a bet: the odds the selected match pays for
/// the predicted outcome.
pub open spec fn spec_leg_odds(
    round: RoundAccounting,
    indices: Seq<u8>,
    outcomes: Seq<u8>,
    i: int,
) -> int {
    round.locked_odds@[indices[i] as int].spec_odds(outcomes[i] as int)
}

/// All selected matches have locked odds.
pub open spec fn spec_legs_locked(round: RoundAccounting, indices: Seq<u8>) -> bool {
    forall|i: int|
        0 <= i < indices.len() ==> (#[trigger] round.locked_odds@[indices[i] as int]).locked
}

/// Running product of the first `n` leg odds over the stake, each step
/// scaled back by `ODDS_SCALE`; `None` once a step leaves the `u64` range.
pub open spec fn spec_base_payout_opt(
    round: RoundAccounting,
    indices: Seq<u8>,
    outcomes: Seq<u8>,
    amount: int,
    n: int,
) -> Option<int>
    decreases n,
{
    if n <= 0 {
        Option::Some(amount)
    } else {
        match spec_base_payout_opt(round, indices, outcomes, amount, n - 1) {
            Option::None => Option::None,
            Option::Some(b) => {
                let v = b * spec_leg_odds(round, indices, outcomes, n - 1) / (ODDS_SCALE as int);
                if v > u64::MAX {
                    Option::None
                } else {
                    Option::Some(v)
                }
            },
        }
    }
}

/// Target payout of a bet: the base payout of all its legs times the
/// parlay multiplier; `None` once a step leaves the `u64` range.
pub open spec fn spec_target_payout_opt(
    round: RoundAccounting,
    indices: Seq<u8>,
    outcomes: Seq<u8>,
    amount: int,
    multiplier: int,
) -> Option<int> {
    match spec_base_payout_opt(round, indices, outcomes, amount, indices.len() as int) {
        Option::None => Option::None,
        Option::Some(b) => {
            let t = b * multiplier / (ODDS_SCALE as int);
            if t > u64::MAX {
                Option::None
            } else {
                Option::Some(t)
            }
        },
    }
}

/// Stake allocated to one leg so that the leg contributes `per_leg` to the
/// payout: `per_leg * ODDS_SCALE / odds`, truncated.
pub open spec fn spec_allocation(per_leg: int, odds: int) -> int {
    per_leg * (ODDS_SCALE as int) / odds
}

/// Sum of the allocations of the first `n` legs.
pub open spec fn spec_total_allocated(
    round: RoundAccounting,
    indices: Seq<u8>,
    outcomes: Seq<u8>,
    per_leg: int,
    n: int,
) -> int
    decreases n,
{
    if n <= 0 {
        0
    } else {
        spec_total_allocated(round, indices, outcomes, per_leg, n - 1) + spec_allocation(
            per_leg,
            spec_leg_odds(round, indices, outcomes, n - 1),
        )
    }
}

/// Once a payout step has left the `u64` range, every longer prefix of
/// legs does too.
proof fn lemma_base_payout_none_persists(
    round: RoundAccounting,
    indices: Seq<u8>,
    outcomes: Seq<u8>,
    amount: int,
    k: int,
    n: int,
)
    requires
        0 <= k <= n,
        spec_base_payout_opt(round, indices, outcomes, amount, k) is None,
    ensures
        spec_base_payout_opt(round, indices, outcomes, amount, n) is None,
    decreases n - k,
{
    if k < n {
        lemma_base_payout_none_persists(round, indices, outcomes, amount, k + 1, n);
    }
}

/// Allocate a stake over the legs of a bet, odds-weighted.
///
/// Each leg receives `per_leg * ODDS_SCALE / odds`, where `per_leg` is the
/// target payout divided evenly over the legs, so every winning leg
/// contributes the same amount to the payout. Returns the allocations,
/// their total, and how much of the total exceeds the stake (to be
/// borrowed from the liquidity pool). Fails with `OddsNotLocked` when a
/// selected match has no locked odds, and with `CalculationOverflow` when
/// a payout step leaves the `u64` range.
pub fn calculate_odds_weighted_allocations(
    round_accounting: &RoundAccounting,
    match_indices: &Vec<u8>,
    outcomes: &Vec<u8>,
    amount_after_fee: u64,
    parlay_multiplier: u64,
) -> (r: Result<(Vec<u64>, u64, u64), SportsbookError>)
    requires
        round_accounting.wf(),
        match_indices@.len() == outcomes@.len(),
        1 <= match_indices@.len() <= 10,
        forall|i: int| 0 <= i < match_indices@.len() ==> match_indices@[i] < 10,
        forall|i: int| 0 <= i < outcomes@.len() ==> 1 <= #[trigger] outcomes@[i] <= 3,
    ensures
        match r {
            Ok(v) => {
                &&& spec_legs_locked(*round_accounting, match_indices@)
                &&& spec_target_payout_opt(
                    *round_accounting,
                    match_indices@,
                    outcomes@,
                    amount_after_fee as int,
                    parlay_multiplier as int,
                ) is Some
                &&& v.0@.len() == match_indices@.len()
                &&& ({
                    let per_leg = spec_target_payout_opt(
                        *round_accounting,
                        match_indices@,
                        outcomes@,
                        amount_after_fee as int,
                        parlay_multiplier as int,
                    )->0 / match_indices@.len() as int;
                    &&& forall|i: int|
                        0 <= i < match_indices@.len() ==> #[trigger] v.0@[i] == spec_allocation(
                            per_leg,
                            spec_leg_odds(*round_accounting, match_indices@, outcomes@, i),
                        )
                    &&& v.1 == spec_total_allocated(
                        *round_accounting,
                        match_indices@,
                        outcomes@,
                        per_leg,
                        match_indices@.len() as int,
                    )
                    &&& v.2 == if v.1 > amount_after_fee {
                        v.1 - amount_after_fee
                    } else {
                        0
                    }
                })
            },
            Err(e) => {
                &&& (e == SportsbookError::OddsNotLocked <==> !spec_legs_locked(
                    *round_accounting,
                    match_indices@,
                ))
                &&& (e == SportsbookError::CalculationOverflow <==> spec_legs_locked(
                    *round_accounting,
                    match_indices@,
                ) && spec_target_payout_opt(
                    *round_accounting,
                    match_indices@,
                    outcomes@,
                    amount_after_fee as int,
                    parlay_multiplier as int,
                ) is None)
                &&& (e == SportsbookError::OddsNotLocked || e
                    == SportsbookError::CalculationOverflow)
            },
        },
{
    let ghost round = *round_accounting;
    let ghost indices = match_indices@;
    let ghost outs = outcomes@;
    let n = match_indices.len();

    // Every selected match must have its odds locked.
    let mut i: usize = 0;
    while i < n
        invariant
            n == indices.len(),
            i <= n,
            round == *round_accounting,
            indices == match_indices@,
            forall|j: int| 0 <= j < indices.len() ==> indices[j] < 10,
            forall|j: int|
                0 <= j < i ==> (#[trigger] round.locked_odds@[indices[j] as int]).locked,
        decreases n - i,
    {
        if !round_accounting.locked_odds[match_indices[i] as usize].locked {
            return Err(SportsbookError::OddsNotLocked);
        }
        i = i + 1;
    }
    assert(spec_legs_locked(round, indices));

    // Base payout: the stake run through the product of the leg odds.
    let mut base_payout: u64 = amount_after_fee;
    let mut i: usize = 0;
    while i < n
        invariant
            n == indices.len() == outs.len() <= 10,
            i <= n,
            round == *round_accounting,
            indices == match_indices@,
            outs == outcomes@,
            round.wf(),
            spec_legs_locked(round, indices),
            forall|j: int| 0 <= j < indices.len() ==> indices[j] < 10,
            forall|j: int| 0 <= j < outs.len() ==> 1 <= #[trigger] outs[j] <= 3,
            Option::Some(base_payout as int) == spec_base_payout_opt(
                round,
                indices,
                outs,
                amount_after_fee as int,
                i as int,
            ),
        decreases n - i,
    {
        let odds = &round_accounting.locked_odds[match_indices[i] as usize];
        let match_odds = odds.get_odds(outcomes[i]);
        proof {
            crate::arith::lemma_u64_mul_fits_u128(base_payout as int, match_odds as int);
        }
        let wide: u128 = (base_payout as u128) * (match_odds as u128) / (ODDS_SCALE as u128);
        if wide > u64::MAX as u128 {
            proof {
                assert(spec_base_payout_opt(
                    round,
                    indices,
                    outs,
                    amount_after_fee as int,
                    i + 1,
                ) is None);
                lemma_base_payout_none_persists(
                    round,
                    indices,
                    outs,
                    amount_after_fee as int,
                    i + 1,
                    indices.len() as int,
                );
            }
            return Err(SportsbookError::CalculationOverflow);
        }
        base_payout = wide as u64;
        i = i + 1;
    }

    // Target payout: apply the locked parlay multiplier.
    proof {
        crate::arith::lemma_u64_mul_fits_u128(base_payout as int, parlay_multiplier as int);
    }
    let target_wide: u128 = (base_payout as u128) * (parlay_multiplier as u128) / (ODDS_SCALE
        as u128);
    if target_wide > u64::MAX as u128 {
        return Err(SportsbookError::CalculationOverflow);
    }
    let target_payout: u64 = target_wide as u64;
    assert(spec_target_payout_opt(
        round,
        indices,
        outs,
        amount_after_fee as int,
        parlay_multiplier as int,
    ) == Option::Some(target_payout as int));

    // Equal contribution per leg, then each allocation works backwards
    // through that leg's odds.
    let per_leg: u64 = target_payout / (n as u64);
    proof {
        crate::arith::lemma_div_mul_le(target_payout as int, n as int);
    }
    let mut allocations: Vec<u64> = Vec::new();
    let mut total_allocated: u64 = 0;
    let mut i: usize = 0;
    while i < n
        invariant
            n == indices.len() == outs.len() <= 10,
            i <= n,
            round == *round_accounting,
            indices == match_indices@,
            outs == outcomes@,
            round.wf(),
            spec_legs_locked(round, indices),
            forall|j: int| 0 <= j < indices.len() ==> indices[j] < 10,
            forall|j: int| 0 <= j < outs.len() ==> 1 <= #[trigger] outs[j] <= 3,
            n as int * per_leg as int <= u64::MAX,
            allocations@.len() == i,
            forall|j: int|
                0 <= j < i ==> #[trigger] allocations@[j] == spec_allocation(
                    per_leg as int,
                    spec_leg_odds(round, indices, outs, j),
                ),
            total_allocated == spec_total_allocated(round, indices, outs, per_leg as int, i as int),
            total_allocated <= i as int * per_leg as int,
        decreases n - i,
    {
        let odds = &round_accounting.locked_odds[match_indices[i] as usize];
        let match_odds = odds.get_odds(outcomes[i]);
        assert(match_odds >= MIN_COMPRESSED_ODDS);
        proof {
            crate::arith::lemma_u64_mul_fits_u128(per_leg as int, ODDS_SCALE as int);
            crate::arith::lemma_mul_div_le_factor(
                ODDS_SCALE as int,
                per_leg as int,
                match_odds as int,
            );
            assert(per_leg as int * ODDS_SCALE as int == ODDS_SCALE as int * per_leg as int)
                by (nonlinear_arith);
        }
        let allocation_wide: u128 = (per_leg as u128) * (ODDS_SCALE as u128) / (match_odds as u128);
        let allocation: u64 = allocation_wide as u64;
        allocations.push(allocation);
        proof {
            assert((i as int + 1) * per_leg as int == i as int * per_leg as int + per_leg as int)
                by (nonlinear_arith);
            crate::arith::lemma_mul_mono(i as int + 1, per_leg as int, n as int, per_leg as int);
        }
        total_allocated = total_allocated + allocation;
        i = i + 1;
    }

    let lp_borrowed: u64 = if total_allocated > amount_after_fee {
        total_allocated - amount_after_fee
    } else {
        0
    };
    Ok((allocations, total_allocated, lp_borrowed))
}

/// Payout reconstructed from the allocations of the first `n` legs of a
/// bet: the sum of `alloc_i * odds_i / ODDS_SCALE` over those legs.
pub open spec fn spec_payout_from_allocations(
    round: RoundAccounting,
    indices: Seq<u8>,
    outcomes: Seq<u8>,
    per_leg: int,
    n: int,
) -> int
    decreases n,
{
    if n <= 0 {
        0
    } else {
        let odds = spec_leg_odds(round, indices, outcomes, n - 1);
        spec_payout_from_allocations(round, indices, outcomes, per_leg, n - 1) + spec_allocation(
            per_leg,
            odds,
        ) * odds / (ODDS_SCALE as int)
    }
}

/// One leg pays back nearly its per-leg share: the payout recovered from
/// an allocation never exceeds the share and falls short by at most three
/// base units.
proof fn lemma_leg_contribution_bounds(p: int, o: int)
    requires
        0 <= p,
        MIN_COMPRESSED_ODDS <= o <= MAX_COMPRESSED_ODDS,
    ensures
        p - 3 <= spec_allocation(p, o) * o / (ODDS_SCALE as int) <= p,
{
    let s = ODDS_SCALE as int;
    let a = spec_allocation(p, o);
    vstd::arithmetic::div_mod::lemma_fundamental_div_mod(p * s, o);
    vstd::arithmetic::div_mod::lemma_mod_bound(p * s, o);
    let r1 = (p * s) % o;
    assert(a * o == p * s - r1) by (nonlinear_arith)
        requires
            p * s == o * a + r1,
    ;
    vstd::arithmetic::div_mod::lemma_fundamental_div_mod(a * o, s);
    vstd::arithmetic::div_mod::lemma_mod_bound(a * o, s);
    let r2 = (a * o) % s;
    let c = a * o / s;
    assert(s * c == p * s - r1 - r2);
    assert(p * s == s * p) by (nonlinear_arith);
    assert(s * c >= s * (p - 3) ==> c >= p - 3) by (nonlinear_arith)
        requires
            s > 0,
    ;
    assert(s * c <= s * p ==> c <= p) by (nonlinear_arith)
        requires
            s > 0,
    ;
    assert(s * (p - 3) == s * p - 3 * s) by (nonlinear_arith);
}

/// Allocation consistency over the legs of a bet.
///
/// For any round with locked in-band odds and any per-leg share, the
/// payout reconstructed from the odds-weighted allocations of `n` legs
/// never exceeds `n` times the share and falls short of it by at most
/// three base units per leg; rounding always favours the protocol.
pub proof fn lemma_allocation_consistency(
    round: RoundAccounting,
    indices: Seq<u8>,
    outcomes: Seq<u8>,
    per_leg: int,
    n: int,
)
    requires
        round.wf(),
        spec_legs_locked(round, indices),
        indices.len() == outcomes.len(),
        0 <= n <= indices.len(),
        forall|i: int| 0 <= i < indices.len() ==> indices[i] < 10,
        forall|i: int| 0 <= i < outcomes.len() ==> 1 <= #[trigger] outcomes[i] <= 3,
        0 <= per_leg,
    ensures
        n * per_leg - 3 * n <= spec_payout_from_allocations(round, indices, outcomes, per_leg, n)
            <= n * per_leg,
    decreases n,
{
    if n > 0 {
        lemma_allocation_consistency(round, indices, outcomes, per_leg, n - 1);
        let o = spec_leg_odds(round, indices, outcomes, n - 1);
        assert(round.locked_odds@[indices[n - 1] as int].locked);
        assert(MIN_COMPRESSED_ODDS <= o <= MAX_COMPRESSED_ODDS);
        lemma_leg_contribution_bounds(per_leg, o);
        assert(n * per_leg == (n - 1) * per_leg + per_leg) by (nonlinear_arith);
        assert(3 * n == 3 * (n - 1) + 3);
    }
}

/// Allocation consistency against the target payout of a bet.
///
/// Dividing a target payout evenly over `n` legs and allocating each leg
/// odds-weighted reconstructs the target up to rounding: the recovered
/// payout never exceeds the target and falls short of it by fewer than
/// four base units per leg.
pub proof fn lemma_allocation_consistency_target(
    round: RoundAccounting,
    indices: Seq<u8>,
    outcomes: Seq<u8>,
    target: int,
)
    requires
        round.wf(),
        spec_legs_locked(round, indices),
        indices.len() == outcomes.len(),
        1 <= indices.len(),
        forall|i: int| 0 <= i < indices.len() ==> indices[i] < 10,
        forall|i: int| 0 <= i < outcomes.len() ==> 1 <= #[trigger] outcomes[i] <= 3,
        0 <= target,
    ensures
        ({
            let n = indices.len() as int;
            let recovered = spec_payout_from_allocations(round, indices, outcomes, target / n, n);
            target - 4 * n < recovered <= target
        }),
{
    let n = indices.len() as int;
    lemma_allocation_consistency(round, indices, outcomes, target / n, n);
    vstd::arithmetic::div_mod::lemma_fundamental_div_mod(target, n);
    vstd::arithmetic::div_mod::lemma_mod_bound(target, n);
    assert(n * (target / n) > target - n);
}

} // verus!
