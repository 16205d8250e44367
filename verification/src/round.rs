//! Round state: ten match pools, ten locked odds, ten outcomes and the
//! aggregate counters, driven Init -> Seeded -> Settled -> Finalised.

use vstd::prelude::*;

use crate::betting_pool::BettingPool;
use crate::constants::BPS_DENOMINATOR;
use crate::constants::CLAIM_GRACE_SECONDS;
use crate::constants::FINALIZE_BUFFER_SECONDS;
use crate::constants::MAX_COMPRESSED_ODDS;
use crate::constants::MIN_COMPRESSED_ODDS;
use crate::constants::ODDS_SCALE;
use crate::constants::SEED_PER_MATCH;
use crate::errors::SportsbookError;
use crate::liquidity::spec_available;
use crate::liquidity::LiquidityPool;
use crate::match_pool::LockedOdds;
use crate::match_pool::MatchOutcome;
use crate::match_pool::MatchPool;
use crate::odds::calculate_locked_odds_from_seeds;
use crate::odds::spec_locked_odds_from_seeds;
use crate::seeding::calculate_pseudo_random_seeds;
use crate::seeding::spec_pseudo_random_seeds;

verus! {

/// Accounting record of a single betting round of ten matches.
#[derive(Clone, Copy, Debug)]
pub struct RoundAccounting {
    /// Round id, strictly sequential across rounds.
    pub round_id: u64,
    /// Stake pools of the ten matches.
    pub match_pools: [MatchPool; 10],
    /// Odds of the ten matches, fixed at seeding time.
    pub locked_odds: [LockedOdds; 10],
    /// Outcomes of the ten matches, pending until settlement.
    pub match_results: [MatchOutcome; 10],
    /// Total bet volume of the round, seeds included.
    pub total_bet_volume: u64,
    /// Total of the pools that won at settlement.
    pub total_winning_pool: u64,
    /// Total of the pools that lost at settlement.
    pub total_losing_pool: u64,
    /// Total owed to winners, computed once at settlement.
    pub total_reserved_for_winners: u64,
    /// Total claimed so far.
    pub total_claimed: u64,
    /// Total paid out so far.
    pub total_paid_out: u64,
    /// Protocol fees collected from bets of this round.
    pub protocol_fee_collected: u64,
    /// Protocol revenue share booked at finalisation.
    pub protocol_revenue_share: u64,
    /// Season pool share booked at finalisation.
    pub season_revenue_share: u64,
    /// Whether revenue of this round has been distributed.
    pub revenue_distributed: bool,
    /// Amount the protocol seeded into the pools.
    pub protocol_seed_amount: u64,
    /// Whether the round has been seeded and its odds locked.
    pub seeded: bool,
    /// User deposits after fees, for the season-share carve-out.
    pub total_user_deposits: u64,
    /// Number of parlays placed in this round.
    pub parlay_count: u64,
    /// Timestamp the round was created.
    pub round_start_time: i64,
    /// Timestamp the round was settled; zero before settlement.
    pub round_end_time: i64,
    /// Whether the round has been settled.
    pub settled: bool,
}

impl RoundAccounting {
    /// Well-formedness of a round: every pool keeps its sum invariant,
    /// locked odds stay in the compressed band, a seeded round has all
    /// odds locked, and a settled round was seeded and has a definite
    /// outcome for every match.
    pub open spec fn wf(self) -> bool {
        &&& forall|i: int| 0 <= i < 10 ==> (#[trigger] self.match_pools@[i]).wf()
        &&& forall|i: int|
            0 <= i < 10 ==> ((#[trigger] self.locked_odds@[i]).locked ==> (MIN_COMPRESSED_ODDS
                <= self.locked_odds@[i].home_odds <= MAX_COMPRESSED_ODDS && MIN_COMPRESSED_ODDS
                <= self.locked_odds@[i].away_odds <= MAX_COMPRESSED_ODDS && MIN_COMPRESSED_ODDS
                <= self.locked_odds@[i].draw_odds <= MAX_COMPRESSED_ODDS))
        &&& self.seeded ==> forall|i: int| 0 <= i < 10 ==> (#[trigger] self.locked_odds@[i]).locked
        &&& self.settled ==> self.seeded
        &&& self.settled ==> forall|i: int|
            0 <= i < 10 ==> (#[trigger] self.match_results@[i]) != MatchOutcome::Pending
    }

    /// A fresh round in its initial state.
    pub fn new(round_id: u64, now: i64) -> (r: RoundAccounting)
        ensures
            r.wf(),
            r.round_id == round_id,
            r.round_start_time == now,
            !r.seeded,
            !r.settled,
            !r.revenue_distributed,
            r.total_bet_volume == 0,
            r.total_winning_pool == 0,
            r.total_losing_pool == 0,
            r.total_reserved_for_winners == 0,
            r.total_claimed == 0,
            r.total_paid_out == 0,
            r.protocol_fee_collected == 0,
            r.protocol_revenue_share == 0,
            r.season_revenue_share == 0,
            r.protocol_seed_amount == 0,
            r.total_user_deposits == 0,
            r.parlay_count == 0,
            r.round_end_time == 0,
            forall|i: int|
                0 <= i < 10 ==> (#[trigger] r.match_pools@[i]) == (MatchPool {
                    home_win_pool: 0,
                    away_win_pool: 0,
                    draw_pool: 0,
                    total_pool: 0,
                }),
            forall|i: int|
                0 <= i < 10 ==> (#[trigger] r.locked_odds@[i]) == (LockedOdds {
                    home_odds: 0,
                    away_odds: 0,
                    draw_odds: 0,
                    locked: false,
                }),
            forall|i: int| 0 <= i < 10 ==> (#[trigger] r.match_results@[i]) == MatchOutcome::Pending,
    {
        RoundAccounting {
            round_id,
            match_pools: [MatchPool::new(); 10],
            locked_odds: [LockedOdds::new(); 10],
            match_results: [MatchOutcome::Pending; 10],
            total_bet_volume: 0,
            total_winning_pool: 0,
            total_losing_pool: 0,
            total_reserved_for_winners: 0,
            total_claimed: 0,
            total_paid_out: 0,
            protocol_fee_collected: 0,
            protocol_revenue_share: 0,
            season_revenue_share: 0,
            revenue_distributed: false,
            protocol_seed_amount: 0,
            seeded: false,
            total_user_deposits: 0,
            parlay_count: 0,
            round_start_time: now,
            round_end_time: 0,
            settled: false,
        }
    }
}

/// State monotonicity of a round: no transition clears `seeded`,
/// `settled` or `revenue_distributed`.
pub open spec fn spec_flags_monotone(before: RoundAccounting, after: RoundAccounting) -> bool {
    &&& (before.seeded ==> after.seeded)
    &&& (before.settled ==> after.settled)
    &&& (before.revenue_distributed ==> after.revenue_distributed)
}

/// Create the next round, in its initial state, and advance the round
/// counter.
///
/// Rejects any id but the next sequential one, so round ids strictly
/// increase and are never reused.
pub fn initialize_round(pool: &mut BettingPool, round_id: u64, now: i64) -> (r: Result<
    RoundAccounting,
    SportsbookError,
>)
    ensures
        match r {
            Ok(round) => {
                &&& round_id == old(pool).next_round_id
                &&& final(pool).next_round_id == old(pool).next_round_id + 1
                &&& *final(pool) == (BettingPool {
                    next_round_id: final(pool).next_round_id,
                    ..*old(pool)
                })
                &&& round.wf()
                &&& round.round_id == round_id
                &&& round.round_start_time == now
                &&& !round.seeded
                &&& !round.settled
                &&& !round.revenue_distributed
                &&& round.total_paid_out == 0
                &&& round.parlay_count == 0
            },
            Err(e) => {
                &&& *final(pool) == *old(pool)
                &&& (e == SportsbookError::InvalidRoundId <==> round_id != old(pool).next_round_id)
                &&& (e == SportsbookError::CalculationOverflow <==> round_id == old(
                    pool,
                ).next_round_id && old(pool).next_round_id == u64::MAX)
                &&& (e == SportsbookError::InvalidRoundId || e
                    == SportsbookError::CalculationOverflow)
            },
        },
        final(pool).next_round_id >= old(pool).next_round_id,
{
    if round_id != pool.next_round_id {
        return Err(SportsbookError::InvalidRoundId);
    }
    if pool.next_round_id == u64::MAX {
        return Err(SportsbookError::CalculationOverflow);
    }
    pool.next_round_id = pool.next_round_id + 1;
    Ok(RoundAccounting::new(round_id, now))
}

/// Seeds of match `i` of a round: the pseudo-random split for the pair of
/// team ids `(2i, 2i+1)`.
pub open spec fn spec_match_seeds(round_id: u64, i: int) -> (int, int, int) {
    spec_pseudo_random_seeds((2 * i) as u64, (2 * i + 1) as u64, round_id)
}

/// Total seed of match `i` of a round.
pub open spec fn spec_match_seed_total(round_id: u64, i: int) -> int {
    let s = spec_match_seeds(round_id, i);
    s.0 + s.1 + s.2
}

/// Total protocol seed of the first `n` matches of a round.
pub open spec fn spec_round_seed_total(round_id: u64, n: int) -> int
    decreases n,
{
    if n <= 0 {
        0
    } else {
        spec_round_seed_total(round_id, n - 1) + spec_match_seed_total(round_id, n - 1)
    }
}

/// The match pool of match `i` right after seeding.
pub open spec fn spec_seeded_pool(round_id: u64, i: int) -> (int, int, int, int) {
    let s = spec_match_seeds(round_id, i);
    (s.0, s.1, s.2, s.0 + s.1 + s.2)
}

/// Seed the ten match pools of a round and lock its odds.
///
/// Each match receives a deterministic three-way seed split; the locked
/// odds follow from the seed ratios. The total seed moves from the
/// liquidity pool into the round. Fails, leaving round and pool
/// unchanged, when the round was already seeded or settled, when the
/// liquidity pool cannot fund the seed, or when the bet-volume counter
/// would overflow.
pub fn seed_round_pools(round: &mut RoundAccounting, lp: &mut LiquidityPool) -> (r: Result<
    u64,
    SportsbookError,
>)
    requires
        old(round).wf(),
        old(lp).wf(),
    ensures
        match r {
            Ok(total_seed) => {
                &&& !old(round).seeded && !old(round).settled
                &&& total_seed == spec_round_seed_total(old(round).round_id, 10)
                &&& old(lp).available_liquidity >= total_seed
                &&& final(round).wf()
                &&& final(round).seeded
                &&& !final(round).settled
                &&& final(round).protocol_seed_amount == total_seed
                &&& final(round).total_bet_volume == old(round).total_bet_volume + total_seed
                &&& forall|i: int|
                    0 <= i < 10 ==> {
                        let s = #[trigger] spec_seeded_pool(old(round).round_id, i);
                        let p = final(round).match_pools@[i];
                        p.home_win_pool == s.0 && p.away_win_pool == s.1 && p.draw_pool == s.2
                            && p.total_pool == s.3
                    }
                &&& forall|i: int|
                    0 <= i < 10 ==> {
                        let s = #[trigger] spec_seeded_pool(old(round).round_id, i);
                        let o = final(round).locked_odds@[i];
                        o.locked && o.home_odds == spec_locked_odds_from_seeds(s.3, s.0)
                            && o.away_odds == spec_locked_odds_from_seeds(s.3, s.1) && o.draw_odds
                            == spec_locked_odds_from_seeds(s.3, s.2)
                    }
                &&& *final(round) == (RoundAccounting {
                    match_pools: final(round).match_pools,
                    locked_odds: final(round).locked_odds,
                    total_bet_volume: final(round).total_bet_volume,
                    protocol_seed_amount: final(round).protocol_seed_amount,
                    seeded: true,
                    ..*old(round)
                })
                &&& final(lp).total_liquidity == old(lp).total_liquidity - total_seed
                &&& final(lp).locked_reserve == old(lp).locked_reserve
                &&& final(lp).total_shares == old(lp).total_shares
                &&& final(lp).available_liquidity == spec_available(
                    final(lp).total_liquidity as int,
                    final(lp).locked_reserve as int,
                )
            },
            Err(e) => {
                &&& *final(round) == *old(round)
                &&& *final(lp) == *old(lp)
                &&& (e == SportsbookError::RoundAlreadySeeded <==> old(round).seeded)
                &&& (e == SportsbookError::RoundAlreadySettled <==> !old(round).seeded && old(
                    round,
                ).settled)
                &&& (e == SportsbookError::InsufficientProtocolLiquidity <==> !old(round).seeded
                    && !old(round).settled && old(lp).available_liquidity < spec_round_seed_total(
                    old(round).round_id,
                    10,
                ))
                &&& (e == SportsbookError::CalculationOverflow <==> !old(round).seeded && !old(
                    round,
                ).settled && old(lp).available_liquidity >= spec_round_seed_total(
                    old(round).round_id,
                    10,
                ) && old(round).total_bet_volume + spec_round_seed_total(old(round).round_id, 10)
                    > u64::MAX)
                &&& (e == SportsbookError::RoundAlreadySeeded || e
                    == SportsbookError::RoundAlreadySettled || e
                    == SportsbookError::InsufficientProtocolLiquidity || e
                    == SportsbookError::CalculationOverflow)
            },
        },
        spec_flags_monotone(*old(round), *final(round)),
{
    if round.seeded {
        return Err(SportsbookError::RoundAlreadySeeded);
    }
    if round.settled {
        return Err(SportsbookError::RoundAlreadySettled);
    }
    let round_id = round.round_id;
    let mut pools: [MatchPool; 10] = [MatchPool::new(); 10];
    let mut odds: [LockedOdds; 10] = [LockedOdds::new(); 10];
    let mut total_seed_amount: u64 = 0;
    let mut i: usize = 0;
    while i < 10
        invariant
            i <= 10,
            total_seed_amount == spec_round_seed_total(round_id, i as int),
            total_seed_amount <= i * 3 * (SEED_PER_MATCH as int),
            forall|j: int|
                0 <= j < i ==> {
                    let s = #[trigger] spec_seeded_pool(round_id, j);
                    pools@[j].home_win_pool == s.0 && pools@[j].away_win_pool == s.1
                        && pools@[j].draw_pool == s.2 && pools@[j].total_pool == s.3 && pools@[j].wf()
                },
            forall|j: int|
                0 <= j < i ==> {
                    let s = spec_seeded_pool(round_id, j);
                    let o = #[trigger] odds@[j];
                    o.locked && o.home_odds == spec_locked_odds_from_seeds(s.3, s.0) && o.away_odds
                        == spec_locked_odds_from_seeds(s.3, s.1) && o.draw_odds
                        == spec_locked_odds_from_seeds(s.3, s.2) && MIN_COMPRESSED_ODDS
                        <= o.home_odds <= MAX_COMPRESSED_ODDS && MIN_COMPRESSED_ODDS <= o.away_odds
                        <= MAX_COMPRESSED_ODDS && MIN_COMPRESSED_ODDS <= o.draw_odds
                        <= MAX_COMPRESSED_ODDS
                },
        decreases 10 - i,
    {
        let home_team_id: u64 = (i as u64) * 2;
        let away_team_id: u64 = (i as u64) * 2 + 1;
        proof {
            assert(home_team_id == (2 * (i as int)) as u64);
            assert(away_team_id == (2 * (i as int) + 1) as u64);
        }
        let (home_seed, away_seed, draw_seed) = calculate_pseudo_random_seeds(
            home_team_id,
            away_team_id,
            round_id,
        );
        proof {
            assert((home_seed as int, away_seed as int, draw_seed as int) == spec_match_seeds(
                round_id,
                i as int,
            ));
        }
        let total_pool: u64 = home_seed + away_seed + draw_seed;
        pools[i] = MatchPool {
            home_win_pool: home_seed,
            away_win_pool: away_seed,
            draw_pool: draw_seed,
            total_pool,
        };
        let (home_odds, away_odds, draw_odds) = calculate_locked_odds_from_seeds(
            home_seed,
            away_seed,
            draw_seed,
        );
        proof {
            // The three locked odds land in the compressed band: the
            // zero-total fallback cannot arise since every seed is
            // positive.
            crate::odds::lemma_compress_odds_in_band(
                crate::odds::spec_raw_odds(total_pool as int, home_seed as int),
            );
            crate::odds::lemma_compress_odds_in_band(
                crate::odds::spec_raw_odds(total_pool as int, away_seed as int),
            );
            crate::odds::lemma_compress_odds_in_band(
                crate::odds::spec_raw_odds(total_pool as int, draw_seed as int),
            );
        }
        proof {
            let s = spec_seeded_pool(round_id, i as int);
            assert(total_pool as int == s.3);
            assert(home_odds as int == spec_locked_odds_from_seeds(s.3, s.0));
            assert(away_odds as int == spec_locked_odds_from_seeds(s.3, s.1));
            assert(draw_odds as int == spec_locked_odds_from_seeds(s.3, s.2));
        }
        odds[i] = LockedOdds { home_odds, away_odds, draw_odds, locked: true };
        total_seed_amount = total_seed_amount + total_pool;
        i = i + 1;
    }

    if !lp.can_cover_payout(total_seed_amount) {
        return Err(SportsbookError::InsufficientProtocolLiquidity);
    }
    if total_seed_amount > u64::MAX - round.total_bet_volume {
        return Err(SportsbookError::CalculationOverflow);
    }

    round.match_pools = pools;
    round.locked_odds = odds;
    round.total_bet_volume = round.total_bet_volume + total_seed_amount;
    round.protocol_seed_amount = total_seed_amount;
    round.seeded = true;
    proof {
        assert forall|j: int| 0 <= j < 10 implies (#[trigger] round.locked_odds@[j]).locked
            && MIN_COMPRESSED_ODDS <= round.locked_odds@[j].home_odds <= MAX_COMPRESSED_ODDS
            && MIN_COMPRESSED_ODDS <= round.locked_odds@[j].away_odds <= MAX_COMPRESSED_ODDS
            && MIN_COMPRESSED_ODDS <= round.locked_odds@[j].draw_odds <= MAX_COMPRESSED_ODDS by {
            let s = spec_seeded_pool(round_id, j);
            assert(odds@[j].locked && MIN_COMPRESSED_ODDS <= odds@[j].home_odds
                <= MAX_COMPRESSED_ODDS);
        }
        assert forall|j: int| 0 <= j < 10 implies (#[trigger] round.match_pools@[j]).wf() by {
            let s = spec_seeded_pool(round_id, j);
            assert(pools@[j].wf());
        }
    }

    lp.total_liquidity = lp.total_liquidity - total_seed_amount;
    lp.available_liquidity = if lp.total_liquidity >= lp.locked_reserve {
        lp.total_liquidity - lp.locked_reserve
    } else {
        0
    };
    Ok(total_seed_amount)
}

/// The pool that loses at match `i` when the outcome code is `code`: the
/// sum of the two outcome pools that did not win.
pub open spec fn spec_losing_pool(pool: MatchPool, code: int) -> int {
    if code == 1 {
        pool.away_win_pool + pool.draw_pool
    } else if code == 2 {
        pool.home_win_pool + pool.draw_pool
    } else if code == 3 {
        pool.home_win_pool + pool.away_win_pool
    } else {
        0
    }
}

/// Sum of the winning pools of the first `n` matches under the given
/// outcome codes.
pub open spec fn spec_winning_total(round: RoundAccounting, results: Seq<u8>, n: int) -> int
    decreases n,
{
    if n <= 0 {
        0
    } else {
        spec_winning_total(round, results, n - 1) + round.match_pools@[n - 1].spec_pool_amount(
            results[n - 1] as int,
        )
    }
}

/// Sum of the losing pools of the first `n` matches under the given
/// outcome codes.
pub open spec fn spec_losing_total(round: RoundAccounting, results: Seq<u8>, n: int) -> int
    decreases n,
{
    if n <= 0 {
        0
    } else {
        spec_losing_total(round, results, n - 1) + spec_losing_pool(
            round.match_pools@[n - 1],
            results[n - 1] as int,
        )
    }
}

/// Total owed to winners over the first `n` matches: for each match, the
/// winning pool times its locked odds, scaled down; the heart of the O(M)
/// settlement.
pub open spec fn spec_total_owed(round: RoundAccounting, results: Seq<u8>, n: int) -> int
    decreases n,
{
    if n <= 0 {
        0
    } else {
        let code = results[n - 1] as int;
        spec_total_owed(round, results, n - 1) + round.match_pools@[n - 1].spec_pool_amount(code)
            * round.locked_odds@[n - 1].spec_odds(code) / (ODDS_SCALE as int)
    }
}

/// Settle a round with the ten match outcomes.
///
/// Stores the outcomes, books the winning and losing pool totals, and
/// computes `total_reserved_for_winners` as the exact sum over the ten
/// matches of `winning_pool * winning_odds / ODDS_SCALE` — settlement
/// never scans individual bets. Stamps the settlement time. Fails,
/// leaving the round unchanged, on an unseeded or already settled round,
/// a result vector that is not exactly ten codes in 1..=3, or counter
/// overflow.
pub fn settle_round(round: &mut RoundAccounting, match_results: &Vec<u8>, now: i64) -> (r: Result<
    (),
    SportsbookError,
>)
    requires
        old(round).wf(),
    ensures
        match r {
            Ok(_) => {
                &&& old(round).seeded && !old(round).settled
                &&& match_results@.len() == 10
                &&& forall|i: int| 0 <= i < 10 ==> 1 <= #[trigger] match_results@[i] <= 3
                &&& final(round).wf()
                &&& final(round).settled
                &&& final(round).round_end_time == now
                &&& forall|i: int|
                    0 <= i < 10 ==> #[trigger] final(round).match_results@[i]
                        == MatchOutcome::spec_from_u8(match_results@[i])
                &&& final(round).total_winning_pool == old(round).total_winning_pool
                    + spec_winning_total(*old(round), match_results@, 10)
                &&& final(round).total_losing_pool == old(round).total_losing_pool
                    + spec_losing_total(*old(round), match_results@, 10)
                &&& final(round).total_reserved_for_winners == spec_total_owed(
                    *old(round),
                    match_results@,
                    10,
                )
                &&& *final(round) == (RoundAccounting {
                    match_results: final(round).match_results,
                    total_winning_pool: final(round).total_winning_pool,
                    total_losing_pool: final(round).total_losing_pool,
                    total_reserved_for_winners: final(round).total_reserved_for_winners,
                    round_end_time: now,
                    settled: true,
                    ..*old(round)
                })
            },
            Err(e) => {
                &&& *final(round) == *old(round)
                &&& (e == SportsbookError::RoundNotSeeded <==> !old(round).seeded)
                &&& (e == SportsbookError::RoundAlreadySettled <==> old(round).seeded && old(
                    round,
                ).settled)
                &&& (e == SportsbookError::InvalidBetCount <==> old(round).seeded && !old(
                    round,
                ).settled && match_results@.len() != 10)
                &&& (e == SportsbookError::InvalidOutcome <==> old(round).seeded && !old(
                    round,
                ).settled && match_results@.len() == 10 && exists|i: int|
                    0 <= i < 10 && !(1 <= #[trigger] match_results@[i] <= 3))
                &&& (e == SportsbookError::CalculationOverflow ==> old(round).seeded && !old(
                    round,
                ).settled && match_results@.len() == 10)
                &&& (e == SportsbookError::CalculationOverflow <==> old(round).seeded && !old(
                    round,
                ).settled && match_results@.len() == 10 && (forall|i: int|
                    0 <= i < 10 ==> 1 <= #[trigger] match_results@[i] <= 3) && (old(
                    round,
                ).total_winning_pool + spec_winning_total(*old(round), match_results@, 10)
                    > u64::MAX || old(round).total_losing_pool + spec_losing_total(
                    *old(round),
                    match_results@,
                    10,
                ) > u64::MAX || spec_total_owed(*old(round), match_results@, 10) > u64::MAX))
                &&& (e == SportsbookError::RoundNotSeeded || e
                    == SportsbookError::RoundAlreadySettled || e == SportsbookError::InvalidBetCount
                    || e == SportsbookError::InvalidOutcome || e
                    == SportsbookError::CalculationOverflow)
            },
        },
        spec_flags_monotone(*old(round), *final(round)),
{
    if !round.seeded {
        return Err(SportsbookError::RoundNotSeeded);
    }
    if round.settled {
        return Err(SportsbookError::RoundAlreadySettled);
    }
    if match_results.len() != 10 {
        return Err(SportsbookError::InvalidBetCount);
    }
    let ghost round0 = *round;
    let ghost results = match_results@;

    let mut i: usize = 0;
    while i < 10
        invariant
            i <= 10,
            *round == round0,
            round0 == *old(round),
            round0.seeded,
            !round0.settled,
            results == match_results@,
            results.len() == 10,
            forall|j: int| 0 <= j < i ==> 1 <= #[trigger] results[j] <= 3,
        decreases 10 - i,
    {
        let code = match_results[i];
        if !(code >= 1 && code <= 3) {
            proof {
                assert(0 <= i < 10 && !(1 <= match_results@[i as int] <= 3));
            }
            return Err(SportsbookError::InvalidOutcome);
        }
        i = i + 1;
    }

    // Winning and losing pool totals and the exact winner obligation,
    // widened so only the final narrowing can fail.
    let mut winning_total: u128 = 0;
    let mut losing_total: u128 = 0;
    let mut owed_total: u128 = 0;
    let mut outcomes: [MatchOutcome; 10] = [MatchOutcome::Pending; 10];
    let mut i: usize = 0;
    while i < 10
        invariant
            i <= 10,
            round0 == *round,
            round0 == *old(round),
            round0.wf(),
            round0.seeded,
            !round0.settled,
            results == match_results@,
            results.len() == 10,
            forall|j: int| 0 <= j < 10 ==> 1 <= #[trigger] results[j] <= 3,
            winning_total == spec_winning_total(round0, results, i as int),
            losing_total == spec_losing_total(round0, results, i as int),
            owed_total == spec_total_owed(round0, results, i as int),
            winning_total <= i * (u64::MAX as int),
            losing_total <= i * 2 * (u64::MAX as int),
            owed_total <= i * 3 * (u64::MAX as int),
            forall|j: int|
                0 <= j < i ==> #[trigger] outcomes@[j] == MatchOutcome::spec_from_u8(results[j]),
        decreases 10 - i,
    {
        let code = match_results[i];
        outcomes[i] = MatchOutcome::from_u8(code);
        let pool = &round.match_pools[i];
        let winning_pool = pool.get_pool_amount(code);
        let losing_pool: u128 = if code == 1 {
            (pool.away_win_pool as u128) + (pool.draw_pool as u128)
        } else if code == 2 {
            (pool.home_win_pool as u128) + (pool.draw_pool as u128)
        } else {
            (pool.home_win_pool as u128) + (pool.away_win_pool as u128)
        };
        let odds = round.locked_odds[i].get_odds(code);
        proof {
            assert(round0.locked_odds@[i as int].locked);
            assert(odds <= MAX_COMPRESSED_ODDS);
            crate::arith::lemma_u64_mul_fits_u128(winning_pool as int, odds as int);
            crate::arith::lemma_mul_mono(
                winning_pool as int,
                odds as int,
                u64::MAX as int,
                MAX_COMPRESSED_ODDS as int,
            );
            assert((u64::MAX as int) * (MAX_COMPRESSED_ODDS as int) / (ODDS_SCALE as int) <= 3 * (
            u64::MAX as int)) by (nonlinear_arith)
                requires
                    MAX_COMPRESSED_ODDS == 2_200_000_000u64,
                    ODDS_SCALE == 1_000_000_000u64,
            ;
            crate::arith::lemma_div_mono(
                (winning_pool as int) * (odds as int),
                (u64::MAX as int) * (MAX_COMPRESSED_ODDS as int),
                ODDS_SCALE as int,
            );
        }
        let owed_for_match: u128 = (winning_pool as u128) * (odds as u128) / (ODDS_SCALE as u128);
        winning_total = winning_total + (winning_pool as u128);
        losing_total = losing_total + losing_pool;
        owed_total = owed_total + owed_for_match;
        i = i + 1;
    }

    if winning_total > (u64::MAX as u128) - (round.total_winning_pool as u128) {
        return Err(SportsbookError::CalculationOverflow);
    }
    if losing_total > (u64::MAX as u128) - (round.total_losing_pool as u128) {
        return Err(SportsbookError::CalculationOverflow);
    }
    if owed_total > u64::MAX as u128 {
        return Err(SportsbookError::CalculationOverflow);
    }

    round.match_results = outcomes;
    round.total_winning_pool = round.total_winning_pool + (winning_total as u64);
    round.total_losing_pool = round.total_losing_pool + (losing_total as u64);
    round.total_reserved_for_winners = owed_total as u64;
    round.settled = true;
    round.round_end_time = now;
    Ok(())
}

/// Season share carved out at finalisation: a basis-point share of the
/// user deposits plus collected fees, capped to the balance remaining in
/// the treasury.
pub open spec fn spec_season_share(
    total_user_deposits: int,
    protocol_fee_collected: int,
    season_pool_share_bps: int,
    remaining: int,
) -> int {
    if total_user_deposits == 0 {
        0
    } else {
        let before_fee = if total_user_deposits + protocol_fee_collected > u64::MAX {
            u64::MAX as int
        } else {
            total_user_deposits + protocol_fee_collected
        };
        let share = before_fee * season_pool_share_bps / (BPS_DENOMINATOR as int);
        if share > remaining {
            remaining
        } else {
            share
        }
    }
}

/// Operating profit booked at finalisation: user deposits less payouts,
/// floored at zero (a loss is absorbed by the protocol seed).
pub open spec fn spec_protocol_revenue(total_user_deposits: int, total_paid_out: int) -> int {
    if total_user_deposits > total_paid_out {
        total_user_deposits - total_paid_out
    } else {
        0
    }
}

/// Finalise the revenue of a settled round after the claim window and the
/// buffer have passed.
///
/// Carves the season share out of the round's deposits and fees into the
/// season reward pool, books the operating profit, and marks the round's
/// revenue distributed; a second call fails with
/// `RevenueAlreadyDistributed`. Returns the season share and the protocol
/// revenue share.
pub fn finalize_round_revenue(
    pool: &mut BettingPool,
    round: &mut RoundAccounting,
    now: i64,
    remaining_in_contract: u64,
) -> (r: Result<(u64, u64), SportsbookError>)
    requires
        old(pool).wf(),
        old(round).round_end_time + CLAIM_GRACE_SECONDS + FINALIZE_BUFFER_SECONDS <= i64::MAX,
    ensures
        match r {
            Ok(shares) => {
                &&& old(round).settled && !old(round).revenue_distributed
                &&& now >= old(round).round_end_time + CLAIM_GRACE_SECONDS
                    + FINALIZE_BUFFER_SECONDS
                &&& shares.0 == spec_season_share(
                    old(round).total_user_deposits as int,
                    old(round).protocol_fee_collected as int,
                    old(pool).season_pool_share_bps as int,
                    remaining_in_contract as int,
                )
                &&& shares.1 == spec_protocol_revenue(
                    old(round).total_user_deposits as int,
                    old(round).total_paid_out as int,
                )
                &&& final(pool).season_reward_pool == old(pool).season_reward_pool + shares.0
                &&& *final(pool) == (BettingPool {
                    season_reward_pool: final(pool).season_reward_pool,
                    ..*old(pool)
                })
                &&& final(round).revenue_distributed
                &&& final(round).protocol_revenue_share == shares.1
                &&& final(round).season_revenue_share == shares.0
                &&& *final(round) == (RoundAccounting {
                    protocol_revenue_share: shares.1,
                    season_revenue_share: shares.0,
                    revenue_distributed: true,
                    ..*old(round)
                })
            },
            Err(e) => {
                &&& *final(pool) == *old(pool)
                &&& *final(round) == *old(round)
                &&& (e == SportsbookError::RoundNotSettled <==> !old(round).settled)
                &&& (e == SportsbookError::RevenueAlreadyDistributed <==> old(round).settled && old(
                    round,
                ).revenue_distributed)
                &&& (e == SportsbookError::RevenueDistributedBeforeClaims <==> old(round).settled
                    && !old(round).revenue_distributed && now < old(round).round_end_time
                    + CLAIM_GRACE_SECONDS + FINALIZE_BUFFER_SECONDS)
                &&& (e == SportsbookError::CalculationOverflow <==> old(round).settled && !old(
                    round,
                ).revenue_distributed && now >= old(round).round_end_time + CLAIM_GRACE_SECONDS
                    + FINALIZE_BUFFER_SECONDS && old(pool).season_reward_pool + spec_season_share(
                    old(round).total_user_deposits as int,
                    old(round).protocol_fee_collected as int,
                    old(pool).season_pool_share_bps as int,
                    remaining_in_contract as int,
                ) > u64::MAX)
                &&& (e == SportsbookError::RoundNotSettled || e
                    == SportsbookError::RevenueAlreadyDistributed || e
                    == SportsbookError::RevenueDistributedBeforeClaims || e
                    == SportsbookError::CalculationOverflow)
            },
        },
        spec_flags_monotone(*old(round), *final(round)),
{
    if !round.settled {
        return Err(SportsbookError::RoundNotSettled);
    }
    if round.revenue_distributed {
        return Err(SportsbookError::RevenueAlreadyDistributed);
    }
    let earliest_finalize_time: i64 = round.round_end_time + CLAIM_GRACE_SECONDS
        + FINALIZE_BUFFER_SECONDS;
    if now < earliest_finalize_time {
        return Err(SportsbookError::RevenueDistributedBeforeClaims);
    }

    let user_deposits = round.total_user_deposits;
    let total_paid = round.total_paid_out;

    let season_share: u64 = if user_deposits > 0 {
        let before_fee: u64 = if round.protocol_fee_collected > u64::MAX - user_deposits {
            u64::MAX
        } else {
            user_deposits + round.protocol_fee_collected
        };
        proof {
            crate::arith::lemma_u64_mul_fits_u128(
                before_fee as int,
                pool.season_pool_share_bps as int,
            );
            crate::arith::lemma_mul_div_le_factor(
                pool.season_pool_share_bps as int,
                before_fee as int,
                BPS_DENOMINATOR as int,
            );
            assert((before_fee as int) * (pool.season_pool_share_bps as int) == (
            pool.season_pool_share_bps as int) * (before_fee as int)) by (nonlinear_arith);
        }
        let share_wide: u128 = (before_fee as u128) * (pool.season_pool_share_bps as u128) / (
        BPS_DENOMINATOR as u128);
        let share: u64 = share_wide as u64;
        if share > remaining_in_contract {
            remaining_in_contract
        } else {
            share
        }
    } else {
        0
    };

    if season_share > u64::MAX - pool.season_reward_pool {
        return Err(SportsbookError::CalculationOverflow);
    }

    let protocol_revenue: u64 = if user_deposits > total_paid {
        user_deposits - total_paid
    } else {
        0
    };

    if season_share > 0 {
        pool.season_reward_pool = pool.season_reward_pool + season_share;
    }
    round.protocol_revenue_share = protocol_revenue;
    round.season_revenue_share = season_share;
    round.revenue_distributed = true;
    Ok((season_share, protocol_revenue))
}

} // verus!
