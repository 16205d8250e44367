//! Odds engine: compression of raw parimutuel odds into the locked band,
//! locked odds from seed pools, market-odds preview and pool imbalance.

use vstd::prelude::*;

use crate::constants::BPS_DENOMINATOR;
use crate::constants::MAX_COMPRESSED_ODDS;
use crate::constants::MIN_COMPRESSED_ODDS;
use crate::constants::ODDS_SCALE;
use crate::constants::RAW_ODDS_MAX;
use crate::constants::RAW_ODDS_MIN;
use crate::constants::SEED_PER_MATCH;
use crate::constants::VIRTUAL_LIQUIDITY_MULTIPLIER;
use crate::match_pool::MatchPool;

verus! {

/// Raw odds compressed into [`MIN_COMPRESSED_ODDS`, `MAX_COMPRESSED_ODDS`]:
/// clamped outside [`RAW_ODDS_MIN`, `RAW_ODDS_MAX`], linearly mapped inside.
pub open spec fn spec_compress_odds(raw: int) -> int {
    if raw < RAW_ODDS_MIN {
        MIN_COMPRESSED_ODDS as int
    } else if raw > RAW_ODDS_MAX {
        MAX_COMPRESSED_ODDS as int
    } else {
        MIN_COMPRESSED_ODDS + (raw - RAW_ODDS_MIN) * (MAX_COMPRESSED_ODDS - MIN_COMPRESSED_ODDS)
            / (RAW_ODDS_MAX - RAW_ODDS_MIN)
    }
}

/// Compress raw parimutuel odds into the locked 1.2x - 2.2x band.
///
/// Strong favourites compress to the floor, heavy underdogs to the ceiling,
/// and odds between `RAW_ODDS_MIN` and `RAW_ODDS_MAX` map linearly.
pub fn compress_odds(raw_odds: u64) -> (r: u64)
    ensures
        r == spec_compress_odds(raw_odds as int),
        MIN_COMPRESSED_ODDS <= r <= MAX_COMPRESSED_ODDS,
{
    if raw_odds < RAW_ODDS_MIN {
        return MIN_COMPRESSED_ODDS;
    }
    if raw_odds > RAW_ODDS_MAX {
        return MAX_COMPRESSED_ODDS;
    }
    let excess: u64 = raw_odds - RAW_ODDS_MIN;
    let target_range: u64 = MAX_COMPRESSED_ODDS - MIN_COMPRESSED_ODDS;
    let range: u64 = RAW_ODDS_MAX - RAW_ODDS_MIN;
    let scaled_excess: u64 = ((excess as u128) * (target_range as u128) / (range as u128)) as u64;
    assert((excess as int) * (target_range as int) / (range as int) <= target_range as int)
        by (nonlinear_arith)
        requires
            excess <= range,
            0 < range,
            0 <= target_range,
    ;
    MIN_COMPRESSED_ODDS + scaled_excess
}

/// Compression never leaves the locked band and is monotone in the raw odds.
///
/// For any two raw odds `a <= b`, the compressed value of `a` is at most the
/// compressed value of `b`, and both lie in the compressed band.
pub proof fn lemma_compress_odds_monotone(a: int, b: int)
    requires
        a <= b,
    ensures
        spec_compress_odds(a) <= spec_compress_odds(b),
        MIN_COMPRESSED_ODDS <= spec_compress_odds(a) <= MAX_COMPRESSED_ODDS,
        MIN_COMPRESSED_ODDS <= spec_compress_odds(b) <= MAX_COMPRESSED_ODDS,
{
    lemma_compress_odds_in_band(a);
    lemma_compress_odds_in_band(b);
    if RAW_ODDS_MIN <= a && b <= RAW_ODDS_MAX {
        let c: int = (MAX_COMPRESSED_ODDS - MIN_COMPRESSED_ODDS) as int;
        let d: int = (RAW_ODDS_MAX - RAW_ODDS_MIN) as int;
        assert((a - RAW_ODDS_MIN) * c / d <= (b - RAW_ODDS_MIN) * c / d) by (nonlinear_arith)
            requires
                a <= b,
                RAW_ODDS_MIN <= a,
                c >= 0,
                d > 0,
        ;
    }
}

/// Every compressed value lies in the locked band.
pub proof fn lemma_compress_odds_in_band(raw: int)
    ensures
        MIN_COMPRESSED_ODDS <= spec_compress_odds(raw) <= MAX_COMPRESSED_ODDS,
{
    if RAW_ODDS_MIN <= raw && raw <= RAW_ODDS_MAX {
        let c: int = (MAX_COMPRESSED_ODDS - MIN_COMPRESSED_ODDS) as int;
        let d: int = (RAW_ODDS_MAX - RAW_ODDS_MIN) as int;
        assert(0 <= (raw - RAW_ODDS_MIN) * c / d <= c) by (nonlinear_arith)
            requires
                0 <= raw - RAW_ODDS_MIN <= d,
                c >= 0,
                d > 0,
        ;
    }
}

/// Raw parimutuel odds of one pool: `total * ODDS_SCALE / pool`, or
/// `ODDS_SCALE` for an empty pool.
pub open spec fn spec_raw_odds(total: int, pool: int) -> int {
    if pool == 0 {
        ODDS_SCALE as int
    } else {
        total * ODDS_SCALE / pool
    }
}

/// Locked odds of one pool derived from the seed amounts.
pub open spec fn spec_locked_odds_from_seeds(total: int, pool: int) -> int {
    spec_compress_odds(spec_raw_odds(total, pool))
}

/// Derive the three locked odds of a match from its seed pools.
///
/// Called once at seeding time; every later payout uses these fixed odds.
/// An entirely empty match falls back to even 1.5x odds on all three
/// outcomes; an empty single pool is treated as raw odds of 1.0x, which
/// compresses to the band floor.
pub fn calculate_locked_odds_from_seeds(home_seed: u64, away_seed: u64, draw_seed: u64) -> (r: (
    u64,
    u64,
    u64,
))
    requires
        home_seed + away_seed + draw_seed <= u64::MAX,
    ensures
        ({
            let total = home_seed + away_seed + draw_seed;
            if total == 0 {
                r == (1_500_000_000u64, 1_500_000_000u64, 1_500_000_000u64)
            } else {
                r.0 == spec_locked_odds_from_seeds(total, home_seed as int) && r.1
                    == spec_locked_odds_from_seeds(total, away_seed as int) && r.2
                    == spec_locked_odds_from_seeds(total, draw_seed as int)
            }
        }),
{
    let total_pool: u64 = home_seed + away_seed + draw_seed;
    if total_pool == 0 {
        return (1_500_000_000, 1_500_000_000, 1_500_000_000);
    }
    let home = compress_odds(raw_odds_u64(total_pool, home_seed));
    let away = compress_odds(raw_odds_u64(total_pool, away_seed));
    let draw = compress_odds(raw_odds_u64(total_pool, draw_seed));
    (home, away, draw)
}

/// Raw odds of one pool, saturated just past the compression ceiling so the
/// result fits in a `u64` yet compresses exactly as the unbounded quotient
/// would.
fn raw_odds_u64(total: u64, pool: u64) -> (r: u64)
    ensures
        spec_compress_odds(r as int) == spec_compress_odds(spec_raw_odds(total as int, pool as int)),
{
    if pool == 0 {
        return ODDS_SCALE;
    }
    assert((total as int) * (ODDS_SCALE as int) <= 0xffffffffffffffff * 1_000_000_000)
        by (nonlinear_arith)
        requires
            total <= 0xffffffffffffffffu64,
    ;
    let raw: u128 = (total as u128) * (ODDS_SCALE as u128) / (pool as u128);
    assert((total as int) * (ODDS_SCALE as int) / (pool as int) >= 0) by (nonlinear_arith)
        requires
            total as int >= 0,
            ODDS_SCALE as int >= 0,
            pool as int > 0,
    ;
    if raw > RAW_ODDS_MAX as u128 {
        assert(spec_compress_odds(raw as int) == MAX_COMPRESSED_ODDS);
        RAW_ODDS_MAX + 1
    } else {
        raw as u64
    }
}

/// Virtual liquidity added to a match when previewing market odds:
/// `SEED_PER_MATCH * VIRTUAL_LIQUIDITY_MULTIPLIER`, capped to `u64::MAX`.
pub open spec fn spec_virtual_liquidity() -> int {
    if SEED_PER_MATCH * VIRTUAL_LIQUIDITY_MULTIPLIER > u64::MAX {
        u64::MAX as int
    } else {
        SEED_PER_MATCH * VIRTUAL_LIQUIDITY_MULTIPLIER
    }
}

/// Market odds of one outcome after virtual-liquidity dampening; a fair
/// 3.0x fallback when nothing sits on that outcome.
pub open spec fn spec_market_odds(pool: MatchPool, outcome: int) -> int {
    let winning = pool.spec_pool_amount(outcome);
    if winning == 0 {
        3 * ODDS_SCALE
    } else {
        let v = spec_virtual_liquidity();
        (pool.total_pool + v) * (ODDS_SCALE as int) / (winning + v / 3)
    }
}

/// Preview the market odds of one outcome of a match.
///
/// Virtual liquidity dampens price impact; the result is informational
/// only and never used for settlement.
pub fn calculate_market_odds(pool: &MatchPool, outcome: u8) -> (r: u64)
    ensures
        r == spec_market_odds(*pool, outcome as int),
{
    let winning_pool = pool.get_pool_amount(outcome);
    if winning_pool == 0 {
        return 3 * ODDS_SCALE;
    }
    assert((SEED_PER_MATCH as int) * (VIRTUAL_LIQUIDITY_MULTIPLIER as int)
        == 36_000_000_000_000_000_000) by (nonlinear_arith)
        requires
            SEED_PER_MATCH == 3_000_000_000_000u64,
            VIRTUAL_LIQUIDITY_MULTIPLIER == 12_000_000u64,
    ;
    let virtual_wide: u128 = (SEED_PER_MATCH as u128) * (VIRTUAL_LIQUIDITY_MULTIPLIER as u128);
    let virtual_liquidity: u64 = if virtual_wide > u64::MAX as u128 {
        u64::MAX
    } else {
        virtual_wide as u64
    };
    let virtual_winning: u128 = (winning_pool as u128) + ((virtual_liquidity / 3) as u128);
    let virtual_total: u128 = (pool.total_pool as u128) + (virtual_liquidity as u128);
    let num: u128 = virtual_total * (ODDS_SCALE as u128);
    let r_wide: u128 = num / virtual_winning;
    assert((virtual_total as int) * (ODDS_SCALE as int) / (virtual_winning as int)
        <= u64::MAX as int) by (nonlinear_arith)
        requires
            virtual_total as int <= 2 * (u64::MAX as int),
            virtual_winning as int >= (u64::MAX as int) / 3,
            ODDS_SCALE == 1_000_000_000u64,
    ;
    r_wide as u64
}

/// Dominance of the largest outcome pool, in basis points of the total.
pub open spec fn spec_pool_imbalance(pool: MatchPool) -> int {
    let max_pool = if pool.home_win_pool >= pool.away_win_pool && pool.home_win_pool
        >= pool.draw_pool {
        pool.home_win_pool as int
    } else if pool.away_win_pool >= pool.draw_pool {
        pool.away_win_pool as int
    } else {
        pool.draw_pool as int
    };
    if pool.total_pool == 0 {
        0
    } else {
        max_pool * (BPS_DENOMINATOR as int) / (pool.total_pool as int)
    }
}

/// Measure how dominated a match pool is by its largest outcome pool.
///
/// Returns basis points in 0..=10000; an empty pool reads as perfectly
/// balanced.
pub fn calculate_pool_imbalance(pool: &MatchPool) -> (r: u64)
    requires
        pool.wf(),
    ensures
        r == spec_pool_imbalance(*pool),
        r <= BPS_DENOMINATOR,
{
    if pool.total_pool == 0 {
        return 0;
    }
    let mut max_pool = pool.home_win_pool;
    if pool.away_win_pool > max_pool {
        max_pool = pool.away_win_pool;
    }
    if pool.draw_pool > max_pool {
        max_pool = pool.draw_pool;
    }
    let r_wide: u128 = (max_pool as u128) * (BPS_DENOMINATOR as u128) / (pool.total_pool as u128);
    assert((max_pool as int) * (BPS_DENOMINATOR as int) / (pool.total_pool as int)
        <= BPS_DENOMINATOR) by (nonlinear_arith)
        requires
            0 < pool.total_pool,
            max_pool <= pool.total_pool,
            BPS_DENOMINATOR >= 0,
    ;
    r_wide as u64
}

} // verus!
