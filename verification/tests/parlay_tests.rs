use sportsbook::constants::COUNT_MULT_TIER_1;
use sportsbook::constants::COUNT_MULT_TIER_2;
use sportsbook::constants::COUNT_MULT_TIER_5;
use sportsbook::constants::MAX_PAYOUT_PER_BET;
use sportsbook::constants::MIN_PARLAY_MULTIPLIER;
use sportsbook::constants::ODDS_SCALE;
use sportsbook::constants::PARLAY_MULTIPLIER_10_MATCHES;
use sportsbook::constants::PARLAY_MULTIPLIER_1_MATCH;
use sportsbook::constants::PARLAY_MULTIPLIER_2_MATCHES;
use sportsbook::match_pool::LockedOdds;
use sportsbook::match_pool::MatchOutcome;
use sportsbook::match_pool::MatchPool;
use sportsbook::parlay::calculate_max_payout;
use sportsbook::parlay::calculate_odds_weighted_allocations;
use sportsbook::parlay::calculate_parlay_multiplier_dynamic;
use sportsbook::parlay::get_base_parlay_multiplier;
use sportsbook::parlay::get_parlay_multiplier_by_count;
use sportsbook::parlay::get_reserve_decay_factor;
use sportsbook::round::RoundAccounting;

#[test]
fn test_base_parlay_multiplier() {
    assert_eq!(get_base_parlay_multiplier(1), PARLAY_MULTIPLIER_1_MATCH);
    assert_eq!(get_base_parlay_multiplier(2), PARLAY_MULTIPLIER_2_MATCHES);
    assert_eq!(get_base_parlay_multiplier(10), PARLAY_MULTIPLIER_10_MATCHES);
}

#[test]
fn test_count_based_multiplier() {
    assert_eq!(get_parlay_multiplier_by_count(0), COUNT_MULT_TIER_1);
    assert_eq!(get_parlay_multiplier_by_count(9), COUNT_MULT_TIER_1);
    assert_eq!(get_parlay_multiplier_by_count(10), COUNT_MULT_TIER_2);
    assert_eq!(get_parlay_multiplier_by_count(50), COUNT_MULT_TIER_5);
}

fn make_round(pools: [MatchPool; 10], odds: [(u64, u64, u64); 10]) -> RoundAccounting {
    let mut locked = [LockedOdds { home_odds: 0, away_odds: 0, draw_odds: 0, locked: false }; 10];
    for i in 0..10 {
        locked[i] = LockedOdds {
            home_odds: odds[i].0,
            away_odds: odds[i].1,
            draw_odds: odds[i].2,
            locked: true,
        };
    }
    RoundAccounting {
        round_id: 1,
        match_pools: pools,
        locked_odds: locked,
        match_results: [MatchOutcome::Pending; 10],
        total_bet_volume: 0,
        total_winning_pool: 0,
        total_losing_pool: 0,
        total_reserved_for_winners: 0,
        total_claimed: 0,
        total_paid_out: 0,
        protocol_fee_collected: 0,
        protocol_revenue_share: 0,
        season_revenue_share: 0,
        revenue_distributed: false,
        protocol_seed_amount: 0,
        seeded: true,
        total_user_deposits: 0,
        parlay_count: 0,
        round_start_time: 0,
        round_end_time: 0,
        settled: false,
    }
}

fn balanced_pools() -> [MatchPool; 10] {
    [MatchPool {
        home_win_pool: 1_000_000_000_000,
        away_win_pool: 1_000_000_000_000,
        draw_pool: 1_000_000_000_000,
        total_pool: 3_000_000_000_000,
    }; 10]
}

fn imbalanced_pools() -> [MatchPool; 10] {
    // One dominant pool: imbalance 2.4e12 / 3e12 = 8000 bps.
    [MatchPool {
        home_win_pool: 2_400_000_000_000,
        away_win_pool: 300_000_000_000,
        draw_pool: 300_000_000_000,
        total_pool: 3_000_000_000_000,
    }; 10]
}

#[test]
fn test_single_bet_multiplier_is_scale() {
    let round = make_round(balanced_pools(), [(1_500_000_000, 1_500_000_000, 1_500_000_000); 10]);
    let m = calculate_parlay_multiplier_dynamic(&round, &vec![0u8], 1);
    assert_eq!(m, ODDS_SCALE);
}

#[test]
fn test_balanced_pools_collapse_to_minimum_multiplier() {
    let round = make_round(balanced_pools(), [(1_500_000_000, 1_500_000_000, 1_500_000_000); 10]);
    let m = calculate_parlay_multiplier_dynamic(&round, &vec![0u8, 1u8, 2u8], 3);
    assert_eq!(m, MIN_PARLAY_MULTIPLIER);
}

#[test]
fn test_imbalanced_pools_keep_base_multiplier() {
    let round = make_round(imbalanced_pools(), [(1_500_000_000, 1_500_000_000, 1_500_000_000); 10]);
    // Five legs, average imbalance 8000 bps >= 4000: base multiplier 1.16x.
    let m = calculate_parlay_multiplier_dynamic(&round, &vec![0u8, 1, 2, 3, 4], 5);
    assert_eq!(m, 1_160_000_000);
    // Two legs: base 1.05x falls below the floor, so the floor applies.
    let m2 = calculate_parlay_multiplier_dynamic(&round, &vec![0u8, 1], 2);
    assert_eq!(m2, MIN_PARLAY_MULTIPLIER);
}

#[test]
fn test_reserve_decay_factor_is_full() {
    assert_eq!(get_reserve_decay_factor(0), 10000);
    assert_eq!(get_reserve_decay_factor(500_000_000_000_000), 10000);
}

#[test]
fn test_max_payout_cap() {
    // 10 legs at the maximum stake saturate well past the per-bet cap.
    let capped = calculate_max_payout(10_000_000_000_000, 10, 1_250_000_000);
    assert_eq!(capped, MAX_PAYOUT_PER_BET);
    // A small single bet stays below the cap: 1e9 * 2 * 1.0 = 2e9.
    let small = calculate_max_payout(1_000_000_000, 1, ODDS_SCALE);
    assert_eq!(small, 2_000_000_000);
}

#[test]
fn test_allocations_follow_user_example() {
    // Three legs at 1.75x / 1.5x / 1.3x on a 100-token stake with a 1.1x
    // multiplier, run through the library allocator itself.
    let mut odds = [(1_500_000_000u64, 1_500_000_000u64, 1_500_000_000u64); 10];
    odds[0] = (1_750_000_000, 1_500_000_000, 1_300_000_000);
    odds[1] = (1_500_000_000, 1_500_000_000, 1_300_000_000);
    odds[2] = (1_300_000_000, 1_500_000_000, 1_300_000_000);
    let round = make_round(balanced_pools(), odds);
    let (allocations, total_allocated, lp_borrowed) = calculate_odds_weighted_allocations(
        &round,
        &vec![0u8, 1, 2],
        &vec![1u8, 1, 1],
        100_000_000_000,
        1_100_000_000,
    )
    .unwrap();
    assert_eq!(allocations.len(), 3);
    assert!((allocations[0] as i64 - 71_500_000_000i64).abs() < 1_000_000);
    assert!((allocations[1] as i64 - 83_416_666_667i64).abs() < 1_000_000);
    assert!((allocations[2] as i64 - 96_250_000_000i64).abs() < 1_000_000);
    assert_eq!(total_allocated, 251_166_666_666);
    assert_eq!(lp_borrowed, 151_166_666_666);
    // Each leg contributes (nearly) the same per-leg share.
    let per_leg = 125_125_000_000u64;
    for (i, &odd) in [1_750_000_000u64, 1_500_000_000, 1_300_000_000].iter().enumerate() {
        let contribution = ((allocations[i] as u128) * (odd as u128) / 1_000_000_000u128) as u64;
        assert!(per_leg - contribution <= 3, "leg {} contribution {}", i, contribution);
    }
}

#[test]
fn test_allocations_unlocked_odds_rejected() {
    let mut round = make_round(balanced_pools(), [(1_500_000_000, 1_500_000_000, 1_500_000_000);
        10]);
    round.locked_odds[4].locked = false;
    let r = calculate_odds_weighted_allocations(
        &round,
        &vec![4u8],
        &vec![1u8],
        1_000_000_000,
        1_000_000_000,
    );
    assert_eq!(r.unwrap_err(), sportsbook::errors::SportsbookError::OddsNotLocked);
}
