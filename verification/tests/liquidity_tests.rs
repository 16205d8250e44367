use sportsbook::errors::SportsbookError;
use sportsbook::match_pool::MatchPool;
use sportsbook::odds::calculate_market_odds;
use sportsbook::odds::calculate_pool_imbalance;
use sportsbook::liquidity::add_liquidity;
use sportsbook::liquidity::remove_liquidity;
use sportsbook::liquidity::LiquidityPool;
use sportsbook::liquidity::LpPosition;
use sportsbook::season::claim_season_reward;
use sportsbook::season::end_season;
use sportsbook::season::make_season_prediction;
use sportsbook::season::start_new_season;

fn fresh_position() -> LpPosition {
    LpPosition { owner: 0, liquidity_pool: 1, shares: 0 }
}

#[test]
fn test_first_depositor_gets_one_to_one_shares() {
    let mut lp = LiquidityPool::new();
    let mut pos = fresh_position();
    let shares = add_liquidity(&mut lp, &mut pos, 7, 1, 1_000_000_000).unwrap();
    assert_eq!(shares, 1_000_000_000);
    assert_eq!(lp.total_liquidity, 1_000_000_000);
    assert_eq!(lp.total_shares, 1_000_000_000);
    assert_eq!(lp.available_liquidity, 1_000_000_000);
    assert_eq!(pos.owner, 7);
    assert_eq!(pos.shares, 1_000_000_000);
}

#[test]
fn test_later_deposits_get_proportional_shares() {
    let mut lp = LiquidityPool::new();
    let mut pos = fresh_position();
    add_liquidity(&mut lp, &mut pos, 7, 1, 1_000_000_000).unwrap();
    // Simulate profit: the pool now holds more tokens than shares.
    lp.total_liquidity = 2_000_000_000;
    lp.available_liquidity = 2_000_000_000;
    let mut pos2 = fresh_position();
    let shares = add_liquidity(&mut lp, &mut pos2, 8, 1, 1_000_000_000).unwrap();
    // 1e9 * 1e9 / 2e9 = 0.5e9 shares for the same deposit.
    assert_eq!(shares, 500_000_000);
    assert_eq!(lp.total_shares, 1_500_000_000);
}

#[test]
fn test_withdrawal_returns_proportional_amount() {
    let mut lp = LiquidityPool::new();
    let mut pos = fresh_position();
    add_liquidity(&mut lp, &mut pos, 7, 1, 3_000_000_000).unwrap();
    let amount = remove_liquidity(&mut lp, &mut pos, 1_000_000_000).unwrap();
    assert_eq!(amount, 1_000_000_000);
    assert_eq!(lp.total_liquidity, 2_000_000_000);
    assert_eq!(lp.total_shares, 2_000_000_000);
    assert_eq!(pos.shares, 2_000_000_000);
}

#[test]
fn test_withdrawal_more_than_position_rejected() {
    let mut lp = LiquidityPool::new();
    let mut pos = fresh_position();
    add_liquidity(&mut lp, &mut pos, 7, 1, 1_000_000_000).unwrap();
    let e = remove_liquidity(&mut lp, &mut pos, 2_000_000_000).unwrap_err();
    assert_eq!(e, SportsbookError::InvalidAmount);
}

#[test]
fn test_withdrawal_beyond_available_rejected() {
    let mut lp = LiquidityPool::new();
    let mut pos = fresh_position();
    add_liquidity(&mut lp, &mut pos, 7, 1, 1_000_000_000).unwrap();
    lp.lock_reserve(800_000_000);
    assert_eq!(lp.available_liquidity, 200_000_000);
    let e = remove_liquidity(&mut lp, &mut pos, 1_000_000_000).unwrap_err();
    assert_eq!(e, SportsbookError::InsufficientAvailableLiquidity);
    lp.release_reserve(800_000_000);
    assert_eq!(lp.available_liquidity, 1_000_000_000);
    assert_eq!(remove_liquidity(&mut lp, &mut pos, 1_000_000_000).unwrap(), 1_000_000_000);
}

#[test]
fn test_share_calculations() {
    let mut lp = LiquidityPool::new();
    assert_eq!(lp.calculate_shares(500), 500);
    assert_eq!(lp.calculate_withdrawal(500), 0);
    lp.total_liquidity = 4_000_000_000;
    lp.total_shares = 2_000_000_000;
    lp.available_liquidity = 4_000_000_000;
    assert_eq!(lp.calculate_shares(1_000_000_000), 500_000_000);
    assert_eq!(lp.calculate_withdrawal(500_000_000), 1_000_000_000);
    assert!(lp.can_cover_payout(4_000_000_000));
    assert!(!lp.can_cover_payout(4_000_000_001));
}

#[test]
fn test_zero_deposit_rejected() {
    let mut lp = LiquidityPool::new();
    let mut pos = fresh_position();
    let e = add_liquidity(&mut lp, &mut pos, 7, 1, 0).unwrap_err();
    assert_eq!(e, SportsbookError::InvalidAmount);
}

#[test]
fn test_season_prediction_lifecycle() {
    let mut pool = sportsbook::betting_pool::initialize(1, 2, 3, 4, 500, 2500, 200);
    pool.season_reward_pool = 9_000_000_000;

    let e = make_season_prediction(&pool, 7, 10, 55, 100).unwrap_err();
    assert_eq!(e, SportsbookError::InvalidMatchIndex);

    let mut prediction = make_season_prediction(&pool, 7, 3, 55, 100).unwrap();
    assert_eq!(prediction.predicted_team, 3);
    assert!(!prediction.claimed_reward);

    // Season still running: no claims yet.
    let e = claim_season_reward(&mut pool, &mut prediction, 7, 3).unwrap_err();
    assert_eq!(e, SportsbookError::RoundNotSettled);

    // Only the authority ends the season.
    let e = end_season(&mut pool, 2, 3).unwrap_err();
    assert_eq!(e, SportsbookError::InvalidAuthority);
    end_season(&mut pool, 1, 3).unwrap();
    assert!(pool.season_ended);

    // No predictions once the season has ended.
    let e = make_season_prediction(&pool, 8, 2, 56, 200).unwrap_err();
    assert_eq!(e, SportsbookError::RoundAlreadySettled);

    // Three correct predictors split the 9-token pool equally.
    let share = claim_season_reward(&mut pool, &mut prediction, 7, 3).unwrap();
    assert_eq!(share, 3_000_000_000);
    assert_eq!(pool.season_reward_pool, 6_000_000_000);
    assert!(prediction.claimed_reward);

    // A second claim of the same prediction is rejected.
    let e = claim_season_reward(&mut pool, &mut prediction, 7, 3).unwrap_err();
    assert_eq!(e, SportsbookError::BetAlreadyClaimed);

    // A wrong prediction cannot claim.
    let mut wrong = make_season_prediction(
        &sportsbook::betting_pool::initialize(1, 2, 3, 4, 500, 2500, 200),
        9,
        5,
        57,
        300,
    )
    .unwrap();
    let e = claim_season_reward(&mut pool, &mut wrong, 9, 3).unwrap_err();
    assert_eq!(e, SportsbookError::NotBettor);

    // Start the next season.
    start_new_season(&mut pool, 1).unwrap();
    assert_eq!(pool.current_season_id, 1);
    assert!(!pool.season_ended);
    // And only after the season has ended again.
    let e = start_new_season(&mut pool, 1).unwrap_err();
    assert_eq!(e, SportsbookError::RoundNotSettled);
}

#[test]
fn test_market_odds_and_imbalance() {
    let empty = MatchPool { home_win_pool: 0, away_win_pool: 0, draw_pool: 0, total_pool: 0 };
    assert_eq!(calculate_pool_imbalance(&empty), 0);
    assert_eq!(calculate_market_odds(&empty, 1), 3_000_000_000);

    let skewed = MatchPool {
        home_win_pool: 2_400_000_000_000,
        away_win_pool: 300_000_000_000,
        draw_pool: 300_000_000_000,
        total_pool: 3_000_000_000_000,
    };
    assert_eq!(calculate_pool_imbalance(&skewed), 8000);
    // With the huge virtual liquidity the market odds sit near 3.0x.
    let m = calculate_market_odds(&skewed, 2);
    assert!(m > 2_900_000_000 && m < 3_100_000_000, "market odds {}", m);
}

#[test]
fn test_pool_accumulation() {
    let mut p = MatchPool { home_win_pool: 0, away_win_pool: 0, draw_pool: 0, total_pool: 0 };
    p.add_to_pool(1, 100).unwrap();
    p.add_to_pool(2, 50).unwrap();
    p.add_to_pool(3, 25).unwrap();
    p.add_to_pool(1, 100).unwrap();
    assert_eq!(p.home_win_pool, 200);
    assert_eq!(p.away_win_pool, 50);
    assert_eq!(p.draw_pool, 25);
    assert_eq!(p.total_pool, 275);
    assert_eq!(p.get_pool_amount(1), 200);
    assert_eq!(p.get_pool_amount(4), 0);
    let e = p.add_to_pool(0, 10).unwrap_err();
    assert_eq!(e, SportsbookError::InvalidOutcome);
    let e = p.add_to_pool(1, u64::MAX).unwrap_err();
    assert_eq!(e, SportsbookError::CalculationOverflow);
}
