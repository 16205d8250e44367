use sportsbook::bet::claim_winnings;
use sportsbook::bet::place_bet;
use sportsbook::bet::Bet;
use sportsbook::bet::Prediction;
use sportsbook::betting_pool::initialize;
use sportsbook::constants::MAX_PAYOUT_PER_BET;
use sportsbook::constants::MAX_ROUND_PAYOUTS;
use sportsbook::errors::SportsbookError;
use sportsbook::liquidity::LiquidityPool;
use sportsbook::liquidity::LpPosition;
use sportsbook::match_pool::LockedOdds;
use sportsbook::match_pool::MatchOutcome;
use sportsbook::match_pool::MatchPool;
use sportsbook::round::finalize_round_revenue;
use sportsbook::round::initialize_round;
use sportsbook::round::seed_round_pools;
use sportsbook::round::settle_round;
use sportsbook::round::RoundAccounting;

fn make_round(results: [MatchOutcome; 10], odds: [(u64, u64, u64); 10]) -> RoundAccounting {
    let mut locked = [LockedOdds { home_odds: 0, away_odds: 0, draw_odds: 0, locked: false }; 10];
    for i in 0..10 {
        locked[i] = LockedOdds {
            home_odds: odds[i].0,
            away_odds: odds[i].1,
            draw_odds: odds[i].2,
            locked: true,
        };
    }
    RoundAccounting {
        round_id: 1,
        match_pools: [MatchPool { home_win_pool: 0, away_win_pool: 0, draw_pool: 0, total_pool: 0 };
            10],
        locked_odds: locked,
        match_results: results,
        total_bet_volume: 0,
        total_winning_pool: 0,
        total_losing_pool: 0,
        total_reserved_for_winners: 0,
        total_claimed: 0,
        total_paid_out: 0,
        protocol_fee_collected: 0,
        protocol_revenue_share: 0,
        season_revenue_share: 0,
        revenue_distributed: false,
        protocol_seed_amount: 0,
        seeded: true,
        total_user_deposits: 0,
        parlay_count: 0,
        round_start_time: 0,
        round_end_time: 0,
        settled: true,
    }
}

fn make_bet_for(bettor: u64, preds: &[Prediction], multiplier: u64) -> Bet {
    let mut arr = [Prediction { match_index: 0, predicted_outcome: 0, amount_in_pool: 0 }; 10];
    for (i, p) in preds.iter().enumerate() {
        arr[i] = *p;
    }
    Bet {
        bettor,
        round_id: 1,
        bet_id: 1,
        amount: 0,
        amount_after_fee: 0,
        allocated_amount: 0,
        bonus: 0,
        locked_multiplier: multiplier,
        num_predictions: preds.len() as u8,
        predictions: arr,
        settled: false,
        claimed: false,
        claim_deadline: 0,
        bounty_claimer: None,
    }
}

/// Single bet on a home win at 1.5x odds, claimed by the bettor within
/// the window: pays exactly 1.5 tokens on a 1-token allocation.
#[test]
fn test_single_bet_claim_pays_odds() {
    let mut results = [MatchOutcome::Pending; 10];
    results[0] = MatchOutcome::HomeWin;
    let mut round = make_round(results, [(1_500_000_000, 2_000_000_000, 1_800_000_000); 10]);
    round.round_end_time = 1_000_000;
    let mut bet = make_bet_for(
        42,
        &[Prediction { match_index: 0, predicted_outcome: 1, amount_in_pool: 1_000_000_000 }],
        1_000_000_000,
    );

    let out = claim_winnings(&mut round, &mut bet, 42, 0, 1_000_000 + 100, u64::MAX).unwrap();
    assert!(out.won);
    assert_eq!(out.final_payout, 1_500_000_000);
    assert_eq!(out.bettor_amount, 1_500_000_000);
    assert_eq!(out.bounty_amount, 0);
    assert!(!out.is_bounty);
    assert!(bet.claimed && bet.settled);
    assert_eq!(round.total_paid_out, 1_500_000_000);
    assert_eq!(bet.claim_deadline, 1_000_000 + 86400);
}

/// A parlay with one wrong leg loses: the claim succeeds with zero
/// payout and the bet is marked settled and claimed.
#[test]
fn test_losing_parlay_claim_transfers_nothing() {
    let mut results = [MatchOutcome::Pending; 10];
    results[0] = MatchOutcome::HomeWin;
    results[1] = MatchOutcome::Draw; // predicted away
    let mut round = make_round(results, [(1_500_000_000, 2_000_000_000, 1_800_000_000); 10]);
    round.round_end_time = 1_000_000;
    let mut bet = make_bet_for(
        42,
        &[
            Prediction { match_index: 0, predicted_outcome: 1, amount_in_pool: 600_000_000 },
            Prediction { match_index: 1, predicted_outcome: 2, amount_in_pool: 400_000_000 },
        ],
        1_050_000_000,
    );

    let out = claim_winnings(&mut round, &mut bet, 42, 0, 1_000_000 + 100, u64::MAX).unwrap();
    assert!(!out.won);
    assert_eq!(out.final_payout, 0);
    assert_eq!(out.bettor_amount, 0);
    assert_eq!(out.bounty_amount, 0);
    assert!(bet.claimed && bet.settled);
    assert_eq!(round.total_paid_out, 0);
}

/// Bounty claim after the 24-hour window: a winning 10-token payout is
/// split 90/10 between the bettor and the third-party claimer.
#[test]
fn test_bounty_claim_splits_payout() {
    let mut results = [MatchOutcome::Pending; 10];
    results[0] = MatchOutcome::AwayWin;
    let mut round = make_round(results, [(1_500_000_000, 2_000_000_000, 1_800_000_000); 10]);
    let t0: i64 = 5_000_000;
    round.round_end_time = t0;
    // 5 tokens at 2.0x -> final payout 10 tokens.
    let mut bet = make_bet_for(
        42,
        &[Prediction { match_index: 0, predicted_outcome: 2, amount_in_pool: 5_000_000_000 }],
        1_000_000_000,
    );

    let claimer: u64 = 99;
    let out = claim_winnings(&mut round, &mut bet, claimer, 0, t0 + 86401, u64::MAX).unwrap();
    assert!(out.won);
    assert!(out.is_bounty);
    assert_eq!(out.final_payout, 10_000_000_000);
    assert_eq!(out.bettor_amount, 9_000_000_000);
    assert_eq!(out.bounty_amount, 1_000_000_000);
    assert_eq!(bet.bounty_claimer, Some(claimer));
}

/// A second claim of the same bet fails with `BetAlreadyClaimed` and
/// changes nothing.
#[test]
fn test_second_claim_rejected() {
    let mut results = [MatchOutcome::Pending; 10];
    results[0] = MatchOutcome::HomeWin;
    let mut round = make_round(results, [(1_500_000_000, 2_000_000_000, 1_800_000_000); 10]);
    round.round_end_time = 1_000_000;
    let mut bet = make_bet_for(
        42,
        &[Prediction { match_index: 0, predicted_outcome: 1, amount_in_pool: 1_000_000_000 }],
        1_000_000_000,
    );

    claim_winnings(&mut round, &mut bet, 42, 0, 1_000_100, u64::MAX).unwrap();
    let paid = round.total_paid_out;
    let e = claim_winnings(&mut round, &mut bet, 42, 0, 1_000_200, u64::MAX).unwrap_err();
    assert_eq!(e, SportsbookError::BetAlreadyClaimed);
    assert_eq!(round.total_paid_out, paid);
}

/// Within the window only the bettor may claim.
#[test]
fn test_stranger_claim_within_window_rejected() {
    let mut results = [MatchOutcome::Pending; 10];
    results[0] = MatchOutcome::HomeWin;
    let mut round = make_round(results, [(1_500_000_000, 2_000_000_000, 1_800_000_000); 10]);
    round.round_end_time = 1_000_000;
    let mut bet = make_bet_for(
        42,
        &[Prediction { match_index: 0, predicted_outcome: 1, amount_in_pool: 1_000_000_000 }],
        1_000_000_000,
    );
    let e = claim_winnings(&mut round, &mut bet, 99, 0, 1_000_100, u64::MAX).unwrap_err();
    assert_eq!(e, SportsbookError::NotBettor);
    assert!(!bet.claimed);
}

/// Slippage protection: a claim below the minimum payout fails.
#[test]
fn test_claim_below_minimum_rejected() {
    let mut results = [MatchOutcome::Pending; 10];
    results[0] = MatchOutcome::HomeWin;
    let mut round = make_round(results, [(1_500_000_000, 2_000_000_000, 1_800_000_000); 10]);
    round.round_end_time = 1_000_000;
    let mut bet = make_bet_for(
        42,
        &[Prediction { match_index: 0, predicted_outcome: 1, amount_in_pool: 1_000_000_000 }],
        1_000_000_000,
    );
    let e = claim_winnings(&mut round, &mut bet, 42, 2_000_000_000, 1_000_100, u64::MAX)
        .unwrap_err();
    assert_eq!(e, SportsbookError::PayoutBelowMinimum);
}

/// The per-round payout cap holds for every claim.
#[test]
fn test_round_payout_cap_enforced() {
    let mut results = [MatchOutcome::Pending; 10];
    results[0] = MatchOutcome::HomeWin;
    let mut round = make_round(results, [(1_500_000_000, 2_000_000_000, 1_800_000_000); 10]);
    round.round_end_time = 1_000_000;
    round.total_paid_out = MAX_ROUND_PAYOUTS - 1_000_000_000;
    let mut bet = make_bet_for(
        42,
        &[Prediction { match_index: 0, predicted_outcome: 1, amount_in_pool: 1_000_000_000 }],
        1_000_000_000,
    );
    let e = claim_winnings(&mut round, &mut bet, 42, 0, 1_000_100, u64::MAX).unwrap_err();
    assert_eq!(e, SportsbookError::RoundPayoutLimitReached);
    assert_eq!(round.total_paid_out, MAX_ROUND_PAYOUTS - 1_000_000_000);
}

/// A claim against a treasury that cannot cover the payout fails.
#[test]
fn test_claim_insufficient_treasury_rejected() {
    let mut results = [MatchOutcome::Pending; 10];
    results[0] = MatchOutcome::HomeWin;
    let mut round = make_round(results, [(1_500_000_000, 2_000_000_000, 1_800_000_000); 10]);
    round.round_end_time = 1_000_000;
    let mut bet = make_bet_for(
        42,
        &[Prediction { match_index: 0, predicted_outcome: 1, amount_in_pool: 1_000_000_000 }],
        1_000_000_000,
    );
    let e = claim_winnings(&mut round, &mut bet, 42, 0, 1_000_100, 1_000_000).unwrap_err();
    assert_eq!(e, SportsbookError::InsufficientProtocolLiquidity);
}

/// Revenue finalisation: 1000 tokens of deposits, 50 of fees and 800 paid
/// out at a 2% season share give a 21-token season share and a 200-token
/// protocol revenue; a second call fails with `RevenueAlreadyDistributed`.
#[test]
fn test_revenue_finalisation_values() {
    let mut pool = initialize(1, 2, 3, 4, 500, 2500, 200);
    let mut round = make_round(
        [MatchOutcome::HomeWin; 10],
        [(1_500_000_000, 1_500_000_000, 1_500_000_000); 10],
    );
    let t0: i64 = 1_000_000;
    round.round_end_time = t0;
    round.total_user_deposits = 1_000_000_000_000;
    round.protocol_fee_collected = 50_000_000_000;
    round.total_paid_out = 800_000_000_000;

    let early = finalize_round_revenue(&mut pool, &mut round, t0 + 86400, u64::MAX);
    assert_eq!(early.unwrap_err(), SportsbookError::RevenueDistributedBeforeClaims);

    let (season_share, protocol_revenue) =
        finalize_round_revenue(&mut pool, &mut round, t0 + 90_000, u64::MAX).unwrap();
    assert_eq!(season_share, 21_000_000_000);
    assert_eq!(protocol_revenue, 200_000_000_000);
    assert!(round.revenue_distributed);
    assert_eq!(pool.season_reward_pool, 21_000_000_000);

    let e = finalize_round_revenue(&mut pool, &mut round, t0 + 95_000, u64::MAX).unwrap_err();
    assert_eq!(e, SportsbookError::RevenueAlreadyDistributed);
}

/// Full round lifecycle through the library: initialise, fund liquidity,
/// create and seed a round, place a bet, settle, claim, finalise.
#[test]
fn test_full_round_lifecycle() {
    let mut pool = initialize(1, 10, 11, 12, 500, 2500, 200);
    let mut lp = LiquidityPool::new();
    let mut position = LpPosition { owner: 0, liquidity_pool: 12, shares: 0 };
    sportsbook::liquidity::add_liquidity(&mut lp, &mut position, 7, 12, 500_000_000_000_000)
        .unwrap();

    let mut round = initialize_round(&mut pool, 1, 100).unwrap();
    assert_eq!(pool.next_round_id, 2);

    let total_seed = seed_round_pools(&mut round, &mut lp).unwrap();
    assert!(round.seeded);
    assert_eq!(round.protocol_seed_amount, total_seed);
    for i in 0..10 {
        assert!(round.locked_odds[i].locked);
        assert!(round.locked_odds[i].home_odds >= 1_200_000_000);
        assert!(round.locked_odds[i].home_odds <= 2_200_000_000);
    }

    // Seeding a second time is rejected.
    let e = seed_round_pools(&mut round, &mut lp).unwrap_err();
    assert_eq!(e, SportsbookError::RoundAlreadySeeded);

    // A two-leg parlay on matches 0 and 1.
    let (bet, fee, _borrowed) =
        place_bet(&mut pool, &mut round, &mut lp, 42, &vec![0u8, 1], &vec![1u8, 2], 1_000_000_000)
            .unwrap();
    assert_eq!(bet.bet_id, 1);
    assert_eq!(pool.next_bet_id, 2);
    assert_eq!(fee, 50_000_000); // 5% of 1 token
    assert_eq!(bet.amount_after_fee, 950_000_000);
    assert_eq!(bet.num_predictions, 2);
    assert_eq!(round.parlay_count, 1);
    assert_eq!(round.total_user_deposits, 950_000_000);

    // Settle with outcomes matching leg 0 and failing leg 1.
    let mut bet2 = bet;
    settle_round(&mut round, &vec![1u8, 1, 1, 1, 1, 1, 1, 1, 1, 1], 2_000).unwrap();
    assert!(round.settled);
    assert_eq!(round.round_end_time, 2_000);

    // The parlay predicted away at match 1, which came home: it lost.
    let out = claim_winnings(&mut round, &mut bet2, 42, 0, 2_100, u64::MAX).unwrap();
    assert!(!out.won);
    assert_eq!(round.total_paid_out, 0);

    // Settlement reserved exactly the winning pools times their odds.
    let mut expected_owed: u128 = 0;
    for i in 0..10 {
        expected_owed += (round.match_pools[i].home_win_pool as u128)
            * (round.locked_odds[i].home_odds as u128)
            / 1_000_000_000u128;
    }
    assert_eq!(round.total_reserved_for_winners as u128, expected_owed);

    // Finalise after the claim window and buffer.
    let (season_share, _protocol_revenue) =
        finalize_round_revenue(&mut pool, &mut round, 2_000 + 90_000, u64::MAX).unwrap();
    assert!(round.revenue_distributed);
    assert_eq!(pool.season_reward_pool, season_share);
}

/// Placement validation errors, each on its own input.
#[test]
fn test_place_bet_validation_errors() {
    let mut pool = initialize(1, 10, 11, 12, 500, 2500, 200);
    let mut lp = LiquidityPool::new();
    let mut position = LpPosition { owner: 0, liquidity_pool: 12, shares: 0 };
    sportsbook::liquidity::add_liquidity(&mut lp, &mut position, 7, 12, 500_000_000_000_000)
        .unwrap();
    let mut round = initialize_round(&mut pool, 1, 100).unwrap();

    // Not seeded yet.
    let e = place_bet(&mut pool, &mut round, &mut lp, 42, &vec![0u8], &vec![1u8], 1_000_000_000);
    assert_eq!(e.unwrap_err(), SportsbookError::RoundNotSeeded);

    seed_round_pools(&mut round, &mut lp).unwrap();

    let e = place_bet(&mut pool, &mut round, &mut lp, 42, &vec![0u8], &vec![1u8], 0);
    assert_eq!(e.unwrap_err(), SportsbookError::InvalidAmount);

    let e = place_bet(
        &mut pool,
        &mut round,
        &mut lp,
        42,
        &vec![0u8],
        &vec![1u8],
        10_000_000_000_001,
    );
    assert_eq!(e.unwrap_err(), SportsbookError::BetExceedsMaximum);

    let e = place_bet(&mut pool, &mut round, &mut lp, 42, &vec![0u8, 1], &vec![1u8], 1_000_000_000);
    assert_eq!(e.unwrap_err(), SportsbookError::ArrayLengthMismatch);

    let e = place_bet(&mut pool, &mut round, &mut lp, 42, &vec![], &vec![], 1_000_000_000);
    assert_eq!(e.unwrap_err(), SportsbookError::InvalidBetCount);

    let e = place_bet(&mut pool, &mut round, &mut lp, 42, &vec![10u8], &vec![1u8], 1_000_000_000);
    assert_eq!(e.unwrap_err(), SportsbookError::InvalidMatchIndex);

    let e = place_bet(&mut pool, &mut round, &mut lp, 42, &vec![0u8], &vec![4u8], 1_000_000_000);
    assert_eq!(e.unwrap_err(), SportsbookError::InvalidOutcome);

    // Drain the liquidity pool: the solvency gate rejects the bet.
    let burned = position.shares;
    sportsbook::liquidity::remove_liquidity(&mut lp, &mut position, burned).unwrap();
    let e = place_bet(&mut pool, &mut round, &mut lp, 42, &vec![0u8], &vec![1u8], 1_000_000_000);
    assert_eq!(e.unwrap_err(), SportsbookError::InsufficientProtocolLiquidity);

    // Settle, then placement is rejected outright.
    settle_round(&mut round, &vec![1u8; 10], 2_000).unwrap();
    let e = place_bet(&mut pool, &mut round, &mut lp, 42, &vec![0u8], &vec![1u8], 1_000_000_000);
    assert_eq!(e.unwrap_err(), SportsbookError::RoundAlreadySettled);
}

#[test]
fn test_initialize_round_sequential_ids() {
    let mut pool = initialize(1, 10, 11, 12, 500, 2500, 200);
    assert_eq!(pool.next_round_id, 1);
    let e = initialize_round(&mut pool, 2, 100);
    assert_eq!(e.unwrap_err(), SportsbookError::InvalidRoundId);
    let r1 = initialize_round(&mut pool, 1, 100).unwrap();
    assert_eq!(r1.round_id, 1);
    let r2 = initialize_round(&mut pool, 2, 200).unwrap();
    assert_eq!(r2.round_id, 2);
    assert_eq!(pool.next_round_id, 3);
}

#[test]
fn test_settle_round_validation() {
    let mut pool = initialize(1, 10, 11, 12, 500, 2500, 200);
    let mut lp = LiquidityPool::new();
    let mut position = LpPosition { owner: 0, liquidity_pool: 12, shares: 0 };
    sportsbook::liquidity::add_liquidity(&mut lp, &mut position, 7, 12, 500_000_000_000_000)
        .unwrap();
    let mut round = initialize_round(&mut pool, 1, 100).unwrap();

    let e = settle_round(&mut round, &vec![1u8; 10], 2_000).unwrap_err();
    assert_eq!(e, SportsbookError::RoundNotSeeded);

    seed_round_pools(&mut round, &mut lp).unwrap();

    let e = settle_round(&mut round, &vec![1u8; 9], 2_000).unwrap_err();
    assert_eq!(e, SportsbookError::InvalidBetCount);

    let mut bad = vec![1u8; 10];
    bad[4] = 0;
    let e = settle_round(&mut round, &bad, 2_000).unwrap_err();
    assert_eq!(e, SportsbookError::InvalidOutcome);

    settle_round(&mut round, &vec![3u8; 10], 2_000).unwrap();
    let e = settle_round(&mut round, &vec![3u8; 10], 2_500).unwrap_err();
    assert_eq!(e, SportsbookError::RoundAlreadySettled);
}

/// Claims never exceed the per-bet cap, even for an absurd allocation.
#[test]
fn test_claim_respects_per_bet_cap() {
    let mut results = [MatchOutcome::Pending; 10];
    results[0] = MatchOutcome::HomeWin;
    let mut round = make_round(results, [(2_200_000_000, 2_200_000_000, 2_200_000_000); 10]);
    round.round_end_time = 1_000_000;
    let mut bet = make_bet_for(
        42,
        &[Prediction {
            match_index: 0,
            predicted_outcome: 1,
            amount_in_pool: 100_000_000_000_000,
        }],
        1_250_000_000,
    );
    let out = claim_winnings(&mut round, &mut bet, 42, 0, 1_000_100, u64::MAX).unwrap();
    assert!(out.won);
    assert_eq!(out.final_payout, MAX_PAYOUT_PER_BET);
    assert!(out.bettor_amount + out.bounty_amount <= MAX_PAYOUT_PER_BET);
}
