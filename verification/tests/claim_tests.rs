use sportsbook::bet::calculate_bet_payout;
use sportsbook::bet::Bet;
use sportsbook::bet::Prediction;
use sportsbook::constants::BPS_DENOMINATOR;
use sportsbook::constants::MAX_BET_AMOUNT;
use sportsbook::constants::MAX_PAYOUT_PER_BET;
use sportsbook::constants::ODDS_SCALE;
use sportsbook::constants::PARLAY_MULTIPLIER_1_MATCH;
use sportsbook::match_pool::LockedOdds;
use sportsbook::match_pool::MatchOutcome;
use sportsbook::match_pool::MatchPool;
use sportsbook::round::RoundAccounting;

const SCALE: u64 = ODDS_SCALE;

fn make_prediction(match_index: u8, outcome: u8, amount: u64) -> Prediction {
    Prediction { match_index, predicted_outcome: outcome, amount_in_pool: amount }
}

/// Build a Bet with num_predictions slots filled from the slice.
fn make_bet(preds: &[Prediction], multiplier: u64) -> Bet {
    let mut arr = [Prediction { match_index: 0, predicted_outcome: 0, amount_in_pool: 0 }; 10];
    for (i, p) in preds.iter().enumerate() {
        arr[i] = *p;
    }
    Bet {
        bettor: 0,
        round_id: 0,
        bet_id: 0,
        amount: 0,
        amount_after_fee: 0,
        allocated_amount: 0,
        bonus: 0,
        locked_multiplier: multiplier,
        num_predictions: preds.len() as u8,
        predictions: arr,
        settled: false,
        claimed: false,
        claim_deadline: 0,
        bounty_claimer: None,
    }
}

/// Build a RoundAccounting with per-match results and locked odds.
/// results: length-10 array of MatchOutcome; odds: (home, away, draw) per match.
fn make_round(results: [MatchOutcome; 10], odds: [(u64, u64, u64); 10]) -> RoundAccounting {
    let mut locked = [LockedOdds { home_odds: 0, away_odds: 0, draw_odds: 0, locked: false }; 10];
    for i in 0..10 {
        locked[i] = LockedOdds {
            home_odds: odds[i].0,
            away_odds: odds[i].1,
            draw_odds: odds[i].2,
            locked: true,
        };
    }
    RoundAccounting {
        round_id: 1,
        match_pools: [MatchPool { home_win_pool: 0, away_win_pool: 0, draw_pool: 0, total_pool: 0 };
            10],
        locked_odds: locked,
        match_results: results,
        total_bet_volume: 0,
        total_winning_pool: 0,
        total_losing_pool: 0,
        total_reserved_for_winners: 0,
        total_claimed: 0,
        total_paid_out: 0,
        protocol_fee_collected: 0,
        protocol_revenue_share: 0,
        season_revenue_share: 0,
        revenue_distributed: false,
        protocol_seed_amount: 0,
        seeded: true,
        total_user_deposits: 0,
        parlay_count: 0,
        round_start_time: 0,
        round_end_time: 0,
        settled: true,
    }
}

fn default_results() -> [MatchOutcome; 10] {
    [MatchOutcome::Pending; 10]
}

fn default_odds(home: u64, away: u64, draw: u64) -> [(u64, u64, u64); 10] {
    [(home, away, draw); 10]
}

#[test]
fn test_single_bet_home_win_correct() {
    // Odds: home = 1.5x, stake = 1000 tokens
    let odds = default_odds(1_500_000_000, 2_000_000_000, 1_800_000_000);
    let mut results = default_results();
    results[0] = MatchOutcome::HomeWin;

    let round = make_round(results, odds);
    let bet = make_bet(&[make_prediction(0, 1, 1_000_000_000)], SCALE); // 1x parlay

    let (won, base_payout, final_payout) = calculate_bet_payout(&bet, &round).unwrap();

    assert!(won, "Should have won");
    // payout = stake x odds = 1e9 x 1.5e9 / 1e9 = 1.5e9
    assert_eq!(base_payout, 1_500_000_000);
    assert_eq!(final_payout, 1_500_000_000); // 1x multiplier
}

#[test]
fn test_single_bet_away_win_correct() {
    let odds = default_odds(1_400_000_000, 2_200_000_000, 1_700_000_000);
    let mut results = default_results();
    results[3] = MatchOutcome::AwayWin;

    let round = make_round(results, odds);
    let bet = make_bet(&[make_prediction(3, 2, 500_000_000)], SCALE);

    let (won, _, final_payout) = calculate_bet_payout(&bet, &round).unwrap();
    assert!(won);
    // payout = 5e8 x 2.2e9 / 1e9 = 1.1e9
    assert_eq!(final_payout, 1_100_000_000);
}

#[test]
fn test_single_bet_draw_correct() {
    let odds = default_odds(1_300_000_000, 1_900_000_000, 1_700_000_000);
    let mut results = default_results();
    results[7] = MatchOutcome::Draw;

    let round = make_round(results, odds);
    let bet = make_bet(&[make_prediction(7, 3, 1_000_000_000)], SCALE);

    let (won, _, final_payout) = calculate_bet_payout(&bet, &round).unwrap();
    assert!(won);
    assert_eq!(final_payout, 1_700_000_000); // 1.7x
}

#[test]
fn test_single_bet_home_win_wrong_outcome() {
    let odds = default_odds(1_500_000_000, 2_000_000_000, 1_800_000_000);
    let mut results = default_results();
    results[0] = MatchOutcome::AwayWin; // result differs from prediction

    let round = make_round(results, odds);
    let bet = make_bet(&[make_prediction(0, 1, 1_000_000_000)], SCALE); // predicted HOME

    let (won, base, final_p) = calculate_bet_payout(&bet, &round).unwrap();
    assert!(!won, "Should have lost");
    assert_eq!(base, 0);
    assert_eq!(final_p, 0);
}

#[test]
fn test_single_bet_draw_but_home_won() {
    let odds = default_odds(1_200_000_000, 2_200_000_000, 1_600_000_000);
    let mut results = default_results();
    results[2] = MatchOutcome::HomeWin;

    let round = make_round(results, odds);
    let bet = make_bet(&[make_prediction(2, 3, 800_000_000)], SCALE); // predicted DRAW

    let (won, _, _) = calculate_bet_payout(&bet, &round).unwrap();
    assert!(!won);
}

#[test]
fn test_parlay_2_match_both_correct() {
    // Match 0 -> HomeWin 1.5x, Match 1 -> AwayWin 2.0x
    // Stake split: 600 on match-0, 400 on match-1
    // Base = 600x1.5 + 400x2.0 = 900 + 800 = 1700
    // Parlay mult = 1.05x -> final = 1700 x 1.05 = 1785
    let odds = default_odds(1_500_000_000, 2_000_000_000, 1_800_000_000);
    let mut results = default_results();
    results[0] = MatchOutcome::HomeWin;
    results[1] = MatchOutcome::AwayWin;

    let round = make_round(results, odds);
    let parlay_mult = 1_050_000_000u64; // 1.05x
    let bet = make_bet(
        &[make_prediction(0, 1, 600_000_000), make_prediction(1, 2, 400_000_000)],
        parlay_mult,
    );

    let (won, base, final_p) = calculate_bet_payout(&bet, &round).unwrap();
    assert!(won, "Both correct - should win");
    assert_eq!(base, 1_700_000_000, "base={}", base);
    // final = 1.7e9 x 1.05e9 / 1e9 = 1.785e9
    assert_eq!(final_p, 1_785_000_000, "final={}", final_p);
}

#[test]
fn test_parlay_2_match_first_wrong_loses() {
    let odds = default_odds(1_500_000_000, 2_000_000_000, 1_800_000_000);
    let mut results = default_results();
    results[0] = MatchOutcome::Draw; // prediction was HomeWin <- WRONG
    results[1] = MatchOutcome::AwayWin; // correct

    let round = make_round(results, odds);
    let bet = make_bet(
        &[
            make_prediction(0, 1, 600_000_000), // wrong
            make_prediction(1, 2, 400_000_000), // correct
        ],
        1_050_000_000,
    );

    let (won, _, _) = calculate_bet_payout(&bet, &round).unwrap();
    assert!(!won, "One wrong leg -> entire parlay loses");
}

#[test]
fn test_parlay_2_match_second_wrong_loses() {
    let odds = default_odds(1_500_000_000, 2_000_000_000, 1_800_000_000);
    let mut results = default_results();
    results[0] = MatchOutcome::HomeWin; // correct
    results[1] = MatchOutcome::Draw; // prediction was AwayWin <- WRONG

    let round = make_round(results, odds);
    let bet = make_bet(
        &[
            make_prediction(0, 1, 600_000_000), // correct
            make_prediction(1, 2, 400_000_000), // wrong
        ],
        1_050_000_000,
    );

    let (won, _, _) = calculate_bet_payout(&bet, &round).unwrap();
    assert!(!won, "Second wrong leg -> entire parlay loses");
}

#[test]
fn test_parlay_10_match_all_correct() {
    // All 10 matches, each 100 tokens, 1.5x home odds
    // Base = 10 x 100 x 1.5 = 1500 tokens (in raw units: 1.5e12)
    // Parlay mult = 1.25x -> final = 1500 x 1.25 = 1875
    let odds = default_odds(1_500_000_000, 2_000_000_000, 1_800_000_000);
    let results = [MatchOutcome::HomeWin; 10];
    let round = make_round(results, odds);

    let preds: Vec<_> = (0..10).map(|i| make_prediction(i as u8, 1, 100_000_000)).collect();

    let bet = make_bet(&preds, 1_250_000_000); // 1.25x for 10-match parlay

    let (won, base, final_p) = calculate_bet_payout(&bet, &round).unwrap();
    assert!(won);
    assert_eq!(base, 1_500_000_000); // 10 x 100m x 1.5
    assert_eq!(final_p, 1_875_000_000); // base x 1.25
}

#[test]
fn test_parlay_10_match_one_wrong_loses() {
    let odds = default_odds(1_500_000_000, 2_000_000_000, 1_800_000_000);
    let mut results = [MatchOutcome::HomeWin; 10];
    results[5] = MatchOutcome::AwayWin; // mismatch at match 5

    let round = make_round(results, odds);
    let preds: Vec<_> = (0..10).map(|i| make_prediction(i as u8, 1, 100_000_000)).collect();
    let bet = make_bet(&preds, 1_250_000_000);

    let (won, _, _) = calculate_bet_payout(&bet, &round).unwrap();
    assert!(!won, "One wrong in 10-leg parlay -> full loss");
}

#[test]
fn test_payout_with_min_odds_1_2x() {
    // 1.2x odds (near floor) - smallest valid payout
    let odds = default_odds(1_200_000_000, 1_200_000_000, 1_200_000_000);
    let mut results = default_results();
    results[0] = MatchOutcome::HomeWin;

    let round = make_round(results, odds);
    let bet = make_bet(&[make_prediction(0, 1, 1_000_000_000)], SCALE);

    let (won, _, final_p) = calculate_bet_payout(&bet, &round).unwrap();
    assert!(won);
    assert_eq!(final_p, 1_200_000_000); // exactly 1.2x
}

#[test]
fn test_payout_with_max_odds_2_2x() {
    // 2.2x odds (ceiling) - largest valid single payout
    let odds = default_odds(2_200_000_000, 2_200_000_000, 2_200_000_000);
    let mut results = default_results();
    results[0] = MatchOutcome::AwayWin;

    let round = make_round(results, odds);
    let bet = make_bet(&[make_prediction(0, 2, 1_000_000_000)], SCALE);

    let (won, _, final_p) = calculate_bet_payout(&bet, &round).unwrap();
    assert!(won);
    assert_eq!(final_p, 2_200_000_000); // exactly 2.2x
}

#[test]
fn test_team_token_boost_increases_multiplier() {
    // Base parlay multiplier: 1.0x (single bet)
    let base = PARLAY_MULTIPLIER_1_MATCH; // 1.0 x SCALE
    // 5% boost
    let team_token_odds_boost_bps: u64 = 500;
    let boost = (base as u128 * team_token_odds_boost_bps as u128 / BPS_DENOMINATOR as u128) as u64;
    let boosted = base + boost;

    // boosted should be 1.05x
    assert_eq!(boosted, 1_050_000_000, "5% boost on 1.0x = 1.05x");

    let odds = default_odds(1_500_000_000, 2_000_000_000, 1_800_000_000);
    let mut results = default_results();
    results[0] = MatchOutcome::HomeWin;
    let round = make_round(results, odds);

    // Without boost
    let bet_no_boost = make_bet(&[make_prediction(0, 1, 1_000_000_000)], base);
    let (_, _, p_no_boost) = calculate_bet_payout(&bet_no_boost, &round).unwrap();

    // With boost
    let bet_boosted = make_bet(&[make_prediction(0, 1, 1_000_000_000)], boosted);
    let (_, _, p_boosted) = calculate_bet_payout(&bet_boosted, &round).unwrap();

    assert!(
        p_boosted > p_no_boost,
        "Boosted payout ({}) should exceed normal ({})",
        p_boosted,
        p_no_boost
    );
}

#[test]
fn test_max_payout_cap_applied() {
    // 10-leg parlay with MAX_BET_AMOUNT per leg at 2.2x odds, 1.25x parlay mult:
    // raw = 10 x MAX_BET_AMOUNT x 2.2 x 1.25 = 275_000_000_000_000 > MAX_PAYOUT_PER_BET
    let odds = default_odds(2_200_000_000, 2_200_000_000, 2_200_000_000);
    let results = [MatchOutcome::HomeWin; 10];
    let round = make_round(results, odds);

    let preds: Vec<_> = (0..10).map(|i| make_prediction(i as u8, 1, MAX_BET_AMOUNT)).collect();
    let bet = make_bet(&preds, 1_250_000_000); // 1.25x for 10-match parlay

    let (won, _, final_p) = calculate_bet_payout(&bet, &round).unwrap();
    assert!(won);
    // raw payout = 10 x 10_000 tokens x 2.2 x 1.25 = 275_000 tokens
    // MAX_PAYOUT_PER_BET = 100_000 tokens - cap should be applied
    assert_eq!(final_p, MAX_PAYOUT_PER_BET, "Payout must be capped at MAX_PAYOUT_PER_BET");
}
