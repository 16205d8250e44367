//! Season play: one prediction of the season winner per user, an equal
//! split of the season reward pool among correct predictors, and the
//! operator's season lifecycle.

use vstd::prelude::*;

use crate::betting_pool::BettingPool;
use crate::errors::SportsbookError;

verus! {

/// A user's prediction of the season's winning team.
#[derive(Clone, Copy, Debug)]
pub struct SeasonPrediction {
    /// Identity of the predicting user.
    pub user: u64,
    /// Season the prediction is for.
    pub season_id: u64,
    /// Predicted winning team, 0..=9.
    pub predicted_team: u8,
    /// Identity of the commemorative token minted for the prediction.
    pub nft_mint: u64,
    /// Whether the season reward was claimed.
    pub claimed_reward: bool,
    /// Timestamp of the prediction.
    pub predicted_at: i64,
}

/// Record a season prediction for the current season.
///
/// Rejects a team index out of range and any prediction after the season
/// has ended.
pub fn make_season_prediction(
    pool: &BettingPool,
    user: u64,
    predicted_team: u8,
    nft_mint: u64,
    now: i64,
) -> (r: Result<SeasonPrediction, SportsbookError>)
    ensures
        match r {
            Ok(p) => {
                &&& predicted_team < 10
                &&& !pool.season_ended
                &&& p == (SeasonPrediction {
                    user,
                    season_id: pool.current_season_id,
                    predicted_team,
                    nft_mint,
                    claimed_reward: false,
                    predicted_at: now,
                })
            },
            Err(e) => {
                &&& (e == SportsbookError::InvalidMatchIndex <==> predicted_team >= 10)
                &&& (e == SportsbookError::RoundAlreadySettled <==> predicted_team < 10
                    && pool.season_ended)
                &&& (e == SportsbookError::InvalidMatchIndex || e
                    == SportsbookError::RoundAlreadySettled)
            },
        },
{
    if predicted_team >= 10 {
        return Err(SportsbookError::InvalidMatchIndex);
    }
    if pool.season_ended {
        return Err(SportsbookError::RoundAlreadySettled);
    }
    Ok(
        SeasonPrediction {
            user,
            season_id: pool.current_season_id,
            predicted_team,
            nft_mint,
            claimed_reward: false,
            predicted_at: now,
        },
    )
}

/// The reason a season-reward claim fails, or `None` when it succeeds.
pub open spec fn spec_season_claim_error(
    pool: BettingPool,
    prediction: SeasonPrediction,
    user: u64,
    total_predictors: int,
) -> Option<SportsbookError> {
    if prediction.user != user {
        Option::Some(SportsbookError::NotBettor)
    } else if prediction.claimed_reward {
        Option::Some(SportsbookError::BetAlreadyClaimed)
    } else if !pool.season_ended {
        Option::Some(SportsbookError::RoundNotSettled)
    } else if prediction.predicted_team != pool.season_winning_team {
        Option::Some(SportsbookError::NotBettor)
    } else if pool.season_reward_pool == 0 || total_predictors == 0 {
        Option::Some(SportsbookError::InvalidAmount)
    } else {
        Option::None
    }
}

/// Claim an equal share of the season reward pool for a correct
/// prediction of an ended season.
///
/// Returns the user's share, `season_reward_pool / total_predictors`,
/// moves it out of the pool, and marks the prediction claimed; a second
/// claim fails with `BetAlreadyClaimed`. On failure pool and prediction
/// are unchanged.
pub fn claim_season_reward(
    pool: &mut BettingPool,
    prediction: &mut SeasonPrediction,
    user: u64,
    total_predictors: u64,
) -> (r: Result<u64, SportsbookError>)
    ensures
        match r {
            Ok(share) => {
                &&& spec_season_claim_error(
                    *old(pool),
                    *old(prediction),
                    user,
                    total_predictors as int,
                ) is None
                &&& share == old(pool).season_reward_pool as int / total_predictors as int
                &&& final(pool).season_reward_pool == old(pool).season_reward_pool - share
                &&& *final(pool) == (BettingPool {
                    season_reward_pool: final(pool).season_reward_pool,
                    ..*old(pool)
                })
                &&& *final(prediction) == (SeasonPrediction {
                    claimed_reward: true,
                    ..*old(prediction)
                })
            },
            Err(e) => {
                &&& *final(pool) == *old(pool)
                &&& *final(prediction) == *old(prediction)
                &&& Option::Some(e) == spec_season_claim_error(
                    *old(pool),
                    *old(prediction),
                    user,
                    total_predictors as int,
                )
            },
        },
{
    if prediction.user != user {
        return Err(SportsbookError::NotBettor);
    }
    if prediction.claimed_reward {
        return Err(SportsbookError::BetAlreadyClaimed);
    }
    if !pool.season_ended {
        return Err(SportsbookError::RoundNotSettled);
    }
    if prediction.predicted_team != pool.season_winning_team {
        return Err(SportsbookError::NotBettor);
    }
    if pool.season_reward_pool == 0 || total_predictors == 0 {
        return Err(SportsbookError::InvalidAmount);
    }
    let user_share: u64 = pool.season_reward_pool / total_predictors;
    proof {
        crate::arith::lemma_div_mul_le(pool.season_reward_pool as int, total_predictors as int);
        crate::arith::lemma_mul_mono(
            1,
            (pool.season_reward_pool / total_predictors) as int,
            total_predictors as int,
            (pool.season_reward_pool / total_predictors) as int,
        );
    }
    prediction.claimed_reward = true;
    pool.season_reward_pool = pool.season_reward_pool - user_share;
    Ok(user_share)
}

/// End the current season, fixing the winning team.
///
/// Only the pool's authority may end a season, the team index must be in
/// range, and an ended season cannot end again.
pub fn end_season(pool: &mut BettingPool, authority: u64, winning_team: u8) -> (r: Result<
    (),
    SportsbookError,
>)
    ensures
        match r {
            Ok(_) => {
                &&& authority == old(pool).authority
                &&& winning_team < 10
                &&& !old(pool).season_ended
                &&& *final(pool) == (BettingPool {
                    season_ended: true,
                    season_winning_team: winning_team,
                    ..*old(pool)
                })
            },
            Err(e) => {
                &&& *final(pool) == *old(pool)
                &&& (e == SportsbookError::InvalidAuthority <==> authority != old(pool).authority)
                &&& (e == SportsbookError::InvalidMatchIndex <==> authority == old(pool).authority
                    && winning_team >= 10)
                &&& (e == SportsbookError::RoundAlreadySettled <==> authority == old(
                    pool,
                ).authority && winning_team < 10 && old(pool).season_ended)
                &&& (e == SportsbookError::InvalidAuthority || e
                    == SportsbookError::InvalidMatchIndex || e
                    == SportsbookError::RoundAlreadySettled)
            },
        },
{
    if authority != pool.authority {
        return Err(SportsbookError::InvalidAuthority);
    }
    if winning_team >= 10 {
        return Err(SportsbookError::InvalidMatchIndex);
    }
    if pool.season_ended {
        return Err(SportsbookError::RoundAlreadySettled);
    }
    pool.season_ended = true;
    pool.season_winning_team = winning_team;
    Ok(())
}

/// Start the next season after the previous one has ended.
///
/// Advances the season id strictly and resets the season flags; the
/// season reward pool carries over.
pub fn start_new_season(pool: &mut BettingPool, authority: u64) -> (r: Result<
    (),
    SportsbookError,
>)
    ensures
        match r {
            Ok(_) => {
                &&& authority == old(pool).authority
                &&& old(pool).season_ended
                &&& final(pool).current_season_id == old(pool).current_season_id + 1
                &&& *final(pool) == (BettingPool {
                    current_season_id: final(pool).current_season_id,
                    season_ended: false,
                    season_winning_team: 0,
                    ..*old(pool)
                })
            },
            Err(e) => {
                &&& *final(pool) == *old(pool)
                &&& (e == SportsbookError::InvalidAuthority <==> authority != old(pool).authority)
                &&& (e == SportsbookError::RoundNotSettled <==> authority == old(pool).authority
                    && !old(pool).season_ended)
                &&& (e == SportsbookError::CalculationOverflow <==> authority == old(
                    pool,
                ).authority && old(pool).season_ended && old(pool).current_season_id == u64::MAX)
                &&& (e == SportsbookError::InvalidAuthority || e == SportsbookError::RoundNotSettled
                    || e == SportsbookError::CalculationOverflow)
            },
        },
{
    if authority != pool.authority {
        return Err(SportsbookError::InvalidAuthority);
    }
    if !pool.season_ended {
        return Err(SportsbookError::RoundNotSettled);
    }
    if pool.current_season_id == u64::MAX {
        return Err(SportsbookError::CalculationOverflow);
    }
    pool.current_season_id = pool.current_season_id + 1;
    pool.season_ended = false;
    pool.season_winning_team = 0;
    Ok(())
}

} // verus!
