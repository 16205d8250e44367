//! The betting-pool singleton: configuration, monotone id counters and
//! season state.

use vstd::prelude::*;

use crate::constants::BPS_DENOMINATOR;

verus! {

/// Global configuration and counters of the protocol.
#[derive(Clone, Copy, Debug)]
pub struct BettingPool {
    /// Identity of the authority that manages the pool.
    pub authority: u64,
    /// Identity of the token the pool is denominated in.
    pub token_mint: u64,
    /// Identity of the protocol treasury that collects fees.
    pub protocol_treasury: u64,
    /// Identity of the liquidity pool.
    pub liquidity_pool: u64,
    /// Protocol fee on every bet, in basis points.
    pub protocol_fee_bps: u16,
    /// Winner share, in basis points.
    pub winner_share_bps: u16,
    /// Season pool share carved out at finalisation, in basis points.
    pub season_pool_share_bps: u16,
    /// Accumulated season reward pool.
    pub season_reward_pool: u64,
    /// Id the next bet will receive; strictly increasing.
    pub next_bet_id: u64,
    /// Id the next round will receive; strictly increasing.
    pub next_round_id: u64,
    /// Identities of the ten team tokens of the league.
    pub team_token_mints: [u64; 10],
    /// Identity of the season prediction collection.
    pub season_nft_collection: u64,
    /// Current season id.
    pub current_season_id: u64,
    /// Whether the current season has ended.
    pub season_ended: bool,
    /// Winning team of the ended season (0..=9).
    pub season_winning_team: u8,
}

impl BettingPool {
    /// The basis-point shares never exceed 100%.
    pub open spec fn wf(self) -> bool {
        &&& self.protocol_fee_bps <= BPS_DENOMINATOR
        &&& self.winner_share_bps <= BPS_DENOMINATOR
        &&& self.season_pool_share_bps <= BPS_DENOMINATOR
    }
}

/// Create the betting pool with its configuration; both id counters
/// start at one.
pub fn initialize(
    authority: u64,
    token_mint: u64,
    protocol_treasury: u64,
    liquidity_pool: u64,
    protocol_fee_bps: u16,
    winner_share_bps: u16,
    season_pool_share_bps: u16,
) -> (r: BettingPool)
    requires
        protocol_fee_bps <= BPS_DENOMINATOR,
        winner_share_bps <= BPS_DENOMINATOR,
        season_pool_share_bps <= BPS_DENOMINATOR,
    ensures
        r.wf(),
        r.authority == authority,
        r.token_mint == token_mint,
        r.protocol_treasury == protocol_treasury,
        r.liquidity_pool == liquidity_pool,
        r.protocol_fee_bps == protocol_fee_bps,
        r.winner_share_bps == winner_share_bps,
        r.season_pool_share_bps == season_pool_share_bps,
        r.season_reward_pool == 0,
        r.next_bet_id == 1,
        r.next_round_id == 1,
        r.current_season_id == 0,
        !r.season_ended,
        r.season_winning_team == 0,
        forall|i: int| 0 <= i < 10 ==> #[trigger] r.team_token_mints@[i] == 0,
{
    BettingPool {
        authority,
        token_mint,
        protocol_treasury,
        liquidity_pool,
        protocol_fee_bps,
        winner_share_bps,
        season_pool_share_bps,
        season_reward_pool: 0,
        next_bet_id: 1,
        next_round_id: 1,
        team_token_mints: [0u64; 10],
        season_nft_collection: 0,
        current_season_id: 0,
        season_ended: false,
        season_winning_team: 0,
    }
}

} // verus!
