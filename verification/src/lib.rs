//! A parimutuel sports-betting settlement engine.
//!
//! Rounds of exactly ten matches are seeded from a deterministic digest,
//! odds are locked into a compressed band, bets (single or parlay) receive
//! odds-weighted allocations so settlement scans only the ten match pools,
//! and claims are paid from a protocol treasury under per-bet and per-round
//! caps with a bounty window for late claims.

pub mod arith;
pub mod bet;
pub mod betting_pool;
pub mod constants;
pub mod errors;
pub mod liquidity;
pub mod match_pool;
pub mod odds;
pub mod parlay;
pub mod round;
pub mod season;
pub mod seeding;
pub mod vrf;
