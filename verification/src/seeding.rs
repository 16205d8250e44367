//! Seed generator: deterministic three-way split of the protocol seed of
//! a match, derived from a digest of the two team ids and the round id.

use vstd::prelude::*;

use crate::constants::SEED_PER_MATCH;

verus! {

/// The 32-byte digest that seeds a match: a pure function of the home
/// team id, the away team id and the round id.
pub uninterp spec fn match_digest(home_team_id: u64, away_team_id: u64, round_id: u64) -> Seq<u8>;

/// Relies on solana_program::hash::hash (SHA-256) over the canonical
/// "{home}-{away}-{round}" string: a 32-byte digest that depends on the
/// three ids alone.
#[verifier::external_body]
fn match_seed_digest(home_team_id: u64, away_team_id: u64, round_id: u64) -> (r: [u8; 32])
    ensures
        r@ == match_digest(home_team_id, away_team_id, round_id),
{
    let input = format!("{}-{}-{}", home_team_id, away_team_id, round_id);
    solana_program::hash::hash(input.as_bytes()).to_bytes()
}

/// Allocation tier by the strength difference of the two teams: percent
/// of the match seed given to the favourite, the underdog and the draw.
pub open spec fn spec_alloc_tier(diff: int) -> (int, int, int) {
    if diff > 78 {
        (63, 16, 21)
    } else if diff > 65 {
        (52, 19, 29)
    } else if diff > 50 {
        (46, 23, 31)
    } else if diff > 35 {
        (42, 27, 31)
    } else if diff > 20 {
        (38, 31, 31)
    } else if diff > 8 {
        (36, 33, 31)
    } else {
        (34, 34, 32)
    }
}

/// Seed split of a match from the two strength bytes and the draw factor:
/// the favourite gets the larger tier share (ties go to home), and a draw
/// factor above 80 moves a 16% boost into the draw pool, half of it taken
/// from each side with saturation.
pub open spec fn spec_seeds_from_strengths(hs: int, as_: int, df: int) -> (int, int, int) {
    let diff = if hs > as_ {
        hs - as_
    } else {
        as_ - hs
    };
    let tier = spec_alloc_tier(diff);
    let fav = SEED_PER_MATCH as int * tier.0 / 100;
    let dog = SEED_PER_MATCH as int * tier.1 / 100;
    let drw = SEED_PER_MATCH as int * tier.2 / 100;
    let home0 = if hs > as_ {
        fav
    } else {
        dog
    };
    let away0 = if hs > as_ {
        dog
    } else {
        fav
    };
    if df > 80 {
        let boost = SEED_PER_MATCH as int * 16 / 100;
        let home1 = if home0 >= boost / 2 {
            home0 - boost / 2
        } else {
            0
        };
        let away1 = if away0 >= boost / 2 {
            away0 - boost / 2
        } else {
            0
        };
        (home1, away1, drw + boost)
    } else {
        (home0, away0, drw)
    }
}

/// The seed split of a match, as a function of the three ids alone: the
/// tier split chosen by the first two digest bytes, draw-boosted by the
/// third.
pub open spec fn spec_pseudo_random_seeds(
    home_team_id: u64,
    away_team_id: u64,
    round_id: u64,
) -> (int, int, int) {
    let d = match_digest(home_team_id, away_team_id, round_id);
    spec_seeds_from_strengths(d[0] as int % 100, d[1] as int % 100, d[2] as int % 100)
}

/// Split the seed of a match over its three pools from the two strength
/// values and the draw factor, each drawn from a digest byte.
///
/// The favourite receives the larger tier share (ties go to home); a draw
/// factor above 80 boosts the draw pool by 16% of the seed, taking half
/// of the boost from each side. Every pool stays positive and none
/// exceeds `SEED_PER_MATCH`.
pub fn calculate_seeds_from_strengths(
    home_strength: u64,
    away_strength: u64,
    draw_factor: u64,
) -> (r: (u64, u64, u64))
    requires
        home_strength < 100,
        away_strength < 100,
        draw_factor < 100,
    ensures
        (r.0 as int, r.1 as int, r.2 as int) == spec_seeds_from_strengths(
            home_strength as int,
            away_strength as int,
            draw_factor as int,
        ),
        0 < r.0 <= SEED_PER_MATCH,
        0 < r.1 <= SEED_PER_MATCH,
        0 < r.2 <= SEED_PER_MATCH,
{
    let diff: u64 = if home_strength > away_strength {
        home_strength - away_strength
    } else {
        away_strength - home_strength
    };

    let (favorite_alloc, underdog_alloc, draw_alloc): (u64, u64, u64) = if diff > 78 {
        (63, 16, 21)
    } else if diff > 65 {
        (52, 19, 29)
    } else if diff > 50 {
        (46, 23, 31)
    } else if diff > 35 {
        (42, 27, 31)
    } else if diff > 20 {
        (38, 31, 31)
    } else if diff > 8 {
        (36, 33, 31)
    } else {
        (34, 34, 32)
    };

    let fav: u64 = (SEED_PER_MATCH / 100) * favorite_alloc;
    let dog: u64 = (SEED_PER_MATCH / 100) * underdog_alloc;
    let drw: u64 = (SEED_PER_MATCH / 100) * draw_alloc;
    assert(fav == SEED_PER_MATCH as int * favorite_alloc as int / 100) by (nonlinear_arith)
        requires
            SEED_PER_MATCH == 3_000_000_000_000u64,
            fav == (SEED_PER_MATCH as int / 100) * favorite_alloc as int,
    ;
    assert(dog == SEED_PER_MATCH as int * underdog_alloc as int / 100) by (nonlinear_arith)
        requires
            SEED_PER_MATCH == 3_000_000_000_000u64,
            dog == (SEED_PER_MATCH as int / 100) * underdog_alloc as int,
    ;
    assert(drw == SEED_PER_MATCH as int * draw_alloc as int / 100) by (nonlinear_arith)
        requires
            SEED_PER_MATCH == 3_000_000_000_000u64,
            drw == (SEED_PER_MATCH as int / 100) * draw_alloc as int,
    ;

    let (mut home_seed, mut away_seed): (u64, u64) = if home_strength > away_strength {
        (fav, dog)
    } else {
        (dog, fav)
    };
    let mut draw_seed: u64 = drw;

    if draw_factor > 80 {
        let draw_boost: u64 = (SEED_PER_MATCH / 100) * 16;
        draw_seed = draw_seed + draw_boost;
        home_seed = if home_seed >= draw_boost / 2 {
            home_seed - draw_boost / 2
        } else {
            0
        };
        away_seed = if away_seed >= draw_boost / 2 {
            away_seed - draw_boost / 2
        } else {
            0
        };
    }

    (home_seed, away_seed, draw_seed)
}

/// Split the seed of a match over its three pools, deterministically from
/// the team ids and the round id.
///
/// Pure: the same ids always give the same seeds. Each pool is positive
/// and at most `SEED_PER_MATCH`, so a full round of seeds sums well below
/// any overflow bound.
pub fn calculate_pseudo_random_seeds(home_team_id: u64, away_team_id: u64, round_id: u64) -> (r: (
    u64,
    u64,
    u64,
))
    ensures
        (r.0 as int, r.1 as int, r.2 as int) == spec_pseudo_random_seeds(
            home_team_id,
            away_team_id,
            round_id,
        ),
        0 < r.0 <= SEED_PER_MATCH,
        0 < r.1 <= SEED_PER_MATCH,
        0 < r.2 <= SEED_PER_MATCH,
{
    let digest = match_seed_digest(home_team_id, away_team_id, round_id);
    let home_strength: u64 = (digest[0] as u64) % 100;
    let away_strength: u64 = (digest[1] as u64) % 100;
    let draw_factor: u64 = (digest[2] as u64) % 100;
    calculate_seeds_from_strengths(home_strength, away_strength, draw_factor)
}

/// Balanced placeholder seeds for stats-based seeding: a 35/35/30 split
/// of the match seed, ignoring the team records for now.
pub fn calculate_stats_based_seeds(
    _season_id: u64,
    _home_team_id: u64,
    _away_team_id: u64,
    _home_points: u64,
    _away_points: u64,
) -> (r: (u64, u64, u64))
    ensures
        r.0 == SEED_PER_MATCH as int * 35 / 100,
        r.1 == SEED_PER_MATCH as int * 35 / 100,
        r.2 == SEED_PER_MATCH as int * 30 / 100,
{
    let home_seed: u64 = (SEED_PER_MATCH / 100) * 35;
    let away_seed: u64 = (SEED_PER_MATCH / 100) * 35;
    let draw_seed: u64 = (SEED_PER_MATCH / 100) * 30;
    assert(home_seed == SEED_PER_MATCH as int * 35 / 100 && draw_seed == SEED_PER_MATCH as int * 30
        / 100) by (nonlinear_arith)
        requires
            SEED_PER_MATCH == 3_000_000_000_000u64,
            home_seed == (SEED_PER_MATCH as int / 100) * 35,
            draw_seed == (SEED_PER_MATCH as int / 100) * 30,
    ;
    (home_seed, away_seed, draw_seed)
}

/// Seed a match: pseudo-random for the early season and, for now, for the
/// later rounds as well, until stats-based seeding is wired to real team
/// records.
pub fn calculate_match_seeds(
    round_id: u64,
    _match_index: u8,
    home_team_id: u64,
    away_team_id: u64,
    season_round: u64,
) -> (r: (u64, u64, u64))
    ensures
        (r.0 as int, r.1 as int, r.2 as int) == spec_pseudo_random_seeds(
            home_team_id,
            away_team_id,
            round_id,
        ),
        0 < r.0 <= SEED_PER_MATCH,
        0 < r.1 <= SEED_PER_MATCH,
        0 < r.2 <= SEED_PER_MATCH,
{
    if season_round <= 3 {
        return calculate_pseudo_random_seeds(home_team_id, away_team_id, round_id);
    }
    calculate_pseudo_random_seeds(home_team_id, away_team_id, round_id)
}

} // verus!
