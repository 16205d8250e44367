//! Per-match state: the three outcome pools, the locked odds, and the
//! match outcome code.

use vstd::prelude::*;

use crate::errors::SportsbookError;

verus! {

/// Outcome of a match: pending until settlement, then one of the three
/// results.
#[derive(Clone, Copy, Debug, PartialEq, Eq, Structural)]
pub enum MatchOutcome {
    /// Not yet settled.
    Pending,
    /// The home team won (code 1).
    HomeWin,
    /// The away team won (code 2).
    AwayWin,
    /// The match was drawn (code 3).
    Draw,
}

impl MatchOutcome {
    /// The outcome encoded by a settlement byte, `Pending` for any byte
    /// outside 1..=3.
    pub open spec fn spec_from_u8(code: u8) -> MatchOutcome {
        if code == 1 {
            MatchOutcome::HomeWin
        } else if code == 2 {
            MatchOutcome::AwayWin
        } else if code == 3 {
            MatchOutcome::Draw
        } else {
            MatchOutcome::Pending
        }
    }

    /// Decode a settlement byte.
    pub fn from_u8(code: u8) -> (r: MatchOutcome)
        ensures
            r == MatchOutcome::spec_from_u8(code),
    {
        if code == 1 {
            MatchOutcome::HomeWin
        } else if code == 2 {
            MatchOutcome::AwayWin
        } else if code == 3 {
            MatchOutcome::Draw
        } else {
            MatchOutcome::Pending
        }
    }
}

impl Default for MatchOutcome {
    /// A match starts out pending.
    fn default() -> (r: Self)
        ensures
            r == MatchOutcome::Pending,
    {
        MatchOutcome::Pending
    }
}

/// Pool of stakes for a single match, split over the three outcomes.
#[derive(Clone, Copy, Debug, PartialEq, Eq, Structural)]
pub struct MatchPool {
    /// Total tokens bet on a home win (outcome 1).
    pub home_win_pool: u64,
    /// Total tokens bet on an away win (outcome 2).
    pub away_win_pool: u64,
    /// Total tokens bet on a draw (outcome 3).
    pub draw_pool: u64,
    /// Sum of the three pools.
    pub total_pool: u64,
}

impl MatchPool {
    /// The pool keeps its one invariant: the total is the sum of the
    /// three outcome pools.
    pub open spec fn wf(self) -> bool {
        self.total_pool == self.home_win_pool + self.away_win_pool + self.draw_pool
    }

    /// The stake held for an outcome code; zero for a code outside 1..=3.
    pub open spec fn spec_pool_amount(self, outcome: int) -> int {
        if outcome == 1 {
            self.home_win_pool as int
        } else if outcome == 2 {
            self.away_win_pool as int
        } else if outcome == 3 {
            self.draw_pool as int
        } else {
            0
        }
    }

    /// An empty pool.
    pub fn new() -> (r: MatchPool)
        ensures
            r == (MatchPool { home_win_pool: 0, away_win_pool: 0, draw_pool: 0, total_pool: 0 }),
            r.wf(),
    {
        MatchPool { home_win_pool: 0, away_win_pool: 0, draw_pool: 0, total_pool: 0 }
    }

    /// Read the stake held for an outcome code.
    pub fn get_pool_amount(&self, outcome: u8) -> (r: u64)
        ensures
            r == self.spec_pool_amount(outcome as int),
    {
        if outcome == 1 {
            self.home_win_pool
        } else if outcome == 2 {
            self.away_win_pool
        } else if outcome == 3 {
            self.draw_pool
        } else {
            0
        }
    }

    /// Add a stake to the pool of one outcome, keeping the total in step.
    ///
    /// Rejects an outcome code outside 1..=3 and any addition that would
    /// overflow; on rejection the pool is unchanged.
    pub fn add_to_pool(&mut self, outcome: u8, amount: u64) -> (r: Result<(), SportsbookError>)
        ensures
            match r {
                Ok(_) => 1 <= outcome <= 3 && final(self).spec_pool_amount(outcome as int) == old(
                    self,
                ).spec_pool_amount(outcome as int) + amount && final(self).total_pool == old(
                    self,
                ).total_pool + amount && forall|o: int|
                    1 <= o <= 3 && o != outcome ==> final(self).spec_pool_amount(o) == old(
                        self,
                    ).spec_pool_amount(o),
                Err(e) => *final(self) == *old(self) && (e == SportsbookError::InvalidOutcome || e
                    == SportsbookError::CalculationOverflow) && (e
                    == SportsbookError::InvalidOutcome <==> !(1 <= outcome <= 3)) && (e
                    == SportsbookError::CalculationOverflow <==> 1 <= outcome <= 3 && (old(
                    self,
                ).spec_pool_amount(outcome as int) + amount > u64::MAX || old(self).total_pool
                    + amount > u64::MAX)),
            },
            old(self).wf() && r is Ok ==> final(self).wf(),
    {
        if !(outcome >= 1 && outcome <= 3) {
            return Err(SportsbookError::InvalidOutcome);
        }
        let pool_amount = self.get_pool_amount(outcome);
        if amount > u64::MAX - pool_amount || amount > u64::MAX - self.total_pool {
            return Err(SportsbookError::CalculationOverflow);
        }
        if outcome == 1 {
            self.home_win_pool = self.home_win_pool + amount;
        } else if outcome == 2 {
            self.away_win_pool = self.away_win_pool + amount;
        } else {
            self.draw_pool = self.draw_pool + amount;
        }
        self.total_pool = self.total_pool + amount;
        Ok(())
    }
}

impl Default for MatchPool {
    /// An empty pool.
    fn default() -> (r: Self)
        ensures
            r == (MatchPool { home_win_pool: 0, away_win_pool: 0, draw_pool: 0, total_pool: 0 }),
    {
        MatchPool::new()
    }
}

/// Odds for a match, fixed once at seeding time and never recomputed.
#[derive(Clone, Copy, Debug, PartialEq, Eq, Structural)]
pub struct LockedOdds {
    /// Home-win odds, scaled by `ODDS_SCALE`.
    pub home_odds: u64,
    /// Away-win odds, scaled by `ODDS_SCALE`.
    pub away_odds: u64,
    /// Draw odds, scaled by `ODDS_SCALE`.
    pub draw_odds: u64,
    /// Whether the odds have been locked.
    pub locked: bool,
}

impl LockedOdds {
    /// The odds paid for an outcome code; zero for a code outside 1..=3.
    pub open spec fn spec_odds(self, outcome: int) -> int {
        if outcome == 1 {
            self.home_odds as int
        } else if outcome == 2 {
            self.away_odds as int
        } else if outcome == 3 {
            self.draw_odds as int
        } else {
            0
        }
    }

    /// Unlocked odds, all zero.
    pub fn new() -> (r: LockedOdds)
        ensures
            r == (LockedOdds { home_odds: 0, away_odds: 0, draw_odds: 0, locked: false }),
    {
        LockedOdds { home_odds: 0, away_odds: 0, draw_odds: 0, locked: false }
    }

    /// Read the odds paid for an outcome code.
    pub fn get_odds(&self, outcome: u8) -> (r: u64)
        ensures
            r == self.spec_odds(outcome as int),
    {
        if outcome == 1 {
            self.home_odds
        } else if outcome == 2 {
            self.away_odds
        } else if outcome == 3 {
            self.draw_odds
        } else {
            0
        }
    }
}

impl Default for LockedOdds {
    /// Unlocked odds, all zero.
    fn default() -> (r: Self)
        ensures
            r == (LockedOdds { home_odds: 0, away_odds: 0, draw_odds: 0, locked: false }),
    {
        LockedOdds::new()
    }
}

} // verus!
