//! Liquidity pool: share accounting for depositors whose capital funds
//! round seeding and co-funds payouts.

use vstd::prelude::*;

use crate::errors::SportsbookError;

verus! {

/// The unlocked part of the pool: total liquidity less the locked
/// reserve, floored at zero.
pub open spec fn spec_available(total_liquidity: int, locked_reserve: int) -> int {
    if total_liquidity >= locked_reserve {
        total_liquidity - locked_reserve
    } else {
        0
    }
}

/// Pool of shared liquidity that funds seeding and payouts.
#[derive(Clone, Copy, Debug)]
pub struct LiquidityPool {
    /// Total tokens held by the pool.
    pub total_liquidity: u64,
    /// Total shares issued to depositors.
    pub total_shares: u64,
    /// Reserve locked against pending payouts.
    pub locked_reserve: u64,
    /// Unlocked liquidity: total less locked reserve.
    pub available_liquidity: u64,
    /// Accumulated profit of the pool.
    pub total_profit: u64,
    /// Accumulated loss of the pool.
    pub total_loss: u64,
}

impl LiquidityPool {
    /// The cached available liquidity equals total less locked reserve.
    pub open spec fn wf(self) -> bool {
        self.available_liquidity == spec_available(
            self.total_liquidity as int,
            self.locked_reserve as int,
        )
    }

    /// Shares owed for a deposit: one share per token for the first
    /// depositor, then proportional to the pool.
    pub open spec fn spec_shares_for_deposit(self, deposit_amount: int) -> int {
        if self.total_shares == 0 || self.total_liquidity == 0 {
            deposit_amount
        } else {
            deposit_amount * self.total_shares / self.total_liquidity as int
        }
    }

    /// Tokens owed for a number of shares: proportional to the pool, zero
    /// when no shares exist.
    pub open spec fn spec_withdrawal_for_shares(self, shares: int) -> int {
        if self.total_shares == 0 {
            0
        } else {
            shares * self.total_liquidity / self.total_shares as int
        }
    }

    /// An empty pool.
    pub fn new() -> (r: LiquidityPool)
        ensures
            r == (LiquidityPool {
                total_liquidity: 0,
                total_shares: 0,
                locked_reserve: 0,
                available_liquidity: 0,
                total_profit: 0,
                total_loss: 0,
            }),
            r.wf(),
    {
        LiquidityPool {
            total_liquidity: 0,
            total_shares: 0,
            locked_reserve: 0,
            available_liquidity: 0,
            total_profit: 0,
            total_loss: 0,
        }
    }

    /// Shares owed for a deposit.
    pub fn calculate_shares(&self, deposit_amount: u64) -> (r: u64)
        requires
            self.spec_shares_for_deposit(deposit_amount as int) <= u64::MAX,
        ensures
            r == self.spec_shares_for_deposit(deposit_amount as int),
    {
        if self.total_shares == 0 || self.total_liquidity == 0 {
            deposit_amount
        } else {
            proof {
                crate::arith::lemma_u64_mul_fits_u128(deposit_amount as int, self.total_shares as int);
            }
            let wide: u128 = (deposit_amount as u128) * (self.total_shares as u128) / (
            self.total_liquidity as u128);
            wide as u64
        }
    }

    /// Tokens owed for a number of shares.
    pub fn calculate_withdrawal(&self, shares: u64) -> (r: u64)
        requires
            self.spec_withdrawal_for_shares(shares as int) <= u64::MAX,
        ensures
            r == self.spec_withdrawal_for_shares(shares as int),
    {
        if self.total_shares == 0 {
            0
        } else {
            proof {
                crate::arith::lemma_u64_mul_fits_u128(shares as int, self.total_liquidity as int);
            }
            let wide: u128 = (shares as u128) * (self.total_liquidity as u128) / (self.total_shares
                as u128);
            wide as u64
        }
    }

    /// Whether the unlocked liquidity covers a payout.
    pub fn can_cover_payout(&self, amount: u64) -> (r: bool)
        ensures
            r == (self.available_liquidity >= amount),
    {
        self.available_liquidity >= amount
    }

    /// Lock part of the pool against a pending payout.
    pub fn lock_reserve(&mut self, amount: u64)
        requires
            old(self).locked_reserve + amount <= u64::MAX,
        ensures
            final(self).locked_reserve == old(self).locked_reserve + amount,
            final(self).total_liquidity == old(self).total_liquidity,
            final(self).total_shares == old(self).total_shares,
            final(self).total_profit == old(self).total_profit,
            final(self).total_loss == old(self).total_loss,
            final(self).wf(),
    {
        self.locked_reserve = self.locked_reserve + amount;
        self.available_liquidity = if self.total_liquidity >= self.locked_reserve {
            self.total_liquidity - self.locked_reserve
        } else {
            0
        };
    }

    /// Release part of the locked reserve, saturating at zero.
    pub fn release_reserve(&mut self, amount: u64)
        ensures
            final(self).locked_reserve == if old(self).locked_reserve >= amount {
                old(self).locked_reserve - amount
            } else {
                0
            },
            final(self).total_liquidity == old(self).total_liquidity,
            final(self).total_shares == old(self).total_shares,
            final(self).total_profit == old(self).total_profit,
            final(self).total_loss == old(self).total_loss,
            final(self).wf(),
    {
        self.locked_reserve = if self.locked_reserve >= amount {
            self.locked_reserve - amount
        } else {
            0
        };
        self.available_liquidity = if self.total_liquidity >= self.locked_reserve {
            self.total_liquidity - self.locked_reserve
        } else {
            0
        };
    }

    /// Add a deposit to the pool, issuing shares for it.
    ///
    /// Fails with `CalculationOverflow`, leaving the pool unchanged, when
    /// the shares or either running total would leave the `u64` range.
    pub fn add_liquidity(&mut self, amount: u64) -> (r: Result<u64, SportsbookError>)
        ensures
            match r {
                Ok(shares) => {
                    &&& shares == old(self).spec_shares_for_deposit(amount as int)
                    &&& final(self).total_liquidity == old(self).total_liquidity + amount
                    &&& final(self).total_shares == old(self).total_shares + shares
                    &&& final(self).locked_reserve == old(self).locked_reserve
                    &&& final(self).total_profit == old(self).total_profit
                    &&& final(self).total_loss == old(self).total_loss
                    &&& final(self).wf()
                },
                Err(e) => {
                    &&& *final(self) == *old(self)
                    &&& e == SportsbookError::CalculationOverflow
                    &&& (old(self).spec_shares_for_deposit(amount as int) > u64::MAX || old(
                        self,
                    ).total_liquidity + amount > u64::MAX || old(self).total_shares + old(
                        self,
                    ).spec_shares_for_deposit(amount as int) > u64::MAX)
                },
            },
    {
        let shares: u64 = if self.total_shares == 0 || self.total_liquidity == 0 {
            amount
        } else {
            proof {
                crate::arith::lemma_u64_mul_fits_u128(amount as int, self.total_shares as int);
            }
            let wide: u128 = (amount as u128) * (self.total_shares as u128) / (self.total_liquidity
                as u128);
            if wide > u64::MAX as u128 {
                return Err(SportsbookError::CalculationOverflow);
            }
            wide as u64
        };
        if amount > u64::MAX - self.total_liquidity {
            return Err(SportsbookError::CalculationOverflow);
        }
        if shares > u64::MAX - self.total_shares {
            return Err(SportsbookError::CalculationOverflow);
        }
        self.total_liquidity = self.total_liquidity + amount;
        self.total_shares = self.total_shares + shares;
        self.available_liquidity = if self.total_liquidity >= self.locked_reserve {
            self.total_liquidity - self.locked_reserve
        } else {
            0
        };
        Ok(shares)
    }

    /// Burn shares and remove the tokens they stand for, saturating the
    /// running totals at zero.
    pub fn remove_liquidity(&mut self, shares: u64) -> (amount: u64)
        requires
            old(self).spec_withdrawal_for_shares(shares as int) <= u64::MAX,
        ensures
            amount == old(self).spec_withdrawal_for_shares(shares as int),
            final(self).total_shares == if old(self).total_shares >= shares {
                old(self).total_shares - shares
            } else {
                0
            },
            final(self).total_liquidity == if old(self).total_liquidity >= amount {
                old(self).total_liquidity - amount
            } else {
                0
            },
            final(self).locked_reserve == old(self).locked_reserve,
            final(self).total_profit == old(self).total_profit,
            final(self).total_loss == old(self).total_loss,
            final(self).wf(),
    {
        let amount = self.calculate_withdrawal(shares);
        self.total_shares = if self.total_shares >= shares {
            self.total_shares - shares
        } else {
            0
        };
        self.total_liquidity = if self.total_liquidity >= amount {
            self.total_liquidity - amount
        } else {
            0
        };
        self.available_liquidity = if self.total_liquidity >= self.locked_reserve {
            self.total_liquidity - self.locked_reserve
        } else {
            0
        };
        amount
    }
}

/// A depositor's stake in the liquidity pool.
#[derive(Clone, Copy, Debug)]
pub struct LpPosition {
    /// Identity of the owner; zero while the position is unused.
    pub owner: u64,
    /// Identity of the pool the position belongs to.
    pub liquidity_pool: u64,
    /// Shares the owner holds.
    pub shares: u64,
}

/// Deposit into the liquidity pool and credit the provider's position.
///
/// Returns the shares issued. Fails with `InvalidAmount` on a zero
/// deposit and with `CalculationOverflow` when share or total arithmetic
/// would overflow; on failure pool and position are unchanged.
pub fn add_liquidity(
    pool: &mut LiquidityPool,
    position: &mut LpPosition,
    provider: u64,
    pool_id: u64,
    amount: u64,
) -> (r: Result<u64, SportsbookError>)
    ensures
        match r {
            Ok(shares) => {
                &&& amount > 0
                &&& shares == old(pool).spec_shares_for_deposit(amount as int)
                &&& final(pool).total_liquidity == old(pool).total_liquidity + amount
                &&& final(pool).total_shares == old(pool).total_shares + shares
                &&& final(pool).locked_reserve == old(pool).locked_reserve
                &&& final(pool).wf()
                &&& (old(position).owner == 0 ==> *final(position) == (LpPosition {
                    owner: provider,
                    liquidity_pool: pool_id,
                    shares,
                }))
                &&& (old(position).owner != 0 ==> *final(position) == (LpPosition {
                    shares: (old(position).shares + shares) as u64,
                    ..*old(position)
                }))
            },
            Err(e) => {
                &&& *final(pool) == *old(pool)
                &&& *final(position) == *old(position)
                &&& (e == SportsbookError::InvalidAmount <==> amount == 0)
                &&& (e == SportsbookError::InvalidAmount || e
                    == SportsbookError::CalculationOverflow)
            },
        },
{
    if amount == 0 {
        return Err(SportsbookError::InvalidAmount);
    }
    let shares: u64 = if pool.total_shares == 0 || pool.total_liquidity == 0 {
        amount
    } else {
        proof {
            crate::arith::lemma_u64_mul_fits_u128(amount as int, pool.total_shares as int);
        }
        let wide: u128 = (amount as u128) * (pool.total_shares as u128) / (pool.total_liquidity
            as u128);
        if wide > u64::MAX as u128 {
            return Err(SportsbookError::CalculationOverflow);
        }
        wide as u64
    };
    if position.owner != 0 && shares > u64::MAX - position.shares {
        return Err(SportsbookError::CalculationOverflow);
    }
    let issued = match pool.add_liquidity(amount) {
        Ok(s) => s,
        Err(e) => {
            return Err(e);
        },
    };
    if position.owner == 0 {
        position.owner = provider;
        position.liquidity_pool = pool_id;
        position.shares = issued;
    } else {
        position.shares = position.shares + issued;
    }
    Ok(issued)
}

/// Withdraw from the liquidity pool by burning shares of a position.
///
/// Returns the tokens to transfer back to the provider. Fails with
/// `InvalidAmount` on zero shares or a position holding fewer shares,
/// with `CalculationOverflow` when the withdrawal leaves the `u64` range,
/// and with `InsufficientAvailableLiquidity` when the unlocked liquidity
/// cannot cover it; on failure pool and position are unchanged.
pub fn remove_liquidity(pool: &mut LiquidityPool, position: &mut LpPosition, shares: u64) -> (r:
    Result<u64, SportsbookError>)
    ensures
        match r {
            Ok(amount) => {
                &&& shares > 0
                &&& old(position).shares >= shares
                &&& amount == old(pool).spec_withdrawal_for_shares(shares as int)
                &&& old(pool).available_liquidity >= amount
                &&& final(pool).total_shares == if old(pool).total_shares >= shares {
                    old(pool).total_shares - shares
                } else {
                    0
                }
                &&& final(pool).total_liquidity == if old(pool).total_liquidity >= amount {
                    old(pool).total_liquidity - amount
                } else {
                    0
                }
                &&& final(pool).locked_reserve == old(pool).locked_reserve
                &&& final(pool).wf()
                &&& *final(position) == (LpPosition {
                    shares: (old(position).shares - shares) as u64,
                    ..*old(position)
                })
            },
            Err(e) => {
                &&& *final(pool) == *old(pool)
                &&& *final(position) == *old(position)
                &&& (e == SportsbookError::InvalidAmount <==> (shares == 0 || old(
                    position,
                ).shares < shares))
                &&& (e == SportsbookError::CalculationOverflow <==> (shares > 0 && old(
                    position,
                ).shares >= shares && old(pool).spec_withdrawal_for_shares(shares as int)
                    > u64::MAX))
                &&& (e == SportsbookError::InsufficientAvailableLiquidity <==> (shares > 0 && old(
                    position,
                ).shares >= shares && old(pool).spec_withdrawal_for_shares(shares as int)
                    <= u64::MAX && old(pool).available_liquidity < old(
                    pool,
                ).spec_withdrawal_for_shares(shares as int)))
                &&& (e == SportsbookError::InvalidAmount || e
                    == SportsbookError::CalculationOverflow || e
                    == SportsbookError::InsufficientAvailableLiquidity)
            },
        },
{
    if shares == 0 {
        return Err(SportsbookError::InvalidAmount);
    }
    if position.shares < shares {
        return Err(SportsbookError::InvalidAmount);
    }
    let amount: u64 = if pool.total_shares == 0 {
        0
    } else {
        proof {
            crate::arith::lemma_u64_mul_fits_u128(shares as int, pool.total_liquidity as int);
        }
        let wide: u128 = (shares as u128) * (pool.total_liquidity as u128) / (pool.total_shares
            as u128);
        if wide > u64::MAX as u128 {
            return Err(SportsbookError::CalculationOverflow);
        }
        wide as u64
    };
    if pool.available_liquidity < amount {
        return Err(SportsbookError::InsufficientAvailableLiquidity);
    }
    let withdrawn = pool.remove_liquidity(shares);
    position.shares = position.shares - shares;
    Ok(withdrawn)
}

} // verus!
