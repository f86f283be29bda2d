use vstd::prelude::*;

use crate::error::LendingProgramError;
use crate::keys::{keys_equal, Pubkey};
use crate::state::pool_config::PoolConfig;
use crate::state::user_account::User;

verus! {

/// What a deposit reads and writes: the mint of the deposited token, the depositor's
/// account and the pool of the mint.
#[derive(Debug, Clone, Copy, PartialEq, Eq)]
pub struct DepositCollateral {
    pub mint: Pubkey,
    pub user_account: User,
    pub pool_config: PoolConfig,
}

/// The pool's deposit total before the deposit is added: an empty pool first takes the
/// amount itself as its total.
pub open spec fn deposit_base_total(pool: PoolConfig, amount: u64) -> u64 {
    if pool.total_deposits == 0 {
        amount
    } else {
        pool.total_deposits
    }
}

/// The pool's deposit shares before the deposit is added: an empty pool first takes the
/// amount itself as its shares.
pub open spec fn deposit_base_shares(pool: PoolConfig, amount: u64) -> u64 {
    if pool.total_deposits == 0 {
        amount
    } else {
        pool.total_deposit_shares
    }
}

/// The shares that a deposit of `amount` is worth: the shares times the whole number of
/// times the deposit total goes into the amount.
pub open spec fn deposit_shares(pool: PoolConfig, amount: u64) -> int {
    deposit_base_shares(pool, amount) * (amount / deposit_base_total(pool, amount))
}

/// The mint of the deposit is the pool's mint.
pub open spec fn deposit_mint_matches(ctx: DepositCollateral) -> bool {
    ctx.mint@ == ctx.pool_config.mint_address@
}

/// Every `u64` operation of a deposit stays in range wherever it is reached.
pub open spec fn deposit_in_range(ctx: DepositCollateral, amount: u64) -> bool {
    let pool = ctx.pool_config;
    let user = ctx.user_account;
    let shares = deposit_shares(pool, amount);
    &&& deposit_base_total(pool, amount) != 0
    &&& shares <= u64::MAX
    &&& deposit_mint_matches(ctx) ==> {
        &&& user.deposited_usdc + amount <= u64::MAX
        &&& user.deposited_usdc_shares + shares <= u64::MAX
        &&& deposit_base_total(pool, amount) + amount <= u64::MAX
        &&& deposit_base_shares(pool, amount) + shares <= u64::MAX
    }
}

/// What a deposit answers, and the accounts after it.
pub open spec fn deposit_outcome(ctx: DepositCollateral, amount: u64) -> (
    Result<(), LendingProgramError>,
    DepositCollateral,
) {
    let pool = ctx.pool_config;
    let user = ctx.user_account;
    let shares = deposit_shares(pool, amount);
    if !deposit_mint_matches(ctx) {
        (Err(LendingProgramError::UnsupportedMint), ctx)
    } else {
        (
            Ok(()),
            DepositCollateral {
                user_account: User {
                    deposited_usdc: (user.deposited_usdc + amount) as u64,
                    deposited_usdc_shares: (user.deposited_usdc_shares + shares) as u64,
                    ..user
                },
                pool_config: PoolConfig {
                    total_deposits: (deposit_base_total(pool, amount) + amount) as u64,
                    total_deposit_shares: (deposit_base_shares(pool, amount) + shares) as u64,
                    ..pool
                },
                ..ctx
            },
        )
    }
}

/// Tells whether `deposit_collateral` stays in range for these accounts and amount.
pub fn deposit_fits(ctx: &DepositCollateral, amount: u64) -> (r: bool)
    ensures
        r == deposit_in_range(*ctx, amount),
{
    let pool = &ctx.pool_config;
    let (total, shares) = if pool.total_deposits == 0 {
        (amount, amount)
    } else {
        (pool.total_deposits, pool.total_deposit_shares)
    };
    if total == 0 {
        return false;
    }
    let users_shares = match shares.checked_mul(amount / total) {
        None => return false,
        Some(users_shares) => users_shares,
    };
    if !keys_equal(&ctx.mint, &pool.mint_address) {
        return true;
    }
    let user = &ctx.user_account;
    user.deposited_usdc.checked_add(amount).is_some()
        && user.deposited_usdc_shares.checked_add(users_shares).is_some()
        && total.checked_add(amount).is_some() && shares.checked_add(users_shares).is_some()
}

impl DepositCollateral {
    /// Records a deposit of `amount` of the pool's token (the transfer into the pool's
    /// token account is made around it). The user's deposit and shares, and the
    /// pool's total and shares, grow by the amount and the shares it is worth; into
    /// an empty pool the first deposit counts twice in the pool's total and shares.
    /// A deposit of another mint is refused and changes nothing.
    pub fn deposit_collateral(&mut self, amount: u64) -> (r: Result<(), LendingProgramError>)
        requires
            deposit_in_range(*old(self), amount),
        ensures
            (r, *final(self)) == deposit_outcome(*old(self), amount),
    {
        let mut total_deposits = self.pool_config.total_deposits;
        let mut total_deposit_shares = self.pool_config.total_deposit_shares;
        if total_deposits == 0 {
            total_deposits = amount;
            total_deposit_shares = amount;
        }
        let deposit_ratio = amount.checked_div(total_deposits).unwrap();
        let users_shares = total_deposit_shares.checked_mul(deposit_ratio).unwrap();
        if !keys_equal(&self.mint, &self.pool_config.mint_address) {
            return Err(LendingProgramError::UnsupportedMint);
        }
        self.user_account.deposited_usdc = self.user_account.deposited_usdc + amount;
        self.user_account.deposited_usdc_shares = self.user_account.deposited_usdc_shares
            + users_shares;
        self.pool_config.total_deposits = total_deposits + amount;
        self.pool_config.total_deposit_shares = total_deposit_shares + users_shares;
        Ok(())
    }
}

} // verus!
