use vstd::prelude::*;

use crate::error::LendingProgramError;
use crate::keys::{keys_equal, Pubkey};
use crate::state::pool_config::PoolConfig;
use crate::state::user_account::User;

verus! {

/// What a withdrawal reads and writes: the mint of the withdrawn token, its pool and
/// the user's account.
#[derive(Debug, Clone, Copy, PartialEq, Eq)]
pub struct WithdrawCollateral {
    pub mint: Pubkey,
    pub pool: PoolConfig,
    pub user_account: User,
}

/// The mint of the withdrawal is the pool's mint.
pub open spec fn withdraw_mint_matches(ctx: WithdrawCollateral) -> bool {
    ctx.mint@ == ctx.pool.mint_address@
}

/// The subtractions of a granted withdrawal do not go below zero.
pub open spec fn withdraw_in_range(ctx: WithdrawCollateral, amount: u64, shares_to_remove: u64) -> bool {
    (withdraw_mint_matches(ctx) && amount <= ctx.user_account.deposited_usdc) ==> {
        &&& shares_to_remove <= ctx.user_account.deposited_usdc
        &&& amount <= ctx.pool.total_deposits
        &&& shares_to_remove <= ctx.pool.total_deposit_shares
    }
}

/// What a withdrawal answers, and the accounts after it.
pub open spec fn withdraw_outcome(ctx: WithdrawCollateral, amount: u64, shares_to_remove: u64) -> (
    Result<(), LendingProgramError>,
    WithdrawCollateral,
) {
    if !withdraw_mint_matches(ctx) {
        (Err(LendingProgramError::UnsupportedMint), ctx)
    } else if amount > ctx.user_account.deposited_usdc {
        (Err(LendingProgramError::NotEnoughFunds), ctx)
    } else {
        (
            Ok(()),
            WithdrawCollateral {
                user_account: User {
                    deposited_usdc: (ctx.user_account.deposited_usdc - shares_to_remove) as u64,
                    ..ctx.user_account
                },
                pool: PoolConfig {
                    total_deposits: (ctx.pool.total_deposits - amount) as u64,
                    total_deposit_shares: (ctx.pool.total_deposit_shares
                        - shares_to_remove) as u64,
                    ..ctx.pool
                },
                ..ctx
            },
        )
    }
}

/// Tells whether `withdraw_collateral` stays in range for these accounts and amounts.
pub fn withdraw_fits(ctx: &WithdrawCollateral, amount: u64, shares_to_remove: u64) -> (r: bool)
    ensures
        r == withdraw_in_range(*ctx, amount, shares_to_remove),
{
    if !keys_equal(&ctx.mint, &ctx.pool.mint_address) || amount > ctx.user_account.deposited_usdc {
        return true;
    }
    shares_to_remove <= ctx.user_account.deposited_usdc && amount <= ctx.pool.total_deposits
        && shares_to_remove <= ctx.pool.total_deposit_shares
}

impl WithdrawCollateral {
    /// Records a withdrawal of `amount` of the pool's token (the transfer out of the
    /// pool's token account is made around it); `shares_to_remove` is the share of the
    /// pool that the amount stands for. It is refused, changing nothing, for another
    /// mint than the pool's, or for more than the user deposited. Otherwise the pool's
    /// total falls by the amount, and its shares and the user's deposit by the shares.
    pub fn withdraw_collateral(&mut self, amount: u64, shares_to_remove: u64) -> (r: Result<
        (),
        LendingProgramError,
    >)
        requires
            withdraw_in_range(*old(self), amount, shares_to_remove),
        ensures
            (r, *final(self)) == withdraw_outcome(*old(self), amount, shares_to_remove),
    {
        let deposited_value;
        if keys_equal(&self.mint, &self.pool.mint_address) {
            deposited_value = self.user_account.deposited_usdc;
        } else {
            return Err(LendingProgramError::UnsupportedMint);
        }
        if amount > deposited_value {
            return Err(LendingProgramError::NotEnoughFunds);
        }
        if keys_equal(&self.mint, &self.pool.mint_address) {
            self.user_account.deposited_usdc = self.user_account.deposited_usdc - shares_to_remove;
        } else {
            self.user_account.deposited_sol = self.user_account.deposited_sol - shares_to_remove;
        }
        self.pool.total_deposits = self.pool.total_deposits - amount;
        self.pool.total_deposit_shares = self.pool.total_deposit_shares - shares_to_remove;
        Ok(())
    }
}

} // verus!
