//! The verified core of a lending pool: deposits, withdrawals, borrowing against
//! collateral priced by an oracle, and liquidation of loans whose margin ran out.

pub mod error;
pub mod keys;
pub mod state;
pub mod constants;
pub mod decimal;
pub mod feed;
pub mod instructions;
pub mod oracle;
pub mod laws;

use vstd::prelude::*;

use crate::error::{InstructionError, LendingProgramError};
use crate::instructions::borrow_asset::{borrow_in_range, borrow_outcome, BorrowAsset};
use crate::instructions::deposit_collateral::{deposit_in_range, deposit_outcome, DepositCollateral};
use crate::instructions::initialize_pool::InitializePool;
use crate::instructions::initialize_user::InitializeUser;
use crate::instructions::withdraw_collateral::{withdraw_in_range, withdraw_outcome, WithdrawCollateral};
use crate::state::pool_config::PoolConfig;
use crate::state::user_account::User;

verus! {

/// The program's borrow instruction: `BorrowAsset::borrow_asset`.
pub fn borrow_asset(ctx: &mut BorrowAsset, amount: u64, now: i64) -> (r: Result<bool, InstructionError>)
    requires
        borrow_in_range(*old(ctx), amount, now),
    ensures
        (r, *final(ctx)) == borrow_outcome(*old(ctx), amount, now),
{
    ctx.borrow_asset(amount, now)
}

/// The program's user-opening instruction: `InitializeUser::initialize_user`.
pub fn initialize_user(ctx: &mut InitializeUser, now: i64) -> (r: Result<(), LendingProgramError>)
    ensures
        r is Ok,
        final(ctx).payer == old(ctx).payer,
        final(ctx).user_account == (User {
            owner: old(ctx).payer,
            last_updated: now,
            ..old(ctx).user_account
        }),
{
    ctx.initialize_user(now)
}

/// The program's pool-opening instruction: `InitializePool::initialize_pool`.
pub fn initialize_pool(
    ctx: &mut InitializePool,
    liquidation_threshold: u64,
    max_ltv: u64,
    now: i64,
) -> (r: Result<(), LendingProgramError>)
    ensures
        r is Ok,
        final(ctx).payer == old(ctx).payer,
        final(ctx).mint == old(ctx).mint,
        final(ctx).pool_config == (PoolConfig {
            mint_address: old(ctx).mint,
            authority: old(ctx).payer,
            liquidation_threshold,
            max_ltv,
            last_updated: now,
            ..old(ctx).pool_config
        }),
{
    ctx.initialize_pool(liquidation_threshold, max_ltv, now)
}

/// The program's deposit instruction: `DepositCollateral::deposit_collateral`.
pub fn deposit_collateral(ctx: &mut DepositCollateral, amount: u64) -> (r: Result<(), LendingProgramError>)
    requires
        deposit_in_range(*old(ctx), amount),
    ensures
        (r, *final(ctx)) == deposit_outcome(*old(ctx), amount),
{
    ctx.deposit_collateral(amount)
}

/// The program's withdrawal instruction: `WithdrawCollateral::withdraw_collateral`.
pub fn withdraw_collateral(ctx: &mut WithdrawCollateral, amount: u64, shares_to_remove: u64) -> (r:
    Result<(), LendingProgramError>)
    requires
        withdraw_in_range(*old(ctx), amount, shares_to_remove),
    ensures
        (r, *final(ctx)) == withdraw_outcome(*old(ctx), amount, shares_to_remove),
{
    ctx.withdraw_collateral(amount, shares_to_remove)
}

} // verus!
