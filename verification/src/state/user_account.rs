use vstd::prelude::*;

use crate::keys::Pubkey;

verus! {

/// What the program records of one user.
#[derive(Debug, Clone, Copy, PartialEq, Eq)]
pub struct User {
    pub owner: Pubkey,
    pub stake_points: u32,
    pub amount_staked: u8,
    pub deposited_usdc: u64,
    pub deposited_sol: u64,
    pub deposited_usdc_shares: u64,
    pub deposited_sol_shares: u64,
    pub borrowed_usdc: u64,
    pub borrowed_sol: u64,
    pub health_factor: u64,
    pub last_updated: i64,
    pub bump: u8,
}

/// The loan of a user as the liquidation instructions see it, in USDC units.
#[derive(Debug, Clone, Copy, PartialEq, Eq)]
pub struct UserAccount {
    pub borrowed_amount_in_usdc: u64,
    pub allowed_borrow_amount_in_usdc: u64,
}

} // verus!
