use vstd::prelude::*;

use crate::error::LendingProgramError;
use crate::keys::Pubkey;

verus! {

/// The accounts of a collateral supply: the user's token account, its mint and the payer.
#[derive(Debug, Clone, Copy, PartialEq, Eq)]
pub struct SupplyCollateral {
    pub user_token_account: Pubkey,
    pub mint: Pubkey,
    pub payer: Pubkey,
}

/// Supplying collateral: it accepts and changes nothing.
pub fn supply_collateral(ctx: &SupplyCollateral) -> (r: Result<(), LendingProgramError>)
    ensures
        r is Ok,
{
    Ok(())
}

} // verus!
