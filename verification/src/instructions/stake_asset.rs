use vstd::prelude::*;

use crate::error::LendingProgramError;
use crate::keys::Pubkey;

verus! {

/// The accounts of a stake: its signer.
#[derive(Debug, Clone, Copy, PartialEq, Eq)]
pub struct StakeAsset {
    pub signer: Pubkey,
}

/// Staking: it accepts any amount and changes nothing.
pub fn stake_asset(ctx: &StakeAsset, amount: u64) -> (r: Result<(), LendingProgramError>)
    ensures
        r is Ok,
{
    Ok(())
}

} // verus!
