use vstd::prelude::*;

use crate::error::LendingProgramError;
use crate::keys::Pubkey;

verus! {

/// The accounts of the bare user-initialisation instruction: only its payer.
#[derive(Debug, Clone, Copy, PartialEq, Eq)]
pub struct InitializeUser {
    pub payer: Pubkey,
}

/// The bare user-initialisation instruction: it accepts and changes nothing.
#[allow(non_snake_case)]
pub fn initializeUser(ctx: &InitializeUser) -> (r: Result<(), LendingProgramError>)
    ensures
        r is Ok,
{
    Ok(())
}

} // verus!
