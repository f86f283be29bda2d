use vstd::prelude::*;

use crate::error::LendingProgramError;
use crate::keys::Pubkey;
use crate::state::user_account::User;

verus! {

/// What opening a user account reads and writes: the payer, who becomes the owner, and
/// the new account.
#[derive(Debug, Clone, Copy, PartialEq, Eq)]
pub struct InitializeUser {
    pub payer: Pubkey,
    pub user_account: User,
}

impl InitializeUser {
    /// Makes the payer the owner of the new user account and stamps it with the time
    /// `now`; nothing else of the account changes.
    pub fn initialize_user(&mut self, now: i64) -> (r: Result<(), LendingProgramError>)
        ensures
            r is Ok,
            final(self).payer == old(self).payer,
            final(self).user_account == (User {
                owner: old(self).payer,
                last_updated: now,
                ..old(self).user_account
            }),
    {
        self.user_account.owner = self.payer;
        self.user_account.last_updated = now;
        Ok(())
    }
}

} // verus!
