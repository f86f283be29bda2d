use vstd::prelude::*;

use crate::error::LendingProgramError;
use crate::keys::Pubkey;
use crate::state::pool_config::PoolConfig;

verus! {

/// What opening a pool reads and writes: the payer, who becomes the pool's authority,
/// the pool's mint and the new pool.
#[derive(Debug, Clone, Copy, PartialEq, Eq)]
pub struct InitializePool {
    pub payer: Pubkey,
    pub mint: Pubkey,
    pub pool_config: PoolConfig,
}

impl InitializePool {
    /// Sets the pool's mint, its authority (the payer), its liquidation threshold and
    /// maximum loan-to-value factor, and stamps it with the time `now`; nothing else of
    /// the pool changes.
    pub fn initialize_pool(&mut self, liquidation_threshold: u64, max_ltv: u64, now: i64) -> (r:
        Result<(), LendingProgramError>)
        ensures
            r is Ok,
            final(self).payer == old(self).payer,
            final(self).mint == old(self).mint,
            final(self).pool_config == (PoolConfig {
                mint_address: old(self).mint,
                authority: old(self).payer,
                liquidation_threshold,
                max_ltv,
                last_updated: now,
                ..old(self).pool_config
            }),
    {
        self.pool_config.mint_address = self.mint;
        self.pool_config.authority = self.payer;
        self.pool_config.liquidation_threshold = liquidation_threshold;
        self.pool_config.max_ltv = max_ltv;
        self.pool_config.last_updated = now;
        Ok(())
    }
}

} // verus!
