use vstd::prelude::*;

use crate::error::LendingProgramError;
use crate::keys::Pubkey;

verus! {

/// The lending parameters of one asset.
#[derive(Debug, Clone, Copy, PartialEq, Eq)]
pub struct AssetConfig {
    pub max_ltv: u64,
    pub liquidation_threshold: u64,
    pub apy: u64,
}

/// What configuring an asset reads and writes: the payer, the asset's mint and the
/// new configuration.
#[derive(Debug, Clone, Copy, PartialEq, Eq)]
pub struct InitializeAsset {
    pub payer: Pubkey,
    pub mint: Pubkey,
    pub asset_config: AssetConfig,
}

/// Writes the three parameters into the asset's configuration.
pub fn initialize_asset(
    ctx: &mut InitializeAsset,
    max_ltv: u64,
    liquidation_threshold: u64,
    apy: u64,
) -> (r: Result<(), LendingProgramError>)
    ensures
        r is Ok,
        final(ctx).payer == old(ctx).payer,
        final(ctx).mint == old(ctx).mint,
        final(ctx).asset_config == (AssetConfig { max_ltv, liquidation_threshold, apy }),
{
    ctx.asset_config.max_ltv = max_ltv;
    ctx.asset_config.liquidation_threshold = liquidation_threshold;
    ctx.asset_config.apy = apy;
    Ok(())
}

} // verus!
