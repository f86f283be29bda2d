use vstd::prelude::*;

use vstd::string::{is_ascii, is_ascii_spec_bytes, StringSliceAdditionalSpecFns};

verus! {

/// The Pyth feed id of the SOL/USD price.
pub const SOL_USD_FEED_ID: &'static str = "0xef0d8b6fda2ceba41da15d4095d1da392a0d2f8ed0c6c7bc0f4cfac8c280b56d";

/// The Pyth feed id of the USDC/USD price.
pub const USDC_USD_FEED_ID: &'static str = "0xeaa020c61cc479712813461ce153894a96a6c00b21ed0cfc2798d1f9a9e9c94a";

/// The oldest price, in seconds, that a borrow accepts.
pub const MAXIMUM_AGE: u64 = 100;

/// The base58 address of the USDC mint.
pub const USDC_ADDRESS: &'static str = "EPjFWdd5AufqSSqeM2qN1xzybapC8G4wEGGkZwyTDt1v";

/// The feed id texts are 66 ASCII characters, so each of their bytes is the code of the
/// character at its place; they open with `0xef` and `0xea`.
pub proof fn lemma_feed_id_texts()
    ensures
        SOL_USD_FEED_ID@.len() == 66,
        USDC_USD_FEED_ID@.len() == 66,
        SOL_USD_FEED_ID.spec_bytes() == Seq::new(66, |i: int| SOL_USD_FEED_ID@[i] as u8),
        USDC_USD_FEED_ID.spec_bytes() == Seq::new(66, |i: int| USDC_USD_FEED_ID@[i] as u8),
        SOL_USD_FEED_ID@[2] == 'e' && SOL_USD_FEED_ID@[3] == 'f',
        USDC_USD_FEED_ID@[2] == 'e' && USDC_USD_FEED_ID@[3] == 'a',
{
    reveal_strlit("0xef0d8b6fda2ceba41da15d4095d1da392a0d2f8ed0c6c7bc0f4cfac8c280b56d");
    reveal_strlit("0xeaa020c61cc479712813461ce153894a96a6c00b21ed0cfc2798d1f9a9e9c94a");
    assert(is_ascii(SOL_USD_FEED_ID));
    assert(is_ascii(USDC_USD_FEED_ID));
    is_ascii_spec_bytes(SOL_USD_FEED_ID);
    is_ascii_spec_bytes(USDC_USD_FEED_ID);
}

} // verus!
