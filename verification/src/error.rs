use vstd::prelude::*;

verus! {

/// The errors that the lending program reports.
#[derive(Debug, Clone, Copy, PartialEq, Eq)]
pub enum LendingProgramError {
    /// The asset proposed to pay is not the same as the liquidity pool.
    InvalidPoolMint,
    /// The user account is invalid.
    InvalidUserAssetAccount,
    /// The amount you provide is less than what you own.
    NotEnoughFunds,
    /// The margin amount is not big enough.
    MarginNotLargeEnough,
    /// The mints have to match.
    MintMismatch,
    /// This mint is not supported by the protocol.
    UnsupportedMint,
    /// The requested amount is not below what the collateral allows to borrow.
    OverBorrowableAmount,
    /// The oracle feed gave no usable value.
    InvalidSwitchboardAccount,
}

/// Why a Pyth price lookup failed.
#[derive(Debug, Clone, Copy, PartialEq, Eq)]
pub enum PriceError {
    /// The update is older than the requested maximum age.
    PriceTooOld,
    /// The TWAP window size is invalid.
    InvalidWindowSize,
    /// The update is for another feed than the requested one.
    MismatchedFeedId,
    /// The update is less verified than requested.
    InsufficientVerificationLevel,
    /// A feed id must be 64 hex characters, or 66 with a prefix.
    FeedIdMustBe32Bytes,
    /// The feed id holds a character that is not a hex digit.
    FeedIdNonHexCharacter,
}

/// The error of an instruction that reads oracle prices.
#[derive(Debug, Clone, Copy, PartialEq, Eq)]
pub enum InstructionError {
    /// An error of the program itself.
    Lending(LendingProgramError),
    /// A failed price lookup.
    Price(PriceError),
}

} // verus!
