//! Error kinds reported by every ledger operation.

use vstd::prelude::*;

verus! {

/// The enumerated failure taxonomy of the ledger.
#[derive(Copy, Clone, Debug, PartialEq, Eq, PartialOrd, Ord, Hash, Structural)]
pub enum TokenError {
    // lifecycle
    NotInitialized,
    AlreadyInitialized,
    Unauthorized,
    Paused,
    // unique tokens
    NftNotFound,
    NftNotOwner,
    NftNotApproved,
    // semi-fungible tokens
    SftClassNotFound,
    SftInsufficientBalance,
    SftMaxSupplyExceeded,
    SftBatchLengthMismatch,
    // extensions
    NotWhitelisted,
    InvalidBasisPoints,
    RoyaltyNotSet,
    /// A counter, supply or balance would leave the 64-bit range.
    ArithmeticOverflow,
}

impl TokenError {
    /// The numeric code the error is reported under.
    pub fn code(&self) -> (r: u32)
        ensures
            r == self.spec_code(),
    {
        match self {
            TokenError::NotInitialized => 1,
            TokenError::AlreadyInitialized => 2,
            TokenError::Unauthorized => 3,
            TokenError::Paused => 4,
            TokenError::NftNotFound => 100,
            TokenError::NftNotOwner => 101,
            TokenError::NftNotApproved => 102,
            TokenError::SftClassNotFound => 200,
            TokenError::SftInsufficientBalance => 201,
            TokenError::SftMaxSupplyExceeded => 202,
            TokenError::SftBatchLengthMismatch => 203,
            TokenError::NotWhitelisted => 300,
            TokenError::InvalidBasisPoints => 301,
            TokenError::RoyaltyNotSet => 302,
            TokenError::ArithmeticOverflow => 400,
        }
    }

    pub open spec fn spec_code(&self) -> u32 {
        match self {
            TokenError::NotInitialized => 1,
            TokenError::AlreadyInitialized => 2,
            TokenError::Unauthorized => 3,
            TokenError::Paused => 4,
            TokenError::NftNotFound => 100,
            TokenError::NftNotOwner => 101,
            TokenError::NftNotApproved => 102,
            TokenError::SftClassNotFound => 200,
            TokenError::SftInsufficientBalance => 201,
            TokenError::SftMaxSupplyExceeded => 202,
            TokenError::SftBatchLengthMismatch => 203,
            TokenError::NotWhitelisted => 300,
            TokenError::InvalidBasisPoints => 301,
            TokenError::RoyaltyNotSet => 302,
            TokenError::ArithmeticOverflow => 400,
        }
    }
}

} // verus!
