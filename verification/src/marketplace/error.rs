//! Discriminated failures of the marketplace.

use vstd::prelude::*;

verus! {

#[derive(Clone, Copy, Debug, PartialEq, Eq, Structural)]
pub enum ContractError {
    /// The caller is not the seller (or not the administrator).
    Unauthorized,
    /// No listing exists for the given token.
    NotListed,
    /// The token is already listed.
    AlreadyListed,
    /// A listing price must be positive.
    InvalidPrice,
    /// The attached payment does not cover the price.
    InsufficientFunds,
    /// A fee must be at most 10000 basis points.
    InvalidFeePercentage,
    /// No configuration is stored where one is required.
    ConfigNotSet,
}

} // verus!
