//! Discriminated failures of the token ledger.

use vstd::prelude::*;

verus! {

#[derive(Clone, Copy, Debug, PartialEq, Eq, Structural)]
pub enum ContractError {
    /// The caller is not the token's owner.
    Unauthorized,
    /// No token is stored under the given identifier.
    TokenNotFound,
    CannotSetApprovalForOwnAccount,
    InvalidTokenId,
    InvalidLiquidityPosition,
    /// The identifier the mint would assign is already taken.
    TokenAlreadyExists,
    InvalidEuclidRouter,
    /// The supply counter cannot grow any further.
    SupplyExhausted,
}

} // verus!
