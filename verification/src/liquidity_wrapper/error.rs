//! Discriminated failures of the liquidity wrapper.

use vstd::prelude::*;

verus! {

#[derive(Clone, Copy, Debug, PartialEq, Eq, Structural)]
pub enum ContractError {
    /// The caller is not the stored owner of the position.
    Unauthorized,
    InvalidEuclidRouter,
    InvalidEuclidFactory,
    /// A position expected to exist is absent.
    PositionNotFound,
    PoolNotFound,
    InvalidPositionAmount,
    InvalidTokenPair,
    ChainNotSupported,
    /// The slot the handler would write is already taken.
    OperationPending,
    /// The router reported failure for a dispatched operation.
    CrossChainOperationFailed,
    /// A requested removal exceeds the stored amount.
    InsufficientLiquidity,
    PositionLocked,
    /// A callback carried a correlation tag the correlator does not
    /// know; fatal, never ignored.
    UnknownCorrelationTag,
    /// No configuration is stored where one is required.
    InvalidConfiguration,
    /// A callback payload does not have the shape its tag requires.
    InvalidReplyData,
}

} // verus!
