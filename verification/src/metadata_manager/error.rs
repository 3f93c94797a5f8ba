//! Discriminated failures of the metadata manager.

use vstd::prelude::*;

verus! {

#[derive(Clone, Copy, Debug, PartialEq, Eq, Structural)]
pub enum ContractError {
    /// The caller is not an updater (or not the administrator).
    Unauthorized,
    /// No metadata is stored for the given token.
    TokenNotFound,
    /// No statistics are stored for the given pool.
    PoolNotFound,
    InvalidMetadata,
    InvalidAttribute,
    /// An attribute with the same trait is already present.
    DuplicateAttribute,
    UpdaterExists,
    /// The address is not among the updaters.
    UpdaterNotFound,
    /// The updater set may not become empty.
    CannotRemoveLastUpdater,
    /// The address is already among the updaters.
    DuplicateUpdater,
    /// No configuration is stored where one is required.
    ConfigNotSet,
}

} // verus!
