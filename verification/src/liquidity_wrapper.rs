//! The cross-domain liquidity wrapper: tokenized claims on pool
//! liquidity that lives behind an asynchronous router.
//!
//! A request is validated and dispatched as one outbound router call
//! carrying a fixed correlation tag; the router's eventual callback is
//! routed by that tag and applied to the ledger exactly once.
//!
//! Correlation is by operation class, not by request: an add-liquidity
//! confirmation is matched to the *oldest* pending requester of its
//! pool.  When two requests for one pool are in flight and the router
//! reorders their confirmations, the wrong requester is credited; a
//! per-request nonce echoed by the router would remove that weakness,
//! at the price of a protocol change.

pub mod contract;
pub mod error;
pub mod laws;
pub mod msg;
pub mod state;
