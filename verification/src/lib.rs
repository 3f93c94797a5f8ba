//! Tokenized liquidity positions over an asynchronous cross-domain router.
//!
//! The core (`liquidity_wrapper`) dispatches liquidity requests to an
//! external router and correlates the router's asynchronous callbacks
//! back to a local ledger.  Around it stand three synchronous contracts:
//! a token ledger (`ul_nft_core`), a listing marketplace (`marketplace`)
//! and an attribute store (`metadata_manager`).  All state lives in
//! explicit store values handed to every entry point; the host glue that
//! moves bytes in and out of those entry points is not part of this
//! library.

pub mod liquidity_wrapper;
pub mod marketplace;
pub mod metadata_manager;
pub mod numfmt;
pub mod store;
pub mod ul_nft_core;
