//! The token ledger: mint, transfer, approve, burn and rewrite of
//! position-bearing tokens, owned synchronously — no asynchronous
//! correlation is involved here.

pub mod contract;
pub mod error;
pub mod msg;
pub mod state;
