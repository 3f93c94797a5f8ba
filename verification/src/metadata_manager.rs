//! The attribute store: token metadata and pool statistics, written
//! only by a configured set of updaters.

pub mod contract;
pub mod error;
pub mod msg;
pub mod state;
