//! The listing marketplace: synchronous list, cancel and buy with a
//! basis-point fee split between seller and administrator.

pub mod contract;
pub mod error;
pub mod msg;
pub mod state;
