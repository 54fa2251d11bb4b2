//! The signers' view of the Bitcoin chain: what they store and how they
//! read a block.

pub mod chain;
pub mod classify;
pub mod deposits;
pub mod dkg;
pub mod error;
pub mod model;
pub mod observer;
pub mod random;
pub mod state;
pub mod store;
pub mod table;
pub mod testing;
pub mod transaction;
