//! The deposit ledger: API resources, errors and table entries.

pub mod api;
pub mod entries;
pub mod error;
