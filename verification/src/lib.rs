//! Verified core of an sBTC bridge: the deposit ledger's table entries and
//! the signers' reorg-safe view of the Bitcoin chain.

pub mod emily;
pub mod signer;
