//! The records that the program keeps on the ledger.

pub mod authority;
pub mod escrow;
