//! The operations of the protocol.

pub mod burn;
pub mod create;
pub mod escrow;
pub mod expired;
pub mod init_authority;
pub mod mint;
