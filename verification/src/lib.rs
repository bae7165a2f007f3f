//! Escrow deposits released against a single-use, time-bounded voucher.
//!
//! A payer locks funds in an escrow record for a recipient and a voucher is
//! issued that names the record and a deadline. Before the deadline the
//! recipient redeems the voucher for the funds; from the deadline on the
//! payer may take them back. Every operation here decides from plain values
//! and answers with the list of actions to carry out on the ledger.

pub mod account;
pub mod address;
pub mod builders;
pub mod decimal;
pub mod error;
pub mod instruction;
pub mod instructions;
pub mod invocation;
pub mod laws;
pub mod ledger;
pub mod metadata;
pub mod processor;
pub mod state;
pub mod validation;
