//! The failures that the operations can report.

use solana_program::program_error::ProgramError;
use vstd::prelude::*;

verus! {

/// Why the protocol's own rules rejected an operation.
#[derive(Debug, Clone, Copy, PartialEq, Eq, Structural)]
pub enum GideonError {
    /// The instruction could not be understood.
    InvalidInstruction,
    /// The presented authority is not the derived one.
    InvalidMintAuthority,
    /// The claimer is not the recipient recorded in the escrow.
    InvalidRecipientAccount,
    /// The payer cannot fund the deposit.
    InsufficientFunds,
    /// The voucher does not name this escrow.
    InvalidVoucherEscrowAccount,
    /// The voucher's deadline has passed.
    VoucherExpired,
    /// The refund was asked for by someone other than the payer.
    InvalidIssuer,
    /// The voucher's deadline has not been reached yet.
    VoucherNotExpired,
}

impl GideonError {
    /// The position of the variant in the list of errors.
    pub open spec fn spec_code(self) -> u32 {
        match self {
            GideonError::InvalidInstruction => 0,
            GideonError::InvalidMintAuthority => 1,
            GideonError::InvalidRecipientAccount => 2,
            GideonError::InsufficientFunds => 3,
            GideonError::InvalidVoucherEscrowAccount => 4,
            GideonError::VoucherExpired => 5,
            GideonError::InvalidIssuer => 6,
            GideonError::VoucherNotExpired => 7,
        }
    }

    /// The number under which the error is reported to the caller of the
    /// program, as a custom error.
    pub fn code(self) -> (n: u32)
        ensures
            n == self.spec_code(),
    {
        match self {
            GideonError::InvalidInstruction => 0,
            GideonError::InvalidMintAuthority => 1,
            GideonError::InvalidRecipientAccount => 2,
            GideonError::InsufficientFunds => 3,
            GideonError::InvalidVoucherEscrowAccount => 4,
            GideonError::VoucherExpired => 5,
            GideonError::InvalidIssuer => 6,
            GideonError::VoucherNotExpired => 7,
        }
    }
}

#[verifier::external_type_specification]
#[verifier::external_body]
pub struct ExProgramError(ProgramError);

/// Why an operation produced no actions.
#[derive(Debug, PartialEq)]
pub enum Failure {
    /// A rule of the protocol rejected the operation.
    Rejected(GideonError),
    /// Fewer accounts were passed than the operation reads.
    NotEnoughAccountKeys,
    /// The seeds derive no address under the program.
    InvalidSeeds,
    /// An account's data is shorter than what is to be written to it.
    AccountDataTooSmall,
    /// A size does not fit the machine's integers.
    ArithmeticOverflow,
    /// An outside program library refused; the value is its own error.
    Program(ProgramError),
}

/// A failure without the outside error's content, which contracts cannot
/// speak of.
#[derive(Debug, Clone, Copy, PartialEq, Eq, Structural)]
pub enum Cause {
    Rejected(GideonError),
    NotEnoughAccountKeys,
    InvalidSeeds,
    AccountDataTooSmall,
    ArithmeticOverflow,
    Outside,
}

impl View for Failure {
    type V = Cause;

    open spec fn view(&self) -> Cause {
        match self {
            Failure::Rejected(e) => Cause::Rejected(*e),
            Failure::NotEnoughAccountKeys => Cause::NotEnoughAccountKeys,
            Failure::InvalidSeeds => Cause::InvalidSeeds,
            Failure::AccountDataTooSmall => Cause::AccountDataTooSmall,
            Failure::ArithmeticOverflow => Cause::ArithmeticOverflow,
            Failure::Program(_) => Cause::Outside,
        }
    }
}

} // verus!
