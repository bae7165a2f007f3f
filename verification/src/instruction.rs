//! The instructions that the program accepts.

use crate::instructions::escrow::InitEscrowArgs;
use crate::instructions::mint::MintVoucherArgs;
use vstd::prelude::*;

verus! {

/// One request to the program. Each comes with a fixed, ordered list of
/// accounts, which the operation behind it documents.
#[derive(Debug, Clone, PartialEq, Eq)]
pub enum GideonInstruction {
    /// Sets up the program's authority.
    InitMintAuthority,
    /// Opens an escrow and issues the voucher that is bound to it.
    InitEscrowAndMintVoucher(InitEscrowArgs, MintVoucherArgs),
    /// The claim: releases the escrow to the recipient and burns the
    /// voucher.
    ReleaseEscrowAndBurnVoucher,
    /// The refund: releases the escrow to the payer.
    ReleaseExpiredEscrow,
}

} // verus!
