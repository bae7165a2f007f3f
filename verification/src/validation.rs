//! The checks that stand before a release: who asks, which escrow the
//! voucher names, and on which side of the deadline the clock is.

use crate::address::Address;
use crate::error::GideonError;
use crate::metadata::{expiry_seconds, linked_escrow, read_expiry_seconds, read_linked_escrow};
use crate::state::escrow::{Escrow, EscrowView};
use vstd::prelude::*;

verus! {

/// The two ways in which an escrow is released.
#[derive(Debug, Clone, Copy, PartialEq, Eq, Structural)]
pub enum ReleasePath {
    /// The recipient redeems the voucher, up to the deadline.
    Claim,
    /// The payer takes the deposit back, from the deadline on.
    Refund,
}

impl ReleasePath {
    /// The error for a caller who is not the party of this path.
    pub open spec fn spec_identity_error(self) -> GideonError {
        match self {
            ReleasePath::Claim => GideonError::InvalidRecipientAccount,
            ReleasePath::Refund => GideonError::InvalidIssuer,
        }
    }

    /// The error for a clock on the wrong side of the deadline.
    pub open spec fn spec_time_error(self) -> GideonError {
        match self {
            ReleasePath::Claim => GideonError::VoucherExpired,
            ReleasePath::Refund => GideonError::VoucherNotExpired,
        }
    }

    /// The error for a caller who is not the party of this path.
    #[verifier::when_used_as_spec(spec_identity_error)]
    pub fn identity_error(self) -> (error: GideonError)
        ensures
            error == self.spec_identity_error(),
    {
        match self {
            ReleasePath::Claim => GideonError::InvalidRecipientAccount,
            ReleasePath::Refund => GideonError::InvalidIssuer,
        }
    }

    /// The error for a clock on the wrong side of the deadline.
    #[verifier::when_used_as_spec(spec_time_error)]
    pub fn time_error(self) -> (error: GideonError)
        ensures
            error == self.spec_time_error(),
    {
        match self {
            ReleasePath::Claim => GideonError::VoucherExpired,
            ReleasePath::Refund => GideonError::VoucherNotExpired,
        }
    }
}

/// The party of a path in a record: the recipient claims, the payer is
/// refunded.
pub open spec fn party(path: ReleasePath, record: EscrowView) -> Seq<u8> {
    match path {
        ReleasePath::Claim => record.recipient,
        ReleasePath::Refund => record.payer,
    }
}

/// Whether the clock is on the side of the deadline that the path asks
/// for. At the deadline itself both paths are open.
pub open spec fn in_time(path: ReleasePath, now: i64, expiry: int) -> bool {
    match path {
        ReleasePath::Claim => now <= expiry,
        ReleasePath::Refund => now >= expiry,
    }
}

/// The identity check: the caller is the party that the record names for
/// the path. A record that cannot be read names nobody.
pub open spec fn party_verdict(path: ReleasePath, caller: Seq<u8>, record: Option<EscrowView>) -> Result<
    (),
    GideonError,
> {
    match record {
        Some(escrow) => if party(path, escrow) == caller {
            Ok(())
        } else {
            Err(path.identity_error())
        },
        None => Err(path.identity_error()),
    }
}

/// The checks on the voucher, linkage first and time second: its entries
/// name this escrow, and they hold a deadline on the right side of which
/// the clock is.
pub open spec fn voucher_verdict(
    path: ReleasePath,
    entries: Seq<(Seq<char>, Seq<char>)>,
    escrow_key: Seq<u8>,
    now: i64,
) -> Result<(), GideonError> {
    if linked_escrow(entries) != Some(escrow_key) {
        Err(GideonError::InvalidVoucherEscrowAccount)
    } else {
        match expiry_seconds(entries) {
            Some(expiry) => if in_time(path, now, expiry) {
                Ok(())
            } else {
                Err(path.time_error())
            },
            None => Err(path.time_error()),
        }
    }
}

/// Checks that the caller is the party that the record names for the path.
pub fn check_party(path: ReleasePath, caller: &Address, record: Option<Escrow>) -> (verdict: Result<
    (),
    GideonError,
>)
    ensures
        verdict == party_verdict(
            path,
            caller@,
            match record {
                Some(escrow) => Some(escrow@),
                None => None,
            },
        ),
{
    match record {
        Some(escrow) => {
            let named = match path {
                ReleasePath::Claim => escrow.recipient,
                ReleasePath::Refund => escrow.payer,
            };
            if named == *caller {
                Ok(())
            } else {
                Err(path.identity_error())
            }
        },
        None => Err(path.identity_error()),
    }
}

/// Checks a voucher's entries against the escrow and the clock.
pub fn check_voucher(
    path: ReleasePath,
    entries: &Vec<(String, String)>,
    escrow_key: &Address,
    now: i64,
) -> (verdict: Result<(), GideonError>)
    ensures
        verdict == voucher_verdict(path, entries.deep_view(), escrow_key@, now),
{
    match read_linked_escrow(entries) {
        Some(linked) => {
            if linked != *escrow_key {
                return Err(GideonError::InvalidVoucherEscrowAccount);
            }
        },
        None => {
            return Err(GideonError::InvalidVoucherEscrowAccount);
        },
    }
    match read_expiry_seconds(entries) {
        Some(expiry) => {
            let open = match path {
                ReleasePath::Claim => now <= expiry,
                ReleasePath::Refund => now >= expiry,
            };
            if open {
                Ok(())
            } else {
                Err(path.time_error())
            }
        },
        None => Err(path.time_error()),
    }
}

} // verus!
