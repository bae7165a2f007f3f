//! The escrow record: one locked deposit, and its fixed-width layout.

use crate::address::{zero_bytes, Address};
use vstd::bytes::{
    lemma_auto_spec_u64_to_from_le_bytes, spec_u64_from_le_bytes, spec_u64_to_le_bytes,
    spec_u64_to_le_bytes_open, spec_u64_to_le_bytes_to_open, u64_from_le_bytes, u64_to_le_bytes,
};
use vstd::prelude::*;
use vstd::slice::slice_subrange;

verus! {

/// One locked deposit: who paid, who may claim, how much, the bump of the
/// record's own address, and the voucher that is bound to it.
#[derive(Debug, Clone, Copy, PartialEq, Eq)]
pub struct Escrow {
    pub payer: Address,
    pub recipient: Address,
    pub amount: u64,
    pub bump: u8,
    pub voucher_mint: Address,
}

/// The mathematical value of an [`Escrow`].
pub struct EscrowView {
    pub payer: Seq<u8>,
    pub recipient: Seq<u8>,
    pub amount: u64,
    pub bump: u8,
    pub voucher_mint: Seq<u8>,
}

impl View for Escrow {
    type V = EscrowView;

    open spec fn view(&self) -> EscrowView {
        EscrowView {
            payer: self.payer@,
            recipient: self.recipient@,
            amount: self.amount,
            bump: self.bump,
            voucher_mint: self.voucher_mint@,
        }
    }
}

/// The bytes that a record occupies: two identities, the amount in eight
/// bytes, the bump, and a third identity.
pub const PACKED_LEN: usize = 105;

/// The record whose every field is zero: what a released escrow reads as.
pub open spec fn zeroed() -> EscrowView {
    EscrowView {
        payer: zero_bytes(),
        recipient: zero_bytes(),
        amount: 0,
        bump: 0,
        voucher_mint: zero_bytes(),
    }
}

/// The layout of a record: payer, recipient, amount in little-endian
/// order, bump, voucher.
pub open spec fn packed(record: EscrowView) -> Seq<u8> {
    record.payer + record.recipient + spec_u64_to_le_bytes(record.amount) + seq![record.bump]
        + record.voucher_mint
}

/// The record that the start of `data` holds, or `None` where `data` is too
/// short to hold one. What follows the record is not looked at.
pub open spec fn unpacked(data: Seq<u8>) -> Option<EscrowView> {
    if data.len() < 105 {
        None
    } else {
        Some(
            EscrowView {
                payer: data.subrange(0, 32),
                recipient: data.subrange(32, 64),
                amount: spec_u64_from_le_bytes(data.subrange(64, 72)),
                bump: data[72],
                voucher_mint: data.subrange(73, 105),
            },
        )
    }
}

/// The seeds of an escrow record's address, without the bump: the prefix
/// and the three identities that the record is keyed by.
pub open spec fn escrow_seeds(payer: Seq<u8>, recipient: Seq<u8>, voucher_mint: Seq<u8>) -> Seq<
    Seq<u8>,
> {
    seq![seed_prefix(), payer, recipient, voucher_mint]
}

/// The bytes of the text `escrow`.
pub open spec fn seed_prefix() -> Seq<u8> {
    seq![101u8, 115u8, 99u8, 114u8, 111u8, 119u8]
}

impl Escrow {
    /// The size of the account that holds a record. It reserves sixteen
    /// bytes for the amount, of which the layout uses eight.
    pub const ACCOUNT_SPACE: usize = 32 + 32 + 16 + 1 + 32;

    /// The text that every escrow address is derived from.
    pub const SEED_PREFIX: &'static str = "escrow";

    /// The record with the given fields.
    pub fn new(payer: Address, recipient: Address, amount: u64, bump: u8, voucher_mint: Address) -> (record: Escrow)
        ensures
            record.payer == payer,
            record.recipient == recipient,
            record.amount == amount,
            record.bump == bump,
            record.voucher_mint == voucher_mint,
    {
        Escrow { payer, recipient, amount, bump, voucher_mint }
    }

    /// The seed prefix as bytes.
    pub fn seed_prefix_bytes() -> (bytes: Vec<u8>)
        ensures
            bytes@ == seed_prefix(),
    {
        let prefix = Escrow::SEED_PREFIX;
        proof {
            reveal_strlit("escrow");
            assert(vstd::string::is_ascii(prefix));
            vstd::string::is_ascii_spec_bytes(prefix);
        }
        let bytes = vstd::slice::slice_to_vec(prefix.as_bytes());
        assert(bytes@ =~= seed_prefix());
        bytes
    }

    /// Reads the record at the start of an account's data.
    pub fn unpack(data: &[u8]) -> (record: Option<Escrow>)
        ensures
            match record {
                Some(r) => unpacked(data@) == Some(r@),
                None => unpacked(data@).is_none(),
            },
    {
        if data.len() < PACKED_LEN {
            return None;
        }
        let payer = Address::from_slice(data, 0);
        let recipient = Address::from_slice(data, 32);
        let amount: u64 = u64_from_le_bytes(slice_subrange(data, 64, 72));
        let bump: u8 = data[72];
        let voucher_mint = Address::from_slice(data, 73);
        Some(Escrow { payer, recipient, amount, bump, voucher_mint })
    }

    /// The record in its layout.
    pub fn pack(&self) -> (bytes: Vec<u8>)
        ensures
            bytes@ == packed(self@),
            bytes@.len() == 105,
    {
        let mut bytes = self.payer.to_vec();
        let mut recipient = self.recipient.to_vec();
        let mut amount = u64_to_le_bytes(self.amount);
        let mut voucher_mint = self.voucher_mint.to_vec();
        bytes.append(&mut recipient);
        bytes.append(&mut amount);
        bytes.push(self.bump);
        bytes.append(&mut voucher_mint);
        bytes
    }
}

/// A record written over the start of any data reads back as itself.
pub proof fn lemma_unpack_packed(record: EscrowView, rest: Seq<u8>)
    requires
        record.payer.len() == 32,
        record.recipient.len() == 32,
        record.voucher_mint.len() == 32,
    ensures
        packed(record).len() == 105,
        unpacked(packed(record) + rest) == Some(record),
{
    lemma_auto_spec_u64_to_from_le_bytes();
    let data = packed(record) + rest;
    assert(data.subrange(0, 32) =~= record.payer);
    assert(data.subrange(32, 64) =~= record.recipient);
    assert(data.subrange(64, 72) =~= spec_u64_to_le_bytes(record.amount));
    assert(data.subrange(73, 105) =~= record.voucher_mint);
}

/// Data that is zero throughout, and long enough, reads as the zeroed
/// record.
pub proof fn lemma_unpack_zeroes(data: Seq<u8>)
    requires
        data.len() >= 105,
        forall|i: int| 0 <= i < data.len() ==> data[i] == 0,
    ensures
        unpacked(data) == Some(zeroed()),
{
    lemma_auto_spec_u64_to_from_le_bytes();
    spec_u64_to_le_bytes_to_open(0);
    assert(spec_u64_to_le_bytes_open(0) =~= data.subrange(64, 72)) by {
        assert(0u64 & 0xff == 0) by (bit_vector);
        assert((0u64 >> 8) & 0xff == 0) by (bit_vector);
        assert((0u64 >> 16) & 0xff == 0) by (bit_vector);
        assert((0u64 >> 24) & 0xff == 0) by (bit_vector);
        assert((0u64 >> 32) & 0xff == 0) by (bit_vector);
        assert((0u64 >> 40) & 0xff == 0) by (bit_vector);
        assert((0u64 >> 48) & 0xff == 0) by (bit_vector);
        assert((0u64 >> 56) & 0xff == 0) by (bit_vector);
    }
    assert(data.subrange(0, 32) =~= zero_bytes());
    assert(data.subrange(32, 64) =~= zero_bytes());
    assert(data.subrange(73, 105) =~= zero_bytes());
}

} // verus!
