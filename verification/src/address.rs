//! Identities of accounts, and the addresses a program derives for itself.

use solana_program::pubkey::Pubkey;
use std::str::FromStr;
use vstd::prelude::*;

verus! {

/// The identity of an account, a record or a participant: 32 opaque bytes.
#[derive(Debug, Clone, Copy)]
pub struct Address {
    pub bytes: [u8; 32],
}

impl View for Address {
    type V = Seq<u8>;

    open spec fn view(&self) -> Seq<u8> {
        self.bytes@
    }
}

impl DeepView for Address {
    type V = Seq<u8>;

    open spec fn deep_view(&self) -> Seq<u8> {
        self.bytes@
    }
}

impl PartialEq for Address {
    fn eq(&self, other: &Address) -> (same: bool) {
        let mut i: usize = 0;
        while i < 32
            invariant
                i <= 32,
                forall|j: int| 0 <= j < i ==> self.bytes@[j] == other.bytes@[j],
            decreases 32 - i,
        {
            if self.bytes[i] != other.bytes[i] {
                return false;
            }
            i = i + 1;
        }
        assert(self.bytes@ =~= other.bytes@);
        true
    }
}

impl Eq for Address {

}

impl vstd::std_specs::cmp::PartialEqSpecImpl for Address {
    open spec fn obeys_eq_spec() -> bool {
        true
    }

    open spec fn eq_spec(&self, other: &Address) -> bool {
        self@ == other@
    }
}

/// The all-zero identity as a sequence: what a zeroed record holds in place
/// of a participant.
pub open spec fn zero_bytes() -> Seq<u8> {
    Seq::new(32, |i: int| 0u8)
}

/// An identity has 32 bytes.
pub proof fn lemma_address_len(address: Address)
    ensures
        address@.len() == 32,
{
}

impl Address {
    /// The identity with the given bytes.
    pub fn new(bytes: [u8; 32]) -> (address: Address)
        ensures
            address@ == bytes@,
    {
        Address { bytes }
    }

    /// The all-zero identity.
    pub fn zero() -> (address: Address)
        ensures
            address@ == zero_bytes(),
    {
        let address = Address { bytes: [0u8; 32] };
        assert(address@ =~= zero_bytes());
        address
    }

    /// Whether every byte is zero.
    pub fn is_zero(&self) -> (zero: bool)
        ensures
            zero == (self@ == zero_bytes()),
    {
        let mut i: usize = 0;
        while i < 32
            invariant
                i <= 32,
                forall|j: int| 0 <= j < i ==> self.bytes@[j] == 0,
            decreases 32 - i,
        {
            if self.bytes[i] != 0 {
                assert(zero_bytes()[i as int] == 0);
                return false;
            }
            i = i + 1;
        }
        assert(self@ =~= zero_bytes());
        true
    }

    /// The identity stored in `data` from `offset` on.
    pub fn from_slice(data: &[u8], offset: usize) -> (address: Address)
        requires
            offset + 32 <= data@.len(),
        ensures
            address@ == data@.subrange(offset as int, offset + 32),
    {
        let len: usize = data.len();
        let mut bytes = [0u8; 32];
        let mut i: usize = 0;
        while i < 32
            invariant
                i <= 32,
                offset + 32 <= len == data@.len(),
                forall|j: int| 0 <= j < i ==> bytes@[j] == data@[offset + j],
            decreases 32 - i,
        {
            bytes[i] = data[offset + i];
            i = i + 1;
        }
        assert(bytes@ =~= data@.subrange(offset as int, offset + 32));
        Address { bytes }
    }

    /// The bytes as a vector, the form in which an identity serves as a seed.
    pub fn to_vec(&self) -> (bytes: Vec<u8>)
        ensures
            bytes@ == self@,
    {
        let mut bytes: Vec<u8> = Vec::new();
        let mut i: usize = 0;
        while i < 32
            invariant
                i <= 32,
                bytes@.len() == i,
                forall|j: int| 0 <= j < i ==> bytes@[j] == self.bytes@[j],
            decreases 32 - i,
        {
            bytes.push(self.bytes[i]);
            i = i + 1;
        }
        assert(bytes@ =~= self@);
        bytes
    }
}

/// The address that the seeds derive under a program, with the bump that
/// completes them, or `None` where they derive none.
pub uninterp spec fn program_address(seeds: Seq<Seq<u8>>, program_id: Seq<u8>) -> Option<
    (Seq<u8>, u8),
>;

/// The identity that a text spells in base 58, or `None` where the text
/// spells none.
pub uninterp spec fn address_of_text(text: Seq<char>) -> Option<Seq<u8>>;

/// The base-58 text of an identity.
pub uninterp spec fn text_of_address(address: Seq<u8>) -> Seq<char>;

/// Calls `Pubkey::try_find_program_address`. The result is a function of the
/// seeds and the program alone; the contract gives it the name
/// `program_address` and claims nothing else of it.
#[verifier::external_body]
pub(crate) fn find_program_address(seeds: &Vec<Vec<u8>>, program_id: &Address) -> (found: Option<
    (Address, u8),
>)
    ensures
        match found {
            Some((address, bump)) => program_address(seeds.deep_view(), program_id@) == Some(
                (address@, bump),
            ),
            None => program_address(seeds.deep_view(), program_id@).is_none(),
        },
{
    let parts: Vec<&[u8]> = seeds.iter().map(|seed| seed.as_slice()).collect();
    Pubkey::try_find_program_address(&parts, &Pubkey::new_from_array(program_id.bytes))
        .map(|(key, bump)| (Address { bytes: key.to_bytes() }, bump))
}

/// Calls `Pubkey::from_str`. Whether the text parses, and to which bytes, is
/// a function of the text alone, named `address_of_text`.
#[verifier::external_body]
pub(crate) fn parse_address(text: &str) -> (parsed: Option<Address>)
    ensures
        match parsed {
            Some(address) => address_of_text(text@) == Some(address@),
            None => address_of_text(text@).is_none(),
        },
{
    Pubkey::from_str(text).ok().map(|key| Address { bytes: key.to_bytes() })
}

/// Calls `Pubkey::to_string`, the base-58 rendering, named
/// `text_of_address`.
#[verifier::external_body]
pub(crate) fn address_text(address: &Address) -> (text: String)
    ensures
        text@ == text_of_address(address@),
{
    Pubkey::new_from_array(address.bytes).to_string()
}

} // verus!
