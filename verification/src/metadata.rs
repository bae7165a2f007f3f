//! The two facts that a voucher carries in its metadata: the escrow that it
//! is bound to, and its deadline.

use crate::address::{address_of_text, parse_address, Address};
use crate::decimal::{decimal_i64, parse_i64};
use solana_program::program_error::ProgramError;
use spl_token_2022::extension::{BaseStateWithExtensions, StateWithExtensions};
use spl_token_2022::state::Mint;
use spl_token_metadata_interface::state::TokenMetadata;
use vstd::prelude::*;

verus! {

/// The key under which a voucher names its escrow.
pub const ESCROW_KEY: &'static str = "escrow";

/// The key under which a voucher keeps its deadline, in milliseconds.
pub const EXPIRY_KEY: &'static str = "expiry";

/// The additional entries of the token metadata that a mint account's data
/// holds, in their order, or `None` where the data holds no such metadata.
pub uninterp spec fn voucher_entries(mint_data: Seq<u8>) -> Option<Seq<(Seq<char>, Seq<char>)>>;

/// Calls `StateWithExtensions::<Mint>::unpack` on the data and
/// `get_variable_len_extension::<TokenMetadata>` on the state that it
/// returns, and hands out the additional entries of the metadata. Whether
/// the data holds metadata, and which entries, is a function of the data
/// alone, named `voucher_entries`.
#[verifier::external_body]
pub(crate) fn read_entries(mint_data: &[u8]) -> (read: Result<Vec<(String, String)>, ProgramError>)
    ensures
        match read {
            Ok(entries) => voucher_entries(mint_data@) == Some(entries.deep_view()),
            Err(_) => voucher_entries(mint_data@).is_none(),
        },
{
    StateWithExtensions::<Mint>::unpack(mint_data)?
        .get_variable_len_extension::<TokenMetadata>()
        .map(|metadata| metadata.additional_metadata)
}

/// The value of the first entry under `key`.
pub open spec fn entry_value(entries: Seq<(Seq<char>, Seq<char>)>, key: Seq<char>) -> Option<
    Seq<char>,
>
    decreases entries.len(),
{
    if entries.len() == 0 {
        None
    } else if entries[0].0 == key {
        Some(entries[0].1)
    } else {
        entry_value(entries.drop_first(), key)
    }
}

/// The escrow that the entries name: the identity that the value under
/// `escrow` spells.
pub open spec fn linked_escrow(entries: Seq<(Seq<char>, Seq<char>)>) -> Option<Seq<u8>> {
    match entry_value(entries, ESCROW_KEY@) {
        Some(text) => address_of_text(text),
        None => None,
    }
}

/// A number of milliseconds in whole seconds, rounded towards zero.
pub open spec fn whole_seconds(milliseconds: i64) -> int {
    if milliseconds >= 0 {
        milliseconds / 1000
    } else {
        -((-milliseconds) / 1000)
    }
}

/// The deadline that the entries hold, in seconds: the number under
/// `expiry`, which is in milliseconds, rounded towards zero.
pub open spec fn expiry_seconds(entries: Seq<(Seq<char>, Seq<char>)>) -> Option<int> {
    match entry_value(entries, EXPIRY_KEY@) {
        Some(text) => match decimal_i64(text) {
            Some(milliseconds) => Some(whole_seconds(milliseconds)),
            None => None,
        },
        None => None,
    }
}

/// Finds the value of the first entry under `key`.
pub fn find_entry<'a>(entries: &'a Vec<(String, String)>, key: &str) -> (found: Option<&'a String>)
    ensures
        match found {
            Some(value) => entry_value(entries.deep_view(), key@) == Some(value@),
            None => entry_value(entries.deep_view(), key@).is_none(),
        },
{
    let wanted = String::from_str(key);
    let mut i: usize = 0;
    assert(entries.deep_view().skip(0) =~= entries.deep_view());
    while i < entries.len()
        invariant
            i <= entries@.len(),
            wanted@ == key@,
            entry_value(entries.deep_view(), key@) == entry_value(
                entries.deep_view().skip(i as int),
                key@,
            ),
        decreases entries@.len() - i,
    {
        let ghost rest = entries.deep_view().skip(i as int);
        assert(rest[0] == entries.deep_view()[i as int]);
        assert(entries.deep_view()[i as int] == (entries@[i as int].0@, entries@[i as int].1@));
        assert(rest.drop_first() =~= entries.deep_view().skip(i + 1));
        if entries[i].0 == wanted {
            return Some(&entries[i].1);
        }
        i = i + 1;
    }
    assert(entries.deep_view().skip(i as int).len() == 0);
    None
}

/// Reads the escrow that a voucher's entries name.
pub fn read_linked_escrow(entries: &Vec<(String, String)>) -> (linked: Option<Address>)
    ensures
        match linked {
            Some(address) => linked_escrow(entries.deep_view()) == Some(address@),
            None => linked_escrow(entries.deep_view()).is_none(),
        },
{
    match find_entry(entries, ESCROW_KEY) {
        Some(text) => parse_address(text.as_str()),
        None => None,
    }
}

/// Reads the deadline that a voucher's entries hold, in seconds.
pub fn read_expiry_seconds(entries: &Vec<(String, String)>) -> (expiry: Option<i64>)
    ensures
        match expiry {
            Some(seconds) => expiry_seconds(entries.deep_view()) == Some(seconds as int),
            None => expiry_seconds(entries.deep_view()).is_none(),
        },
{
    match find_entry(entries, EXPIRY_KEY) {
        Some(text) => match parse_i64(text.as_str()) {
            Some(milliseconds) => Some(milliseconds / 1000),
            None => None,
        },
        None => None,
    }
}

} // verus!
