//! The record of the program's signing authority.

use crate::account::{Account, AccountView};
use crate::address::{find_program_address, program_address, Address};
use crate::error::GideonError;
use vstd::prelude::*;

verus! {

/// What the authority's account holds: the bump that completes the seeds of
/// its address.
#[derive(Debug, Clone, Copy, PartialEq, Eq)]
pub struct MintAuthorityPda {
    pub bump: u8,
}

/// The bytes of the text `mint_authority`.
pub open spec fn seed_prefix() -> Seq<u8> {
    seq![
        109u8, 105u8, 110u8, 116u8, 95u8, 97u8, 117u8, 116u8, 104u8, 111u8, 114u8, 105u8, 116u8,
        121u8,
    ]
}

/// The seeds of the authority's address, without the bump.
pub open spec fn authority_seeds() -> Seq<Seq<u8>> {
    seq![seed_prefix()]
}

/// The seed list under which the program signs as its authority.
pub open spec fn signer_seeds(bump: u8) -> Seq<Seq<u8>> {
    seq![seed_prefix(), seq![bump]]
}

/// The authority of a program: the address that the fixed seed derives
/// under it, and the bump, where there is one.
pub open spec fn authority_of(program_id: Seq<u8>) -> Option<(Seq<u8>, u8)> {
    program_address(authority_seeds(), program_id)
}

/// Whether a presented account is the authority: its identity is the
/// derived one and the bump that its data starts with is the derived one.
/// On a match the result is that bump; any mismatch, the want of a
/// derivation included, is the authority error.
pub open spec fn authority_verdict(derived: Option<(Seq<u8>, u8)>, presented: AccountView) -> Result<
    u8,
    GideonError,
> {
    match derived {
        Some((address, bump)) => if presented.key == address && presented.data.len() > 0
            && presented.data[0] == bump {
            Ok(bump)
        } else {
            Err(GideonError::InvalidMintAuthority)
        },
        None => Err(GideonError::InvalidMintAuthority),
    }
}

impl MintAuthorityPda {
    /// The text that the authority's address is derived from.
    pub const SEED_PREFIX: &'static str = "mint_authority";

    /// The size of the account that holds the record.
    pub const ACCOUNT_SPACE: usize = 1;

    /// The seed prefix as bytes.
    pub fn seed_prefix_bytes() -> (bytes: Vec<u8>)
        ensures
            bytes@ == seed_prefix(),
    {
        let prefix = MintAuthorityPda::SEED_PREFIX;
        proof {
            reveal_strlit("mint_authority");
            assert(vstd::string::is_ascii(prefix));
            vstd::string::is_ascii_spec_bytes(prefix);
        }
        let bytes = vstd::slice::slice_to_vec(prefix.as_bytes());
        assert(bytes@ =~= seed_prefix());
        bytes
    }

    /// The seed list under which the program signs as its authority.
    pub fn signer_seeds(bump: u8) -> (seeds: Vec<Vec<u8>>)
        ensures
            seeds.deep_view() == signer_seeds(bump),
    {
        let mut last: Vec<u8> = Vec::new();
        last.push(bump);
        let mut seeds: Vec<Vec<u8>> = Vec::new();
        seeds.push(MintAuthorityPda::seed_prefix_bytes());
        seeds.push(last);
        assert(seeds.deep_view() =~= signer_seeds(bump)) by {
            assert(seeds.deep_view().len() == 2);
            assert(seeds.deep_view()[0] == seeds@[0]@);
            assert(seeds.deep_view()[1] == seeds@[1]@);
            assert(seeds@[1]@ =~= seq![bump]);
        }
        seeds
    }
}

/// The signers of a call that the program makes as its authority: the one
/// seed list of the authority.
pub fn authority_signer(bump: u8) -> (signers: Vec<Vec<Vec<u8>>>)
    ensures
        signers.deep_view() == seq![signer_seeds(bump)],
{
    let mut signers: Vec<Vec<Vec<u8>>> = Vec::new();
    signers.push(MintAuthorityPda::signer_seeds(bump));
    assert(signers.deep_view() =~= seq![signer_seeds(bump)]) by {
        assert(signers.deep_view()[0] == signers@[0].deep_view());
    }
    signers
}

/// Derives the authority of a program: a pure function of the program's
/// identity, computed afresh wherever authorization is needed.
pub fn derive_authority(program_id: &Address) -> (derived: Option<(Address, u8)>)
    ensures
        match derived {
            Some((address, bump)) => authority_of(program_id@) == Some((address@, bump)),
            None => authority_of(program_id@).is_none(),
        },
{
    let mut seeds: Vec<Vec<u8>> = Vec::new();
    seeds.push(MintAuthorityPda::seed_prefix_bytes());
    assert(seeds.deep_view() =~= authority_seeds()) by {
        assert(seeds.deep_view().len() == 1);
        assert(seeds.deep_view()[0] == seeds@[0]@);
    }
    find_program_address(&seeds, program_id)
}

/// Compares a presented account with a derived authority, identity first
/// and bump second.
pub fn match_authority(derived: Option<(Address, u8)>, presented: &Account) -> (verdict: Result<
    u8,
    GideonError,
>)
    ensures
        verdict == authority_verdict(
            match derived {
                Some((address, bump)) => Some((address@, bump)),
                None => None,
            },
            presented@,
        ),
{
    match derived {
        Some((address, bump)) => {
            if presented.key != address {
                return Err(GideonError::InvalidMintAuthority);
            }
            if presented.data.len() == 0 || presented.data[0] != bump {
                return Err(GideonError::InvalidMintAuthority);
            }
            Ok(bump)
        },
        None => Err(GideonError::InvalidMintAuthority),
    }
}

/// Derives the authority of the program afresh and compares the presented
/// account with it.
pub fn check_authority(program_id: &Address, presented: &Account) -> (verdict: Result<
    u8,
    GideonError,
>)
    ensures
        verdict == authority_verdict(authority_of(program_id@), presented@),
{
    match_authority(derive_authority(program_id), presented)
}

} // verus!
