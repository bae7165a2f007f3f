//! The instructions of other programs that the operations hand out, and the
//! size of the account that a mint needs. Each is worked out by the library
//! of the program it is meant for; this module gives every such function a
//! contract.
//!
//! What such a function returns depends on its arguments alone. Each
//! contract gives that result a name and says nothing of its content: the
//! operations state which instructions they hand out, in which order and on
//! which arguments, in terms of these names.

use crate::address::{program_address, Address};
use crate::invocation::{AccountMeta, Instruction, InstructionView};
use solana_program::program_error::ProgramError;
use solana_program::pubkey::Pubkey;
use spl_token_2022::extension::ExtensionType;
use spl_token_2022::instruction::AuthorityType;
use spl_token_2022::state::Mint;
use spl_token_metadata_interface::state::Field;
use vstd::prelude::*;
use vstd::string::StringSliceAdditionalSpecFns;

verus! {

/// The program that keeps the holding accounts of tokens.
pub const ASSOCIATED_TOKEN_PROGRAM: [u8; 32] = [
    140, 151, 37, 143, 78, 36, 137, 241, 187, 61, 16, 41, 20, 142, 13, 131,
    11, 90, 19, 153, 218, 255, 16, 132, 4, 142, 123, 216, 219, 233, 248, 89,
];

/// The right over a token that an authority holds.
#[derive(Debug, Clone, Copy, PartialEq, Eq, Structural)]
pub enum AuthorityKind {
    /// The right to create new units.
    MintTokens,
    /// The right to freeze holdings.
    FreezeAccount,
}

/// What a mint account can carry beyond the mint itself.
#[derive(Debug, Clone, Copy, PartialEq, Eq, Structural)]
pub enum MintExtension {
    /// The pointer to the account that holds the mint's metadata.
    MetadataPointer,
}

/// The size of a mint account that carries the given extensions, or `None`
/// where the token program's library knows none for them.
pub uninterp spec fn mint_account_len(extensions: Seq<MintExtension>) -> Option<usize>;

/// The system program's instruction that creates an account.
pub uninterp spec fn create_account_instruction(
    from: Seq<u8>,
    to: Seq<u8>,
    lamports: u64,
    space: u64,
    owner: Seq<u8>,
) -> InstructionView;

/// The system program's instruction that moves lamports.
pub uninterp spec fn transfer_instruction(from: Seq<u8>, to: Seq<u8>, lamports: u64) -> InstructionView;

/// The token program's instruction that points a mint at its metadata.
pub uninterp spec fn metadata_pointer_instruction(
    token_program: Seq<u8>,
    mint: Seq<u8>,
    authority: Seq<u8>,
    metadata: Seq<u8>,
) -> Option<InstructionView>;

/// The token program's instruction that initializes a mint whose mint and
/// freeze authority are one.
pub uninterp spec fn initialize_mint_instruction(
    token_program: Seq<u8>,
    mint: Seq<u8>,
    authority: Seq<u8>,
    decimals: u8,
) -> Option<InstructionView>;

/// The metadata interface's instruction that writes the descriptive fields.
pub uninterp spec fn initialize_metadata_instruction(
    program: Seq<u8>,
    metadata: Seq<u8>,
    update_authority: Seq<u8>,
    mint: Seq<u8>,
    mint_authority: Seq<u8>,
    name: Seq<char>,
    symbol: Seq<char>,
    uri: Seq<char>,
) -> InstructionView;

/// The metadata interface's instruction that sets one additional entry.
pub uninterp spec fn update_field_instruction(
    program: Seq<u8>,
    metadata: Seq<u8>,
    update_authority: Seq<u8>,
    key: Seq<char>,
    value: Seq<char>,
) -> InstructionView;

/// The instruction that creates the holding account of a wallet for a mint.
pub uninterp spec fn create_holding_instruction(
    funding: Seq<u8>,
    wallet: Seq<u8>,
    mint: Seq<u8>,
    token_program: Seq<u8>,
) -> InstructionView;

/// The token program's instruction that creates units, signed by the mint
/// authority alone.
pub uninterp spec fn mint_to_instruction(
    token_program: Seq<u8>,
    mint: Seq<u8>,
    account: Seq<u8>,
    authority: Seq<u8>,
    amount: u64,
) -> Option<InstructionView>;

/// The token program's instruction that takes a right away for good, signed
/// by its holder alone.
pub uninterp spec fn clear_authority_instruction(
    token_program: Seq<u8>,
    owned: Seq<u8>,
    kind: AuthorityKind,
    authority: Seq<u8>,
) -> Option<InstructionView>;

/// The token program's instruction that destroys units, signed by the
/// holder alone.
pub uninterp spec fn burn_checked_instruction(
    token_program: Seq<u8>,
    account: Seq<u8>,
    mint: Seq<u8>,
    authority: Seq<u8>,
    amount: u64,
    decimals: u8,
) -> Option<InstructionView>;

/// The token program's instruction that closes a holding account, signed by
/// its owner alone.
pub uninterp spec fn close_account_instruction(
    token_program: Seq<u8>,
    account: Seq<u8>,
    destination: Seq<u8>,
    owner: Seq<u8>,
) -> Option<InstructionView>;

/// The seeds from which the holding account's address is derived.
pub open spec fn holding_seeds(wallet: Seq<u8>, mint: Seq<u8>, token_program: Seq<u8>) -> Seq<
    Seq<u8>,
> {
    seq![wallet, token_program, mint]
}

/// Calls `ExtensionType::try_calculate_account_len::<Mint>` on the
/// extensions. The size is a function of the extensions alone, named
/// `mint_account_len`.
#[verifier::external_body]
pub(crate) fn account_len(extensions: &Vec<MintExtension>) -> (len: Result<usize, ProgramError>)
    ensures
        match len {
            Ok(size) => mint_account_len(extensions@) == Some(size),
            Err(_) => mint_account_len(extensions@).is_none(),
        },
{
    let kinds: Vec<ExtensionType> = extensions.iter().map(|extension| match extension {
        MintExtension::MetadataPointer => ExtensionType::MetadataPointer,
    }).collect();
    ExtensionType::try_calculate_account_len::<Mint>(&kinds)
}

/// Calls `solana_program::system_instruction::create_account`.
#[verifier::external_body]
pub(crate) fn create_account(
    from: &Address,
    to: &Address,
    lamports: u64,
    space: u64,
    owner: &Address,
) -> (built: Instruction)
    ensures
        built@ == create_account_instruction(from@, to@, lamports, space, owner@),
{
    let key = |a: &Address| Pubkey::new_from_array(a.bytes);
    let ix = solana_program::system_instruction::create_account(
        &key(from), &key(to), lamports, space, &key(owner));
    Instruction {
        program_id: Address { bytes: ix.program_id.to_bytes() },
        accounts: ix.accounts.iter().map(|m| AccountMeta {
            pubkey: Address { bytes: m.pubkey.to_bytes() },
            is_signer: m.is_signer, is_writable: m.is_writable,
        }).collect(),
        data: ix.data,
    }
}

/// Calls `solana_program::system_instruction::transfer`.
#[verifier::external_body]
pub(crate) fn transfer(from: &Address, to: &Address, lamports: u64) -> (built: Instruction)
    ensures
        built@ == transfer_instruction(from@, to@, lamports),
{
    let key = |a: &Address| Pubkey::new_from_array(a.bytes);
    let ix = solana_program::system_instruction::transfer(&key(from), &key(to), lamports);
    Instruction {
        program_id: Address { bytes: ix.program_id.to_bytes() },
        accounts: ix.accounts.iter().map(|m| AccountMeta {
            pubkey: Address { bytes: m.pubkey.to_bytes() },
            is_signer: m.is_signer, is_writable: m.is_writable,
        }).collect(),
        data: ix.data,
    }
}

/// Calls `spl_token_2022::extension::metadata_pointer::instruction::initialize`
/// with both the authority and the metadata address present. The builder
/// refuses a token program other than its own and a zero identity.
#[verifier::external_body]
pub(crate) fn metadata_pointer(
    token_program: &Address,
    mint: &Address,
    authority: &Address,
    metadata: &Address,
) -> (built: Result<Instruction, ProgramError>)
    ensures
        match built {
            Ok(instruction) => metadata_pointer_instruction(
                token_program@,
                mint@,
                authority@,
                metadata@,
            ) == Some(instruction@),
            Err(_) => metadata_pointer_instruction(
                token_program@,
                mint@,
                authority@,
                metadata@,
            ).is_none(),
        },
{
    let key = |a: &Address| Pubkey::new_from_array(a.bytes);
    spl_token_2022::extension::metadata_pointer::instruction::initialize(
        &key(token_program), &key(mint), Some(key(authority)), Some(key(metadata)),
    ).map(|ix| Instruction {
        program_id: Address { bytes: ix.program_id.to_bytes() },
        accounts: ix.accounts.iter().map(|m| AccountMeta {
            pubkey: Address { bytes: m.pubkey.to_bytes() },
            is_signer: m.is_signer, is_writable: m.is_writable,
        }).collect(),
        data: ix.data,
    })
}

/// Calls `spl_token_2022::instruction::initialize_mint` with the freeze
/// authority set to the mint authority. The builder refuses a program that
/// is no token program.
#[verifier::external_body]
pub(crate) fn initialize_mint(
    token_program: &Address,
    mint: &Address,
    authority: &Address,
    decimals: u8,
) -> (built: Result<Instruction, ProgramError>)
    ensures
        match built {
            Ok(instruction) => initialize_mint_instruction(
                token_program@,
                mint@,
                authority@,
                decimals,
            ) == Some(instruction@),
            Err(_) => initialize_mint_instruction(
                token_program@,
                mint@,
                authority@,
                decimals,
            ).is_none(),
        },
{
    let key = |a: &Address| Pubkey::new_from_array(a.bytes);
    spl_token_2022::instruction::initialize_mint(
        &key(token_program), &key(mint), &key(authority), Some(&key(authority)), decimals,
    ).map(|ix| Instruction {
        program_id: Address { bytes: ix.program_id.to_bytes() },
        accounts: ix.accounts.iter().map(|m| AccountMeta {
            pubkey: Address { bytes: m.pubkey.to_bytes() },
            is_signer: m.is_signer, is_writable: m.is_writable,
        }).collect(),
        data: ix.data,
    })
}

/// Calls `spl_token_metadata_interface::instruction::initialize`. The
/// builder encodes each text behind its byte length as a `u32` and panics
/// on a longer one, so those are left out.
#[verifier::external_body]
pub(crate) fn initialize_metadata(
    program: &Address,
    metadata: &Address,
    update_authority: &Address,
    mint: &Address,
    mint_authority: &Address,
    name: &str,
    symbol: &str,
    uri: &str,
) -> (built: Instruction)
    requires
        name.spec_bytes().len() <= u32::MAX,
        symbol.spec_bytes().len() <= u32::MAX,
        uri.spec_bytes().len() <= u32::MAX,
    ensures
        built@ == initialize_metadata_instruction(
            program@,
            metadata@,
            update_authority@,
            mint@,
            mint_authority@,
            name@,
            symbol@,
            uri@,
        ),
{
    let key = |a: &Address| Pubkey::new_from_array(a.bytes);
    let ix = spl_token_metadata_interface::instruction::initialize(
        &key(program), &key(metadata), &key(update_authority), &key(mint),
        &key(mint_authority), name.to_string(), symbol.to_string(), uri.to_string());
    Instruction {
        program_id: Address { bytes: ix.program_id.to_bytes() },
        accounts: ix.accounts.iter().map(|m| AccountMeta {
            pubkey: Address { bytes: m.pubkey.to_bytes() },
            is_signer: m.is_signer, is_writable: m.is_writable,
        }).collect(),
        data: ix.data,
    }
}

/// Calls `spl_token_metadata_interface::instruction::update_field` for an
/// additional entry under `key`. The builder encodes each text behind its
/// byte length as a `u32` and panics on a longer one, so those are left out.
#[verifier::external_body]
pub(crate) fn update_field(
    program: &Address,
    metadata: &Address,
    update_authority: &Address,
    key: &str,
    value: &str,
) -> (built: Instruction)
    requires
        key.spec_bytes().len() <= u32::MAX,
        value.spec_bytes().len() <= u32::MAX,
    ensures
        built@ == update_field_instruction(program@, metadata@, update_authority@, key@, value@),
{
    let pk = |a: &Address| Pubkey::new_from_array(a.bytes);
    let ix = spl_token_metadata_interface::instruction::update_field(
        &pk(program), &pk(metadata), &pk(update_authority),
        Field::Key(key.to_string()), value.to_string());
    Instruction {
        program_id: Address { bytes: ix.program_id.to_bytes() },
        accounts: ix.accounts.iter().map(|m| AccountMeta {
            pubkey: Address { bytes: m.pubkey.to_bytes() },
            is_signer: m.is_signer, is_writable: m.is_writable,
        }).collect(),
        data: ix.data,
    }
}

/// Calls `spl_associated_token_account::instruction::create_associated_token_account`.
/// The builder derives the holding account's address from the wallet, the
/// token program and the mint under the associated token program, and
/// panics where they derive none: those inputs are left out.
#[verifier::external_body]
pub(crate) fn create_holding(
    funding: &Address,
    wallet: &Address,
    mint: &Address,
    token_program: &Address,
) -> (built: Instruction)
    requires
        program_address(
            holding_seeds(wallet@, mint@, token_program@),
            ASSOCIATED_TOKEN_PROGRAM@,
        ).is_some(),
    ensures
        built@ == create_holding_instruction(funding@, wallet@, mint@, token_program@),
{
    let key = |a: &Address| Pubkey::new_from_array(a.bytes);
    let ix = spl_associated_token_account::instruction::create_associated_token_account(
        &key(funding), &key(wallet), &key(mint), &key(token_program));
    Instruction {
        program_id: Address { bytes: ix.program_id.to_bytes() },
        accounts: ix.accounts.iter().map(|m| AccountMeta {
            pubkey: Address { bytes: m.pubkey.to_bytes() },
            is_signer: m.is_signer, is_writable: m.is_writable,
        }).collect(),
        data: ix.data,
    }
}

/// Calls `spl_token_2022::instruction::mint_to` with the authority as the
/// only signer. The builder refuses a program that is no token program.
#[verifier::external_body]
pub(crate) fn mint_to(
    token_program: &Address,
    mint: &Address,
    account: &Address,
    authority: &Address,
    amount: u64,
) -> (built: Result<Instruction, ProgramError>)
    ensures
        match built {
            Ok(instruction) => mint_to_instruction(
                token_program@,
                mint@,
                account@,
                authority@,
                amount,
            ) == Some(instruction@),
            Err(_) => mint_to_instruction(
                token_program@,
                mint@,
                account@,
                authority@,
                amount,
            ).is_none(),
        },
{
    let key = |a: &Address| Pubkey::new_from_array(a.bytes);
    spl_token_2022::instruction::mint_to(
        &key(token_program), &key(mint), &key(account), &key(authority),
        &[&key(authority)], amount,
    ).map(|ix| Instruction {
        program_id: Address { bytes: ix.program_id.to_bytes() },
        accounts: ix.accounts.iter().map(|m| AccountMeta {
            pubkey: Address { bytes: m.pubkey.to_bytes() },
            is_signer: m.is_signer, is_writable: m.is_writable,
        }).collect(),
        data: ix.data,
    })
}

/// Calls `spl_token_2022::instruction::set_authority` with no new authority
/// and the present one as the only signer. The builder refuses a program
/// that is no token program.
#[verifier::external_body]
pub(crate) fn clear_authority(
    token_program: &Address,
    owned: &Address,
    kind: AuthorityKind,
    authority: &Address,
) -> (built: Result<Instruction, ProgramError>)
    ensures
        match built {
            Ok(instruction) => clear_authority_instruction(
                token_program@,
                owned@,
                kind,
                authority@,
            ) == Some(instruction@),
            Err(_) => clear_authority_instruction(
                token_program@,
                owned@,
                kind,
                authority@,
            ).is_none(),
        },
{
    let key = |a: &Address| Pubkey::new_from_array(a.bytes);
    let right = match kind {
        AuthorityKind::MintTokens => AuthorityType::MintTokens,
        AuthorityKind::FreezeAccount => AuthorityType::FreezeAccount,
    };
    spl_token_2022::instruction::set_authority(
        &key(token_program), &key(owned), None, right, &key(authority), &[&key(authority)],
    ).map(|ix| Instruction {
        program_id: Address { bytes: ix.program_id.to_bytes() },
        accounts: ix.accounts.iter().map(|m| AccountMeta {
            pubkey: Address { bytes: m.pubkey.to_bytes() },
            is_signer: m.is_signer, is_writable: m.is_writable,
        }).collect(),
        data: ix.data,
    })
}

/// Calls `spl_token_2022::instruction::burn_checked` with the authority as
/// the only signer. The builder refuses a program that is no token program.
#[verifier::external_body]
pub(crate) fn burn_checked(
    token_program: &Address,
    account: &Address,
    mint: &Address,
    authority: &Address,
    amount: u64,
    decimals: u8,
) -> (built: Result<Instruction, ProgramError>)
    ensures
        match built {
            Ok(instruction) => burn_checked_instruction(
                token_program@,
                account@,
                mint@,
                authority@,
                amount,
                decimals,
            ) == Some(instruction@),
            Err(_) => burn_checked_instruction(
                token_program@,
                account@,
                mint@,
                authority@,
                amount,
                decimals,
            ).is_none(),
        },
{
    let key = |a: &Address| Pubkey::new_from_array(a.bytes);
    spl_token_2022::instruction::burn_checked(
        &key(token_program), &key(account), &key(mint), &key(authority),
        &[&key(authority)], amount, decimals,
    ).map(|ix| Instruction {
        program_id: Address { bytes: ix.program_id.to_bytes() },
        accounts: ix.accounts.iter().map(|m| AccountMeta {
            pubkey: Address { bytes: m.pubkey.to_bytes() },
            is_signer: m.is_signer, is_writable: m.is_writable,
        }).collect(),
        data: ix.data,
    })
}

/// Calls `spl_token_2022::instruction::close_account` with the owner as the
/// only signer. The builder refuses a program that is no token program.
#[verifier::external_body]
pub(crate) fn close_account(
    token_program: &Address,
    account: &Address,
    destination: &Address,
    owner: &Address,
) -> (built: Result<Instruction, ProgramError>)
    ensures
        match built {
            Ok(instruction) => close_account_instruction(
                token_program@,
                account@,
                destination@,
                owner@,
            ) == Some(instruction@),
            Err(_) => close_account_instruction(
                token_program@,
                account@,
                destination@,
                owner@,
            ).is_none(),
        },
{
    let key = |a: &Address| Pubkey::new_from_array(a.bytes);
    spl_token_2022::instruction::close_account(
        &key(token_program), &key(account), &key(destination), &key(owner), &[&key(owner)],
    ).map(|ix| Instruction {
        program_id: Address { bytes: ix.program_id.to_bytes() },
        accounts: ix.accounts.iter().map(|m| AccountMeta {
            pubkey: Address { bytes: m.pubkey.to_bytes() },
            is_signer: m.is_signer, is_writable: m.is_writable,
        }).collect(),
        data: ix.data,
    })
}

} // verus!
