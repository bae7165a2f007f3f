//! Issuing the voucher: a single-unit token that names its escrow and its
//! deadline, and of which no further unit can ever be made.

use crate::account::{Account, AccountView};
use crate::address::{
    address_text, find_program_address, program_address, text_of_address, Address,
};
use crate::builders::{
    account_len, clear_authority, clear_authority_instruction, create_account,
    create_account_instruction, create_holding, create_holding_instruction, holding_seeds,
    initialize_metadata, initialize_metadata_instruction, initialize_mint,
    initialize_mint_instruction, metadata_pointer, metadata_pointer_instruction,
    mint_account_len, mint_to, mint_to_instruction, update_field, update_field_instruction,
    AuthorityKind, MintExtension, ASSOCIATED_TOKEN_PROGRAM,
};
use crate::decimal::{decimal_text, i64_text, lemma_decimal_text_len};
use crate::error::{Cause, Failure};
use crate::invocation::{
    fits_u32, invoke_action, places3, places4, places5, places6, lemma_short_text_fits, no_signer,
    push_action, text_fits, unsigned, Action, ActionView, Instruction,
};
use crate::metadata::{ESCROW_KEY, EXPIRY_KEY};
use crate::state::authority::{
    authority_of, authority_signer, authority_verdict, check_authority, signer_seeds,
};
use vstd::prelude::*;

verus! {

/// What the issuer says of the voucher: its descriptive texts and its
/// deadline in milliseconds.
#[derive(Debug, Clone, PartialEq, Eq)]
pub struct MintVoucherArgs {
    pub title: String,
    pub description: String,
    pub symbol: String,
    pub uri: String,
    pub expiry: i64,
}

/// The bytes that a voucher's account is funded for beyond the mint itself,
/// to hold its metadata.
pub const METADATA_SPACE: usize = 1000;

/// The number of accounts that issuing a voucher reads.
pub const MINT_VOUCHER_ACCOUNTS: usize = 9;

/// The place of the escrow among the accounts.
pub const ESCROW: usize = 0;

/// The place of the payer among the accounts.
pub const PAYER: usize = 1;

/// The place of the mint among the accounts.
pub const MINT: usize = 2;

/// The place of the authority among the accounts.
pub const AUTHORITY: usize = 3;

/// The place of the holding account among the accounts.
pub const HOLDING: usize = 4;

/// The place of the rent record among the accounts.
pub const RENT: usize = 5;

/// The place of the system program among the accounts.
pub const SYSTEM_PROGRAM: usize = 6;

/// The place of the token program among the accounts.
pub const TOKEN_PROGRAM: usize = 7;

/// The size of a voucher's mint account: that of a mint that points at its
/// metadata.
pub open spec fn voucher_mint_len() -> Option<usize> {
    mint_account_len(seq![MintExtension::MetadataPointer])
}

/// What the sizes of a voucher's mint account come to: the size of the
/// account, and that size with `metadata_space` bytes more, for which the
/// account is funded.
pub open spec fn mint_account_sizes(metadata_space: usize) -> Result<(usize, usize), Cause> {
    match voucher_mint_len() {
        None => Err(Cause::Outside),
        Some(space) => if space + metadata_space > usize::MAX {
            Err(Cause::ArithmeticOverflow)
        } else {
            Ok((space, (space + metadata_space) as usize))
        },
    }
}

/// Asks for the size of a voucher's mint account.
pub fn voucher_mint_account_len() -> (len: Result<usize, Failure>)
    ensures
        match len {
            Ok(space) => voucher_mint_len() == Some(space),
            Err(failure) => voucher_mint_len().is_none() && failure@ == Cause::Outside,
        },
{
    let mut extensions: Vec<MintExtension> = Vec::new();
    extensions.push(MintExtension::MetadataPointer);
    assert(extensions@ =~= seq![MintExtension::MetadataPointer]);
    match account_len(&extensions) {
        Ok(space) => Ok(space),
        Err(error) => Err(Failure::Program(error)),
    }
}

/// The size of a voucher's mint account, and that size with
/// `metadata_space` bytes more, for which the account is funded.
pub fn mint_account_space(metadata_space: usize) -> (sizes: Result<(usize, usize), Failure>)
    ensures
        match sizes {
            Ok(pair) => mint_account_sizes(metadata_space) == Ok::<(usize, usize), Cause>(pair),
            Err(failure) => mint_account_sizes(metadata_space) == Err::<(usize, usize), Cause>(
                failure@,
            ),
        },
{
    let space: usize = match voucher_mint_account_len() {
        Ok(space) => space,
        Err(failure) => {
            return Err(failure);
        },
    };
    match space.checked_add(metadata_space) {
        Some(funded) => Ok((space, funded)),
        None => Err(Failure::ArithmeticOverflow),
    }
}

/// The actions that issue a voucher once the authority has been matched,
/// or the cause for which there are none. `a` holds the nine accounts and
/// `bump` is the authority's.
pub open spec fn issue_actions(
    a: Seq<AccountView>,
    title: Seq<char>,
    symbol: Seq<char>,
    uri: Seq<char>,
    expiry: i64,
    space: usize,
    rent_required: u64,
    bump: u8,
) -> Result<Seq<ActionView>, Cause> {
    let escrow = a[ESCROW as int].key;
    let payer = a[PAYER as int].key;
    let mint = a[MINT as int].key;
    let authority = a[AUTHORITY as int].key;
    let holding = a[HOLDING as int].key;
    let rent = a[RENT as int].key;
    let system = a[SYSTEM_PROGRAM as int].key;
    let token = a[TOKEN_PROGRAM as int].key;
    let signed = seq![signer_seeds(bump)];
    let pointer = metadata_pointer_instruction(token, mint, authority, mint);
    let initialize = initialize_mint_instruction(token, mint, authority, 0);
    let one_unit = mint_to_instruction(token, mint, holding, authority, 1);
    let no_minting = clear_authority_instruction(token, mint, AuthorityKind::MintTokens, authority);
    let no_freezing = clear_authority_instruction(
        token,
        mint,
        AuthorityKind::FreezeAccount,
        authority,
    );
    if pointer.is_none() || initialize.is_none() {
        Err(Cause::Outside)
    } else if !fits_u32(title) || !fits_u32(symbol) || !fits_u32(uri) || !fits_u32(
        text_of_address(escrow),
    ) {
        Err(Cause::ArithmeticOverflow)
    } else if a[HOLDING as int].lamports == 0 && program_address(
        holding_seeds(payer, mint, token),
        ASSOCIATED_TOKEN_PROGRAM@,
    ).is_none() {
        Err(Cause::InvalidSeeds)
    } else if one_unit.is_none() || no_minting.is_none() || no_freezing.is_none() {
        Err(Cause::Outside)
    } else {
        Ok(
            seq![
                invoke_action(
                    create_account_instruction(payer, mint, rent_required, space as u64, token),
                    seq![MINT, PAYER, SYSTEM_PROGRAM, TOKEN_PROGRAM],
                    unsigned(),
                ),
                invoke_action(pointer.unwrap(), seq![MINT, AUTHORITY, TOKEN_PROGRAM], unsigned()),
                invoke_action(initialize.unwrap(), seq![MINT, AUTHORITY, TOKEN_PROGRAM, RENT], unsigned()),
                invoke_action(
                    initialize_metadata_instruction(
                        token,
                        mint,
                        authority,
                        mint,
                        authority,
                        title,
                        symbol,
                        uri,
                    ),
                    seq![MINT, AUTHORITY, TOKEN_PROGRAM, PAYER, SYSTEM_PROGRAM],
                    signed,
                ),
                invoke_action(
                    update_field_instruction(
                        token,
                        mint,
                        authority,
                        ESCROW_KEY@,
                        text_of_address(escrow),
                    ),
                    seq![ESCROW, MINT, AUTHORITY, TOKEN_PROGRAM],
                    signed,
                ),
                invoke_action(
                    update_field_instruction(
                        token,
                        mint,
                        authority,
                        EXPIRY_KEY@,
                        decimal_text(expiry as int),
                    ),
                    seq![ESCROW, MINT, AUTHORITY, TOKEN_PROGRAM],
                    signed,
                ),
            ] + (if a[HOLDING as int].lamports == 0 {
                seq![
                    invoke_action(
                        create_holding_instruction(payer, payer, mint, token),
                        seq![PAYER, HOLDING, PAYER, MINT, SYSTEM_PROGRAM, TOKEN_PROGRAM],
                        unsigned(),
                    ),
                ]
            } else {
                Seq::empty()
            }) + seq![
                invoke_action(one_unit.unwrap(), seq![MINT, AUTHORITY, HOLDING, TOKEN_PROGRAM], signed),
                invoke_action(no_minting.unwrap(), seq![MINT, AUTHORITY, TOKEN_PROGRAM], signed),
                invoke_action(no_freezing.unwrap(), seq![MINT, AUTHORITY, TOKEN_PROGRAM], signed),
            ],
        )
    }
}

/// What issuing a voucher comes to: too few accounts, an authority that
/// does not match, a mint account of no known size, or the actions of
/// `issue_actions`.
pub open spec fn mint_voucher_outcome(
    program_id: Seq<u8>,
    accounts: Seq<AccountView>,
    title: Seq<char>,
    symbol: Seq<char>,
    uri: Seq<char>,
    expiry: i64,
    rent_required: u64,
) -> Result<Seq<ActionView>, Cause> {
    if accounts.len() < 9 {
        Err(Cause::NotEnoughAccountKeys)
    } else {
        match authority_verdict(authority_of(program_id), accounts[AUTHORITY as int]) {
            Err(error) => Err(Cause::Rejected(error)),
            Ok(bump) => match voucher_mint_len() {
                None => Err(Cause::Outside),
                Some(space) => issue_actions(
                    accounts,
                    title,
                    symbol,
                    uri,
                    expiry,
                    space,
                    rent_required,
                    bump,
                ),
            },
        }
    }
}

/// Issues the voucher that is bound to an escrow. The accounts are, in
/// order: the escrow, the payer, the mint, the authority, the holding
/// account, the rent record, the system program, the token program and the
/// associated token program. `rent_required` is the balance that keeps the
/// mint account and its metadata.
///
/// The authority is derived afresh and compared before anything else. The
/// actions then create and initialize the mint under the authority, write
/// the descriptive fields, bind the voucher to the escrow and its deadline,
/// create the holding account where it has no balance, mint one unit, and
/// take away the rights to mint and to freeze for good.
pub fn mint_voucher(
    program_id: &Address,
    accounts: &[Account],
    args: MintVoucherArgs,
    rent_required: u64,
) -> (result: Result<Vec<Action>, Failure>)
    ensures
        match result {
            Ok(actions) => mint_voucher_outcome(
                program_id@,
                accounts.deep_view(),
                args.title@,
                args.symbol@,
                args.uri@,
                args.expiry,
                rent_required,
            ) == Ok::<Seq<ActionView>, Cause>(actions.deep_view()),
            Err(failure) => mint_voucher_outcome(
                program_id@,
                accounts.deep_view(),
                args.title@,
                args.symbol@,
                args.uri@,
                args.expiry,
                rent_required,
            ) == Err::<Seq<ActionView>, Cause>(failure@),
        },
{
    if accounts.len() < MINT_VOUCHER_ACCOUNTS {
        return Err(Failure::NotEnoughAccountKeys);
    }
    let escrow = &accounts[ESCROW].key;
    let payer = &accounts[PAYER].key;
    let mint = &accounts[MINT].key;
    let authority = &accounts[AUTHORITY].key;
    let holding = &accounts[HOLDING].key;
    let rent = &accounts[RENT].key;
    let system = &accounts[SYSTEM_PROGRAM].key;
    let token = &accounts[TOKEN_PROGRAM].key;
    proof {
        let a = accounts.deep_view();
        assert(a[ESCROW as int] == accounts@[ESCROW as int]@ && a[PAYER as int] == accounts@[PAYER as int]@ && a[MINT as int] == accounts@[MINT as int]@);
        assert(a[AUTHORITY as int] == accounts@[AUTHORITY as int]@ && a[HOLDING as int] == accounts@[HOLDING as int]@ && a[RENT as int] == accounts@[RENT as int]@);
        assert(a[SYSTEM_PROGRAM as int] == accounts@[SYSTEM_PROGRAM as int]@ && a[TOKEN_PROGRAM as int] == accounts@[TOKEN_PROGRAM as int]@);
    }
    let bump: u8 = match check_authority(program_id, &accounts[AUTHORITY]) {
        Ok(bump) => bump,
        Err(error) => {
            return Err(Failure::Rejected(error));
        },
    };
    let space: usize = match voucher_mint_account_len() {
        Ok(space) => space,
        Err(failure) => {
            return Err(failure);
        },
    };
    let create = create_account(payer, mint, rent_required, space as u64, token);
    let pointer = match metadata_pointer(token, mint, authority, mint) {
        Ok(instruction) => instruction,
        Err(error) => {
            return Err(Failure::Program(error));
        },
    };
    let initialize = match initialize_mint(token, mint, authority, 0) {
        Ok(instruction) => instruction,
        Err(error) => {
            return Err(Failure::Program(error));
        },
    };
    let escrow_text = address_text(escrow);
    if !text_fits(args.title.as_str()) || !text_fits(args.symbol.as_str()) || !text_fits(
        args.uri.as_str(),
    ) || !text_fits(escrow_text.as_str()) {
        return Err(Failure::ArithmeticOverflow);
    }
    let expiry_text = i64_text(args.expiry);
    let describe = initialize_metadata(
        token,
        mint,
        authority,
        mint,
        authority,
        args.title.as_str(),
        args.symbol.as_str(),
        args.uri.as_str(),
    );
    proof {
        reveal_strlit("escrow");
        reveal_strlit("expiry");
        lemma_short_text_fits(ESCROW_KEY@);
        lemma_short_text_fits(EXPIRY_KEY@);
        lemma_decimal_text_len(args.expiry);
        lemma_short_text_fits(decimal_text(args.expiry as int));
    }
    let bind_escrow = update_field(token, mint, authority, ESCROW_KEY, escrow_text.as_str());
    let bind_expiry = update_field(token, mint, authority, EXPIRY_KEY, expiry_text.as_str());
    let mut open_holding: Option<Instruction> = None;
    if accounts[HOLDING].lamports == 0 {
        let mut seeds: Vec<Vec<u8>> = Vec::new();
        seeds.push(payer.to_vec());
        seeds.push(token.to_vec());
        seeds.push(mint.to_vec());
        assert(seeds.deep_view() =~= holding_seeds(payer@, mint@, token@)) by {
            assert(seeds.deep_view()[0] == seeds@[0]@);
            assert(seeds.deep_view()[1] == seeds@[1]@);
            assert(seeds.deep_view()[2] == seeds@[2]@);
        }
        let program = Address::new(ASSOCIATED_TOKEN_PROGRAM);
        if find_program_address(&seeds, &program).is_none() {
            return Err(Failure::InvalidSeeds);
        }
        open_holding = Some(create_holding(payer, payer, mint, token));
    }
    let one_unit = match mint_to(token, mint, holding, authority, 1) {
        Ok(instruction) => instruction,
        Err(error) => {
            return Err(Failure::Program(error));
        },
    };
    let no_minting = match clear_authority(token, mint, AuthorityKind::MintTokens, authority) {
        Ok(instruction) => instruction,
        Err(error) => {
            return Err(Failure::Program(error));
        },
    };
    let no_freezing = match clear_authority(token, mint, AuthorityKind::FreezeAccount, authority) {
        Ok(instruction) => instruction,
        Err(error) => {
            return Err(Failure::Program(error));
        },
    };
    let mut actions: Vec<Action> = Vec::new();
    push_action(&mut actions, Action::invoke(create, places4(MINT, PAYER, SYSTEM_PROGRAM, TOKEN_PROGRAM), no_signer()));
    push_action(&mut actions, Action::invoke(pointer, places3(MINT, AUTHORITY, TOKEN_PROGRAM), no_signer()));
    push_action(
        &mut actions,
        Action::invoke(initialize, places4(MINT, AUTHORITY, TOKEN_PROGRAM, RENT), no_signer()),
    );
    push_action(
        &mut actions,
        Action::invoke(
            describe,
            places5(MINT, AUTHORITY, TOKEN_PROGRAM, PAYER, SYSTEM_PROGRAM),
            authority_signer(bump),
        ),
    );
    push_action(
        &mut actions,
        Action::invoke(
            bind_escrow,
            places4(ESCROW, MINT, AUTHORITY, TOKEN_PROGRAM),
            authority_signer(bump),
        ),
    );
    push_action(
        &mut actions,
        Action::invoke(
            bind_expiry,
            places4(ESCROW, MINT, AUTHORITY, TOKEN_PROGRAM),
            authority_signer(bump),
        ),
    );
    match open_holding {
        Some(instruction) => {
            push_action(
                &mut actions,
                Action::invoke(
                    instruction,
                    places6(PAYER, HOLDING, PAYER, MINT, SYSTEM_PROGRAM, TOKEN_PROGRAM),
                    no_signer(),
                ),
            );
        },
        None => {},
    }
    push_action(
        &mut actions,
        Action::invoke(
            one_unit,
            places4(MINT, AUTHORITY, HOLDING, TOKEN_PROGRAM),
            authority_signer(bump),
        ),
    );
    push_action(
        &mut actions,
        Action::invoke(no_minting, places3(MINT, AUTHORITY, TOKEN_PROGRAM), authority_signer(bump)),
    );
    push_action(
        &mut actions,
        Action::invoke(no_freezing, places3(MINT, AUTHORITY, TOKEN_PROGRAM), authority_signer(bump)),
    );
    proof {
        let expected = issue_actions(
            accounts.deep_view(),
            args.title@,
            args.symbol@,
            args.uri@,
            args.expiry,
            space,
            rent_required,
            bump,
        );
        assert(expected is Ok);
        assert(expected->Ok_0 =~= actions.deep_view());
    }
    Ok(actions)
}

} // verus!
