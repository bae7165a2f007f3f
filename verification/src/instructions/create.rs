//! Creating a voucher's token without binding it: the mint, its pointer to
//! its own metadata, and the descriptive fields.

use crate::account::{Account, AccountView};
use crate::builders::{
    create_account, create_account_instruction, initialize_metadata,
    initialize_metadata_instruction, initialize_mint, initialize_mint_instruction,
    metadata_pointer, metadata_pointer_instruction,
};
use crate::error::{Cause, Failure};
use crate::instructions::mint::{voucher_mint_account_len, voucher_mint_len};
use crate::invocation::{
    fits_u32, invoke_action, places3, places4, places5, no_signer, push_action, text_fits, unsigned,
    Action, ActionView,
};
use vstd::prelude::*;

verus! {

/// The descriptive texts of a voucher.
#[derive(Debug, Clone, PartialEq, Eq)]
pub struct CreateVoucherArgs {
    pub voucher_title: String,
    pub voucher_description: String,
    pub voucher_symbol: String,
    pub voucher_uri: String,
}

/// The bytes that an unbound voucher's account is funded for beyond the
/// mint itself.
pub const CREATE_METADATA_SPACE: usize = 250;

/// The number of accounts that creating a voucher reads.
pub const CREATE_VOUCHER_ACCOUNTS: usize = 6;

/// The place of the mint among the accounts.
pub const MINT: usize = 0;

/// The place of the authority among the accounts.
pub const AUTHORITY: usize = 1;

/// The place of the payer among the accounts.
pub const PAYER: usize = 2;

/// The place of the rent record among the accounts.
pub const RENT: usize = 3;

/// The place of the system program among the accounts.
pub const SYSTEM_PROGRAM: usize = 4;

/// The place of the token program among the accounts.
pub const TOKEN_PROGRAM: usize = 5;

/// What creating a voucher comes to: four unsigned calls that create the
/// mint account, point it at itself for its metadata, initialize it with no
/// decimals under the authority, and write the descriptive fields.
pub open spec fn create_voucher_outcome(
    a: Seq<AccountView>,
    title: Seq<char>,
    symbol: Seq<char>,
    uri: Seq<char>,
    rent_required: u64,
) -> Result<Seq<ActionView>, Cause> {
    let mint = a[MINT as int].key;
    let authority = a[AUTHORITY as int].key;
    let payer = a[PAYER as int].key;
    let rent = a[RENT as int].key;
    let system = a[SYSTEM_PROGRAM as int].key;
    let token = a[TOKEN_PROGRAM as int].key;
    let pointer = metadata_pointer_instruction(token, mint, authority, mint);
    let initialize = initialize_mint_instruction(token, mint, authority, 0);
    let space = voucher_mint_len();
    if a.len() < 6 {
        Err(Cause::NotEnoughAccountKeys)
    } else if space.is_none() || pointer.is_none() || initialize.is_none() {
        Err(Cause::Outside)
    } else if !fits_u32(title) || !fits_u32(symbol) || !fits_u32(uri) {
        Err(Cause::ArithmeticOverflow)
    } else {
        Ok(
            seq![
                invoke_action(
                    create_account_instruction(
                        payer,
                        mint,
                        rent_required,
                        space.unwrap() as u64,
                        token,
                    ),
                    seq![MINT, PAYER, SYSTEM_PROGRAM, TOKEN_PROGRAM],
                    unsigned(),
                ),
                invoke_action(pointer.unwrap(), seq![MINT, AUTHORITY, TOKEN_PROGRAM], unsigned()),
                invoke_action(initialize.unwrap(), seq![MINT, AUTHORITY, TOKEN_PROGRAM, RENT], unsigned()),
                invoke_action(
                    initialize_metadata_instruction(
                        token,
                        mint,
                        authority,
                        mint,
                        authority,
                        title,
                        symbol,
                        uri,
                    ),
                    seq![MINT, AUTHORITY, TOKEN_PROGRAM, PAYER, SYSTEM_PROGRAM],
                    unsigned(),
                ),
            ],
        )
    }
}

/// Creates a voucher's token. The accounts are, in order: the mint, the
/// authority, the payer, the rent record, the system program and the token
/// program. `rent_required` is the balance that keeps the mint account and
/// its metadata.
pub fn create_voucher(
    accounts: &[Account],
    args: CreateVoucherArgs,
    rent_required: u64,
) -> (result: Result<Vec<Action>, Failure>)
    ensures
        match result {
            Ok(actions) => create_voucher_outcome(
                accounts.deep_view(),
                args.voucher_title@,
                args.voucher_symbol@,
                args.voucher_uri@,
                rent_required,
            ) == Ok::<Seq<ActionView>, Cause>(actions.deep_view()),
            Err(failure) => create_voucher_outcome(
                accounts.deep_view(),
                args.voucher_title@,
                args.voucher_symbol@,
                args.voucher_uri@,
                rent_required,
            ) == Err::<Seq<ActionView>, Cause>(failure@),
        },
{
    if accounts.len() < CREATE_VOUCHER_ACCOUNTS {
        return Err(Failure::NotEnoughAccountKeys);
    }
    let mint = &accounts[MINT].key;
    let authority = &accounts[AUTHORITY].key;
    let payer = &accounts[PAYER].key;
    let rent = &accounts[RENT].key;
    let system = &accounts[SYSTEM_PROGRAM].key;
    let token = &accounts[TOKEN_PROGRAM].key;
    proof {
        let a = accounts.deep_view();
        assert(a[MINT as int] == accounts@[MINT as int]@ && a[AUTHORITY as int] == accounts@[AUTHORITY as int]@ && a[PAYER as int] == accounts@[PAYER as int]@);
        assert(a[RENT as int] == accounts@[RENT as int]@ && a[SYSTEM_PROGRAM as int] == accounts@[SYSTEM_PROGRAM as int]@ && a[TOKEN_PROGRAM as int] == accounts@[TOKEN_PROGRAM as int]@);
    }
    let space: usize = match voucher_mint_account_len() {
        Ok(space) => space,
        Err(failure) => {
            return Err(failure);
        },
    };
    let create = create_account(payer, mint, rent_required, space as u64, token);
    let pointer = match metadata_pointer(token, mint, authority, mint) {
        Ok(instruction) => instruction,
        Err(error) => {
            return Err(Failure::Program(error));
        },
    };
    let initialize = match initialize_mint(token, mint, authority, 0) {
        Ok(instruction) => instruction,
        Err(error) => {
            return Err(Failure::Program(error));
        },
    };
    if !text_fits(args.voucher_title.as_str()) || !text_fits(args.voucher_symbol.as_str())
        || !text_fits(args.voucher_uri.as_str()) {
        return Err(Failure::ArithmeticOverflow);
    }
    let describe = initialize_metadata(
        token,
        mint,
        authority,
        mint,
        authority,
        args.voucher_title.as_str(),
        args.voucher_symbol.as_str(),
        args.voucher_uri.as_str(),
    );
    let mut actions: Vec<Action> = Vec::new();
    push_action(&mut actions, Action::invoke(create, places4(MINT, PAYER, SYSTEM_PROGRAM, TOKEN_PROGRAM), no_signer()));
    push_action(&mut actions, Action::invoke(pointer, places3(MINT, AUTHORITY, TOKEN_PROGRAM), no_signer()));
    push_action(
        &mut actions,
        Action::invoke(initialize, places4(MINT, AUTHORITY, TOKEN_PROGRAM, RENT), no_signer()),
    );
    push_action(
        &mut actions,
        Action::invoke(describe, places5(MINT, AUTHORITY, TOKEN_PROGRAM, PAYER, SYSTEM_PROGRAM), no_signer()),
    );
    proof {
        let expected = create_voucher_outcome(
            accounts.deep_view(),
            args.voucher_title@,
            args.voucher_symbol@,
            args.voucher_uri@,
            rent_required,
        );
        assert(expected is Ok);
        assert(expected->Ok_0 =~= actions.deep_view());
    }
    Ok(actions)
}

} // verus!
