//! The claim: the recipient redeems the voucher for the deposit, up to the
//! deadline.

use crate::account::{Account, AccountView};
use crate::address::Address;
use crate::builders::{
    burn_checked, burn_checked_instruction, close_account, close_account_instruction,
};
use crate::error::{Cause, Failure};
use crate::invocation::{
    invoke_action, places3, places4, no_signer, push_action, unsigned, Action, ActionView,
};
use crate::metadata::{read_entries, voucher_entries};
use crate::state::authority::{
    authority_of, authority_signer, authority_verdict, check_authority, signer_seeds,
};
use crate::state::escrow::{unpacked, Escrow};
use crate::validation::{check_party, check_voucher, party_verdict, voucher_verdict, ReleasePath};
use vstd::prelude::*;

verus! {

/// The number of accounts that a claim reads.
pub const CLAIM_ACCOUNTS: usize = 8;

/// The place of the caller among the accounts.
pub const CALLER: usize = 0;

/// The place of the caller's holding account among the accounts.
pub const HOLDING: usize = 1;

/// The place of the mint among the accounts.
pub const MINT: usize = 2;

/// The place of the authority among the accounts.
pub const AUTHORITY: usize = 3;

/// The place of the escrow among the accounts.
pub const ESCROW: usize = 4;

/// The place of the token program among the accounts.
pub const TOKEN_PROGRAM: usize = 5;

/// The place of the clock among the accounts.
pub const CLOCK: usize = 6;

/// The actions of a claim whose checks have passed, or the cause for which
/// there are none: the voucher's one unit is burnt under the authority's
/// signature, the holding account is closed where it has a balance, and the
/// escrow is released to the caller.
pub open spec fn claim_actions(a: Seq<AccountView>, bump: u8) -> Result<Seq<ActionView>, Cause> {
    let caller = a[CALLER as int].key;
    let holding = a[HOLDING as int].key;
    let mint = a[MINT as int].key;
    let authority = a[AUTHORITY as int].key;
    let escrow = a[ESCROW as int].key;
    let token = a[TOKEN_PROGRAM as int].key;
    let burn = burn_checked_instruction(token, holding, mint, caller, 1, 0);
    let close = close_account_instruction(token, holding, caller, caller);
    if burn.is_none() || (a[HOLDING as int].lamports > 0 && close.is_none()) {
        Err(Cause::Outside)
    } else {
        Ok(
            seq![
                invoke_action(
                    burn.unwrap(),
                    seq![HOLDING, MINT, AUTHORITY, CALLER],
                    seq![signer_seeds(bump)],
                ),
            ] + (if a[HOLDING as int].lamports > 0 {
                seq![invoke_action(close.unwrap(), seq![HOLDING, CALLER, TOKEN_PROGRAM], unsigned())]
            } else {
                Seq::empty()
            }) + seq![ActionView::Release { escrow: ESCROW, to: CALLER }],
        )
    }
}

/// What a claim comes to. The checks run in a fixed order and the first
/// that fails decides: the number of accounts, the authority, the caller
/// against the recipient of the record, the voucher's metadata, its link to
/// this escrow, and the deadline against the clock.
pub open spec fn claim_outcome(program_id: Seq<u8>, accounts: Seq<AccountView>, now: i64) -> Result<
    Seq<ActionView>,
    Cause,
> {
    if accounts.len() < 8 {
        Err(Cause::NotEnoughAccountKeys)
    } else {
        match authority_verdict(authority_of(program_id), accounts[AUTHORITY as int]) {
            Err(error) => Err(Cause::Rejected(error)),
            Ok(bump) => match party_verdict(
                ReleasePath::Claim,
                accounts[CALLER as int].key,
                unpacked(accounts[ESCROW as int].data),
            ) {
                Err(error) => Err(Cause::Rejected(error)),
                Ok(_) => match voucher_entries(accounts[MINT as int].data) {
                    None => Err(Cause::Outside),
                    Some(entries) => match voucher_verdict(
                        ReleasePath::Claim,
                        entries,
                        accounts[ESCROW as int].key,
                        now,
                    ) {
                        Err(error) => Err(Cause::Rejected(error)),
                        Ok(_) => claim_actions(accounts, bump),
                    },
                },
            },
        }
    }
}

/// Redeems a voucher for its escrow. The accounts are, in order: the
/// caller, the caller's holding account, the mint, the authority, the
/// escrow, the token program, the clock and the system program. `now` is
/// the clock's time in seconds.
///
/// Every check comes before any action, so a rejected claim changes
/// nothing.
pub fn burn_voucher_release_escrow(program_id: &Address, accounts: &[Account], now: i64) -> (result:
    Result<Vec<Action>, Failure>)
    ensures
        match result {
            Ok(actions) => claim_outcome(program_id@, accounts.deep_view(), now) == Ok::<
                Seq<ActionView>,
                Cause,
            >(actions.deep_view()),
            Err(failure) => claim_outcome(program_id@, accounts.deep_view(), now) == Err::<
                Seq<ActionView>,
                Cause,
            >(failure@),
        },
{
    if accounts.len() < CLAIM_ACCOUNTS {
        return Err(Failure::NotEnoughAccountKeys);
    }
    let caller = &accounts[CALLER].key;
    let holding = &accounts[HOLDING].key;
    let mint = &accounts[MINT].key;
    let authority = &accounts[AUTHORITY].key;
    let escrow = &accounts[ESCROW].key;
    let token = &accounts[TOKEN_PROGRAM].key;
    proof {
        let a = accounts.deep_view();
        assert(a[CALLER as int] == accounts@[CALLER as int]@ && a[HOLDING as int] == accounts@[HOLDING as int]@ && a[MINT as int] == accounts@[MINT as int]@);
        assert(a[AUTHORITY as int] == accounts@[AUTHORITY as int]@ && a[ESCROW as int] == accounts@[ESCROW as int]@ && a[TOKEN_PROGRAM as int] == accounts@[TOKEN_PROGRAM as int]@);
    }
    let bump: u8 = match check_authority(program_id, &accounts[AUTHORITY]) {
        Ok(bump) => bump,
        Err(error) => {
            return Err(Failure::Rejected(error));
        },
    };
    match check_party(ReleasePath::Claim, caller, Escrow::unpack(accounts[ESCROW].data.as_slice())) {
        Ok(_) => {},
        Err(error) => {
            return Err(Failure::Rejected(error));
        },
    }
    let entries = match read_entries(accounts[MINT].data.as_slice()) {
        Ok(entries) => entries,
        Err(error) => {
            return Err(Failure::Program(error));
        },
    };
    match check_voucher(ReleasePath::Claim, &entries, escrow, now) {
        Ok(_) => {},
        Err(error) => {
            return Err(Failure::Rejected(error));
        },
    }
    let burn = match burn_checked(token, holding, mint, caller, 1, 0) {
        Ok(instruction) => instruction,
        Err(error) => {
            return Err(Failure::Program(error));
        },
    };
    let mut actions: Vec<Action> = Vec::new();
    push_action(
        &mut actions,
        Action::invoke(burn, places4(HOLDING, MINT, AUTHORITY, CALLER), authority_signer(bump)),
    );
    if accounts[HOLDING].lamports > 0 {
        let close = match close_account(token, holding, caller, caller) {
            Ok(instruction) => instruction,
            Err(error) => {
                return Err(Failure::Program(error));
            },
        };
        push_action(&mut actions, Action::invoke(close, places3(HOLDING, CALLER, TOKEN_PROGRAM), no_signer()));
    }
    push_action(&mut actions, Action::Release { escrow: ESCROW, to: CALLER });
    proof {
        let expected = claim_actions(accounts.deep_view(), bump);
        assert(expected is Ok);
        assert(expected->Ok_0 =~= actions.deep_view());
    }
    Ok(actions)
}

} // verus!
