//! Setting up the program's authority: the account at the derived address,
//! which keeps the bump.

use crate::account::{Account, AccountView};
use crate::address::Address;
use crate::builders::{create_account, create_account_instruction};
use crate::error::{Cause, Failure, GideonError};
use crate::invocation::{invoke_action, places3, push_action, Action, ActionView};
use crate::state::authority::{
    authority_of, authority_signer, derive_authority, signer_seeds, MintAuthorityPda,
};
use vstd::prelude::*;

verus! {

/// The number of accounts that setting up the authority reads.
pub const INIT_AUTHORITY_ACCOUNTS: usize = 3;

/// The place of the authority among the accounts.
pub const AUTHORITY: usize = 0;

/// The place of the payer among the accounts.
pub const PAYER: usize = 1;

/// The place of the system program among the accounts.
pub const SYSTEM_PROGRAM: usize = 2;

/// What setting up the authority comes to: the presented account must be
/// the derived one; it is then created under the program's signature and
/// the bump is written into it.
pub open spec fn init_outcome(program_id: Seq<u8>, a: Seq<AccountView>, lamports_required: u64) -> Result<
    Seq<ActionView>,
    Cause,
> {
    let authority = a[AUTHORITY as int].key;
    let payer = a[PAYER as int].key;
    let system = a[SYSTEM_PROGRAM as int].key;
    if a.len() < 3 {
        Err(Cause::NotEnoughAccountKeys)
    } else {
        match authority_of(program_id) {
            Some((address, bump)) => if address == authority {
                Ok(
                    seq![
                        invoke_action(
                            create_account_instruction(
                                payer,
                                authority,
                                lamports_required,
                                1,
                                program_id,
                            ),
                            seq![AUTHORITY, PAYER, SYSTEM_PROGRAM],
                            seq![signer_seeds(bump)],
                        ),
                        ActionView::Store { account: AUTHORITY, bytes: seq![bump] },
                    ],
                )
            } else {
                Err(Cause::Rejected(GideonError::InvalidMintAuthority))
            },
            None => Err(Cause::Rejected(GideonError::InvalidMintAuthority)),
        }
    }
}

/// Sets up the program's authority. The accounts are, in order: the
/// authority, the payer and the system program. `lamports_required` is the
/// balance that keeps an account of the record's size.
pub fn init(program_id: &Address, accounts: &[Account], lamports_required: u64) -> (result: Result<
    Vec<Action>,
    Failure,
>)
    ensures
        match result {
            Ok(actions) => init_outcome(program_id@, accounts.deep_view(), lamports_required)
                == Ok::<Seq<ActionView>, Cause>(actions.deep_view()),
            Err(failure) => init_outcome(program_id@, accounts.deep_view(), lamports_required)
                == Err::<Seq<ActionView>, Cause>(failure@),
        },
{
    if accounts.len() < INIT_AUTHORITY_ACCOUNTS {
        return Err(Failure::NotEnoughAccountKeys);
    }
    let authority = &accounts[AUTHORITY].key;
    let payer = &accounts[PAYER].key;
    let system = &accounts[SYSTEM_PROGRAM].key;
    proof {
        let a = accounts.deep_view();
        assert(a[AUTHORITY as int] == accounts@[AUTHORITY as int]@ && a[PAYER as int] == accounts@[PAYER as int]@ && a[SYSTEM_PROGRAM as int] == accounts@[SYSTEM_PROGRAM as int]@);
    }
    let bump: u8 = match derive_authority(program_id) {
        Some((address, bump)) => {
            if address != *authority {
                return Err(Failure::Rejected(GideonError::InvalidMintAuthority));
            }
            bump
        },
        None => {
            return Err(Failure::Rejected(GideonError::InvalidMintAuthority));
        },
    };
    let create = create_account(
        payer,
        authority,
        lamports_required,
        MintAuthorityPda::ACCOUNT_SPACE as u64,
        program_id,
    );
    let mut record: Vec<u8> = Vec::new();
    record.push(bump);
    let mut actions: Vec<Action> = Vec::new();
    push_action(
        &mut actions,
        Action::invoke(create, places3(AUTHORITY, PAYER, SYSTEM_PROGRAM), authority_signer(bump)),
    );
    push_action(&mut actions, Action::Store { account: AUTHORITY, bytes: record });
    proof {
        let expected = init_outcome(program_id@, accounts.deep_view(), lamports_required);
        assert(expected is Ok);
        assert(expected->Ok_0 =~= actions.deep_view());
    }
    Ok(actions)
}

} // verus!
