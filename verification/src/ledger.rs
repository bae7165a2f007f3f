//! Carrying out, on accounts as plain values, the actions that the program
//! performs itself. A call into another program is the ledger's to carry
//! out and changes nothing here.

use crate::account::{consume, overwritten, released, Account, AccountView};
use crate::error::{Cause, Failure};
use crate::invocation::{Action, ActionView};
use vstd::prelude::*;

verus! {

/// The account with `bytes` written over the start of its data.
pub open spec fn stored(account: AccountView, bytes: Seq<u8>) -> AccountView {
    AccountView { data: overwritten(account.data, bytes), ..account }
}

/// The account with `lamports` more on its balance.
pub open spec fn credited(account: AccountView, lamports: u64) -> AccountView {
    AccountView { lamports: (account.lamports + lamports) as u64, ..account }
}

/// The accounts after an action, or the cause for which it cannot be
/// carried out: a place beyond the accounts, data too short for what is to
/// be stored, or a balance that does not fit. A release credits the
/// receiver first and consumes the escrow second.
pub open spec fn applied(action: ActionView, accounts: Seq<AccountView>) -> Result<
    Seq<AccountView>,
    Cause,
> {
    match action {
        ActionView::Invoke(_) => Ok(accounts),
        ActionView::Store { account, bytes } => if account >= accounts.len() {
            Err(Cause::NotEnoughAccountKeys)
        } else if bytes.len() > accounts[account as int].data.len() {
            Err(Cause::AccountDataTooSmall)
        } else {
            Ok(accounts.update(account as int, stored(accounts[account as int], bytes)))
        },
        ActionView::Release { escrow, to } => if escrow >= accounts.len() || to
            >= accounts.len() {
            Err(Cause::NotEnoughAccountKeys)
        } else if accounts[to as int].lamports + accounts[escrow as int].lamports > u64::MAX {
            Err(Cause::ArithmeticOverflow)
        } else {
            Ok(
                accounts.update(
                    to as int,
                    credited(accounts[to as int], accounts[escrow as int].lamports),
                ).update(escrow as int, released(accounts[escrow as int])),
            )
        },
    }
}

/// The places of the accounts that an action changes, in the order in
/// which it changes them.
pub open spec fn touched(action: ActionView) -> Seq<usize> {
    match action {
        ActionView::Invoke(_) => Seq::empty(),
        ActionView::Store { account, bytes } => seq![account],
        ActionView::Release { escrow, to } => seq![to, escrow],
    }
}

/// Carries out an action on the accounts and tells which of them it
/// changed. An action that cannot be carried out changes nothing.
pub fn apply(action: &Action, accounts: &mut Vec<Account>) -> (changed: Result<Vec<usize>, Failure>)
    ensures
        match changed {
            Ok(places) => applied(action@, old(accounts).deep_view()) == Ok::<
                Seq<AccountView>,
                Cause,
            >(final(accounts).deep_view()) && places@ == touched(action@),
            Err(failure) => applied(action@, old(accounts).deep_view()) == Err::<
                Seq<AccountView>,
                Cause,
            >(failure@) && final(accounts).deep_view() == old(accounts).deep_view(),
        },
{
    let ghost before = accounts.deep_view();
    let mut places: Vec<usize> = Vec::new();
    match action {
        Action::Invoke(_) => {
            assert(places@ =~= Seq::<usize>::empty());
            Ok(places)
        },
        Action::Store { account, bytes } => {
            let place: usize = *account;
            if place >= accounts.len() {
                return Err(Failure::NotEnoughAccountKeys);
            }
            assert(before[place as int] == accounts@[place as int]@);
            match accounts[place].store(bytes.as_slice()) {
                Ok(_) => {
                    places.push(place);
                    assert(places@ =~= seq![place]);
                    assert(accounts.deep_view() =~= before.update(
                        place as int,
                        stored(before[place as int], bytes@),
                    ));
                    Ok(places)
                },
                Err(failure) => {
                    assert(accounts.deep_view() =~= before);
                    Err(failure)
                },
            }
        },
        Action::Release { escrow, to } => {
            let escrow: usize = *escrow;
            let to: usize = *to;
            if escrow >= accounts.len() || to >= accounts.len() {
                return Err(Failure::NotEnoughAccountKeys);
            }
            assert(before[escrow as int] == accounts@[escrow as int]@);
            assert(before[to as int] == accounts@[to as int]@);
            match accounts[to].lamports.checked_add(accounts[escrow].lamports) {
                None => Err(Failure::ArithmeticOverflow),
                Some(sum) => {
                    accounts[to].lamports = sum;
                    consume(&mut accounts[escrow]);
                    places.push(to);
                    places.push(escrow);
                    assert(places@ =~= seq![to, escrow]);
                    assert(accounts.deep_view() =~= before.update(
                        to as int,
                        credited(before[to as int], before[escrow as int].lamports),
                    ).update(escrow as int, released(before[escrow as int])));
                    Ok(places)
                },
            }
        },
    }
}

} // verus!
