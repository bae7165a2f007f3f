//! The refund: the payer takes the deposit back, from the deadline on.

use crate::account::{Account, AccountView};
use crate::error::{Cause, Failure};
use crate::invocation::{push_action, Action, ActionView};
use crate::metadata::{read_entries, voucher_entries};
use crate::state::escrow::{unpacked, Escrow};
use crate::validation::{check_party, check_voucher, party_verdict, voucher_verdict, ReleasePath};
use vstd::prelude::*;

verus! {

/// The number of accounts that a refund reads.
pub const REFUND_ACCOUNTS: usize = 4;

/// The place of the caller among the accounts.
pub const CALLER: usize = 0;

/// The place of the escrow among the accounts.
pub const ESCROW: usize = 1;

/// The place of the mint among the accounts.
pub const MINT: usize = 2;

/// The place of the clock among the accounts.
pub const CLOCK: usize = 3;

/// What a refund comes to. The checks run in a fixed order and the first
/// that fails decides: the number of accounts, the caller against the
/// payer of the record, the voucher's metadata, its link to this escrow,
/// and the deadline against the clock. The one action releases the escrow
/// to the caller; the voucher is left as it is.
pub open spec fn refund_outcome(accounts: Seq<AccountView>, now: i64) -> Result<
    Seq<ActionView>,
    Cause,
> {
    if accounts.len() < 4 {
        Err(Cause::NotEnoughAccountKeys)
    } else {
        match party_verdict(ReleasePath::Refund, accounts[CALLER as int].key, unpacked(accounts[ESCROW as int].data)) {
            Err(error) => Err(Cause::Rejected(error)),
            Ok(_) => match voucher_entries(accounts[MINT as int].data) {
                None => Err(Cause::Outside),
                Some(entries) => match voucher_verdict(
                    ReleasePath::Refund,
                    entries,
                    accounts[ESCROW as int].key,
                    now,
                ) {
                    Err(error) => Err(Cause::Rejected(error)),
                    Ok(_) => Ok(
                        seq![ActionView::Release { escrow: ESCROW, to: CALLER }],
                    ),
                },
            },
        }
    }
}

/// Returns an escrow to its payer. The accounts are, in order: the caller,
/// the escrow, the mint and the clock. `now` is the clock's time in
/// seconds.
pub fn release_expired_escrow(accounts: &[Account], now: i64) -> (result: Result<
    Vec<Action>,
    Failure,
>)
    ensures
        match result {
            Ok(actions) => refund_outcome(accounts.deep_view(), now) == Ok::<
                Seq<ActionView>,
                Cause,
            >(actions.deep_view()),
            Err(failure) => refund_outcome(accounts.deep_view(), now) == Err::<
                Seq<ActionView>,
                Cause,
            >(failure@),
        },
{
    if accounts.len() < REFUND_ACCOUNTS {
        return Err(Failure::NotEnoughAccountKeys);
    }
    let caller = &accounts[CALLER].key;
    let escrow = &accounts[ESCROW].key;
    proof {
        let a = accounts.deep_view();
        assert(a[CALLER as int] == accounts@[CALLER as int]@ && a[ESCROW as int] == accounts@[ESCROW as int]@ && a[MINT as int] == accounts@[MINT as int]@);
    }
    match check_party(ReleasePath::Refund, caller, Escrow::unpack(accounts[ESCROW].data.as_slice())) {
        Ok(_) => {},
        Err(error) => {
            return Err(Failure::Rejected(error));
        },
    }
    let entries = match read_entries(accounts[MINT].data.as_slice()) {
        Ok(entries) => entries,
        Err(error) => {
            return Err(Failure::Program(error));
        },
    };
    match check_voucher(ReleasePath::Refund, &entries, escrow, now) {
        Ok(_) => {},
        Err(error) => {
            return Err(Failure::Rejected(error));
        },
    }
    let mut actions: Vec<Action> = Vec::new();
    push_action(&mut actions, Action::Release { escrow: ESCROW, to: CALLER });
    assert(actions.deep_view() =~= seq![ActionView::Release { escrow: ESCROW, to: CALLER }]);
    Ok(actions)
}

} // verus!
