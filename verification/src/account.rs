//! Accounts as plain values, and the two changes that the program makes to
//! its own accounts.

use crate::address::Address;
use crate::error::Failure;
use vstd::prelude::*;

verus! {

/// What an operation reads of an account: its identity, its balance in
/// lamports and its data.
#[derive(Debug, Clone, PartialEq, Eq)]
pub struct Account {
    pub key: Address,
    pub lamports: u64,
    pub data: Vec<u8>,
}

/// The mathematical value of an [`Account`].
pub struct AccountView {
    pub key: Seq<u8>,
    pub lamports: u64,
    pub data: Seq<u8>,
}

impl View for Account {
    type V = AccountView;

    open spec fn view(&self) -> AccountView {
        AccountView { key: self.key@, lamports: self.lamports, data: self.data@ }
    }
}

impl DeepView for Account {
    type V = AccountView;

    open spec fn deep_view(&self) -> AccountView {
        self@
    }
}

/// `data` with `bytes` written over its start.
pub open spec fn overwritten(data: Seq<u8>, bytes: Seq<u8>) -> Seq<u8> {
    bytes + data.subrange(bytes.len() as int, data.len() as int)
}

/// Data of the given length that is zero throughout.
pub open spec fn zeroes(len: nat) -> Seq<u8> {
    Seq::new(len, |i: int| 0u8)
}

/// The account after its release: no balance, and data of the same length
/// that is zero throughout.
pub open spec fn released(account: AccountView) -> AccountView {
    AccountView { key: account.key, lamports: 0, data: zeroes(account.data.len()) }
}

impl Account {
    /// The account with the given identity, balance and data.
    pub fn new(key: Address, lamports: u64, data: Vec<u8>) -> (account: Account)
        ensures
            account@ == (AccountView { key: key@, lamports, data: data@ }),
    {
        Account { key, lamports, data }
    }

    /// Writes `bytes` over the start of the account's data. Data that is
    /// too short for them is left as it was.
    pub fn store(&mut self, bytes: &[u8]) -> (stored: Result<(), Failure>)
        ensures
            final(self).key == old(self).key,
            final(self).lamports == old(self).lamports,
            match stored {
                Ok(_) => bytes@.len() <= old(self).data@.len() && final(self).data@ == overwritten(
                    old(self).data@,
                    bytes@,
                ),
                Err(failure) => bytes@.len() > old(self).data@.len() && failure
                    == Failure::AccountDataTooSmall && final(self).data@ == old(self).data@,
            },
    {
        if bytes.len() > self.data.len() {
            return Err(Failure::AccountDataTooSmall);
        }
        let mut i: usize = 0;
        while i < bytes.len()
            invariant
                i <= bytes@.len() <= self.data@.len(),
                self.data@.len() == old(self).data@.len(),
                self.key == old(self).key,
                self.lamports == old(self).lamports,
                forall|j: int| 0 <= j < i ==> self.data@[j] == bytes@[j],
                forall|j: int| i <= j < self.data@.len() ==> self.data@[j] == old(self).data@[j],
            decreases bytes@.len() - i,
        {
            self.data[i] = bytes[i];
            i = i + 1;
        }
        assert(self.data@ =~= overwritten(old(self).data@, bytes@));
        Ok(())
    }
}

/// Zeroes an account throughout, balance and data: the mark of a consumed
/// escrow.
pub fn consume(account: &mut Account)
    ensures
        final(account)@ == released(old(account)@),
{
    account.lamports = 0;
    let mut i: usize = 0;
    while i < account.data.len()
        invariant
            i <= account.data@.len(),
            account.data@.len() == old(account).data@.len(),
            account.key == old(account).key,
            account.lamports == 0,
            forall|j: int| 0 <= j < i ==> account.data@[j] == 0,
        decreases account.data@.len() - i,
    {
        account.data[i] = 0;
        i = i + 1;
    }
    assert(account.data@ =~= zeroes(old(account).data@.len()));
}

/// Releases an escrow: its whole balance moves to `to`, and the record is
/// zeroed throughout, balance and data, which marks it as consumed. Where
/// the sum of the balances does not fit, nothing changes.
pub fn release(escrow: &mut Account, to: &mut Account) -> (done: Result<(), Failure>)
    ensures
        final(to).key == old(to).key,
        final(to).data == old(to).data,
        match done {
            Ok(_) => {
                &&& old(to).lamports + old(escrow).lamports <= u64::MAX
                &&& final(to).lamports == old(to).lamports + old(escrow).lamports
                &&& final(escrow)@ == released(old(escrow)@)
            },
            Err(failure) => {
                &&& old(to).lamports + old(escrow).lamports > u64::MAX
                &&& failure == Failure::ArithmeticOverflow
                &&& *final(to) == *old(to)
                &&& *final(escrow) == *old(escrow)
            },
        },
{
    match to.lamports.checked_add(escrow.lamports) {
        None => Err(Failure::ArithmeticOverflow),
        Some(sum) => {
            to.lamports = sum;
            consume(escrow);
            Ok(())
        },
    }
}

} // verus!
