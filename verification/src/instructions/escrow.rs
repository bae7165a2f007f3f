//! Opening an escrow: the record is created at the address that its payer,
//! recipient and voucher derive, filled in, and funded with the deposit.

use crate::account::{Account, AccountView};
use crate::address::{find_program_address, program_address, Address};
use crate::builders::{create_account, create_account_instruction, transfer, transfer_instruction};
use crate::error::{Cause, Failure};
use crate::invocation::{
    invoke_action, places3, no_signer, push_action, unsigned, Action, ActionView,
};
use crate::state::escrow::{escrow_seeds, packed, seed_prefix, Escrow, EscrowView};
use vstd::prelude::*;

verus! {

/// What the payer says of the deposit: the two parties, the amount and the
/// voucher that will be bound to it.
#[derive(Debug, Clone, Copy, PartialEq, Eq)]
pub struct InitEscrowArgs {
    pub payer: Address,
    pub recipient: Address,
    pub amount: u64,
    pub voucher_mint: Address,
}

/// The number of accounts that opening an escrow reads.
pub const INIT_ESCROW_ACCOUNTS: usize = 9;

/// The place of the escrow among the accounts.
pub const ESCROW: usize = 0;

/// The place of the payer among the accounts.
pub const PAYER: usize = 1;

/// The place of the system program among the accounts.
pub const SYSTEM_PROGRAM: usize = 6;

/// The seed list under which the program signs for an escrow record.
pub open spec fn escrow_signer_seeds(
    payer: Seq<u8>,
    recipient: Seq<u8>,
    voucher_mint: Seq<u8>,
    bump: u8,
) -> Seq<Seq<u8>> {
    seq![seed_prefix(), payer, recipient, voucher_mint, seq![bump]]
}

/// The record that an escrow is opened with.
pub open spec fn opened_record(
    payer: Seq<u8>,
    recipient: Seq<u8>,
    amount: u64,
    voucher_mint: Seq<u8>,
    bump: u8,
) -> EscrowView {
    EscrowView { payer, recipient, amount, bump, voucher_mint }
}

/// What opening an escrow comes to: the account is created under the
/// program's signature for the derived address, the record is written into
/// it, and the deposit moves from the payer to it.
pub open spec fn init_escrow_outcome(
    program_id: Seq<u8>,
    a: Seq<AccountView>,
    payer: Seq<u8>,
    recipient: Seq<u8>,
    amount: u64,
    voucher_mint: Seq<u8>,
    lamports_required: u64,
) -> Result<Seq<ActionView>, Cause> {
    let escrow = a[ESCROW as int].key;
    let funder = a[PAYER as int].key;
    let system = a[SYSTEM_PROGRAM as int].key;
    if a.len() < 9 {
        Err(Cause::NotEnoughAccountKeys)
    } else {
        match program_address(escrow_seeds(payer, recipient, voucher_mint), program_id) {
            None => Err(Cause::InvalidSeeds),
            Some((_, bump)) => Ok(
                seq![
                    invoke_action(
                        create_account_instruction(
                            funder,
                            escrow,
                            lamports_required,
                            113,
                            program_id,
                        ),
                        seq![ESCROW, PAYER, SYSTEM_PROGRAM],
                        seq![escrow_signer_seeds(payer, recipient, voucher_mint, bump)],
                    ),
                    ActionView::Store {
                        account: ESCROW,
                        bytes: packed(opened_record(payer, recipient, amount, voucher_mint, bump)),
                    },
                    invoke_action(
                        transfer_instruction(payer, escrow, amount),
                        seq![PAYER, ESCROW, SYSTEM_PROGRAM],
                        unsigned(),
                    ),
                ],
            ),
        }
    }
}

/// Opens an escrow. The accounts are those of issuing a voucher, of which
/// the escrow, the payer and the system program are read here.
/// `lamports_required` is the balance that keeps an account of the record's
/// size.
pub fn init_escrow(
    program_id: &Address,
    accounts: &[Account],
    args: InitEscrowArgs,
    lamports_required: u64,
) -> (result: Result<Vec<Action>, Failure>)
    ensures
        match result {
            Ok(actions) => init_escrow_outcome(
                program_id@,
                accounts.deep_view(),
                args.payer@,
                args.recipient@,
                args.amount,
                args.voucher_mint@,
                lamports_required,
            ) == Ok::<Seq<ActionView>, Cause>(actions.deep_view()),
            Err(failure) => init_escrow_outcome(
                program_id@,
                accounts.deep_view(),
                args.payer@,
                args.recipient@,
                args.amount,
                args.voucher_mint@,
                lamports_required,
            ) == Err::<Seq<ActionView>, Cause>(failure@),
        },
{
    if accounts.len() < INIT_ESCROW_ACCOUNTS {
        return Err(Failure::NotEnoughAccountKeys);
    }
    let escrow = &accounts[ESCROW].key;
    let funder = &accounts[PAYER].key;
    let system = &accounts[SYSTEM_PROGRAM].key;
    proof {
        let a = accounts.deep_view();
        assert(a[ESCROW as int] == accounts@[ESCROW as int]@ && a[PAYER as int] == accounts@[PAYER as int]@ && a[SYSTEM_PROGRAM as int] == accounts@[SYSTEM_PROGRAM as int]@);
    }
    let mut seeds: Vec<Vec<u8>> = Vec::new();
    seeds.push(Escrow::seed_prefix_bytes());
    seeds.push(args.payer.to_vec());
    seeds.push(args.recipient.to_vec());
    seeds.push(args.voucher_mint.to_vec());
    assert(seeds.deep_view() =~= escrow_seeds(args.payer@, args.recipient@, args.voucher_mint@))
        by {
        assert(seeds.deep_view()[0] == seeds@[0]@);
        assert(seeds.deep_view()[1] == seeds@[1]@);
        assert(seeds.deep_view()[2] == seeds@[2]@);
        assert(seeds.deep_view()[3] == seeds@[3]@);
    }
    let bump: u8 = match find_program_address(&seeds, program_id) {
        Some((_, bump)) => bump,
        None => {
            return Err(Failure::InvalidSeeds);
        },
    };
    let mut last: Vec<u8> = Vec::new();
    last.push(bump);
    seeds.push(last);
    let mut signers: Vec<Vec<Vec<u8>>> = Vec::new();
    signers.push(seeds);
    assert(signers.deep_view() =~= seq![
        escrow_signer_seeds(args.payer@, args.recipient@, args.voucher_mint@, bump),
    ]) by {
        let list = signers@[0];
        assert(signers.deep_view()[0] == list.deep_view());
        assert(list.deep_view()[0] == list@[0]@);
        assert(list.deep_view()[1] == list@[1]@);
        assert(list.deep_view()[2] == list@[2]@);
        assert(list.deep_view()[3] == list@[3]@);
        assert(list.deep_view()[4] == list@[4]@);
        assert(list@[4]@ =~= seq![bump]);
        assert(list.deep_view() =~= escrow_signer_seeds(
            args.payer@,
            args.recipient@,
            args.voucher_mint@,
            bump,
        ));
    }
    let create = create_account(
        funder,
        escrow,
        lamports_required,
        Escrow::ACCOUNT_SPACE as u64,
        program_id,
    );
    let record = Escrow::new(args.payer, args.recipient, args.amount, bump, args.voucher_mint);
    let deposit = transfer(&args.payer, escrow, args.amount);
    let mut actions: Vec<Action> = Vec::new();
    push_action(&mut actions, Action::invoke(create, places3(ESCROW, PAYER, SYSTEM_PROGRAM), signers));
    push_action(&mut actions, Action::Store { account: ESCROW, bytes: record.pack() });
    push_action(&mut actions, Action::invoke(deposit, places3(PAYER, ESCROW, SYSTEM_PROGRAM), no_signer()));
    proof {
        let expected = init_escrow_outcome(
            program_id@,
            accounts.deep_view(),
            args.payer@,
            args.recipient@,
            args.amount,
            args.voucher_mint@,
            lamports_required,
        );
        assert(expected is Ok);
        assert(expected->Ok_0 =~= actions.deep_view());
    }
    Ok(actions)
}

} // verus!
