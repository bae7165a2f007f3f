//! The program's entry: one instruction in, the actions that carry it out.

use crate::account::{Account, AccountView};
use crate::address::Address;
use crate::error::{Cause, Failure};
use crate::instruction::GideonInstruction;
use crate::instructions::burn::{burn_voucher_release_escrow, claim_outcome};
use crate::instructions::escrow::{init_escrow, init_escrow_outcome};
use crate::instructions::expired::{refund_outcome, release_expired_escrow};
use crate::instructions::init_authority::{init, init_outcome};
use crate::instructions::mint::{mint_voucher, mint_voucher_outcome};
use crate::invocation::{Action, ActionView};
use vstd::prelude::*;

verus! {

/// The identity under which the program is deployed.
pub const PROGRAM_ID: [u8; 32] = [
    10, 44, 186, 173, 249, 58, 23, 232, 191, 91, 15, 143, 17, 165, 115, 208,
    135, 226, 189, 139, 123, 254, 94, 102, 224, 44, 59, 121, 241, 215, 137, 141,
];

/// What an instruction needs to know of its surroundings. Each operation
/// reads its own part: the clock for the two releases, the balances and the
/// size for the accounts that the others create.
#[derive(Debug, Clone, Copy, PartialEq, Eq)]
pub struct Environment {
    /// The clock's time in seconds.
    pub now: i64,
    /// The balance that keeps the authority's account.
    pub authority_rent: u64,
    /// The balance that keeps an escrow's account.
    pub escrow_rent: u64,
    /// The balance that keeps a voucher's mint account and its metadata.
    pub mint_rent: u64,
}

/// The outcome of one operation followed by another: the first failure, or
/// the actions of both in order.
pub open spec fn in_sequence(
    first: Result<Seq<ActionView>, Cause>,
    second: Result<Seq<ActionView>, Cause>,
) -> Result<Seq<ActionView>, Cause> {
    match first {
        Err(cause) => Err(cause),
        Ok(head) => match second {
            Err(cause) => Err(cause),
            Ok(tail) => Ok(head + tail),
        },
    }
}

/// What an instruction comes to: the outcome of the operation behind it.
/// Issuance opens the escrow first and issues the voucher second.
pub open spec fn process_outcome(
    program_id: Seq<u8>,
    accounts: Seq<AccountView>,
    instruction: GideonInstruction,
    environment: Environment,
) -> Result<Seq<ActionView>, Cause> {
    match instruction {
        GideonInstruction::InitMintAuthority => init_outcome(
            program_id,
            accounts,
            environment.authority_rent,
        ),
        GideonInstruction::InitEscrowAndMintVoucher(escrow_args, mint_args) => in_sequence(
            init_escrow_outcome(
                program_id,
                accounts,
                escrow_args.payer@,
                escrow_args.recipient@,
                escrow_args.amount,
                escrow_args.voucher_mint@,
                environment.escrow_rent,
            ),
            mint_voucher_outcome(
                program_id,
                accounts,
                mint_args.title@,
                mint_args.symbol@,
                mint_args.uri@,
                mint_args.expiry,
                environment.mint_rent,
            ),
        ),
        GideonInstruction::ReleaseEscrowAndBurnVoucher => claim_outcome(
            program_id,
            accounts,
            environment.now,
        ),
        GideonInstruction::ReleaseExpiredEscrow => refund_outcome(accounts, environment.now),
    }
}

/// Carries out one instruction: decides, from the accounts as they stand,
/// which actions it comes to.
pub fn process_instruction(
    program_id: &Address,
    accounts: &[Account],
    instruction: GideonInstruction,
    environment: &Environment,
) -> (result: Result<Vec<Action>, Failure>)
    ensures
        match result {
            Ok(actions) => process_outcome(
                program_id@,
                accounts.deep_view(),
                instruction,
                *environment,
            ) == Ok::<Seq<ActionView>, Cause>(actions.deep_view()),
            Err(failure) => process_outcome(
                program_id@,
                accounts.deep_view(),
                instruction,
                *environment,
            ) == Err::<Seq<ActionView>, Cause>(failure@),
        },
{
    match instruction {
        GideonInstruction::InitMintAuthority => init(
            program_id,
            accounts,
            environment.authority_rent,
        ),
        GideonInstruction::InitEscrowAndMintVoucher(escrow_args, mint_args) => {
            let mut actions = match init_escrow(
                program_id,
                accounts,
                escrow_args,
                environment.escrow_rent,
            ) {
                Ok(actions) => actions,
                Err(failure) => {
                    return Err(failure);
                },
            };
            let mut issue = match mint_voucher(
                program_id,
                accounts,
                mint_args,
                environment.mint_rent,
            ) {
                Ok(actions) => actions,
                Err(failure) => {
                    return Err(failure);
                },
            };
            let ghost head = actions.deep_view();
            let ghost tail = issue.deep_view();
            actions.append(&mut issue);
            assert(actions.deep_view() =~= head + tail);
            Ok(actions)
        },
        GideonInstruction::ReleaseEscrowAndBurnVoucher => burn_voucher_release_escrow(
            program_id,
            accounts,
            environment.now,
        ),
        GideonInstruction::ReleaseExpiredEscrow => release_expired_escrow(
            accounts,
            environment.now,
        ),
    }
}

} // verus!
