//! What holds of the protocol as a whole, proved from the outcomes of its
//! operations.

use crate::account::{overwritten, released, AccountView};
use crate::address::{program_address, zero_bytes};
use crate::builders::{clear_authority_instruction, mint_to_instruction, AuthorityKind};
use crate::decimal::{decimal_text, lemma_decimal_round_trip};
use crate::error::{Cause, GideonError};
use crate::instructions::burn::{claim_actions, claim_outcome};
use crate::instructions::escrow::{init_escrow_outcome, opened_record};
use crate::instructions::expired::refund_outcome;
use crate::instructions::init_authority::init_outcome;
use crate::instructions::mint::mint_voucher_outcome;
use crate::instructions::{burn, escrow, expired, init_authority, mint};
use crate::invocation::{invoke_action, ActionView};
use crate::ledger::{applied, credited};
use crate::metadata::{
    expiry_seconds, linked_escrow, voucher_entries, whole_seconds, ESCROW_KEY, EXPIRY_KEY,
};
use crate::state::authority::{authority_of, authority_verdict, signer_seeds};
use crate::state::escrow::{
    escrow_seeds, lemma_unpack_packed, lemma_unpack_zeroes, unpacked, zeroed,
};
use crate::validation::{party_verdict, voucher_verdict, ReleasePath};
use vstd::prelude::*;

verus! {

/// The outcome of an operation that the protocol's rules reject.
pub open spec fn rejected(error: GideonError) -> Result<Seq<ActionView>, Cause> {
    Err(Cause::Rejected(error))
}

/// Whether a presented account is the authority of the program: it has the
/// derived identity and its data starts with the derived bump.
pub open spec fn is_authority(program_id: Seq<u8>, presented: AccountView) -> bool {
    match authority_of(program_id) {
        Some((address, bump)) => presented.key == address && presented.data.len() > 0
            && presented.data[0] == bump,
        None => false,
    }
}

/// A program has one authority: two accounts that both are it have the
/// same identity and start with the same bump.
pub proof fn lemma_one_authority(program_id: Seq<u8>, one: AccountView, other: AccountView)
    requires
        is_authority(program_id, one),
        is_authority(program_id, other),
    ensures
        one.key == other.key,
        one.data[0] == other.data[0],
{
}

/// Authority exclusivity. Where the account presented as the authority
/// differs from the derivation in identity or in bump, issuing a voucher
/// and claiming fail with the authority error, whatever else is presented;
/// they come to no action, so nothing is changed. Setting up the authority,
/// which is what stores the bump, fails in the same way on an account of
/// another identity.
pub proof fn lemma_authority_exclusive(
    program_id: Seq<u8>,
    accounts: Seq<AccountView>,
    now: i64,
    title: Seq<char>,
    symbol: Seq<char>,
    uri: Seq<char>,
    expiry: i64,
    rent_required: u64,
)
    ensures
        accounts.len() >= 9 && !is_authority(program_id, accounts[mint::AUTHORITY as int])
            ==> mint_voucher_outcome(
            program_id,
            accounts,
            title,
            symbol,
            uri,
            expiry,
            rent_required,
        ) == rejected(GideonError::InvalidMintAuthority),
        accounts.len() >= 8 && !is_authority(program_id, accounts[burn::AUTHORITY as int])
            ==> claim_outcome(program_id, accounts, now) == rejected(
            GideonError::InvalidMintAuthority,
        ),
        accounts.len() >= 3 && !(authority_of(program_id) matches Some((address, _))
            && address == accounts[init_authority::AUTHORITY as int].key) ==> init_outcome(
            program_id,
            accounts,
            rent_required,
        ) == rejected(GideonError::InvalidMintAuthority),
{
}

/// The record that opening an escrow stores reads back as it was written,
/// into whatever data is long enough for it, and it admits the recipient to
/// the claim and the payer to the refund.
pub proof fn lemma_opened_escrow_reads_back(
    program_id: Seq<u8>,
    accounts: Seq<AccountView>,
    payer: Seq<u8>,
    recipient: Seq<u8>,
    amount: u64,
    voucher_mint: Seq<u8>,
    lamports_required: u64,
    data: Seq<u8>,
)
    requires
        payer.len() == 32,
        recipient.len() == 32,
        voucher_mint.len() == 32,
        data.len() >= 105,
        init_escrow_outcome(
            program_id,
            accounts,
            payer,
            recipient,
            amount,
            voucher_mint,
            lamports_required,
        ) is Ok,
    ensures
        ({
            let actions = init_escrow_outcome(
                program_id,
                accounts,
                payer,
                recipient,
                amount,
                voucher_mint,
                lamports_required,
            )->Ok_0;
            let bump = program_address(
                escrow_seeds(payer, recipient, voucher_mint),
                program_id,
            )->Some_0.1;
            let record = opened_record(payer, recipient, amount, voucher_mint, bump);
            &&& actions[1] is Store
            &&& actions[1]->account == escrow::ESCROW
            &&& unpacked(overwritten(data, actions[1]->bytes)) == Some(record)
            &&& party_verdict(ReleasePath::Claim, recipient, Some(record)) is Ok
            &&& party_verdict(ReleasePath::Refund, payer, Some(record)) is Ok
        }),
{
    let bump = program_address(escrow_seeds(payer, recipient, voucher_mint), program_id)->Some_0.1;
    let record = opened_record(payer, recipient, amount, voucher_mint, bump);
    lemma_unpack_packed(record, data.subrange(105, data.len() as int));
}

/// The deadline that issuing a voucher writes reads back as the deadline
/// in whole seconds, from entries that hold the two texts under their
/// keys.
pub proof fn lemma_written_deadline_reads_back(escrow_text: Seq<char>, expiry: i64)
    ensures
        expiry_seconds(seq![(ESCROW_KEY@, escrow_text), (EXPIRY_KEY@, decimal_text(expiry as int))])
            == Some(whole_seconds(expiry)),
{
    reveal_strlit("escrow");
    reveal_strlit("expiry");
    lemma_decimal_round_trip(expiry);
    let entries = seq![(ESCROW_KEY@, escrow_text), (EXPIRY_KEY@, decimal_text(expiry as int))];
    assert(ESCROW_KEY@[1] != EXPIRY_KEY@[1]);
    assert(entries.drop_first()[0] == entries[1]);
    reveal_with_fuel(crate::metadata::entry_value, 3);
}

/// A claim that succeeds ends by releasing its escrow to the caller, and so
/// does a refund, which does nothing else.
pub proof fn lemma_success_releases(program_id: Seq<u8>, accounts: Seq<AccountView>, now: i64)
    ensures
        claim_outcome(program_id, accounts, now) matches Ok(actions) ==> actions.len() >= 2
            && actions.last() == (ActionView::Release { escrow: burn::ESCROW, to: burn::CALLER }),
        refund_outcome(accounts, now) matches Ok(actions) ==> actions == seq![
            ActionView::Release { escrow: expired::ESCROW, to: expired::CALLER },
        ],
{
}

/// What a release does to the accounts: the escrow is consumed, the
/// receiver is credited with what the escrow held, and every other account
/// stays as it was.
pub proof fn lemma_release_consumes(accounts: Seq<AccountView>, escrow: usize, to: usize)
    requires
        applied(ActionView::Release { escrow, to }, accounts) is Ok,
    ensures
        ({
            let after = applied(ActionView::Release { escrow, to }, accounts)->Ok_0;
            &&& after.len() == accounts.len()
            &&& after[escrow as int] == released(accounts[escrow as int])
            &&& to != escrow ==> after[to as int] == credited(
                accounts[to as int],
                accounts[escrow as int].lamports,
            )
            &&& forall|i: int|
                0 <= i < accounts.len() && i != escrow && i != to ==> after[i] == accounts[i]
            &&& forall|i: int| 0 <= i < accounts.len() ==> after[i].key == accounts[i].key
        }),
{
}

/// The release that a successful claim or refund ends in names accounts
/// that are there, so that it can be carried out unless the balances do not
/// fit.
pub proof fn lemma_release_applies(program_id: Seq<u8>, accounts: Seq<AccountView>, now: i64)
    ensures
        claim_outcome(program_id, accounts, now) is Ok ==> (applied(
            ActionView::Release { escrow: burn::ESCROW, to: burn::CALLER },
            accounts,
        ) is Ok <==> accounts[burn::CALLER as int].lamports + accounts[burn::ESCROW as int].lamports
            <= u64::MAX),
        refund_outcome(accounts, now) is Ok ==> (applied(
            ActionView::Release { escrow: expired::ESCROW, to: expired::CALLER },
            accounts,
        ) is Ok <==> accounts[expired::CALLER as int].lamports
            + accounts[expired::ESCROW as int].lamports <= u64::MAX),
{
}

/// A release happens once. After the release that a successful claim ends
/// in, the same claim fails on the recipient, at whatever time; after the
/// release that a successful refund consists of, the same refund fails on
/// the payer. The caller is any but the all-zero identity, which nobody
/// holds.
pub proof fn lemma_release_happens_once(
    program_id: Seq<u8>,
    claim_accounts: Seq<AccountView>,
    refund_accounts: Seq<AccountView>,
    now: i64,
    later: i64,
)
    ensures
        ({
            let release = ActionView::Release { escrow: burn::ESCROW, to: burn::CALLER };
            &&& claim_outcome(program_id, claim_accounts, now) is Ok
            &&& applied(release, claim_accounts) is Ok
            &&& claim_accounts[burn::CALLER as int].key != zero_bytes()
        }) ==> claim_outcome(
            program_id,
            applied(
                ActionView::Release { escrow: burn::ESCROW, to: burn::CALLER },
                claim_accounts,
            )->Ok_0,
            later,
        ) == rejected(GideonError::InvalidRecipientAccount),
        ({
            let release = ActionView::Release { escrow: expired::ESCROW, to: expired::CALLER };
            &&& refund_outcome(refund_accounts, now) is Ok
            &&& applied(release, refund_accounts) is Ok
            &&& refund_accounts[expired::CALLER as int].key != zero_bytes()
        }) ==> refund_outcome(
            applied(
                ActionView::Release { escrow: expired::ESCROW, to: expired::CALLER },
                refund_accounts,
            )->Ok_0,
            later,
        ) == rejected(GideonError::InvalidIssuer),
{
    let claim_release = ActionView::Release { escrow: burn::ESCROW, to: burn::CALLER };
    if claim_outcome(program_id, claim_accounts, now) is Ok && applied(
        claim_release,
        claim_accounts,
    ) is Ok {
        lemma_release_consumes(claim_accounts, burn::ESCROW, burn::CALLER);
        lemma_release_is_final(
            program_id,
            applied(claim_release, claim_accounts)->Ok_0,
            refund_accounts,
            claim_accounts[burn::ESCROW as int],
            later,
        );
    }
    let refund_release = ActionView::Release { escrow: expired::ESCROW, to: expired::CALLER };
    if refund_outcome(refund_accounts, now) is Ok && applied(refund_release, refund_accounts) is Ok {
        lemma_release_consumes(refund_accounts, expired::ESCROW, expired::CALLER);
        lemma_release_is_final(
            program_id,
            claim_accounts,
            applied(refund_release, refund_accounts)->Ok_0,
            refund_accounts[expired::ESCROW as int],
            later,
        );
    }
}

/// Mutual exclusion of the release paths. An escrow that has been released
/// reads as zero in every field, and then no caller but the all-zero
/// identity, which nobody holds, passes the identity check of either path:
/// a claim fails on the authority or on the recipient, a refund on the
/// payer. As both paths end in the release, at most one of them ever
/// succeeds on an escrow.
pub proof fn lemma_release_is_final(
    program_id: Seq<u8>,
    claim_accounts: Seq<AccountView>,
    refund_accounts: Seq<AccountView>,
    escrow: AccountView,
    now: i64,
)
    ensures
        released(escrow).lamports == 0,
        released(escrow).data.len() >= 105 ==> unpacked(released(escrow).data) == Some(zeroed()),
        claim_accounts.len() >= 8 && claim_accounts[burn::ESCROW as int] == released(escrow)
            && claim_accounts[burn::CALLER as int].key != zero_bytes() ==> {
            ||| claim_outcome(program_id, claim_accounts, now) == rejected(GideonError::InvalidMintAuthority)
            ||| claim_outcome(program_id, claim_accounts, now) == rejected(GideonError::InvalidRecipientAccount)
        },
        refund_accounts.len() >= 4 && refund_accounts[expired::ESCROW as int] == released(escrow)
            && refund_accounts[expired::CALLER as int].key != zero_bytes() ==> refund_outcome(refund_accounts, now)
            == rejected(GideonError::InvalidIssuer),
{
    let data = released(escrow).data;
    if data.len() >= 105 {
        lemma_unpack_zeroes(data);
    }
}

/// A release of a released escrow changes nothing: the record stays as it
/// is, and the balance that moves is zero.
pub proof fn lemma_release_is_idempotent(escrow: AccountView)
    ensures
        released(released(escrow)) == released(escrow),
        released(escrow).lamports == 0,
{
    assert(released(released(escrow)).data =~= released(escrow).data);
}

/// The temporal gate. Of a voucher that names the escrow and holds a
/// deadline, the claim's checks pass exactly while the clock has not passed
/// the deadline and the refund's exactly once it has reached it; at the
/// deadline itself both pass. Out of time, each path fails with its own
/// error.
pub proof fn lemma_temporal_gate(
    entries: Seq<(Seq<char>, Seq<char>)>,
    escrow_key: Seq<u8>,
    expiry: int,
    now: i64,
)
    requires
        linked_escrow(entries) == Some(escrow_key),
        expiry_seconds(entries) == Some(expiry),
    ensures
        voucher_verdict(ReleasePath::Claim, entries, escrow_key, now) is Ok <==> now <= expiry,
        voucher_verdict(ReleasePath::Refund, entries, escrow_key, now) is Ok <==> now >= expiry,
        now > expiry ==> voucher_verdict(ReleasePath::Claim, entries, escrow_key, now) == Err::<
            (),
            GideonError,
        >(GideonError::VoucherExpired),
        now < expiry ==> voucher_verdict(ReleasePath::Refund, entries, escrow_key, now) == Err::<
            (),
            GideonError,
        >(GideonError::VoucherNotExpired),
        now == expiry ==> voucher_verdict(ReleasePath::Claim, entries, escrow_key, now) is Ok
            && voucher_verdict(ReleasePath::Refund, entries, escrow_key, now) is Ok,
{
}

/// The temporal gate at the level of the operations. Where everything but
/// the time is in order (the authority matches, the caller is the party of
/// the record, the voucher names the escrow and the token program accepts
/// the claim's instructions), a claim succeeds if and only if the clock has
/// not passed the deadline, and a refund if and only if it has reached it.
pub proof fn lemma_release_in_time(
    program_id: Seq<u8>,
    claim_accounts: Seq<AccountView>,
    refund_accounts: Seq<AccountView>,
    expiry: int,
    now: i64,
)
    ensures
        ({
            &&& claim_accounts.len() >= 8
            &&& authority_verdict(authority_of(program_id), claim_accounts[burn::AUTHORITY as int]) matches Ok(bump)
            &&& claim_actions(claim_accounts, bump) is Ok
            &&& party_verdict(
                ReleasePath::Claim,
                claim_accounts[burn::CALLER as int].key,
                unpacked(claim_accounts[burn::ESCROW as int].data),
            ) is Ok
            &&& voucher_entries(claim_accounts[burn::MINT as int].data) matches Some(entries)
            &&& linked_escrow(entries) == Some(claim_accounts[burn::ESCROW as int].key)
            &&& expiry_seconds(entries) == Some(expiry)
        }) ==> {
            &&& claim_outcome(program_id, claim_accounts, now) is Ok <==> now <= expiry
            &&& now > expiry ==> claim_outcome(program_id, claim_accounts, now) == rejected(GideonError::VoucherExpired)
        },
        ({
            &&& refund_accounts.len() >= 4
            &&& party_verdict(
                ReleasePath::Refund,
                refund_accounts[expired::CALLER as int].key,
                unpacked(refund_accounts[expired::ESCROW as int].data),
            ) is Ok
            &&& voucher_entries(refund_accounts[expired::MINT as int].data) matches Some(entries)
            &&& linked_escrow(entries) == Some(refund_accounts[expired::ESCROW as int].key)
            &&& expiry_seconds(entries) == Some(expiry)
        }) ==> {
            &&& refund_outcome(refund_accounts, now) is Ok <==> now >= expiry
            &&& now < expiry ==> refund_outcome(refund_accounts, now) == rejected(GideonError::VoucherNotExpired)
        },
{
}

/// Linkage integrity. A voucher whose entries do not name the escrow fails
/// the checks of either path with the linkage error, whatever the clock
/// says.
pub proof fn lemma_linkage(
    path: ReleasePath,
    entries: Seq<(Seq<char>, Seq<char>)>,
    escrow_key: Seq<u8>,
    now: i64,
)
    requires
        linked_escrow(entries) != Some(escrow_key),
    ensures
        voucher_verdict(path, entries, escrow_key, now) == Err::<(), GideonError>(
            GideonError::InvalidVoucherEscrowAccount,
        ),
{
}

/// Linkage integrity at the level of the operations. Where the identity
/// checks pass and the voucher's metadata can be read, but its entries do
/// not name the escrow account, a claim and a refund fail with the linkage
/// error, whatever the deadline and the clock.
pub proof fn lemma_release_needs_link(
    program_id: Seq<u8>,
    claim_accounts: Seq<AccountView>,
    refund_accounts: Seq<AccountView>,
    now: i64,
)
    ensures
        ({
            &&& claim_accounts.len() >= 8
            &&& authority_verdict(authority_of(program_id), claim_accounts[burn::AUTHORITY as int]) is Ok
            &&& party_verdict(
                ReleasePath::Claim,
                claim_accounts[burn::CALLER as int].key,
                unpacked(claim_accounts[burn::ESCROW as int].data),
            ) is Ok
            &&& voucher_entries(claim_accounts[burn::MINT as int].data) matches Some(entries)
            &&& linked_escrow(entries) != Some(claim_accounts[burn::ESCROW as int].key)
        }) ==> claim_outcome(program_id, claim_accounts, now) == rejected(GideonError::InvalidVoucherEscrowAccount),
        ({
            &&& refund_accounts.len() >= 4
            &&& party_verdict(
                ReleasePath::Refund,
                refund_accounts[expired::CALLER as int].key,
                unpacked(refund_accounts[expired::ESCROW as int].data),
            ) is Ok
            &&& voucher_entries(refund_accounts[expired::MINT as int].data) matches Some(entries)
            &&& linked_escrow(entries) != Some(refund_accounts[expired::ESCROW as int].key)
        }) ==> refund_outcome(refund_accounts, now) == rejected(GideonError::InvalidVoucherEscrowAccount),
{
}

/// A caller who is neither party of the record is turned away on either
/// path with the identity error of that path.
pub proof fn lemma_stranger_is_rejected(
    program_id: Seq<u8>,
    claim_accounts: Seq<AccountView>,
    refund_accounts: Seq<AccountView>,
    now: i64,
)
    ensures
        ({
            &&& claim_accounts.len() >= 8
            &&& is_authority(program_id, claim_accounts[burn::AUTHORITY as int])
            &&& unpacked(claim_accounts[burn::ESCROW as int].data) matches Some(record)
            &&& record.recipient != claim_accounts[burn::CALLER as int].key
        }) ==> claim_outcome(program_id, claim_accounts, now) == rejected(GideonError::InvalidRecipientAccount),
        ({
            &&& refund_accounts.len() >= 4
            &&& unpacked(refund_accounts[expired::ESCROW as int].data) matches Some(record)
            &&& record.payer != refund_accounts[expired::CALLER as int].key
        }) ==> refund_outcome(refund_accounts, now) == rejected(GideonError::InvalidIssuer),
{
}

/// Issuing a voucher ends by minting one unit and then taking away, under
/// the authority's signature, first the right to mint and then the right to
/// freeze.
pub proof fn lemma_issue_ends_by_clearing_rights(
    program_id: Seq<u8>,
    accounts: Seq<AccountView>,
    title: Seq<char>,
    symbol: Seq<char>,
    uri: Seq<char>,
    expiry: i64,
    rent_required: u64,
)
    requires
        mint_voucher_outcome(
            program_id,
            accounts,
            title,
            symbol,
            uri,
            expiry,
            rent_required,
        ) is Ok,
    ensures
        ({
            let actions = mint_voucher_outcome(
                program_id,
                accounts,
                title,
                symbol,
                uri,
                expiry,
                rent_required,
            )->Ok_0;
            let bump = authority_verdict(
                authority_of(program_id),
                accounts[mint::AUTHORITY as int],
            )->Ok_0;
            let mint = accounts[mint::MINT as int].key;
            let authority = accounts[mint::AUTHORITY as int].key;
            let holding = accounts[mint::HOLDING as int].key;
            let token = accounts[mint::TOKEN_PROGRAM as int].key;
            let signed = seq![signer_seeds(bump)];
            &&& actions.len() >= 9
            &&& actions[actions.len() - 3] == invoke_action(
                mint_to_instruction(token, mint, holding, authority, 1).unwrap(),
                seq![mint::MINT, mint::AUTHORITY, mint::HOLDING, mint::TOKEN_PROGRAM],
                signed,
            )
            &&& actions[actions.len() - 2] == invoke_action(
                clear_authority_instruction(
                    token,
                    mint,
                    AuthorityKind::MintTokens,
                    authority,
                ).unwrap(),
                seq![mint::MINT, mint::AUTHORITY, mint::TOKEN_PROGRAM],
                signed,
            )
            &&& actions[actions.len() - 1] == invoke_action(
                clear_authority_instruction(
                    token,
                    mint,
                    AuthorityKind::FreezeAccount,
                    authority,
                ).unwrap(),
                seq![mint::MINT, mint::AUTHORITY, mint::TOKEN_PROGRAM],
                signed,
            )
        }),
{
}

} // verus!
