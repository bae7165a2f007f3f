//! What an operation comes to: calls into other programs, and the two
//! changes that the program makes to its own records.

use crate::address::Address;
use vstd::prelude::*;

verus! {

/// An account that an instruction touches, and how.
#[derive(Debug, Clone, Copy, PartialEq, Eq)]
pub struct AccountMeta {
    pub pubkey: Address,
    pub is_signer: bool,
    pub is_writable: bool,
}

/// The mathematical value of an [`AccountMeta`].
pub struct AccountMetaView {
    pub pubkey: Seq<u8>,
    pub is_signer: bool,
    pub is_writable: bool,
}

impl View for AccountMeta {
    type V = AccountMetaView;

    open spec fn view(&self) -> AccountMetaView {
        AccountMetaView {
            pubkey: self.pubkey@,
            is_signer: self.is_signer,
            is_writable: self.is_writable,
        }
    }
}

impl DeepView for AccountMeta {
    type V = AccountMetaView;

    open spec fn deep_view(&self) -> AccountMetaView {
        self@
    }
}

/// An instruction for another program: the program, the accounts it is to
/// touch, and the encoded request.
#[derive(Debug, Clone, PartialEq, Eq)]
pub struct Instruction {
    pub program_id: Address,
    pub accounts: Vec<AccountMeta>,
    pub data: Vec<u8>,
}

/// The mathematical value of an [`Instruction`].
pub struct InstructionView {
    pub program_id: Seq<u8>,
    pub accounts: Seq<AccountMetaView>,
    pub data: Seq<u8>,
}

impl View for Instruction {
    type V = InstructionView;

    open spec fn view(&self) -> InstructionView {
        InstructionView {
            program_id: self.program_id@,
            accounts: self.accounts.deep_view(),
            data: self.data@,
        }
    }
}

/// One call into another program: the instruction, the accounts handed to
/// the call in order, each by its place among the accounts of the
/// operation, and the seed lists under which the program signs. No seed
/// list means an unsigned call.
#[derive(Debug, Clone, PartialEq, Eq)]
pub struct Invocation {
    pub instruction: Instruction,
    pub accounts: Vec<usize>,
    pub signers: Vec<Vec<Vec<u8>>>,
}

/// The mathematical value of an [`Invocation`].
pub struct InvocationView {
    pub instruction: InstructionView,
    pub accounts: Seq<usize>,
    pub signers: Seq<Seq<Seq<u8>>>,
}

impl View for Invocation {
    type V = InvocationView;

    open spec fn view(&self) -> InvocationView {
        InvocationView {
            instruction: self.instruction@,
            accounts: self.accounts@,
            signers: self.signers.deep_view(),
        }
    }
}

/// One step of an operation, carried out on the ledger in the order given.
/// An account is named by its place among the accounts of the operation.
#[derive(Debug, Clone, PartialEq, Eq)]
pub enum Action {
    /// Call another program.
    Invoke(Invocation),
    /// Write `bytes` over the start of the account's data.
    Store { account: usize, bytes: Vec<u8> },
    /// Move the whole balance of `escrow` to `to` and zero the record.
    Release { escrow: usize, to: usize },
}

/// The mathematical value of an [`Action`].
pub enum ActionView {
    Invoke(InvocationView),
    Store { account: usize, bytes: Seq<u8> },
    Release { escrow: usize, to: usize },
}

impl View for Action {
    type V = ActionView;

    open spec fn view(&self) -> ActionView {
        match self {
            Action::Invoke(invocation) => ActionView::Invoke(invocation@),
            Action::Store { account, bytes } => ActionView::Store {
                account: *account,
                bytes: bytes@,
            },
            Action::Release { escrow, to } => ActionView::Release { escrow: *escrow, to: *to },
        }
    }
}

impl DeepView for Action {
    type V = ActionView;

    open spec fn deep_view(&self) -> ActionView {
        self@
    }
}

/// The action that calls another program.
pub open spec fn invoke_action(
    instruction: InstructionView,
    accounts: Seq<usize>,
    signers: Seq<Seq<Seq<u8>>>,
) -> ActionView {
    ActionView::Invoke(InvocationView { instruction, accounts, signers })
}

/// No signer: what an unsigned call carries.
pub open spec fn unsigned() -> Seq<Seq<Seq<u8>>> {
    Seq::empty()
}

/// Whether a text is short enough for an instruction, which encodes it
/// behind its length in bytes as a `u32`.
pub open spec fn fits_u32(text: Seq<char>) -> bool {
    vstd::utf8::encode_utf8(text).len() <= u32::MAX
}

/// A text takes at most four bytes for each of its characters, so a text of
/// up to a thousand million characters fits.
pub proof fn lemma_short_text_fits(text: Seq<char>)
    requires
        text.len() <= 1_000_000_000,
    ensures
        vstd::utf8::encode_utf8(text).len() <= 4 * text.len(),
        fits_u32(text),
    decreases text.len(),
{
    if text.len() > 0 {
        lemma_short_text_fits(text.drop_first());
        assert(vstd::utf8::encode_scalar(text[0] as u32).len() <= 4);
    }
}

/// Tests whether a text is short enough for an instruction.
pub fn text_fits(text: &str) -> (fits: bool)
    ensures
        fits == fits_u32(text@),
{
    text.as_bytes().len() <= 0xffff_ffff
}

/// Appends an action to a list.
pub(crate) fn push_action(actions: &mut Vec<Action>, action: Action)
    ensures
        final(actions).deep_view() == old(actions).deep_view().push(action@),
{
    actions.push(action);
    assert(actions.deep_view() =~= old(actions).deep_view().push(action@));
}

/// The list of three places.
pub(crate) fn places3(a: usize, b: usize, c: usize) -> (list: Vec<usize>)
    ensures
        list@ == seq![a, b, c],
{
    let mut list: Vec<usize> = Vec::new();
    list.push(a);
    list.push(b);
    list.push(c);
    assert(list@ =~= seq![a, b, c]);
    list
}

/// The list of four places.
pub(crate) fn places4(a: usize, b: usize, c: usize, d: usize) -> (list: Vec<usize>)
    ensures
        list@ == seq![a, b, c, d],
{
    let mut list: Vec<usize> = Vec::new();
    list.push(a);
    list.push(b);
    list.push(c);
    list.push(d);
    assert(list@ =~= seq![a, b, c, d]);
    list
}

/// The list of five places.
pub(crate) fn places5(a: usize, b: usize, c: usize, d: usize, e: usize) -> (list: Vec<usize>)
    ensures
        list@ == seq![a, b, c, d, e],
{
    let mut list: Vec<usize> = Vec::new();
    list.push(a);
    list.push(b);
    list.push(c);
    list.push(d);
    list.push(e);
    assert(list@ =~= seq![a, b, c, d, e]);
    list
}

/// The list of six places.
pub(crate) fn places6(a: usize, b: usize, c: usize, d: usize, e: usize, f: usize) -> (list: Vec<
    usize,
>)
    ensures
        list@ == seq![a, b, c, d, e, f],
{
    let mut list: Vec<usize> = Vec::new();
    list.push(a);
    list.push(b);
    list.push(c);
    list.push(d);
    list.push(e);
    list.push(f);
    assert(list@ =~= seq![a, b, c, d, e, f]);
    list
}

/// No signer, as a list.
pub(crate) fn no_signer() -> (signers: Vec<Vec<Vec<u8>>>)
    ensures
        signers.deep_view() == unsigned(),
{
    let signers: Vec<Vec<Vec<u8>>> = Vec::new();
    assert(signers.deep_view() =~= unsigned());
    signers
}

impl Action {
    /// The action that calls another program with the given accounts,
    /// signing under each of the seed lists.
    pub fn invoke(instruction: Instruction, accounts: Vec<usize>, signers: Vec<Vec<Vec<u8>>>) -> (action: Action)
        ensures
            action@ == invoke_action(instruction@, accounts@, signers.deep_view()),
    {
        Action::Invoke(Invocation { instruction, accounts, signers })
    }
}

} // verus!
