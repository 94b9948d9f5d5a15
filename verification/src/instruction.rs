//! Requests to other programs, as plain values.

use crate::address::Address;
use anchor_lang::solana_program;
use vstd::prelude::*;

verus! {

/// One account that a request touches, and how.
#[derive(Clone, Copy, Debug, PartialEq, Eq)]
pub struct AccountMeta {
    pub pubkey: Address,
    pub is_signer: bool,
    pub is_writable: bool,
}

impl AccountMeta {
    /// An account that the request may write to.
    pub open spec fn writable(pubkey: Address, is_signer: bool) -> AccountMeta {
        AccountMeta { pubkey, is_signer, is_writable: true }
    }

    /// An account that the request only reads.
    pub open spec fn readonly(pubkey: Address, is_signer: bool) -> AccountMeta {
        AccountMeta { pubkey, is_signer, is_writable: false }
    }
}

/// A request to another program: which program, on which accounts, with what
/// payload.
#[derive(Clone, Debug, PartialEq, Eq)]
pub struct Request {
    pub program_id: Address,
    pub accounts: Vec<AccountMeta>,
    pub data: Vec<u8>,
}

/// The mathematical content of a [`Request`].
pub struct RequestView {
    pub program_id: Address,
    pub accounts: Seq<AccountMeta>,
    pub data: Seq<u8>,
}

impl View for Request {
    type V = RequestView;

    open spec fn view(&self) -> RequestView {
        RequestView { program_id: self.program_id, accounts: self.accounts@, data: self.data@ }
    }
}

impl DeepView for Request {
    type V = RequestView;

    open spec fn deep_view(&self) -> RequestView {
        self@
    }
}

/// An instruction as the collaborators' clients build it: a program, a list
/// of accounts and a payload, none of which Verus sees.
#[verifier::external_type_specification]
#[verifier::external_body]
pub struct ExInstruction(solana_program::instruction::Instruction);

/// The program that a client-built instruction addresses.
pub uninterp spec fn instruction_program(ix: solana_program::instruction::Instruction) -> Address;

/// The accounts that a client-built instruction lists, in order.
pub uninterp spec fn instruction_accounts(ix: solana_program::instruction::Instruction) -> Seq<AccountMeta>;

/// The payload that a client-built instruction carries.
pub uninterp spec fn instruction_data(ix: solana_program::instruction::Instruction) -> Seq<u8>;

/// Copies out the three public fields of a client-built instruction: the
/// program and each account's key through `Pubkey::to_bytes`, which hands
/// out the key's 32 bytes, the two flags of each account and the payload as
/// they stand. The three names mean what this function reads.
#[verifier::external_body]
pub(crate) fn lower(ix: solana_program::instruction::Instruction) -> (request: Request)
    ensures
        request.program_id == instruction_program(ix),
        request.accounts@ == instruction_accounts(ix),
        request.data@ == instruction_data(ix),
{
    let accounts = ix.accounts.iter().map(|m| AccountMeta {
        pubkey: Address { bytes: m.pubkey.to_bytes() },
        is_signer: m.is_signer,
        is_writable: m.is_writable,
    });
    Request { program_id: Address { bytes: ix.program_id.to_bytes() }, accounts: accounts.collect(), data: ix.data }
}

} // verus!
