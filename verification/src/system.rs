//! Requests to the system program.

use crate::address::{Address, SYSTEM_PROGRAM_ID};
use crate::instruction::{
    instruction_accounts, instruction_data, instruction_program, lower, AccountMeta, Request,
    RequestView,
};
use anchor_lang::solana_program;
use anchor_lang::solana_program::pubkey::Pubkey;
use anchor_lang::solana_program::system_instruction;
use vstd::bytes::spec_u64_to_le_bytes;
use vstd::prelude::*;

verus! {

/// The payload with which the system program moves `lamports`: the tag 2 in
/// four bytes, then the amount in eight, the lowest byte first in both.
pub open spec fn transfer_data(lamports: u64) -> Seq<u8> {
    seq![2u8, 0u8, 0u8, 0u8] + spec_u64_to_le_bytes(lamports)
}

/// The payload with which the system program creates an account of `space`
/// bytes that holds `lamports` and belongs to `owner`: the tag 0 in four
/// bytes, the balance and the size in eight bytes each, the lowest byte
/// first in all three, then the owner's 32 bytes.
pub open spec fn create_account_data(lamports: u64, space: u64, owner: Address) -> Seq<u8> {
    seq![0u8, 0u8, 0u8, 0u8] + spec_u64_to_le_bytes(lamports) + spec_u64_to_le_bytes(space) + owner@
}

/// The request that moves `lamports` from `from`, which signs, to `to`.
pub open spec fn transfer_request(from: Address, to: Address, lamports: u64) -> RequestView {
    RequestView {
        program_id: Address { bytes: SYSTEM_PROGRAM_ID },
        accounts: seq![AccountMeta::writable(from, true), AccountMeta::writable(to, false)],
        data: transfer_data(lamports),
    }
}

/// The request that creates the account `to`, paid for by `from`; both sign.
pub open spec fn create_account_request(
    from: Address,
    to: Address,
    lamports: u64,
    space: u64,
    owner: Address,
) -> RequestView {
    RequestView {
        program_id: Address { bytes: SYSTEM_PROGRAM_ID },
        accounts: seq![AccountMeta::writable(from, true), AccountMeta::writable(to, true)],
        data: create_account_data(lamports, space, owner),
    }
}

/// `system_instruction::transfer`: an instruction for the system program
/// over `from`, writable and signing, and `to`, writable. The payload is
/// what bincode writes for the third variant of `SystemInstruction` with
/// the amount.
#[verifier::external_body]
fn transfer_instruction(from: &Address, to: &Address, lamports: u64) -> (ix: solana_program::instruction::Instruction)
    ensures
        instruction_program(ix).bytes == SYSTEM_PROGRAM_ID,
        instruction_accounts(ix) == seq![AccountMeta::writable(*from, true), AccountMeta::writable(*to, false)],
        instruction_data(ix) == transfer_data(lamports),
{
    system_instruction::transfer(&Pubkey::from(from.bytes), &Pubkey::from(to.bytes), lamports)
}

/// `system_instruction::create_account`: an instruction for the system
/// program over `from` and `to`, both writable and signing. The payload is
/// what bincode writes for the first variant of `SystemInstruction` with
/// the balance, the size and the owner.
#[verifier::external_body]
fn create_account_instruction(
    from: &Address,
    to: &Address,
    lamports: u64,
    space: u64,
    owner: &Address,
) -> (ix: solana_program::instruction::Instruction)
    ensures
        instruction_program(ix).bytes == SYSTEM_PROGRAM_ID,
        instruction_accounts(ix) == seq![AccountMeta::writable(*from, true), AccountMeta::writable(*to, true)],
        instruction_data(ix) == create_account_data(lamports, space, *owner),
{
    let owner = Pubkey::from(owner.bytes);
    system_instruction::create_account(&Pubkey::from(from.bytes), &Pubkey::from(to.bytes), lamports, space, &owner)
}

/// The request that moves `lamports` from `from` to `to`.
pub fn transfer(from: &Address, to: &Address, lamports: u64) -> (request: Request)
    ensures
        request@ == transfer_request(*from, *to, lamports),
{
    lower(transfer_instruction(from, to, lamports))
}

/// The request that creates the account `to` of `space` bytes, owned by
/// `owner` and holding `lamports`, which `from` pays.
pub fn create_account(from: &Address, to: &Address, lamports: u64, space: u64, owner: &Address) -> (request: Request)
    ensures
        request@ == create_account_request(*from, *to, lamports, space, *owner),
{
    lower(create_account_instruction(from, to, lamports, space, owner))
}

} // verus!
