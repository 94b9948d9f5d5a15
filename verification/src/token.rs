//! Requests to the token program and to the program that creates holding
//! accounts.

use crate::address::{
    program_address, try_find_program_address, Address, ASSOCIATED_TOKEN_PROGRAM_ID,
    RENT_SYSVAR_ID, SYSTEM_PROGRAM_ID, TOKEN_PROGRAM_ID,
};
use crate::error::ErrorCode;
use crate::instruction::{
    instruction_accounts, instruction_data, instruction_program, lower, AccountMeta, Request,
    RequestView,
};
use anchor_lang::solana_program;
use anchor_lang::solana_program::program_error::ProgramError;
use anchor_lang::solana_program::pubkey::Pubkey;
use vstd::bytes::spec_u64_to_le_bytes;
use vstd::prelude::*;

verus! {

/// The error with which a collaborator's client refuses to build an
/// instruction.
#[verifier::external_type_specification]
#[verifier::external_body]
pub struct ExProgramError(ProgramError);

/// The payload that sets up a token type with `decimals` decimals under the
/// two authorities: the tag 0, the decimals, the mint authority, and the
/// freeze authority behind a 1, or a 0 where there is none.
pub open spec fn initialize_mint_data(
    mint_authority: Address,
    freeze_authority: Option<Address>,
    decimals: u8,
) -> Seq<u8> {
    seq![0u8, decimals] + mint_authority@ + match freeze_authority {
        Some(key) => seq![1u8] + key@,
        None => seq![0u8],
    }
}

/// The payload that issues `amount` units: the tag 7, then the amount in
/// eight bytes, the lowest first.
pub open spec fn mint_to_data(amount: u64) -> Seq<u8> {
    seq![7u8] + spec_u64_to_le_bytes(amount)
}

/// The payload that creates a holding account: the tag 0, whoever pays and
/// whoever holds.
pub open spec fn create_associated_token_account_data() -> Seq<u8> {
    seq![0u8]
}

/// The holding account of `wallet` for `mint`: the address that the program
/// that creates holding accounts controls under the wallet, the token
/// program and the mint; `None` where none can be derived.
pub open spec fn associated_token_address(wallet: Address, mint: Address, token_program: Address) -> Option<Address> {
    match program_address(
        seq![wallet@, token_program@, mint@],
        Address { bytes: ASSOCIATED_TOKEN_PROGRAM_ID },
    ) {
        Some((address, _)) => Some(address),
        None => None,
    }
}

/// The request that sets up the token type `mint`.
pub open spec fn initialize_mint_request(
    token_program: Address,
    mint: Address,
    mint_authority: Address,
    freeze_authority: Option<Address>,
    decimals: u8,
) -> RequestView {
    RequestView {
        program_id: token_program,
        accounts: seq![
            AccountMeta::writable(mint, false),
            AccountMeta::readonly(Address { bytes: RENT_SYSVAR_ID }, false),
        ],
        data: initialize_mint_data(mint_authority, freeze_authority, decimals),
    }
}

/// The accounts of a request to issue units: the mint and the receiving
/// account, writable; the owner, who signs alone where `signers` is empty;
/// then each of `signers`, signing.
pub open spec fn mint_to_accounts(
    mint: Address,
    account: Address,
    owner: Address,
    signers: Seq<Address>,
) -> Seq<AccountMeta> {
    seq![
        AccountMeta::writable(mint, false),
        AccountMeta::writable(account, false),
        AccountMeta::readonly(owner, signers.len() == 0),
    ] + Seq::new(signers.len(), |i: int| AccountMeta::readonly(signers[i], true))
}

/// The request that issues `amount` units of `mint` into `account`.
pub open spec fn mint_to_request(
    token_program: Address,
    mint: Address,
    account: Address,
    owner: Address,
    signers: Seq<Address>,
    amount: u64,
) -> RequestView {
    RequestView {
        program_id: token_program,
        accounts: mint_to_accounts(mint, account, owner, signers),
        data: mint_to_data(amount),
    }
}

/// The request that creates the holding account `associated` of `wallet` for
/// `mint`, paid for by `funder`.
pub open spec fn create_associated_token_account_request(
    funder: Address,
    associated: Address,
    wallet: Address,
    mint: Address,
    token_program: Address,
) -> RequestView {
    RequestView {
        program_id: Address { bytes: ASSOCIATED_TOKEN_PROGRAM_ID },
        accounts: seq![
            AccountMeta::writable(funder, true),
            AccountMeta::writable(associated, false),
            AccountMeta::readonly(wallet, false),
            AccountMeta::readonly(mint, false),
            AccountMeta::readonly(Address { bytes: SYSTEM_PROGRAM_ID }, false),
            AccountMeta::readonly(token_program, false),
        ],
        data: create_associated_token_account_data(),
    }
}

/// `spl_token::instruction::initialize_mint`: refuses any program but the
/// token program; else an instruction for it over the writable `mint` and
/// the rent schedule, with the payload that `TokenInstruction::pack` writes
/// for the two authorities and the decimals.
#[verifier::external_body]
fn initialize_mint_instruction(
    token_program: &Address,
    mint: &Address,
    mint_authority: &Address,
    freeze_authority: Option<Address>,
    decimals: u8,
) -> (built: Result<solana_program::instruction::Instruction, ProgramError>)
    ensures
        built is Ok <==> token_program.bytes == TOKEN_PROGRAM_ID,
        built matches Ok(ix) ==> {
            &&& instruction_program(ix) == *token_program
            &&& instruction_accounts(ix) == seq![
                AccountMeta::writable(*mint, false),
                AccountMeta::readonly(Address { bytes: RENT_SYSVAR_ID }, false),
            ]
            &&& instruction_data(ix) == initialize_mint_data(*mint_authority, freeze_authority, decimals)
        },
{
    let (program, mint) = (Pubkey::from(token_program.bytes), Pubkey::from(mint.bytes));
    let authority = Pubkey::from(mint_authority.bytes);
    let freeze = freeze_authority.map(|a| Pubkey::from(a.bytes));
    spl_token::instruction::initialize_mint(&program, &mint, &authority, freeze.as_ref(), decimals)
}

/// `spl_token::instruction::mint_to`: refuses any program but the token
/// program; else an instruction for it over the writable `mint` and
/// `account`, the `owner`, who signs where `signers` is empty, and each of
/// `signers`, signing, with the payload that `TokenInstruction::pack` writes
/// for the amount.
#[verifier::external_body]
fn mint_to_instruction(
    token_program: &Address,
    mint: &Address,
    account: &Address,
    owner: &Address,
    signers: &Vec<Address>,
    amount: u64,
) -> (built: Result<solana_program::instruction::Instruction, ProgramError>)
    ensures
        built is Ok <==> token_program.bytes == TOKEN_PROGRAM_ID,
        built matches Ok(ix) ==> {
            &&& instruction_program(ix) == *token_program
            &&& instruction_accounts(ix) == mint_to_accounts(*mint, *account, *owner, signers@)
            &&& instruction_data(ix) == mint_to_data(amount)
        },
{
    let (program, mint) = (Pubkey::from(token_program.bytes), Pubkey::from(mint.bytes));
    let (account, owner) = (Pubkey::from(account.bytes), Pubkey::from(owner.bytes));
    let keys: Vec<Pubkey> = signers.iter().map(|a| Pubkey::from(a.bytes)).collect();
    let signers: Vec<&Pubkey> = keys.iter().collect();
    spl_token::instruction::mint_to(&program, &mint, &account, &owner, &signers, amount)
}

/// `spl_associated_token_account::instruction::create_associated_token_account`:
/// derives the holding account from the wallet, the token program and the
/// mint, and panics where none can be derived, which `requires` leaves out;
/// else an instruction for the program that creates holding accounts over
/// the funder, writable and signing, the derived account, writable, and the
/// wallet, the mint, the system program and the token program, read only.
/// The payload is what borsh writes for the first variant of
/// `AssociatedTokenAccountInstruction`, which has no fields.
#[verifier::external_body]
fn create_associated_token_account_instruction(
    funder: &Address,
    wallet: &Address,
    mint: &Address,
    token_program: &Address,
) -> (ix: solana_program::instruction::Instruction)
    requires
        associated_token_address(*wallet, *mint, *token_program) is Some,
    ensures
        instruction_program(ix).bytes == ASSOCIATED_TOKEN_PROGRAM_ID,
        instruction_accounts(ix) == seq![
            AccountMeta::writable(*funder, true),
            AccountMeta::writable(associated_token_address(*wallet, *mint, *token_program).unwrap(), false),
            AccountMeta::readonly(*wallet, false),
            AccountMeta::readonly(*mint, false),
            AccountMeta::readonly(Address { bytes: SYSTEM_PROGRAM_ID }, false),
            AccountMeta::readonly(*token_program, false),
        ],
        instruction_data(ix) == create_associated_token_account_data(),
{
    let (funder, wallet) = (Pubkey::from(funder.bytes), Pubkey::from(wallet.bytes));
    let (mint, program) = (Pubkey::from(mint.bytes), Pubkey::from(token_program.bytes));
    spl_associated_token_account::instruction::create_associated_token_account(&funder, &wallet, &mint, &program)
}

/// The request that sets up the token type `mint` with `decimals` decimals
/// under the two authorities. The token program's client refuses to address
/// any program but the token program.
pub fn initialize_mint(
    token_program: &Address,
    mint: &Address,
    mint_authority: &Address,
    freeze_authority: Option<Address>,
    decimals: u8,
) -> (built: Result<Request, ErrorCode>)
    ensures
        token_program.bytes == TOKEN_PROGRAM_ID ==> built is Ok && built.unwrap()@ == initialize_mint_request(
            *token_program,
            *mint,
            *mint_authority,
            freeze_authority,
            decimals,
        ),
        token_program.bytes != TOKEN_PROGRAM_ID ==> built == Err::<Request, ErrorCode>(
            ErrorCode::CollaboratorFailure,
        ),
{
    match initialize_mint_instruction(token_program, mint, mint_authority, freeze_authority, decimals) {
        Ok(ix) => Ok(lower(ix)),
        Err(_) => Err(ErrorCode::CollaboratorFailure),
    }
}

/// The request that issues `amount` units of `mint` into `account` on the
/// word of `owner`, or of `signers` where there are any. The token program's
/// client refuses to address any program but the token program.
pub fn mint_to(
    token_program: &Address,
    mint: &Address,
    account: &Address,
    owner: &Address,
    signers: &Vec<Address>,
    amount: u64,
) -> (built: Result<Request, ErrorCode>)
    ensures
        token_program.bytes == TOKEN_PROGRAM_ID ==> built is Ok && built.unwrap()@ == mint_to_request(
            *token_program,
            *mint,
            *account,
            *owner,
            signers@,
            amount,
        ),
        token_program.bytes != TOKEN_PROGRAM_ID ==> built == Err::<Request, ErrorCode>(
            ErrorCode::CollaboratorFailure,
        ),
{
    match mint_to_instruction(token_program, mint, account, owner, signers, amount) {
        Ok(ix) => Ok(lower(ix)),
        Err(_) => Err(ErrorCode::CollaboratorFailure),
    }
}

/// The holding account of `wallet` for `mint`, where one can be derived.
pub fn find_associated_token_address(wallet: &Address, mint: &Address, token_program: &Address) -> (found: Option<
    Address,
>)
    ensures
        found == associated_token_address(*wallet, *mint, *token_program),
{
    let mut seeds: Vec<Vec<u8>> = Vec::new();
    seeds.push(wallet.to_seed());
    seeds.push(token_program.to_seed());
    seeds.push(mint.to_seed());
    assert(seeds.deep_view() =~= seq![wallet@, token_program@, mint@]) by {
        assert(seeds@[0].deep_view() =~= seeds@[0]@);
        assert(seeds@[1].deep_view() =~= seeds@[1]@);
        assert(seeds@[2].deep_view() =~= seeds@[2]@);
    }
    let program = Address { bytes: ASSOCIATED_TOKEN_PROGRAM_ID };
    match try_find_program_address(&seeds, &program) {
        Some((address, _)) => Some(address),
        None => None,
    }
}

/// The request that creates the holding account of `wallet` for `mint`, paid
/// for by `funder`. There is none where no address can be derived for the
/// holding account.
pub fn create_associated_token_account(
    funder: &Address,
    wallet: &Address,
    mint: &Address,
    token_program: &Address,
) -> (built: Result<Request, ErrorCode>)
    ensures
        match associated_token_address(*wallet, *mint, *token_program) {
            Some(associated) => built is Ok && built.unwrap()@ == create_associated_token_account_request(
                *funder,
                associated,
                *wallet,
                *mint,
                *token_program,
            ),
            None => built == Err::<Request, ErrorCode>(ErrorCode::CollaboratorFailure),
        },
{
    match find_associated_token_address(wallet, mint, token_program) {
        Some(_) => Ok(lower(create_associated_token_account_instruction(funder, wallet, mint, token_program))),
        None => Err(ErrorCode::CollaboratorFailure),
    }
}

} // verus!
