//! The descriptive record of a token type, and requests to the metadata
//! registry.

use crate::address::{Address, TOKEN_METADATA_PROGRAM_ID};
use crate::instruction::{
    instruction_accounts, instruction_data, instruction_program, lower, AccountMeta, Request,
    RequestView,
};
use anchor_lang::solana_program;
use anchor_lang::solana_program::pubkey::Pubkey;
use mpl_token_metadata::instructions::{
    CreateMasterEditionV3, CreateMasterEditionV3InstructionArgs, CreateMetadataAccountV3,
    CreateMetadataAccountV3InstructionArgs,
};
use mpl_token_metadata::types::Collection as RegistryCollection;
use mpl_token_metadata::types::CollectionDetails;
use mpl_token_metadata::types::Creator as RegistryCreator;
use mpl_token_metadata::types::DataV2;
use mpl_token_metadata::types::Uses;
use vstd::bytes::spec_u64_to_le_bytes;
use vstd::prelude::*;

verus! {

/// Someone credited with a token type, and their share of its royalties in
/// percent.
#[derive(Clone, Copy, Debug, PartialEq, Eq)]
pub struct Creator {
    pub address: Address,
    pub verified: bool,
    pub share: u8,
}

/// A reference from a token type back to the collection that it belongs to.
#[derive(Clone, Copy, Debug, PartialEq, Eq)]
pub struct Collection {
    pub verified: bool,
    pub key: Address,
}

/// What the metadata registry records of a token type. This library writes
/// no limits on uses and no details of a collection's size.
#[derive(Clone, Debug, PartialEq, Eq)]
pub struct Metadata {
    pub name: String,
    pub symbol: String,
    pub uri: String,
    pub seller_fee_basis_points: u16,
    pub creators: Option<Vec<Creator>>,
    pub collection: Option<Collection>,
    pub is_mutable: bool,
}

/// The mathematical content of a [`Metadata`].
pub struct MetadataView {
    pub name: Seq<char>,
    pub symbol: Seq<char>,
    pub uri: Seq<char>,
    pub seller_fee_basis_points: u16,
    pub creators: Option<Seq<Creator>>,
    pub collection: Option<Collection>,
    pub is_mutable: bool,
}

/// The creators of a list, if there is one.
pub open spec fn creators_view(creators: Option<Vec<Creator>>) -> Option<Seq<Creator>> {
    match creators {
        Some(list) => Some(list@),
        None => None,
    }
}

impl View for Metadata {
    type V = MetadataView;

    open spec fn view(&self) -> MetadataView {
        MetadataView {
            name: self.name@,
            symbol: self.symbol@,
            uri: self.uri@,
            seller_fee_basis_points: self.seller_fee_basis_points,
            creators: creators_view(self.creators),
            collection: self.collection,
            is_mutable: self.is_mutable,
        }
    }
}

impl MetadataView {
    /// Whether every text and the creator list are short enough for the
    /// registry's encoding, which counts bytes and items in 32 bits; a
    /// character takes four bytes at most.
    pub open spec fn encodable(self) -> bool {
        &&& 4 * self.name.len() <= u32::MAX
        &&& 4 * self.symbol.len() <= u32::MAX
        &&& 4 * self.uri.len() <= u32::MAX
        &&& self.creators matches Some(list) ==> list.len() <= u32::MAX
    }
}

/// The accounts of a request to record metadata.
#[derive(Clone, Copy, Debug, PartialEq, Eq)]
pub struct MetadataAccounts {
    pub metadata: Address,
    pub mint: Address,
    pub mint_authority: Address,
    pub payer: Address,
    pub update_authority: Address,
    pub update_authority_is_signer: bool,
    pub system_program: Address,
    /// The rent schedule's account, where the request is to list it.
    pub rent: Option<Address>,
}

/// The accounts of a request to cap the editions of a token type.
#[derive(Clone, Copy, Debug, PartialEq, Eq)]
pub struct MasterEditionAccounts {
    pub edition: Address,
    pub mint: Address,
    pub update_authority: Address,
    pub mint_authority: Address,
    pub payer: Address,
    pub metadata: Address,
    pub token_program: Address,
    pub system_program: Address,
    /// The rent schedule's account, where the request is to list it.
    pub rent: Option<Address>,
}

/// Limits on the uses of a token type, as the registry's client holds them.
/// This library passes none.
#[verifier::external_type_specification]
#[verifier::external_body]
pub struct ExUses(Uses);

/// Details of a collection's size, as the registry's client holds them. This
/// library passes none.
#[verifier::external_type_specification]
#[verifier::external_body]
pub struct ExCollectionDetails(CollectionDetails);

/// The payload that records `metadata`, without limits on uses and without
/// collection details.
pub uninterp spec fn create_metadata_account_data(metadata: MetadataView) -> Seq<u8>;

/// The payload that caps the further editions of a token type at
/// `max_supply`, or leaves them uncapped: the tag 17, then a 0, or a 1 and
/// the cap in eight bytes, the lowest first.
pub open spec fn create_master_edition_data(max_supply: Option<u64>) -> Seq<u8> {
    seq![17u8] + match max_supply {
        Some(cap) => seq![1u8] + spec_u64_to_le_bytes(cap),
        None => seq![0u8],
    }
}

/// The rent schedule's account at the end of a request's list, where the
/// request lists it.
pub open spec fn rent_account(rent: Option<Address>) -> Seq<AccountMeta> {
    match rent {
        Some(rent) => seq![AccountMeta::readonly(rent, false)],
        None => Seq::<AccountMeta>::empty(),
    }
}

/// The request to record `metadata` over `accounts`.
pub open spec fn create_metadata_account_request(accounts: MetadataAccounts, metadata: MetadataView) -> RequestView {
    RequestView {
        program_id: Address { bytes: TOKEN_METADATA_PROGRAM_ID },
        accounts: seq![
            AccountMeta::writable(accounts.metadata, false),
            AccountMeta::readonly(accounts.mint, false),
            AccountMeta::readonly(accounts.mint_authority, true),
            AccountMeta::writable(accounts.payer, true),
            AccountMeta::readonly(accounts.update_authority, accounts.update_authority_is_signer),
            AccountMeta::readonly(accounts.system_program, false),
        ] + rent_account(accounts.rent),
        data: create_metadata_account_data(metadata),
    }
}

/// The request to cap the editions of a token type over `accounts`.
pub open spec fn create_master_edition_request(accounts: MasterEditionAccounts, max_supply: Option<u64>) -> RequestView {
    RequestView {
        program_id: Address { bytes: TOKEN_METADATA_PROGRAM_ID },
        accounts: seq![
            AccountMeta::writable(accounts.edition, false),
            AccountMeta::writable(accounts.mint, false),
            AccountMeta::readonly(accounts.update_authority, true),
            AccountMeta::readonly(accounts.mint_authority, true),
            AccountMeta::writable(accounts.payer, true),
            AccountMeta::writable(accounts.metadata, false),
            AccountMeta::readonly(accounts.token_program, false),
            AccountMeta::readonly(accounts.system_program, false),
        ] + rent_account(accounts.rent),
        data: create_master_edition_data(max_supply),
    }
}

/// `CreateMetadataAccountV3::instruction`. `keys` holds, in this order, the
/// metadata account, the mint, the mint authority, the payer, the update
/// authority and the system program. The instruction is for the metadata
/// registry over these six, and the rent account behind them where one is
/// given: the metadata account and the payer writable, the mint authority
/// and the payer signing, the update authority signing where the flag says
/// so. The payload is what borsh writes for the record, which the contract
/// names for a record without uses and collection details, the one kind that
/// `requires` lets in; the encoder panics on a text or a list whose length
/// does not fit 32 bits, which `requires` leaves out.
#[verifier::external_body]
fn create_metadata_account_v3_instruction(
    keys: [Address; 6],
    rent: Option<Address>,
    update_authority_is_signer: bool,
    name: String,
    symbol: String,
    uri: String,
    seller_fee_basis_points: u16,
    creators: Option<Vec<Creator>>,
    collection: Option<Collection>,
    uses: Option<Uses>,
    is_mutable: bool,
    collection_details: Option<CollectionDetails>,
) -> (ix: solana_program::instruction::Instruction)
    requires
        4 * name@.len() <= u32::MAX,
        4 * symbol@.len() <= u32::MAX,
        4 * uri@.len() <= u32::MAX,
        creators matches Some(list) ==> list@.len() <= u32::MAX,
        uses is None,
        collection_details is None,
    ensures
        instruction_program(ix).bytes == TOKEN_METADATA_PROGRAM_ID,
        instruction_accounts(ix) == seq![
            AccountMeta::writable(keys[0], false),
            AccountMeta::readonly(keys[1], false),
            AccountMeta::readonly(keys[2], true),
            AccountMeta::writable(keys[3], true),
            AccountMeta::readonly(keys[4], update_authority_is_signer),
            AccountMeta::readonly(keys[5], false),
        ] + rent_account(rent),
        instruction_data(ix) == create_metadata_account_data(
            MetadataView {
                name: name@,
                symbol: symbol@,
                uri: uri@,
                seller_fee_basis_points,
                creators: creators_view(creators),
                collection,
                is_mutable,
            },
        ),
{
    let [metadata, mint, mint_authority, payer, authority, system_program] = keys.map(|a| Pubkey::from(a.bytes));
    let rent = rent.map(|a| Pubkey::from(a.bytes));
    let creators = creators.map(|list| list.iter().map(|c| RegistryCreator { address: Pubkey::from(c.address.bytes), verified: c.verified, share: c.share }).collect());
    let collection = collection.map(|c| RegistryCollection { verified: c.verified, key: Pubkey::from(c.key.bytes) });
    let accounts = CreateMetadataAccountV3 { metadata, mint, mint_authority, payer, update_authority: (authority, update_authority_is_signer), system_program, rent };
    accounts.instruction(CreateMetadataAccountV3InstructionArgs { data: DataV2 { name, symbol, uri, seller_fee_basis_points, creators, collection, uses }, is_mutable, collection_details })
}

/// `CreateMasterEditionV3::instruction`. `keys` holds, in this order, the
/// edition account, the mint, the update authority, the mint authority, the
/// payer, the metadata account, the token program and the system program.
/// The instruction is for the metadata registry over these eight, and the
/// rent account behind them where one is given: the edition account, the
/// mint, the payer and the metadata account writable, the two authorities
/// and the payer signing. The payload is what borsh writes for the tag and
/// the cap.
#[verifier::external_body]
fn create_master_edition_v3_instruction(
    keys: [Address; 8],
    rent: Option<Address>,
    max_supply: Option<u64>,
) -> (ix: solana_program::instruction::Instruction)
    ensures
        instruction_program(ix).bytes == TOKEN_METADATA_PROGRAM_ID,
        instruction_accounts(ix) == seq![
            AccountMeta::writable(keys[0], false),
            AccountMeta::writable(keys[1], false),
            AccountMeta::readonly(keys[2], true),
            AccountMeta::readonly(keys[3], true),
            AccountMeta::writable(keys[4], true),
            AccountMeta::writable(keys[5], false),
            AccountMeta::readonly(keys[6], false),
            AccountMeta::readonly(keys[7], false),
        ] + rent_account(rent),
        instruction_data(ix) == create_master_edition_data(max_supply),
{
    let [edition, mint, update_authority, mint_authority, payer, metadata, token_program, system_program] = keys.map(|a| Pubkey::from(a.bytes));
    let rent = rent.map(|a| Pubkey::from(a.bytes));
    let args = CreateMasterEditionV3InstructionArgs { max_supply };
    CreateMasterEditionV3 { edition, mint, update_authority, mint_authority, payer, metadata, token_program, system_program, rent }.instruction(args)
}

/// The request to record `metadata` over `accounts`, without limits on uses
/// and without collection details.
pub fn create_metadata_account(accounts: &MetadataAccounts, metadata: Metadata) -> (request: Request)
    requires
        metadata@.encodable(),
    ensures
        request@ == create_metadata_account_request(*accounts, metadata@),
{
    let keys = [
        accounts.metadata,
        accounts.mint,
        accounts.mint_authority,
        accounts.payer,
        accounts.update_authority,
        accounts.system_program,
    ];
    lower(
        create_metadata_account_v3_instruction(
            keys,
            accounts.rent,
            accounts.update_authority_is_signer,
            metadata.name,
            metadata.symbol,
            metadata.uri,
            metadata.seller_fee_basis_points,
            metadata.creators,
            metadata.collection,
            None,
            metadata.is_mutable,
            None,
        ),
    )
}

/// The request to cap the further editions of a token type at `max_supply`,
/// or to leave them uncapped, over `accounts`.
pub fn create_master_edition(accounts: &MasterEditionAccounts, max_supply: Option<u64>) -> (request: Request)
    ensures
        request@ == create_master_edition_request(*accounts, max_supply),
{
    let keys = [
        accounts.edition,
        accounts.mint,
        accounts.update_authority,
        accounts.mint_authority,
        accounts.payer,
        accounts.metadata,
        accounts.token_program,
        accounts.system_program,
    ];
    lower(create_master_edition_v3_instruction(keys, accounts.rent, max_supply))
}

} // verus!
