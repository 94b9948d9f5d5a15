use anchor_lang::solana_program::pubkey::Pubkey;
use nft_minter::address::{
    ASSOCIATED_TOKEN_PROGRAM_ID, RENT_SYSVAR_ID, SYSTEM_PROGRAM_ID, TOKEN_METADATA_PROGRAM_ID,
    TOKEN_PROGRAM_ID,
};
use nft_minter::edition::describe_edition;
use nft_minter::metadata::{
    create_master_edition, create_metadata_account, MasterEditionAccounts, MetadataAccounts,
};
use nft_minter::system::{create_account, transfer};
use nft_minter::token::{
    create_associated_token_account, find_associated_token_address, initialize_mint, mint_to,
};
use nft_minter::{
    initialize, mint_discounted, mint_edition, update_pricing, withdraw, Address, Config,
    EditionAccounts, ErrorCode, Initialize, MintEdition, UpdateConfig, Wallet, Withdraw,
};

fn key(byte: u8) -> Address {
    Address { bytes: [byte; 32] }
}

fn wallet(byte: u8, lamports: u64) -> Wallet {
    Wallet { key: key(byte), lamports, minimum_balance: 0 }
}

fn minting(config: Option<Config>, minter: Wallet, payment_vault: Wallet, slot: u8) -> MintEdition {
    let token_program = Address { bytes: TOKEN_PROGRAM_ID };
    MintEdition {
        config,
        minter,
        payment_vault,
        edition_mint: key(slot),
        edition_token_account: find_associated_token_address(&minter.key, &key(slot), &token_program)
            .unwrap(),
        edition_metadata: key(slot + 2),
        edition: key(slot + 3),
        token_program,
        system_program: Address { bytes: SYSTEM_PROGRAM_ID },
        rent: Address { bytes: RENT_SYSVAR_ID },
        mint_rent: 1_461_600,
    }
}

#[test]
fn the_life_of_a_store() {
    let authority = key(1);
    let master = key(2);
    let vault = key(3);

    let mut start = Initialize { config: None, authority, payment_vault: vault };
    assert_eq!(initialize(&mut start, master), Ok(()));
    let config = start.config;
    assert_eq!(config.unwrap().master_mint, master);
    assert_eq!(config.unwrap().total_minted, 0);

    let mut first = minting(config, wallet(10, 1_000_000_000), wallet(3, 0), 20);
    let receipt = mint_edition(&mut first).unwrap();
    assert_eq!(first.config.unwrap().total_minted, 1);
    assert_eq!(receipt.unit.owner, key(10));
    assert_eq!(receipt.unit.supply, 1);
    assert!(receipt.unit.metadata.name.ends_with("#1"));
    assert_eq!(receipt.unit.max_supply, 0);
    assert_eq!(receipt.unit.metadata.collection.unwrap().key, master);
    assert!(!receipt.unit.metadata.collection.unwrap().verified);
    assert_eq!(first.minter.lamports, 800_000_000);
    assert_eq!(first.payment_vault.lamports, 200_000_000);

    let mut second = minting(first.config, wallet(11, 1_000_000_000), first.payment_vault, 30);
    let receipt = mint_discounted(&mut second).unwrap();
    assert_eq!(receipt.price * 2, first.config.unwrap().mint_price);
    assert_eq!(second.config.unwrap().total_minted, 2);
    assert!(receipt.unit.metadata.name.ends_with("#2"));
    assert_eq!(receipt.unit.owner, key(11));
    assert_eq!(second.minter.lamports, 900_000_000);
    assert_eq!(second.payment_vault.lamports, 300_000_000);

    let mut update = UpdateConfig { config: second.config, authority };
    assert_eq!(update_pricing(&mut update, Some(300_000_000), None), Ok(()));
    assert_eq!(update.config.unwrap().mint_price, 300_000_000);
    assert_eq!(update.config.unwrap().discounted_price, 100_000_000);
    assert_eq!(update.config.unwrap().total_minted, 2);

    let mut intruder = UpdateConfig { config: update.config, authority: key(10) };
    assert_eq!(
        update_pricing(&mut intruder, Some(1), None),
        Err(ErrorCode::Authorization)
    );
    assert_eq!(intruder.config, update.config);
    assert_eq!(intruder.config.unwrap().mint_price, 300_000_000);

    let mut drain = Withdraw {
        config: update.config,
        authority: wallet(1, 0),
        payment_vault: second.payment_vault,
        payment_vault_bump: 255,
    };
    assert_eq!(withdraw(&mut drain, 300_000_001), Err(ErrorCode::InsufficientFunds));
    assert_eq!(drain.payment_vault.lamports, 300_000_000);
    assert_eq!(drain.authority.lamports, 0);
    assert!(withdraw(&mut drain, 300_000_000).is_ok());
    assert_eq!(drain.payment_vault.lamports, 0);
    assert_eq!(drain.authority.lamports, 300_000_000);
}

#[test]
fn the_nth_mint_is_number_n() {
    let mut config = Some(Config {
        authority: key(1),
        master_mint: key(2),
        mint_price: 3,
        discounted_price: 2,
        total_minted: 0,
        payment_vault: key(3),
    });
    let mut vault = wallet(3, 0);
    for n in 1..=25u64 {
        let mut ctx = minting(config, wallet(10, 10), vault, 40);
        if n % 5 == 0 {
            let mut poor = minting(config, wallet(10, 1), vault, 40);
            assert_eq!(mint_edition(&mut poor), Err(ErrorCode::InsufficientFunds));
            assert_eq!(poor.config.unwrap().total_minted, n - 1);
        }
        let receipt = if n % 2 == 0 { mint_discounted(&mut ctx) } else { mint_edition(&mut ctx) };
        let receipt = receipt.unwrap();
        assert_eq!(receipt.edition_number, n);
        assert_eq!(ctx.config.unwrap().total_minted, n);
        assert_eq!(receipt.unit.metadata.name, format!("AMMo Founder #{}", n));
        assert!(ctx.config.unwrap().total_minted > config.unwrap().total_minted);
        config = ctx.config;
        vault = ctx.payment_vault;
    }
    assert_eq!(vault.lamports, 13 * 3 + 12 * 2);
}

#[test]
fn the_requests_of_a_mint() {
    let config = Config {
        authority: key(1),
        master_mint: key(2),
        mint_price: 200_000_000,
        discounted_price: 100_000_000,
        total_minted: 6,
        payment_vault: key(3),
    };
    let mut ctx = minting(Some(config), wallet(10, 1_000_000_000), wallet(3, 0), 20);
    let receipt = mint_edition(&mut ctx).unwrap();
    let token_program = Address { bytes: TOKEN_PROGRAM_ID };
    let system_program = Address { bytes: SYSTEM_PROGRAM_ID };
    let rent = Address { bytes: RENT_SYSVAR_ID };
    let minter = key(10);

    let holding = spl_associated_token_account::get_associated_token_address(
        &Pubkey::from(minter.bytes),
        &Pubkey::from([20u8; 32]),
    );
    let holding = Address { bytes: holding.to_bytes() };
    assert_eq!(ctx.edition_token_account, holding);
    let accounts =
        EditionAccounts { mint: key(20), token_account: holding, metadata: key(22), edition: key(23) };
    assert_eq!(receipt.unit, describe_edition(7, minter, key(2), accounts));
    assert_eq!(receipt.requests.len(), 7);
    assert_eq!(receipt.requests[0], transfer(&minter, &key(3), 200_000_000));
    assert_eq!(receipt.requests[1], create_account(&minter, &key(20), 1_461_600, 82, &token_program));
    assert_eq!(
        receipt.requests[2],
        initialize_mint(&token_program, &key(20), &minter, Some(minter), 0).unwrap()
    );
    assert_eq!(
        receipt.requests[3],
        create_associated_token_account(&minter, &minter, &key(20), &token_program).unwrap()
    );
    assert_eq!(
        receipt.requests[4],
        mint_to(&token_program, &key(20), &holding, &minter, &Vec::new(), 1).unwrap()
    );
    let metadata_accounts = MetadataAccounts {
        metadata: key(22),
        mint: key(20),
        mint_authority: minter,
        payer: minter,
        update_authority: minter,
        update_authority_is_signer: true,
        system_program,
        rent: Some(rent),
    };
    assert_eq!(
        receipt.requests[5],
        create_metadata_account(&metadata_accounts, receipt.unit.metadata.clone())
    );
    let edition_accounts = MasterEditionAccounts {
        edition: key(23),
        mint: key(20),
        update_authority: minter,
        mint_authority: minter,
        payer: minter,
        metadata: key(22),
        token_program,
        system_program,
        rent: Some(rent),
    };
    assert_eq!(receipt.requests[6], create_master_edition(&edition_accounts, Some(0)));

    let programs: Vec<[u8; 32]> = receipt.requests.iter().map(|r| r.program_id.bytes).collect();
    assert_eq!(
        programs,
        vec![
            SYSTEM_PROGRAM_ID,
            SYSTEM_PROGRAM_ID,
            TOKEN_PROGRAM_ID,
            ASSOCIATED_TOKEN_PROGRAM_ID,
            TOKEN_PROGRAM_ID,
            TOKEN_METADATA_PROGRAM_ID,
            TOKEN_METADATA_PROGRAM_ID,
        ]
    );
    assert_eq!(receipt.requests[3].accounts[1].pubkey, holding);
    assert_eq!(receipt.requests[4].accounts[1].pubkey, holding);
    assert_eq!(receipt.unit.token_account, holding);
}
