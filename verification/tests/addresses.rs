use anchor_lang::solana_program::pubkey::Pubkey;
use nft_minter::address::{
    ASSOCIATED_TOKEN_PROGRAM_ID, CONFIG_SEED, PAYMENT_VAULT_SEED, RENT_SYSVAR_ID,
    SYSTEM_PROGRAM_ID, TOKEN_METADATA_PROGRAM_ID, TOKEN_PROGRAM_ID,
};
use nft_minter::{find_address, is_address_of, Address, SeedLabel};

fn program() -> Address {
    Address { bytes: [7u8; 32] }
}

#[test]
fn seed_labels_are_the_two_words() {
    assert_eq!(&CONFIG_SEED, b"config");
    assert_eq!(&PAYMENT_VAULT_SEED, b"payment_vault");
    assert_eq!(SeedLabel::Config.to_seed(), b"config".to_vec());
    assert_eq!(SeedLabel::PaymentVault.to_seed(), b"payment_vault".to_vec());
}

#[test]
fn program_ids_are_those_of_the_collaborators() {
    assert_eq!(SYSTEM_PROGRAM_ID, anchor_lang::solana_program::system_program::id().to_bytes());
    assert_eq!(TOKEN_PROGRAM_ID, spl_token::id().to_bytes());
    assert_eq!(TOKEN_PROGRAM_ID, anchor_spl::token::ID.to_bytes());
    assert_eq!(ASSOCIATED_TOKEN_PROGRAM_ID, spl_associated_token_account::id().to_bytes());
    assert_eq!(TOKEN_METADATA_PROGRAM_ID, mpl_token_metadata::ID.to_bytes());
    assert_eq!(RENT_SYSVAR_ID, anchor_lang::solana_program::sysvar::rent::id().to_bytes());
}

#[test]
fn config_address_is_the_ledgers_derivation() {
    let (key, bump) = Pubkey::find_program_address(&[b"config"], &Pubkey::from(program().bytes));
    let derived = find_address(SeedLabel::Config, &program());
    assert_eq!(derived, Some((Address { bytes: key.to_bytes() }, bump)));
}

#[test]
fn payment_vault_address_is_the_ledgers_derivation() {
    let (key, bump) =
        Pubkey::find_program_address(&[b"payment_vault"], &Pubkey::from(program().bytes));
    let derived = find_address(SeedLabel::PaymentVault, &program());
    assert_eq!(derived, Some((Address { bytes: key.to_bytes() }, bump)));
}

#[test]
fn derivation_is_deterministic() {
    assert_eq!(
        find_address(SeedLabel::PaymentVault, &program()),
        find_address(SeedLabel::PaymentVault, &program())
    );
}

#[test]
fn the_two_labels_derive_different_addresses() {
    let config = find_address(SeedLabel::Config, &program()).unwrap();
    let vault = find_address(SeedLabel::PaymentVault, &program()).unwrap();
    assert_ne!(config.0, vault.0);
}

#[test]
fn derived_addresses_have_no_private_key() {
    let (address, _) = find_address(SeedLabel::PaymentVault, &program()).unwrap();
    assert!(!Pubkey::from(address.bytes).is_on_curve());
}

#[test]
fn a_mismatched_address_is_told_apart() {
    let (vault, _) = find_address(SeedLabel::PaymentVault, &program()).unwrap();
    assert!(is_address_of(&vault, SeedLabel::PaymentVault, &program()));
    assert!(!is_address_of(&vault, SeedLabel::Config, &program()));
    assert!(!is_address_of(&vault, SeedLabel::PaymentVault, &Address { bytes: [8u8; 32] }));
    assert!(!is_address_of(&program(), SeedLabel::PaymentVault, &program()));
}

#[test]
fn same_as_compares_all_bytes() {
    let a = Address { bytes: [1u8; 32] };
    let mut other = [1u8; 32];
    assert!(a.same_as(&Address { bytes: other }));
    other[31] = 2;
    assert!(!a.same_as(&Address { bytes: other }));
    other[31] = 1;
    other[0] = 0;
    assert!(!a.same_as(&Address { bytes: other }));
    assert_eq!(a.to_seed(), vec![1u8; 32]);
}
