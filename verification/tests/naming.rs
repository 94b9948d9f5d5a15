use nft_minter::edition::{
    describe_edition, format_edition_name, push_decimal, write_edition_metadata, CREATOR_SHARE,
    EDITION_DECIMALS, EDITION_MAX_SUPPLY, EDITION_SUPPLY, MINT_ACCOUNT_SPACE,
    SELLER_FEE_BASIS_POINTS,
};
use nft_minter::metadata::{Collection, Creator};
use nft_minter::{Address, EditionAccounts};

fn key(byte: u8) -> Address {
    Address { bytes: [byte; 32] }
}

#[test]
fn names_carry_the_sequence_number() {
    assert_eq!(format_edition_name(1), "AMMo Founder #1");
    assert_eq!(format_edition_name(2), "AMMo Founder #2");
    assert_eq!(format_edition_name(10), "AMMo Founder #10");
    assert_eq!(format_edition_name(1234567890), "AMMo Founder #1234567890");
}

#[test]
fn names_at_the_ends_of_the_range() {
    assert_eq!(format_edition_name(0), "AMMo Founder #0");
    assert_eq!(format_edition_name(u64::MAX), "AMMo Founder #18446744073709551615");
}

#[test]
fn names_agree_with_the_standard_formatting() {
    for number in [0u64, 7, 9, 10, 11, 99, 100, 101, 999, 1000, 65535, 4294967296, u64::MAX - 1] {
        assert_eq!(format_edition_name(number), format!("AMMo Founder #{}", number));
    }
}

#[test]
fn push_decimal_appends() {
    let mut text = String::from("n=");
    push_decimal(&mut text, 407);
    assert_eq!(text, "n=407");
    push_decimal(&mut text, 0);
    assert_eq!(text, "n=4070");
}

#[test]
fn fixed_figures() {
    assert_eq!(MINT_ACCOUNT_SPACE, 82);
    assert_eq!(EDITION_DECIMALS, 0);
    assert_eq!(EDITION_SUPPLY, 1);
    assert_eq!(EDITION_MAX_SUPPLY, 0);
    assert_eq!(SELLER_FEE_BASIS_POINTS, 500);
    assert_eq!(CREATOR_SHARE, 100);
}

#[test]
fn metadata_of_an_edition() {
    let metadata = write_edition_metadata(3, key(1), key(2));
    assert_eq!(metadata.name, "AMMo Founder #3");
    assert_eq!(metadata.symbol, "FAMMo");
    assert_eq!(
        metadata.uri,
        "https://plum-imperial-swordfish-193.mypinata.cloud/ipfs/bafkreiddegzxdo2h3sliwjfpp22f46mfwb7frb3aibdqtln74uiiv3wkmy"
    );
    assert_eq!(metadata.seller_fee_basis_points, 500);
    assert_eq!(
        metadata.creators,
        Some(vec![Creator { address: key(1), verified: true, share: 100 }])
    );
    assert_eq!(metadata.collection, Some(Collection { verified: false, key: key(2) }));
    assert!(metadata.is_mutable);
}

#[test]
fn unit_of_an_edition() {
    let accounts =
        EditionAccounts { mint: key(3), token_account: key(4), metadata: key(5), edition: key(6) };
    let unit = describe_edition(12, key(1), key(2), accounts);
    assert_eq!(unit.number, 12);
    assert_eq!(unit.mint, key(3));
    assert_eq!(unit.decimals, 0);
    assert_eq!(unit.supply, 1);
    assert_eq!(unit.mint_authority, key(1));
    assert_eq!(unit.freeze_authority, key(1));
    assert_eq!(unit.owner, key(1));
    assert_eq!(unit.token_account, key(4));
    assert_eq!(unit.metadata_account, key(5));
    assert_eq!(unit.edition_account, key(6));
    assert_eq!(unit.update_authority, key(1));
    assert_eq!(unit.metadata, write_edition_metadata(12, key(1), key(2)));
    assert_eq!(unit.max_supply, 0);
}

#[test]
fn names_do_not_collide() {
    let names: Vec<String> = (0..300u64).map(format_edition_name).collect();
    for (i, a) in names.iter().enumerate() {
        for b in names.iter().skip(i + 1) {
            assert_ne!(a, b);
        }
    }
    assert_ne!(format_edition_name(1), format_edition_name(10));
    assert_ne!(format_edition_name(u64::MAX), format_edition_name(u64::MAX - 1));
}
