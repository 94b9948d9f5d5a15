//! What one mint creates: a numbered, one-of-a-kind token type with its
//! descriptive record.

use crate::address::Address;
use crate::metadata::{Collection, Creator, Metadata, MetadataView};
use vstd::prelude::*;
use vstd::string::StringExecFns;

verus! {

/// The size in bytes of a token-type record.
pub const MINT_ACCOUNT_SPACE: u64 = 82;

/// A collectible has no fractions.
pub const EDITION_DECIMALS: u8 = 0;

/// Exactly one unit of each collectible is issued.
pub const EDITION_SUPPLY: u64 = 1;

/// No further copies can be made of a collectible.
pub const EDITION_MAX_SUPPLY: u64 = 0;

/// The royalty on resale, in hundredths of a percent.
pub const SELLER_FEE_BASIS_POINTS: u16 = 500;

/// The share of the royalties that goes to the sole creator, in percent.
pub const CREATOR_SHARE: u8 = 100;

/// The display name up to the sequence number.
pub open spec fn name_prefix() -> Seq<char> {
    "AMMo Founder #"@
}

/// The symbol that every collectible carries.
pub open spec fn symbol() -> Seq<char> {
    "FAMMo"@
}

/// Where the image and description of every collectible are kept.
pub open spec fn uri() -> Seq<char> {
    "https://plum-imperial-swordfish-193.mypinata.cloud/ipfs/bafkreiddegzxdo2h3sliwjfpp22f46mfwb7frb3aibdqtln74uiiv3wkmy"@
}

/// The character of a decimal digit.
pub open spec fn digit(d: int) -> char {
    if d == 0 {
        '0'
    } else if d == 1 {
        '1'
    } else if d == 2 {
        '2'
    } else if d == 3 {
        '3'
    } else if d == 4 {
        '4'
    } else if d == 5 {
        '5'
    } else if d == 6 {
        '6'
    } else if d == 7 {
        '7'
    } else if d == 8 {
        '8'
    } else {
        '9'
    }
}

/// The decimal numeral of `n`, without leading zeros.
pub open spec fn decimal(n: nat) -> Seq<char>
    decreases n,
{
    if n < 10 {
        seq![digit(n as int)]
    } else {
        decimal(n / 10).push(digit((n % 10) as int))
    }
}

/// The display name of the collectible with sequence number `number`.
pub open spec fn edition_name(number: u64) -> Seq<char> {
    name_prefix() + decimal(number as nat)
}

/// The value of a decimal digit's character; 0 for any other character.
pub open spec fn digit_value(c: char) -> nat {
    if c == '1' {
        1
    } else if c == '2' {
        2
    } else if c == '3' {
        3
    } else if c == '4' {
        4
    } else if c == '5' {
        5
    } else if c == '6' {
        6
    } else if c == '7' {
        7
    } else if c == '8' {
        8
    } else if c == '9' {
        9
    } else {
        0
    }
}

/// The number that a numeral stands for.
pub open spec fn numeral_value(numeral: Seq<char>) -> nat
    decreases numeral.len(),
{
    if numeral.len() == 0 {
        0
    } else {
        10 * numeral_value(numeral.drop_last()) + digit_value(numeral.last())
    }
}

/// A numeral stands for the number that it was written for.
pub proof fn lemma_decimal_value(n: nat)
    ensures
        numeral_value(decimal(n)) == n,
    decreases n,
{
    if n < 10 {
        let numeral = decimal(n);
        assert(numeral.drop_last().len() == 0);
        assert(numeral_value(numeral.drop_last()) == 0);
        assert(numeral.last() == digit(n as int));
    } else {
        lemma_decimal_value(n / 10);
        let numeral = decimal(n);
        assert(numeral.drop_last() =~= decimal(n / 10));
        assert(numeral.last() == digit((n % 10) as int));
    }
}

/// A numeral has one digit at least, and a number below 10^k has k at most.
pub proof fn lemma_decimal_len(n: nat)
    ensures
        1 <= decimal(n).len(),
        n <= u64::MAX ==> decimal(n).len() <= 20,
    decreases n,
{
    reveal_with_fuel(decimal, 21);
}

/// The digit `d` as a text of one character.
fn digit_text(d: u64) -> (text: &'static str)
    requires
        d < 10,
    ensures
        text@ == seq![digit(d as int)],
{
    proof {
        reveal_strlit("0");
        reveal_strlit("1");
        reveal_strlit("2");
        reveal_strlit("3");
        reveal_strlit("4");
        reveal_strlit("5");
        reveal_strlit("6");
        reveal_strlit("7");
        reveal_strlit("8");
        reveal_strlit("9");
    }
    let text = if d == 0 {
        "0"
    } else if d == 1 {
        "1"
    } else if d == 2 {
        "2"
    } else if d == 3 {
        "3"
    } else if d == 4 {
        "4"
    } else if d == 5 {
        "5"
    } else if d == 6 {
        "6"
    } else if d == 7 {
        "7"
    } else if d == 8 {
        "8"
    } else {
        "9"
    };
    assert(text@ =~= seq![digit(d as int)]);
    text
}

/// Writes the decimal numeral of `n` at the end of `text`.
pub fn push_decimal(text: &mut String, n: u64)
    ensures
        final(text)@ == old(text)@ + decimal(n as nat),
    decreases n,
{
    if n >= 10 {
        push_decimal(text, n / 10);
    }
    text.append(digit_text(n % 10));
    proof {
        if n >= 10 {
            assert(old(text)@ + decimal((n / 10) as nat) + seq![digit((n % 10) as int)] =~= old(text)@
                + decimal(n as nat));
        } else {
            assert(old(text)@ + seq![digit((n % 10) as int)] =~= old(text)@ + decimal(n as nat));
        }
    }
}

/// The display name of the collectible with sequence number `number`.
pub fn format_edition_name(number: u64) -> (name: String)
    ensures
        name@ == edition_name(number),
{
    let mut name = String::from_str("AMMo Founder #");
    push_decimal(&mut name, number);
    name
}

/// One collectible: a token type of its own, the account that holds its
/// single unit, its descriptive record and the cap on its editions.
#[derive(Clone, Debug, PartialEq, Eq)]
pub struct EditionUnit {
    /// The sequence number, counted from 1.
    pub number: u64,
    /// The token-type record.
    pub mint: Address,
    pub decimals: u8,
    pub supply: u64,
    pub mint_authority: Address,
    pub freeze_authority: Address,
    /// Who owns the single unit.
    pub owner: Address,
    /// The account that holds the single unit for the owner.
    pub token_account: Address,
    /// The account of the descriptive record.
    pub metadata_account: Address,
    /// The account of the cap on editions.
    pub edition_account: Address,
    pub update_authority: Address,
    pub metadata: Metadata,
    /// How many further copies can be made.
    pub max_supply: u64,
}

/// The mathematical content of an [`EditionUnit`].
pub struct EditionUnitView {
    pub number: u64,
    pub mint: Address,
    pub decimals: u8,
    pub supply: u64,
    pub mint_authority: Address,
    pub freeze_authority: Address,
    pub owner: Address,
    pub token_account: Address,
    pub metadata_account: Address,
    pub edition_account: Address,
    pub update_authority: Address,
    pub metadata: MetadataView,
    pub max_supply: u64,
}

impl View for EditionUnit {
    type V = EditionUnitView;

    open spec fn view(&self) -> EditionUnitView {
        EditionUnitView {
            number: self.number,
            mint: self.mint,
            decimals: self.decimals,
            supply: self.supply,
            mint_authority: self.mint_authority,
            freeze_authority: self.freeze_authority,
            owner: self.owner,
            token_account: self.token_account,
            metadata_account: self.metadata_account,
            edition_account: self.edition_account,
            update_authority: self.update_authority,
            metadata: self.metadata@,
            max_supply: self.max_supply,
        }
    }
}

/// The four accounts that a mint creates for a collectible.
#[derive(Clone, Copy, Debug, PartialEq, Eq)]
pub struct EditionAccounts {
    pub mint: Address,
    pub token_account: Address,
    pub metadata: Address,
    pub edition: Address,
}

/// The descriptive record of the collectible `number` of the collection
/// `master_mint`, minted by `minter`: the numbered name, the fixed symbol,
/// reference and royalty, the minter as sole, verified creator, and an
/// unverified reference back to the collection; it stays mutable.
pub open spec fn edition_metadata(number: u64, minter: Address, master_mint: Address) -> MetadataView {
    MetadataView {
        name: edition_name(number),
        symbol: symbol(),
        uri: uri(),
        seller_fee_basis_points: SELLER_FEE_BASIS_POINTS,
        creators: Some(seq![Creator { address: minter, verified: true, share: CREATOR_SHARE }]),
        collection: Some(Collection { verified: false, key: master_mint }),
        is_mutable: true,
    }
}

/// The collectible `number` of the collection `master_mint`, minted by
/// `minter` into `accounts`: one unit without fractions, owned by the minter,
/// who also holds every authority over it; no further copies.
pub open spec fn edition_unit(
    number: u64,
    minter: Address,
    master_mint: Address,
    accounts: EditionAccounts,
) -> EditionUnitView {
    EditionUnitView {
        number,
        mint: accounts.mint,
        decimals: EDITION_DECIMALS,
        supply: EDITION_SUPPLY,
        mint_authority: minter,
        freeze_authority: minter,
        owner: minter,
        token_account: accounts.token_account,
        metadata_account: accounts.metadata,
        edition_account: accounts.edition,
        update_authority: minter,
        metadata: edition_metadata(number, minter, master_mint),
        max_supply: EDITION_MAX_SUPPLY,
    }
}

/// The descriptive record of every collectible fits the registry's encoding.
pub proof fn lemma_edition_metadata_encodable(number: u64, minter: Address, master_mint: Address)
    ensures
        edition_metadata(number, minter, master_mint).encodable(),
{
    reveal_strlit("AMMo Founder #");
    reveal_strlit("FAMMo");
    reveal_strlit(
        "https://plum-imperial-swordfish-193.mypinata.cloud/ipfs/bafkreiddegzxdo2h3sliwjfpp22f46mfwb7frb3aibdqtln74uiiv3wkmy",
    );
    lemma_decimal_len(number as nat);
}

/// Writes the descriptive record of the collectible `number` of the
/// collection `master_mint`, minted by `minter`.
pub fn write_edition_metadata(number: u64, minter: Address, master_mint: Address) -> (metadata: Metadata)
    ensures
        metadata@ == edition_metadata(number, minter, master_mint),
{
    let mut creators: Vec<Creator> = Vec::new();
    creators.push(Creator { address: minter, verified: true, share: CREATOR_SHARE });
    assert(creators@ =~= seq![Creator { address: minter, verified: true, share: CREATOR_SHARE }]);
    Metadata {
        name: format_edition_name(number),
        symbol: String::from_str("FAMMo"),
        uri: String::from_str(
            "https://plum-imperial-swordfish-193.mypinata.cloud/ipfs/bafkreiddegzxdo2h3sliwjfpp22f46mfwb7frb3aibdqtln74uiiv3wkmy",
        ),
        seller_fee_basis_points: SELLER_FEE_BASIS_POINTS,
        creators: Some(creators),
        collection: Some(Collection { verified: false, key: master_mint }),
        is_mutable: true,
    }
}

/// Describes the collectible `number` of the collection `master_mint`,
/// minted by `minter` into `accounts`.
pub fn describe_edition(number: u64, minter: Address, master_mint: Address, accounts: EditionAccounts) -> (unit:
    EditionUnit)
    ensures
        unit@ == edition_unit(number, minter, master_mint, accounts),
{
    EditionUnit {
        number,
        mint: accounts.mint,
        decimals: EDITION_DECIMALS,
        supply: EDITION_SUPPLY,
        mint_authority: minter,
        freeze_authority: minter,
        owner: minter,
        token_account: accounts.token_account,
        metadata_account: accounts.metadata,
        edition_account: accounts.edition,
        update_authority: minter,
        metadata: write_edition_metadata(number, minter, master_mint),
        max_supply: EDITION_MAX_SUPPLY,
    }
}

} // verus!
