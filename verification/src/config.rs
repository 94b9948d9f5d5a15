//! The configuration record and the wallets that payments move between.

use crate::address::Address;
use vstd::prelude::*;

verus! {

/// The standard price at initialization: 0.2 units of native currency.
pub const DEFAULT_MINT_PRICE: u64 = 200_000_000;

/// The discounted price at initialization: 0.1 units of native currency.
pub const DEFAULT_DISCOUNTED_PRICE: u64 = 100_000_000;

/// The program's one persistent record.
#[derive(Clone, Copy, Debug, PartialEq, Eq)]
pub struct Config {
    /// Who may change the prices and withdraw from the treasury.
    pub authority: Address,
    /// The master unit of the collection.
    pub master_mint: Address,
    /// The standard price, in the smallest unit of native currency.
    pub mint_price: u64,
    /// The discounted price.
    pub discounted_price: u64,
    /// How many collectibles have been minted; the last sequence number.
    pub total_minted: u64,
    /// The treasury's address.
    pub payment_vault: Address,
}

impl Config {
    /// The record as initialization writes it: the default prices and
    /// nothing minted.
    pub open spec fn initial(authority: Address, master_mint: Address, payment_vault: Address) -> Config {
        Config {
            authority,
            master_mint,
            mint_price: DEFAULT_MINT_PRICE,
            discounted_price: DEFAULT_DISCOUNTED_PRICE,
            total_minted: 0,
            payment_vault,
        }
    }

    /// The price of one mint: the discounted price where `is_discounted`,
    /// else the standard price.
    pub open spec fn spec_price_for(&self, is_discounted: bool) -> u64 {
        if is_discounted {
            self.discounted_price
        } else {
            self.mint_price
        }
    }

    /// The price of one mint: the discounted price where `is_discounted`,
    /// else the standard price.
    #[verifier::when_used_as_spec(spec_price_for)]
    pub fn price_for(&self, is_discounted: bool) -> (price: u64)
        ensures
            price == self.spec_price_for(is_discounted),
    {
        if is_discounted {
            self.discounted_price
        } else {
            self.mint_price
        }
    }

    /// The record with each price that is given written over the old one.
    pub open spec fn with_prices(self, new_regular_price: Option<u64>, new_discounted_price: Option<u64>) -> Config {
        Config {
            mint_price: match new_regular_price {
                Some(price) => price,
                None => self.mint_price,
            },
            discounted_price: match new_discounted_price {
                Some(price) => price,
                None => self.discounted_price,
            },
            ..self
        }
    }

    /// The record after one more mint.
    pub open spec fn with_one_more_minted(self) -> Config
        recommends
            self.total_minted < u64::MAX,
    {
        Config { total_minted: (self.total_minted + 1) as u64, ..self }
    }
}

/// An account that holds native currency, as an operation sees it.
#[derive(Clone, Copy, Debug, PartialEq, Eq)]
pub struct Wallet {
    pub key: Address,
    /// The balance, in the smallest unit of native currency.
    pub lamports: u64,
    /// The least balance with which the ledger keeps the account alive.
    pub minimum_balance: u64,
}

impl Wallet {
    /// Whether the wallet can pay `amount` and keep what it must.
    pub open spec fn spec_can_pay(&self, amount: u64) -> bool {
        self.lamports >= amount + self.minimum_balance
    }

    /// Whether the wallet can pay `amount` and keep what it must.
    #[verifier::when_used_as_spec(spec_can_pay)]
    pub fn can_pay(&self, amount: u64) -> (can: bool)
        ensures
            can == self.spec_can_pay(amount),
    {
        self.lamports >= amount && self.lamports - amount >= self.minimum_balance
    }

    /// The wallet with `amount` less.
    pub open spec fn debited(self, amount: u64) -> Wallet
        recommends
            self.lamports >= amount,
    {
        Wallet { lamports: (self.lamports - amount) as u64, ..self }
    }

    /// The wallet with `amount` more.
    pub open spec fn credited(self, amount: u64) -> Wallet
        recommends
            self.lamports + amount <= u64::MAX,
    {
        Wallet { lamports: (self.lamports + amount) as u64, ..self }
    }
}

} // verus!
