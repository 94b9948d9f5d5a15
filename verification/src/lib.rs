//! Verified core of a program that mints numbered collectibles against a
//! master record and collects their price in a treasury.
//!
//! The five operations are in [`minter`]. They decide, count and account;
//! what they ask of other programs they hand back as [`instruction::Request`]s
//! for the ledger to carry out, all or none.

pub mod address;
pub mod config;
pub mod edition;
pub mod error;
pub mod history;
pub mod instruction;
pub mod metadata;
pub mod minter;
pub mod system;
pub mod token;

pub use address::{find_address, is_address_of, Address, SeedLabel};
pub use config::{Config, Wallet};
pub use edition::{EditionAccounts, EditionUnit};
pub use error::ErrorCode;
pub use instruction::{AccountMeta, Request};
pub use minter::{
    initialize, mint_discounted, mint_edition, mint_nft_internal, update_pricing, withdraw,
    Initialize, MintEdition, MintReceipt, UpdateConfig, Withdraw, Withdrawal,
};
