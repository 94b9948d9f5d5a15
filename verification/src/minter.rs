//! The five operations of the program. Each one sees the ledger through a
//! context that holds what it may read and write, and either succeeds and
//! rewrites the context, or fails and leaves it as it was.

use crate::address::{Address, PAYMENT_VAULT_SEED, TOKEN_PROGRAM_ID};
use crate::config::{Config, Wallet};
use crate::edition::{
    describe_edition, edition_unit, write_edition_metadata, lemma_edition_metadata_encodable,
    EditionAccounts, EditionUnit, EditionUnitView, MINT_ACCOUNT_SPACE,
};
use crate::error::ErrorCode;
use crate::instruction::{Request, RequestView};
use crate::metadata::{
    create_master_edition, create_master_edition_request, create_metadata_account,
    create_metadata_account_request, MasterEditionAccounts, MetadataAccounts,
};
use crate::system::{create_account, create_account_request, transfer, transfer_request};
use crate::token::{
    associated_token_address, create_associated_token_account,
    create_associated_token_account_request, initialize_mint, initialize_mint_request, mint_to,
    mint_to_request,
};
use vstd::prelude::*;
use vstd::slice::slice_to_vec;

verus! {

/// What `initialize` sees: the configuration record, if it exists, the
/// caller and the treasury's address.
#[derive(Clone, Copy, Debug, PartialEq, Eq)]
pub struct Initialize {
    pub config: Option<Config>,
    pub authority: Address,
    pub payment_vault: Address,
}

/// What a mint sees: the configuration record, the caller's wallet, the
/// treasury, the four accounts to create, the collaborators and the rent
/// schedule.
#[derive(Clone, Copy, Debug, PartialEq, Eq)]
pub struct MintEdition {
    pub config: Option<Config>,
    pub minter: Wallet,
    pub payment_vault: Wallet,
    pub edition_mint: Address,
    pub edition_token_account: Address,
    pub edition_metadata: Address,
    pub edition: Address,
    pub token_program: Address,
    pub system_program: Address,
    pub rent: Address,
    /// What a token-type record must hold to be kept alive.
    pub mint_rent: u64,
}

/// What `update_pricing` sees: the configuration record and the caller.
#[derive(Clone, Copy, Debug, PartialEq, Eq)]
pub struct UpdateConfig {
    pub config: Option<Config>,
    pub authority: Address,
}

/// What `withdraw` sees: the configuration record, the caller's wallet, and
/// the treasury with the bump seed of its address.
#[derive(Clone, Copy, Debug, PartialEq, Eq)]
pub struct Withdraw {
    pub config: Option<Config>,
    pub authority: Wallet,
    pub payment_vault: Wallet,
    pub payment_vault_bump: u8,
}

/// What a successful mint hands back: the sequence number, the price paid,
/// the collectible, and the requests that create it, in the order in which
/// the ledger is to carry them out.
#[derive(Clone, Debug, PartialEq, Eq)]
pub struct MintReceipt {
    pub edition_number: u64,
    pub price: u64,
    pub unit: EditionUnit,
    pub requests: Vec<Request>,
}

/// The mathematical content of a [`MintReceipt`].
pub struct MintReceiptView {
    pub edition_number: u64,
    pub price: u64,
    pub unit: EditionUnitView,
    pub requests: Seq<RequestView>,
}

impl View for MintReceipt {
    type V = MintReceiptView;

    open spec fn view(&self) -> MintReceiptView {
        MintReceiptView {
            edition_number: self.edition_number,
            price: self.price,
            unit: self.unit@,
            requests: self.requests.deep_view(),
        }
    }
}

/// What a successful withdrawal hands back: the transfer out of the
/// treasury, and the seeds that stand in for the treasury's signature.
#[derive(Clone, Debug, PartialEq, Eq)]
pub struct Withdrawal {
    pub request: Request,
    pub signer_seeds: Vec<Vec<u8>>,
}

/// The mathematical content of a [`Withdrawal`].
pub struct WithdrawalView {
    pub request: RequestView,
    pub signer_seeds: Seq<Seq<u8>>,
}

impl View for Withdrawal {
    type V = WithdrawalView;

    open spec fn view(&self) -> WithdrawalView {
        WithdrawalView { request: self.request@, signer_seeds: self.signer_seeds.deep_view() }
    }
}

impl Initialize {
    /// Why `initialize` fails, if it does: the record exists already.
    pub open spec fn error(self) -> Option<ErrorCode> {
        if self.config is Some {
            Some(ErrorCode::InvalidState)
        } else {
            None
        }
    }

    /// The context after `initialize`.
    pub open spec fn after(self, master_mint: Address) -> Initialize {
        if self.error() is Some {
            self
        } else {
            Initialize { config: Some(Config::initial(self.authority, master_mint, self.payment_vault)), ..self }
        }
    }
}

impl UpdateConfig {
    /// Why `update_pricing` fails, if it does: there is no record, or the
    /// caller is not its authority.
    pub open spec fn error(self) -> Option<ErrorCode> {
        match self.config {
            None => Some(ErrorCode::InvalidState),
            Some(config) => if config.authority != self.authority {
                Some(ErrorCode::Authorization)
            } else {
                None
            },
        }
    }

    /// The context after `update_pricing`.
    pub open spec fn after(self, new_regular_price: Option<u64>, new_discounted_price: Option<u64>) -> UpdateConfig {
        if self.error() is Some {
            self
        } else {
            UpdateConfig {
                config: Some(self.config.unwrap().with_prices(new_regular_price, new_discounted_price)),
                ..self
            }
        }
    }
}

impl Withdraw {
    /// Whether the authority's balance with `amount` more fits 64 bits.
    pub open spec fn fits(self, amount: u64) -> bool {
        self.authority.lamports + amount <= u64::MAX
    }

    /// Why `withdraw` fails, if it does: there is no record, the caller is
    /// not its authority, or the treasury cannot pay the amount and keep
    /// what it must.
    pub open spec fn error(self, amount: u64) -> Option<ErrorCode> {
        match self.config {
            None => Some(ErrorCode::InvalidState),
            Some(config) => if config.authority != self.authority.key {
                Some(ErrorCode::Authorization)
            } else if !self.payment_vault.can_pay(amount) {
                Some(ErrorCode::InsufficientFunds)
            } else {
                None
            },
        }
    }

    /// The context after `withdraw`.
    pub open spec fn after(self, amount: u64) -> Withdraw {
        if self.error(amount) is Some {
            self
        } else {
            Withdraw {
                authority: self.authority.credited(amount),
                payment_vault: self.payment_vault.debited(amount),
                ..self
            }
        }
    }

    /// What a successful `withdraw` hands back: the transfer from the
    /// treasury to the authority, and the treasury's label and bump seed.
    pub open spec fn withdrawal(self, amount: u64) -> WithdrawalView {
        WithdrawalView {
            request: transfer_request(self.payment_vault.key, self.authority.key, amount),
            signer_seeds: seq![PAYMENT_VAULT_SEED@, seq![self.payment_vault_bump]],
        }
    }

    /// Whether the call is within what `withdraw` takes. A call that ends in
    /// an error always is; one that succeeds is where the payment fits the
    /// authority's balance.
    pub open spec fn spec_in_range(&self, amount: u64) -> bool {
        self.error(amount) is None ==> self.fits(amount)
    }

    /// Whether the call is within what `withdraw` takes. A call that ends in
    /// an error always is; one that succeeds is where the payment fits the
    /// authority's balance.
    #[verifier::when_used_as_spec(spec_in_range)]
    pub fn in_range(&self, amount: u64) -> (accepted: bool)
        ensures
            accepted == self.spec_in_range(amount),
    {
        match self.config {
            None => true,
            Some(config) => !config.authority.same_as(&self.authority.key) || !self.payment_vault.can_pay(amount)
                || self.authority.lamports <= u64::MAX - amount,
        }
    }
}

impl MintEdition {
    /// Whether the counter can count one more, and the treasury's balance
    /// with the price more fits 64 bits.
    pub open spec fn fits(self, is_discounted: bool) -> bool {
        self.config matches Some(config) ==> {
            &&& config.total_minted < u64::MAX
            &&& self.payment_vault.lamports + config.price_for(is_discounted) <= u64::MAX
        }
    }

    /// Whether the call is within what a mint takes. A call without a record
    /// or by a minter who cannot pay, which ends in an error, always is; any
    /// other is where the counter and the treasury's balance fit.
    pub open spec fn spec_in_range(&self, is_discounted: bool) -> bool {
        self.config is Some && self.minter.can_pay(self.config.unwrap().price_for(is_discounted)) ==> self.fits(
            is_discounted,
        )
    }

    /// Whether the call is within what a mint takes. A call without a record
    /// or by a minter who cannot pay, which ends in an error, always is; any
    /// other is where the counter and the treasury's balance fit.
    #[verifier::when_used_as_spec(spec_in_range)]
    pub fn in_range(&self, is_discounted: bool) -> (accepted: bool)
        ensures
            accepted == self.spec_in_range(is_discounted),
    {
        match self.config {
            None => true,
            Some(config) => {
                let price = config.price_for(is_discounted);
                !self.minter.can_pay(price) || (config.total_minted < u64::MAX && self.payment_vault.lamports
                    <= u64::MAX - price)
            },
        }
    }

    /// The four accounts that the mint creates.
    pub open spec fn edition_accounts(self) -> EditionAccounts {
        EditionAccounts {
            mint: self.edition_mint,
            token_account: self.edition_token_account,
            metadata: self.edition_metadata,
            edition: self.edition,
        }
    }

    /// The accounts of the request to record the metadata: the minter pays
    /// and signs as mint authority and as update authority.
    pub open spec fn metadata_accounts(self) -> MetadataAccounts {
        MetadataAccounts {
            metadata: self.edition_metadata,
            mint: self.edition_mint,
            mint_authority: self.minter.key,
            payer: self.minter.key,
            update_authority: self.minter.key,
            update_authority_is_signer: true,
            system_program: self.system_program,
            rent: Some(self.rent),
        }
    }

    /// The accounts of the request to cap the editions: the minter pays and
    /// signs as both authorities.
    pub open spec fn master_edition_accounts(self) -> MasterEditionAccounts {
        MasterEditionAccounts {
            edition: self.edition,
            mint: self.edition_mint,
            update_authority: self.minter.key,
            mint_authority: self.minter.key,
            payer: self.minter.key,
            metadata: self.edition_metadata,
            token_program: self.token_program,
            system_program: self.system_program,
            rent: Some(self.rent),
        }
    }

    /// Why a mint fails, if it does: there is no record; the minter cannot
    /// pay the price and keep what the wallet must; or a collaborator
    /// refuses: the token program's client any program but the token
    /// program, the program that creates holding accounts any account but
    /// the one that it derives for the minter and the new token type.
    pub open spec fn error(self, is_discounted: bool) -> Option<ErrorCode> {
        match self.config {
            None => Some(ErrorCode::InvalidState),
            Some(config) => if !self.minter.can_pay(config.price_for(is_discounted)) {
                Some(ErrorCode::InsufficientFunds)
            } else if self.token_program.bytes != TOKEN_PROGRAM_ID || associated_token_address(
                self.minter.key,
                self.edition_mint,
                self.token_program,
            ) != Some(self.edition_token_account) {
                Some(ErrorCode::CollaboratorFailure)
            } else {
                None
            },
        }
    }

    /// The context after a mint: the price has moved from the minter to the
    /// treasury, and the counter has counted one more.
    pub open spec fn after(self, is_discounted: bool) -> MintEdition {
        if self.error(is_discounted) is Some {
            self
        } else {
            let config = self.config.unwrap();
            let price = config.price_for(is_discounted);
            MintEdition {
                config: Some(config.with_one_more_minted()),
                minter: self.minter.debited(price),
                payment_vault: self.payment_vault.credited(price),
                ..self
            }
        }
    }

    /// The collectible that a successful mint creates: the next in sequence,
    /// for the minter, in the collection that the record names.
    pub open spec fn unit(self) -> EditionUnitView {
        let config = self.config.unwrap();
        edition_unit(
            config.with_one_more_minted().total_minted,
            self.minter.key,
            config.master_mint,
            self.edition_accounts(),
        )
    }

    /// The requests of a successful mint, in order: the payment to the
    /// treasury; the account of the token type, paid for by the minter and
    /// owned by the token program; the token type, without fractions, under
    /// the minter's authority; the minter's holding account; the single
    /// unit, issued into that account; the metadata; the cap on editions.
    pub open spec fn requests(self, is_discounted: bool) -> Seq<RequestView> {
        let unit = self.unit();
        let minter = self.minter.key;
        seq![
            transfer_request(minter, self.payment_vault.key, self.config.unwrap().price_for(is_discounted)),
            create_account_request(minter, unit.mint, self.mint_rent, MINT_ACCOUNT_SPACE, self.token_program),
            initialize_mint_request(
                self.token_program,
                unit.mint,
                unit.mint_authority,
                Some(unit.freeze_authority),
                unit.decimals,
            ),
            create_associated_token_account_request(
                minter,
                unit.token_account,
                unit.owner,
                unit.mint,
                self.token_program,
            ),
            mint_to_request(
                self.token_program,
                unit.mint,
                unit.token_account,
                unit.mint_authority,
                Seq::<Address>::empty(),
                unit.supply,
            ),
            create_metadata_account_request(self.metadata_accounts(), unit.metadata),
            create_master_edition_request(self.master_edition_accounts(), Some(unit.max_supply)),
        ]
    }

    /// What a successful mint hands back.
    pub open spec fn receipt(self, is_discounted: bool) -> MintReceiptView {
        MintReceiptView {
            edition_number: self.unit().number,
            price: self.config.unwrap().price_for(is_discounted),
            unit: self.unit(),
            requests: self.requests(is_discounted),
        }
    }
}

/// Creates the configuration record: the caller becomes the authority, the
/// prices are the defaults, nothing is minted yet. Fails with `InvalidState`
/// where the record exists already.
pub fn initialize(ctx: &mut Initialize, master_mint: Address) -> (result: Result<(), ErrorCode>)
    ensures
        result == match old(ctx).error() {
            Some(error) => Err::<(), ErrorCode>(error),
            None => Ok::<(), ErrorCode>(()),
        },
        *final(ctx) == old(ctx).after(master_mint),
{
    if ctx.config.is_some() {
        return Err(ErrorCode::InvalidState);
    }
    ctx.config = Some(
        Config {
            authority: ctx.authority,
            master_mint,
            mint_price: crate::config::DEFAULT_MINT_PRICE,
            discounted_price: crate::config::DEFAULT_DISCOUNTED_PRICE,
            total_minted: 0,
            payment_vault: ctx.payment_vault,
        },
    );
    Ok(())
}

/// Mints the next collectible at the standard price.
pub fn mint_edition(ctx: &mut MintEdition) -> (result: Result<MintReceipt, ErrorCode>)
    requires
        old(ctx).in_range(false),
    ensures
        match result {
            Ok(receipt) => old(ctx).error(false) is None && receipt@ == old(ctx).receipt(false),
            Err(error) => old(ctx).error(false) == Some(error),
        },
        *final(ctx) == old(ctx).after(false),
{
    mint_nft_internal(ctx, false)
}

/// Mints the next collectible at the discounted price.
pub fn mint_discounted(ctx: &mut MintEdition) -> (result: Result<MintReceipt, ErrorCode>)
    requires
        old(ctx).in_range(true),
    ensures
        match result {
            Ok(receipt) => old(ctx).error(true) is None && receipt@ == old(ctx).receipt(true),
            Err(error) => old(ctx).error(true) == Some(error),
        },
        *final(ctx) == old(ctx).after(true),
{
    mint_nft_internal(ctx, true)
}

/// Writes each price that is given over the old one. Fails with
/// `InvalidState` where there is no record, and with `Authorization` where
/// the caller is not its authority.
pub fn update_pricing(
    ctx: &mut UpdateConfig,
    new_regular_price: Option<u64>,
    new_discounted_price: Option<u64>,
) -> (result: Result<(), ErrorCode>)
    ensures
        result == match old(ctx).error() {
            Some(error) => Err::<(), ErrorCode>(error),
            None => Ok::<(), ErrorCode>(()),
        },
        *final(ctx) == old(ctx).after(new_regular_price, new_discounted_price),
{
    let mut config = match ctx.config {
        Some(config) => config,
        None => {
            return Err(ErrorCode::InvalidState);
        },
    };
    if !config.authority.same_as(&ctx.authority) {
        return Err(ErrorCode::Authorization);
    }
    if let Some(price) = new_regular_price {
        config.mint_price = price;
    }
    if let Some(price) = new_discounted_price {
        config.discounted_price = price;
    }
    ctx.config = Some(config);
    Ok(())
}

/// Moves `amount` from the treasury to the authority. Fails with
/// `InvalidState` where there is no record, with `Authorization` where the
/// caller is not its authority, and with `InsufficientFunds` where the
/// treasury cannot pay the amount and keep what it must.
pub fn withdraw(ctx: &mut Withdraw, amount: u64) -> (result: Result<Withdrawal, ErrorCode>)
    requires
        old(ctx).in_range(amount),
    ensures
        match result {
            Ok(withdrawal) => old(ctx).error(amount) is None && withdrawal@ == old(ctx).withdrawal(amount),
            Err(error) => old(ctx).error(amount) == Some(error),
        },
        *final(ctx) == old(ctx).after(amount),
{
    let config = match ctx.config {
        Some(config) => config,
        None => {
            return Err(ErrorCode::InvalidState);
        },
    };
    if !config.authority.same_as(&ctx.authority.key) {
        return Err(ErrorCode::Authorization);
    }
    if !ctx.payment_vault.can_pay(amount) {
        return Err(ErrorCode::InsufficientFunds);
    }
    let request = transfer(&ctx.payment_vault.key, &ctx.authority.key, amount);
    let mut signer_seeds: Vec<Vec<u8>> = Vec::new();
    signer_seeds.push(slice_to_vec(PAYMENT_VAULT_SEED.as_slice()));
    let mut bump: Vec<u8> = Vec::new();
    bump.push(ctx.payment_vault_bump);
    signer_seeds.push(bump);
    assert(signer_seeds.deep_view() =~= seq![PAYMENT_VAULT_SEED@, seq![ctx.payment_vault_bump]]) by {
        assert(signer_seeds@[0].deep_view() =~= signer_seeds@[0]@);
        assert(signer_seeds@[1].deep_view() =~= signer_seeds@[1]@);
    }
    ctx.payment_vault.lamports = ctx.payment_vault.lamports - amount;
    ctx.authority.lamports = ctx.authority.lamports + amount;
    Ok(Withdrawal { request, signer_seeds })
}

/// Mints the next collectible at the price that `is_discounted` selects:
/// takes the payment, counts the mint, and prepares the requests that create
/// the token type, the minter's holding account with the single unit, the
/// metadata and the cap on editions. Fails with `InvalidState` where there
/// is no record, with `InsufficientFunds` where the minter cannot pay the
/// price and keep what the wallet must, and with `CollaboratorFailure` where
/// the token program is another program, or the holding account another
/// account than the one derived for the minter and the new token type.
pub fn mint_nft_internal(ctx: &mut MintEdition, is_discounted: bool) -> (result: Result<MintReceipt, ErrorCode>)
    requires
        old(ctx).in_range(is_discounted),
    ensures
        match result {
            Ok(receipt) => old(ctx).error(is_discounted) is None && receipt@ == old(ctx).receipt(is_discounted),
            Err(error) => old(ctx).error(is_discounted) == Some(error),
        },
        *final(ctx) == old(ctx).after(is_discounted),
{
    let config = match ctx.config {
        Some(config) => config,
        None => {
            return Err(ErrorCode::InvalidState);
        },
    };
    let price = config.price_for(is_discounted);
    if !ctx.minter.can_pay(price) {
        return Err(ErrorCode::InsufficientFunds);
    }
    let number = config.total_minted + 1;
    let minter = ctx.minter.key;
    let accounts = EditionAccounts {
        mint: ctx.edition_mint,
        token_account: ctx.edition_token_account,
        metadata: ctx.edition_metadata,
        edition: ctx.edition,
    };
    let unit = describe_edition(number, minter, config.master_mint, accounts);

    let payment = transfer(&minter, &ctx.payment_vault.key, price);
    let account = create_account(&minter, &unit.mint, ctx.mint_rent, MINT_ACCOUNT_SPACE, &ctx.token_program);
    let token_type = match initialize_mint(
        &ctx.token_program,
        &unit.mint,
        &unit.mint_authority,
        Some(unit.freeze_authority),
        unit.decimals,
    ) {
        Ok(request) => request,
        Err(error) => {
            return Err(error);
        },
    };
    let holding = match create_associated_token_account(&minter, &unit.owner, &unit.mint, &ctx.token_program) {
        Ok(request) => request,
        Err(error) => {
            return Err(error);
        },
    };
    if !holding.accounts[1].pubkey.same_as(&unit.token_account) {
        return Err(ErrorCode::CollaboratorFailure);
    }
    let signers: Vec<Address> = Vec::new();
    let issue = match mint_to(
        &ctx.token_program,
        &unit.mint,
        &unit.token_account,
        &unit.mint_authority,
        &signers,
        unit.supply,
    ) {
        Ok(request) => request,
        Err(error) => {
            return Err(error);
        },
    };
    let metadata_accounts = MetadataAccounts {
        metadata: ctx.edition_metadata,
        mint: ctx.edition_mint,
        mint_authority: minter,
        payer: minter,
        update_authority: minter,
        update_authority_is_signer: true,
        system_program: ctx.system_program,
        rent: Some(ctx.rent),
    };
    proof {
        lemma_edition_metadata_encodable(number, minter, config.master_mint);
    }
    let record = create_metadata_account(
        &metadata_accounts,
        write_edition_metadata(number, minter, config.master_mint),
    );
    let edition_accounts = MasterEditionAccounts {
        edition: ctx.edition,
        mint: ctx.edition_mint,
        update_authority: minter,
        mint_authority: minter,
        payer: minter,
        metadata: ctx.edition_metadata,
        token_program: ctx.token_program,
        system_program: ctx.system_program,
        rent: Some(ctx.rent),
    };
    let cap = create_master_edition(&edition_accounts, Some(unit.max_supply));

    let mut requests: Vec<Request> = Vec::new();
    requests.push(payment);
    requests.push(account);
    requests.push(token_type);
    requests.push(holding);
    requests.push(issue);
    requests.push(record);
    requests.push(cap);
    assert(requests.deep_view() =~= old(ctx).requests(is_discounted));

    ctx.config = Some(Config { total_minted: number, ..config });
    ctx.minter.lamports = ctx.minter.lamports - price;
    ctx.payment_vault.lamports = ctx.payment_vault.lamports + price;
    Ok(MintReceipt { edition_number: number, price, unit, requests })
}

} // verus!
