//! What holds of the configuration record over any sequence of operations.
//!
//! The ledger applies the operations one after another. Each call brings its
//! own context: who calls, with which wallets and accounts. The one thing
//! that passes from call to call is the store: the configuration record, or
//! its absence.

use crate::address::Address;
use crate::config::Config;
use crate::edition::{decimal, edition_name, lemma_decimal_value, name_prefix, numeral_value};
use crate::error::ErrorCode;
use crate::minter::{Initialize, MintEdition, UpdateConfig, Withdraw};
use vstd::prelude::*;

verus! {

/// One operation with its arguments and its context. The record in the
/// context is the one that the call was prepared with; the ledger shows the
/// call the record that the store holds.
pub enum Call {
    Initialize { ctx: Initialize, master_mint: Address },
    Mint { ctx: MintEdition, is_discounted: bool },
    UpdatePricing { ctx: UpdateConfig, new_regular_price: Option<u64>, new_discounted_price: Option<u64> },
    Withdraw { ctx: Withdraw, amount: u64 },
}

impl Call {
    /// The call as it meets `store`.
    pub open spec fn on(self, store: Option<Config>) -> Call {
        match self {
            Call::Initialize { ctx, master_mint } => Call::Initialize {
                ctx: Initialize { config: store, ..ctx },
                master_mint,
            },
            Call::Mint { ctx, is_discounted } => Call::Mint { ctx: MintEdition { config: store, ..ctx }, is_discounted },
            Call::UpdatePricing { ctx, new_regular_price, new_discounted_price } => Call::UpdatePricing {
                ctx: UpdateConfig { config: store, ..ctx },
                new_regular_price,
                new_discounted_price,
            },
            Call::Withdraw { ctx, amount } => Call::Withdraw { ctx: Withdraw { config: store, ..ctx }, amount },
        }
    }

    /// Whether the call, as prepared, fails, or else what it counts and pays
    /// fits 64 bits. A call that fails is always in range.
    pub open spec fn in_range(self) -> bool {
        self.error() is None ==> match self {
            Call::Initialize { .. } => true,
            Call::Mint { ctx, is_discounted } => ctx.fits(is_discounted),
            Call::UpdatePricing { .. } => true,
            Call::Withdraw { ctx, amount } => ctx.fits(amount),
        }
    }

    /// Why the call, as prepared, fails, if it does.
    pub open spec fn error(self) -> Option<ErrorCode> {
        match self {
            Call::Initialize { ctx, .. } => ctx.error(),
            Call::Mint { ctx, is_discounted } => ctx.error(is_discounted),
            Call::UpdatePricing { ctx, .. } => ctx.error(),
            Call::Withdraw { ctx, amount } => ctx.error(amount),
        }
    }

    /// The record that the call, as prepared, leaves.
    pub open spec fn record_after(self) -> Option<Config> {
        match self {
            Call::Initialize { ctx, master_mint } => ctx.after(master_mint).config,
            Call::Mint { ctx, is_discounted } => ctx.after(is_discounted).config,
            Call::UpdatePricing { ctx, new_regular_price, new_discounted_price } => ctx.after(
                new_regular_price,
                new_discounted_price,
            ).config,
            Call::Withdraw { ctx, amount } => ctx.after(amount).config,
        }
    }

    /// Whether the call is a mint that succeeds on `store`.
    pub open spec fn mints_on(self, store: Option<Config>) -> bool {
        self is Mint && self.on(store).error() is None
    }
}

/// How many collectibles a store has minted: none before initialization.
pub open spec fn minted(store: Option<Config>) -> nat {
    match store {
        Some(config) => config.total_minted as nat,
        None => 0,
    }
}

/// The store after `calls`, applied in order from `store`.
pub open spec fn replay(store: Option<Config>, calls: Seq<Call>) -> Option<Config>
    decreases calls.len(),
{
    if calls.len() == 0 {
        store
    } else {
        calls.last().on(replay(store, calls.drop_last())).record_after()
    }
}

/// Whether each of `calls` that succeeds when its turn comes is in range
/// then. Nothing is asked of a call that fails.
pub open spec fn in_range(store: Option<Config>, calls: Seq<Call>) -> bool
    decreases calls.len(),
{
    if calls.len() == 0 {
        true
    } else {
        in_range(store, calls.drop_last()) && calls.last().on(replay(store, calls.drop_last())).in_range()
    }
}

/// How many of `calls` are mints that succeed when their turn comes.
pub open spec fn successful_mints(store: Option<Config>, calls: Seq<Call>) -> nat
    decreases calls.len(),
{
    if calls.len() == 0 {
        0
    } else {
        successful_mints(store, calls.drop_last()) + if calls.last().mints_on(replay(store, calls.drop_last())) {
            1nat
        } else {
            0nat
        }
    }
}

/// A call that fails leaves the store as it was.
pub proof fn lemma_failure_changes_nothing(store: Option<Config>, call: Call)
    requires
        call.on(store).error() is Some,
    ensures
        call.on(store).record_after() == store,
{
}

/// One call adds one to the count where it is a mint that succeeds, and
/// leaves the count as it was in every other case.
pub proof fn lemma_one_call_counts(store: Option<Config>, call: Call)
    requires
        call.on(store).in_range(),
    ensures
        minted(call.on(store).record_after()) == minted(store) + if call.mints_on(store) {
            1nat
        } else {
            0nat
        },
{
}

/// Over any sequence of calls, the count grows by the number of mints that
/// succeeded: after the Nth successful mint on a new store it is N.
pub proof fn lemma_count_is_successful_mints(store: Option<Config>, calls: Seq<Call>)
    requires
        in_range(store, calls),
    ensures
        minted(replay(store, calls)) == minted(store) + successful_mints(store, calls),
    decreases calls.len(),
{
    if calls.len() > 0 {
        lemma_count_is_successful_mints(store, calls.drop_last());
        lemma_one_call_counts(replay(store, calls.drop_last()), calls.last());
    }
}

/// On a store that `initialize` has just created, the count after any
/// sequence of calls is the number of mints among them that succeeded.
pub proof fn lemma_new_store_counts_from_one(first: Initialize, master_mint: Address, calls: Seq<Call>)
    requires
        first.error() is None,
        in_range(first.after(master_mint).config, calls),
    ensures
        minted(replay(first.after(master_mint).config, calls)) == successful_mints(
            first.after(master_mint).config,
            calls,
        ),
{
    lemma_count_is_successful_mints(first.after(master_mint).config, calls);
}

/// Over any sequence of calls, failed ones among them, the count never
/// decreases.
pub proof fn lemma_count_never_decreases(store: Option<Config>, calls: Seq<Call>)
    requires
        in_range(store, calls),
    ensures
        minted(replay(store, calls)) >= minted(store),
{
    lemma_count_is_successful_mints(store, calls);
}

/// The mint that succeeds on a store that has minted N - 1 collectibles
/// creates number N, whose display name is the fixed prefix and then the
/// decimal numeral of N, and no other number's.
pub proof fn lemma_minted_name_carries_number(ctx: MintEdition, is_discounted: bool)
    requires
        ctx.fits(is_discounted),
        ctx.error(is_discounted) is None,
    ensures
        ctx.receipt(is_discounted).edition_number == minted(ctx.config) + 1,
        minted(ctx.after(is_discounted).config) == minted(ctx.config) + 1,
        ctx.receipt(is_discounted).unit.metadata.name == name_prefix() + decimal(minted(ctx.config) + 1),
        numeral_value(ctx.receipt(is_discounted).unit.metadata.name.skip(name_prefix().len() as int)) == minted(
            ctx.config,
        ) + 1,
{
    let number = (minted(ctx.config) + 1) as nat;
    lemma_decimal_value(number);
    assert((name_prefix() + decimal(number)).skip(name_prefix().len() as int) =~= decimal(number));
}

/// Two collectibles with the same display name have the same number.
pub proof fn lemma_names_do_not_collide(a: u64, b: u64)
    requires
        edition_name(a) == edition_name(b),
    ensures
        a == b,
{
    lemma_decimal_value(a as nat);
    lemma_decimal_value(b as nat);
    assert(edition_name(a).skip(name_prefix().len() as int) =~= decimal(a as nat));
    assert(edition_name(b).skip(name_prefix().len() as int) =~= decimal(b as nat));
}

/// Once there is a record, there is one after every sequence of calls, with
/// the same authority, master unit and treasury address.
pub proof fn lemma_record_keeps_its_identity(store: Option<Config>, calls: Seq<Call>)
    requires
        store is Some,
    ensures
        replay(store, calls) is Some,
        replay(store, calls).unwrap().authority == store.unwrap().authority,
        replay(store, calls).unwrap().master_mint == store.unwrap().master_mint,
        replay(store, calls).unwrap().payment_vault == store.unwrap().payment_vault,
    decreases calls.len(),
{
    if calls.len() > 0 {
        lemma_record_keeps_its_identity(store, calls.drop_last());
    }
}

/// After an `initialize` that succeeded, and whatever was called since,
/// another `initialize` fails with `InvalidState` and leaves the record as
/// it is.
pub proof fn lemma_initialize_only_once(
    first: Initialize,
    master_mint: Address,
    since: Seq<Call>,
    second: Initialize,
    other_master_mint: Address,
)
    requires
        first.error() is None,
    ensures
        ({
            let store = replay(first.after(master_mint).config, since);
            let again = Initialize { config: store, ..second };
            &&& again.error() == Some(ErrorCode::InvalidState)
            &&& again.after(other_master_mint) == again
        }),
{
    lemma_record_keeps_its_identity(first.after(master_mint).config, since);
}

/// Whoever is not the authority that `initialize` recorded can neither
/// change the prices nor withdraw, whatever was called since: both fail with
/// `Authorization` and change nothing.
pub proof fn lemma_only_the_authority(
    first: Initialize,
    master_mint: Address,
    since: Seq<Call>,
    update: UpdateConfig,
    new_regular_price: Option<u64>,
    new_discounted_price: Option<u64>,
    withdrawal: Withdraw,
    amount: u64,
)
    requires
        first.error() is None,
        update.authority != first.authority,
        withdrawal.authority.key != first.authority,
    ensures
        ({
            let store = replay(first.after(master_mint).config, since);
            let update = UpdateConfig { config: store, ..update };
            let withdrawal = Withdraw { config: store, ..withdrawal };
            &&& update.error() == Some(ErrorCode::Authorization)
            &&& update.after(new_regular_price, new_discounted_price) == update
            &&& withdrawal.error(amount) == Some(ErrorCode::Authorization)
            &&& withdrawal.after(amount) == withdrawal
        }),
{
    lemma_record_keeps_its_identity(first.after(master_mint).config, since);
}

/// A mint that succeeds takes exactly the price from the minter and gives
/// exactly the price to the treasury; a mint that fails leaves both balances
/// as they were.
pub proof fn lemma_payment_is_exact(ctx: MintEdition, is_discounted: bool)
    requires
        ctx.error(is_discounted) is None ==> ctx.fits(is_discounted),
    ensures
        ctx.error(is_discounted) is None ==> {
            let price = ctx.config.unwrap().price_for(is_discounted);
            &&& ctx.after(is_discounted).minter.lamports == ctx.minter.lamports - price
            &&& ctx.after(is_discounted).payment_vault.lamports == ctx.payment_vault.lamports + price
        },
        ctx.error(is_discounted) is Some ==> ctx.after(is_discounted) == ctx,
{
}

} // verus!
