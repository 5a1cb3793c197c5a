//! The on-chain subscription state machine.
//!
//! One transition exists: `subscribe` takes the fixed price from the payer
//! and creates the subscription record, as one atomic unit. A record never
//! exists without its payment: on any failure nothing changes — no balance
//! moves and no record is written. A record account is initialized exactly
//! once; there is no renewal.

use vstd::prelude::*;

use crate::keys::Pubkey;

verus! {

/// The price of one subscription, in the smallest unit.
pub const SUBSCRIPTION_PRICE: u64 = 100_000_000;

/// How long a subscription lasts, in seconds: 30 days.
pub const SUBSCRIPTION_DURATION: i64 = 30 * 24 * 60 * 60;

/// Errors of the subscription program. Each aborts the invocation atomically:
/// no payment moves and no record is written.
#[derive(Clone, Copy, PartialEq, Eq, Structural, Debug)]
pub enum VaultError {
    /// The record account is already initialized; subscribing is one-time.
    AlreadySubscribed,
    /// The invoked program account does not match the deployed identity.
    InvalidContext,
    /// The payer cannot cover the subscription price.
    InsufficientFunds,
}

/// One persistent subscription record.
pub struct SubscriptionAccount {
    /// The identity the subscription was bought for.
    pub subscriber: Pubkey,
    /// The purchased tier, an opaque small integer.
    pub tier: u8,
    /// When the subscription ends: the network time at purchase plus the
    /// fixed duration.
    pub end_date: i64,
}

/// The context of an `initialize` invocation. The operation touches no
/// account.
pub struct Initialize {}

/// The context one `subscribe` invocation sees: the record account to
/// initialize, the paying user with its balance, the program's treasury
/// balance, the program account handed in against the deployed identity,
/// and the network clock.
pub struct Subscribe {
    /// The record account: `None` until it is initialized.
    pub subscription_account: Option<SubscriptionAccount>,
    /// The paying user's address.
    pub user: Pubkey,
    /// The paying user's balance, in the smallest unit.
    pub user_balance: u64,
    /// The program treasury's balance, in the smallest unit.
    pub treasury_balance: u64,
    /// The program account the invocation handed in.
    pub grim_vault_program: Pubkey,
    /// The deployed program's own identity.
    pub program_id: Pubkey,
    /// The network time of the invocation, in seconds.
    pub now: i64,
}

/// A no-op identity check: the program answers and changes nothing.
pub fn initialize(_ctx: &Initialize) -> (r: Result<(), VaultError>)
    ensures
        r == Ok::<(), VaultError>(()),
{
    Ok(())
}

/// The one transition: pays for and creates the subscription record.
///
/// Fails with `AlreadySubscribed` exactly when the record account is already
/// initialized, else with `InvalidContext` exactly when the handed-in program
/// account differs from the deployed identity, else with `InsufficientFunds`
/// exactly when the payer's balance is under the price. On any failure
/// nothing changes. Otherwise the price moves from the payer to the treasury
/// and — atomically with that payment — the record is created with the payer
/// as subscriber, the given tier, and an expiry of the invocation time plus
/// the fixed duration.
pub fn subscribe(ctx: &mut Subscribe, tier: u8) -> (r: Result<(), VaultError>)
    requires
        old(ctx).now + SUBSCRIPTION_DURATION <= i64::MAX,
        old(ctx).treasury_balance + SUBSCRIPTION_PRICE <= u64::MAX,
    ensures
        r is Err ==> *final(ctx) == *old(ctx),
        old(ctx).subscription_account is Some ==> r == Err::<(), VaultError>(
            VaultError::AlreadySubscribed,
        ),
        old(ctx).subscription_account is None && old(ctx).grim_vault_program@ != old(
            ctx,
        ).program_id@ ==> r == Err::<(), VaultError>(VaultError::InvalidContext),
        old(ctx).subscription_account is None && old(ctx).grim_vault_program@ == old(
            ctx,
        ).program_id@ && old(ctx).user_balance < SUBSCRIPTION_PRICE ==> r == Err::<(), VaultError>(
            VaultError::InsufficientFunds,
        ),
        old(ctx).subscription_account is None && old(ctx).grim_vault_program@ == old(
            ctx,
        ).program_id@ && old(ctx).user_balance >= SUBSCRIPTION_PRICE ==> (r == Ok::<(), VaultError>(
            ())
            && final(ctx).user_balance == old(ctx).user_balance - SUBSCRIPTION_PRICE
            && final(ctx).treasury_balance == old(ctx).treasury_balance + SUBSCRIPTION_PRICE
            && (final(ctx).subscription_account matches Some(rec) && rec.subscriber@ == old(
            ctx,
        ).user@ && rec.tier == tier && rec.end_date == old(ctx).now + SUBSCRIPTION_DURATION)
            && final(ctx).user@ == old(ctx).user@ && final(ctx).grim_vault_program == old(
            ctx,
        ).grim_vault_program && final(ctx).program_id == old(ctx).program_id && final(ctx).now
            == old(ctx).now),
{
    if ctx.subscription_account.is_some() {
        return Err(VaultError::AlreadySubscribed);
    }
    if !ctx.grim_vault_program.eq_key(&ctx.program_id) {
        return Err(VaultError::InvalidContext);
    }
    if ctx.user_balance < SUBSCRIPTION_PRICE {
        return Err(VaultError::InsufficientFunds);
    }
    ctx.user_balance = ctx.user_balance - SUBSCRIPTION_PRICE;
    ctx.treasury_balance = ctx.treasury_balance + SUBSCRIPTION_PRICE;
    let record = SubscriptionAccount {
        subscriber: ctx.user.duplicate(),
        tier,
        end_date: ctx.now + SUBSCRIPTION_DURATION,
    };
    ctx.subscription_account = Some(record);
    Ok(())
}

} // verus!
