use vstd::prelude::*;
use crate::payment::error::PaymentError;
use crate::payment::events::SubscriptionCreated;
use crate::payment::settlement::{charge, charge_overflows, charged, settlement_of, Settlement};
use crate::payment::state::{CreatorVault, PlatformConfig, Subscription};
use crate::pubkey::Pubkey;

verus! {

/// What the creation of a subscription names.
///
/// The fee's destination is not among the fields: it is always the recipient
/// that `config` records.
#[derive(Clone, Copy, Debug, PartialEq, Eq)]
pub struct Subscribe {
    pub config: PlatformConfig,
    /// The vault that is credited.
    pub creator_vault: CreatorVault,
    /// The verified signer, who pays.
    pub subscriber: Pubkey,
    /// The identity that the caller wants the net amount sent to.
    pub creator: Pubkey,
    /// Bump of the subscription's key.
    pub subscription_bump: u8,
}

/// The first reason to refuse a subscription at `amount_per_month`, if there
/// is one: the destination is not the vault's creator; the amount is zero;
/// the subscriber is the vault's creator; the fee split, the vault's new
/// total or the number of subscribers overflows.
pub open spec fn rejection(ctx: Subscribe, amount_per_month: u64) -> Option<PaymentError> {
    if ctx.creator != ctx.creator_vault.creator {
        Some(PaymentError::InvalidCreatorAccount)
    } else if amount_per_month == 0 {
        Some(PaymentError::InvalidAmount)
    } else if ctx.subscriber == ctx.creator_vault.creator {
        Some(PaymentError::CannotSubscribeToSelf)
    } else if charge_overflows(ctx.config, ctx.creator_vault, amount_per_month)
        || ctx.creator_vault.subscribers == u64::MAX {
        Some(PaymentError::ArithmeticOverflow)
    } else {
        None
    }
}

/// What an accepted subscription leaves behind: the vault credited with the
/// first period's net amount, and one subscriber more.
pub open spec fn accounts_after(ctx: Subscribe, amount_per_month: u64) -> Subscribe {
    let vault = charged(ctx.config, ctx.creator_vault, amount_per_month);
    Subscribe {
        creator_vault: CreatorVault { subscribers: (vault.subscribers + 1) as u64, ..vault },
        ..ctx
    }
}

/// The subscription that is created: active, and paid up at `now`.
pub open spec fn subscription_of(ctx: Subscribe, amount_per_month: u64, now: i64) -> Subscription {
    Subscription {
        subscriber: ctx.subscriber,
        creator: ctx.creator_vault.creator,
        amount_per_month,
        last_payment: now,
        started_at: now,
        is_active: true,
        bump: ctx.subscription_bump,
    }
}

/// The event of an accepted subscription.
pub open spec fn event_of(ctx: Subscribe, amount_per_month: u64, now: i64) -> SubscriptionCreated {
    SubscriptionCreated {
        subscriber: ctx.subscriber,
        creator: ctx.creator_vault.creator,
        amount_per_month,
        timestamp: now,
    }
}

/// Subscribes `ctx.subscriber` to the creator of `ctx.creator_vault` and
/// charges the first period at once.
///
/// A refused subscription changes nothing and asks for no transfer. An
/// accepted one credits the vault, counts the subscriber and returns the
/// transfers to make, the new subscription and its event.
pub fn handler(ctx: &mut Subscribe, amount_per_month: u64, now: i64) -> (r: Result<
    (Settlement, Subscription, SubscriptionCreated),
    PaymentError,
>)
    ensures
        rejection(*old(ctx), amount_per_month) matches Some(e) ==> r == Err::<
            (Settlement, Subscription, SubscriptionCreated),
            PaymentError,
        >(e) && *final(ctx) == *old(ctx),
        rejection(*old(ctx), amount_per_month) is None ==> r == Ok::<
            (Settlement, Subscription, SubscriptionCreated),
            PaymentError,
        >(
            (
                settlement_of(
                    old(ctx).config,
                    old(ctx).creator_vault,
                    old(ctx).subscriber,
                    amount_per_month,
                ),
                subscription_of(*old(ctx), amount_per_month, now),
                event_of(*old(ctx), amount_per_month, now),
            ),
        ) && *final(ctx) == accounts_after(*old(ctx), amount_per_month),
        old(ctx).creator_vault.wf() ==> final(ctx).creator_vault.wf(),
        r matches Ok((_, subscription, _)) ==> subscription.wf(),
{
    if ctx.creator != ctx.creator_vault.creator {
        return Err(PaymentError::InvalidCreatorAccount);
    }
    if amount_per_month == 0 {
        return Err(PaymentError::InvalidAmount);
    }
    if ctx.subscriber == ctx.creator_vault.creator {
        return Err(PaymentError::CannotSubscribeToSelf);
    }
    let mut vault = ctx.creator_vault;
    let settlement = charge(&ctx.config, &mut vault, ctx.subscriber, amount_per_month)?;
    vault.subscribers = match vault.subscribers.checked_add(1) {
        Some(subscribers) => subscribers,
        None => { return Err(PaymentError::ArithmeticOverflow); },
    };
    ctx.creator_vault = vault;
    let subscription = Subscription {
        subscriber: ctx.subscriber,
        creator: vault.creator,
        amount_per_month,
        last_payment: now,
        started_at: now,
        is_active: true,
        bump: ctx.subscription_bump,
    };
    let event = SubscriptionCreated {
        subscriber: subscription.subscriber,
        creator: subscription.creator,
        amount_per_month,
        timestamp: now,
    };
    Ok((settlement, subscription, event))
}

} // verus!
