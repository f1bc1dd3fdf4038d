use vstd::prelude::*;
use crate::payment::error::PaymentError;
use crate::payment::events::SubscriptionProcessed;
use crate::payment::settlement::{charge, charge_overflows, charged, fee_of, settlement_of, Settlement};
use crate::payment::state::{CreatorVault, PlatformConfig, Subscription};
use crate::pubkey::Pubkey;

verus! {

/// The renewal period: 30 days, in seconds.
pub const SECONDS_PER_MONTH: i64 = 30 * 24 * 60 * 60;

/// What a renewal names.
///
/// The fee's destination is not among the fields: it is always the recipient
/// that `config` records.
#[derive(Clone, Copy, Debug, PartialEq, Eq)]
pub struct ProcessSubscription {
    pub config: PlatformConfig,
    /// The vault that is credited.
    pub creator_vault: CreatorVault,
    /// The subscription that is renewed.
    pub subscription: Subscription,
    /// The verified signer, who pays.
    pub subscriber: Pubkey,
    /// The identity that the caller wants the net amount sent to.
    pub creator: Pubkey,
}

/// A full renewal period lies between `last_payment` and `now`.
pub open spec fn is_due(last_payment: i64, now: i64) -> bool {
    now - last_payment >= SECONDS_PER_MONTH
}

/// The first reason to refuse a renewal at `now`, if there is one: the
/// signer is not the subscriber; the destination, or the creator that the
/// subscription names, is not the vault's creator; the subscription is
/// cancelled; less than a period has passed since the last payment; the fee
/// split or the vault's new total overflows.
pub open spec fn rejection(ctx: ProcessSubscription, now: i64) -> Option<PaymentError> {
    if ctx.subscription.subscriber != ctx.subscriber {
        Some(PaymentError::Unauthorized)
    } else if ctx.creator != ctx.creator_vault.creator || ctx.subscription.creator
        != ctx.creator_vault.creator {
        Some(PaymentError::InvalidCreatorAccount)
    } else if !ctx.subscription.is_active {
        Some(PaymentError::SubscriptionNotActive)
    } else if !is_due(ctx.subscription.last_payment, now) {
        Some(PaymentError::PaymentNotDue)
    } else if charge_overflows(ctx.config, ctx.creator_vault, ctx.subscription.amount_per_month) {
        Some(PaymentError::ArithmeticOverflow)
    } else {
        None
    }
}

/// What an accepted renewal leaves behind: the vault credited with the net
/// amount and the subscription paid up at `now`. Neither the start of the
/// subscription nor the number of subscribers changes.
pub open spec fn accounts_after(ctx: ProcessSubscription, now: i64) -> ProcessSubscription {
    ProcessSubscription {
        creator_vault: charged(ctx.config, ctx.creator_vault, ctx.subscription.amount_per_month),
        subscription: Subscription { last_payment: now, ..ctx.subscription },
        ..ctx
    }
}

/// The event of an accepted renewal. It holds the gross amount and the fee.
pub open spec fn event_of(ctx: ProcessSubscription, now: i64) -> SubscriptionProcessed {
    SubscriptionProcessed {
        subscriber: ctx.subscription.subscriber,
        creator: ctx.subscription.creator,
        amount: ctx.subscription.amount_per_month,
        fee: fee_of(
            ctx.subscription.amount_per_month as int,
            ctx.config.fee_basis_points as int,
        ) as u64,
        timestamp: now,
    }
}

/// Tells whether a renewal is due, for any two timestamps: the difference is
/// taken without wrapping around.
pub fn period_elapsed(last_payment: i64, now: i64) -> (due: bool)
    ensures
        due == is_due(last_payment, now),
{
    match last_payment.checked_add(SECONDS_PER_MONTH) {
        Some(due_at) => now >= due_at,
        None => false,
    }
}

/// Renews `ctx.subscription` at time `now`: charges one period.
///
/// A refused renewal changes nothing and asks for no transfer. An accepted
/// one credits the vault, sets the time of the last payment to `now` and
/// returns the transfers to make and the event.
pub fn handler(ctx: &mut ProcessSubscription, now: i64) -> (r: Result<
    (Settlement, SubscriptionProcessed),
    PaymentError,
>)
    ensures
        rejection(*old(ctx), now) matches Some(e) ==> r == Err::<
            (Settlement, SubscriptionProcessed),
            PaymentError,
        >(e) && *final(ctx) == *old(ctx),
        rejection(*old(ctx), now) is None ==> r == Ok::<
            (Settlement, SubscriptionProcessed),
            PaymentError,
        >(
            (
                settlement_of(
                    old(ctx).config,
                    old(ctx).creator_vault,
                    old(ctx).subscriber,
                    old(ctx).subscription.amount_per_month,
                ),
                event_of(*old(ctx), now),
            ),
        ) && *final(ctx) == accounts_after(*old(ctx), now),
        old(ctx).creator_vault.wf() ==> final(ctx).creator_vault.wf(),
        old(ctx).subscription.wf() ==> final(ctx).subscription.wf(),
{
    if ctx.subscription.subscriber != ctx.subscriber {
        return Err(PaymentError::Unauthorized);
    }
    if ctx.creator != ctx.creator_vault.creator || ctx.subscription.creator
        != ctx.creator_vault.creator {
        return Err(PaymentError::InvalidCreatorAccount);
    }
    if !ctx.subscription.is_active {
        return Err(PaymentError::SubscriptionNotActive);
    }
    if !period_elapsed(ctx.subscription.last_payment, now) {
        return Err(PaymentError::PaymentNotDue);
    }
    let amount = ctx.subscription.amount_per_month;
    let settlement = charge(&ctx.config, &mut ctx.creator_vault, ctx.subscriber, amount)?;
    ctx.subscription.last_payment = now;
    let event = SubscriptionProcessed {
        subscriber: ctx.subscription.subscriber,
        creator: ctx.subscription.creator,
        amount,
        fee: settlement.fee(),
        timestamp: now,
    };
    Ok((settlement, event))
}

} // verus!
