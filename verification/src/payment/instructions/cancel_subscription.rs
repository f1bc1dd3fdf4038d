use vstd::prelude::*;
use crate::payment::error::PaymentError;
use crate::payment::events::SubscriptionCancelled;
use crate::payment::state::{CreatorVault, Subscription};
use crate::pubkey::Pubkey;

verus! {

/// What a cancellation names.
#[derive(Clone, Copy, Debug, PartialEq, Eq)]
pub struct CancelSubscription {
    /// The vault whose subscriber count goes down.
    pub creator_vault: CreatorVault,
    /// The subscription that ends.
    pub subscription: Subscription,
    /// The verified signer.
    pub subscriber: Pubkey,
}

/// The first reason to refuse a cancellation, if there is one: the signer is
/// not the subscriber; the creator that the subscription names is not the
/// vault's creator; the subscription is cancelled already.
pub open spec fn rejection(ctx: CancelSubscription) -> Option<PaymentError> {
    if ctx.subscription.subscriber != ctx.subscriber {
        Some(PaymentError::Unauthorized)
    } else if ctx.subscription.creator != ctx.creator_vault.creator {
        Some(PaymentError::InvalidCreatorAccount)
    } else if !ctx.subscription.is_active {
        Some(PaymentError::SubscriptionNotActive)
    } else {
        None
    }
}

/// What an accepted cancellation leaves behind: the subscription inactive,
/// and one subscriber fewer where the count was not zero already.
pub open spec fn accounts_after(ctx: CancelSubscription) -> CancelSubscription {
    CancelSubscription {
        creator_vault: CreatorVault {
            subscribers: if ctx.creator_vault.subscribers == 0 {
                0
            } else {
                (ctx.creator_vault.subscribers - 1) as u64
            },
            ..ctx.creator_vault
        },
        subscription: Subscription { is_active: false, ..ctx.subscription },
        ..ctx
    }
}

/// The event of an accepted cancellation.
pub open spec fn event_of(ctx: CancelSubscription, now: i64) -> SubscriptionCancelled {
    SubscriptionCancelled {
        subscriber: ctx.subscription.subscriber,
        creator: ctx.subscription.creator,
        timestamp: now,
    }
}

/// Cancels `ctx.subscription` at time `now`. There is no way back: a
/// cancelled subscription stays cancelled.
pub fn handler(ctx: &mut CancelSubscription, now: i64) -> (r: Result<
    SubscriptionCancelled,
    PaymentError,
>)
    ensures
        rejection(*old(ctx)) matches Some(e) ==> r == Err::<SubscriptionCancelled, PaymentError>(e)
            && *final(ctx) == *old(ctx),
        rejection(*old(ctx)) is None ==> r == Ok::<SubscriptionCancelled, PaymentError>(
            event_of(*old(ctx), now),
        ) && *final(ctx) == accounts_after(*old(ctx)),
        old(ctx).creator_vault.wf() ==> final(ctx).creator_vault.wf(),
        old(ctx).subscription.wf() ==> final(ctx).subscription.wf(),
{
    if ctx.subscription.subscriber != ctx.subscriber {
        return Err(PaymentError::Unauthorized);
    }
    if ctx.subscription.creator != ctx.creator_vault.creator {
        return Err(PaymentError::InvalidCreatorAccount);
    }
    if !ctx.subscription.is_active {
        return Err(PaymentError::SubscriptionNotActive);
    }
    ctx.subscription.is_active = false;
    ctx.creator_vault.subscribers = ctx.creator_vault.subscribers.saturating_sub(1);
    Ok(
        SubscriptionCancelled {
            subscriber: ctx.subscription.subscriber,
            creator: ctx.subscription.creator,
            timestamp: now,
        },
    )
}

} // verus!
