//! What holds of the settlement operations, whatever they are called with.

use vstd::prelude::*;
use crate::payment::error::PaymentError;
use crate::payment::instructions::cancel_subscription;
use crate::payment::instructions::cancel_subscription::CancelSubscription;
use crate::payment::instructions::initialize_vault;
use crate::payment::instructions::initialize_vault::InitializeVault;
use crate::payment::instructions::process_subscription;
use crate::payment::instructions::process_subscription::{ProcessSubscription, SECONDS_PER_MONTH};
use crate::payment::instructions::subscribe;
use crate::payment::instructions::subscribe::Subscribe;
use crate::payment::instructions::tip_creator;
use crate::payment::instructions::tip_creator::TipCreator;
use crate::payment::instructions::withdraw;
use crate::payment::instructions::withdraw::Withdraw;
use crate::payment::settlement::{charge_overflows, charged, fee_of, fee_overflows, net_of, settlement_of};
use crate::payment::state::{CreatorVault, PlatformConfig, Subscription};
use crate::pubkey::Pubkey;

verus! {

/// At a rate of at most 10000 basis points the fee is never negative and
/// never more than the amount, and fee and net share add up to the amount.
/// The split then fails only where the product of amount and rate leaves the
/// 64-bit range.
pub proof fn fee_split_is_exact(amount: u64, rate_bps: u16)
    requires
        rate_bps <= 10000,
    ensures
        fee_of(amount as int, rate_bps as int) + net_of(amount as int, rate_bps as int) == amount,
        0 <= fee_of(amount as int, rate_bps as int) <= amount,
        0 <= net_of(amount as int, rate_bps as int) <= amount,
        fee_overflows(amount as int, rate_bps as int) <==> amount * rate_bps > u64::MAX,
{
    let a = amount as int;
    let r = rate_bps as int;
    assert(0 <= a * r <= a * 10000) by (nonlinear_arith)
        requires
            0 <= a,
            0 <= r <= 10000,
    ;
    assert(0 <= (a * r) / 10000 <= a) by (nonlinear_arith)
        requires
            0 <= a * r <= a * 10000,
    ;
}

/// A rate of zero takes no fee: the whole amount is the net share.
pub proof fn zero_rate_takes_no_fee(amount: u64)
    ensures
        fee_of(amount as int, 0) == 0,
        net_of(amount as int, 0) == amount,
        !fee_overflows(amount as int, 0),
{
    assert(amount as int * 0 == 0);
}

/// A vault that is credited with a settled charge still holds no more
/// withdrawn than earned.
pub proof fn charge_keeps_vault_invariant(config: PlatformConfig, vault: CreatorVault, amount: u64)
    requires
        vault.wf(),
        !charge_overflows(config, vault, amount),
    ensures
        charged(config, vault, amount).wf(),
        charged(config, vault, amount).total_earned >= vault.total_earned,
        charged(config, vault, amount).withdrawn == vault.withdrawn,
{
}

/// A new vault holds no more withdrawn than earned.
pub proof fn new_vault_meets_invariant(ctx: InitializeVault)
    ensures
        initialize_vault::vault_of(ctx).wf(),
{
}

/// An accepted tip keeps the vault's invariant; earnings do not go down and
/// withdrawals stay as they are.
pub proof fn tip_keeps_vault_invariant(ctx: TipCreator, amount: u64)
    requires
        ctx.creator_vault.wf(),
        tip_creator::rejection(ctx, amount) is None,
    ensures
        tip_creator::accounts_after(ctx, amount).creator_vault.wf(),
        tip_creator::accounts_after(ctx, amount).creator_vault.total_earned
            >= ctx.creator_vault.total_earned,
        tip_creator::accounts_after(ctx, amount).creator_vault.withdrawn
            == ctx.creator_vault.withdrawn,
{
}

/// An accepted subscription keeps the vault's invariant.
pub proof fn subscribe_keeps_vault_invariant(ctx: Subscribe, amount_per_month: u64)
    requires
        ctx.creator_vault.wf(),
        subscribe::rejection(ctx, amount_per_month) is None,
    ensures
        subscribe::accounts_after(ctx, amount_per_month).creator_vault.wf(),
        subscribe::accounts_after(ctx, amount_per_month).creator_vault.total_earned
            >= ctx.creator_vault.total_earned,
        subscribe::accounts_after(ctx, amount_per_month).creator_vault.withdrawn
            == ctx.creator_vault.withdrawn,
{
}

/// An accepted renewal keeps the vault's invariant.
pub proof fn renewal_keeps_vault_invariant(ctx: ProcessSubscription, now: i64)
    requires
        ctx.creator_vault.wf(),
        process_subscription::rejection(ctx, now) is None,
    ensures
        process_subscription::accounts_after(ctx, now).creator_vault.wf(),
        process_subscription::accounts_after(ctx, now).creator_vault.total_earned
            >= ctx.creator_vault.total_earned,
        process_subscription::accounts_after(ctx, now).creator_vault.withdrawn
            == ctx.creator_vault.withdrawn,
{
}

/// An accepted cancellation keeps the vault's invariant: it touches neither
/// earnings nor withdrawals.
pub proof fn cancellation_keeps_vault_invariant(ctx: CancelSubscription)
    requires
        ctx.creator_vault.wf(),
        cancel_subscription::rejection(ctx) is None,
    ensures
        cancel_subscription::accounts_after(ctx).creator_vault.wf(),
        cancel_subscription::accounts_after(ctx).creator_vault.total_earned
            == ctx.creator_vault.total_earned,
        cancel_subscription::accounts_after(ctx).creator_vault.withdrawn
            == ctx.creator_vault.withdrawn,
{
}

/// An accepted withdrawal keeps the vault's invariant; withdrawals do not go
/// down and earnings stay as they are.
pub proof fn withdrawal_keeps_vault_invariant(ctx: Withdraw, amount: u64)
    requires
        withdraw::rejection(ctx, amount) is None,
    ensures
        ctx.vault.wf(),
        withdraw::accounts_after(ctx, amount).vault.wf(),
        withdraw::accounts_after(ctx, amount).vault.withdrawn == ctx.vault.withdrawn + amount,
        withdraw::accounts_after(ctx, amount).vault.total_earned == ctx.vault.total_earned,
{
}

/// A withdrawal of more than is left is refused for that reason, where the
/// signer owns the vault and the vault is sound.
pub proof fn withdrawal_beyond_balance_is_refused(ctx: Withdraw, amount: u64)
    requires
        ctx.vault.creator == ctx.creator,
        ctx.vault.wf(),
        amount > ctx.vault.spec_available(),
    ensures
        withdraw::rejection(ctx, amount) == Some(PaymentError::WithdrawalExceedsBalance),
{
}

/// After an accepted renewal at `first`, a renewal of the same subscription
/// at any `second` less than one period later is refused as not due.
pub proof fn second_renewal_within_period_is_not_due(ctx: ProcessSubscription, first: i64, second: i64)
    requires
        process_subscription::rejection(ctx, first) is None,
        second - first < SECONDS_PER_MONTH,
    ensures
        process_subscription::rejection(process_subscription::accounts_after(ctx, first), second)
            == Some(PaymentError::PaymentNotDue),
{
}

/// After an accepted cancellation, a second cancellation of the same
/// subscription is refused as not active.
pub proof fn second_cancellation_is_refused(ctx: CancelSubscription)
    requires
        cancel_subscription::rejection(ctx) is None,
    ensures
        cancel_subscription::rejection(cancel_subscription::accounts_after(ctx)) == Some(
            PaymentError::SubscriptionNotActive,
        ),
{
}

/// A cancelled subscription is never renewed: where nothing else is wrong
/// with the request, the renewal is refused as not active, at any time.
pub proof fn cancelled_subscription_is_not_renewed(ctx: ProcessSubscription, now: i64)
    requires
        !ctx.subscription.is_active,
    ensures
        process_subscription::rejection(ctx, now) is Some,
        ctx.creator == ctx.creator_vault.creator && ctx.subscription.creator
            == ctx.creator_vault.creator && ctx.subscription.subscriber == ctx.subscriber
            ==> process_subscription::rejection(ctx, now) == Some(
            PaymentError::SubscriptionNotActive,
        ),
{
}

/// A tip whose destination is not the vault's creator is refused as such,
/// whatever else the request holds.
pub proof fn tip_to_wrong_destination_is_refused(ctx: TipCreator, amount: u64)
    requires
        ctx.creator != ctx.creator_vault.creator,
    ensures
        tip_creator::rejection(ctx, amount) == Some(PaymentError::InvalidCreatorAccount),
{
}

/// A subscription whose destination is not the vault's creator is refused as
/// such, whatever else the request holds.
pub proof fn subscription_to_wrong_destination_is_refused(ctx: Subscribe, amount_per_month: u64)
    requires
        ctx.creator != ctx.creator_vault.creator,
    ensures
        subscribe::rejection(ctx, amount_per_month) == Some(PaymentError::InvalidCreatorAccount),
{
}

/// A renewal that the subscriber asks for and whose destination is not the
/// vault's creator is refused as such, whatever else the request holds.
pub proof fn renewal_to_wrong_destination_is_refused(ctx: ProcessSubscription, now: i64)
    requires
        ctx.subscription.subscriber == ctx.subscriber,
        ctx.creator != ctx.creator_vault.creator,
    ensures
        process_subscription::rejection(ctx, now) == Some(PaymentError::InvalidCreatorAccount),
{
}

/// A renewal or a cancellation that another than the subscriber asks for is
/// refused as unauthorized, and a withdrawal that another than the vault's
/// creator asks for likewise, whatever else the request holds.
pub proof fn request_by_another_signer_is_unauthorized(
    renewal: ProcessSubscription,
    now: i64,
    cancellation: CancelSubscription,
    withdrawal: Withdraw,
    amount: u64,
)
    ensures
        renewal.subscription.subscriber != renewal.subscriber ==> process_subscription::rejection(
            renewal,
            now,
        ) == Some(PaymentError::Unauthorized),
        cancellation.subscription.subscriber != cancellation.subscriber
            ==> cancel_subscription::rejection(cancellation) == Some(PaymentError::Unauthorized),
        withdrawal.vault.creator != withdrawal.creator ==> withdraw::rejection(withdrawal, amount)
            == Some(PaymentError::Unauthorized),
{
}

/// A tip by the vault's own creator is always refused; where destination and
/// amount are in order, it is refused as a tip to oneself.
pub proof fn tip_to_self_is_refused(ctx: TipCreator, amount: u64)
    requires
        ctx.tipper == ctx.creator_vault.creator,
    ensures
        tip_creator::rejection(ctx, amount) is Some,
        ctx.creator == ctx.creator_vault.creator && amount > 0 ==> tip_creator::rejection(ctx, amount)
            == Some(PaymentError::CannotTipSelf),
{
}

/// A subscription by the vault's own creator is always refused; where
/// destination and amount are in order, it is refused as a subscription to
/// oneself.
pub proof fn subscription_to_self_is_refused(ctx: Subscribe, amount_per_month: u64)
    requires
        ctx.subscriber == ctx.creator_vault.creator,
    ensures
        subscribe::rejection(ctx, amount_per_month) is Some,
        ctx.creator == ctx.creator_vault.creator && amount_per_month > 0 ==> subscribe::rejection(
            ctx,
            amount_per_month,
        ) == Some(PaymentError::CannotSubscribeToSelf),
{
}

/// A settlement moves exactly the amount that is charged, all of it from the
/// payer: the fee to the recipient that the configuration names, the rest to
/// the creator that the vault names. Where the rate is at most 10000 basis
/// points, no part is negative or more than the amount.
pub proof fn settlement_moves_exactly_the_amount(
    config: PlatformConfig,
    vault: CreatorVault,
    payer: Pubkey,
    amount: u64,
)
    requires
        !charge_overflows(config, vault, amount),
    ensures
        settlement_of(config, vault, payer, amount).spec_fee() + settlement_of(
            config,
            vault,
            payer,
            amount,
        ).spec_net() == amount,
        settlement_of(config, vault, payer, amount).creator_transfer.from == payer,
        settlement_of(config, vault, payer, amount).creator_transfer.to == vault.creator,
        settlement_of(config, vault, payer, amount).fee_transfer matches Some(transfer)
            ==> transfer.from == payer && transfer.to == config.fee_recipient && transfer.amount
            > 0,
        charged(config, vault, amount).total_earned == vault.total_earned + settlement_of(
            config,
            vault,
            payer,
            amount,
        ).spec_net(),
{
    let product = amount as int * config.fee_basis_points as int;
    assert(0 <= product) by (nonlinear_arith)
        requires
            product == amount as int * config.fee_basis_points as int,
            0 <= amount as int,
            0 <= config.fee_basis_points as int,
    ;
}

/// One accepted operation takes a vault from `before` to `after`.
pub open spec fn vault_step(before: CreatorVault, after: CreatorVault) -> bool {
    ||| exists|ctx: TipCreator, amount: u64|
        ctx.creator_vault == before && tip_creator::rejection(ctx, amount) is None && (
        #[trigger] tip_creator::accounts_after(ctx, amount)).creator_vault == after
    ||| exists|ctx: Subscribe, amount: u64|
        ctx.creator_vault == before && subscribe::rejection(ctx, amount) is None && (
        #[trigger] subscribe::accounts_after(ctx, amount)).creator_vault == after
    ||| exists|ctx: ProcessSubscription, now: i64|
        ctx.creator_vault == before && process_subscription::rejection(ctx, now) is None && (
        #[trigger] process_subscription::accounts_after(ctx, now)).creator_vault == after
    ||| exists|ctx: CancelSubscription|
        ctx.creator_vault == before && cancel_subscription::rejection(ctx) is None && (
        #[trigger] cancel_subscription::accounts_after(ctx)).creator_vault == after
    ||| exists|ctx: Withdraw, amount: u64|
        ctx.vault == before && withdraw::rejection(ctx, amount) is None && (
        #[trigger] withdraw::accounts_after(ctx, amount)).vault == after
}

/// The values that a vault takes in turn: a new vault first, then one
/// accepted operation from each value to the next.
pub open spec fn is_vault_history(history: Seq<CreatorVault>) -> bool {
    &&& history.len() > 0
    &&& exists|ctx: InitializeVault| history[0] == #[trigger] initialize_vault::vault_of(ctx)
    &&& forall|i: int| 0 < i < history.len() ==> vault_step(history[i - 1], #[trigger] history[i])
}

/// Whatever operation is accepted, the vault keeps its creator, its earnings
/// and its withdrawals do not go down, and it still holds no more withdrawn
/// than earned where it did so before.
pub proof fn vault_step_keeps_invariant(before: CreatorVault, after: CreatorVault)
    requires
        vault_step(before, after),
    ensures
        before.wf() ==> after.wf(),
        after.creator == before.creator,
        after.bump == before.bump,
        after.total_earned >= before.total_earned,
        after.withdrawn >= before.withdrawn,
{
}

/// At every point of a vault's history no more has been withdrawn than was
/// earned.
pub proof fn vault_invariant_holds_throughout(history: Seq<CreatorVault>, at: int)
    requires
        is_vault_history(history),
        0 <= at < history.len(),
    ensures
        history[at].wf(),
    decreases at,
{
    if at > 0 {
        vault_invariant_holds_throughout(history, at - 1);
        vault_step_keeps_invariant(history[at - 1], history[at]);
    }
}

/// Over a vault's history the creator stays the same, and neither the
/// earnings nor the withdrawals ever go down.
pub proof fn vault_totals_never_go_down(history: Seq<CreatorVault>, earlier: int, later: int)
    requires
        is_vault_history(history),
        0 <= earlier <= later < history.len(),
    ensures
        history[later].creator == history[earlier].creator,
        history[later].total_earned >= history[earlier].total_earned,
        history[later].withdrawn >= history[earlier].withdrawn,
    decreases later - earlier,
{
    if earlier < later {
        vault_totals_never_go_down(history, earlier, later - 1);
        vault_step_keeps_invariant(history[later - 1], history[later]);
    }
}

/// One accepted operation takes a subscription from `before` to `after`: a
/// renewal or a cancellation.
pub open spec fn subscription_step(before: Subscription, after: Subscription) -> bool {
    ||| exists|ctx: ProcessSubscription, now: i64|
        ctx.subscription == before && process_subscription::rejection(ctx, now) is None && (
        #[trigger] process_subscription::accounts_after(ctx, now)).subscription == after
    ||| exists|ctx: CancelSubscription|
        ctx.subscription == before && cancel_subscription::rejection(ctx) is None && (
        #[trigger] cancel_subscription::accounts_after(ctx)).subscription == after
}

/// The values that a subscription takes in turn: a new subscription first,
/// then one accepted operation from each value to the next.
pub open spec fn is_subscription_history(history: Seq<Subscription>) -> bool {
    &&& history.len() > 0
    &&& exists|ctx: Subscribe, amount: u64, now: i64|
        subscribe::rejection(ctx, amount) is None && history[0] == #[trigger] subscribe::subscription_of(
            ctx,
            amount,
            now,
        )
    &&& forall|i: int|
        0 < i < history.len() ==> subscription_step(history[i - 1], #[trigger] history[i])
}

/// Whatever operation is accepted, the subscription was active before, keeps
/// its parties, its charge and its start, and its last payment does not move
/// back. A renewal leaves it active and moves the last payment on by a
/// period at least; a cancellation leaves the last payment as it is.
pub proof fn subscription_step_keeps_terms(before: Subscription, after: Subscription)
    requires
        subscription_step(before, after),
    ensures
        before.is_active,
        before.wf() ==> after.wf(),
        after.subscriber == before.subscriber,
        after.creator == before.creator,
        after.amount_per_month == before.amount_per_month,
        after.started_at == before.started_at,
        after.bump == before.bump,
        after.is_active ==> after.last_payment - before.last_payment >= SECONDS_PER_MONTH,
        !after.is_active ==> after.last_payment == before.last_payment,
{
}

/// A cancelled subscription is at its end: no operation is accepted on it.
pub proof fn cancelled_subscription_is_final(before: Subscription, after: Subscription)
    requires
        !before.is_active,
    ensures
        !subscription_step(before, after),
{
}

/// Over a subscription's history its terms stay the same, every value is
/// sound, and all values but the last are active: only the last one can be
/// cancelled.
pub proof fn subscription_terms_hold_throughout(history: Seq<Subscription>, earlier: int, later: int)
    requires
        is_subscription_history(history),
        0 <= earlier <= later < history.len(),
    ensures
        history[later].wf(),
        history[later].subscriber == history[earlier].subscriber,
        history[later].creator == history[earlier].creator,
        history[later].amount_per_month == history[earlier].amount_per_month,
        history[later].started_at == history[earlier].started_at,
        history[later].last_payment >= history[earlier].last_payment,
        earlier < later ==> history[earlier].is_active,
    decreases later,
{
    if later > 0 {
        if earlier < later {
            subscription_terms_hold_throughout(history, earlier, later - 1);
        } else {
            subscription_terms_hold_throughout(history, later - 1, later - 1);
        }
        subscription_step_keeps_terms(history[later - 1], history[later]);
        if earlier < later - 1 {
            subscription_step_keeps_terms(history[later - 2], history[later - 1]);
        }
    }
}

} // verus!

