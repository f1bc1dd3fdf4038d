use solshare::payment::error::PaymentError;
use solshare::payment::events::{PlatformConfigUpdated, VaultInitialized};
use solshare::payment::instructions::cancel_subscription;
use solshare::payment::instructions::cancel_subscription::CancelSubscription;
use solshare::payment::instructions::initialize_platform;
use solshare::payment::instructions::initialize_platform::InitializePlatform;
use solshare::payment::instructions::initialize_vault;
use solshare::payment::instructions::initialize_vault::InitializeVault;
use solshare::payment::instructions::process_subscription;
use solshare::payment::instructions::process_subscription::{period_elapsed, ProcessSubscription, SECONDS_PER_MONTH};
use solshare::payment::instructions::subscribe;
use solshare::payment::instructions::subscribe::Subscribe;
use solshare::payment::instructions::tip_creator;
use solshare::payment::instructions::tip_creator::TipCreator;
use solshare::payment::instructions::withdraw;
use solshare::payment::instructions::withdraw::Withdraw;
use solshare::payment::settlement::{charge, compute_fee, Settlement, Transfer, BASIS_POINTS};
use solshare::payment::state::{CreatorVault, PlatformConfig, Subscription};
use solshare::pubkey::Pubkey;

const T0: i64 = 1_650_000_000;

fn id(n: u8) -> Pubkey {
    Pubkey::new_from_array([n; 32])
}

fn platform(fee_basis_points: u16) -> PlatformConfig {
    PlatformConfig { authority: id(10), fee_basis_points, fee_recipient: id(11), bump: 7 }
}

fn vault_of(owner: Pubkey, total_earned: u64, withdrawn: u64, subscribers: u64) -> CreatorVault {
    CreatorVault { creator: owner, total_earned, withdrawn, subscribers, bump: 6 }
}

fn tip_ctx(fee_basis_points: u16, vault: CreatorVault, tipper: Pubkey, creator: Pubkey) -> TipCreator {
    TipCreator { config: platform(fee_basis_points), creator_vault: vault, tipper, creator, tip_record_bump: 5 }
}

fn subscribe_ctx(fee_basis_points: u16, vault: CreatorVault, subscriber: Pubkey, creator: Pubkey) -> Subscribe {
    Subscribe { config: platform(fee_basis_points), creator_vault: vault, subscriber, creator, subscription_bump: 4 }
}

fn active_subscription(subscriber: Pubkey, creator: Pubkey, amount_per_month: u64) -> Subscription {
    Subscription {
        subscriber,
        creator,
        amount_per_month,
        last_payment: T0,
        started_at: T0,
        is_active: true,
        bump: 3,
    }
}

fn renew_ctx(vault: CreatorVault, subscription: Subscription, subscriber: Pubkey, creator: Pubkey) -> ProcessSubscription {
    ProcessSubscription { config: platform(200), creator_vault: vault, subscription, subscriber, creator }
}

#[test]
fn pubkey_equality_is_bytewise() {
    let mut bytes = [9u8; 32];
    let a = Pubkey::new_from_array(bytes);
    assert_eq!(a, id(9));
    assert_eq!(a.to_bytes(), bytes);
    bytes[31] = 8;
    assert_ne!(Pubkey::new_from_array(bytes), a);
    bytes[31] = 9;
    bytes[0] = 0;
    assert_ne!(Pubkey::new_from_array(bytes), a);
}

#[test]
fn fee_is_rounded_down() {
    assert_eq!(BASIS_POINTS, 10_000);
    assert_eq!(compute_fee(1000, 200), Ok((20, 980)));
    assert_eq!(compute_fee(5000, 200), Ok((100, 4900)));
    assert_eq!(compute_fee(49, 200), Ok((0, 49)));
    assert_eq!(compute_fee(50, 200), Ok((1, 49)));
    assert_eq!(compute_fee(99, 200), Ok((1, 98)));
    assert_eq!(compute_fee(1, 9999), Ok((0, 1)));
    assert_eq!(compute_fee(3, 3333), Ok((0, 3)));
    assert_eq!(compute_fee(1_000_000_007, 250), Ok((25_000_000, 975_000_007)));
}

#[test]
fn fee_at_rate_zero_is_nothing() {
    assert_eq!(compute_fee(1000, 0), Ok((0, 1000)));
    assert_eq!(compute_fee(u64::MAX, 0), Ok((0, u64::MAX)));
    assert_eq!(compute_fee(0, 0), Ok((0, 0)));
}

#[test]
fn fee_at_full_rate_is_everything() {
    assert_eq!(compute_fee(1000, 10_000), Ok((1000, 0)));
    assert_eq!(compute_fee(0, 10_000), Ok((0, 0)));
}

#[test]
fn fee_and_net_add_up() {
    let amounts = [0u64, 1, 49, 50, 51, 9_999, 10_000, 10_001, 123_456_789, 1_844_674_407_370_955];
    let rates = [0u16, 1, 199, 200, 250, 5_000, 9_999, 10_000];
    for amount in amounts {
        for rate in rates {
            let (fee, net) = compute_fee(amount, rate).unwrap();
            assert_eq!(fee + net, amount);
            assert!(fee <= amount);
            assert_eq!(fee as u128, amount as u128 * rate as u128 / 10_000);
        }
    }
}

#[test]
fn fee_fails_where_the_product_overflows() {
    let limit = u64::MAX / 10_000;
    assert_eq!(compute_fee(limit, 10_000), Ok((limit, 0)));
    assert_eq!(compute_fee(limit + 1, 10_000), Err(PaymentError::ArithmeticOverflow));
    assert_eq!(compute_fee(u64::MAX, 200), Err(PaymentError::ArithmeticOverflow));
    assert_eq!(compute_fee(u64::MAX, 1), Ok((u64::MAX / 10_000, u64::MAX - u64::MAX / 10_000)));
    assert_eq!(compute_fee(u64::MAX, 2), Err(PaymentError::ArithmeticOverflow));
}

#[test]
fn fee_fails_where_the_rate_is_above_the_whole() {
    assert_eq!(compute_fee(10_000, 10_001), Err(PaymentError::ArithmeticOverflow));
    assert_eq!(compute_fee(1, 20_000), Err(PaymentError::ArithmeticOverflow));
    assert_eq!(compute_fee(0, 20_000), Ok((0, 0)));
    assert_eq!(compute_fee(1, 10_001), Ok((1, 0)));
    assert_eq!(compute_fee(9_999, 10_001), Ok((9_999, 0)));
}

#[test]
fn charge_credits_the_net_amount() {
    let mut vault = vault_of(id(1), 10, 5, 2);
    let settlement = charge(&platform(200), &mut vault, id(2), 1000).unwrap();
    assert_eq!(
        settlement,
        Settlement {
            fee_transfer: Some(Transfer { from: id(2), to: id(11), amount: 20 }),
            creator_transfer: Transfer { from: id(2), to: id(1), amount: 980 },
        }
    );
    assert_eq!(vault, vault_of(id(1), 990, 5, 2));
}

#[test]
fn charge_without_fee_asks_for_one_transfer() {
    let mut vault = vault_of(id(1), 0, 0, 0);
    let settlement = charge(&platform(200), &mut vault, id(2), 49).unwrap();
    assert_eq!(settlement.fee_transfer, None);
    assert_eq!(settlement.fee(), 0);
    assert_eq!(settlement.creator_transfer, Transfer { from: id(2), to: id(1), amount: 49 });
    assert_eq!(vault.total_earned, 49);
    let mut free = vault_of(id(1), 0, 0, 0);
    let settlement = charge(&platform(0), &mut free, id(2), 1_000_000).unwrap();
    assert_eq!(settlement.fee_transfer, None);
    assert_eq!(settlement.net(), 1_000_000);
}

#[test]
fn charge_that_overflows_the_vault_changes_nothing() {
    let mut vault = vault_of(id(1), u64::MAX - 979, 0, 0);
    assert_eq!(charge(&platform(200), &mut vault, id(2), 1000), Err(PaymentError::ArithmeticOverflow));
    assert_eq!(vault, vault_of(id(1), u64::MAX - 979, 0, 0));
    let mut fits = vault_of(id(1), u64::MAX - 980, 0, 0);
    assert!(charge(&platform(200), &mut fits, id(2), 1000).is_ok());
    assert_eq!(fits.total_earned, u64::MAX);
}

#[test]
fn vault_credit_is_checked() {
    let mut vault = CreatorVault::new(id(1), 9);
    assert_eq!(vault, CreatorVault { bump: 9, ..vault_of(id(1), 0, 0, 0) });
    assert_eq!(vault.credit(u64::MAX), Ok(()));
    assert_eq!(vault.total_earned, u64::MAX);
    assert_eq!(vault.credit(1), Err(PaymentError::ArithmeticOverflow));
    assert_eq!(vault.total_earned, u64::MAX);
    assert_eq!(vault.credit(0), Ok(()));
}

#[test]
fn vault_available_is_earned_less_withdrawn() {
    assert_eq!(vault_of(id(1), 1000, 400, 0).available(), Ok(600));
    assert_eq!(vault_of(id(1), 0, 0, 0).available(), Ok(0));
    assert_eq!(vault_of(id(1), 5, 6, 0).available(), Err(PaymentError::ArithmeticOverflow));
}

#[test]
fn platform_rate_above_the_whole_is_refused() {
    let ctx = InitializePlatform { authority: id(10), fee_recipient: id(11), config_bump: 7 };
    assert_eq!(initialize_platform::handler(&ctx, 10_001, T0), Err(PaymentError::InvalidFeeBasisPoints));
    assert_eq!(initialize_platform::handler(&ctx, u16::MAX, T0), Err(PaymentError::InvalidFeeBasisPoints));
}

#[test]
fn platform_is_created_with_its_rate() {
    let ctx = InitializePlatform { authority: id(10), fee_recipient: id(11), config_bump: 7 };
    let (config, event) = initialize_platform::handler(&ctx, 200, T0).unwrap();
    assert_eq!(config, platform(200));
    assert_eq!(event, PlatformConfigUpdated { authority: id(10), fee_basis_points: 200, timestamp: T0 });
    assert_eq!(PlatformConfig::FEE_BASIS_POINTS_DEFAULT, 200);
    assert_eq!(PlatformConfig::FEE_BASIS_POINTS_MAX, 10_000);
    let (full, _) = initialize_platform::handler(&ctx, 10_000, T0).unwrap();
    assert_eq!(full.fee_basis_points, 10_000);
    let (free, _) = initialize_platform::handler(&ctx, 0, T0).unwrap();
    assert_eq!(free.fee_basis_points, 0);
}

#[test]
fn vault_is_created_empty() {
    let ctx = InitializeVault { vault: id(20), creator: id(1), vault_bump: 6 };
    let (vault, event) = initialize_vault::handler(&ctx, T0).unwrap();
    assert_eq!(vault, vault_of(id(1), 0, 0, 0));
    assert_eq!(event, VaultInitialized { creator: id(1), vault: id(20), timestamp: T0 });
    assert_eq!(vault.available(), Ok(0));
}

#[test]
fn tip_of_zero_is_refused() {
    let mut ctx = tip_ctx(200, vault_of(id(1), 10, 0, 0), id(2), id(1));
    let before = ctx;
    assert_eq!(tip_creator::handler(&mut ctx, 0, None, 0, T0), Err(PaymentError::InvalidAmount));
    assert_eq!(ctx, before);
}

#[test]
fn tip_to_oneself_is_refused() {
    let mut ctx = tip_ctx(200, vault_of(id(1), 10, 0, 0), id(1), id(1));
    let before = ctx;
    assert_eq!(tip_creator::handler(&mut ctx, 1000, None, 0, T0), Err(PaymentError::CannotTipSelf));
    assert_eq!(ctx, before);
    assert_eq!(tip_creator::handler(&mut ctx, 0, None, 0, T0), Err(PaymentError::InvalidAmount));
}

#[test]
fn tip_to_another_destination_is_refused() {
    let mut ctx = tip_ctx(200, vault_of(id(1), 10, 0, 0), id(2), id(66));
    let before = ctx;
    assert_eq!(tip_creator::handler(&mut ctx, 1000, None, 0, T0), Err(PaymentError::InvalidCreatorAccount));
    assert_eq!(ctx, before);
    assert_eq!(ctx.creator_vault, vault_of(id(1), 10, 0, 0));
    assert_eq!(tip_creator::handler(&mut ctx, 0, None, 0, T0), Err(PaymentError::InvalidCreatorAccount));
    let mut to_tipper = tip_ctx(200, vault_of(id(1), 10, 0, 0), id(2), id(2));
    assert_eq!(
        tip_creator::handler(&mut to_tipper, 1000, None, 0, T0),
        Err(PaymentError::InvalidCreatorAccount)
    );
}

#[test]
fn tip_that_overflows_is_refused() {
    let mut ctx = tip_ctx(200, vault_of(id(1), 0, 0, 0), id(2), id(1));
    let before = ctx;
    assert_eq!(tip_creator::handler(&mut ctx, u64::MAX, None, 0, T0), Err(PaymentError::ArithmeticOverflow));
    assert_eq!(ctx, before);
    let mut full = tip_ctx(0, vault_of(id(1), u64::MAX, 0, 0), id(2), id(1));
    assert_eq!(tip_creator::handler(&mut full, 1, None, 0, T0), Err(PaymentError::ArithmeticOverflow));
    assert_eq!(full.creator_vault.total_earned, u64::MAX);
}

#[test]
fn tip_without_post_and_without_fee() {
    let mut ctx = tip_ctx(0, vault_of(id(1), 0, 0, 0), id(2), id(1));
    let (settlement, record, event) = tip_creator::handler(&mut ctx, 7, None, 3, T0).unwrap();
    assert_eq!(settlement.fee_transfer, None);
    assert_eq!(settlement.creator_transfer, Transfer { from: id(2), to: id(1), amount: 7 });
    assert_eq!(record.amount, 7);
    assert_eq!(record.post, None);
    assert_eq!(record.bump, 5);
    assert_eq!(event.amount, 7);
    assert_eq!(event.fee, 0);
    assert_eq!(ctx.creator_vault.total_earned, 7);
}

#[test]
fn tips_keep_withdrawn_below_earned() {
    let mut ctx = tip_ctx(250, vault_of(id(1), 100, 100, 0), id(2), id(1));
    for amount in [1u64, 39, 40, 1_000, 123_456] {
        let before = ctx.creator_vault;
        let (settlement, _, _) = tip_creator::handler(&mut ctx, amount, None, 0, T0).unwrap();
        assert_eq!(ctx.creator_vault.total_earned, before.total_earned + settlement.net());
        assert_eq!(ctx.creator_vault.withdrawn, before.withdrawn);
        assert!(ctx.creator_vault.withdrawn <= ctx.creator_vault.total_earned);
    }
}

#[test]
fn subscription_of_zero_is_refused() {
    let mut ctx = subscribe_ctx(200, vault_of(id(1), 0, 0, 0), id(2), id(1));
    let before = ctx;
    assert_eq!(subscribe::handler(&mut ctx, 0, T0), Err(PaymentError::InvalidAmount));
    assert_eq!(ctx, before);
}

#[test]
fn subscription_to_oneself_is_refused() {
    let mut ctx = subscribe_ctx(200, vault_of(id(1), 0, 0, 0), id(1), id(1));
    let before = ctx;
    assert_eq!(subscribe::handler(&mut ctx, 5000, T0), Err(PaymentError::CannotSubscribeToSelf));
    assert_eq!(ctx, before);
}

#[test]
fn subscription_to_another_destination_is_refused() {
    let mut ctx = subscribe_ctx(200, vault_of(id(1), 0, 0, 0), id(2), id(66));
    let before = ctx;
    assert_eq!(subscribe::handler(&mut ctx, 5000, T0), Err(PaymentError::InvalidCreatorAccount));
    assert_eq!(subscribe::handler(&mut ctx, 0, T0), Err(PaymentError::InvalidCreatorAccount));
    assert_eq!(ctx, before);
}

#[test]
fn subscription_that_overflows_a_count_is_refused() {
    let mut ctx = subscribe_ctx(200, vault_of(id(1), 0, 0, u64::MAX), id(2), id(1));
    let before = ctx;
    assert_eq!(subscribe::handler(&mut ctx, 5000, T0), Err(PaymentError::ArithmeticOverflow));
    assert_eq!(ctx, before);
    let mut full = subscribe_ctx(200, vault_of(id(1), u64::MAX, 0, 0), id(2), id(1));
    assert_eq!(subscribe::handler(&mut full, 5000, T0), Err(PaymentError::ArithmeticOverflow));
    assert_eq!(full.creator_vault, vault_of(id(1), u64::MAX, 0, 0));
}

#[test]
fn renewal_to_another_destination_is_refused() {
    let vault = vault_of(id(1), 4900, 0, 1);
    let mut ctx = renew_ctx(vault, active_subscription(id(2), id(1), 5000), id(2), id(66));
    let before = ctx;
    assert_eq!(
        process_subscription::handler(&mut ctx, T0 + SECONDS_PER_MONTH),
        Err(PaymentError::InvalidCreatorAccount)
    );
    assert_eq!(ctx, before);
    assert_eq!(process_subscription::handler(&mut ctx, T0), Err(PaymentError::InvalidCreatorAccount));
}

#[test]
fn renewal_into_another_creators_vault_is_refused() {
    let vault = vault_of(id(1), 4900, 0, 1);
    let mut ctx = renew_ctx(vault, active_subscription(id(2), id(9), 5000), id(2), id(1));
    let before = ctx;
    assert_eq!(
        process_subscription::handler(&mut ctx, T0 + SECONDS_PER_MONTH),
        Err(PaymentError::InvalidCreatorAccount)
    );
    assert_eq!(ctx, before);
}

#[test]
fn renewal_by_another_subscriber_is_refused() {
    let vault = vault_of(id(1), 4900, 0, 1);
    let mut ctx = renew_ctx(vault, active_subscription(id(2), id(1), 5000), id(8), id(1));
    let before = ctx;
    assert_eq!(
        process_subscription::handler(&mut ctx, T0 + SECONDS_PER_MONTH),
        Err(PaymentError::Unauthorized)
    );
    assert_eq!(ctx, before);
}

#[test]
fn renewal_that_overflows_is_refused() {
    let vault = vault_of(id(1), u64::MAX - 4899, 0, 1);
    let mut ctx = renew_ctx(vault, active_subscription(id(2), id(1), 5000), id(2), id(1));
    let before = ctx;
    assert_eq!(
        process_subscription::handler(&mut ctx, T0 + SECONDS_PER_MONTH),
        Err(PaymentError::ArithmeticOverflow)
    );
    assert_eq!(ctx, before);
    assert_eq!(ctx.subscription.last_payment, T0);
}

#[test]
fn period_is_measured_without_overflow() {
    assert!(!period_elapsed(0, SECONDS_PER_MONTH - 1));
    assert!(period_elapsed(0, SECONDS_PER_MONTH));
    assert!(period_elapsed(-SECONDS_PER_MONTH, 0));
    assert!(!period_elapsed(100, 50));
    assert!(!period_elapsed(i64::MAX, i64::MAX));
    assert!(!period_elapsed(i64::MAX - SECONDS_PER_MONTH + 1, i64::MAX));
    assert!(period_elapsed(i64::MAX - SECONDS_PER_MONTH, i64::MAX));
    assert!(period_elapsed(i64::MIN, i64::MAX));
    assert!(!period_elapsed(i64::MAX, i64::MIN));
    assert!(period_elapsed(i64::MIN, i64::MIN + SECONDS_PER_MONTH));
}

#[test]
fn cancellation_by_another_subscriber_is_refused() {
    let mut ctx = CancelSubscription {
        creator_vault: vault_of(id(1), 0, 0, 1),
        subscription: active_subscription(id(2), id(1), 5000),
        subscriber: id(8),
    };
    let before = ctx;
    assert_eq!(cancel_subscription::handler(&mut ctx, T0), Err(PaymentError::Unauthorized));
    assert_eq!(ctx, before);
}

#[test]
fn cancellation_against_another_creators_vault_is_refused() {
    let mut ctx = CancelSubscription {
        creator_vault: vault_of(id(1), 0, 0, 1),
        subscription: active_subscription(id(2), id(9), 5000),
        subscriber: id(2),
    };
    let before = ctx;
    assert_eq!(cancel_subscription::handler(&mut ctx, T0), Err(PaymentError::InvalidCreatorAccount));
    assert_eq!(ctx, before);
}

#[test]
fn cancellation_keeps_the_money_as_it_is() {
    let mut ctx = CancelSubscription {
        creator_vault: vault_of(id(1), 9800, 100, 5),
        subscription: active_subscription(id(2), id(1), 5000),
        subscriber: id(2),
    };
    assert!(cancel_subscription::handler(&mut ctx, T0 + 5).is_ok());
    assert_eq!(ctx.creator_vault, vault_of(id(1), 9800, 100, 4));
    assert_eq!(
        ctx.subscription,
        Subscription { is_active: false, ..active_subscription(id(2), id(1), 5000) }
    );
}

#[test]
fn withdrawal_of_zero_is_refused() {
    let mut ctx = Withdraw { vault: vault_of(id(1), 1000, 0, 0), creator: id(1) };
    assert_eq!(withdraw::handler(&mut ctx, 0, T0), Err(PaymentError::InvalidAmount));
    assert_eq!(ctx.vault, vault_of(id(1), 1000, 0, 0));
}

#[test]
fn withdrawal_by_another_identity_is_refused() {
    let mut ctx = Withdraw { vault: vault_of(id(1), 1000, 0, 0), creator: id(2) };
    assert_eq!(withdraw::handler(&mut ctx, 10, T0), Err(PaymentError::Unauthorized));
    assert_eq!(withdraw::handler(&mut ctx, 0, T0), Err(PaymentError::Unauthorized));
    assert_eq!(ctx.vault, vault_of(id(1), 1000, 0, 0));
}

#[test]
fn withdrawal_from_an_unsound_vault_is_refused() {
    let mut ctx = Withdraw { vault: vault_of(id(1), 5, 6, 0), creator: id(1) };
    assert_eq!(withdraw::handler(&mut ctx, 1, T0), Err(PaymentError::ArithmeticOverflow));
    assert_eq!(ctx.vault, vault_of(id(1), 5, 6, 0));
}

#[test]
fn withdrawals_add_up_to_the_earnings() {
    let mut ctx = Withdraw { vault: vault_of(id(1), 1000, 0, 0), creator: id(1) };
    for (amount, withdrawn) in [(1u64, 1u64), (499, 500), (500, 1000)] {
        assert!(withdraw::handler(&mut ctx, amount, T0).is_ok());
        assert_eq!(ctx.vault.withdrawn, withdrawn);
        assert_eq!(ctx.vault.total_earned, 1000);
        assert!(ctx.vault.withdrawn <= ctx.vault.total_earned);
    }
    assert_eq!(withdraw::handler(&mut ctx, 1, T0), Err(PaymentError::WithdrawalExceedsBalance));
    let mut whole = Withdraw { vault: vault_of(id(1), u64::MAX, 0, 0), creator: id(1) };
    assert!(withdraw::handler(&mut whole, u64::MAX, T0).is_ok());
    assert_eq!(whole.vault.withdrawn, u64::MAX);
}

#[test]
fn payment_errors_have_their_texts() {
    assert_eq!(PaymentError::InsufficientFunds.message(), "Insufficient funds for this operation");
    assert_eq!(PaymentError::InvalidAmount.message(), "Amount must be greater than zero");
    assert_eq!(PaymentError::SubscriptionNotActive.message(), "Subscription is not active");
    assert_eq!(PaymentError::PaymentNotDue.message(), "Subscription payment not yet due");
    assert_eq!(PaymentError::CannotTipSelf.message(), "Cannot tip yourself");
    assert_eq!(PaymentError::CannotSubscribeToSelf.message(), "Cannot subscribe to yourself");
    assert_eq!(PaymentError::AlreadySubscribed.message(), "Already subscribed to this creator");
    assert_eq!(PaymentError::Unauthorized.message(), "Unauthorized action");
    assert_eq!(
        PaymentError::InvalidFeeBasisPoints.message(),
        "Fee basis points cannot exceed 10000 (100%)"
    );
    assert_eq!(
        PaymentError::WithdrawalExceedsBalance.message(),
        "Withdrawal amount exceeds available balance"
    );
    assert_eq!(PaymentError::ArithmeticOverflow.message(), "Arithmetic overflow");
    assert_eq!(
        PaymentError::InvalidCreatorAccount.message(),
        "Invalid creator account - does not match vault owner"
    );
}

#[test]
fn renewal_by_another_signer_is_unauthorized_whatever_the_destination() {
    let vault = vault_of(id(1), 4900, 0, 1);
    let due = T0 + SECONDS_PER_MONTH;
    let mut both_wrong = renew_ctx(vault, active_subscription(id(2), id(1), 5000), id(8), id(66));
    let before = both_wrong;
    assert_eq!(process_subscription::handler(&mut both_wrong, due), Err(PaymentError::Unauthorized));
    assert_eq!(both_wrong, before);
    let mut by_creator = renew_ctx(vault, active_subscription(id(2), id(1), 5000), id(1), id(1));
    assert_eq!(process_subscription::handler(&mut by_creator, due), Err(PaymentError::Unauthorized));
    assert_eq!(by_creator.creator_vault, vault);
    assert_eq!(by_creator.subscription.last_payment, T0);
    let mut other_vault = renew_ctx(vault, active_subscription(id(2), id(9), 5000), id(8), id(1));
    assert_eq!(process_subscription::handler(&mut other_vault, due), Err(PaymentError::Unauthorized));
    let mut early = renew_ctx(vault, active_subscription(id(2), id(1), 5000), id(8), id(1));
    assert_eq!(process_subscription::handler(&mut early, T0), Err(PaymentError::Unauthorized));
    let mut cancelled = renew_ctx(
        vault,
        Subscription { is_active: false, ..active_subscription(id(2), id(1), 5000) },
        id(8),
        id(66),
    );
    assert_eq!(process_subscription::handler(&mut cancelled, due), Err(PaymentError::Unauthorized));
}

#[test]
fn cancellation_by_another_signer_is_unauthorized_whatever_the_vault() {
    let mut ctx = CancelSubscription {
        creator_vault: vault_of(id(1), 0, 0, 1),
        subscription: active_subscription(id(2), id(9), 5000),
        subscriber: id(8),
    };
    let before = ctx;
    assert_eq!(cancel_subscription::handler(&mut ctx, T0), Err(PaymentError::Unauthorized));
    assert_eq!(ctx, before);
    let mut cancelled = CancelSubscription {
        creator_vault: vault_of(id(1), 0, 0, 1),
        subscription: Subscription { is_active: false, ..active_subscription(id(2), id(1), 5000) },
        subscriber: id(8),
    };
    assert_eq!(cancel_subscription::handler(&mut cancelled, T0), Err(PaymentError::Unauthorized));
    assert_eq!(cancelled.creator_vault.subscribers, 1);
}
