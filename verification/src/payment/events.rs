use vstd::prelude::*;
use crate::pubkey::Pubkey;

verus! {

/// A vault was created.
#[derive(Clone, Copy, Debug, PartialEq, Eq)]
pub struct VaultInitialized {
    pub creator: Pubkey,
    pub vault: Pubkey,
    pub timestamp: i64,
}

/// A tip was paid. The event holds the gross amount and the fee; the net
/// amount is their difference.
#[derive(Clone, Copy, Debug, PartialEq, Eq)]
pub struct TipSent {
    pub from: Pubkey,
    pub to: Pubkey,
    pub amount: u64,
    pub fee: u64,
    pub post: Option<Pubkey>,
    pub timestamp: i64,
}

/// A subscription was created and its first period charged.
#[derive(Clone, Copy, Debug, PartialEq, Eq)]
pub struct SubscriptionCreated {
    pub subscriber: Pubkey,
    pub creator: Pubkey,
    pub amount_per_month: u64,
    pub timestamp: i64,
}

/// A subscription was renewed. The event holds the gross amount and the fee
/// of the renewal.
#[derive(Clone, Copy, Debug, PartialEq, Eq)]
pub struct SubscriptionProcessed {
    pub subscriber: Pubkey,
    pub creator: Pubkey,
    pub amount: u64,
    pub fee: u64,
    pub timestamp: i64,
}

/// A subscription was cancelled.
#[derive(Clone, Copy, Debug, PartialEq, Eq)]
pub struct SubscriptionCancelled {
    pub subscriber: Pubkey,
    pub creator: Pubkey,
    pub timestamp: i64,
}

/// Earnings were marked as withdrawn.
#[derive(Clone, Copy, Debug, PartialEq, Eq)]
pub struct Withdrawal {
    pub creator: Pubkey,
    pub amount: u64,
    pub timestamp: i64,
}

/// The platform's configuration was written.
#[derive(Clone, Copy, Debug, PartialEq, Eq)]
pub struct PlatformConfigUpdated {
    pub authority: Pubkey,
    pub fee_basis_points: u16,
    pub timestamp: i64,
}

} // verus!
