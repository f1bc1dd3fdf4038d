//! Accounting rules of a creator-monetization platform: fee policy, creator
//! vaults, tips, subscriptions and withdrawals. Every operation is a function
//! from the records it names to their next value and the transfers to make.

pub mod payment;
pub mod pubkey;
pub mod social;
pub mod token_gate;
