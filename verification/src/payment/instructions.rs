//! The settlement operations, one module each.

pub mod cancel_subscription;
pub mod initialize_platform;
pub mod initialize_vault;
pub mod process_subscription;
pub mod subscribe;
pub mod tip_creator;
pub mod withdraw;
