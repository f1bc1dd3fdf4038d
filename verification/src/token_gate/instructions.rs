//! The operations on access controls and verifications, one module each.

pub mod check_access;
pub mod set_access_requirements;
pub mod verify_nft_access;
pub mod verify_token_access;
