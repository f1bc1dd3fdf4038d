use vstd::prelude::*;
use crate::pubkey::Pubkey;

verus! {

#[derive(Clone, Copy, Debug, PartialEq, Eq)]
pub struct AccessControlCreated {
    pub post: Pubkey,
    pub creator: Pubkey,
    pub required_token: Option<Pubkey>,
    pub minimum_balance: u64,
    pub required_nft_collection: Option<Pubkey>,
    pub timestamp: i64,
}

#[derive(Clone, Copy, Debug, PartialEq, Eq)]
pub struct AccessControlUpdated {
    pub post: Pubkey,
    pub required_token: Option<Pubkey>,
    pub minimum_balance: u64,
    pub required_nft_collection: Option<Pubkey>,
    pub timestamp: i64,
}

#[derive(Clone, Debug, PartialEq, Eq)]
pub struct AccessVerified {
    pub user: Pubkey,
    pub post: Pubkey,
    /// `"token"` or `"nft"`.
    pub verification_type: String,
    pub timestamp: i64,
}

#[derive(Clone, Copy, Debug, PartialEq, Eq)]
pub struct AccessRevoked {
    pub user: Pubkey,
    pub post: Pubkey,
    pub timestamp: i64,
}

} // verus!
