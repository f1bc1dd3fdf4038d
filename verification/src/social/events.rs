use vstd::prelude::*;
use crate::pubkey::Pubkey;

verus! {

#[derive(Clone, Debug, PartialEq, Eq)]
pub struct ProfileCreated {
    pub authority: Pubkey,
    pub username: String,
    pub timestamp: i64,
}

#[derive(Clone, Copy, Debug, PartialEq, Eq)]
pub struct ProfileUpdated {
    pub authority: Pubkey,
    pub timestamp: i64,
}

#[derive(Clone, Debug, PartialEq, Eq)]
pub struct PostCreated {
    pub post: Pubkey,
    pub creator: Pubkey,
    pub content_uri: String,
    pub timestamp: i64,
}

#[derive(Clone, Copy, Debug, PartialEq, Eq)]
pub struct PostLiked {
    pub post: Pubkey,
    pub user: Pubkey,
    pub timestamp: i64,
}

#[derive(Clone, Copy, Debug, PartialEq, Eq)]
pub struct PostUnliked {
    pub post: Pubkey,
    pub user: Pubkey,
    pub timestamp: i64,
}

#[derive(Clone, Copy, Debug, PartialEq, Eq)]
pub struct UserFollowed {
    pub follower: Pubkey,
    pub following: Pubkey,
    pub timestamp: i64,
}

#[derive(Clone, Copy, Debug, PartialEq, Eq)]
pub struct UserUnfollowed {
    pub follower: Pubkey,
    pub following: Pubkey,
    pub timestamp: i64,
}

#[derive(Clone, Copy, Debug, PartialEq, Eq)]
pub struct PostCommented {
    pub post: Pubkey,
    pub commenter: Pubkey,
    pub comment: Pubkey,
    pub timestamp: i64,
}

} // verus!
