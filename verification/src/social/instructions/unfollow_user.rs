use vstd::prelude::*;
use crate::pubkey::Pubkey;
use crate::social::error::SocialError;
use crate::social::events::UserUnfollowed;
use crate::social::state::{Follow, UserProfile};

verus! {

/// What the end of a follow names.
#[derive(Clone, Debug, PartialEq, Eq)]
pub struct UnfollowUser {
    /// The follow that ends.
    pub follow: Follow,
    /// Profile of the one who followed.
    pub follower_profile: UserProfile,
    /// Profile of the one who was followed.
    pub following_profile: UserProfile,
    /// The verified signer.
    pub follower: Pubkey,
    /// The identity that is claimed to own `follower_profile`.
    pub authority: Pubkey,
}

/// The first reason to refuse, if there is one: the follow or the profile
/// is not the signer's, or the follow is of somebody else.
pub open spec fn rejection(ctx: UnfollowUser) -> Option<SocialError> {
    if ctx.follow.follower != ctx.follower || ctx.follower_profile.authority != ctx.authority
        || ctx.follower_profile.authority != ctx.follower {
        Some(SocialError::Unauthorized)
    } else if ctx.follow.following != ctx.following_profile.authority {
        Some(SocialError::NotFollowing)
    } else {
        None
    }
}

/// What an accepted call leaves behind: one fewer followed on the one side,
/// one follower fewer on the other, neither below zero.
pub open spec fn accounts_after(ctx: UnfollowUser) -> UnfollowUser {
    UnfollowUser {
        follower_profile: UserProfile {
            following_count: if ctx.follower_profile.following_count == 0 {
                0
            } else {
                (ctx.follower_profile.following_count - 1) as u64
            },
            ..ctx.follower_profile
        },
        following_profile: UserProfile {
            follower_count: if ctx.following_profile.follower_count == 0 {
                0
            } else {
                (ctx.following_profile.follower_count - 1) as u64
            },
            ..ctx.following_profile
        },
        ..ctx
    }
}

/// The event of an accepted call.
pub open spec fn event_of(ctx: UnfollowUser, now: i64) -> UserUnfollowed {
    UserUnfollowed {
        follower: ctx.follower,
        following: ctx.following_profile.authority,
        timestamp: now,
    }
}

/// Ends the follow `ctx.follow` at time `now`. After an accepted call the
/// follow is to be removed from the store.
pub fn handler(ctx: &mut UnfollowUser, now: i64) -> (r: Result<UserUnfollowed, SocialError>)
    ensures
        rejection(*old(ctx)) matches Some(e) ==> r == Err::<UserUnfollowed, SocialError>(e)
            && *final(ctx) == *old(ctx),
        rejection(*old(ctx)) is None ==> r == Ok::<UserUnfollowed, SocialError>(
            event_of(*old(ctx), now),
        ) && *final(ctx) == accounts_after(*old(ctx)),
{
    if ctx.follow.follower != ctx.follower || ctx.follower_profile.authority != ctx.authority
        || ctx.follower_profile.authority != ctx.follower {
        return Err(SocialError::Unauthorized);
    }
    if ctx.follow.following != ctx.following_profile.authority {
        return Err(SocialError::NotFollowing);
    }
    ctx.follower_profile.following_count = ctx.follower_profile.following_count.saturating_sub(1);
    ctx.following_profile.follower_count = ctx.following_profile.follower_count.saturating_sub(1);
    Ok(
        UserUnfollowed {
            follower: ctx.follower,
            following: ctx.following_profile.authority,
            timestamp: now,
        },
    )
}

} // verus!
