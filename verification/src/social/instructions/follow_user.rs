use vstd::prelude::*;
use crate::pubkey::Pubkey;
use crate::social::error::SocialError;
use crate::social::events::UserFollowed;
use crate::social::state::{Follow, UserProfile};

verus! {

/// What a follow names.
#[derive(Clone, Debug, PartialEq, Eq)]
pub struct FollowUser {
    /// Profile of the one who follows.
    pub follower_profile: UserProfile,
    /// Profile of the one who is followed.
    pub following_profile: UserProfile,
    /// The verified signer.
    pub follower: Pubkey,
    /// The identity that is claimed to own `follower_profile`.
    pub authority: Pubkey,
    /// Bump of the follow's key.
    pub follow_bump: u8,
}

/// The first reason to refuse the follow, if there is one.
pub open spec fn rejection(ctx: FollowUser) -> Option<SocialError> {
    if ctx.follower_profile.authority != ctx.authority || ctx.follower_profile.authority
        != ctx.follower {
        Some(SocialError::Unauthorized)
    } else if ctx.follower == ctx.following_profile.authority {
        Some(SocialError::CannotFollowSelf)
    } else {
        None
    }
}

/// What an accepted follow leaves behind: one more followed on the one
/// side, one more follower on the other.
pub open spec fn accounts_after(ctx: FollowUser) -> FollowUser {
    FollowUser {
        follower_profile: UserProfile {
            following_count: (ctx.follower_profile.following_count + 1) as u64,
            ..ctx.follower_profile
        },
        following_profile: UserProfile {
            follower_count: (ctx.following_profile.follower_count + 1) as u64,
            ..ctx.following_profile
        },
        ..ctx
    }
}

/// The follow that is recorded.
pub open spec fn follow_of(ctx: FollowUser, now: i64) -> Follow {
    Follow {
        follower: ctx.follower,
        following: ctx.following_profile.authority,
        timestamp: now,
        bump: ctx.follow_bump,
    }
}

/// The event of an accepted follow.
pub open spec fn event_of(ctx: FollowUser, now: i64) -> UserFollowed {
    UserFollowed { follower: ctx.follower, following: ctx.following_profile.authority, timestamp: now }
}

/// Finds the first reason to refuse the follow, if there is one.
pub fn refusal(ctx: &FollowUser) -> (r: Option<SocialError>)
    ensures
        r == rejection(*ctx),
{
    if ctx.follower_profile.authority != ctx.authority || ctx.follower_profile.authority
        != ctx.follower {
        Some(SocialError::Unauthorized)
    } else if ctx.follower == ctx.following_profile.authority {
        Some(SocialError::CannotFollowSelf)
    } else {
        None
    }
}

/// Records that `ctx.follower` follows the owner of `ctx.following_profile`,
/// at time `now`. Nobody follows themselves. That the follow does not exist
/// yet is for the store to see to. A follow that would be accepted needs
/// room in both counts.
pub fn handler(ctx: &mut FollowUser, now: i64) -> (r: Result<(Follow, UserFollowed), SocialError>)
    requires
        rejection(*old(ctx)) is None ==> old(ctx).follower_profile.following_count < u64::MAX
            && old(ctx).following_profile.follower_count < u64::MAX,
    ensures
        rejection(*old(ctx)) matches Some(e) ==> r == Err::<(Follow, UserFollowed), SocialError>(e)
            && *final(ctx) == *old(ctx),
        rejection(*old(ctx)) is None ==> r == Ok::<(Follow, UserFollowed), SocialError>(
            (follow_of(*old(ctx), now), event_of(*old(ctx), now)),
        ) && *final(ctx) == accounts_after(*old(ctx)),
{
    if let Some(reason) = refusal(ctx) {
        return Err(reason);
    }
    let follower_key = ctx.follower;
    let following_key = ctx.following_profile.authority;
    let follow = Follow {
        follower: follower_key,
        following: following_key,
        timestamp: now,
        bump: ctx.follow_bump,
    };
    ctx.follower_profile.following_count = ctx.follower_profile.following_count + 1;
    ctx.following_profile.follower_count = ctx.following_profile.follower_count + 1;
    Ok((follow, UserFollowed { follower: follower_key, following: following_key, timestamp: now }))
}

} // verus!
