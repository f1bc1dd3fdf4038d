//! What holds of the counts that the social graph keeps.

use vstd::prelude::*;
use crate::social::instructions::follow_user;
use crate::social::instructions::follow_user::FollowUser;
use crate::social::instructions::like_post;
use crate::social::instructions::like_post::LikePost;
use crate::social::instructions::unfollow_user;
use crate::social::instructions::unfollow_user::UnfollowUser;
use crate::social::instructions::unlike_post;
use crate::social::instructions::unlike_post::UnlikePost;

verus! {

/// Taking a like back undoes it: the like that was recorded is accepted for
/// withdrawal by the same user, and the post is then as it was before.
pub proof fn unlike_undoes_like(ctx: LikePost, now: i64)
    requires
        ctx.post.likes < u64::MAX,
        like_post::rejection(ctx) is None,
    ensures
        unlike_post::rejection(
            UnlikePost {
                post: like_post::accounts_after(ctx).post,
                post_key: ctx.post_key,
                like: like_post::like_of(ctx, now),
                user: ctx.user,
            },
        ) is None,
        unlike_post::accounts_after(
            UnlikePost {
                post: like_post::accounts_after(ctx).post,
                post_key: ctx.post_key,
                like: like_post::like_of(ctx, now),
                user: ctx.user,
            },
        ).post == ctx.post,
{
}

/// Ending a follow undoes it: the follow that was recorded is accepted for
/// ending by the same follower, and both profiles are then as they were
/// before.
pub proof fn unfollow_undoes_follow(ctx: FollowUser, now: i64)
    requires
        ctx.follower_profile.following_count < u64::MAX,
        ctx.following_profile.follower_count < u64::MAX,
        follow_user::rejection(ctx) is None,
    ensures
        unfollow_user::rejection(
            UnfollowUser {
                follow: follow_user::follow_of(ctx, now),
                follower_profile: follow_user::accounts_after(ctx).follower_profile,
                following_profile: follow_user::accounts_after(ctx).following_profile,
                follower: ctx.follower,
                authority: ctx.authority,
            },
        ) is None,
        unfollow_user::accounts_after(
            UnfollowUser {
                follow: follow_user::follow_of(ctx, now),
                follower_profile: follow_user::accounts_after(ctx).follower_profile,
                following_profile: follow_user::accounts_after(ctx).following_profile,
                follower: ctx.follower,
                authority: ctx.authority,
            },
        ).follower_profile == ctx.follower_profile,
        unfollow_user::accounts_after(
            UnfollowUser {
                follow: follow_user::follow_of(ctx, now),
                follower_profile: follow_user::accounts_after(ctx).follower_profile,
                following_profile: follow_user::accounts_after(ctx).following_profile,
                follower: ctx.follower,
                authority: ctx.authority,
            },
        ).following_profile == ctx.following_profile,
{
}

/// Nobody follows themselves and nobody likes a post of their own: such a
/// call is always refused.
pub proof fn self_dealing_is_refused(follow: FollowUser, like: LikePost)
    ensures
        follow.follower == follow.following_profile.authority ==> follow_user::rejection(follow)
            is Some,
        like.user == like.post.creator ==> like_post::rejection(like) is Some,
{
}

} // verus!
