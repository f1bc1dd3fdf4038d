use vstd::prelude::*;
use crate::pubkey::Pubkey;
use crate::social::error::SocialError;
use crate::social::events::PostUnliked;
use crate::social::state::{Like, Post};

verus! {

/// What the withdrawal of a like names.
#[derive(Clone, Debug, PartialEq, Eq)]
pub struct UnlikePost {
    pub post: Post,
    /// Key under which `post` is kept.
    pub post_key: Pubkey,
    /// The like that is taken back.
    pub like: Like,
    /// The verified signer.
    pub user: Pubkey,
}

/// The first reason to refuse, if there is one: the like is another user's,
/// or it is a like of another post.
pub open spec fn rejection(ctx: UnlikePost) -> Option<SocialError> {
    if ctx.like.user != ctx.user {
        Some(SocialError::Unauthorized)
    } else if ctx.like.post != ctx.post_key {
        Some(SocialError::NotLiked)
    } else {
        None
    }
}

/// What an accepted withdrawal leaves behind: the post has one like fewer,
/// where it had any.
pub open spec fn accounts_after(ctx: UnlikePost) -> UnlikePost {
    UnlikePost {
        post: Post {
            likes: if ctx.post.likes == 0 {
                0
            } else {
                (ctx.post.likes - 1) as u64
            },
            ..ctx.post
        },
        ..ctx
    }
}

/// The event of an accepted withdrawal.
pub open spec fn event_of(ctx: UnlikePost, now: i64) -> PostUnliked {
    PostUnliked { post: ctx.post_key, user: ctx.user, timestamp: now }
}

/// Takes back the like `ctx.like` at time `now`. After an accepted call the
/// like is to be removed from the store.
pub fn handler(ctx: &mut UnlikePost, now: i64) -> (r: Result<PostUnliked, SocialError>)
    ensures
        rejection(*old(ctx)) matches Some(e) ==> r == Err::<PostUnliked, SocialError>(e)
            && *final(ctx) == *old(ctx),
        rejection(*old(ctx)) is None ==> r == Ok::<PostUnliked, SocialError>(
            event_of(*old(ctx), now),
        ) && *final(ctx) == accounts_after(*old(ctx)),
{
    if ctx.like.user != ctx.user {
        return Err(SocialError::Unauthorized);
    }
    if ctx.like.post != ctx.post_key {
        return Err(SocialError::NotLiked);
    }
    ctx.post.likes = ctx.post.likes.saturating_sub(1);
    Ok(PostUnliked { post: ctx.post_key, user: ctx.user, timestamp: now })
}

} // verus!
