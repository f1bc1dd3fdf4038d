use vstd::prelude::*;
use crate::pubkey::Pubkey;
use crate::social::error::SocialError;
use crate::social::events::PostLiked;
use crate::social::state::{Like, Post};

verus! {

/// What a like names.
#[derive(Clone, Debug, PartialEq, Eq)]
pub struct LikePost {
    pub post: Post,
    /// Key under which `post` is kept.
    pub post_key: Pubkey,
    /// The verified signer.
    pub user: Pubkey,
    /// Bump of the like's key.
    pub like_bump: u8,
}

/// The first reason to refuse the like, if there is one.
pub open spec fn rejection(ctx: LikePost) -> Option<SocialError> {
    if ctx.post.creator == ctx.user {
        Some(SocialError::CannotLikeOwnPost)
    } else {
        None
    }
}

/// What an accepted like leaves behind: the post has one like more.
pub open spec fn accounts_after(ctx: LikePost) -> LikePost {
    LikePost { post: Post { likes: (ctx.post.likes + 1) as u64, ..ctx.post }, ..ctx }
}

/// The like that is recorded.
pub open spec fn like_of(ctx: LikePost, now: i64) -> Like {
    Like { user: ctx.user, post: ctx.post_key, timestamp: now, bump: ctx.like_bump }
}

/// The event of an accepted like.
pub open spec fn event_of(ctx: LikePost, now: i64) -> PostLiked {
    PostLiked { post: ctx.post_key, user: ctx.user, timestamp: now }
}

/// Finds the first reason to refuse the like, if there is one.
pub fn refusal(ctx: &LikePost) -> (r: Option<SocialError>)
    ensures
        r == rejection(*ctx),
{
    if ctx.post.creator == ctx.user {
        Some(SocialError::CannotLikeOwnPost)
    } else {
        None
    }
}

/// Records that `ctx.user` likes `ctx.post`, at time `now`. Nobody likes a
/// post of their own. That the user has not liked the post before is for
/// the store to see to. A like that would be accepted needs room in the
/// post's count of likes.
pub fn handler(ctx: &mut LikePost, now: i64) -> (r: Result<(Like, PostLiked), SocialError>)
    requires
        rejection(*old(ctx)) is None ==> old(ctx).post.likes < u64::MAX,
    ensures
        rejection(*old(ctx)) matches Some(e) ==> r == Err::<(Like, PostLiked), SocialError>(e)
            && *final(ctx) == *old(ctx),
        rejection(*old(ctx)) is None ==> r == Ok::<(Like, PostLiked), SocialError>(
            (like_of(*old(ctx), now), event_of(*old(ctx), now)),
        ) && *final(ctx) == accounts_after(*old(ctx)),
{
    if let Some(reason) = refusal(ctx) {
        return Err(reason);
    }
    let like = Like { user: ctx.user, post: ctx.post_key, timestamp: now, bump: ctx.like_bump };
    ctx.post.likes = ctx.post.likes + 1;
    Ok((like, PostLiked { post: ctx.post_key, user: like.user, timestamp: now }))
}

} // verus!
