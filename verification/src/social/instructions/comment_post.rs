use vstd::prelude::*;
use crate::pubkey::Pubkey;
use crate::social::error::SocialError;
use crate::social::events::PostCommented;
use crate::social::state::{byte_len, text_len, Comment, Post, MAX_COMMENT_LEN};

verus! {

/// What a comment names.
#[derive(Clone, Debug, PartialEq, Eq)]
pub struct CommentPost {
    pub post: Post,
    /// Key under which `post` is kept.
    pub post_key: Pubkey,
    /// Key under which the new comment is kept.
    pub comment: Pubkey,
    /// The verified signer.
    pub commenter: Pubkey,
    /// Bump of the comment's key.
    pub comment_bump: u8,
}

/// The first reason to refuse the comment, if there is one.
pub open spec fn rejection(comment_text: String) -> Option<SocialError> {
    if byte_len(comment_text@) > MAX_COMMENT_LEN {
        Some(SocialError::CommentTooLong)
    } else {
        None
    }
}

/// What an accepted comment leaves behind: the post has one comment more.
pub open spec fn accounts_after(ctx: CommentPost) -> CommentPost {
    CommentPost { post: Post { comments: (ctx.post.comments + 1) as u64, ..ctx.post }, ..ctx }
}

/// The comment that is created. Its index is the number of comments that
/// the post had before.
pub open spec fn comment_of(ctx: CommentPost, comment_text: String, now: i64) -> Comment {
    Comment {
        post: ctx.post_key,
        commenter: ctx.commenter,
        text: comment_text,
        timestamp: now,
        comment_index: ctx.post.comments,
        bump: ctx.comment_bump,
    }
}

/// The event of an accepted comment.
pub open spec fn event_of(ctx: CommentPost, now: i64) -> PostCommented {
    PostCommented {
        post: ctx.post_key,
        commenter: ctx.commenter,
        comment: ctx.comment,
        timestamp: now,
    }
}

/// Finds the first reason to refuse the comment, if there is one.
pub fn refusal(comment_text: &String) -> (r: Option<SocialError>)
    ensures
        r == rejection(*comment_text),
{
    if text_len(comment_text.as_str()) > MAX_COMMENT_LEN {
        Some(SocialError::CommentTooLong)
    } else {
        None
    }
}

/// Adds a comment of `ctx.commenter` to `ctx.post` at time `now`. A comment
/// that would be accepted needs room in the post's count of comments.
pub fn handler(ctx: &mut CommentPost, comment_text: String, now: i64) -> (r: Result<
    (Comment, PostCommented),
    SocialError,
>)
    requires
        rejection(comment_text) is None ==> old(ctx).post.comments < u64::MAX,
    ensures
        rejection(comment_text) matches Some(e) ==> r == Err::<(Comment, PostCommented), SocialError>(
            e,
        ) && *final(ctx) == *old(ctx),
        rejection(comment_text) is None ==> r == Ok::<(Comment, PostCommented), SocialError>(
            (comment_of(*old(ctx), comment_text, now), event_of(*old(ctx), now)),
        ) && *final(ctx) == accounts_after(*old(ctx)),
{
    if let Some(reason) = refusal(&comment_text) {
        return Err(reason);
    }
    let comment = Comment {
        post: ctx.post_key,
        commenter: ctx.commenter,
        text: comment_text,
        timestamp: now,
        comment_index: ctx.post.comments,
        bump: ctx.comment_bump,
    };
    ctx.post.comments = ctx.post.comments + 1;
    let event = PostCommented {
        post: ctx.post_key,
        commenter: comment.commenter,
        comment: ctx.comment,
        timestamp: now,
    };
    Ok((comment, event))
}

} // verus!
