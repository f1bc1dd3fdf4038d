use vstd::prelude::*;
use crate::pubkey::Pubkey;
use crate::social::error::SocialError;
use crate::social::events::PostCreated;
use crate::social::state::{byte_len, text_len, ContentType, Post, UserProfile, MAX_CAPTION_LEN, MAX_URI_LEN};

verus! {

/// What the creation of a post names.
#[derive(Clone, Debug, PartialEq, Eq)]
pub struct CreatePost {
    /// Key under which the new post is kept.
    pub post: Pubkey,
    /// The author's profile.
    pub profile: UserProfile,
    /// The verified signer.
    pub authority: Pubkey,
    /// Bump of the post's key.
    pub post_bump: u8,
}

/// The first reason to refuse the post, if there is one.
pub open spec fn rejection(ctx: CreatePost, content_uri: String, caption: String) -> Option<
    SocialError,
> {
    if ctx.profile.authority != ctx.authority {
        Some(SocialError::Unauthorized)
    } else if byte_len(content_uri@) > MAX_URI_LEN {
        Some(SocialError::ContentUriTooLong)
    } else if byte_len(caption@) > MAX_CAPTION_LEN {
        Some(SocialError::CaptionTooLong)
    } else {
        None
    }
}

/// What an accepted post leaves behind: the author has one post more.
pub open spec fn accounts_after(ctx: CreatePost) -> CreatePost {
    CreatePost {
        profile: UserProfile { post_count: (ctx.profile.post_count + 1) as u64, ..ctx.profile },
        ..ctx
    }
}

/// The post that is created. Its index is the number of posts that the
/// author had before.
pub open spec fn post_of(
    ctx: CreatePost,
    content_uri: String,
    content_type: ContentType,
    caption: String,
    is_token_gated: bool,
    required_token: Option<Pubkey>,
    now: i64,
) -> Post {
    Post {
        creator: ctx.authority,
        content_uri,
        content_type,
        caption,
        timestamp: now,
        likes: 0,
        comments: 0,
        tips_received: 0,
        is_token_gated,
        required_token,
        post_index: ctx.profile.post_count,
        bump: ctx.post_bump,
    }
}

/// The event of an accepted post.
pub open spec fn event_of(ctx: CreatePost, content_uri: String, now: i64) -> PostCreated {
    PostCreated { post: ctx.post, creator: ctx.authority, content_uri, timestamp: now }
}

/// Finds the first reason to refuse the post, if there is one.
pub fn refusal(ctx: &CreatePost, content_uri: &String, caption: &String) -> (r: Option<SocialError>)
    ensures
        r == rejection(*ctx, *content_uri, *caption),
{
    if ctx.profile.authority != ctx.authority {
        Some(SocialError::Unauthorized)
    } else if text_len(content_uri.as_str()) > MAX_URI_LEN {
        Some(SocialError::ContentUriTooLong)
    } else if text_len(caption.as_str()) > MAX_CAPTION_LEN {
        Some(SocialError::CaptionTooLong)
    } else {
        None
    }
}

/// Creates a post of `ctx.authority` at time `now`. A refused post leaves
/// the profile as it is. A post that would be accepted needs room in the
/// author's count of posts.
pub fn handler(
    ctx: &mut CreatePost,
    content_uri: String,
    content_type: ContentType,
    caption: String,
    is_token_gated: bool,
    required_token: Option<Pubkey>,
    now: i64,
) -> (r: Result<(Post, PostCreated), SocialError>)
    requires
        rejection(*old(ctx), content_uri, caption) is None ==> old(ctx).profile.post_count
            < u64::MAX,
    ensures
        rejection(*old(ctx), content_uri, caption) matches Some(e) ==> r == Err::<
            (Post, PostCreated),
            SocialError,
        >(e) && *final(ctx) == *old(ctx),
        rejection(*old(ctx), content_uri, caption) is None ==> r == Ok::<
            (Post, PostCreated),
            SocialError,
        >(
            (
                post_of(
                    *old(ctx),
                    content_uri,
                    content_type,
                    caption,
                    is_token_gated,
                    required_token,
                    now,
                ),
                event_of(*old(ctx), content_uri, now),
            ),
        ) && *final(ctx) == accounts_after(*old(ctx)),
{
    if let Some(reason) = refusal(ctx, &content_uri, &caption) {
        return Err(reason);
    }
    let event = PostCreated {
        post: ctx.post,
        creator: ctx.authority,
        content_uri: content_uri.clone(),
        timestamp: now,
    };
    let post = Post {
        creator: ctx.authority,
        content_uri,
        content_type,
        caption,
        timestamp: now,
        likes: 0,
        comments: 0,
        tips_received: 0,
        is_token_gated,
        required_token,
        post_index: ctx.profile.post_count,
        bump: ctx.post_bump,
    };
    ctx.profile.post_count = ctx.profile.post_count + 1;
    Ok((post, event))
}

} // verus!
