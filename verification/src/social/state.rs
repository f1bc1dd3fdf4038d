use vstd::prelude::*;
use crate::pubkey::Pubkey;

verus! {

/// Longest user name, in bytes.
pub const MAX_USERNAME_LEN: usize = 32;

/// Longest biography, in bytes.
pub const MAX_BIO_LEN: usize = 256;

/// Longest address of a profile image or of a post's content, in bytes.
pub const MAX_URI_LEN: usize = 200;

/// Longest caption, in bytes.
pub const MAX_CAPTION_LEN: usize = 2000;

/// Longest comment, in bytes.
pub const MAX_COMMENT_LEN: usize = 500;

/// The number of bytes that `text` takes.
pub open spec fn byte_len(text: Seq<char>) -> nat {
    vstd::utf8::encode_utf8(text).len()
}

/// Counts the bytes of `text`.
pub fn text_len(text: &str) -> (n: usize)
    ensures
        n == byte_len(text@),
{
    text.as_bytes().len()
}

/// One user, with the counts of what the user has done.
#[derive(Clone, Debug, PartialEq, Eq)]
pub struct UserProfile {
    pub authority: Pubkey,
    pub username: String,
    pub bio: String,
    pub profile_image_uri: String,
    pub follower_count: u64,
    pub following_count: u64,
    pub post_count: u64,
    pub created_at: i64,
    pub is_verified: bool,
    pub bump: u8,
}

/// What a post holds.
#[derive(Clone, Copy, Debug, PartialEq, Eq, Structural, Hash)]
pub enum ContentType {
    Image,
    Video,
    Text,
    Multi,
}

/// One post, with the counts of what has been done to it.
#[derive(Clone, Debug, PartialEq, Eq)]
pub struct Post {
    pub creator: Pubkey,
    pub content_uri: String,
    pub content_type: ContentType,
    pub caption: String,
    pub timestamp: i64,
    pub likes: u64,
    pub comments: u64,
    pub tips_received: u64,
    pub is_token_gated: bool,
    pub required_token: Option<Pubkey>,
    /// Position of the post among its creator's posts, from zero.
    pub post_index: u64,
    pub bump: u8,
}

/// One user follows another.
#[derive(Clone, Copy, Debug, PartialEq, Eq)]
pub struct Follow {
    pub follower: Pubkey,
    pub following: Pubkey,
    pub timestamp: i64,
    pub bump: u8,
}

/// One user likes one post.
#[derive(Clone, Copy, Debug, PartialEq, Eq)]
pub struct Like {
    pub user: Pubkey,
    pub post: Pubkey,
    pub timestamp: i64,
    pub bump: u8,
}

/// One comment on one post.
#[derive(Clone, Debug, PartialEq, Eq)]
pub struct Comment {
    pub post: Pubkey,
    pub commenter: Pubkey,
    pub text: String,
    pub timestamp: i64,
    /// Position of the comment among the post's comments, from zero.
    pub comment_index: u64,
    pub bump: u8,
}

} // verus!
