use vstd::prelude::*;

verus! {

/// Why a social operation was refused.
#[derive(Clone, Copy, Debug, PartialEq, Eq, Structural, Hash)]
pub enum SocialError {
    UsernameTooLong,
    BioTooLong,
    CaptionTooLong,
    CommentTooLong,
    ProfileImageUriTooLong,
    ContentUriTooLong,
    CannotFollowSelf,
    CannotLikeOwnPost,
    AlreadyFollowing,
    NotFollowing,
    AlreadyLiked,
    NotLiked,
    /// The acting identity is not the one the record names.
    Unauthorized,
    UsernameEmpty,
}

impl SocialError {
    /// The text of `message`.
    pub open spec fn spec_message(self) -> Seq<char> {
        match self {
            SocialError::UsernameTooLong => "Username must be 32 characters or less"@,
            SocialError::BioTooLong => "Bio must be 256 characters or less"@,
            SocialError::CaptionTooLong => "Caption must be 2000 characters or less"@,
            SocialError::CommentTooLong => "Comment must be 500 characters or less"@,
            SocialError::ProfileImageUriTooLong => "Profile image URI must be 200 characters or less"@,
            SocialError::ContentUriTooLong => "Content URI must be 200 characters or less"@,
            SocialError::CannotFollowSelf => "Cannot follow yourself"@,
            SocialError::CannotLikeOwnPost => "Cannot like your own post"@,
            SocialError::AlreadyFollowing => "Already following this user"@,
            SocialError::NotFollowing => "Not following this user"@,
            SocialError::AlreadyLiked => "Already liked this post"@,
            SocialError::NotLiked => "Not liked this post"@,
            SocialError::Unauthorized => "Unauthorized action"@,
            SocialError::UsernameEmpty => "Username cannot be empty"@,
        }
    }

    /// What to tell the user.
    pub fn message(&self) -> (text: &'static str)
        ensures
            text@ == self.spec_message(),
    {
        match self {
            SocialError::UsernameTooLong => "Username must be 32 characters or less",
            SocialError::BioTooLong => "Bio must be 256 characters or less",
            SocialError::CaptionTooLong => "Caption must be 2000 characters or less",
            SocialError::CommentTooLong => "Comment must be 500 characters or less",
            SocialError::ProfileImageUriTooLong => "Profile image URI must be 200 characters or less",
            SocialError::ContentUriTooLong => "Content URI must be 200 characters or less",
            SocialError::CannotFollowSelf => "Cannot follow yourself",
            SocialError::CannotLikeOwnPost => "Cannot like your own post",
            SocialError::AlreadyFollowing => "Already following this user",
            SocialError::NotFollowing => "Not following this user",
            SocialError::AlreadyLiked => "Already liked this post",
            SocialError::NotLiked => "Not liked this post",
            SocialError::Unauthorized => "Unauthorized action",
            SocialError::UsernameEmpty => "Username cannot be empty",
        }
    }
}

} // verus!
