use vstd::prelude::*;
use crate::pubkey::Pubkey;
use crate::social::error::SocialError;
use crate::social::events::ProfileCreated;
use crate::social::state::{byte_len, text_len, UserProfile, MAX_BIO_LEN, MAX_URI_LEN, MAX_USERNAME_LEN};

verus! {

/// What the creation of a profile names.
#[derive(Clone, Copy, Debug, PartialEq, Eq)]
pub struct CreateProfile {
    /// The verified signer, who owns the new profile.
    pub authority: Pubkey,
    /// Bump of the profile's key.
    pub profile_bump: u8,
}

/// The first reason to refuse a profile with these texts, if there is one.
pub open spec fn rejection(username: String, bio: String, profile_image_uri: String) -> Option<
    SocialError,
> {
    if username@.len() == 0 {
        Some(SocialError::UsernameEmpty)
    } else if byte_len(username@) > MAX_USERNAME_LEN {
        Some(SocialError::UsernameTooLong)
    } else if byte_len(bio@) > MAX_BIO_LEN {
        Some(SocialError::BioTooLong)
    } else if byte_len(profile_image_uri@) > MAX_URI_LEN {
        Some(SocialError::ProfileImageUriTooLong)
    } else {
        None
    }
}

/// The profile that is created: no followers, no posts, not verified.
pub open spec fn profile_of(
    ctx: CreateProfile,
    username: String,
    bio: String,
    profile_image_uri: String,
    now: i64,
) -> UserProfile {
    UserProfile {
        authority: ctx.authority,
        username,
        bio,
        profile_image_uri,
        follower_count: 0,
        following_count: 0,
        post_count: 0,
        created_at: now,
        is_verified: false,
        bump: ctx.profile_bump,
    }
}

/// The event of a profile's creation.
pub open spec fn event_of(ctx: CreateProfile, username: String, now: i64) -> ProfileCreated {
    ProfileCreated { authority: ctx.authority, username, timestamp: now }
}

/// Creates the profile of `ctx.authority` at time `now`.
pub fn handler(
    ctx: &CreateProfile,
    username: String,
    bio: String,
    profile_image_uri: String,
    now: i64,
) -> (r: Result<(UserProfile, ProfileCreated), SocialError>)
    ensures
        rejection(username, bio, profile_image_uri) matches Some(e) ==> r == Err::<
            (UserProfile, ProfileCreated),
            SocialError,
        >(e),
        rejection(username, bio, profile_image_uri) is None ==> r == Ok::<
            (UserProfile, ProfileCreated),
            SocialError,
        >((profile_of(*ctx, username, bio, profile_image_uri, now), event_of(*ctx, username, now))),
{
    if username.as_str().is_empty() {
        return Err(SocialError::UsernameEmpty);
    }
    if text_len(username.as_str()) > MAX_USERNAME_LEN {
        return Err(SocialError::UsernameTooLong);
    }
    if text_len(bio.as_str()) > MAX_BIO_LEN {
        return Err(SocialError::BioTooLong);
    }
    if text_len(profile_image_uri.as_str()) > MAX_URI_LEN {
        return Err(SocialError::ProfileImageUriTooLong);
    }
    let event = ProfileCreated { authority: ctx.authority, username: username.clone(), timestamp: now };
    let profile = UserProfile {
        authority: ctx.authority,
        username,
        bio,
        profile_image_uri,
        follower_count: 0,
        following_count: 0,
        post_count: 0,
        created_at: now,
        is_verified: false,
        bump: ctx.profile_bump,
    };
    Ok((profile, event))
}

} // verus!
