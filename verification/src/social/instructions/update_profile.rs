use vstd::prelude::*;
use crate::pubkey::Pubkey;
use crate::social::error::SocialError;
use crate::social::events::ProfileUpdated;
use crate::social::state::{byte_len, text_len, UserProfile, MAX_BIO_LEN, MAX_URI_LEN};

verus! {

/// What a change of a profile names.
#[derive(Clone, Debug, PartialEq, Eq)]
pub struct UpdateProfile {
    pub profile: UserProfile,
    /// The verified signer.
    pub authority: Pubkey,
}

/// The first reason to refuse the change, if there is one.
pub open spec fn rejection(
    ctx: UpdateProfile,
    bio: Option<String>,
    profile_image_uri: Option<String>,
) -> Option<SocialError> {
    if ctx.profile.authority != ctx.authority {
        Some(SocialError::Unauthorized)
    } else if bio matches Some(new_bio) && byte_len(new_bio@) > MAX_BIO_LEN {
        Some(SocialError::BioTooLong)
    } else if profile_image_uri matches Some(new_uri) && byte_len(new_uri@) > MAX_URI_LEN {
        Some(SocialError::ProfileImageUriTooLong)
    } else {
        None
    }
}

/// What an accepted change leaves behind: each text that was given replaces
/// the one in the profile.
pub open spec fn accounts_after(
    ctx: UpdateProfile,
    bio: Option<String>,
    profile_image_uri: Option<String>,
) -> UpdateProfile {
    UpdateProfile {
        profile: UserProfile {
            bio: match bio {
                Some(new_bio) => new_bio,
                None => ctx.profile.bio,
            },
            profile_image_uri: match profile_image_uri {
                Some(new_uri) => new_uri,
                None => ctx.profile.profile_image_uri,
            },
            ..ctx.profile
        },
        ..ctx
    }
}

/// The event of an accepted change.
pub open spec fn event_of(ctx: UpdateProfile, now: i64) -> ProfileUpdated {
    ProfileUpdated { authority: ctx.profile.authority, timestamp: now }
}

/// Replaces the biography, the image address, both or neither. A refused
/// change leaves the profile as it is.
pub fn handler(
    ctx: &mut UpdateProfile,
    bio: Option<String>,
    profile_image_uri: Option<String>,
    now: i64,
) -> (r: Result<ProfileUpdated, SocialError>)
    ensures
        rejection(*old(ctx), bio, profile_image_uri) matches Some(e) ==> r == Err::<
            ProfileUpdated,
            SocialError,
        >(e) && *final(ctx) == *old(ctx),
        rejection(*old(ctx), bio, profile_image_uri) is None ==> r == Ok::<
            ProfileUpdated,
            SocialError,
        >(event_of(*old(ctx), now)) && *final(ctx) == accounts_after(
            *old(ctx),
            bio,
            profile_image_uri,
        ),
{
    if ctx.profile.authority != ctx.authority {
        return Err(SocialError::Unauthorized);
    }
    if let Some(new_bio) = &bio {
        if text_len(new_bio.as_str()) > MAX_BIO_LEN {
            return Err(SocialError::BioTooLong);
        }
    }
    if let Some(new_uri) = &profile_image_uri {
        if text_len(new_uri.as_str()) > MAX_URI_LEN {
            return Err(SocialError::ProfileImageUriTooLong);
        }
    }
    if let Some(new_bio) = bio {
        ctx.profile.bio = new_bio;
    }
    if let Some(new_uri) = profile_image_uri {
        ctx.profile.profile_image_uri = new_uri;
    }
    Ok(ProfileUpdated { authority: ctx.profile.authority, timestamp: now })
}

} // verus!
