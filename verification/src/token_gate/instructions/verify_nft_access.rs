use vstd::prelude::*;
use crate::pubkey::Pubkey;
use crate::token_gate::error::TokenGateError;
use crate::token_gate::events::AccessVerified;
use crate::token_gate::state::{AccessControl, AccessVerification, GateType, TokenAccount};

verus! {

/// What the verification of an NFT names.
#[derive(Clone, Copy, Debug, PartialEq, Eq)]
pub struct VerifyNftAccess {
    pub access_control: AccessControl,
    /// What has been verified of the user so far; all unset where nothing
    /// has.
    pub verification: AccessVerification,
    /// The holding that is shown.
    pub nft_token_account: TokenAccount,
    /// The NFT that the holding is claimed to be of.
    pub nft_mint: Pubkey,
    /// The verified signer.
    pub user: Pubkey,
    /// Bump of the verification's key.
    pub verification_bump: u8,
}

/// The first reason to refuse the verification, if there is one.
pub open spec fn rejection(ctx: VerifyNftAccess) -> Option<TokenGateError> {
    if ctx.nft_token_account.owner != ctx.user {
        Some(TokenGateError::TokenAccountOwnerMismatch)
    } else if ctx.nft_token_account.amount != 1 {
        Some(TokenGateError::NftNotOwned)
    } else if !ctx.access_control.spec_requires_nft() {
        Some(TokenGateError::InvalidGateConfig)
    } else if ctx.access_control.required_nft_collection is None {
        Some(TokenGateError::NftCollectionRequired)
    } else if ctx.nft_token_account.mint != ctx.nft_mint {
        Some(TokenGateError::TokenAccountMintMismatch)
    } else {
        None
    }
}

/// The verification after the NFT has been accepted.
pub open spec fn verification_after(ctx: VerifyNftAccess, now: i64) -> AccessVerification {
    AccessVerification {
        user: ctx.user,
        post: ctx.access_control.post,
        verified: match ctx.access_control.gate_type {
            GateType::Nft => true,
            GateType::Both => ctx.verification.token_verified,
            GateType::Token => ctx.verification.token_verified,
        },
        token_verified: ctx.verification.token_verified,
        nft_verified: true,
        verified_at: now,
        expires_at: None,
        bump: ctx.verification_bump,
    }
}

/// The event of an accepted verification. Its kind reads `"nft"`.
pub open spec fn is_event_of(event: AccessVerified, ctx: VerifyNftAccess, now: i64) -> bool {
    &&& event.user == ctx.user
    &&& event.post == ctx.access_control.post
    &&& event.verification_type@ == "nft"@
    &&& event.timestamp == now
}

/// Verifies at time `now` that `ctx.user` holds exactly one of the NFT
/// `ctx.nft_mint`. That the NFT belongs to the required collection is not
/// looked into. A refused verification changes nothing. An accepted one
/// never expires, and counts as full access unless a token balance is
/// required as well and none has been verified.
pub fn handler(ctx: &mut VerifyNftAccess, now: i64) -> (r: Result<AccessVerified, TokenGateError>)
    ensures
        rejection(*old(ctx)) matches Some(e) ==> r == Err::<AccessVerified, TokenGateError>(e)
            && *final(ctx) == *old(ctx),
        rejection(*old(ctx)) is None ==> (r matches Ok(event) && is_event_of(event, *old(ctx), now))
            && *final(ctx) == (VerifyNftAccess {
            verification: verification_after(*old(ctx), now),
            ..*old(ctx)
        }),
        rejection(*old(ctx)) is None ==> final(ctx).verification.satisfies(GateType::Nft),
{
    if ctx.nft_token_account.owner != ctx.user {
        return Err(TokenGateError::TokenAccountOwnerMismatch);
    }
    if ctx.nft_token_account.amount != 1 {
        return Err(TokenGateError::NftNotOwned);
    }
    if !ctx.access_control.requires_nft() {
        return Err(TokenGateError::InvalidGateConfig);
    }
    if ctx.access_control.required_nft_collection.is_none() {
        return Err(TokenGateError::NftCollectionRequired);
    }
    if ctx.nft_token_account.mint != ctx.nft_mint {
        return Err(TokenGateError::TokenAccountMintMismatch);
    }
    let token_verified = ctx.verification.token_verified;
    ctx.verification = AccessVerification {
        user: ctx.user,
        post: ctx.access_control.post,
        verified: match ctx.access_control.gate_type {
            GateType::Nft => true,
            GateType::Both => token_verified,
            GateType::Token => token_verified,
        },
        token_verified,
        nft_verified: true,
        verified_at: now,
        expires_at: None,
        bump: ctx.verification_bump,
    };
    Ok(
        AccessVerified {
            user: ctx.user,
            post: ctx.access_control.post,
            verification_type: "nft".to_string(),
            timestamp: now,
        },
    )
}

} // verus!
