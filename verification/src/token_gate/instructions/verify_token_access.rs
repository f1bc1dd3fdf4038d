use vstd::prelude::*;
use crate::pubkey::Pubkey;
use crate::token_gate::error::TokenGateError;
use crate::token_gate::events::AccessVerified;
use crate::token_gate::state::{AccessControl, AccessVerification, GateType, TokenAccount};

verus! {

/// What the verification of a token balance names.
#[derive(Clone, Copy, Debug, PartialEq, Eq)]
pub struct VerifyTokenAccess {
    pub access_control: AccessControl,
    /// What has been verified of the user so far; all unset where nothing
    /// has.
    pub verification: AccessVerification,
    /// The holding that is shown.
    pub user_token_account: TokenAccount,
    /// The verified signer.
    pub user: Pubkey,
    /// Bump of the verification's key.
    pub verification_bump: u8,
}

/// The first reason to refuse the verification, if there is one.
pub open spec fn rejection(ctx: VerifyTokenAccess) -> Option<TokenGateError> {
    if ctx.user_token_account.owner != ctx.user {
        Some(TokenGateError::TokenAccountOwnerMismatch)
    } else if Some(ctx.user_token_account.mint) != ctx.access_control.required_token {
        Some(TokenGateError::TokenAccountMintMismatch)
    } else if !ctx.access_control.spec_requires_token() {
        Some(TokenGateError::InvalidGateConfig)
    } else if ctx.user_token_account.amount < ctx.access_control.minimum_balance {
        Some(TokenGateError::InsufficientTokenBalance)
    } else {
        None
    }
}

/// The verification after the token balance has been accepted.
pub open spec fn verification_after(ctx: VerifyTokenAccess, now: i64) -> AccessVerification {
    AccessVerification {
        user: ctx.user,
        post: ctx.access_control.post,
        verified: match ctx.access_control.gate_type {
            GateType::Token => true,
            GateType::Both => ctx.verification.nft_verified,
            GateType::Nft => ctx.verification.nft_verified,
        },
        token_verified: true,
        nft_verified: ctx.verification.nft_verified,
        verified_at: now,
        expires_at: None,
        bump: ctx.verification_bump,
    }
}

/// The event of an accepted verification. Its kind reads `"token"`.
pub open spec fn is_event_of(event: AccessVerified, ctx: VerifyTokenAccess, now: i64) -> bool {
    &&& event.user == ctx.user
    &&& event.post == ctx.access_control.post
    &&& event.verification_type@ == "token"@
    &&& event.timestamp == now
}

/// Verifies at time `now` that `ctx.user` holds the required token in the
/// required amount. A refused verification changes nothing. An accepted one
/// never expires, and counts as full access unless an NFT is required as
/// well and none has been verified.
pub fn handler(ctx: &mut VerifyTokenAccess, now: i64) -> (r: Result<AccessVerified, TokenGateError>)
    ensures
        rejection(*old(ctx)) matches Some(e) ==> r == Err::<AccessVerified, TokenGateError>(e)
            && *final(ctx) == *old(ctx),
        rejection(*old(ctx)) is None ==> (r matches Ok(event) && is_event_of(event, *old(ctx), now))
            && *final(ctx) == (VerifyTokenAccess {
            verification: verification_after(*old(ctx), now),
            ..*old(ctx)
        }),
        rejection(*old(ctx)) is None ==> final(ctx).verification.satisfies(GateType::Token),
{
    if ctx.user_token_account.owner != ctx.user {
        return Err(TokenGateError::TokenAccountOwnerMismatch);
    }
    match ctx.access_control.required_token {
        Some(mint) => {
            if mint != ctx.user_token_account.mint {
                return Err(TokenGateError::TokenAccountMintMismatch);
            }
        },
        None => {
            return Err(TokenGateError::TokenAccountMintMismatch);
        },
    }
    if !ctx.access_control.requires_token() {
        return Err(TokenGateError::InvalidGateConfig);
    }
    if ctx.user_token_account.amount < ctx.access_control.minimum_balance {
        return Err(TokenGateError::InsufficientTokenBalance);
    }
    let nft_verified = ctx.verification.nft_verified;
    ctx.verification = AccessVerification {
        user: ctx.user,
        post: ctx.access_control.post,
        verified: match ctx.access_control.gate_type {
            GateType::Token => true,
            GateType::Both => nft_verified,
            GateType::Nft => nft_verified,
        },
        token_verified: true,
        nft_verified,
        verified_at: now,
        expires_at: None,
        bump: ctx.verification_bump,
    };
    Ok(
        AccessVerified {
            user: ctx.user,
            post: ctx.access_control.post,
            verification_type: "token".to_string(),
            timestamp: now,
        },
    )
}

} // verus!
