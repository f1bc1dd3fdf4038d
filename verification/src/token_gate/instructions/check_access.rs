use vstd::prelude::*;
use crate::pubkey::Pubkey;
use crate::token_gate::error::TokenGateError;
use crate::token_gate::state::{AccessControl, AccessVerification, GateType};

verus! {

/// What a check of access names.
#[derive(Clone, Copy, Debug, PartialEq, Eq)]
pub struct CheckAccess {
    pub access_control: AccessControl,
    pub verification: AccessVerification,
    /// The verified signer.
    pub user: Pubkey,
}

/// The first reason to refuse access at `now`, if there is one.
pub open spec fn rejection(ctx: CheckAccess, now: i64) -> Option<TokenGateError> {
    if ctx.verification.user != ctx.user {
        Some(TokenGateError::Unauthorized)
    } else if ctx.verification.post != ctx.access_control.post || !ctx.verification.satisfies(
        ctx.access_control.gate_type,
    ) {
        Some(TokenGateError::NotVerified)
    } else if ctx.verification.expires_at matches Some(expires_at) && now >= expires_at {
        Some(TokenGateError::VerificationExpired)
    } else {
        None
    }
}

/// Tells whether `ctx.user` may see the gated post at time `now`. The answer
/// is never `Ok(false)`: access is granted, or refused with a reason. Where
/// both kinds are required, both have to have been verified.
pub fn handler(ctx: &CheckAccess, now: i64) -> (r: Result<bool, TokenGateError>)
    ensures
        rejection(*ctx, now) matches Some(e) ==> r == Err::<bool, TokenGateError>(e),
        rejection(*ctx, now) is None ==> r == Ok::<bool, TokenGateError>(true),
{
    if ctx.verification.user != ctx.user {
        return Err(TokenGateError::Unauthorized);
    }
    if ctx.verification.post != ctx.access_control.post {
        return Err(TokenGateError::NotVerified);
    }
    match ctx.access_control.gate_type {
        GateType::Token => {
            if !ctx.verification.token_verified {
                return Err(TokenGateError::NotVerified);
            }
        },
        GateType::Nft => {
            if !ctx.verification.nft_verified {
                return Err(TokenGateError::NotVerified);
            }
        },
        GateType::Both => {
            if !ctx.verification.token_verified {
                return Err(TokenGateError::NotVerified);
            }
            if !ctx.verification.nft_verified {
                return Err(TokenGateError::NotVerified);
            }
        },
    }
    if let Some(expires_at) = ctx.verification.expires_at {
        if now >= expires_at {
            return Err(TokenGateError::VerificationExpired);
        }
    }
    Ok(true)
}

} // verus!
