//! What holds of verifications and of access, whatever the operations are
//! called with.

use vstd::prelude::*;
use crate::token_gate::error::TokenGateError;
use crate::token_gate::instructions::check_access;
use crate::token_gate::instructions::check_access::CheckAccess;
use crate::token_gate::instructions::verify_nft_access;
use crate::token_gate::instructions::verify_nft_access::VerifyNftAccess;
use crate::token_gate::instructions::verify_token_access;
use crate::token_gate::instructions::verify_token_access::VerifyTokenAccess;
use crate::token_gate::state::GateType;

verus! {

/// Access is granted only on the user's own verification of this post, and
/// only where every kind that is asked for has been verified: both of them
/// where both are asked for.
pub proof fn access_needs_every_required_kind(ctx: CheckAccess, now: i64)
    requires
        check_access::rejection(ctx, now) is None,
    ensures
        ctx.verification.user == ctx.user,
        ctx.verification.post == ctx.access_control.post,
        ctx.access_control.spec_requires_token() ==> ctx.verification.token_verified,
        ctx.access_control.spec_requires_nft() ==> ctx.verification.nft_verified,
        ctx.verification.expires_at matches Some(expires_at) ==> now < expires_at,
{
}

/// After an accepted verification of a token balance, the flag `verified`
/// says exactly whether all that is asked for has been verified.
pub proof fn token_verification_sets_the_flag_truthfully(ctx: VerifyTokenAccess, now: i64)
    requires
        verify_token_access::rejection(ctx) is None,
    ensures
        verify_token_access::verification_after(ctx, now).verified
            == verify_token_access::verification_after(ctx, now).satisfies(
            ctx.access_control.gate_type,
        ),
        verify_token_access::verification_after(ctx, now).nft_verified
            == ctx.verification.nft_verified,
{
}

/// After an accepted verification of an NFT, the flag `verified` says
/// exactly whether all that is asked for has been verified.
pub proof fn nft_verification_sets_the_flag_truthfully(ctx: VerifyNftAccess, now: i64)
    requires
        verify_nft_access::rejection(ctx) is None,
    ensures
        verify_nft_access::verification_after(ctx, now).verified
            == verify_nft_access::verification_after(ctx, now).satisfies(
            ctx.access_control.gate_type,
        ),
        verify_nft_access::verification_after(ctx, now).token_verified
            == ctx.verification.token_verified,
{
}

/// Where only a token balance is asked for, an accepted verification of it
/// opens the post to the user from then on, at any time.
pub proof fn token_verification_opens_a_token_post(ctx: VerifyTokenAccess, now: i64, later: i64)
    requires
        verify_token_access::rejection(ctx) is None,
        ctx.access_control.gate_type == GateType::Token,
    ensures
        check_access::rejection(
            CheckAccess {
                access_control: ctx.access_control,
                verification: verify_token_access::verification_after(ctx, now),
                user: ctx.user,
            },
            later,
        ) is None,
{
}

/// Where only an NFT is asked for, an accepted verification of it opens the
/// post to the user from then on, at any time.
pub proof fn nft_verification_opens_an_nft_post(ctx: VerifyNftAccess, now: i64, later: i64)
    requires
        verify_nft_access::rejection(ctx) is None,
        ctx.access_control.gate_type == GateType::Nft,
    ensures
        check_access::rejection(
            CheckAccess {
                access_control: ctx.access_control,
                verification: verify_nft_access::verification_after(ctx, now),
                user: ctx.user,
            },
            later,
        ) is None,
{
}

/// Where both kinds are asked for, one accepted verification alone leaves
/// the post closed, whichever kind it is; the two together open it, in
/// either order.
pub proof fn a_post_for_both_kinds_opens_after_both(
    token: VerifyTokenAccess,
    nft: VerifyNftAccess,
    now: i64,
    later: i64,
)
    requires
        token.access_control.gate_type == GateType::Both,
        nft.access_control == token.access_control,
        nft.user == token.user,
        verify_token_access::rejection(token) is None,
        verify_nft_access::rejection(nft) is None,
    ensures
        !token.verification.nft_verified ==> check_access::rejection(
            CheckAccess {
                access_control: token.access_control,
                verification: verify_token_access::verification_after(token, now),
                user: token.user,
            },
            later,
        ) == Some(TokenGateError::NotVerified),
        !nft.verification.token_verified ==> check_access::rejection(
            CheckAccess {
                access_control: nft.access_control,
                verification: verify_nft_access::verification_after(nft, now),
                user: nft.user,
            },
            later,
        ) == Some(TokenGateError::NotVerified),
        nft.verification == verify_token_access::verification_after(token, now)
            ==> check_access::rejection(
            CheckAccess {
                access_control: nft.access_control,
                verification: verify_nft_access::verification_after(nft, later),
                user: nft.user,
            },
            later,
        ) is None,
        token.verification == verify_nft_access::verification_after(nft, now)
            ==> check_access::rejection(
            CheckAccess {
                access_control: token.access_control,
                verification: verify_token_access::verification_after(token, later),
                user: token.user,
            },
            later,
        ) is None,
{
}

} // verus!
