use vstd::prelude::*;
use crate::payment::error::PaymentError;
use crate::payment::events::PlatformConfigUpdated;
use crate::payment::state::PlatformConfig;
use crate::pubkey::Pubkey;

verus! {

/// What the creation of the platform's configuration names.
#[derive(Clone, Copy, Debug, PartialEq, Eq)]
pub struct InitializePlatform {
    /// The verified signer, who may change the fee policy from now on.
    pub authority: Pubkey,
    /// The identity that is to receive the fees.
    pub fee_recipient: Pubkey,
    /// Bump of the configuration's key.
    pub config_bump: u8,
}

/// The configuration that is created.
pub open spec fn config_of(ctx: InitializePlatform, fee_basis_points: u16) -> PlatformConfig {
    PlatformConfig {
        authority: ctx.authority,
        fee_basis_points,
        fee_recipient: ctx.fee_recipient,
        bump: ctx.config_bump,
    }
}

/// The event of the configuration's creation.
pub open spec fn event_of(ctx: InitializePlatform, fee_basis_points: u16, now: i64) -> PlatformConfigUpdated {
    PlatformConfigUpdated { authority: ctx.authority, fee_basis_points, timestamp: now }
}

/// Creates the platform's configuration at time `now`, with a rate of at
/// most 10000 basis points. That there is no configuration yet is for the
/// store to see to.
pub fn handler(ctx: &InitializePlatform, fee_basis_points: u16, now: i64) -> (r: Result<
    (PlatformConfig, PlatformConfigUpdated),
    PaymentError,
>)
    ensures
        fee_basis_points > 10000 ==> r == Err::<(PlatformConfig, PlatformConfigUpdated), PaymentError>(
            PaymentError::InvalidFeeBasisPoints,
        ),
        fee_basis_points <= 10000 ==> r == Ok::<(PlatformConfig, PlatformConfigUpdated), PaymentError>(
            (config_of(*ctx, fee_basis_points), event_of(*ctx, fee_basis_points, now)),
        ) && config_of(*ctx, fee_basis_points).wf(),
{
    if fee_basis_points > PlatformConfig::FEE_BASIS_POINTS_MAX {
        return Err(PaymentError::InvalidFeeBasisPoints);
    }
    let config = PlatformConfig {
        authority: ctx.authority,
        fee_basis_points,
        fee_recipient: ctx.fee_recipient,
        bump: ctx.config_bump,
    };
    let event = PlatformConfigUpdated { authority: config.authority, fee_basis_points, timestamp: now };
    Ok((config, event))
}

} // verus!
