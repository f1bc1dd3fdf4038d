use vstd::prelude::*;
use crate::pubkey::Pubkey;
use crate::token_gate::error::TokenGateError;
use crate::token_gate::events::AccessControlCreated;
use crate::token_gate::state::{AccessControl, GateType};

verus! {

/// What the creation of an access control names.
#[derive(Clone, Copy, Debug, PartialEq, Eq)]
pub struct SetAccessRequirements {
    /// The verified signer, who owns the new access control.
    pub creator: Pubkey,
    /// Bump of the new access control's key.
    pub access_control_bump: u8,
}

/// The access control that is created, of type `gate_type`.
pub open spec fn access_control_of(
    ctx: SetAccessRequirements,
    post: Pubkey,
    required_token: Option<Pubkey>,
    minimum_balance: u64,
    required_nft_collection: Option<Pubkey>,
    gate_type: GateType,
    now: i64,
) -> AccessControl {
    AccessControl {
        post,
        creator: ctx.creator,
        required_token,
        minimum_balance,
        required_nft_collection,
        gate_type,
        created_at: now,
        bump: ctx.access_control_bump,
    }
}

/// The event of an access control's creation.
pub open spec fn event_of(
    ctx: SetAccessRequirements,
    post: Pubkey,
    required_token: Option<Pubkey>,
    minimum_balance: u64,
    required_nft_collection: Option<Pubkey>,
    now: i64,
) -> AccessControlCreated {
    AccessControlCreated {
        post,
        creator: ctx.creator,
        required_token,
        minimum_balance,
        required_nft_collection,
        timestamp: now,
    }
}

/// Creates the access control of `post` at time `now`. It names a token, a
/// collection or both; one that names neither is refused.
pub fn handler(
    ctx: &SetAccessRequirements,
    post: Pubkey,
    required_token: Option<Pubkey>,
    minimum_balance: u64,
    required_nft_collection: Option<Pubkey>,
    now: i64,
) -> (r: Result<(AccessControl, AccessControlCreated), TokenGateError>)
    ensures
        match GateType::spec_for_requirements(
            required_token is Some,
            required_nft_collection is Some,
        ) {
            Some(gate_type) => r == Ok::<(AccessControl, AccessControlCreated), TokenGateError>(
                (
                    access_control_of(
                        *ctx,
                        post,
                        required_token,
                        minimum_balance,
                        required_nft_collection,
                        gate_type,
                        now,
                    ),
                    event_of(
                        *ctx,
                        post,
                        required_token,
                        minimum_balance,
                        required_nft_collection,
                        now,
                    ),
                ),
            ),
            None => r == Err::<(AccessControl, AccessControlCreated), TokenGateError>(
                TokenGateError::InvalidGateConfig,
            ),
        },
{
    let gate_type = match (required_token.is_some(), required_nft_collection.is_some()) {
        (true, true) => GateType::Both,
        (true, false) => GateType::Token,
        (false, true) => GateType::Nft,
        (false, false) => { return Err(TokenGateError::InvalidGateConfig); },
    };
    let access_control = AccessControl {
        post,
        creator: ctx.creator,
        required_token,
        minimum_balance,
        required_nft_collection,
        gate_type,
        created_at: now,
        bump: ctx.access_control_bump,
    };
    let event = AccessControlCreated {
        post,
        creator: access_control.creator,
        required_token,
        minimum_balance,
        required_nft_collection,
        timestamp: now,
    };
    Ok((access_control, event))
}

} // verus!
