use vstd::prelude::*;
use crate::payment::error::PaymentError;
use crate::payment::events::VaultInitialized;
use crate::payment::state::CreatorVault;
use crate::pubkey::Pubkey;

verus! {

/// What the creation of a vault names.
#[derive(Clone, Copy, Debug, PartialEq, Eq)]
pub struct InitializeVault {
    /// Key under which the new vault is kept.
    pub vault: Pubkey,
    /// The verified signer, who owns the new vault.
    pub creator: Pubkey,
    /// Bump of the vault's key.
    pub vault_bump: u8,
}

/// The vault that is created: empty, and owned by `ctx.creator`.
pub open spec fn vault_of(ctx: InitializeVault) -> CreatorVault {
    CreatorVault {
        creator: ctx.creator,
        total_earned: 0,
        withdrawn: 0,
        subscribers: 0,
        bump: ctx.vault_bump,
    }
}

/// The event of a vault's creation.
pub open spec fn event_of(ctx: InitializeVault, now: i64) -> VaultInitialized {
    VaultInitialized { creator: ctx.creator, vault: ctx.vault, timestamp: now }
}

/// Creates the vault of `ctx.creator` at time `now`. That no vault exists
/// for this creator yet is for the store to see to.
pub fn handler(ctx: &InitializeVault, now: i64) -> (r: Result<
    (CreatorVault, VaultInitialized),
    PaymentError,
>)
    ensures
        r == Ok::<(CreatorVault, VaultInitialized), PaymentError>(
            (vault_of(*ctx), event_of(*ctx, now)),
        ),
        vault_of(*ctx).wf(),
{
    let vault = CreatorVault::new(ctx.creator, ctx.vault_bump);
    let event = VaultInitialized { creator: vault.creator, vault: ctx.vault, timestamp: now };
    Ok((vault, event))
}

} // verus!
