use vstd::prelude::*;
use crate::payment::error::PaymentError;
use crate::payment::events::Withdrawal;
use crate::payment::state::CreatorVault;
use crate::pubkey::Pubkey;

verus! {

/// What a withdrawal names.
#[derive(Clone, Copy, Debug, PartialEq, Eq)]
pub struct Withdraw {
    pub vault: CreatorVault,
    /// The verified signer.
    pub creator: Pubkey,
}

/// The first reason to refuse a withdrawal of `amount`, if there is one: the
/// signer is not the vault's creator; the amount is zero; the vault holds
/// more withdrawn than earned; less than `amount` is left.
pub open spec fn rejection(ctx: Withdraw, amount: u64) -> Option<PaymentError> {
    if ctx.vault.creator != ctx.creator {
        Some(PaymentError::Unauthorized)
    } else {
        ctx.vault.withdrawal_error(amount)
    }
}

/// What an accepted withdrawal leaves behind: `amount` more withdrawn.
pub open spec fn accounts_after(ctx: Withdraw, amount: u64) -> Withdraw {
    Withdraw { vault: ctx.vault.debited(amount), ..ctx }
}

/// The event of an accepted withdrawal.
pub open spec fn event_of(ctx: Withdraw, amount: u64, now: i64) -> Withdrawal {
    Withdrawal { creator: ctx.vault.creator, amount, timestamp: now }
}

/// Marks `amount` of the vault's earnings as claimed. No value moves: what
/// was earned reached the creator when it was paid.
pub fn handler(ctx: &mut Withdraw, amount: u64, now: i64) -> (r: Result<Withdrawal, PaymentError>)
    ensures
        rejection(*old(ctx), amount) matches Some(e) ==> r == Err::<Withdrawal, PaymentError>(e)
            && *final(ctx) == *old(ctx),
        rejection(*old(ctx), amount) is None ==> r == Ok::<Withdrawal, PaymentError>(
            event_of(*old(ctx), amount, now),
        ) && *final(ctx) == accounts_after(*old(ctx), amount),
        old(ctx).vault.wf() ==> final(ctx).vault.wf(),
{
    if ctx.vault.creator != ctx.creator {
        return Err(PaymentError::Unauthorized);
    }
    ctx.vault.withdraw(amount)?;
    Ok(Withdrawal { creator: ctx.vault.creator, amount, timestamp: now })
}

} // verus!
