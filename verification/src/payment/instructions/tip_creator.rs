use vstd::prelude::*;
use crate::payment::error::PaymentError;
use crate::payment::events::TipSent;
use crate::payment::settlement::{charge, charge_overflows, charged, fee_of, net_of, settlement_of, Settlement};
use crate::payment::state::{CreatorVault, PlatformConfig, TipRecord};
use crate::pubkey::Pubkey;

verus! {

/// What a tip names.
///
/// The fee's destination is not among the fields: it is always the recipient
/// that `config` records.
#[derive(Clone, Copy, Debug, PartialEq, Eq)]
pub struct TipCreator {
    pub config: PlatformConfig,
    /// The vault that is credited.
    pub creator_vault: CreatorVault,
    /// The verified signer, who pays.
    pub tipper: Pubkey,
    /// The identity that the caller wants the net amount sent to.
    pub creator: Pubkey,
    /// Bump of the tip record's key.
    pub tip_record_bump: u8,
}

/// The first reason to refuse a tip of `amount`, if there is one: the
/// destination is not the vault's creator; the amount is zero; the tipper is
/// the vault's creator; the fee split or the vault's new total overflows.
pub open spec fn rejection(ctx: TipCreator, amount: u64) -> Option<PaymentError> {
    if ctx.creator != ctx.creator_vault.creator {
        Some(PaymentError::InvalidCreatorAccount)
    } else if amount == 0 {
        Some(PaymentError::InvalidAmount)
    } else if ctx.tipper == ctx.creator_vault.creator {
        Some(PaymentError::CannotTipSelf)
    } else if charge_overflows(ctx.config, ctx.creator_vault, amount) {
        Some(PaymentError::ArithmeticOverflow)
    } else {
        None
    }
}

/// What an accepted tip leaves behind: the vault credited with the net amount.
pub open spec fn accounts_after(ctx: TipCreator, amount: u64) -> TipCreator {
    TipCreator { creator_vault: charged(ctx.config, ctx.creator_vault, amount), ..ctx }
}

/// The record of an accepted tip. It holds the net amount.
pub open spec fn record_of(ctx: TipCreator, amount: u64, post: Option<Pubkey>, now: i64) -> TipRecord {
    TipRecord {
        from: ctx.tipper,
        to: ctx.creator_vault.creator,
        amount: net_of(amount as int, ctx.config.fee_basis_points as int) as u64,
        post,
        timestamp: now,
        bump: ctx.tip_record_bump,
    }
}

/// The event of an accepted tip. It holds the gross amount and the fee.
pub open spec fn event_of(ctx: TipCreator, amount: u64, post: Option<Pubkey>, now: i64) -> TipSent {
    TipSent {
        from: ctx.tipper,
        to: ctx.creator_vault.creator,
        amount,
        fee: fee_of(amount as int, ctx.config.fee_basis_points as int) as u64,
        post,
        timestamp: now,
    }
}

/// Tips the creator of `ctx.creator_vault` with `amount` at time `now`.
///
/// A refused tip changes nothing and asks for no transfer. An accepted one
/// credits the vault with the net amount and returns the transfers to make,
/// the tip's record and its event. The tip's index among the tipper's tips
/// is part of the record's key and of nothing else.
pub fn handler(ctx: &mut TipCreator, amount: u64, post: Option<Pubkey>, _tip_index: u64, now: i64) -> (r:
    Result<(Settlement, TipRecord, TipSent), PaymentError>)
    ensures
        rejection(*old(ctx), amount) matches Some(e) ==> r == Err::<
            (Settlement, TipRecord, TipSent),
            PaymentError,
        >(e) && *final(ctx) == *old(ctx),
        rejection(*old(ctx), amount) is None ==> r == Ok::<
            (Settlement, TipRecord, TipSent),
            PaymentError,
        >(
            (
                settlement_of(old(ctx).config, old(ctx).creator_vault, old(ctx).tipper, amount),
                record_of(*old(ctx), amount, post, now),
                event_of(*old(ctx), amount, post, now),
            ),
        ) && *final(ctx) == accounts_after(*old(ctx), amount),
        old(ctx).creator_vault.wf() ==> final(ctx).creator_vault.wf(),
{
    if ctx.creator != ctx.creator_vault.creator {
        return Err(PaymentError::InvalidCreatorAccount);
    }
    if amount == 0 {
        return Err(PaymentError::InvalidAmount);
    }
    if ctx.tipper == ctx.creator_vault.creator {
        return Err(PaymentError::CannotTipSelf);
    }
    let settlement = charge(&ctx.config, &mut ctx.creator_vault, ctx.tipper, amount)?;
    let record = TipRecord {
        from: ctx.tipper,
        to: ctx.creator_vault.creator,
        amount: settlement.net(),
        post,
        timestamp: now,
        bump: ctx.tip_record_bump,
    };
    let event = TipSent {
        from: ctx.tipper,
        to: ctx.creator_vault.creator,
        amount,
        fee: settlement.fee(),
        post,
        timestamp: now,
    };
    Ok((settlement, record, event))
}

} // verus!
