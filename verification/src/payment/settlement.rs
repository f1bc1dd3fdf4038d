use vstd::prelude::*;
use crate::payment::error::PaymentError;
use crate::payment::state::{CreatorVault, PlatformConfig};
use crate::pubkey::Pubkey;

verus! {

/// Basis points in the whole amount.
pub const BASIS_POINTS: u64 = 10000;

/// The fee on `amount` at `rate_bps` basis points, rounded down.
pub open spec fn fee_of(amount: int, rate_bps: int) -> int {
    amount * rate_bps / 10000
}

/// The creator's share of `amount` at `rate_bps` basis points.
pub open spec fn net_of(amount: int, rate_bps: int) -> int {
    amount - fee_of(amount, rate_bps)
}

/// The split cannot be made in 64 bits: the product of amount and rate does
/// not fit, or the fee is more than the amount. The second happens only at
/// rates above 10000 basis points.
pub open spec fn fee_overflows(amount: int, rate_bps: int) -> bool {
    amount * rate_bps > u64::MAX || fee_of(amount, rate_bps) > amount
}

/// Splits `amount` into the platform's fee and the creator's net share, in
/// this order. Fails with `ArithmeticOverflow` where the split cannot be made
/// in 64 bits, and never wraps around.
pub fn compute_fee(amount: u64, rate_bps: u16) -> (r: Result<(u64, u64), PaymentError>)
    ensures
        fee_overflows(amount as int, rate_bps as int) ==> r == Err::<(u64, u64), PaymentError>(
            PaymentError::ArithmeticOverflow,
        ),
        !fee_overflows(amount as int, rate_bps as int) ==> r == Ok::<(u64, u64), PaymentError>(
            (
                fee_of(amount as int, rate_bps as int) as u64,
                net_of(amount as int, rate_bps as int) as u64,
            ),
        ),
        r matches Ok((fee, net)) ==> fee + net == amount && fee <= amount,
{
    let product = match amount.checked_mul(rate_bps as u64) {
        Some(product) => product,
        None => { return Err(PaymentError::ArithmeticOverflow); },
    };
    let fee = match product.checked_div(BASIS_POINTS) {
        Some(fee) => fee,
        None => { return Err(PaymentError::ArithmeticOverflow); },
    };
    match amount.checked_sub(fee) {
        Some(net) => Ok((fee, net)),
        None => Err(PaymentError::ArithmeticOverflow),
    }
}

/// A movement of value that the caller has to carry out.
#[derive(Clone, Copy, Debug, PartialEq, Eq)]
pub struct Transfer {
    pub from: Pubkey,
    pub to: Pubkey,
    pub amount: u64,
}

/// The transfers that one charge calls for: first the fee, where there is
/// one, then the creator's share.
#[derive(Clone, Copy, Debug, PartialEq, Eq)]
pub struct Settlement {
    /// From the payer to the platform's fee recipient; absent where the fee
    /// is zero.
    pub fee_transfer: Option<Transfer>,
    /// From the payer to the vault's creator.
    pub creator_transfer: Transfer,
}

impl Settlement {
    /// The fee that this settlement moves.
    pub open spec fn spec_fee(&self) -> u64 {
        match self.fee_transfer {
            Some(transfer) => transfer.amount,
            None => 0,
        }
    }

    /// The net amount that this settlement moves to the creator.
    pub open spec fn spec_net(&self) -> u64 {
        self.creator_transfer.amount
    }

    /// The fee that this settlement moves: zero where it asks for no fee
    /// transfer.
    #[verifier::when_used_as_spec(spec_fee)]
    pub fn fee(&self) -> (fee: u64)
        ensures
            fee == self.spec_fee(),
    {
        match self.fee_transfer {
            Some(transfer) => transfer.amount,
            None => 0,
        }
    }

    /// The net amount that this settlement moves to the creator.
    #[verifier::when_used_as_spec(spec_net)]
    pub fn net(&self) -> (net: u64)
        ensures
            net == self.spec_net(),
    {
        self.creator_transfer.amount
    }
}

/// The settlement of a charge of `amount` that `payer` owes to the creator of
/// `vault`: the fee goes to the recipient that `config` names, the rest to
/// the creator that `vault` names.
pub open spec fn settlement_of(
    config: PlatformConfig,
    vault: CreatorVault,
    payer: Pubkey,
    amount: u64,
) -> Settlement {
    let fee = fee_of(amount as int, config.fee_basis_points as int) as u64;
    let net = net_of(amount as int, config.fee_basis_points as int) as u64;
    Settlement {
        fee_transfer: if fee > 0 {
            Some(Transfer { from: payer, to: config.fee_recipient, amount: fee })
        } else {
            None
        },
        creator_transfer: Transfer { from: payer, to: vault.creator, amount: net },
    }
}

/// A charge of `amount` cannot be settled: the fee split or the vault's new
/// total leaves the 64-bit range.
pub open spec fn charge_overflows(config: PlatformConfig, vault: CreatorVault, amount: u64) -> bool {
    fee_overflows(amount as int, config.fee_basis_points as int) || vault.total_earned + net_of(
        amount as int,
        config.fee_basis_points as int,
    ) > u64::MAX
}

/// The vault after a charge of `amount` has been settled.
pub open spec fn charged(config: PlatformConfig, vault: CreatorVault, amount: u64) -> CreatorVault {
    vault.credited(net_of(amount as int, config.fee_basis_points as int) as u64)
}

/// Settles a charge of `amount` from `payer`: splits it by the platform's
/// rate, credits the net share to `vault` and says which transfers to make.
/// Where a step overflows, nothing changes.
pub fn charge(config: &PlatformConfig, vault: &mut CreatorVault, payer: Pubkey, amount: u64) -> (r:
    Result<Settlement, PaymentError>)
    ensures
        charge_overflows(*config, *old(vault), amount) ==> r == Err::<Settlement, PaymentError>(
            PaymentError::ArithmeticOverflow,
        ) && *final(vault) == *old(vault),
        !charge_overflows(*config, *old(vault), amount) ==> r == Ok::<Settlement, PaymentError>(
            settlement_of(*config, *old(vault), payer, amount),
        ) && *final(vault) == charged(*config, *old(vault), amount),
        old(vault).wf() ==> final(vault).wf(),
{
    let (fee, net) = compute_fee(amount, config.fee_basis_points)?;
    vault.credit(net)?;
    let fee_transfer = if fee > 0 {
        Some(Transfer { from: payer, to: config.fee_recipient, amount: fee })
    } else {
        None
    };
    let creator_transfer = Transfer { from: payer, to: vault.creator, amount: net };
    Ok(Settlement { fee_transfer, creator_transfer })
}

} // verus!
