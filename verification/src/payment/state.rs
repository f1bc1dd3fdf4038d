use vstd::prelude::*;
use crate::payment::error::PaymentError;
use crate::pubkey::Pubkey;

verus! {

/// The platform's fee policy. One instance serves every settlement.
#[derive(Clone, Copy, Debug, PartialEq, Eq)]
pub struct PlatformConfig {
    /// Identity permitted to change the fee policy.
    pub authority: Pubkey,
    /// Fee rate in basis points: 200 stands for 2%.
    pub fee_basis_points: u16,
    /// Identity that receives every fee.
    pub fee_recipient: Pubkey,
    /// Bump of the record's key.
    pub bump: u8,
}

/// Lifetime earnings and withdrawals of one creator.
#[derive(Clone, Copy, Debug, PartialEq, Eq)]
pub struct CreatorVault {
    pub creator: Pubkey,
    /// Net amount ever credited.
    pub total_earned: u64,
    /// Amount the creator has claimed so far.
    pub withdrawn: u64,
    /// Number of active subscriptions that pay into this vault.
    pub subscribers: u64,
    /// Bump of the record's key.
    pub bump: u8,
}

/// One tip, written once.
#[derive(Clone, Copy, Debug, PartialEq, Eq)]
pub struct TipRecord {
    pub from: Pubkey,
    pub to: Pubkey,
    /// Net amount credited to the creator: the gross amount less the fee.
    pub amount: u64,
    /// The content that was tipped, if any.
    pub post: Option<Pubkey>,
    pub timestamp: i64,
    /// Bump of the record's key.
    pub bump: u8,
}

/// A recurring payment agreement between a subscriber and a creator.
#[derive(Clone, Copy, Debug, PartialEq, Eq)]
pub struct Subscription {
    pub subscriber: Pubkey,
    pub creator: Pubkey,
    /// Charge per renewal period, fixed at creation.
    pub amount_per_month: u64,
    /// Time of the most recent successful charge.
    pub last_payment: i64,
    pub started_at: i64,
    /// False once cancelled.
    pub is_active: bool,
    /// Bump of the record's key.
    pub bump: u8,
}

impl PlatformConfig {
    /// 2%.
    pub const FEE_BASIS_POINTS_DEFAULT: u16 = 200;

    /// The largest admissible rate: the whole amount.
    pub const FEE_BASIS_POINTS_MAX: u16 = 10000;

    /// The rate is at most the whole amount.
    pub open spec fn wf(&self) -> bool {
        self.fee_basis_points <= Self::FEE_BASIS_POINTS_MAX
    }
}

impl Subscription {
    /// The charge is positive, and no payment lies before the start.
    pub open spec fn wf(&self) -> bool {
        self.amount_per_month > 0 && self.started_at <= self.last_payment
    }
}

impl CreatorVault {
    /// No more has been withdrawn than was earned.
    pub open spec fn wf(&self) -> bool {
        self.withdrawn <= self.total_earned
    }

    /// What is left to withdraw.
    pub open spec fn spec_available(&self) -> int {
        self.total_earned - self.withdrawn
    }

    /// This vault after `net_amount` more has been earned.
    pub open spec fn credited(self, net_amount: u64) -> CreatorVault {
        CreatorVault { total_earned: (self.total_earned + net_amount) as u64, ..self }
    }

    /// What keeps `amount` from being withdrawn, if anything.
    pub open spec fn withdrawal_error(self, amount: u64) -> Option<PaymentError> {
        if amount == 0 {
            Some(PaymentError::InvalidAmount)
        } else if !self.wf() {
            Some(PaymentError::ArithmeticOverflow)
        } else if amount > self.spec_available() {
            Some(PaymentError::WithdrawalExceedsBalance)
        } else {
            None
        }
    }

    /// This vault after `amount` more has been withdrawn.
    pub open spec fn debited(self, amount: u64) -> CreatorVault {
        CreatorVault { withdrawn: (self.withdrawn + amount) as u64, ..self }
    }

    /// A fresh vault: nothing earned, nothing withdrawn, no subscriber.
    pub fn new(creator: Pubkey, bump: u8) -> (vault: CreatorVault)
        ensures
            vault == (CreatorVault { creator, total_earned: 0, withdrawn: 0, subscribers: 0, bump }),
            vault.wf(),
    {
        CreatorVault { creator, total_earned: 0, withdrawn: 0, subscribers: 0, bump }
    }

    /// Earned less withdrawn; `ArithmeticOverflow` where the vault holds more
    /// withdrawn than earned.
    pub fn available(&self) -> (r: Result<u64, PaymentError>)
        ensures
            self.wf() ==> r == Ok::<u64, PaymentError>(self.spec_available() as u64),
            !self.wf() ==> r == Err::<u64, PaymentError>(PaymentError::ArithmeticOverflow),
    {
        match self.total_earned.checked_sub(self.withdrawn) {
            Some(left) => Ok(left),
            None => Err(PaymentError::ArithmeticOverflow),
        }
    }

    /// Adds `net_amount` to the lifetime earnings, or leaves the vault as it
    /// is where the sum does not fit.
    pub fn credit(&mut self, net_amount: u64) -> (r: Result<(), PaymentError>)
        ensures
            old(self).total_earned + net_amount <= u64::MAX ==> r is Ok && *final(self) == old(
                self,
            ).credited(net_amount),
            old(self).total_earned + net_amount > u64::MAX ==> r == Err::<(), PaymentError>(
                PaymentError::ArithmeticOverflow,
            ) && *final(self) == *old(self),
            old(self).wf() ==> final(self).wf(),
    {
        match self.total_earned.checked_add(net_amount) {
            Some(total) => {
                self.total_earned = total;
                Ok(())
            },
            None => Err(PaymentError::ArithmeticOverflow),
        }
    }

    /// Marks `amount` of the earnings as withdrawn, or leaves the vault as it
    /// is: where the amount is zero, where the vault holds more withdrawn
    /// than earned, or where less than `amount` is left.
    pub fn withdraw(&mut self, amount: u64) -> (r: Result<(), PaymentError>)
        ensures
            old(self).withdrawal_error(amount) matches Some(e) ==> r == Err::<(), PaymentError>(e)
                && *final(self) == *old(self),
            old(self).withdrawal_error(amount) is None ==> r is Ok && *final(self) == old(
                self,
            ).debited(amount),
            old(self).wf() ==> final(self).wf(),
    {
        if amount == 0 {
            return Err(PaymentError::InvalidAmount);
        }
        let available = self.available()?;
        if amount > available {
            return Err(PaymentError::WithdrawalExceedsBalance);
        }
        self.withdrawn = match self.withdrawn.checked_add(amount) {
            Some(withdrawn) => withdrawn,
            None => { return Err(PaymentError::ArithmeticOverflow); },
        };
        Ok(())
    }
}

} // verus!
