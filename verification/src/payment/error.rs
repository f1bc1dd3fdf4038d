use vstd::prelude::*;

verus! {

/// Why a payment operation was refused.
#[derive(Clone, Copy, Debug, PartialEq, Eq, Structural, Hash)]
pub enum PaymentError {
    /// The payer cannot cover the operation. The transfers are made outside
    /// this library, so none of its operations gives this reason.
    InsufficientFunds,
    /// A charge or withdrawal of zero was requested.
    InvalidAmount,
    /// The subscription has been cancelled.
    SubscriptionNotActive,
    /// The renewal period has not elapsed since the last charge.
    PaymentNotDue,
    /// The tipper is the vault's own creator.
    CannotTipSelf,
    /// The subscriber is the vault's own creator.
    CannotSubscribeToSelf,
    /// A subscription between the two parties exists already. The records are
    /// kept outside this library, so none of its operations gives this
    /// reason.
    AlreadySubscribed,
    /// The acting identity is not the one the record names.
    Unauthorized,
    /// The fee rate is above 10000 basis points.
    InvalidFeeBasisPoints,
    /// The withdrawal is larger than what is left of the earnings.
    WithdrawalExceedsBalance,
    /// A checked arithmetic step left the 64-bit range.
    ArithmeticOverflow,
    /// A creator identity does not match the vault's recorded creator.
    InvalidCreatorAccount,
}

impl PaymentError {
    /// The text of `message`.
    pub open spec fn spec_message(self) -> Seq<char> {
        match self {
            PaymentError::InsufficientFunds => "Insufficient funds for this operation"@,
            PaymentError::InvalidAmount => "Amount must be greater than zero"@,
            PaymentError::SubscriptionNotActive => "Subscription is not active"@,
            PaymentError::PaymentNotDue => "Subscription payment not yet due"@,
            PaymentError::CannotTipSelf => "Cannot tip yourself"@,
            PaymentError::CannotSubscribeToSelf => "Cannot subscribe to yourself"@,
            PaymentError::AlreadySubscribed => "Already subscribed to this creator"@,
            PaymentError::Unauthorized => "Unauthorized action"@,
            PaymentError::InvalidFeeBasisPoints => "Fee basis points cannot exceed 10000 (100%)"@,
            PaymentError::WithdrawalExceedsBalance => "Withdrawal amount exceeds available balance"@,
            PaymentError::ArithmeticOverflow => "Arithmetic overflow"@,
            PaymentError::InvalidCreatorAccount => "Invalid creator account - does not match vault owner"@,
        }
    }

    /// What to tell the user.
    pub fn message(&self) -> (text: &'static str)
        ensures
            text@ == self.spec_message(),
    {
        match self {
            PaymentError::InsufficientFunds => "Insufficient funds for this operation",
            PaymentError::InvalidAmount => "Amount must be greater than zero",
            PaymentError::SubscriptionNotActive => "Subscription is not active",
            PaymentError::PaymentNotDue => "Subscription payment not yet due",
            PaymentError::CannotTipSelf => "Cannot tip yourself",
            PaymentError::CannotSubscribeToSelf => "Cannot subscribe to yourself",
            PaymentError::AlreadySubscribed => "Already subscribed to this creator",
            PaymentError::Unauthorized => "Unauthorized action",
            PaymentError::InvalidFeeBasisPoints => "Fee basis points cannot exceed 10000 (100%)",
            PaymentError::WithdrawalExceedsBalance => "Withdrawal amount exceeds available balance",
            PaymentError::ArithmeticOverflow => "Arithmetic overflow",
            PaymentError::InvalidCreatorAccount => "Invalid creator account - does not match vault owner",
        }
    }
}

} // verus!
