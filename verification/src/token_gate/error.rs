use vstd::prelude::*;

verus! {

/// Why an access operation was refused.
#[derive(Clone, Copy, Debug, PartialEq, Eq, Structural, Hash)]
pub enum TokenGateError {
    InsufficientTokenBalance,
    NftNotOwned,
    InvalidNftCollection,
    AlreadyVerified,
    VerificationExpired,
    NotVerified,
    /// The acting identity is not the one the record names.
    Unauthorized,
    /// Neither a token nor a collection is required, or not the kind that
    /// the operation verifies.
    InvalidGateConfig,
    TokenMintRequired,
    NftCollectionRequired,
    TokenAccountOwnerMismatch,
    TokenAccountMintMismatch,
}

impl TokenGateError {
    /// The text of `message`.
    pub open spec fn spec_message(self) -> Seq<char> {
        match self {
            TokenGateError::InsufficientTokenBalance => "Insufficient token balance for access"@,
            TokenGateError::NftNotOwned => "User does not own required NFT"@,
            TokenGateError::InvalidNftCollection => "Invalid NFT collection"@,
            TokenGateError::AlreadyVerified => "Access already verified"@,
            TokenGateError::VerificationExpired => "Access verification expired"@,
            TokenGateError::NotVerified => "Access not verified"@,
            TokenGateError::Unauthorized => "Unauthorized action"@,
            TokenGateError::InvalidGateConfig => "Invalid gate configuration - must specify at least one requirement"@,
            TokenGateError::TokenMintRequired => "Required token mint not specified"@,
            TokenGateError::NftCollectionRequired => "Required NFT collection not specified"@,
            TokenGateError::TokenAccountOwnerMismatch => "Token account owner mismatch"@,
            TokenGateError::TokenAccountMintMismatch => "Token account mint mismatch"@,
        }
    }

    /// What to tell the user.
    pub fn message(&self) -> (text: &'static str)
        ensures
            text@ == self.spec_message(),
    {
        match self {
            TokenGateError::InsufficientTokenBalance => "Insufficient token balance for access",
            TokenGateError::NftNotOwned => "User does not own required NFT",
            TokenGateError::InvalidNftCollection => "Invalid NFT collection",
            TokenGateError::AlreadyVerified => "Access already verified",
            TokenGateError::VerificationExpired => "Access verification expired",
            TokenGateError::NotVerified => "Access not verified",
            TokenGateError::Unauthorized => "Unauthorized action",
            TokenGateError::InvalidGateConfig => "Invalid gate configuration - must specify at least one requirement",
            TokenGateError::TokenMintRequired => "Required token mint not specified",
            TokenGateError::NftCollectionRequired => "Required NFT collection not specified",
            TokenGateError::TokenAccountOwnerMismatch => "Token account owner mismatch",
            TokenGateError::TokenAccountMintMismatch => "Token account mint mismatch",
        }
    }
}

} // verus!
