use vstd::prelude::*;
use crate::pubkey::Pubkey;

verus! {

/// What a post can ask of its viewers.
#[derive(Clone, Copy, Debug, PartialEq, Eq, Structural, Hash)]
pub enum GateType {
    Token,
    Nft,
    Both,
}

/// What one post asks of its viewers.
#[derive(Clone, Copy, Debug, PartialEq, Eq)]
pub struct AccessControl {
    pub post: Pubkey,
    pub creator: Pubkey,
    pub required_token: Option<Pubkey>,
    pub minimum_balance: u64,
    pub required_nft_collection: Option<Pubkey>,
    pub gate_type: GateType,
    pub created_at: i64,
    pub bump: u8,
}

/// What has been verified of one user for one post.
#[derive(Clone, Copy, Debug, PartialEq, Eq)]
pub struct AccessVerification {
    pub user: Pubkey,
    pub post: Pubkey,
    /// All that the post asks for has been verified.
    pub verified: bool,
    pub token_verified: bool,
    pub nft_verified: bool,
    pub verified_at: i64,
    /// Time from which the verification no longer counts, if any.
    pub expires_at: Option<i64>,
    pub bump: u8,
}

/// A holding of tokens, as far as access control reads it.
#[derive(Clone, Copy, Debug, PartialEq, Eq)]
pub struct TokenAccount {
    pub mint: Pubkey,
    pub owner: Pubkey,
    pub amount: u64,
}

impl GateType {
    /// The kind of gate for a choice of requirements; none where nothing is
    /// required.
    pub open spec fn spec_for_requirements(token: bool, nft: bool) -> Option<GateType> {
        if token && nft {
            Some(GateType::Both)
        } else if token {
            Some(GateType::Token)
        } else if nft {
            Some(GateType::Nft)
        } else {
            None
        }
    }
}

impl AccessControl {
    pub open spec fn spec_requires_token(&self) -> bool {
        self.gate_type == GateType::Token || self.gate_type == GateType::Both
    }

    pub open spec fn spec_requires_nft(&self) -> bool {
        self.gate_type == GateType::Nft || self.gate_type == GateType::Both
    }

    /// A token balance is asked for.
    #[verifier::when_used_as_spec(spec_requires_token)]
    pub fn requires_token(&self) -> (r: bool)
        ensures
            r == self.spec_requires_token(),
    {
        matches!(self.gate_type, GateType::Token | GateType::Both)
    }

    /// An NFT is asked for.
    #[verifier::when_used_as_spec(spec_requires_nft)]
    pub fn requires_nft(&self) -> (r: bool)
        ensures
            r == self.spec_requires_nft(),
    {
        matches!(self.gate_type, GateType::Nft | GateType::Both)
    }
}

impl AccessVerification {
    /// What a gate of type `gate_type` asks for has been verified.
    pub open spec fn satisfies(&self, gate_type: GateType) -> bool {
        match gate_type {
            GateType::Token => self.token_verified,
            GateType::Nft => self.nft_verified,
            GateType::Both => self.token_verified && self.nft_verified,
        }
    }
}

} // verus!
