//! Access to posts that is gated by holdings of a token or of an NFT.

pub mod error;
pub mod events;
pub mod instructions;
pub mod laws;
pub mod state;

pub use instructions::check_access::handler as check_access;
pub use instructions::set_access_requirements::handler as set_access_requirements;
pub use instructions::verify_nft_access::handler as verify_nft_access;
pub use instructions::verify_token_access::handler as verify_token_access;
