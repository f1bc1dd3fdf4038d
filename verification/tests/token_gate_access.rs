use solshare::pubkey::Pubkey;
use solshare::token_gate::error::TokenGateError;
use solshare::token_gate::events::{AccessControlCreated, AccessVerified};
use solshare::token_gate::instructions::check_access;
use solshare::token_gate::instructions::check_access::CheckAccess;
use solshare::token_gate::instructions::set_access_requirements;
use solshare::token_gate::instructions::set_access_requirements::SetAccessRequirements;
use solshare::token_gate::instructions::verify_nft_access;
use solshare::token_gate::instructions::verify_nft_access::VerifyNftAccess;
use solshare::token_gate::instructions::verify_token_access;
use solshare::token_gate::instructions::verify_token_access::VerifyTokenAccess;
use solshare::token_gate::state::{AccessControl, AccessVerification, GateType, TokenAccount};

const T2: i64 = 1_710_000_000;

fn pk(n: u8) -> Pubkey {
    Pubkey::new_from_array([n; 32])
}

fn post() -> Pubkey {
    pk(30)
}

fn token() -> Pubkey {
    pk(40)
}

fn collection() -> Pubkey {
    pk(41)
}

fn user() -> Pubkey {
    pk(2)
}

fn gate(gate_type: GateType) -> AccessControl {
    AccessControl {
        post: post(),
        creator: pk(1),
        required_token: match gate_type {
            GateType::Nft => None,
            _ => Some(token()),
        },
        minimum_balance: 100,
        required_nft_collection: match gate_type {
            GateType::Token => None,
            _ => Some(collection()),
        },
        gate_type,
        created_at: T2,
        bump: 210,
    }
}

fn unset() -> AccessVerification {
    AccessVerification {
        user: Pubkey::new_from_array([0; 32]),
        post: Pubkey::new_from_array([0; 32]),
        verified: false,
        token_verified: false,
        nft_verified: false,
        verified_at: 0,
        expires_at: None,
        bump: 0,
    }
}

fn verification(verified: bool, token_verified: bool, nft_verified: bool) -> AccessVerification {
    AccessVerification {
        user: user(),
        post: post(),
        verified,
        token_verified,
        nft_verified,
        verified_at: T2,
        expires_at: None,
        bump: 211,
    }
}

fn token_ctx(gate_type: GateType, verification: AccessVerification, amount: u64) -> VerifyTokenAccess {
    VerifyTokenAccess {
        access_control: gate(gate_type),
        verification,
        user_token_account: TokenAccount { mint: token(), owner: user(), amount },
        user: user(),
        verification_bump: 211,
    }
}

fn nft_ctx(gate_type: GateType, verification: AccessVerification, amount: u64) -> VerifyNftAccess {
    VerifyNftAccess {
        access_control: gate(gate_type),
        verification,
        nft_token_account: TokenAccount { mint: pk(50), owner: user(), amount },
        nft_mint: pk(50),
        user: user(),
        verification_bump: 211,
    }
}

#[test]
fn gate_type_follows_the_requirements() {
    let ctx = SetAccessRequirements { creator: pk(1), access_control_bump: 210 };
    let (both, event) =
        set_access_requirements::handler(&ctx, post(), Some(token()), 100, Some(collection()), T2).unwrap();
    assert_eq!(both, gate(GateType::Both));
    assert_eq!(
        event,
        AccessControlCreated {
            post: post(),
            creator: pk(1),
            required_token: Some(token()),
            minimum_balance: 100,
            required_nft_collection: Some(collection()),
            timestamp: T2,
        }
    );
    let (token_only, _) = set_access_requirements::handler(&ctx, post(), Some(token()), 100, None, T2).unwrap();
    assert_eq!(token_only, gate(GateType::Token));
    assert!(token_only.requires_token());
    assert!(!token_only.requires_nft());
    let (nft_only, _) = set_access_requirements::handler(&ctx, post(), None, 100, Some(collection()), T2).unwrap();
    assert_eq!(nft_only, gate(GateType::Nft));
    assert!(!nft_only.requires_token());
    assert!(nft_only.requires_nft());
    assert!(both.requires_token());
    assert!(both.requires_nft());
}

#[test]
fn gate_without_requirement_is_refused() {
    let ctx = SetAccessRequirements { creator: pk(1), access_control_bump: 210 };
    assert_eq!(
        set_access_requirements::handler(&ctx, post(), None, 100, None, T2),
        Err(TokenGateError::InvalidGateConfig)
    );
}

#[test]
fn token_balance_opens_a_token_gate() {
    let mut ctx = token_ctx(GateType::Token, unset(), 100);
    let event = verify_token_access::handler(&mut ctx, T2).unwrap();
    assert_eq!(
        event,
        AccessVerified { user: user(), post: post(), verification_type: String::from("token"), timestamp: T2 }
    );
    assert_eq!(ctx.verification, verification(true, true, false));
    assert_eq!(ctx.access_control, gate(GateType::Token));
}

#[test]
fn token_balance_alone_does_not_open_a_gate_for_both() {
    let mut ctx = token_ctx(GateType::Both, unset(), 5000);
    assert!(verify_token_access::handler(&mut ctx, T2).is_ok());
    assert_eq!(ctx.verification, verification(false, true, false));
    let mut second = token_ctx(GateType::Both, verification(false, false, true), 5000);
    assert!(verify_token_access::handler(&mut second, T2).is_ok());
    assert_eq!(second.verification, verification(true, true, true));
}

#[test]
fn token_verification_clears_an_expiry() {
    let expiring = AccessVerification { expires_at: Some(T2 - 1), ..verification(true, true, false) };
    let mut ctx = token_ctx(GateType::Token, expiring, 100);
    assert!(verify_token_access::handler(&mut ctx, T2 + 5).is_ok());
    assert_eq!(ctx.verification, AccessVerification { verified_at: T2 + 5, ..verification(true, true, false) });
}

#[test]
fn token_verification_is_refused_in_order() {
    let mut low = token_ctx(GateType::Token, unset(), 99);
    assert_eq!(verify_token_access::handler(&mut low, T2), Err(TokenGateError::InsufficientTokenBalance));
    assert_eq!(low.verification, unset());

    let mut wrong_kind = token_ctx(GateType::Nft, unset(), 99);
    wrong_kind.access_control.required_token = Some(token());
    assert_eq!(verify_token_access::handler(&mut wrong_kind, T2), Err(TokenGateError::InvalidGateConfig));

    let mut no_token = token_ctx(GateType::Nft, unset(), 99);
    assert_eq!(verify_token_access::handler(&mut no_token, T2), Err(TokenGateError::TokenAccountMintMismatch));

    let mut other_mint = token_ctx(GateType::Token, unset(), 99);
    other_mint.user_token_account.mint = pk(77);
    assert_eq!(verify_token_access::handler(&mut other_mint, T2), Err(TokenGateError::TokenAccountMintMismatch));

    let mut other_owner = token_ctx(GateType::Nft, unset(), 99);
    other_owner.user_token_account.owner = pk(78);
    other_owner.user_token_account.mint = pk(77);
    let before = other_owner;
    assert_eq!(verify_token_access::handler(&mut other_owner, T2), Err(TokenGateError::TokenAccountOwnerMismatch));
    assert_eq!(other_owner, before);
}

#[test]
fn nft_opens_an_nft_gate() {
    let mut ctx = nft_ctx(GateType::Nft, unset(), 1);
    let event = verify_nft_access::handler(&mut ctx, T2).unwrap();
    assert_eq!(
        event,
        AccessVerified { user: user(), post: post(), verification_type: String::from("nft"), timestamp: T2 }
    );
    assert_eq!(ctx.verification, verification(true, false, true));
}

#[test]
fn nft_alone_does_not_open_a_gate_for_both() {
    let mut ctx = nft_ctx(GateType::Both, unset(), 1);
    assert!(verify_nft_access::handler(&mut ctx, T2).is_ok());
    assert_eq!(ctx.verification, verification(false, false, true));
    let mut second = nft_ctx(GateType::Both, verification(false, true, false), 1);
    assert!(verify_nft_access::handler(&mut second, T2).is_ok());
    assert_eq!(second.verification, verification(true, true, true));
}

#[test]
fn nft_verification_is_refused_in_order() {
    let mut other_mint = nft_ctx(GateType::Nft, unset(), 1);
    other_mint.nft_mint = pk(51);
    assert_eq!(verify_nft_access::handler(&mut other_mint, T2), Err(TokenGateError::TokenAccountMintMismatch));
    assert_eq!(other_mint.verification, unset());

    let mut no_collection = nft_ctx(GateType::Nft, unset(), 1);
    no_collection.nft_mint = pk(51);
    no_collection.access_control.required_nft_collection = None;
    assert_eq!(verify_nft_access::handler(&mut no_collection, T2), Err(TokenGateError::NftCollectionRequired));

    let mut wrong_kind = nft_ctx(GateType::Token, unset(), 1);
    wrong_kind.nft_mint = pk(51);
    assert_eq!(verify_nft_access::handler(&mut wrong_kind, T2), Err(TokenGateError::InvalidGateConfig));

    let mut none = nft_ctx(GateType::Token, unset(), 0);
    assert_eq!(verify_nft_access::handler(&mut none, T2), Err(TokenGateError::NftNotOwned));
    let mut two = nft_ctx(GateType::Nft, unset(), 2);
    assert_eq!(verify_nft_access::handler(&mut two, T2), Err(TokenGateError::NftNotOwned));

    let mut other_owner = nft_ctx(GateType::Nft, unset(), 0);
    other_owner.nft_token_account.owner = pk(78);
    let before = other_owner;
    assert_eq!(verify_nft_access::handler(&mut other_owner, T2), Err(TokenGateError::TokenAccountOwnerMismatch));
    assert_eq!(other_owner, before);
}

#[test]
fn access_follows_the_gate_type() {
    let check = |gate_type: GateType, token_verified: bool, nft_verified: bool| {
        let ctx = CheckAccess {
            access_control: gate(gate_type),
            verification: verification(true, token_verified, nft_verified),
            user: user(),
        };
        check_access::handler(&ctx, T2)
    };
    assert_eq!(check(GateType::Token, true, false), Ok(true));
    assert_eq!(check(GateType::Token, false, true), Err(TokenGateError::NotVerified));
    assert_eq!(check(GateType::Nft, false, true), Ok(true));
    assert_eq!(check(GateType::Nft, true, false), Err(TokenGateError::NotVerified));
    assert_eq!(check(GateType::Both, true, true), Ok(true));
    assert_eq!(check(GateType::Both, true, false), Err(TokenGateError::NotVerified));
    assert_eq!(check(GateType::Both, false, true), Err(TokenGateError::NotVerified));
    assert_eq!(check(GateType::Both, false, false), Err(TokenGateError::NotVerified));
}

#[test]
fn access_ends_at_the_expiry() {
    let expiring = AccessVerification { expires_at: Some(T2 + 10), ..verification(true, true, false) };
    let ctx = CheckAccess { access_control: gate(GateType::Token), verification: expiring, user: user() };
    assert_eq!(check_access::handler(&ctx, T2 + 9), Ok(true));
    assert_eq!(check_access::handler(&ctx, T2 + 10), Err(TokenGateError::VerificationExpired));
    assert_eq!(check_access::handler(&ctx, T2 + 11), Err(TokenGateError::VerificationExpired));
    let unverified = AccessVerification { expires_at: Some(T2 - 1), ..verification(false, false, false) };
    let ctx = CheckAccess { access_control: gate(GateType::Token), verification: unverified, user: user() };
    assert_eq!(check_access::handler(&ctx, T2), Err(TokenGateError::NotVerified));
}

#[test]
fn access_needs_the_users_verification_of_this_post() {
    let ctx = CheckAccess {
        access_control: gate(GateType::Token),
        verification: verification(true, true, true),
        user: pk(3),
    };
    assert_eq!(check_access::handler(&ctx, T2), Err(TokenGateError::Unauthorized));
    let elsewhere = AccessVerification { post: pk(31), ..verification(true, true, true) };
    let ctx = CheckAccess { access_control: gate(GateType::Token), verification: elsewhere, user: user() };
    assert_eq!(check_access::handler(&ctx, T2), Err(TokenGateError::NotVerified));
}

#[test]
fn token_gate_errors_have_their_texts() {
    assert_eq!(TokenGateError::InsufficientTokenBalance.message(), "Insufficient token balance for access");
    assert_eq!(TokenGateError::NftNotOwned.message(), "User does not own required NFT");
    assert_eq!(TokenGateError::InvalidNftCollection.message(), "Invalid NFT collection");
    assert_eq!(TokenGateError::AlreadyVerified.message(), "Access already verified");
    assert_eq!(TokenGateError::VerificationExpired.message(), "Access verification expired");
    assert_eq!(TokenGateError::NotVerified.message(), "Access not verified");
    assert_eq!(TokenGateError::Unauthorized.message(), "Unauthorized action");
    assert_eq!(
        TokenGateError::InvalidGateConfig.message(),
        "Invalid gate configuration - must specify at least one requirement"
    );
    assert_eq!(TokenGateError::TokenMintRequired.message(), "Required token mint not specified");
    assert_eq!(TokenGateError::NftCollectionRequired.message(), "Required NFT collection not specified");
    assert_eq!(TokenGateError::TokenAccountOwnerMismatch.message(), "Token account owner mismatch");
    assert_eq!(TokenGateError::TokenAccountMintMismatch.message(), "Token account mint mismatch");
}
