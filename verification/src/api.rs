//! Request and response bodies of the HTTP API.

use vstd::prelude::*;
use crate::roles::TokenRole;

verus! {

/// `POST /v1/auth/guest`.
pub struct GuestLoginRequest {
    pub display_name: String,
}

/// The answer to a sign-in.
pub struct AuthResponse {
    pub user_id: u128,
    pub email: String,
    pub display_name: Option<String>,
    pub provider: String,
    pub session_token: String,
}

/// `POST /v1/token`: a room by UUID or name, and an optional role.
pub struct MintTokenRequest {
    pub room_id: String,
    pub role: Option<TokenRole>,
}

/// One scope of a minted token.
pub struct MintTokenScope {
    pub actions: Vec<String>,
    pub namespace: String,
}

/// The answer to `POST /v1/token`.
pub struct MintTokenResponse {
    pub token: String,
    pub expires_at: u64,
    pub scopes: Vec<MintTokenScope>,
    pub dpop: bool,
}

/// `POST /v1/token/anonymous`: a room by UUID or name, and an optional role text.
pub struct AnonTokenRequest {
    pub room_id: String,
    pub role: Option<String>,
}

/// One scope of an anonymous token.
pub struct AnonTokenScope {
    pub actions: Vec<String>,
    pub namespace: String,
}

/// The answer to `POST /v1/token/anonymous`.
pub struct AnonTokenResponse {
    pub token: String,
    pub expires_at: u64,
    pub scopes: Vec<AnonTokenScope>,
    pub dpop: bool,
}

/// `POST /v1/rooms/{room_id}/invites`.
pub struct CreateInviteRequest {
    pub max_uses: Option<i32>,
    pub expires_in_hours: Option<u64>,
}

/// The answer to creating an invite.
pub struct InviteResponse {
    pub code: String,
    pub url: String,
    pub room_name: String,
    pub expires_at: Option<i64>,
    pub max_uses: Option<i32>,
}

/// The answer to redeeming an invite.
pub struct RedeemResponse {
    pub room_id: String,
    pub room_name: String,
    pub joined: bool,
}

/// `POST /v1/auth/privacypass/challenge`.
pub struct ChallengeRequest {
    pub room_id: Option<String>,
    /// `0x0002` (Blind RSA) or `0xda7a` (Partially Blind RSA).
    pub token_type: Option<u16>,
}

/// The answer to a Privacy Pass challenge request.
pub struct ChallengeResponse {
    pub token_type: u16,
    /// Base64url-encoded TokenChallenge (RFC 9578).
    pub token_challenge: String,
    /// Base64url-encoded issuer public key.
    pub issuer_key: String,
    /// Base64url-encoded extensions (Partially Blind RSA only).
    pub extensions: Option<String>,
}

} // verus!
