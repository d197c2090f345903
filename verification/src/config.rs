//! The service's settings.

use vstd::prelude::*;

verus! {

/// How the service is configured: where it listens, its database, the identity
/// provider, token signing, sessions, invite links and the Privacy Pass issuer.
pub struct Config {
    /// Address to bind the HTTP server.
    pub bind: String,
    /// PostgreSQL connection URL.
    pub database_url: String,
    /// Google OAuth2 client ID for ID token verification.
    pub google_client_id: Option<String>,
    /// Path to the ES256 private key PEM for C4M token signing.
    pub c4m_private_key: Option<String>,
    /// Issuer claim of minted C4M tokens.
    pub c4m_issuer: String,
    /// Audience claim of minted C4M tokens.
    pub c4m_audience: String,
    /// Default token lifetime in seconds.
    pub token_lifetime_secs: u64,
    /// Secret for signing session tokens.
    pub session_secret: String,
    /// Base URL of invite links.
    pub base_url: String,
    /// Issuer name of Privacy Pass token challenges.
    pub pp_issuer_name: String,
    /// Origin info of Privacy Pass token challenges.
    pub pp_origin_name: String,
    /// Base URL of the Privacy Pass issuer.
    pub pp_issuer_url: String,
    /// Path to the attester's Ed25519 signing key PEM, if requests are signed.
    pub pp_signing_key: Option<String>,
}

} // verus!
