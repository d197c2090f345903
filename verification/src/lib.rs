//! Moat: authentication, room membership and scoped token minting for
//! Media over QUIC relays, with the Privacy Pass issuer that backs its
//! anonymous tokens.

pub mod text;
pub mod b64;
pub mod crypto;
pub mod ids;
pub mod session;
pub mod error;
pub mod roles;
pub mod token;
pub mod api;
pub mod issuer;
pub mod privacypass;
pub mod cbor;
pub mod auth;
pub mod minting;
pub mod invites;
pub mod idp;
pub mod config;
pub mod rooms;
