//! Token minting: the request a minter serves, what it hands back, and the
//! registry that picks the configured minter.

use vstd::prelude::*;
use crate::roles::TokenRole;

pub mod c4m;

verus! {

/// What a token is minted for.
#[derive(Debug, Clone)]
pub struct MintRequest {
    pub subject: String,
    pub namespace_parts: Vec<Vec<u8>>,
    pub role: TokenRole,
    pub lifetime_secs: u64,
}

/// A request as plain values.
pub struct MintRequestView {
    pub subject: Seq<char>,
    pub namespace_parts: Seq<Seq<u8>>,
    pub role: TokenRole,
    pub lifetime_secs: u64,
}

impl View for MintRequest {
    type V = MintRequestView;

    open spec fn view(&self) -> MintRequestView {
        MintRequestView {
            subject: self.subject@,
            namespace_parts: self.namespace_parts@.map_values(|p: Vec<u8>| p@),
            role: self.role,
            lifetime_secs: self.lifetime_secs,
        }
    }
}

/// A minted token, its token type code, and its lifetime in seconds.
#[derive(Debug, Clone)]
pub struct MintedToken {
    pub token: String,
    pub token_type: u64,
    pub expires_in: u64,
}

/// A token as plain values.
pub struct MintedTokenView {
    pub token: Seq<char>,
    pub token_type: u64,
    pub expires_in: u64,
}

impl View for MintedToken {
    type V = MintedTokenView;

    open spec fn view(&self) -> MintedTokenView {
        MintedTokenView { token: self.token@, token_type: self.token_type, expires_in: self.expires_in }
    }
}

/// A minting answer as plain values.
pub open spec fn mint_view(r: Result<MintedToken, String>) -> Result<MintedTokenView, Seq<char>> {
    match r {
        Ok(t) => Ok(t@),
        Err(e) => Err(e@),
    }
}

/// A kind of token the service can mint.
pub trait TokenMinter: Send + Sync {
    /// What this minter promises of its answer to a request: the token, or the
    /// error's text.
    spec fn minted(&self, request: MintRequestView, r: Result<MintedTokenView, Seq<char>>) -> bool;

    /// Mints a token for the request, or says why it could not.
    fn mint(&self, request: &MintRequest) -> (r: Result<MintedToken, String>)
        ensures
            self.minted(request@, mint_view(r)),
    ;

    /// The short name of the token kind.
    fn token_type_name(&self) -> &'static str;
}

/// The minters the service was configured with; the first one serves requests.
pub struct MinterRegistry {
    pub minters: Vec<Box<dyn TokenMinter>>,
}

impl MinterRegistry {
    /// A registry over the given minters, in order.
    pub fn new(minters: Vec<Box<dyn TokenMinter>>) -> (r: MinterRegistry)
        ensures
            r.minters@ == minters@,
    {
        MinterRegistry { minters }
    }

    /// The minters configured by an optional ES256 signing key PEM: a C4M minter
    /// when a key is given, none otherwise; a refused PEM is an error.
    pub fn from_signing_key(
        private_key_pem: Option<&str>,
        issuer: String,
        audience: String,
        default_lifetime: u64,
    ) -> (r: Result<MinterRegistry, String>)
        ensures
            private_key_pem is None ==> (r matches Ok(reg) && reg.minters@.len() == 0),
            private_key_pem matches Some(pem) ==> (crate::crypto::es256_pem_key(pem@) is Ok
                <==> r matches Ok(reg)),
            private_key_pem matches Some(pem) ==> (r matches Ok(reg) ==> {
                &&& reg.minters@.len() == 1
                &&& forall|q: MintRequestView, t: Result<MintedTokenView, Seq<char>>|
                    #[trigger] reg.minters@[0].minted(q, t) == c4m::c4m_minted(
                        crate::crypto::es256_pem_key(pem@)->Ok_0,
                        issuer@,
                        audience@,
                        default_lifetime,
                        q,
                        t,
                    )
            }),
            private_key_pem matches Some(pem) ==> (r matches Err(e) ==> exists|why: Seq<char>|
                crate::crypto::es256_pem_key(pem@) == Err::<Seq<u8>, Seq<char>>(why) && e@
                    == "invalid ES256 private key PEM: "@ + why),
    {
        match private_key_pem {
            Some(pem) => match c4m::C4mMinter::new(pem, issuer, audience, default_lifetime) {
                Ok(m) => {
                    let b: Box<dyn TokenMinter> = Box::new(m);
                    assert(forall|q: MintRequestView, t: Result<MintedTokenView, Seq<char>>| b.minted(q, t) == m.minted(q, t));
                    let minters = vec![b];
                    Ok(MinterRegistry { minters })
                },
                Err(e) => Err(e),
            },
            None => Ok(MinterRegistry { minters: Vec::new() }),
        }
    }

    /// Mints with the first configured minter; fails when none is configured.
    pub fn mint(&self, request: &MintRequest) -> (r: Result<MintedToken, String>)
        ensures
            self.minters@.len() == 0 ==> (r matches Err(e) && e@ == "no token minter configured"@),
            self.minters@.len() > 0 ==> self.minters@[0].minted(request@, mint_view(r)),
    {
        if self.minters.len() == 0 {
            return Err("no token minter configured".to_owned());
        }
        self.minters[0].mint(request)
    }
}

} // verus!
