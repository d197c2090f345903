//! Digests and signatures from outside crates: SHA-256 (`sha2`), Ed25519
//! (`ed25519-dalek`) and ES256 (`p256`), with keys carried as their raw bytes.

use vstd::prelude::*;
use sha2::Digest;
use ed25519_dalek::{Signer, Verifier};
use p256::pkcs8::DecodePrivateKey;
use crate::b64::opt_bytes;

verus! {

/// The SHA-256 digest of a byte string.
pub uninterp spec fn sha256_digest(data: Seq<u8>) -> Seq<u8>;

/// `Sha256::digest`: the 32-byte digest, a function of the data.
#[verifier::external_body]
pub(crate) fn sha256(data: &[u8]) -> (r: [u8; 32])
    ensures
        r@ == sha256_digest(data@),
{
    sha2::Sha256::digest(data).into()
}

/// The Ed25519 signature (RFC 8032, deterministic) of a message under a 32-byte secret key.
pub uninterp spec fn ed25519_signature(secret: Seq<u8>, msg: Seq<u8>) -> Seq<u8>;

/// Whether Ed25519 verification under a 32-byte public key accepts a 64-byte signature of a message.
pub uninterp spec fn ed25519_valid(public: Seq<u8>, msg: Seq<u8>, sig: Seq<u8>) -> bool;

/// The 32-byte public key of a 32-byte Ed25519 secret key
/// (`SigningKey::from_bytes(secret).verifying_key()`).
pub uninterp spec fn ed25519_public(secret: Seq<u8>) -> Seq<u8>;

/// `SigningKey::from_bytes(secret).verifying_key().to_bytes()`: the public key of
/// a secret key, a function of the secret.
#[verifier::external_body]
fn ed25519_public_key(secret: &[u8; 32]) -> (r: [u8; 32])
    ensures
        r@ == ed25519_public(secret@),
{
    ed25519_dalek::SigningKey::from_bytes(secret).verifying_key().to_bytes()
}

/// An Ed25519 signing key: its 32 secret bytes, and the public key they give.
pub struct Ed25519SigningKey {
    secret: [u8; 32],
    verifying_key: [u8; 32],
}

impl Ed25519SigningKey {
    /// The secret bytes.
    pub closed spec fn secret(&self) -> Seq<u8> {
        self.secret@
    }

    /// The public key is the one the secret gives.
    #[verifier::type_invariant]
    spec fn public_of_secret(&self) -> bool {
        self.verifying_key@ == ed25519_public(self.secret@)
    }

    /// The signing key with these secret bytes.
    pub fn from_bytes(secret: [u8; 32]) -> (r: Ed25519SigningKey)
        ensures
            r.secret() == secret@,
    {
        let verifying_key = ed25519_public_key(&secret);
        Ed25519SigningKey { secret, verifying_key }
    }

    /// The secret bytes.
    pub fn secret_bytes(&self) -> (r: &[u8; 32])
        ensures
            r@ == self.secret(),
    {
        &self.secret
    }

    /// The public key, which verifies what this key signs.
    pub fn verifying_key(&self) -> (r: [u8; 32])
        ensures
            r@ == ed25519_public(self.secret()),
    {
        proof {
            use_type_invariant(self);
        }
        self.verifying_key
    }
}

/// `SigningKey::from_bytes(secret).sign(msg)`, as its 64 bytes: a signature that
/// verification under the key's own public key accepts (Ed25519's correctness).
#[verifier::external_body]
pub(crate) fn ed25519_sign(secret: &[u8; 32], msg: &[u8]) -> (r: [u8; 64])
    ensures
        r@ == ed25519_signature(secret@, msg@),
        ed25519_valid(ed25519_public(secret@), msg@, r@),
{
    ed25519_dalek::SigningKey::from_bytes(secret).sign(msg).to_bytes()
}

/// `ed25519_dalek::Signature::from_slice`: accepts exactly the 64-byte slices.
#[verifier::external_body]
pub(crate) fn ed25519_signature_from_slice(sig: &[u8]) -> (r: Option<[u8; 64]>)
    ensures
        r is Some <==> sig@.len() == 64,
        r matches Some(s) ==> s@ == sig@,
{
    ed25519_dalek::Signature::from_slice(sig).ok().map(|s| s.to_bytes())
}

/// `VerifyingKey::verify` for the key with these 32 bytes (a key whose bytes do
/// not decode to a curve point verifies nothing).
#[verifier::external_body]
pub(crate) fn ed25519_verify(public: &[u8; 32], msg: &[u8], sig: &[u8; 64]) -> (r: bool)
    ensures
        r == ed25519_valid(public@, msg@, sig@),
{
    match ed25519_dalek::VerifyingKey::from_bytes(public) {
        Ok(vk) => vk.verify(msg, &ed25519_dalek::Signature::from_bytes(sig)).is_ok(),
        Err(_) => false,
    }
}

/// The 32-byte secret scalar of a P-256 private key in PKCS#8 PEM, or the text of
/// the error that refuses the PEM.
pub uninterp spec fn es256_pem_key(pem: Seq<char>) -> Result<Seq<u8>, Seq<char>>;

/// The DER encoding of the ES256 signature (ECDSA over P-256 with SHA-256 and
/// RFC 6979 nonces, so a function of its inputs) of a message under a secret
/// scalar; `None` where the bytes are not a valid secret scalar.
pub uninterp spec fn es256_der_signature(secret: Seq<u8>, msg: Seq<u8>) -> Option<Seq<u8>>;

/// `p256::ecdsa::SigningKey::from_pkcs8_pem`, keeping the key's secret scalar;
/// the scalar of a parsed key is nonzero and below the group order, so
/// `SigningKey::from_bytes` takes it back and every message can be signed with it.
#[verifier::external_body]
pub(crate) fn es256_key_from_pem(pem: &str) -> (r: Result<[u8; 32], String>)
    ensures
        match r {
            Ok(k) => es256_pem_key(pem@) == Ok::<Seq<u8>, Seq<char>>(k@) && forall|msg: Seq<u8>|
                #[trigger] es256_der_signature(k@, msg) is Some,
            Err(e) => es256_pem_key(pem@) == Err::<Seq<u8>, Seq<char>>(e@),
        },
{
    match p256::ecdsa::SigningKey::from_pkcs8_pem(pem) {
        Ok(k) => Ok(k.to_bytes().into()),
        Err(e) => Err(e.to_string()),
    }
}

/// `SigningKey::from_bytes(secret)`, then `sign(msg)` and `to_der()`.
#[verifier::external_body]
pub(crate) fn es256_sign_der(secret: &[u8; 32], msg: &[u8]) -> (r: Option<Vec<u8>>)
    ensures
        opt_bytes(r) == es256_der_signature(secret@, msg@),
{
    match p256::ecdsa::SigningKey::from_bytes(&(*secret).into()) {
        Ok(k) => {
            let sig: p256::ecdsa::Signature = k.sign(msg);
            Some(sig.to_der().as_bytes().to_vec())
        },
        Err(_) => None,
    }
}

/// The 32-byte secret key of an Ed25519 private key in PKCS#8 PEM, or the text of
/// the error that refuses the PEM.
pub uninterp spec fn ed25519_pem_secret(pem: Seq<char>) -> Result<Seq<u8>, Seq<char>>;

/// The 32-byte public key of an Ed25519 SubjectPublicKeyInfo PEM, or the text of
/// the error that refuses the PEM.
pub uninterp spec fn ed25519_pem_public(pem: Seq<char>) -> Result<Seq<u8>, Seq<char>>;

/// `ed25519_dalek::SigningKey::from_pkcs8_pem`, keeping the secret key's bytes.
#[verifier::external_body]
fn ed25519_secret_from_pem(pem: &str) -> (r: Result<[u8; 32], String>)
    ensures
        match r {
            Ok(k) => ed25519_pem_secret(pem@) == Ok::<Seq<u8>, Seq<char>>(k@),
            Err(e) => ed25519_pem_secret(pem@) == Err::<Seq<u8>, Seq<char>>(e@),
        },
{
    match <ed25519_dalek::SigningKey as ed25519_dalek::pkcs8::DecodePrivateKey>::from_pkcs8_pem(pem) {
        Ok(k) => Ok(k.to_bytes()),
        Err(e) => Err(e.to_string()),
    }
}

/// `ed25519_dalek::VerifyingKey::from_public_key_pem`, keeping the key's bytes.
#[verifier::external_body]
fn ed25519_public_from_pem(pem: &str) -> (r: Result<[u8; 32], String>)
    ensures
        match r {
            Ok(k) => ed25519_pem_public(pem@) == Ok::<Seq<u8>, Seq<char>>(k@),
            Err(e) => ed25519_pem_public(pem@) == Err::<Seq<u8>, Seq<char>>(e@),
        },
{
    match <ed25519_dalek::VerifyingKey as ed25519_dalek::pkcs8::DecodePublicKey>::from_public_key_pem(pem) {
        Ok(k) => Ok(k.to_bytes()),
        Err(e) => Err(e.to_string()),
    }
}

/// A key, or the error view of a loading failure under a heading.
pub open spec fn key_loaded(r: Result<[u8; 32], String>, outcome: Result<Seq<u8>, Seq<char>>, heading: Seq<char>) -> bool {
    match r {
        Ok(k) => outcome == Ok::<Seq<u8>, Seq<char>>(k@),
        Err(e) => exists|why: Seq<char>| outcome == Err::<Seq<u8>, Seq<char>>(why) && e@ == heading + why,
    }
}

/// The attester's Ed25519 signing key from its PKCS#8 PEM.
pub fn load_ed25519_signing_key(pem: &str) -> (r: Result<Ed25519SigningKey, String>)
    ensures
        match r {
            Ok(k) => ed25519_pem_secret(pem@) == Ok::<Seq<u8>, Seq<char>>(k.secret()),
            Err(e) => exists|why: Seq<char>|
                ed25519_pem_secret(pem@) == Err::<Seq<u8>, Seq<char>>(why) && e@
                    == "failed to load Ed25519 signing key: "@ + why,
        },
{
    match ed25519_secret_from_pem(pem) {
        Ok(k) => Ok(Ed25519SigningKey::from_bytes(k)),
        Err(why) => {
            let mut msg = crate::text::TextBuf::new();
            msg.push_str("failed to load Ed25519 signing key: ");
            msg.push_str(why.as_str());
            Err(msg.into_string())
        },
    }
}

/// The attester's Ed25519 public key from its SubjectPublicKeyInfo PEM.
pub fn load_ed25519_public_key(pem: &str) -> (r: Result<[u8; 32], String>)
    ensures
        key_loaded(r, ed25519_pem_public(pem@), "failed to load attester Ed25519 key: "@),
{
    match ed25519_public_from_pem(pem) {
        Ok(k) => Ok(k),
        Err(why) => {
            let mut msg = crate::text::TextBuf::new();
            msg.push_str("failed to load attester Ed25519 key: ");
            msg.push_str(why.as_str());
            Err(msg.into_string())
        },
    }
}

} // verus!
