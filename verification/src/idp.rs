//! Identity providers: the identity a verified ID token names, the order in
//! which the configured providers are tried, and the signing keys of Google's.

use vstd::prelude::*;
use std::collections::HashMap;
use jsonwebtoken::{decode, decode_header, Algorithm, DecodingKey, Validation};
use serde_json::{from_value, Value};
use anyhow::Result as Outcome;
use crate::text::TextBuf;
use crate::token::c4m::opt_text;

verus! {

/// The identity an identity provider vouches for.
pub struct UserIdentity {
    pub subject: String,
    pub email: String,
    pub name: Option<String>,
    pub provider: String,
}

/// The configured identity providers, by name, in the order they are tried.
pub struct IdpRegistry {
    pub providers: Vec<String>,
}

/// What verifying an ID token does next.
pub enum IdpStep {
    /// Ask the provider at this position.
    Try(usize),
    /// The token names this identity.
    Accept(UserIdentity),
    /// No provider accepted the token.
    Reject(String),
}

/// Whether a step rejects the token because no provider accepted it.
pub open spec fn rejects_all(s: IdpStep) -> bool {
    s matches IdpStep::Reject(m) && m@ == "no IdP could validate the token"@
}

impl IdpRegistry {
    /// A registry over these providers, in order.
    pub fn new(providers: Vec<String>) -> (r: IdpRegistry)
        ensures
            r.providers@ == providers@,
    {
        IdpRegistry { providers }
    }

    /// The first step of verifying an ID token: ask the first provider, if any.
    pub fn verify_start(&self) -> (r: IdpStep)
        ensures
            self.providers@.len() == 0 ==> rejects_all(r),
            self.providers@.len() > 0 ==> r == IdpStep::Try(0),
    {
        if self.providers.len() == 0 {
            IdpStep::Reject("no IdP could validate the token".to_owned())
        } else {
            IdpStep::Try(0)
        }
    }

    /// The step after the provider at `at` answered: its identity when it accepts
    /// the token; else the next provider, or the rejection after the last.
    pub fn verify_step(&self, at: usize, outcome: Result<UserIdentity, String>) -> (r: IdpStep)
        requires
            at < self.providers@.len(),
        ensures
            match outcome {
                Ok(id) => r == IdpStep::Accept(id),
                Err(_) => if at + 1 < self.providers@.len() {
                    r == IdpStep::Try((at + 1) as usize)
                } else {
                    rejects_all(r)
                },
            },
    {
        match outcome {
            Ok(id) => IdpStep::Accept(id),
            Err(_) => {
                if at < self.providers.len() - 1 {
                    IdpStep::Try(at + 1)
                } else {
                    IdpStep::Reject("no IdP could validate the token".to_owned())
                }
            },
        }
    }
}

/// One of Google's RSA signing keys, by key ID.
#[derive(Debug)]
pub struct GoogleKey {
    pub kid: String,
    pub n: String,
    pub e: String,
}

/// The position of the first key with this key ID, if any.
pub fn find_key(keys: &Vec<GoogleKey>, kid: &str) -> (r: Option<usize>)
    ensures
        match r {
            Some(i) => i < keys@.len() && keys@[i as int].kid@ == kid@ && forall|j: int|
                0 <= j < i ==> (#[trigger] keys@[j]).kid@ != kid@,
            None => forall|j: int| 0 <= j < keys@.len() ==> (#[trigger] keys@[j]).kid@ != kid@,
        },
{
    let mut i: usize = 0;
    while i < keys.len()
        invariant
            i <= keys@.len(),
            forall|j: int| 0 <= j < i ==> (#[trigger] keys@[j]).kid@ != kid@,
        decreases keys@.len() - i,
    {
        if crate::roles::str_eq(keys[i].kid.as_str(), kid) {
            return Some(i);
        }
        i = i + 1;
    }
    None
}

/// The error when Google's keys, refreshed, still lack the token's key ID.
pub fn missing_key_error(kid: &str) -> (r: String)
    ensures
        r@ == "google key "@ + kid@ + " not found after refresh"@,
{
    let mut msg = TextBuf::new();
    msg.push_str("google key ");
    msg.push_str(kid);
    msg.push_str(" not found after refresh");
    msg.into_string()
}

/// A copy of a key.
fn copy_key(k: &GoogleKey) -> (r: GoogleKey)
    ensures
        r.kid@ == k.kid@,
        r.n@ == k.n@,
        r.e@ == k.e@,
{
    GoogleKey { kid: k.kid.clone(), n: k.n.clone(), e: k.e.clone() }
}

/// What getting the key for a token's key ID does first.
pub enum GoogleKeyStep {
    /// Use this cached key.
    Use(GoogleKey),
    /// The cache lacks the key ID: fetch Google's keys again.
    Refetch,
}

/// The first step of getting the key for a key ID: the first cached key with
/// that ID, or a refetch when none has it.
pub fn cached_key_step(cache: &Vec<GoogleKey>, kid: &str) -> (r: GoogleKeyStep)
    ensures
        match r {
            GoogleKeyStep::Use(k) => exists|i: int|
                {
                    &&& 0 <= i < cache@.len()
                    &&& k.kid@ == kid@ && k.n@ == cache@[i].n@ && k.e@ == cache@[i].e@
                    &&& cache@[i].kid@ == kid@
                    &&& forall|j: int| 0 <= j < i ==> (#[trigger] cache@[j]).kid@ != kid@
                },
            GoogleKeyStep::Refetch => forall|j: int| 0 <= j < cache@.len() ==> (#[trigger] cache@[j]).kid@ != kid@,
        },
{
    match find_key(cache, kid) {
        Some(i) => GoogleKeyStep::Use(copy_key(&cache[i])),
        None => GoogleKeyStep::Refetch,
    }
}

/// Whether `r` is the first key with this key ID among Google's keys as just
/// refreshed, or the error that it is still missing.
pub open spec fn refreshed_key_found(keys: Seq<GoogleKey>, kid: Seq<char>, r: Result<GoogleKey, String>) -> bool {
    match r {
        Ok(k) => exists|i: int|
            {
                &&& 0 <= i < keys.len()
                &&& k.kid@ == kid && k.n@ == keys[i].n@ && k.e@ == keys[i].e@
                &&& keys[i].kid@ == kid
                &&& forall|j: int| 0 <= j < i ==> (#[trigger] keys[j]).kid@ != kid
            },
        Err(m) => {
            &&& forall|j: int| 0 <= j < keys.len() ==> (#[trigger] keys[j]).kid@ != kid
            &&& m@ == "google key "@ + kid + " not found after refresh"@
        },
    }
}

/// The first key with this key ID among Google's keys as just refreshed, or
/// the error that it is still missing.
pub fn refreshed_key(keys: &Vec<GoogleKey>, kid: &str) -> (r: Result<GoogleKey, String>)
    ensures
        refreshed_key_found(keys@, kid@, r),
{
    match find_key(keys, kid) {
        Some(i) => Ok(copy_key(&keys[i])),
        None => Err(missing_key_error(kid)),
    }
}

/// The step after Google's keys were fetched again: the cache becomes the
/// fetched keys, which are searched for the key ID once more.
pub fn replace_keys(cache: &mut Vec<GoogleKey>, fetched: Vec<GoogleKey>, kid: &str) -> (r: Result<GoogleKey, String>)
    ensures
        final(cache)@ == fetched@,
        refreshed_key_found(fetched@, kid@, r),
{
    *cache = fetched;
    refreshed_key(cache, kid)
}

/// What `jsonwebtoken::decode_header` reads from a token: the key ID of its
/// header (`None` when the header has none), or the text of its error.
pub uninterp spec fn jwt_header_kid(token: Seq<char>) -> Result<Option<Seq<char>>, Seq<char>>;

/// A result holding an optional text, as plain values.
pub open spec fn kid_result(r: Result<Option<String>, String>) -> Result<Option<Seq<char>>, Seq<char>> {
    match r {
        Ok(k) => Ok(opt_text(k)),
        Err(e) => Err(e@),
    }
}

/// `jsonwebtoken::decode_header`: the `kid` of the token's header, or the
/// error's text; a function of the token alone.
#[verifier::external_body]
fn jwt_kid(token: &str) -> (r: Result<Option<String>, String>)
    ensures
        kid_result(r) == jwt_header_kid(token@),
{
    decode_header(token).map(|h| h.kid).map_err(|e| e.to_string())
}

/// A JSON value of `serde_json`, held opaque.
#[verifier::external_type_specification]
#[verifier::external_body]
pub struct ExJsonValue(Value);

/// The claims of a Google ID token that the service reads.
pub struct GoogleClaims {
    pub sub: String,
    pub email: String,
    pub name: Option<String>,
}

/// A token's claims as plain values: subject, email, optional name, audience
/// and issuer.
pub struct JwtClaimsView {
    pub sub: Seq<char>,
    pub email: Seq<char>,
    pub name: Option<Seq<char>>,
    pub aud: Seq<char>,
    pub iss: Seq<char>,
}

/// The claims that `jsonwebtoken::decode` reads from a token's claims part (its
/// second, base64url-encoded JSON segment): the text claims `sub`, `email`,
/// `aud` and `iss`, and `name` when it holds a string; `None` when the part is
/// not such an object.
pub uninterp spec fn jwt_claims(token: Seq<char>) -> Option<JwtClaimsView>;

/// Whether a token is a JWT whose header names RS256 and whose signature over
/// its header and claims parts verifies (RSASSA-PKCS1-v1_5 with SHA-256) under
/// the RSA public key with this base64url modulus and exponent.
pub uninterp spec fn rs256_signature_valid(token: Seq<char>, n: Seq<char>, e: Seq<char>) -> bool;

/// Whether decoded claims are these, with the audience asked for and an issuer
/// among those allowed.
pub open spec fn claims_match(v: Option<JwtClaimsView>, c: GoogleClaims, audience: Seq<char>, issuers: Seq<Seq<char>>) -> bool {
    v matches Some(v) && v.sub == c.sub@ && v.email == c.email@ && v.name == opt_text(c.name) && v.aud == audience
        && issuers.contains(v.iss)
}

/// `DecodingKey::from_rsa_components(n, e)` and `jsonwebtoken::decode` of the
/// claims as a JSON object, validating an RS256 signature, the expiry against the
/// clock, the audience and the issuer; then `sub`, `email`, `aud` and `iss` as strings,
/// `exp` as an integer and `name` as an optional string (`serde_json::from_value`).
/// When it accepts, the token's claims are the ones returned, with a string
/// audience that is `audience` and a string issuer among `issuers`, and its
/// RS256 signature verifies under the key (`n`, `e`). Whether the token has
/// expired by the clock is left unsaid: acceptance also depends on the time.
#[verifier::external_body]
fn rs256_decode(token: &str, n: &str, e: &str, audience: &str, issuers: &Vec<String>) -> (r: Result<GoogleClaims, String>)
    ensures
        r matches Ok(c) ==> rs256_signature_valid(token@, n@, e@) && claims_match(
            jwt_claims(token@),
            c,
            audience@,
            issuers@.map_values(|i: String| i@),
        ),
{
    (|| -> Outcome<HashMap<String, Value>> {
        let key = DecodingKey::from_rsa_components(n, e)?;
        let mut v = Validation::new(Algorithm::RS256);
        v.set_audience(&[audience]);
        v.set_issuer(issuers);
        Ok(decode::<HashMap<String, Value>>(token, &key, &v)?.claims)
    })().map_err(|x| x.to_string()).and_then(google_claims_of)
}

/// Reads a decoded claims object as `serde` would into the claims with `sub`,
/// `email`, `aud` and `iss` strings, an integer `exp` and an optional string
/// `name` (`serde_json::from_value` of each; an absent member reads as null).
#[verifier::external_body]
fn google_claims_of(mut c: HashMap<String, Value>) -> Result<GoogleClaims, String> {
    (|| -> Outcome<GoogleClaims> {
        let mut take = |k: &str| c.remove(k).unwrap_or_default();
        let _: (String, String, u64) = (from_value(take("aud"))?, from_value(take("iss"))?, from_value(take("exp"))?);
        Ok(GoogleClaims { sub: from_value(take("sub"))?, email: from_value(take("email"))?, name: from_value(take("name"))? })
    })().map_err(|x| x.to_string())
}

/// The issuers of Google ID tokens.
pub open spec fn google_issuer(iss: Seq<char>) -> bool {
    iss == "https://accounts.google.com"@ || iss == "accounts.google.com"@
}

/// The issuers a Google ID token may name, in the order they are handed to the
/// validation.
pub fn google_issuers() -> (r: Vec<String>)
    ensures
        r@.map_values(|s: String| s@) == seq!["https://accounts.google.com"@, "accounts.google.com"@],
{
    let mut issuers: Vec<String> = Vec::new();
    issuers.push("https://accounts.google.com".to_owned());
    issuers.push("accounts.google.com".to_owned());
    assert(issuers@.map_values(|s: String| s@) =~= seq!["https://accounts.google.com"@, "accounts.google.com"@]);
    issuers
}

/// The first step of verifying a Google ID token: the key ID its header names,
/// whose key is to be fetched; or why the header cannot be read or names none.
pub fn google_verify_start(id_token: &str) -> (r: Result<String, String>)
    ensures
        match jwt_header_kid(id_token@) {
            Ok(Some(kid)) => r matches Ok(k) && k@ == kid,
            Ok(None) => r matches Err(m) && m@ == "missing kid in token header"@,
            Err(e) => r matches Err(m) && m@ == e,
        },
{
    match jwt_kid(id_token) {
        Ok(kid) => header_key_id(kid),
        Err(e) => Err(e),
    }
}

/// The last step of verifying a Google ID token, with the key its header names:
/// the identity its claims name when `jsonwebtoken` accepts it as an RS256 token
/// signed by that key, for this client ID as audience and from one of Google's
/// two issuers; or `jsonwebtoken`'s error.
pub fn google_verify_finish(id_token: &str, key: &GoogleKey, client_id: &str) -> (r: Result<UserIdentity, String>)
    ensures
        r matches Ok(id) ==> jwt_claims(id_token@) matches Some(c) && id.subject@ == c.sub && id.email@ == c.email
            && opt_text(id.name) == c.name && id.provider@ == "google"@ && c.aud == client_id@ && google_issuer(c.iss),
        r is Ok ==> rs256_signature_valid(id_token@, key.n@, key.e@),
{
    let issuers = google_issuers();
    let ghost iv = issuers@.map_values(|i: String| i@);
    match rs256_decode(id_token, key.n.as_str(), key.e.as_str(), client_id, &issuers) {
        Ok(c) => {
            let ghost cv = jwt_claims(id_token@)->Some_0;
            assert(google_issuer(cv.iss)) by {
                let k = choose|k: int| 0 <= k < iv.len() && iv[k] == cv.iss;
                assert(k == 0 || k == 1);
            }
            Ok(google_identity(c.sub, c.email, c.name))
        },
        Err(e) => Err(e),
    }
}

/// The key ID an ID token's header names, or why it names none.
pub fn header_key_id(kid: Option<String>) -> (r: Result<String, String>)
    ensures
        match r {
            Ok(k) => kid matches Some(x) && x@ == k@,
            Err(m) => kid is None && m@ == "missing kid in token header"@,
        },
{
    match kid {
        Some(k) => Ok(k),
        None => Err("missing kid in token header".to_owned()),
    }
}

/// The identity a verified Google ID token names.
pub fn google_identity(sub: String, email: String, name: Option<String>) -> (r: UserIdentity)
    ensures
        r.subject@ == sub@,
        r.email@ == email@,
        r.name == name,
        r.provider@ == "google"@,
{
    UserIdentity { subject: sub, email, name, provider: "google".to_owned() }
}

} // verus!
