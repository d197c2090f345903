//! C4M tokens: CAT tokens for MoQ carrying publish and subscribe scopes,
//! signed with ES256 as a COSE_Sign1 structure.

use vstd::prelude::*;
use cat_token::{BinaryMatch, CatToken, CatTokenBuilder, Cwt, MoqtAction, MoqtScope, MoqtScopeBuilder, NamespaceMatch};
use chrono::DateTime;
use crate::roles::TokenRole;
use crate::b64::{b64url, b64url_encode};
use crate::cbor::{
    Cbor, CborView, cbor_wf, cbor_decoding, cbor_encode, cbor_encoding, remap_claim_key, remap_claim_spec,
};
use crate::crypto::{es256_pem_key, es256_der_signature, es256_key_from_pem, es256_sign_der};
use crate::text::TextBuf;
use crate::invites::{MAX_UNIX_SECS, wrap_i64, wrapped_i64};
use crate::session::unix_now;
use super::{MintRequest, MintRequestView, MintedToken, MintedTokenView, TokenMinter, mint_view};

verus! {

/// The token type code of C4M tokens.
pub const C4M_TOKEN_TYPE: u64 = 6501485;

/// The claim key under which `cat-token` writes the MoQ scopes.
pub const CLAIM_MOQT_CAT: i64 = 327;

/// The claim key under which relays read the MoQ scopes, as CBOR-in-bytes.
pub const CLAIM_MOQT_RELAY: i64 = 65000;

/// `cat-token`'s MoQ scope, held opaque.
#[verifier::external_type_specification]
#[verifier::external_body]
pub struct ExMoqtScope(MoqtScope);

/// One scope of a token: the setup scope every token has, or the publish or
/// subscribe scope over the request's namespace.
#[derive(Debug, Clone, Copy, PartialEq, Eq, Structural)]
pub enum ScopePlan {
    Setup,
    Publish,
    Subscribe,
}

/// Whether a role may publish.
pub open spec fn role_publishes(role: TokenRole) -> bool {
    role == TokenRole::Publisher || role == TokenRole::PubSub
}

/// Whether a role may subscribe.
pub open spec fn role_subscribes(role: TokenRole) -> bool {
    role == TokenRole::Subscriber || role == TokenRole::PubSub
}

/// The scopes a token for a role carries, in order: setup, then publish, then subscribe.
pub open spec fn scope_plan(role: TokenRole) -> Seq<ScopePlan> {
    seq![ScopePlan::Setup] + (if role_publishes(role) {
        seq![ScopePlan::Publish]
    } else {
        Seq::empty()
    }) + (if role_subscribes(role) {
        seq![ScopePlan::Subscribe]
    } else {
        Seq::empty()
    })
}

/// The scopes a token for `role` carries.
pub fn plan_scopes(role: TokenRole) -> (r: Vec<ScopePlan>)
    ensures
        r@ == scope_plan(role),
{
    let mut plans: Vec<ScopePlan> = Vec::new();
    plans.push(ScopePlan::Setup);
    match role {
        TokenRole::Publisher | TokenRole::PubSub => plans.push(ScopePlan::Publish),
        _ => {},
    }
    match role {
        TokenRole::Subscriber | TokenRole::PubSub => plans.push(ScopePlan::Subscribe),
        _ => {},
    }
    assert(plans@ =~= scope_plan(role));
    plans
}

/// The lifetime of a token: the one requested, or the minter's default when
/// the request asks for none.
pub open spec fn token_lifetime(requested: u64, default_lifetime: u64) -> u64 {
    if requested > 0 {
        requested
    } else {
        default_lifetime
    }
}

/// The lifetime of a token for a request.
pub fn choose_lifetime(requested: u64, default_lifetime: u64) -> (r: u64)
    ensures
        r == token_lifetime(requested, default_lifetime),
{
    if requested > 0 {
        requested
    } else {
        default_lifetime
    }
}

/// The protected header of the COSE_Sign1 structure: `{1: alg}`, and `{16: typ}`
/// when the token has a type.
pub open spec fn protected_header(alg: int, typ: Option<Seq<char>>) -> CborView {
    CborView::Mapping(
        seq![(CborView::Integer(1), CborView::Integer(alg))] + match typ {
            Some(t) => seq![(CborView::Integer(16), CborView::Text(t))],
            None => Seq::empty(),
        },
    )
}

/// The COSE `Sig_structure` for COSE_Sign1: `["Signature1", protected, h'', payload]`.
pub open spec fn sig_structure(protected: Seq<u8>, payload: Seq<u8>) -> CborView {
    CborView::Array(
        seq![
            CborView::Text("Signature1"@),
            CborView::Bytes(protected),
            CborView::Bytes(Seq::empty()),
            CborView::Bytes(payload),
        ],
    )
}

/// The COSE_Sign1 structure: `[protected, {}, payload, signature]`.
pub open spec fn cose_sign1(protected: Seq<u8>, payload: Seq<u8>, signature: Seq<u8>) -> CborView {
    CborView::Array(
        seq![
            CborView::Bytes(protected),
            CborView::Mapping(Seq::empty()),
            CborView::Bytes(payload),
            CborView::Bytes(signature),
        ],
    )
}

/// The token text for a claims payload as `cat-token` writes it: the MoQ claim
/// moved to the relay's key as CBOR-in-bytes, the payload signed with ES256 over
/// its `Sig_structure`, and the COSE_Sign1 bytes in unpadded URL-safe base64.
pub open spec fn cose_sign1_token(payload_raw: Seq<u8>, alg: int, typ: Option<Seq<char>>, secret: Seq<u8>) -> Result<Seq<char>, Seq<char>> {
    let protected = cbor_encoding(protected_header(alg, typ));
    match remap_claim_spec(payload_raw, CLAIM_MOQT_CAT as int, CLAIM_MOQT_RELAY as int) {
        Err(e) => Err(e),
        Ok(payload) => match es256_der_signature(secret, cbor_encoding(sig_structure(protected, payload))) {
            None => Err("ES256 signing key rejected"@),
            Some(sig) => Ok(b64url(cbor_encoding(cose_sign1(protected, payload, sig)))),
        },
    }
}

/// The text of a result, or its message.
pub open spec fn text_result(r: Result<String, String>) -> Result<Seq<char>, Seq<char>> {
    match r {
        Ok(t) => Ok(t@),
        Err(e) => Err(e@),
    }
}

/// An optional string as its text.
pub open spec fn opt_text(t: Option<String>) -> Option<Seq<char>> {
    match t {
        Some(s) => Some(s@),
        None => None,
    }
}

/// Encodes a claims payload as a base64url COSE_Sign1 token signed with ES256.
pub fn encode_cose_sign1(payload_raw: &[u8], alg: i64, typ: Option<String>, secret: &[u8; 32]) -> (r: Result<String, String>)
    ensures
        text_result(r) == cose_sign1_token(payload_raw@, alg as int, opt_text(typ), secret@),
{
    let ghost typ_view = opt_text(typ);
    let mut entries: Vec<(Cbor, Cbor)> = Vec::new();
    entries.push((Cbor::Integer(1), Cbor::Integer(alg as i128)));
    match typ {
        Some(t) => entries.push((Cbor::Integer(16), Cbor::Text(t))),
        None => {},
    }
    let ghost ev = entries@;
    let header = Cbor::Mapping(entries);
    proof {
        let want = protected_header_entries(alg as int, typ_view);
        assert(ev.len() == want.len());
        assert(ev[0].0@ == CborView::Integer(1));
        if ev.len() > 1 {
            assert(ev[1].0@ == CborView::Integer(16));
        }
        if let CborView::Mapping(e) = header@ {
            assert forall|i: int| 0 <= i < e.len() implies #[trigger] e[i] == want[i] by {
                assert(e[i] == (ev[i].0@, ev[i].1@));
            }
            assert(e =~= want);
            assert forall|i: int| 0 <= i < e.len() implies cbor_wf(#[trigger] e[i].0) && cbor_wf(
                e[i].1,
            ) by {
                assert(e[i] == want[i]);
            }
            crate::cbor::lemma_wf_mapping(e);
        }
    }
    let protected = cbor_encode(&header);
    let payload = match remap_claim_key(payload_raw, CLAIM_MOQT_CAT, CLAIM_MOQT_RELAY) {
        Ok(p) => p,
        Err(e) => return Err(e),
    };
    let mut parts: Vec<Cbor> = Vec::new();
    parts.push(Cbor::Text("Signature1".to_owned()));
    parts.push(Cbor::Bytes(copy_bytes(&protected)));
    parts.push(Cbor::Bytes(Vec::new()));
    parts.push(Cbor::Bytes(copy_bytes(&payload)));
    let ghost pv = parts@;
    let structure = Cbor::Array(parts);
    proof {
        reveal_strlit("Signature1");
        let want = sig_structure_items(protected@, payload@);
        if let CborView::Array(items) = structure@ {
            assert forall|i: int| 0 <= i < items.len() implies #[trigger] items[i] == want[i] by {
                assert(items[i] == pv[i]@);
            }
            assert(items =~= want);
            crate::cbor::lemma_wf_array(items);
        }
    }
    let signing_input = cbor_encode(&structure);
    let sig = match es256_sign_der(secret, signing_input.as_slice()) {
        Some(s) => s,
        None => return Err("ES256 signing key rejected".to_owned()),
    };
    let mut items: Vec<Cbor> = Vec::new();
    items.push(Cbor::Bytes(protected));
    items.push(Cbor::Mapping(Vec::new()));
    items.push(Cbor::Bytes(payload));
    items.push(Cbor::Bytes(sig));
    let ghost sig_view = sig@;
    let ghost iv = items@;
    let envelope = Cbor::Array(items);
    proof {
        let want = cose_sign1_items(protected@, payload@, sig_view);
        if let CborView::Array(v) = envelope@ {
            assert forall|i: int| 0 <= i < v.len() implies #[trigger] v[i] == want[i] by {
                assert(v[i] == iv[i]@);
                if i == 1 {
                    if let CborView::Mapping(m) = iv[1]@ {
                        assert(m =~= Seq::<(CborView, CborView)>::empty());
                    }
                }
            }
            assert(v =~= want);
            crate::cbor::lemma_wf_array(v);
        }
    }
    let cose_bytes = cbor_encode(&envelope);
    Ok(b64url_encode(cose_bytes.as_slice()))
}

/// The entries of the protected header.
pub open spec fn protected_header_entries(alg: int, typ: Option<Seq<char>>) -> Seq<(CborView, CborView)> {
    match protected_header(alg, typ) {
        CborView::Mapping(e) => e,
        _ => Seq::empty(),
    }
}

/// The items of the `Sig_structure`.
pub open spec fn sig_structure_items(protected: Seq<u8>, payload: Seq<u8>) -> Seq<CborView> {
    match sig_structure(protected, payload) {
        CborView::Array(v) => v,
        _ => Seq::empty(),
    }
}

/// The items of the COSE_Sign1 structure.
pub open spec fn cose_sign1_items(protected: Seq<u8>, payload: Seq<u8>, signature: Seq<u8>) -> Seq<CborView> {
    match cose_sign1(protected, payload, signature) {
        CborView::Array(v) => v,
        _ => Seq::empty(),
    }
}

/// A copy of a byte vector.
fn copy_bytes(b: &Vec<u8>) -> (r: Vec<u8>)
    ensures
        r@ == b@,
{
    let mut out: Vec<u8> = Vec::new();
    let mut i: usize = 0;
    while i < b.len()
        invariant
            i <= b@.len(),
            out@ == b@.take(i as int),
        decreases b@.len() - i,
    {
        out.push(b[i]);
        i = i + 1;
        assert(out@ =~= b@.take(i as int));
    }
    assert(b@.take(b@.len() as int) =~= b@);
    out
}

/// The MoQ action codes of `cat-token`'s `MoqtAction`.
pub const ACTION_CLIENT_SETUP: u8 = 0;
pub const ACTION_PUBLISH_NAMESPACE: u8 = 2;
pub const ACTION_SUBSCRIBE_NAMESPACE: u8 = 3;
pub const ACTION_SUBSCRIBE: u8 = 4;
pub const ACTION_PUBLISH: u8 = 6;
pub const ACTION_FETCH: u8 = 7;

/// A MoQ scope of a token as plain values: its action codes, its namespace
/// prefix matches, and its track prefix match, if any.
pub struct ScopeSpec {
    pub actions: Vec<u8>,
    pub namespace_prefixes: Vec<Vec<u8>>,
    pub track_prefix: Option<Vec<u8>>,
}

/// A scope as mathematical values.
pub struct ScopeView {
    pub actions: Seq<u8>,
    pub namespace_prefixes: Seq<Seq<u8>>,
    pub track_prefix: Option<Seq<u8>>,
}

impl View for ScopeSpec {
    type V = ScopeView;

    open spec fn view(&self) -> ScopeView {
        ScopeView {
            actions: self.actions@,
            namespace_prefixes: self.namespace_prefixes@.map_values(|p: Vec<u8>| p@),
            track_prefix: match self.track_prefix {
                Some(t) => Some(t@),
                None => None,
            },
        }
    }
}

/// The scopes of a token as mathematical values.
pub open spec fn scope_views(scopes: Seq<ScopeSpec>) -> Seq<ScopeView> {
    scopes.map_values(|s: ScopeSpec| s@)
}

/// Whether every action code of a scope names a `MoqtAction` (0 to 8).
pub open spec fn actions_known(s: ScopeView) -> bool {
    forall|j: int| 0 <= j < s.actions.len() ==> #[trigger] s.actions[j] <= 8
}

/// The scope a plan entry stands for over a canonical namespace: setup is the
/// client-setup action alone; publishing is `MoqtScopeBuilder::publisher`'s
/// actions (publish-namespace, publish), subscribing its `subscriber` actions
/// (subscribe-namespace, subscribe, fetch), each with the namespace as one prefix
/// match and any track.
pub open spec fn scope_for(plan: ScopePlan, namespace: Seq<u8>) -> ScopeView {
    match plan {
        ScopePlan::Setup => ScopeView {
            actions: seq![ACTION_CLIENT_SETUP],
            namespace_prefixes: Seq::empty(),
            track_prefix: None,
        },
        ScopePlan::Publish => ScopeView {
            actions: seq![ACTION_PUBLISH_NAMESPACE, ACTION_PUBLISH],
            namespace_prefixes: seq![namespace],
            track_prefix: Some(Seq::empty()),
        },
        ScopePlan::Subscribe => ScopeView {
            actions: seq![ACTION_SUBSCRIBE_NAMESPACE, ACTION_SUBSCRIBE, ACTION_FETCH],
            namespace_prefixes: seq![namespace],
            track_prefix: Some(Seq::empty()),
        },
    }
}

/// The scopes of a token for a role over a canonical namespace, in plan order.
pub open spec fn role_scopes(role: TokenRole, namespace: Seq<u8>) -> Seq<ScopeView> {
    scope_plan(role).map_values(|p: ScopePlan| scope_for(p, namespace))
}

/// The CWT claims payload that `cat-token` writes for a token with this
/// algorithm, issuer, single audience, subject, expiry (Unix seconds) and MoQ
/// scopes, or `None` when chrono cannot represent the expiry.
pub uninterp spec fn cat_claims(
    alg: int,
    issuer: Seq<char>,
    audience: Seq<char>,
    subject: Seq<char>,
    exp: int,
    scopes: Seq<ScopeView>,
) -> Option<Seq<u8>>;

/// An optional byte vector as its contents.
pub open spec fn opt_payload(r: Option<Vec<u8>>) -> Option<Seq<u8>> {
    match r {
        Some(v) => Some(v@),
        None => None,
    }
}

/// Converts a scope into `cat-token`'s `MoqtScope`, one for one: each code to
/// its `MoqtAction`, each namespace prefix to `NamespaceMatch::prefix`, the track
/// prefix to `BinaryMatch::prefix`.
#[verifier::external_body]
fn moqt_scope_of(s: &ScopeSpec) -> MoqtScope
    requires
        actions_known(s@),
{
    MoqtScope {
        actions: s.actions.iter().map(|a| MoqtAction::try_from(*a as i32).unwrap()).collect(),
        namespace_matches: s.namespace_prefixes.iter().map(|p| NamespaceMatch::prefix(p.clone())).collect(),
        track_match: s.track_prefix.clone().map(BinaryMatch::prefix),
    }
}

/// `CatTokenBuilder` with `issuer`, `single_audience`, `subject`, `expires_at`
/// (the Unix time converted by `DateTime::from_timestamp`) and `moqt_scopes`,
/// then `Cwt::new(alg, token).encode_payload()`. `None` where chrono cannot
/// represent the time, which it can from the epoch to the end of year 262142;
/// the encoding's only error is that of `ciborium::ser::into_writer` into a byte
/// vector, which does not fail. The payload is a CBOR map with integer keys, so
/// `ciborium` reads it back as a map.
#[verifier::external_body]
fn cat_claims_payload(
    alg: i64,
    issuer: &str,
    audience: &str,
    subject: &str,
    exp: i64,
    scopes: &Vec<ScopeSpec>,
) -> (r: Option<Vec<u8>>)
    requires
        forall|i: int| 0 <= i < scopes@.len() ==> actions_known(#[trigger] scopes@[i]@),
    ensures
        opt_payload(r) == cat_claims(alg as int, issuer@, audience@, subject@, exp as int, scope_views(scopes@)),
        0 <= exp <= MAX_UNIX_SECS ==> r is Some,
        r matches Some(p) ==> cbor_decoding(p@) matches Ok(CborView::Mapping(_)),
{
    let t = DateTime::from_timestamp(exp, 0)?;
    let token = CatTokenBuilder::new().issuer(issuer).single_audience(audience).subject(subject)
        .expires_at(t).moqt_scopes(scopes.iter().map(moqt_scope_of).collect()).build();
    Cwt::new(alg, token).encode_payload().ok()
}

/// `cat_token::ALG_ES256`, the COSE algorithm identifier of ES256.
#[verifier::external_body]
fn es256_alg_id() -> (r: i64)
    ensures
        r == -7,
{
    cat_token::ALG_ES256
}

/// The header type of a `Cwt::new(alg, ..)`, which `Cwt::new` sets to `CAT`
/// whatever the token.
#[verifier::external_body]
fn cwt_header_typ(alg: i64) -> (r: Option<String>)
    ensures
        opt_text(r) == Some("CAT"@),
{
    Cwt::new(alg, CatToken::new()).header.typ
}

/// A length as four big-endian bytes (modulo 2^32).
pub open spec fn be32(n: int) -> Seq<u8> {
    seq![
        ((n / 0x100_0000) % 256) as u8,
        ((n / 0x1_0000) % 256) as u8,
        ((n / 0x100) % 256) as u8,
        (n % 256) as u8,
    ]
}

/// The canonical form of a namespace tuple that relays match scopes against:
/// each element as its 4-byte big-endian length, then its bytes.
pub open spec fn canonical_namespace(parts: Seq<Seq<u8>>) -> Seq<u8>
    decreases parts.len(),
{
    if parts.len() == 0 {
        Seq::empty()
    } else {
        canonical_namespace(parts.drop_last()) + be32(parts.last().len() as int) + parts.last()
    }
}

/// The canonical form of a namespace tuple.
pub fn canonical_namespace_bytes(parts: &Vec<Vec<u8>>) -> (r: Vec<u8>)
    ensures
        r@ == canonical_namespace(parts@.map_values(|p: Vec<u8>| p@)),
{
    let ghost pv = parts@.map_values(|p: Vec<u8>| p@);
    let mut out: Vec<u8> = Vec::new();
    let mut i: usize = 0;
    assert(pv.take(0) =~= Seq::<Seq<u8>>::empty());
    while i < parts.len()
        invariant
            pv == parts@.map_values(|p: Vec<u8>| p@),
            i <= parts@.len(),
            out@ == canonical_namespace(pv.take(i as int)),
        decreases parts@.len() - i,
    {
        let part = &parts[i];
        let l: u64 = part.len() as u64;
        out.push(((l / 0x100_0000) % 256) as u8);
        out.push(((l / 0x1_0000) % 256) as u8);
        out.push(((l / 0x100) % 256) as u8);
        out.push((l % 256) as u8);
        crate::text::push_all(&mut out, part.as_slice());
        proof {
            assert(pv.take(i + 1).drop_last() =~= pv.take(i as int));
            assert(pv.take(i + 1).last() == part@);
        }
        i = i + 1;
        assert(out@ =~= canonical_namespace(pv.take(i as int)));
    }
    assert(pv.take(parts@.len() as int) =~= pv);
    out
}

/// The action codes of `MoqtScopeBuilder::new().publisher()`: publish-namespace,
/// then publish.
#[verifier::external_body]
fn publisher_actions() -> (r: Vec<u8>)
    ensures
        r@ == seq![ACTION_PUBLISH_NAMESPACE, ACTION_PUBLISH],
{
    MoqtScopeBuilder::new().publisher().build().actions.iter().map(|a| *a as u8).collect()
}

/// The action codes of `MoqtScopeBuilder::new().subscriber()`:
/// subscribe-namespace, subscribe, then fetch.
#[verifier::external_body]
fn subscriber_actions() -> (r: Vec<u8>)
    ensures
        r@ == seq![ACTION_SUBSCRIBE_NAMESPACE, ACTION_SUBSCRIBE, ACTION_FETCH],
{
    MoqtScopeBuilder::new().subscriber().build().actions.iter().map(|a| *a as u8).collect()
}

/// The scope of a token for one entry of its plan, over the namespace's parts:
/// the setup action, or the publish or subscribe actions over the namespace's
/// canonical form as a single prefix and any track.
fn build_scope(plan: ScopePlan, namespace_parts: &Vec<Vec<u8>>) -> (r: ScopeSpec)
    ensures
        r@ == scope_for(plan, canonical_namespace(namespace_parts@.map_values(|p: Vec<u8>| p@))),
        actions_known(r@),
{
    let ghost ns = canonical_namespace(namespace_parts@.map_values(|p: Vec<u8>| p@));
    let r = match plan {
        ScopePlan::Setup => ScopeSpec {
            actions: vec![ACTION_CLIENT_SETUP],
            namespace_prefixes: Vec::new(),
            track_prefix: None,
        },
        ScopePlan::Publish => ScopeSpec {
            actions: publisher_actions(),
            namespace_prefixes: vec![canonical_namespace_bytes(namespace_parts)],
            track_prefix: Some(Vec::new()),
        },
        ScopePlan::Subscribe => ScopeSpec {
            actions: subscriber_actions(),
            namespace_prefixes: vec![canonical_namespace_bytes(namespace_parts)],
            track_prefix: Some(Vec::new()),
        },
    };
    assert(r@.actions =~= scope_for(plan, ns).actions);
    assert(r@.namespace_prefixes =~= scope_for(plan, ns).namespace_prefixes);
    r
}

/// The Unix time `lifetime` seconds after `now`, the lifetime taken as a signed
/// 64-bit integer (so a lifetime past `i64::MAX` counts backwards), if it fits an
/// `i64`.
pub open spec fn expiry(now: i64, lifetime: u64) -> Option<i64> {
    let e = now + wrapped_i64(lifetime);
    if i64::MIN <= e <= i64::MAX {
        Some(e as i64)
    } else {
        None
    }
}

/// The Unix time `lifetime` seconds after `now`, the lifetime taken as a signed
/// 64-bit integer, if it fits an `i64`.
pub fn expiry_after(now: i64, lifetime: u64) -> (r: Option<i64>)
    ensures
        r == expiry(now, lifetime),
{
    let sum: i128 = now as i128 + wrap_i64(lifetime) as i128;
    if i64::MIN as i128 <= sum && sum <= i64::MAX as i128 {
        Some(sum as i64)
    } else {
        None
    }
}

/// The outcome of signing a claims payload under `key` for a token with this
/// lifetime: the C4M token, or the signing error.
pub open spec fn minted_from(payload: Seq<u8>, key: Seq<u8>, lifetime: u64, r: Result<MintedTokenView, Seq<char>>) -> bool {
    match cose_sign1_token(payload, -7, Some("CAT"@), key) {
        Ok(t) => r == Ok::<MintedTokenView, Seq<char>>(
            MintedTokenView { token: t, token_type: C4M_TOKEN_TYPE, expires_in: lifetime },
        ),
        Err(e) => r == Err::<MintedTokenView, Seq<char>>(e),
    }
}

/// What minting for a request at Unix time `now` gives, for a C4M minter with
/// this key, issuer, audience and default lifetime. The token lasts the requested
/// lifetime, or the default when none is asked for, and expires at `now` plus
/// that lifetime. When that expiry does not fit an `i64`, or `cat-token` cannot
/// write it, the answer is the lifetime error; otherwise it is the token that
/// signs the claims payload (the request's claims at that expiry), or the signing
/// error. An expiry from the epoch to the end of year 262142 always gives a token.
pub open spec fn c4m_outcome(
    key: Seq<u8>,
    issuer: Seq<char>,
    audience: Seq<char>,
    default_lifetime: u64,
    request: MintRequestView,
    now: i64,
    r: Result<MintedTokenView, Seq<char>>,
) -> bool {
    let lifetime = token_lifetime(request.lifetime_secs, default_lifetime);
    match expiry(now, lifetime) {
        None => r == Err::<MintedTokenView, Seq<char>>("token lifetime out of range"@),
        Some(exp) => {
            &&& (0 <= exp <= MAX_UNIX_SECS ==> request_claims(issuer, audience, request, exp as int) is Some
                && r is Ok)
            &&& match request_claims(issuer, audience, request, exp as int) {
                None => r == Err::<MintedTokenView, Seq<char>>("token lifetime out of range"@),
                Some(payload) => minted_from(payload, key, lifetime, r),
            }
        },
    }
}

/// What a C4M minter with this key, issuer, audience and default lifetime answers
/// a request: the outcome of minting it at some moment of the clock's range.
pub open spec fn c4m_minted(
    key: Seq<u8>,
    issuer: Seq<char>,
    audience: Seq<char>,
    default_lifetime: u64,
    request: MintRequestView,
    r: Result<MintedTokenView, Seq<char>>,
) -> bool {
    exists|now: i64|
        0 <= now <= MAX_UNIX_SECS && #[trigger] c4m_outcome(key, issuer, audience, default_lifetime, request, now, r)
}

/// The claims payload of a token for a request that expires at `exp`, with this
/// issuer and audience: the request's subject, and the scopes of the request's
/// role over the canonical form of its namespace.
pub open spec fn request_claims(issuer: Seq<char>, audience: Seq<char>, request: MintRequestView, exp: int) -> Option<Seq<u8>> {
    cat_claims(
        -7,
        issuer,
        audience,
        request.subject,
        exp,
        role_scopes(request.role, canonical_namespace(request.namespace_parts)),
    )
}

/// Mints C4M tokens: CAT tokens for MoQ signed with ES256.
pub struct C4mMinter {
    secret: [u8; 32],
    issuer: String,
    audience: String,
    default_lifetime: u64,
}

impl C4mMinter {
    /// The secret scalar of the signing key.
    pub closed spec fn key(&self) -> Seq<u8> {
        self.secret@
    }

    /// The issuer claim of minted tokens.
    pub closed spec fn issuer_name(&self) -> Seq<char> {
        self.issuer@
    }

    /// The audience claim of minted tokens.
    pub closed spec fn audience_name(&self) -> Seq<char> {
        self.audience@
    }

    /// The lifetime of a token whose request asks for none.
    pub closed spec fn default_lifetime_secs(&self) -> u64 {
        self.default_lifetime
    }

    /// A minter signing with the P-256 key in a PKCS#8 PEM, or why the PEM is refused.
    pub fn new(private_key_pem: &str, issuer: String, audience: String, default_lifetime: u64) -> (r: Result<C4mMinter, String>)
        ensures
            match r {
                Ok(m) => {
                    &&& es256_pem_key(private_key_pem@) == Ok::<Seq<u8>, Seq<char>>(m.key())
                    &&& m.issuer_name() == issuer@
                    &&& m.audience_name() == audience@
                    &&& m.default_lifetime_secs() == default_lifetime
                },
                Err(e) => exists|why: Seq<char>|
                    {
                        &&& es256_pem_key(private_key_pem@) == Err::<Seq<u8>, Seq<char>>(why)
                        &&& e@ == "invalid ES256 private key PEM: "@ + why
                    },
            },
    {
        match es256_key_from_pem(private_key_pem) {
            Ok(secret) => Ok(C4mMinter { secret, issuer, audience, default_lifetime }),
            Err(why) => {
                let mut msg = TextBuf::new();
                msg.push_str("invalid ES256 private key PEM: ");
                msg.push_str(why.as_str());
                Err(msg.into_string())
            },
        }
    }

    /// Its key signs every message: it came from a valid private key.
    #[verifier::type_invariant]
    spec fn signs_every_message(&self) -> bool {
        forall|msg: Seq<u8>| #[trigger] es256_der_signature(self.secret@, msg) is Some
    }

    /// The claims payload of a token for a request that expires at `exp`: this
    /// minter's issuer and audience, the request's subject, and the scopes of the
    /// request's role over the canonical form of its namespace.
    pub open spec fn claims_for(&self, request: MintRequestView, exp: int) -> Option<Seq<u8>> {
        request_claims(self.issuer_name(), self.audience_name(), request, exp)
    }

    /// What minting for a request at Unix time `now` gives (see `c4m_outcome`).
    pub open spec fn mint_outcome(&self, request: MintRequestView, now: i64, r: Result<MintedTokenView, Seq<char>>) -> bool {
        c4m_outcome(
            self.key(),
            self.issuer_name(),
            self.audience_name(),
            self.default_lifetime_secs(),
            request,
            now,
            r,
        )
    }

    /// Mints a token for the request at Unix time `now`.
    pub fn mint_at(&self, request: &MintRequest, now: i64) -> (r: Result<MintedToken, String>)
        ensures
            self.mint_outcome(request@, now, mint_view(r)),
            r matches Err(e) ==> e@ == "token lifetime out of range"@ || exists|payload: Seq<u8>|
                remap_claim_spec(payload, CLAIM_MOQT_CAT as int, CLAIM_MOQT_RELAY as int) == Err::<
                    Seq<u8>,
                    Seq<char>,
                >(e@),
    {
        proof {
            use_type_invariant(self);
        }
        let lifetime = choose_lifetime(request.lifetime_secs, self.default_lifetime);
        let plans = plan_scopes(request.role);
        let ghost ns = canonical_namespace(request.namespace_parts@.map_values(|p: Vec<u8>| p@));
        let ghost want = role_scopes(request.role, ns);
        let mut scopes: Vec<ScopeSpec> = Vec::new();
        let mut i: usize = 0;
        assert(scope_views(scopes@) =~= want.take(0));
        while i < plans.len()
            invariant
                plans@ == scope_plan(request.role),
                want == role_scopes(request.role, ns),
                ns == canonical_namespace(request.namespace_parts@.map_values(|p: Vec<u8>| p@)),
                i <= plans@.len(),
                want.len() == plans@.len(),
                scopes@.len() == i,
                scope_views(scopes@) == want.take(i as int),
                forall|k: int| 0 <= k < scopes@.len() ==> actions_known(#[trigger] scopes@[k]@),
            decreases plans@.len() - i,
        {
            let sc = build_scope(plans[i], &request.namespace_parts);
            assert(sc@ == want[i as int]);
            let ghost before = scopes@;
            scopes.push(sc);
            assert(scopes@ == before.push(sc));
            assert forall|k: int| 0 <= k <= i implies #[trigger] scope_views(scopes@)[k] == want.take(i + 1)[k] by {
                assert(scope_views(scopes@)[k] == scopes@[k]@);
                if k < i {
                    assert(scopes@[k] == before[k]);
                    assert(scope_views(before)[k] == before[k]@);
                    assert(scope_views(before)[k] == want.take(i as int)[k]);
                } else {
                    assert(scopes@[k] == sc);
                }
            }
            assert(scope_views(scopes@).len() == i + 1);
            i = i + 1;
            assert(scope_views(scopes@) =~= want.take(i as int));
        }
        assert(want.take(plans@.len() as int) =~= want);
        let exp = match expiry_after(now, lifetime) {
            Some(t) => t,
            None => return Err("token lifetime out of range".to_owned()),
        };
        let alg = es256_alg_id();
        let payload = match cat_claims_payload(
            alg,
            self.issuer.as_str(),
            self.audience.as_str(),
            request.subject.as_str(),
            exp,
            &scopes,
        ) {
            Some(p) => p,
            None => return Err("token lifetime out of range".to_owned()),
        };
        let typ = cwt_header_typ(alg);
        let ghost pv = payload@;
        let text = match encode_cose_sign1(payload.as_slice(), alg, typ, &self.secret) {
            Ok(t) => t,
            Err(e) => {
                assert(minted_from(pv, self.key(), lifetime, Err::<MintedTokenView, Seq<char>>(e@)));
                return Err(e);
            },
        };
        let r = Ok(MintedToken { token: text, token_type: C4M_TOKEN_TYPE, expires_in: lifetime });
        assert(minted_from(pv, self.key(), lifetime, mint_view(r)));
        r
    }

}

impl TokenMinter for C4mMinter {
    open spec fn minted(&self, request: MintRequestView, r: Result<MintedTokenView, Seq<char>>) -> bool {
        c4m_minted(self.key(), self.issuer_name(), self.audience_name(), self.default_lifetime_secs(), request, r)
    }

    fn mint(&self, request: &MintRequest) -> (r: Result<MintedToken, String>)
        ensures
            exists|now: i64| 0 <= now <= MAX_UNIX_SECS && #[trigger] self.mint_outcome(request@, now, mint_view(r)),
    {
        let now = unix_now();
        let r = self.mint_at(request, now);
        assert(c4m_outcome(
            self.key(),
            self.issuer_name(),
            self.audience_name(),
            self.default_lifetime_secs(),
            request@,
            now,
            mint_view(r),
        ));
        r
    }

    fn token_type_name(&self) -> (r: &'static str)
        ensures
            r@ == "c4m"@,
    {
        "c4m"
    }
}

} // verus!
