//! Privacy Pass on the attester side: TokenChallenge construction (RFC 9578
//! §2.1), the MoQ action-scope extension for Partially Blind RSA tokens, the
//! issuer key picked from the issuer directory, and the HTTP message signature
//! that vouches for a forwarded token request.

use vstd::prelude::*;
use vstd::utf8::encode_utf8;
use rand::RngCore;
use crate::text::{
    TextBuf, ascii_chars, ascii_bytes, all_ascii, hex4, push_hex4, push_str, push_all,
    strip_prefix_spec, strip_suffix_spec, lemma_hex4_ascii, lemma_encode_utf8_concat,
};
use crate::b64::{
    b64url, b64std, b64_decode, b64url_encode, b64url_decode, b64std_encode,
    b64std_decode, b64std_error_text, lemma_decode_encode, lemma_encode_ascii,
};
use crate::crypto::{
    sha256, sha256_digest, ed25519_public, ed25519_sign, ed25519_signature, ed25519_valid, Ed25519SigningKey,
};
use crate::error::{AppError, ErrorView, internal};
use crate::issuer::{
    TOKEN_TYPE_BLIND_RSA, TOKEN_TYPE_PARTIALLY_BLIND_RSA, digest_header, signature_base, signature_field,
    http_signature_check, IssuerDirectory,
};
use crate::api::{ChallengeRequest, ChallengeResponse};

verus! {

/// Extension type carrying a MoQ action scope.
pub const EXTENSION_TYPE_MOQ_ACTIONS: u16 = 0x0001;

/// Two bytes, big-endian, of a value below 65536.
pub open spec fn be16(v: int) -> Seq<u8> {
    seq![(v / 256) as u8, (v % 256) as u8]
}

/// A length prefix as the `as u16` cast writes it: the length modulo 65536.
pub open spec fn len16(n: nat) -> Seq<u8> {
    be16((n % 65536) as int)
}

/// TokenChallenge: token_type(2) issuer_name<2> redemption_context<1> origin_info<2>.
pub open spec fn token_challenge_bytes(
    token_type: u16,
    issuer_name: Seq<u8>,
    redemption_context: Seq<u8>,
    origin_info: Seq<u8>,
) -> Seq<u8> {
    be16(token_type as int) + len16(issuer_name.len()) + issuer_name + seq![32u8]
        + redemption_context + len16(origin_info.len()) + origin_info
}

fn push_be16(out: &mut Vec<u8>, v: u16)
    ensures
        final(out)@ == old(out)@ + be16(v as int),
{
    out.push((v / 256) as u8);
    out.push((v % 256) as u8);
    assert(final(out)@ =~= old(out)@ + be16(v as int));
}

fn push_len16(out: &mut Vec<u8>, n: usize)
    ensures
        final(out)@ == old(out)@ + len16(n as nat),
{
    push_be16(out, (n % 65536) as u16);
}

/// Builds a TokenChallenge.
pub fn build_token_challenge(
    token_type: u16,
    issuer_name: &[u8],
    redemption_context: &[u8; 32],
    origin_info: &[u8],
) -> (r: Vec<u8>)
    ensures
        r@ == token_challenge_bytes(token_type, issuer_name@, redemption_context@, origin_info@),
{
    let mut c: Vec<u8> = Vec::new();
    push_be16(&mut c, token_type);
    push_len16(&mut c, issuer_name.len());
    push_all(&mut c, issuer_name);
    c.push(32);
    push_all(&mut c, redemption_context);
    push_len16(&mut c, origin_info.len());
    push_all(&mut c, origin_info);
    assert(c@ =~= token_challenge_bytes(
        token_type,
        issuer_name@,
        redemption_context@,
        origin_info@,
    ));
    c
}

/// The compact JSON text `serde_json` writes for an object whose members are
/// lists of strings, given as (key, items) pairs (a `serde_json::Map`, which
/// keeps its keys sorted).
pub uninterp spec fn json_lists_object(entries: Seq<(Seq<char>, Seq<Seq<char>>)>) -> Seq<u8>;

/// (key, items) pairs as mathematical values.
pub open spec fn lists_view(entries: Seq<(String, Vec<String>)>) -> Seq<(Seq<char>, Seq<Seq<char>>)> {
    entries.map_values(|e: (String, Vec<String>)| (e.0@, e.1@.map_values(|s: String| s@)))
}

/// `serde_json::to_vec` of the `serde_json::Map` whose members are these keys,
/// each with its strings as a JSON array.
#[verifier::external_body]
fn json_lists(entries: &Vec<(String, Vec<String>)>) -> (r: Vec<u8>)
    ensures
        r@ == json_lists_object(lists_view(entries@)),
{
    let m: serde_json::Map<String, serde_json::Value> =
        entries.iter().map(|(k, v)| (k.clone(), serde_json::Value::from(v.clone()))).collect();
    serde_json::to_vec(&m).unwrap_or_default()
}

/// The namespace pattern a room's scope covers: `mocha/*/<room>/*`.
pub open spec fn moq_scope_pattern(room_id: Seq<char>) -> Seq<char> {
    "mocha/*/"@ + room_id + "/*"@
}

/// The namespace pattern of a room's scope.
fn scope_pattern(room_id: &str) -> (r: String)
    ensures
        r@ == moq_scope_pattern(room_id@),
{
    let mut pattern = TextBuf::new();
    pattern.push_str("mocha/*/");
    pattern.push_str(room_id);
    pattern.push_str("/*");
    pattern.into_string()
}

/// The JSON object `{"pub":[<pattern>],"sub":[<pattern>]}`, compact.
pub open spec fn moq_scope_json(room_id: Seq<char>) -> Seq<u8> {
    json_lists_object(
        seq![("pub"@, seq![moq_scope_pattern(room_id)]), ("sub"@, seq![moq_scope_pattern(room_id)])],
    )
}

/// Extensions with one MoQ action-scope extension:
/// extensions_length(2) extension_type(2) extension_data_length(2) data.
pub open spec fn moq_extensions(room_id: Seq<char>) -> Seq<u8> {
    let data = moq_scope_json(room_id);
    let ext = be16(EXTENSION_TYPE_MOQ_ACTIONS as int) + len16(data.len()) + data;
    len16(ext.len()) + ext
}

/// Builds the Privacy Pass extensions that scope a token to a room.
pub fn build_moq_extensions(room_id: &str) -> (r: Vec<u8>)
    ensures
        r@ == moq_extensions(room_id@),
{
    let mut entries: Vec<(String, Vec<String>)> = Vec::new();
    entries.push(("pub".to_owned(), vec![scope_pattern(room_id)]));
    entries.push(("sub".to_owned(), vec![scope_pattern(room_id)]));
    let ghost ev = entries@;
    let ghost want = seq![("pub"@, seq![moq_scope_pattern(room_id@)]), ("sub"@, seq![moq_scope_pattern(room_id@)])];
    assert(lists_view(ev) =~= want) by {
        assert(ev[0].1@.map_values(|s: String| s@) =~= seq![moq_scope_pattern(room_id@)]);
        assert(ev[1].1@.map_values(|s: String| s@) =~= seq![moq_scope_pattern(room_id@)]);
    }
    let data = json_lists(&entries);
    assert(data@ =~= moq_scope_json(room_id@));
    let mut ext: Vec<u8> = Vec::new();
    push_be16(&mut ext, EXTENSION_TYPE_MOQ_ACTIONS);
    push_len16(&mut ext, data.len());
    push_all(&mut ext, data.as_slice());
    let mut envelope: Vec<u8> = Vec::new();
    push_len16(&mut envelope, ext.len());
    push_all(&mut envelope, ext.as_slice());
    assert(envelope@ =~= moq_extensions(room_id@));
    envelope
}

/// The token type a challenge request asks for (Partially Blind RSA unless given).
pub fn challenge_token_type(request: &ChallengeRequest) -> (r: u16)
    ensures
        r == match request.token_type {
            Some(t) => t,
            None => TOKEN_TYPE_PARTIALLY_BLIND_RSA,
        },
{
    match request.token_type {
        Some(t) => t,
        None => TOKEN_TYPE_PARTIALLY_BLIND_RSA,
    }
}

/// The room a challenge scopes its extensions to (`*` unless given).
pub open spec fn challenge_room(room_id: Option<String>) -> Seq<char> {
    match room_id {
        Some(r) => r@,
        None => "*"@,
    }
}

/// The answer to a challenge request, for a given redemption context and issuer key:
/// the base64url TokenChallenge and key, and for Partially Blind RSA the base64url
/// extensions scoping the token to the room.
pub open spec fn challenge_answer(
    request: ChallengeRequest,
    issuer_name: Seq<char>,
    origin_info: Seq<char>,
    redemption_context: Seq<u8>,
    issuer_key: Seq<u8>,
    r: ChallengeResponse,
) -> bool {
    let tt = match request.token_type {
        Some(t) => t,
        None => TOKEN_TYPE_PARTIALLY_BLIND_RSA,
    };
    &&& r.token_type == tt
    &&& r.token_challenge@ == b64url(
        token_challenge_bytes(
            tt,
            encode_utf8(issuer_name),
            redemption_context,
            encode_utf8(origin_info),
        ),
    )
    &&& r.issuer_key@ == b64url(issuer_key)
    &&& if tt == TOKEN_TYPE_PARTIALLY_BLIND_RSA {
        r.extensions matches Some(e) && e@ == b64url(moq_extensions(challenge_room(request.room_id)))
    } else {
        r.extensions is None
    }
}

/// The challenge for a request, given the redemption context and the issuer's key.
pub fn challenge_response(
    request: &ChallengeRequest,
    issuer_name: &str,
    origin_info: &str,
    redemption_context: &[u8; 32],
    issuer_key: &[u8],
) -> (r: ChallengeResponse)
    ensures
        challenge_answer(*request, issuer_name@, origin_info@, redemption_context@, issuer_key@, r),
{
    let token_type = challenge_token_type(request);
    let challenge = build_token_challenge(
        token_type,
        issuer_name.as_bytes(),
        redemption_context,
        origin_info.as_bytes(),
    );
    let extensions = if token_type == TOKEN_TYPE_PARTIALLY_BLIND_RSA {
        let ext = match &request.room_id {
            Some(r) => build_moq_extensions(r.as_str()),
            None => build_moq_extensions("*"),
        };
        Some(b64url_encode(ext.as_slice()))
    } else {
        None
    };
    ChallengeResponse {
        token_type,
        token_challenge: b64url_encode(challenge.as_slice()),
        issuer_key: b64url_encode(issuer_key),
        extensions,
    }
}

/// 32 random bytes (`rand::rng().fill_bytes`).
#[verifier::external_body]
fn random_redemption_context() -> (r: [u8; 32]) {
    let mut c = [0u8; 32];
    rand::rng().fill_bytes(&mut c);
    c
}

/// Issues a challenge with a fresh random redemption context.
pub fn challenge(
    request: &ChallengeRequest,
    issuer_name: &str,
    origin_info: &str,
    issuer_key: &[u8],
) -> (r: ChallengeResponse)
    ensures
        exists|ctx: Seq<u8>|
            ctx.len() == 32 && challenge_answer(
                *request,
                issuer_name@,
                origin_info@,
                ctx,
                issuer_key@,
                r,
            ),
{
    let ctx = random_redemption_context();
    challenge_response(request, issuer_name, origin_info, &ctx, issuer_key)
}

/// One entry of a fetched issuer directory: its `token-type` when that is an
/// unsigned integer, its `token-key` when that is a string.
pub struct DirectoryEntry {
    pub token_type: Option<u64>,
    pub token_key: Option<String>,
}

/// A fetched issuer directory: its `token-keys` when that is an array.
pub struct FetchedDirectory {
    pub token_keys: Option<Vec<DirectoryEntry>>,
}

/// A key text decoded as URL-safe base64, else as standard base64.
pub open spec fn decode_issuer_key(key: Seq<char>) -> Result<Seq<u8>, ErrorView> {
    match b64_decode(true, false, key) {
        Some(k) => Ok(k),
        None => match b64_decode(false, true, ascii_chars(encode_utf8(key))) {
            Some(k) => Ok(k),
            None => Err(
                ErrorView::Internal(
                    "Failed to decode issuer key: "@ + b64std_error_text(encode_utf8(key)),
                ),
            ),
        },
    }
}

/// The key of the first entry with the token type, from the entries at `i` on.
pub open spec fn select_key_from(entries: Seq<DirectoryEntry>, i: int, token_type: u16) -> Result<
    Seq<u8>,
    ErrorView,
>
    decreases entries.len() - i,
{
    if i >= entries.len() {
        Err(
            ErrorView::Internal(
                "No token key for type 0x"@ + ascii_chars(hex4(token_type))
                    + " found in issuer directory"@,
            ),
        )
    } else if entries[i].token_type == Some(token_type as u64) {
        match entries[i].token_key {
            None => Err(ErrorView::Internal("token-key not a string"@)),
            Some(k) => decode_issuer_key(k@),
        }
    } else {
        select_key_from(entries, i + 1, token_type)
    }
}

/// The issuer key for a token type from a fetched directory.
pub open spec fn select_issuer_key_spec(dir: FetchedDirectory, token_type: u16) -> Result<
    Seq<u8>,
    ErrorView,
> {
    match dir.token_keys {
        None => Err(ErrorView::Internal("No token-keys in issuer directory"@)),
        Some(entries) => select_key_from(entries@, 0, token_type),
    }
}

fn decode_key(key: &str) -> (r: Result<Vec<u8>, AppError>)
    ensures
        match r {
            Ok(k) => decode_issuer_key(key@) == Ok::<Seq<u8>, ErrorView>(k@),
            Err(e) => decode_issuer_key(key@) == Err::<Seq<u8>, ErrorView>(e@),
        },
{
    match b64url_decode(key) {
        Some(k) => Ok(k),
        None => match b64std_decode(key.as_bytes()) {
            Ok(k) => Ok(k),
            Err(e) => {
                let mut t = TextBuf::new();
                t.push_str("Failed to decode issuer key: ");
                t.push_str(e.as_str());
                Err(AppError::Internal(t.into_string()))
            },
        },
    }
}

/// Whether a fetched directory carries the entries of a published one: the same
/// token types and key texts, in the same order.
pub open spec fn fetched_as_published(dir: FetchedDirectory, published: IssuerDirectory) -> bool {
    &&& dir.token_keys matches Some(e) && e@.len() == published.token_keys@.len()
    &&& forall|i: int|
        0 <= i < published.token_keys@.len() ==> {
            &&& (#[trigger] dir.token_keys->Some_0@[i]).token_type == Some(published.token_keys@[i].token_type as u64)
            &&& dir.token_keys->Some_0@[i].token_key matches Some(k) && k@ == published.token_keys@[i].token_key@
        }
}

/// The attester reads back the keys the issuer publishes: from a directory that
/// carries the entries of the issuer's directory for its two public keys, the
/// Blind RSA type gives the Blind RSA key, the Partially Blind RSA type the
/// Partially Blind RSA key, and every other type is refused.
pub proof fn lemma_directory_round_trip(
    blind_rsa_spki: Seq<u8>,
    pbrs_spki: Seq<u8>,
    published: IssuerDirectory,
    dir: FetchedDirectory,
    token_type: u16,
)
    requires
        published.token_keys@.len() == 2,
        published.token_keys@[0].token_type == TOKEN_TYPE_BLIND_RSA,
        published.token_keys@[0].token_key@ == b64url(blind_rsa_spki),
        published.token_keys@[1].token_type == TOKEN_TYPE_PARTIALLY_BLIND_RSA,
        published.token_keys@[1].token_key@ == b64url(pbrs_spki),
        fetched_as_published(dir, published),
    ensures
        select_issuer_key_spec(dir, TOKEN_TYPE_BLIND_RSA) == Ok::<Seq<u8>, ErrorView>(blind_rsa_spki),
        select_issuer_key_spec(dir, TOKEN_TYPE_PARTIALLY_BLIND_RSA) == Ok::<Seq<u8>, ErrorView>(pbrs_spki),
        token_type != TOKEN_TYPE_BLIND_RSA && token_type != TOKEN_TYPE_PARTIALLY_BLIND_RSA
            ==> select_issuer_key_spec(dir, token_type) is Err,
{
    let e = dir.token_keys->Some_0@;
    assert(e[0].token_type == Some(published.token_keys@[0].token_type as u64));
    assert(e[1].token_type == Some(published.token_keys@[1].token_type as u64));
    lemma_decode_encode(true, false, blind_rsa_spki);
    lemma_decode_encode(true, false, pbrs_spki);
    assert(select_key_from(e, 1, TOKEN_TYPE_PARTIALLY_BLIND_RSA) == Ok::<Seq<u8>, ErrorView>(pbrs_spki));
    assert(select_key_from(e, 2, token_type) is Err);
    assert(select_key_from(e, 1, token_type) == select_key_from(e, 2, token_type) || token_type
        == TOKEN_TYPE_PARTIALLY_BLIND_RSA);
}

/// Picks the issuer's public key for a token type out of its directory: the
/// first entry of that type, its key decoded from base64.
pub fn select_issuer_key(dir: &FetchedDirectory, token_type: u16) -> (r: Result<Vec<u8>, AppError>)
    ensures
        match r {
            Ok(k) => select_issuer_key_spec(*dir, token_type) == Ok::<Seq<u8>, ErrorView>(k@),
            Err(e) => select_issuer_key_spec(*dir, token_type) == Err::<Seq<u8>, ErrorView>(e@),
        },
{
    let keys = match &dir.token_keys {
        Some(k) => k,
        None => {
            return Err(internal("No token-keys in issuer directory"));
        },
    };
    let mut i: usize = 0;
    while i < keys.len()
        invariant
            i <= keys@.len(),
            dir.token_keys == Some(*keys),
            select_key_from(keys@, 0, token_type) == select_key_from(keys@, i as int, token_type),
        decreases keys@.len() - i,
    {
        let entry = &keys[i];
        if entry.token_type == Some(token_type as u64) {
            return match &entry.token_key {
                None => Err(internal("token-key not a string")),
                Some(k) => decode_key(k.as_str()),
            };
        }
        i = i + 1;
    }
    let mut t = TextBuf::new();
    t.push_str("No token key for type 0x");
    let mut h: Vec<u8> = Vec::new();
    push_hex4(&mut h, token_type);
    proof {
        lemma_hex4_ascii(token_type);
    }
    t.push_ascii(h.as_slice());
    t.push_str(" found in issuer directory");
    Err(AppError::Internal(t.into_string()))
}

/// The signature parameters the attester signs with.
pub open spec fn attester_params() -> Seq<char> {
    "(\"content-digest\");alg=\"ed25519\";keyid=\"attester\""@
}

/// The `Signature-Input` header the attester sends.
pub open spec fn attester_signature_input() -> Seq<char> {
    "sig1="@ + attester_params()
}

/// The `Signature` header carrying a signature.
pub open spec fn attester_signature_header(sig: Seq<u8>) -> Seq<char> {
    "sig1=:"@ + b64std(sig) + ":"@
}

/// The `Content-Digest` header for a body.
pub open spec fn attester_content_digest(body: Seq<u8>) -> Seq<char> {
    "sha-256=:"@ + b64std(sha256_digest(body)) + ":"@
}

/// What the attester signs for a body.
pub open spec fn attester_base(body: Seq<u8>) -> Seq<u8> {
    signature_base(encode_utf8(attester_content_digest(body)), encode_utf8(attester_params()))
}

/// The headers with which the attester forwards a token request.
pub struct AttesterHeaders {
    pub content_digest: String,
    pub signature_input: String,
    pub signature: String,
}

/// The attester headers for a body under an Ed25519 secret key: the body's SHA-256
/// `Content-Digest`, and the signature over the signature base that covers it.
/// The issuer's check of these headers, with this body and under the signing
/// key's public key, accepts them.
pub fn attester_headers(body: &[u8], signing_key: &Ed25519SigningKey) -> (r: AttesterHeaders)
    ensures
        r.content_digest@ == attester_content_digest(body@),
        r.signature_input@ == attester_signature_input(),
        r.signature@ == attester_signature_header(
            ed25519_signature(signing_key.secret(), attester_base(body@)),
        ),
        http_signature_check(
            Some(encode_utf8(r.signature_input@)),
            Some(encode_utf8(r.signature@)),
            Some(encode_utf8(r.content_digest@)),
            body@,
            ed25519_public(signing_key.secret()),
        ) == Ok::<(), Seq<char>>(()),
{
    let digest = sha256(body);
    let mut cd = TextBuf::new();
    cd.push_str("sha-256=:");
    let enc = b64std_encode(&digest);
    cd.push_str(enc.as_str());
    cd.push_str(":");
    let content_digest = cd.into_string();
    let sig_params = "(\"content-digest\");alg=\"ed25519\";keyid=\"attester\"";
    let mut base: Vec<u8> = Vec::new();
    push_str(&mut base, "\"content-digest\": ");
    push_str(&mut base, content_digest.as_str());
    push_str(&mut base, "\n\"@signature-params\": ");
    push_str(&mut base, sig_params);
    assert(base@ =~= attester_base(body@));
    let signature = ed25519_sign(signing_key.secret_bytes(), base.as_slice());
    proof {
        lemma_attested_request_accepted(body@, signature@, ed25519_public(signing_key.secret()));
    }
    let mut si = TextBuf::new();
    si.push_str("sig1=");
    si.push_str(sig_params);
    let mut sg = TextBuf::new();
    sg.push_str("sig1=:");
    let sig_b64 = b64std_encode(&signature);
    sg.push_str(sig_b64.as_str());
    sg.push_str(":");
    AttesterHeaders {
        content_digest,
        signature_input: si.into_string(),
        signature: sg.into_string(),
    }
}

/// The URL of the issuer's directory.
pub fn issuer_directory_url(issuer_url: &str) -> (r: String)
    ensures
        r@ == issuer_url@ + "/.well-known/private-token-issuer-directory"@,
{
    let mut t = TextBuf::new();
    t.push_str(issuer_url);
    t.push_str("/.well-known/private-token-issuer-directory");
    t.into_string()
}

/// The URL token requests are forwarded to.
pub fn token_request_url(issuer_url: &str) -> (r: String)
    ensures
        r@ == issuer_url@ + "/token-request"@,
{
    let mut t = TextBuf::new();
    t.push_str(issuer_url);
    t.push_str("/token-request");
    t.into_string()
}

proof fn lemma_ascii_text(c: Seq<char>)
    requires
        vstd::utf8::is_ascii_chars(c),
    ensures
        encode_utf8(c) == ascii_bytes(c),
        ascii_chars(encode_utf8(c)) == c,
{
    vstd::utf8::is_ascii_chars_encode_utf8(c);
    let e = encode_utf8(c);
    assert(e =~= ascii_bytes(c));
    assert(all_ascii(e)) by {
        assert forall|i: int| 0 <= i < e.len() implies #[trigger] e[i] < 128 by {
            assert('\0' <= c[i] <= '\u{7f}');
        }
    }
    crate::text::lemma_ascii_utf8(e);
    vstd::utf8::encode_utf8_decode_utf8(c);
}

proof fn lemma_strip_prefix_concat(p: Seq<u8>, q: Seq<u8>)
    ensures
        strip_prefix_spec(p + q, p) == Some(q),
{
    assert((p + q).take(p.len() as int) =~= p);
    assert((p + q).skip(p.len() as int) =~= q);
}

proof fn lemma_strip_suffix_concat(q: Seq<u8>, p: Seq<u8>)
    ensures
        strip_suffix_spec(q + p, p) == Some(q),
{
    assert((q + p).skip((q + p).len() - p.len()) =~= p);
    assert((q + p).take((q + p).len() - p.len()) =~= q);
}

/// Whether a directory entry lists a key, as unpadded URL-safe base64, under a token type.
pub open spec fn lists_key(e: DirectoryEntry, token_type: u16, key: Seq<u8>) -> bool {
    e.token_type == Some(token_type as u64) && (e.token_key matches Some(k) && k@ == b64url(key))
}

/// The attester reads back the keys the issuer publishes: in a directory that
/// lists the Blind RSA key and then the Partially Blind RSA key, each as unpadded
/// URL-safe base64 under its token type, asking for either type gives that key.
pub proof fn lemma_published_keys_read_back(dir: FetchedDirectory, blind_rsa_spki: Seq<u8>, pbrs_spki: Seq<u8>)
    requires
        dir.token_keys is Some,
        dir.token_keys.unwrap()@.len() == 2,
        lists_key(dir.token_keys.unwrap()@[0], TOKEN_TYPE_BLIND_RSA, blind_rsa_spki),
        lists_key(dir.token_keys.unwrap()@[1], TOKEN_TYPE_PARTIALLY_BLIND_RSA, pbrs_spki),
    ensures
        select_issuer_key_spec(dir, TOKEN_TYPE_BLIND_RSA) == Ok::<Seq<u8>, ErrorView>(blind_rsa_spki),
        select_issuer_key_spec(dir, TOKEN_TYPE_PARTIALLY_BLIND_RSA) == Ok::<Seq<u8>, ErrorView>(pbrs_spki),
{
    lemma_decode_encode(true, false, blind_rsa_spki);
    lemma_decode_encode(true, false, pbrs_spki);
    let entries = dir.token_keys.unwrap()@;
    assert(select_key_from(entries, 1, TOKEN_TYPE_PARTIALLY_BLIND_RSA) == Ok::<Seq<u8>, ErrorView>(
        pbrs_spki,
    ));
}

/// The issuer accepts the attester's headers for a body carrying a 64-byte signature
/// exactly when that signature verifies over the attester's signature base: the
/// digest the attester sends is the one the issuer recomputes, and the signature
/// input and signature headers parse back into the parameters and the signature.
pub proof fn lemma_attested_request_accepted(body: Seq<u8>, sig: Seq<u8>, pk: Seq<u8>)
    requires
        sig.len() == 64,
    ensures
        http_signature_check(
            Some(encode_utf8(attester_signature_input())),
            Some(encode_utf8(attester_signature_header(sig))),
            Some(encode_utf8(attester_content_digest(body))),
            body,
            pk,
        ) == if ed25519_valid(pk, attester_base(body), sig) {
            Ok::<(), Seq<char>>(())
        } else {
            Err("signature verification failed"@)
        },
{
    let enc = b64std(sha256_digest(body));
    lemma_encode_utf8_concat("sha-256=:"@ + enc, ":"@);
    lemma_encode_utf8_concat("sha-256=:"@, enc);
    assert(encode_utf8(attester_content_digest(body)) == digest_header(body));
    lemma_encode_utf8_concat("sig1="@, attester_params());
    lemma_strip_prefix_concat(encode_utf8("sig1="@), encode_utf8(attester_params()));
    let s64 = b64std(sig);
    lemma_encode_utf8_concat("sig1=:"@ + s64, ":"@);
    lemma_encode_utf8_concat("sig1=:"@, s64);
    assert(encode_utf8(attester_signature_header(sig)) == encode_utf8("sig1=:"@) + (encode_utf8(
        s64,
    ) + encode_utf8(":"@)));
    lemma_strip_prefix_concat(encode_utf8("sig1=:"@), encode_utf8(s64) + encode_utf8(":"@));
    lemma_strip_suffix_concat(encode_utf8(s64), encode_utf8(":"@));
    assert(signature_field(encode_utf8(attester_signature_header(sig))) == Some(encode_utf8(s64)));
    lemma_encode_ascii(false, true, sig);
    lemma_ascii_text(s64);
    lemma_decode_encode(false, true, sig);
}

/// A Partially Blind RSA challenge scopes its token to the room the request
/// names: its extensions hold one MoQ action-scope extension (type 1) whose JSON
/// lets the holder publish and subscribe under `mocha/*/<room>/*`; only a request
/// that names no room is scoped to every room (`*`). A Blind RSA challenge has no
/// extensions.
pub proof fn lemma_challenge_scopes_the_requested_room(
    request: ChallengeRequest,
    issuer_name: Seq<char>,
    origin_info: Seq<char>,
    redemption_context: Seq<u8>,
    issuer_key: Seq<u8>,
    r: ChallengeResponse,
)
    requires
        challenge_answer(request, issuer_name, origin_info, redemption_context, issuer_key, r),
    ensures
        request.token_type == Some(TOKEN_TYPE_BLIND_RSA) ==> r.extensions is None,
        request.token_type != Some(TOKEN_TYPE_BLIND_RSA) && (request.token_type is None || request.token_type
            == Some(TOKEN_TYPE_PARTIALLY_BLIND_RSA)) ==> {
            let room = match request.room_id {
                Some(x) => x@,
                None => "*"@,
            };
            let pattern = "mocha/*/"@ + room + "/*"@;
            let data = json_lists_object(seq![("pub"@, seq![pattern]), ("sub"@, seq![pattern])]);
            let ext = seq![0u8, 1u8] + len16(data.len()) + data;
            r.extensions matches Some(e) && e@ == b64url(len16(ext.len()) + ext)
        },
{
    assert(be16(EXTENSION_TYPE_MOQ_ACTIONS as int) =~= seq![0u8, 1u8]);
}

} // verus!
