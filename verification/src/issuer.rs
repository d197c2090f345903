//! The Privacy Pass issuer: which token requests it signs, and the HTTP message
//! signature (RFC 9421, over the `Content-Digest` header) with which an
//! attester vouches for a request.

use vstd::prelude::*;
use vstd::utf8::encode_utf8;
use crate::text::{
    TextBuf, ascii_chars, all_ascii, hex2, hex4, decimal_digits, push_hex2, push_hex4,
    push_decimal_digits, push_str, strip_prefix, strip_suffix, strip_prefix_spec,
    strip_suffix_spec, lemma_hex2_ascii, lemma_hex4_ascii, lemma_decimal_digits_facts,
};
use crate::b64::{b64std, b64url, b64_decode, b64std_encode, b64url_encode, b64std_decode, b64std_error_text};
use crate::crypto::{
    sha256, sha256_digest, ed25519_valid, ed25519_verify, ed25519_signature_from_slice,
};

verus! {

/// Token type of publicly verifiable Blind RSA tokens (RFC 9578).
pub const TOKEN_TYPE_BLIND_RSA: u16 = 0x0002;

/// Token type of Partially Blind RSA tokens, which carry public metadata.
pub const TOKEN_TYPE_PARTIALLY_BLIND_RSA: u16 = 0xda7a;

/// Size of an RSA-2048 blinded message or blind signature.
pub const NK: usize = 256;

/// The `Content-Digest` header value for a body: `sha-256=:<base64 SHA-256>:`.
pub open spec fn digest_header(body: Seq<u8>) -> Seq<u8> {
    encode_utf8("sha-256=:"@) + encode_utf8(b64std(sha256_digest(body))) + encode_utf8(":"@)
}

/// The signature base (RFC 9421 §2.5) over the content digest and the signature parameters.
pub open spec fn signature_base(digest: Seq<u8>, params: Seq<u8>) -> Seq<u8> {
    encode_utf8("\"content-digest\": "@) + digest + encode_utf8("\n\"@signature-params\": "@)
        + params
}

/// The base64 text inside a `Signature` header `sig1=:<base64>:`.
pub open spec fn signature_field(header: Seq<u8>) -> Option<Seq<u8>> {
    match strip_prefix_spec(header, encode_utf8("sig1=:"@)) {
        Some(rest) => strip_suffix_spec(rest, encode_utf8(":"@)),
        None => None,
    }
}

/// The headers that carry an attester's signature, as received (only values that are
/// visible ASCII count as present).
pub struct SignatureHeaders {
    pub signature_input: Option<Vec<u8>>,
    pub signature: Option<Vec<u8>>,
    pub content_digest: Option<Vec<u8>>,
}

/// An optional byte vector as its contents.
pub open spec fn opt_view(v: Option<Vec<u8>>) -> Option<Seq<u8>> {
    match v {
        Some(b) => Some(b@),
        None => None,
    }
}

/// The verdict on an attester signature under public key `pk`.
pub open spec fn http_signature_check(
    signature_input: Option<Seq<u8>>,
    signature: Option<Seq<u8>>,
    content_digest: Option<Seq<u8>>,
    body: Seq<u8>,
    pk: Seq<u8>,
) -> Result<(), Seq<char>> {
    match signature_input {
        None => Err("missing Signature-Input header"@),
        Some(si) => match signature {
            None => Err("missing Signature header"@),
            Some(sg) => match content_digest {
                None => Err("missing Content-Digest header"@),
                Some(cd) => if cd != digest_header(body) {
                    Err("Content-Digest mismatch"@)
                } else {
                    match strip_prefix_spec(si, encode_utf8("sig1="@)) {
                        None => Err("bad Signature-Input format"@),
                        Some(params) => match signature_field(sg) {
                            None => Err("bad Signature header format"@),
                            Some(field) => match b64_decode(false, true, ascii_chars(field)) {
                                None => Err(
                                    "bad signature encoding: "@ + b64std_error_text(field),
                                ),
                                Some(sig) => if sig.len() != 64 {
                                    Err("invalid signature: signature error"@)
                                } else if !ed25519_valid(pk, signature_base(cd, params), sig) {
                                    Err("signature verification failed"@)
                                } else {
                                    Ok(())
                                },
                            },
                        },
                    }
                },
            },
        },
    }
}

/// A result with a text error, as views.
pub open spec fn text_result(r: Result<(), String>) -> Result<(), Seq<char>> {
    match r {
        Ok(_) => Ok(()),
        Err(e) => Err(e@),
    }
}

/// Checks the attester's HTTP message signature on a token request: the
/// `Content-Digest` must be the SHA-256 of the body, and the Ed25519 signature in
/// `Signature` must verify over the signature base under `public_key`.
pub fn verify_http_signature(headers: &SignatureHeaders, body: &[u8], public_key: &[u8; 32]) -> (r:
    Result<(), String>)
    ensures
        text_result(r) == http_signature_check(
            opt_view(headers.signature_input),
            opt_view(headers.signature),
            opt_view(headers.content_digest),
            body@,
            public_key@,
        ),
{
    let si = match &headers.signature_input {
        Some(v) => v,
        None => {
            return Err("missing Signature-Input header".to_owned());
        },
    };
    let sg = match &headers.signature {
        Some(v) => v,
        None => {
            return Err("missing Signature header".to_owned());
        },
    };
    let cd = match &headers.content_digest {
        Some(v) => v,
        None => {
            return Err("missing Content-Digest header".to_owned());
        },
    };
    let mut expected: Vec<u8> = Vec::new();
    push_str(&mut expected, "sha-256=:");
    let d = sha256(body);
    let enc = b64std_encode(&d);
    push_str(&mut expected, enc.as_str());
    push_str(&mut expected, ":");
    assert(expected@ =~= digest_header(body@));
    if !crate::session::bytes_eq(cd.as_slice(), expected.as_slice()) {
        return Err("Content-Digest mismatch".to_owned());
    }
    let params = match strip_prefix(si.as_slice(), "sig1=".as_bytes()) {
        Some(p) => p,
        None => {
            return Err("bad Signature-Input format".to_owned());
        },
    };
    let field = match strip_prefix(sg.as_slice(), "sig1=:".as_bytes()) {
        Some(rest) => match strip_suffix(rest, ":".as_bytes()) {
            Some(f) => f,
            None => {
                return Err("bad Signature header format".to_owned());
            },
        },
        None => {
            return Err("bad Signature header format".to_owned());
        },
    };
    let mut base: Vec<u8> = Vec::new();
    push_str(&mut base, "\"content-digest\": ");
    crate::text::push_all(&mut base, cd.as_slice());
    push_str(&mut base, "\n\"@signature-params\": ");
    crate::text::push_all(&mut base, params);
    assert(base@ =~= signature_base(cd@, params@));
    let sig_bytes = match b64std_decode(field) {
        Ok(b) => b,
        Err(e) => {
            let mut t = TextBuf::new();
            t.push_str("bad signature encoding: ");
            t.push_str(e.as_str());
            return Err(t.into_string());
        },
    };
    let sig = match ed25519_signature_from_slice(sig_bytes.as_slice()) {
        Some(s) => s,
        None => {
            return Err("invalid signature: signature error".to_owned());
        },
    };
    if !ed25519_verify(public_key, base.as_slice(), &sig) {
        return Err("signature verification failed".to_owned());
    }
    Ok(())
}

/// The issuer's keys as the request checks need them: the SHA-256 key IDs of both
/// public keys and, when attestation is required, the attester's Ed25519 public key.
pub struct IssuerKeys {
    pub blind_rsa_key_id: [u8; 32],
    pub pbrs_key_id: [u8; 32],
    pub attester_key: Option<[u8; 32]>,
}

impl IssuerKeys {
    /// The keys of an issuer whose public keys have these SubjectPublicKeyInfo
    /// encodings: each key ID is the SHA-256 digest of its key's encoding.
    pub fn from_public_keys(blind_rsa_spki: &[u8], pbrs_spki: &[u8], attester_key: Option<[u8; 32]>) -> (r: IssuerKeys)
        ensures
            r.blind_rsa_key_id@ == sha256_digest(blind_rsa_spki@),
            r.pbrs_key_id@ == sha256_digest(pbrs_spki@),
            r.attester_key == attester_key,
    {
        IssuerKeys {
            blind_rsa_key_id: sha256(blind_rsa_spki),
            pbrs_key_id: sha256(pbrs_spki),
            attester_key,
        }
    }
}

/// One key of the issuer directory.
pub struct TokenKeyEntry {
    pub token_type: u16,
    /// The key's SubjectPublicKeyInfo, unpadded URL-safe base64.
    pub token_key: String,
}

/// The issuer directory (RFC 9578 §4): where token requests go and the keys.
pub struct IssuerDirectory {
    pub issuer_request_uri: String,
    pub token_keys: Vec<TokenKeyEntry>,
}

/// The issuer directory for the two public keys: the Blind RSA key, then the
/// Partially Blind RSA key, and requests sent to `/token-request`.
pub fn issuer_directory(blind_rsa_spki: &[u8], pbrs_spki: &[u8]) -> (r: IssuerDirectory)
    ensures
        r.issuer_request_uri@ == "/token-request"@,
        r.token_keys@.len() == 2,
        r.token_keys@[0].token_type == TOKEN_TYPE_BLIND_RSA,
        r.token_keys@[0].token_key@ == b64url(blind_rsa_spki@),
        r.token_keys@[1].token_type == TOKEN_TYPE_PARTIALLY_BLIND_RSA,
        r.token_keys@[1].token_key@ == b64url(pbrs_spki@),
{
    let mut keys: Vec<TokenKeyEntry> = Vec::new();
    keys.push(TokenKeyEntry { token_type: TOKEN_TYPE_BLIND_RSA, token_key: b64url_encode(blind_rsa_spki) });
    keys.push(TokenKeyEntry { token_type: TOKEN_TYPE_PARTIALLY_BLIND_RSA, token_key: b64url_encode(pbrs_spki) });
    IssuerDirectory { issuer_request_uri: "/token-request".to_owned(), token_keys: keys }
}

/// What the issuer does with a token request.
pub enum Issuance {
    /// Answer with this status and text.
    Reject(u16, String),
    /// Blind-sign this message with the Blind RSA key.
    BlindRsa(Vec<u8>),
    /// Blind-sign this message with the Partially Blind RSA key derived for these
    /// extensions (length prefix included).
    Pbrs(Vec<u8>, Vec<u8>),
}

/// An issuance decision as plain values.
pub enum IssuanceView {
    Reject(u16, Seq<char>),
    BlindRsa(Seq<u8>),
    Pbrs(Seq<u8>, Seq<u8>),
}

impl View for Issuance {
    type V = IssuanceView;

    open spec fn view(&self) -> IssuanceView {
        match self {
            Issuance::Reject(s, m) => IssuanceView::Reject(*s, m@),
            Issuance::BlindRsa(b) => IssuanceView::BlindRsa(b@),
            Issuance::Pbrs(b, e) => IssuanceView::Pbrs(b@, e@),
        }
    }
}

/// A big-endian 16-bit value.
pub open spec fn be16_at(b: Seq<u8>, i: int) -> int {
    b[i] as int * 256 + b[i + 1] as int
}

/// A Blind RSA TokenRequest: type(2) key-id(1) blinded message(256), nothing more.
pub open spec fn blind_rsa_decision(key_id: Seq<u8>, body: Seq<u8>) -> IssuanceView {
    if body.len() != 3 + NK {
        IssuanceView::Reject(
            422,
            "expected 259 bytes, got "@ + ascii_chars(decimal_digits(body.len())),
        )
    } else if body[2] != key_id[31] {
        IssuanceView::Reject(
            422,
            "key ID mismatch: 0x"@ + ascii_chars(hex2(body[2])) + " != 0x"@ + ascii_chars(
                hex2(key_id[31]),
            ),
        )
    } else {
        IssuanceView::BlindRsa(body.subrange(3, 3 + NK))
    }
}

/// A Partially Blind RSA ExtendedTokenRequest: type(2) key-id(1) blinded
/// message(256) extensions-length(2) extensions; bytes past the extensions are ignored.
pub open spec fn pbrs_decision(key_id: Seq<u8>, body: Seq<u8>) -> IssuanceView {
    if body.len() < 3 + NK + 2 {
        IssuanceView::Reject(422, "PBRS request too short"@)
    } else if body[2] != key_id[31] {
        IssuanceView::Reject(
            422,
            "PBRS key ID mismatch: 0x"@ + ascii_chars(hex2(body[2])) + " != 0x"@ + ascii_chars(
                hex2(key_id[31]),
            ),
        )
    } else if body.len() < 3 + NK + 2 + be16_at(body, 3 + NK) {
        IssuanceView::Reject(422, "extensions truncated"@)
    } else {
        IssuanceView::Pbrs(
            body.subrange(3, 3 + NK),
            body.subrange(3 + NK, 3 + NK + 2 + be16_at(body, 3 + NK)),
        )
    }
}

/// What the issuer does with a token request body, after the attester check.
pub open spec fn request_decision(
    blind_rsa_key_id: Seq<u8>,
    pbrs_key_id: Seq<u8>,
    body: Seq<u8>,
) -> IssuanceView {
    if body.len() < 3 {
        IssuanceView::Reject(400, "request too short"@)
    } else if be16_at(body, 0) == TOKEN_TYPE_BLIND_RSA {
        blind_rsa_decision(blind_rsa_key_id, body)
    } else if be16_at(body, 0) == TOKEN_TYPE_PARTIALLY_BLIND_RSA {
        pbrs_decision(pbrs_key_id, body)
    } else {
        IssuanceView::Reject(
            400,
            "unsupported token type: 0x"@ + ascii_chars(hex4(be16_at(body, 0) as u16)),
        )
    }
}

/// The issuer blind-signs only well-formed requests for its current keys: a Blind
/// RSA message comes from a 259-byte request of type 0x0002 whose key-ID byte is
/// the last byte of the Blind RSA key ID; a Partially Blind RSA message from a
/// request of type 0xda7a whose key-ID byte is the last byte of that key's ID.
pub proof fn lemma_signs_only_matching_keys(blind_rsa_key_id: Seq<u8>, pbrs_key_id: Seq<u8>, body: Seq<u8>)
    ensures
        request_decision(blind_rsa_key_id, pbrs_key_id, body) is BlindRsa ==> {
            &&& body.len() == 3 + NK
            &&& be16_at(body, 0) == TOKEN_TYPE_BLIND_RSA
            &&& body[2] == blind_rsa_key_id[31]
            &&& request_decision(blind_rsa_key_id, pbrs_key_id, body) == IssuanceView::BlindRsa(
                body.subrange(3, 3 + NK),
            )
        },
        request_decision(blind_rsa_key_id, pbrs_key_id, body) is Pbrs ==> {
            &&& body.len() >= 3 + NK + 2
            &&& be16_at(body, 0) == TOKEN_TYPE_PARTIALLY_BLIND_RSA
            &&& body[2] == pbrs_key_id[31]
        },
{
}

/// What the issuer does with a token request: when an attester key is set the
/// request must carry its valid signature (else 401), then the body decides.
pub open spec fn issuance_decision(
    blind_rsa_key_id: Seq<u8>,
    pbrs_key_id: Seq<u8>,
    attester_key: Option<Seq<u8>>,
    headers: (Option<Seq<u8>>, Option<Seq<u8>>, Option<Seq<u8>>),
    body: Seq<u8>,
) -> IssuanceView {
    match attester_key {
        Some(pk) => match http_signature_check(headers.0, headers.1, headers.2, body, pk) {
            Err(e) => IssuanceView::Reject(401, "signature verification failed: "@ + e),
            Ok(_) => request_decision(blind_rsa_key_id, pbrs_key_id, body),
        },
        None => request_decision(blind_rsa_key_id, pbrs_key_id, body),
    }
}

fn key_mismatch(prefix: &str, got: u8, want: u8) -> (r: String)
    ensures
        r@ == prefix@ + ascii_chars(hex2(got)) + " != 0x"@ + ascii_chars(hex2(want)),
{
    let mut t = TextBuf::new();
    t.push_str(prefix);
    let mut h: Vec<u8> = Vec::new();
    push_hex2(&mut h, got);
    proof {
        lemma_hex2_ascii(got);
    }
    t.push_ascii(h.as_slice());
    t.push_str(" != 0x");
    let mut h2: Vec<u8> = Vec::new();
    push_hex2(&mut h2, want);
    proof {
        lemma_hex2_ascii(want);
    }
    t.push_ascii(h2.as_slice());
    t.into_string()
}

/// Checks a Blind RSA TokenRequest and picks out its blinded message.
pub fn sign_blind_rsa(keys: &IssuerKeys, body: &[u8]) -> (r: Issuance)
    ensures
        r@ == blind_rsa_decision(keys.blind_rsa_key_id@, body@),
{
    if body.len() != 3 + NK {
        let mut t = TextBuf::new();
        t.push_str("expected 259 bytes, got ");
        let mut d: Vec<u8> = Vec::new();
        push_decimal_digits(&mut d, body.len() as u64);
        proof {
            lemma_decimal_digits_facts(body@.len());
            assert(all_ascii(d@));
        }
        t.push_ascii(d.as_slice());
        return Issuance::Reject(422, t.into_string());
    }
    let truncated_key_id = body[2];
    if truncated_key_id != keys.blind_rsa_key_id[31] {
        return Issuance::Reject(
            422,
            key_mismatch("key ID mismatch: 0x", truncated_key_id, keys.blind_rsa_key_id[31]),
        );
    }
    let blinded = crate::text::bytes_to_vec(&body[3..3 + NK]);
    Issuance::BlindRsa(blinded)
}

/// Checks a Partially Blind RSA ExtendedTokenRequest and picks out its blinded
/// message and its extensions.
pub fn sign_pbrs(keys: &IssuerKeys, body: &[u8]) -> (r: Issuance)
    ensures
        r@ == pbrs_decision(keys.pbrs_key_id@, body@),
{
    if body.len() < 3 + NK + 2 {
        return Issuance::Reject(422, "PBRS request too short".to_owned());
    }
    let truncated_key_id = body[2];
    if truncated_key_id != keys.pbrs_key_id[31] {
        return Issuance::Reject(
            422,
            key_mismatch("PBRS key ID mismatch: 0x", truncated_key_id, keys.pbrs_key_id[31]),
        );
    }
    let ext_offset: usize = 3 + NK;
    let ext_len: usize = (body[ext_offset] as usize) * 256 + (body[ext_offset + 1] as usize);
    let ext_total: usize = ext_offset + 2 + ext_len;
    if body.len() < ext_total {
        return Issuance::Reject(422, "extensions truncated".to_owned());
    }
    let blinded = crate::text::bytes_to_vec(&body[3..3 + NK]);
    let extensions = crate::text::bytes_to_vec(&body[ext_offset..ext_total]);
    Issuance::Pbrs(blinded, extensions)
}

/// Decides what to do with a token request: the attester check when configured,
/// then the length and token type of the body.
pub fn token_request(keys: &IssuerKeys, headers: &SignatureHeaders, body: &[u8]) -> (r: Issuance)
    ensures
        r@ == issuance_decision(
            keys.blind_rsa_key_id@,
            keys.pbrs_key_id@,
            match keys.attester_key {
                Some(k) => Some(k@),
                None => None,
            },
            (
                opt_view(headers.signature_input),
                opt_view(headers.signature),
                opt_view(headers.content_digest),
            ),
            body@,
        ),
{
    if let Some(vk) = &keys.attester_key {
        match verify_http_signature(headers, body, vk) {
            Err(e) => {
                let mut t = TextBuf::new();
                t.push_str("signature verification failed: ");
                t.push_str(e.as_str());
                return Issuance::Reject(401, t.into_string());
            },
            Ok(_) => {},
        }
    }
    if body.len() < 3 {
        return Issuance::Reject(400, "request too short".to_owned());
    }
    let token_type: u16 = (body[0] as u16) * 256 + (body[1] as u16);
    if token_type == TOKEN_TYPE_BLIND_RSA {
        sign_blind_rsa(keys, body)
    } else if token_type == TOKEN_TYPE_PARTIALLY_BLIND_RSA {
        sign_pbrs(keys, body)
    } else {
        let mut t = TextBuf::new();
        t.push_str("unsupported token type: 0x");
        let mut h: Vec<u8> = Vec::new();
        push_hex4(&mut h, token_type);
        proof {
            lemma_hex4_ascii(token_type);
        }
        t.push_ascii(h.as_slice());
        Issuance::Reject(400, t.into_string())
    }
}

/// A Partially Blind RSA request that the issuer signs comes from a body of at
/// least 261 bytes whose key-ID byte (the third) is the key's, and what is
/// signed is the 256-byte blinded message right after the type and the key ID;
/// the extensions handed on are the 2-byte length that follows it and as many
/// bytes as it says.
pub proof fn lemma_pbrs_signs_the_blinded_message(key_id: Seq<u8>, body: Seq<u8>, msg: Seq<u8>, ext: Seq<u8>)
    requires
        key_id.len() == 32,
        pbrs_decision(key_id, body) == IssuanceView::Pbrs(msg, ext),
    ensures
        body.len() >= 261,
        body[2] == key_id[31],
        msg.len() == 256,
        forall|i: int| 0 <= i < 256 ==> #[trigger] msg[i] == body[3 + i],
        ext.len() == 2 + body[259] as int * 256 + body[260] as int,
        body.len() >= 259 + ext.len(),
        forall|i: int| 0 <= i < ext.len() ==> #[trigger] ext[i] == body[259 + i],
{
}

/// A Blind RSA request that the issuer signs is exactly 259 bytes whose key-ID
/// byte is the key's, and what is signed is its last 256 bytes.
pub proof fn lemma_blind_rsa_signs_the_blinded_message(key_id: Seq<u8>, body: Seq<u8>, msg: Seq<u8>)
    requires
        key_id.len() == 32,
        blind_rsa_decision(key_id, body) == IssuanceView::BlindRsa(msg),
    ensures
        body.len() == 259,
        body[2] == key_id[31],
        msg.len() == 256,
        forall|i: int| 0 <= i < 256 ==> #[trigger] msg[i] == body[3 + i],
{
}

} // verus!
