use base64::engine::general_purpose::{STANDARD, URL_SAFE_NO_PAD};
use base64::Engine;
use moat::api::ChallengeRequest;
use moat::crypto::Ed25519SigningKey;
use moat::error::AppError;
use moat::issuer::{
    issuer_directory, sign_blind_rsa, sign_pbrs, token_request, verify_http_signature, Issuance,
    IssuerKeys, SignatureHeaders, TOKEN_TYPE_BLIND_RSA, TOKEN_TYPE_PARTIALLY_BLIND_RSA,
};
use moat::privacypass::{
    attester_headers, build_moq_extensions, build_token_challenge, challenge, challenge_response,
    issuer_directory_url, select_issuer_key, token_request_url, DirectoryEntry, FetchedDirectory,
};
use sha2::{Digest, Sha256};

fn keys(attester: Option<[u8; 32]>) -> IssuerKeys {
    let mut blind = [0u8; 32];
    blind[31] = 0xab;
    let mut pbrs = [0u8; 32];
    pbrs[31] = 0xcd;
    IssuerKeys { blind_rsa_key_id: blind, pbrs_key_id: pbrs, attester_key: attester }
}

fn headers_of(body: &[u8], secret: &[u8; 32]) -> SignatureHeaders {
    let h = attester_headers(body, &Ed25519SigningKey::from_bytes(*secret));
    SignatureHeaders {
        signature_input: Some(h.signature_input.into_bytes()),
        signature: Some(h.signature.into_bytes()),
        content_digest: Some(h.content_digest.into_bytes()),
    }
}

fn public_of(secret: &[u8; 32]) -> [u8; 32] {
    ed25519_dalek::SigningKey::from_bytes(secret).verifying_key().to_bytes()
}

#[test]
fn token_challenge_follows_rfc_9578() {
    let ctx = [9u8; 32];
    let c = build_token_challenge(0xda7a, b"issuer", &ctx, b"origin");
    let mut expected = vec![0xda, 0x7a, 0x00, 0x06];
    expected.extend_from_slice(b"issuer");
    expected.push(32);
    expected.extend_from_slice(&ctx);
    expected.extend_from_slice(&[0x00, 0x06]);
    expected.extend_from_slice(b"origin");
    assert_eq!(c, expected);
}

#[test]
fn moq_extensions_scope_the_room() {
    let ext = build_moq_extensions("room1");
    let json = br#"{"pub":["mocha/*/room1/*"],"sub":["mocha/*/room1/*"]}"#;
    let mut expected = Vec::new();
    expected.extend_from_slice(&((json.len() + 4) as u16).to_be_bytes());
    expected.extend_from_slice(&[0x00, 0x01]);
    expected.extend_from_slice(&(json.len() as u16).to_be_bytes());
    expected.extend_from_slice(json);
    assert_eq!(ext, expected);
}

#[test]
fn challenges_default_to_partially_blind_rsa_for_any_room() {
    let req = ChallengeRequest { room_id: None, token_type: None };
    let ctx = [1u8; 32];
    let r = challenge_response(&req, "iss", "org", &ctx, b"KEY");
    assert_eq!(r.token_type, 0xda7a);
    assert_eq!(r.issuer_key, URL_SAFE_NO_PAD.encode(b"KEY"));
    assert_eq!(r.token_challenge, URL_SAFE_NO_PAD.encode(build_token_challenge(0xda7a, b"iss", &ctx, b"org")));
    assert_eq!(r.extensions, Some(URL_SAFE_NO_PAD.encode(build_moq_extensions("*"))));
    let blind = ChallengeRequest { room_id: Some("r".into()), token_type: Some(2) };
    let r = challenge(&blind, "iss", "org", b"KEY");
    assert_eq!(r.token_type, 2);
    assert_eq!(r.extensions, None);
    assert_eq!(URL_SAFE_NO_PAD.decode(&r.token_challenge).unwrap().len(), 2 + 2 + 3 + 1 + 32 + 2 + 3);
}

#[test]
fn issuer_keys_are_picked_by_token_type() {
    let dir = FetchedDirectory {
        token_keys: Some(vec![
            DirectoryEntry { token_type: Some(2), token_key: Some(URL_SAFE_NO_PAD.encode(b"blind")) },
            DirectoryEntry { token_type: Some(0xda7a), token_key: Some(STANDARD.encode(b"pbrs-key")) },
        ]),
    };
    assert_eq!(select_issuer_key(&dir, 2).unwrap(), b"blind".to_vec());
    assert_eq!(select_issuer_key(&dir, 0xda7a).unwrap(), b"pbrs-key".to_vec());
    match select_issuer_key(&dir, 0x0005) {
        Err(AppError::Internal(m)) => assert_eq!(m, "No token key for type 0x0005 found in issuer directory"),
        _ => panic!("a missing type is an internal error"),
    }
    let none = FetchedDirectory { token_keys: None };
    assert!(matches!(select_issuer_key(&none, 2), Err(AppError::Internal(ref m)) if m == "No token-keys in issuer directory"));
    let bad = FetchedDirectory { token_keys: Some(vec![DirectoryEntry { token_type: Some(2), token_key: None }]) };
    assert!(matches!(select_issuer_key(&bad, 2), Err(AppError::Internal(ref m)) if m == "token-key not a string"));
}

#[test]
fn issuer_urls_are_under_the_issuer() {
    assert_eq!(issuer_directory_url("https://i"), "https://i/.well-known/private-token-issuer-directory");
    assert_eq!(token_request_url("https://i"), "https://i/token-request");
}

#[test]
fn attester_headers_carry_digest_and_signature() {
    let secret = [3u8; 32];
    let h = attester_headers(b"body", &Ed25519SigningKey::from_bytes(secret));
    assert_eq!(h.content_digest, format!("sha-256=:{}:", STANDARD.encode(Sha256::digest(b"body"))));
    assert_eq!(h.signature_input, r#"sig1=("content-digest");alg="ed25519";keyid="attester""#);
    assert!(h.signature.starts_with("sig1=:") && h.signature.ends_with(':'));
}

#[test]
fn issuer_accepts_what_the_attester_signed() {
    let secret = [3u8; 32];
    let public = public_of(&secret);
    assert_eq!(verify_http_signature(&headers_of(b"body", &secret), b"body", &public), Ok(()));
    assert_eq!(
        verify_http_signature(&headers_of(b"body", &secret), b"other", &public),
        Err("Content-Digest mismatch".to_string())
    );
    let other = public_of(&[4u8; 32]);
    assert_eq!(
        verify_http_signature(&headers_of(b"body", &secret), b"body", &other),
        Err("signature verification failed".to_string())
    );
    let missing = SignatureHeaders { signature_input: None, signature: None, content_digest: None };
    assert_eq!(verify_http_signature(&missing, b"body", &public), Err("missing Signature-Input header".to_string()));
}

#[test]
fn token_requests_are_checked_before_signing() {
    let k = keys(None);
    assert!(matches!(token_request(&k, &SignatureHeaders { signature_input: None, signature: None, content_digest: None }, &[0, 2]),
        Issuance::Reject(400, ref m) if m == "request too short"));
    assert!(matches!(token_request(&k, &SignatureHeaders { signature_input: None, signature: None, content_digest: None }, &[0, 1, 0]),
        Issuance::Reject(400, ref m) if m == "unsupported token type: 0x0001"));
    let mut body = vec![0x00, 0x02, 0xab];
    body.extend_from_slice(&[5u8; 256]);
    assert!(matches!(sign_blind_rsa(&k, &body), Issuance::BlindRsa(ref m) if m.len() == 256));
    body[2] = 0x01;
    assert!(matches!(sign_blind_rsa(&k, &body), Issuance::Reject(422, ref m) if m == "key ID mismatch: 0x01 != 0xab"));
    assert!(matches!(sign_blind_rsa(&k, &body[..10]), Issuance::Reject(422, ref m) if m == "expected 259 bytes, got 10"));
    let mut pb = vec![0xda, 0x7a, 0xcd];
    pb.extend_from_slice(&[6u8; 256]);
    pb.extend_from_slice(&[0x00, 0x02, 0xaa, 0xbb, 0xcc]);
    match sign_pbrs(&k, &pb) {
        Issuance::Pbrs(msg, ext) => {
            assert_eq!(msg.len(), 256);
            assert_eq!(ext, vec![0x00, 0x02, 0xaa, 0xbb]);
        },
        _ => panic!("a well-formed PBRS request is signed"),
    }
    pb.truncate(3 + 256 + 3);
    assert!(matches!(sign_pbrs(&k, &pb), Issuance::Reject(422, ref m) if m == "extensions truncated"));
    assert!(matches!(sign_pbrs(&k, &pb[..100]), Issuance::Reject(422, ref m) if m == "PBRS request too short"));
}

#[test]
fn attested_issuers_refuse_unsigned_requests() {
    let secret = [3u8; 32];
    let k = keys(Some(public_of(&secret)));
    let mut body = vec![0x00, 0x02, 0xab];
    body.extend_from_slice(&[5u8; 256]);
    let unsigned = SignatureHeaders { signature_input: None, signature: None, content_digest: None };
    assert!(matches!(token_request(&k, &unsigned, &body), Issuance::Reject(401, _)));
    assert!(matches!(token_request(&k, &headers_of(&body, &secret), &body), Issuance::BlindRsa(_)));
}

#[test]
fn issuer_directory_lists_both_keys() {
    let d = issuer_directory(b"spki-a", b"spki-b");
    assert_eq!(d.issuer_request_uri, "/token-request");
    assert_eq!(d.token_keys.len(), 2);
    assert_eq!(d.token_keys[0].token_type, TOKEN_TYPE_BLIND_RSA);
    assert_eq!(d.token_keys[0].token_key, URL_SAFE_NO_PAD.encode(b"spki-a"));
    assert_eq!(d.token_keys[1].token_type, TOKEN_TYPE_PARTIALLY_BLIND_RSA);
    assert_eq!(d.token_keys[1].token_key, URL_SAFE_NO_PAD.encode(b"spki-b"));
    let k = IssuerKeys::from_public_keys(b"spki-a", b"spki-b", None);
    assert_eq!(k.blind_rsa_key_id.to_vec(), Sha256::digest(b"spki-a").to_vec());
    assert_eq!(k.pbrs_key_id.to_vec(), Sha256::digest(b"spki-b").to_vec());
}

#[test]
fn attester_reads_back_the_published_keys() {
    let d = issuer_directory(b"blind-spki", b"pbrs-spki");
    let fetched = FetchedDirectory {
        token_keys: Some(
            d.token_keys
                .into_iter()
                .map(|k| DirectoryEntry { token_type: Some(k.token_type as u64), token_key: Some(k.token_key) })
                .collect(),
        ),
    };
    assert_eq!(select_issuer_key(&fetched, TOKEN_TYPE_BLIND_RSA).unwrap(), b"blind-spki".to_vec());
    assert_eq!(select_issuer_key(&fetched, TOKEN_TYPE_PARTIALLY_BLIND_RSA).unwrap(), b"pbrs-spki".to_vec());
}

#[test]
fn signing_keys_carry_the_public_key_that_verifies_them() {
    let key = Ed25519SigningKey::from_bytes([9u8; 32]);
    assert_eq!(key.secret_bytes(), &[9u8; 32]);
    assert_eq!(key.verifying_key(), public_of(&[9u8; 32]));
    assert_ne!(key.verifying_key(), [9u8; 32]);
    let body = b"{\"token_type\":2}";
    assert_eq!(verify_http_signature(&headers_of(body, &[9u8; 32]), body, &key.verifying_key()), Ok(()));
}
