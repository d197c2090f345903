use base64::engine::general_purpose::URL_SAFE_NO_PAD;
use base64::Engine;
use ciborium::value::Value;
use moat::cbor::remap_claim_key;
use moat::roles::TokenRole;
use moat::token::c4m::{
    choose_lifetime, encode_cose_sign1, expiry_after, plan_scopes, C4mMinter, ScopePlan, C4M_TOKEN_TYPE,
};
use moat::token::{MintRequest, MinterRegistry, TokenMinter};
use p256::ecdsa::signature::Verifier;
use p256::ecdsa::{Signature, SigningKey, VerifyingKey};
use p256::pkcs8::{EncodePrivateKey, LineEnding};

fn cbor(v: &Value) -> Vec<u8> {
    let mut out = Vec::new();
    ciborium::ser::into_writer(v, &mut out).unwrap();
    out
}

fn test_key() -> SigningKey {
    SigningKey::from_bytes(&[7u8; 32].into()).unwrap()
}

fn test_pem() -> String {
    test_key().to_pkcs8_pem(LineEnding::LF).unwrap().to_string()
}

#[test]
fn scopes_follow_the_role() {
    assert_eq!(plan_scopes(TokenRole::Publisher), vec![ScopePlan::Setup, ScopePlan::Publish]);
    assert_eq!(plan_scopes(TokenRole::Subscriber), vec![ScopePlan::Setup, ScopePlan::Subscribe]);
    assert_eq!(
        plan_scopes(TokenRole::PubSub),
        vec![ScopePlan::Setup, ScopePlan::Publish, ScopePlan::Subscribe]
    );
}

#[test]
fn lifetime_defaults_when_none_is_requested() {
    assert_eq!(choose_lifetime(0, 3600), 3600);
    assert_eq!(choose_lifetime(60, 3600), 60);
    assert_eq!(expiry_after(100, 50), Some(150));
    assert_eq!(expiry_after(i64::MAX, 1), None);
    assert_eq!(expiry_after(-10, u64::MAX), Some(-11));
    assert_eq!(expiry_after(i64::MIN, u64::MAX), None);
    assert_eq!(expiry_after(-10, i64::MAX as u64), Some(i64::MAX - 10));
}

#[test]
fn remap_moves_the_moqt_claim_into_bytes() {
    let input = cbor(&Value::Map(vec![
        (Value::Integer(1.into()), Value::Text("moat".into())),
        (Value::Integer(327.into()), Value::Array(vec![Value::Integer(1.into()), Value::Integer(2.into())])),
    ]));
    let out = remap_claim_key(&input, 327, 65000).unwrap();
    let expected = cbor(&Value::Map(vec![
        (Value::Integer(1.into()), Value::Text("moat".into())),
        (Value::Integer(65000.into()), Value::Bytes(vec![0x82, 0x01, 0x02])),
    ]));
    assert_eq!(out, expected);
}

#[test]
fn remap_refuses_what_is_not_a_map() {
    let input = cbor(&Value::Array(vec![]));
    assert_eq!(remap_claim_key(&input, 327, 65000).unwrap_err(), "expected CBOR map in payload");
    let err = remap_claim_key(&[0xff], 327, 65000).unwrap_err();
    assert!(err.starts_with("CBOR decode for key remap failed: "), "{err}");
    assert!(err.len() > "CBOR decode for key remap failed: ".len());
    let untouched = cbor(&Value::Map(vec![(Value::Integer(4.into()), Value::Integer(9.into()))]));
    assert_eq!(remap_claim_key(&untouched, 327, 65000).unwrap(), untouched);
}

#[test]
fn cose_sign1_wraps_the_payload_and_signs_it() {
    let secret: [u8; 32] = [7u8; 32];
    let payload = cbor(&Value::Map(vec![(Value::Integer(1.into()), Value::Text("moat".into()))]));
    let token = encode_cose_sign1(&payload, -7, Some("CAT".to_string()), &secret).unwrap();
    let bytes = URL_SAFE_NO_PAD.decode(&token).unwrap();
    let v: Value = ciborium::de::from_reader(bytes.as_slice()).unwrap();
    let items = match v {
        Value::Array(items) => items,
        _ => panic!("COSE_Sign1 is an array"),
    };
    assert_eq!(items.len(), 4);
    let protected = items[0].as_bytes().unwrap().clone();
    let expected_header = cbor(&Value::Map(vec![
        (Value::Integer(1.into()), Value::Integer((-7).into())),
        (Value::Integer(16.into()), Value::Text("CAT".into())),
    ]));
    assert_eq!(protected, expected_header);
    assert_eq!(items[1], Value::Map(vec![]));
    assert_eq!(items[2].as_bytes().unwrap(), &payload);
    let sig = Signature::from_der(items[3].as_bytes().unwrap()).unwrap();
    let structure = cbor(&Value::Array(vec![
        Value::Text("Signature1".into()),
        Value::Bytes(protected),
        Value::Bytes(vec![]),
        Value::Bytes(payload.clone()),
    ]));
    let vk = VerifyingKey::from(&test_key());
    assert!(vk.verify(&structure, &sig).is_ok());
}

#[test]
fn cose_sign1_refuses_an_invalid_secret() {
    let payload = cbor(&Value::Map(vec![]));
    assert_eq!(
        encode_cose_sign1(&payload, -7, None, &[0u8; 32]).unwrap_err(),
        "ES256 signing key rejected"
    );
}

#[test]
fn minter_refuses_a_bad_pem() {
    match C4mMinter::new("not a pem", "moat".into(), "moq-relay".into(), 3600) {
        Err(e) => assert!(e.starts_with("invalid ES256 private key PEM: ")),
        Ok(_) => panic!("a bad PEM is refused"),
    }
}

#[test]
fn minted_c4m_tokens_carry_the_relay_claim() {
    let minter = C4mMinter::new(&test_pem(), "moat".into(), "moq-relay".into(), 3600).unwrap();
    assert_eq!(minter.token_type_name(), "c4m");
    let req = MintRequest {
        subject: "user@example.org".into(),
        namespace_parts: vec![b"mocha".to_vec(), b"demo".to_vec()],
        role: TokenRole::PubSub,
        lifetime_secs: 0,
    };
    let t = minter.mint(&req).unwrap();
    assert_eq!(t.token_type, C4M_TOKEN_TYPE);
    assert_eq!(t.expires_in, 3600);
    let bytes = URL_SAFE_NO_PAD.decode(&t.token).unwrap();
    let v: Value = ciborium::de::from_reader(bytes.as_slice()).unwrap();
    let items = match v {
        Value::Array(items) => items,
        _ => panic!("COSE_Sign1 is an array"),
    };
    let header = cbor(&Value::Map(vec![
        (Value::Integer(1.into()), Value::Integer((-7).into())),
        (Value::Integer(16.into()), Value::Text("CAT".into())),
    ]));
    assert_eq!(items[0].as_bytes().unwrap(), &header);
    let payload: Value = ciborium::de::from_reader(items[2].as_bytes().unwrap().as_slice()).unwrap();
    let entries = payload.as_map().unwrap();
    let text_claim = |k: i64| {
        entries
            .iter()
            .find(|(key, _)| *key == Value::Integer(k.into()))
            .map(|(_, v)| v.clone())
    };
    assert_eq!(text_claim(1), Some(Value::Text("moat".into())));
    assert_eq!(text_claim(2), Some(Value::Text("user@example.org".into())));
    let has = |k: i64| entries.iter().any(|(key, _)| *key == Value::Integer(k.into()));
    assert!(has(65000));
    assert!(!has(327));
    let scopes = entries
        .iter()
        .find(|(key, _)| *key == Value::Integer(65000.into()))
        .map(|(_, v)| v.as_bytes().unwrap().clone())
        .unwrap();
    let mut canonical = vec![0, 0, 0, 5];
    canonical.extend_from_slice(b"mocha");
    canonical.extend_from_slice(&[0, 0, 0, 4]);
    canonical.extend_from_slice(b"demo");
    assert!(scopes.windows(canonical.len()).any(|w| w == canonical.as_slice()));
    let scopes: Value = ciborium::de::from_reader(scopes.as_slice()).unwrap();
    assert_eq!(scopes.as_array().unwrap().len(), 3);
}

#[test]
fn registry_without_minters_fails() {
    let registry = MinterRegistry::new(vec![]);
    let req = MintRequest { subject: "s".into(), namespace_parts: vec![], role: TokenRole::Publisher, lifetime_secs: 1 };
    assert_eq!(registry.mint(&req).unwrap_err(), "no token minter configured");
}

#[test]
fn registry_mints_with_its_first_minter() {
    let minter = C4mMinter::new(&test_pem(), "moat".into(), "relay".into(), 60).unwrap();
    let registry = MinterRegistry::new(vec![Box::new(minter)]);
    let req = MintRequest { subject: "s".into(), namespace_parts: vec![b"a".to_vec()], role: TokenRole::Subscriber, lifetime_secs: 5 };
    let t = registry.mint(&req).unwrap();
    assert_eq!(t.expires_in, 5);
    assert_eq!(t.token_type, 6501485);
}

#[test]
fn minting_at_a_time_refuses_expiries_past_i64() {
    let minter = C4mMinter::new(&test_pem(), "moat".into(), "relay".into(), 60).unwrap();
    let req = MintRequest { subject: "s".into(), namespace_parts: vec![b"a".to_vec()], role: TokenRole::Publisher, lifetime_secs: 0 };
    assert_eq!(minter.mint_at(&req, i64::MAX - 10).unwrap_err(), "token lifetime out of range");
    let t = minter.mint_at(&req, 1_700_000_000).unwrap();
    assert_eq!(t.expires_in, 60);
    assert_eq!(t.token_type, C4M_TOKEN_TYPE);
}

fn payload_entries(token: &str) -> Vec<(Value, Value)> {
    let bytes = URL_SAFE_NO_PAD.decode(token).unwrap();
    let v: Value = ciborium::de::from_reader(bytes.as_slice()).unwrap();
    let items = v.as_array().unwrap().clone();
    let payload: Value = ciborium::de::from_reader(items[2].as_bytes().unwrap().as_slice()).unwrap();
    payload.as_map().unwrap().clone()
}

fn claim(entries: &[(Value, Value)], k: i64) -> Option<Value> {
    entries.iter().find(|(key, _)| *key == Value::Integer(k.into())).map(|(_, v)| v.clone())
}

#[test]
fn minted_claims_name_issuer_audience_subject_expiry_and_role_scopes() {
    let minter = C4mMinter::new(&test_pem(), "moat".into(), "moq-relay".into(), 3600).unwrap();
    let mut canonical = vec![0, 0, 0, 5];
    canonical.extend_from_slice(b"mocha");
    canonical.extend_from_slice(&[0, 0, 0, 4]);
    canonical.extend_from_slice(b"demo");
    for (role, n_scopes) in [(TokenRole::Publisher, 2), (TokenRole::Subscriber, 2), (TokenRole::PubSub, 3)] {
        let req = MintRequest {
            subject: "user@example.org".into(),
            namespace_parts: vec![b"mocha".to_vec(), b"demo".to_vec()],
            role,
            lifetime_secs: 0,
        };
        let t = minter.mint_at(&req, 1_700_000_000).unwrap();
        let entries = payload_entries(&t.token);
        assert_eq!(claim(&entries, 1), Some(Value::Text("moat".into())));
        assert_eq!(claim(&entries, 2), Some(Value::Text("user@example.org".into())));
        assert_eq!(claim(&entries, 3), Some(Value::Array(vec![Value::Text("moq-relay".into())])));
        assert_eq!(claim(&entries, 4), Some(Value::Integer(1_700_003_600.into())));
        let scopes = claim(&entries, 65000).unwrap().as_bytes().unwrap().clone();
        let decoded: Value = ciborium::de::from_reader(scopes.as_slice()).unwrap();
        assert_eq!(decoded.as_array().unwrap().len(), n_scopes);
        let matches = scopes.windows(canonical.len()).filter(|w| *w == canonical.as_slice()).count();
        assert_eq!(matches, n_scopes - 1);
    }
}

#[test]
fn minters_from_the_same_key_mint_the_same_token_at_the_same_time() {
    let a = C4mMinter::new(&test_pem(), "moat".into(), "relay".into(), 60).unwrap();
    let b = C4mMinter::new(&test_pem(), "moat".into(), "relay".into(), 60).unwrap();
    let req = MintRequest { subject: "s".into(), namespace_parts: vec![b"a".to_vec()], role: TokenRole::Publisher, lifetime_secs: 0 };
    assert_eq!(a.mint_at(&req, 1_000).unwrap().token, b.mint_at(&req, 1_000).unwrap().token);
    let other = C4mMinter::new(&test_pem(), "relay".into(), "moat".into(), 60).unwrap();
    assert_ne!(a.mint_at(&req, 1_000).unwrap().token, other.mint_at(&req, 1_000).unwrap().token);
}

#[test]
fn remap_keeps_floating_point_items() {
    let input = cbor(&Value::Map(vec![
        (Value::Integer(1.into()), Value::Float(1.5)),
        (Value::Integer(327.into()), Value::Array(vec![Value::Float(-0.1), Value::Float(f64::NAN)])),
        (Value::Integer(2.into()), Value::Float(1e300)),
    ]));
    let out = remap_claim_key(&input, 327, 65000).unwrap();
    let inner = cbor(&Value::Array(vec![Value::Float(-0.1), Value::Float(f64::NAN)]));
    let want = cbor(&Value::Map(vec![
        (Value::Integer(1.into()), Value::Float(1.5)),
        (Value::Integer(65000.into()), Value::Bytes(inner)),
        (Value::Integer(2.into()), Value::Float(1e300)),
    ]));
    assert_eq!(out, want);
}

fn scope_actions(token: &str) -> Vec<Vec<i128>> {
    let entries = payload_entries(token);
    let scopes = claim(&entries, 65000).unwrap().as_bytes().unwrap().clone();
    let decoded: Value = ciborium::de::from_reader(scopes.as_slice()).unwrap();
    decoded
        .as_array()
        .unwrap()
        .iter()
        .map(|scope| {
            scope.as_array().unwrap()[0]
                .as_array()
                .unwrap()
                .iter()
                .map(|a| i128::from(a.as_integer().unwrap()))
                .collect()
        })
        .collect()
}

#[test]
fn scopes_carry_the_builder_actions_of_each_role() {
    let minter = C4mMinter::new(&test_pem(), "moat".into(), "relay".into(), 60).unwrap();
    let req = |role| MintRequest { subject: "s".into(), namespace_parts: vec![b"a".to_vec()], role, lifetime_secs: 0 };
    let t = minter.mint_at(&req(TokenRole::Publisher), 1_000).unwrap();
    assert_eq!(scope_actions(&t.token), vec![vec![0], vec![2, 6]]);
    let t = minter.mint_at(&req(TokenRole::Subscriber), 1_000).unwrap();
    assert_eq!(scope_actions(&t.token), vec![vec![0], vec![3, 4, 7]]);
    let t = minter.mint_at(&req(TokenRole::PubSub), 1_000).unwrap();
    assert_eq!(scope_actions(&t.token), vec![vec![0], vec![2, 6], vec![3, 4, 7]]);
}

#[test]
fn registry_passes_on_its_first_minters_error() {
    let minter = C4mMinter::new(&test_pem(), "moat".into(), "relay".into(), 60).unwrap();
    let registry = MinterRegistry::new(vec![Box::new(minter)]);
    let req = MintRequest { subject: "s".into(), namespace_parts: vec![], role: TokenRole::Publisher, lifetime_secs: i64::MAX as u64 };
    assert_eq!(registry.mint(&req).unwrap_err(), "token lifetime out of range");
}

#[test]
fn lifetimes_past_i64_count_backwards() {
    let minter = C4mMinter::new(&test_pem(), "moat".into(), "relay".into(), 60).unwrap();
    let req = MintRequest { subject: "s".into(), namespace_parts: vec![b"a".to_vec()], role: TokenRole::Publisher, lifetime_secs: u64::MAX };
    let t = minter.mint_at(&req, 1_000).unwrap();
    assert_eq!(t.expires_in, u64::MAX);
    assert_eq!(claim(&payload_entries(&t.token), 4), Some(Value::Integer(999.into())));
}
