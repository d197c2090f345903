use moat::crypto::{load_ed25519_public_key, load_ed25519_signing_key};
use moat::token::c4m::canonical_namespace_bytes;
use moat::token::MinterRegistry;
use ed25519_dalek::pkcs8::{EncodePrivateKey, EncodePublicKey};
use p256::pkcs8::LineEnding;

#[test]
fn canonical_namespaces_prefix_each_element_with_its_length() {
    let parts = vec![b"mocha".to_vec(), b"demo".to_vec(), vec![]];
    let mut expected = vec![0, 0, 0, 5];
    expected.extend_from_slice(b"mocha");
    expected.extend_from_slice(&[0, 0, 0, 4]);
    expected.extend_from_slice(b"demo");
    expected.extend_from_slice(&[0, 0, 0, 0]);
    assert_eq!(canonical_namespace_bytes(&parts), expected);
    assert_eq!(canonical_namespace_bytes(&vec![]), Vec::<u8>::new());
    let big = vec![vec![7u8; 300]];
    assert_eq!(&canonical_namespace_bytes(&big)[..4], &[0, 0, 1, 44]);
}

#[test]
fn ed25519_keys_load_from_pem() {
    let sk = ed25519_dalek::SigningKey::from_bytes(&[11u8; 32]);
    let pem = sk.to_pkcs8_pem(LineEnding::LF).unwrap();
    let loaded = load_ed25519_signing_key(&pem).unwrap();
    assert_eq!(loaded.secret_bytes(), &[11u8; 32]);
    assert_eq!(loaded.verifying_key(), sk.verifying_key().to_bytes());
    let pub_pem = sk.verifying_key().to_public_key_pem(LineEnding::LF).unwrap();
    assert_eq!(load_ed25519_public_key(&pub_pem).unwrap(), sk.verifying_key().to_bytes());
}

#[test]
fn bad_ed25519_pems_name_the_key() {
    assert!(load_ed25519_signing_key("junk").err().unwrap().starts_with("failed to load Ed25519 signing key: "));
    assert!(load_ed25519_public_key("junk").unwrap_err().starts_with("failed to load attester Ed25519 key: "));
}

#[test]
fn minters_follow_the_configured_key() {
    let none = MinterRegistry::from_signing_key(None, "moat".into(), "relay".into(), 60).unwrap();
    assert_eq!(none.minters.len(), 0);
    let err = MinterRegistry::from_signing_key(Some("junk"), "moat".into(), "relay".into(), 60).err().unwrap();
    assert!(err.starts_with("invalid ES256 private key PEM: "));
    let key = p256::ecdsa::SigningKey::from_bytes(&[9u8; 32].into()).unwrap();
    let pem = p256::pkcs8::EncodePrivateKey::to_pkcs8_pem(&key, LineEnding::LF).unwrap();
    let one = MinterRegistry::from_signing_key(Some(&pem), "moat".into(), "relay".into(), 60).unwrap();
    assert_eq!(one.minters.len(), 1);
}
