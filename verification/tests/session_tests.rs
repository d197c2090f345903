use base64::engine::general_purpose::URL_SAFE_NO_PAD;
use base64::Engine;
use moat::session::{create_session_token, session_token_at, simple_hash, verify_session_token};

fn fnv_hex(data: &[u8]) -> String {
    let mut h: u64 = 0xcbf29ce484222325;
    for &b in data {
        h ^= b as u64;
        h = h.wrapping_mul(0x100000001b3);
    }
    format!("{:016x}", h)
}

#[test]
fn simple_hash_of_empty_input_is_the_offset_basis() {
    assert_eq!(simple_hash(b""), "cbf29ce484222325");
}

#[test]
fn simple_hash_of_a_matches_fnv1a() {
    assert_eq!(simple_hash(b"a"), "af63dc4c8601ec8c");
    assert_eq!(simple_hash(b"hello world"), fnv_hex(b"hello world"));
}

#[test]
fn session_token_has_the_documented_layout() {
    let id: u128 = 0x0123_4567_89ab_cdef_0011_2233_4455_6677;
    let token = session_token_at(id, "s3cret", 1_700_000_000);
    let payload = "01234567-89ab-cdef-0011-223344556677:1700000000";
    let digest = fnv_hex(format!("{payload}s3cret").as_bytes());
    let expected = URL_SAFE_NO_PAD.encode(format!("{payload}.{digest}").as_bytes());
    assert_eq!(token, expected);
}

#[test]
fn session_token_round_trips_under_its_secret() {
    let id: u128 = 42;
    let token = create_session_token(id, "secret");
    assert_eq!(verify_session_token(&token, "secret"), Some(id));
}

#[test]
fn session_token_is_refused_under_another_secret() {
    let token = create_session_token(7, "secret");
    assert_eq!(verify_session_token(&token, "other"), None);
}

#[test]
fn tampered_session_token_is_refused() {
    let token = session_token_at(7, "secret", 10);
    let raw = String::from_utf8(URL_SAFE_NO_PAD.decode(&token).unwrap()).unwrap();
    let forged = raw.replacen("00000000-0000-0000-0000-000000000007", "00000000-0000-0000-0000-000000000008", 1);
    let forged_token = URL_SAFE_NO_PAD.encode(forged.as_bytes());
    assert_eq!(verify_session_token(&forged_token, "secret"), None);
    assert_eq!(verify_session_token("not base64!", "secret"), None);
    assert_eq!(verify_session_token("", "secret"), None);
}

#[test]
fn session_token_with_negative_time_round_trips() {
    let token = session_token_at(99, "k", -5);
    assert_eq!(verify_session_token(&token, "k"), Some(99));
}
