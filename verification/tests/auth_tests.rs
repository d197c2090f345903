use moat::auth::{
    authenticate, bearer_id_token, guest_display_name, guest_signup, idp_refusal, strip_str_prefix,
    trim_str,
};
use moat::error::AppError;
use moat::session::create_session_token;

fn unauthorized_text(r: Result<u128, AppError>) -> String {
    match r {
        Err(AppError::Unauthorized(m)) => m,
        other => panic!("expected 401, got {:?}", other),
    }
}

#[test]
fn authentication_errors_name_what_is_wrong() {
    assert_eq!(unauthorized_text(authenticate(None, "s")), "missing Authorization header");
    assert_eq!(unauthorized_text(authenticate(Some("Basic abc"), "s")), "expected Bearer token");
    assert_eq!(unauthorized_text(authenticate(Some("bearer abc"), "s")), "expected Bearer token");
    assert_eq!(unauthorized_text(authenticate(Some("Bearer abc"), "s")), "invalid session token");
}

#[test]
fn a_valid_bearer_session_names_its_user() {
    let token = create_session_token(1234, "s");
    let header = format!("Bearer {token}");
    assert_eq!(authenticate(Some(&header), "s").unwrap(), 1234);
    assert!(authenticate(Some(&header), "t").is_err());
}

#[test]
fn prefixes_strip_by_characters() {
    assert_eq!(strip_str_prefix("Bearer héllo", "Bearer "), Some("héllo"));
    assert_eq!(strip_str_prefix("Bear", "Bearer "), None);
    assert_eq!(strip_str_prefix("ümlaut", "ü"), Some("mlaut"));
    assert_eq!(strip_str_prefix("x", ""), Some("x"));
}

#[test]
fn sign_in_needs_a_bearer_id_token() {
    assert_eq!(bearer_id_token(Some("Bearer eyJ")).unwrap(), "eyJ");
    match bearer_id_token(Some("Token eyJ")) {
        Err(AppError::Unauthorized(m)) => assert_eq!(m, "missing Bearer token"),
        _ => panic!("a non-bearer header is refused"),
    }
    assert!(matches!(bearer_id_token(None), Err(AppError::Unauthorized(_))));
    match idp_refusal("expired") {
        AppError::Unauthorized(m) => assert_eq!(m, "Google verification failed: expired"),
        _ => panic!("refusals are 401"),
    }
}

#[test]
fn trimming_removes_unicode_white_space_at_both_ends() {
    assert_eq!(trim_str("  Alice \t\n"), "Alice");
    assert_eq!(trim_str("\u{3000}Bob\u{a0}"), "Bob");
    assert_eq!(trim_str("a b"), "a b");
    assert_eq!(trim_str("   "), "");
    assert_eq!(trim_str(""), "");
}

#[test]
fn guest_names_must_be_one_to_sixty_four_characters() {
    assert_eq!(guest_display_name("  Dana ").unwrap(), "Dana");
    let long = "a".repeat(64);
    assert_eq!(guest_display_name(&long).unwrap(), long);
    let accented = "é".repeat(64);
    assert_eq!(guest_display_name(&accented).unwrap(), accented);
    for bad in ["", "   ", &"a".repeat(65), &"é".repeat(65)] {
        match guest_display_name(bad) {
            Err(AppError::BadRequest(m)) => assert_eq!(m, "display_name must be 1-64 characters"),
            other => panic!("expected 400 for {bad:?}, got {other:?}"),
        }
    }
}

#[test]
fn guest_sign_up_names_a_random_guest() {
    let u = guest_signup("  Carol ").unwrap();
    assert_eq!(u.provider, "guest");
    assert_eq!(u.display_name.as_deref(), Some("Carol"));
    assert_eq!(u.subject.len(), 36);
    let parsed = uuid::Uuid::parse_str(&u.subject).unwrap();
    assert_eq!(parsed.get_version_num(), 4);
    assert_eq!(u.email, format!("guest-{}@moat.local", &u.subject[..8]));
    assert!(guest_signup(" ").is_err());
}
