use base64::engine::general_purpose::URL_SAFE_NO_PAD;
use base64::Engine;
use moat::auth::char_is_whitespace;
use moat::idp::{cached_key_step, google_verify_finish, google_verify_start, refreshed_key, GoogleKey, GoogleKeyStep};

const TEST_N: &str = "w-y2ALb23KkIaEO8Ku666-SjYzQXTzNaYr6XWNxbjzdbPaRMbvTed6O7Tf6_c6DdZV1hPb7tl7Djt4-_KXeyuFH5HGRVUyEMQY1TCD6FAig-EhwR52stYqoPZ9rhdnVn0nO7ozQM3-7ijqWJ0BxnzTp2aGzcGqUA2qbwDi4XN1EKhkLFHxQLPL7Lk1DesO_f3FTC3bUz6z_HUkF4GiYsWHaSfxON8XWwWPa1EveW2cN1FaFffMLzFulieOZ4O6VVYge4nlFbx_-fxXIvWYlN3m-WbsJ-N1z04lGVDGKyF35-y32oUOwer-cj0BHcDh35-Ddr0J4RWBmcl2xo0yfSWw";

const HEADER: &str = r#"{"alg":"RS256","kid":"k1","typ":"JWT"}"#;

const CLAIMS_WITH_NAME: &str = r#"{"sub":"1234","email":"a@example.org","name":"Ann","aud":"client-1","iss":"accounts.google.com","exp":4000000000}"#;
const SIG_WITH_NAME: &str = "cXbNxoxzL3nGTJ_k8edB9WOqodcShU1ptMdHUkRzMTveBDmL_xr-FBzSOc2NwGMZu790YxZ8wVdWXZ03PHhabEMWLzqSqV_uVGfqAOkzF1QnRwpVZA-UNw6DuBIsAHW-K2qL4LZkBE9Ii2SLtQzDIF3zuxqP5DiHcM3AhcjzRub04iVWYnOZTBMcpe9XNVnbzylEN5MYBtSQ5YsJAC7uGi3d5QJqejAYxXeRLlOFvsb13OU3EnlA-_Yv5KE0R7XpBg4SQrH8DZWwYXTeHTxUE_og5FxyjHSbKdEDqlV2xkUjRNTD8I0GWTrBn1nS28Ih9hxMrp6AyuOz0x1ObHOm_Q";

const CLAIMS_WITHOUT_NAME: &str = r#"{"sub":"1234","email":"a@example.org","aud":"client-1","iss":"https://accounts.google.com","exp":4000000000}"#;
const SIG_WITHOUT_NAME: &str = "eY8d2zLuH5wRHB6B0Z_icQYhPVvLkdrIg4oqu-Xn1_nepbQLDuANMmIcPKOeU7VEE7VOk6-HaPi8Uag4dD1N6V-wG1eXFf5AXxplavP34vcv8ZzYIZh-CFtsxMx604XQf_QwV_-Z7e-kinc8aE41fyojT23H7RPIlZvl9Hy9NLPL7m3xFOLMjT_A_ps-seypwfkAVyoCURIhIC1EaIbDZmrAYe_5QH3kDKrb8X4DtMdtZJeJGXenNz0BDBPELZQOuk1IunOVIsNM6GJnZpQwQarrhppiIOtYxed8WNmsrbY1VI3Tj7mLxIEaCdtCsMZ-RYwV9nfHrRm1SatMM_oRBQ";

fn id_token(header: &str, claims: &str, sig: &str) -> String {
    format!("{}.{}.{}", URL_SAFE_NO_PAD.encode(header), URL_SAFE_NO_PAD.encode(claims), sig)
}

fn test_key() -> GoogleKey {
    GoogleKey { kid: "k1".into(), n: TEST_N.into(), e: "AQAB".into() }
}

#[test]
fn google_tokens_name_the_key_that_signed_them() {
    let token = id_token(HEADER, CLAIMS_WITH_NAME, SIG_WITH_NAME);
    assert_eq!(google_verify_start(&token).unwrap(), "k1");
    let no_kid = id_token(r#"{"alg":"RS256"}"#, CLAIMS_WITH_NAME, "x");
    assert_eq!(google_verify_start(&no_kid).unwrap_err(), "missing kid in token header");
    let err = google_verify_start("not a token").unwrap_err();
    assert!(!err.is_empty());
    assert_ne!(err, "missing kid in token header");
}

#[test]
fn google_tokens_verified_by_their_key_name_the_user() {
    let token = id_token(HEADER, CLAIMS_WITH_NAME, SIG_WITH_NAME);
    let id = google_verify_finish(&token, &test_key(), "client-1").unwrap();
    assert_eq!(id.subject, "1234");
    assert_eq!(id.email, "a@example.org");
    assert_eq!(id.name, Some("Ann".to_string()));
    assert_eq!(id.provider, "google");
    let token = id_token(HEADER, CLAIMS_WITHOUT_NAME, SIG_WITHOUT_NAME);
    let id = google_verify_finish(&token, &test_key(), "client-1").unwrap();
    assert_eq!(id.subject, "1234");
    assert_eq!(id.name, None);
}

#[test]
fn google_tokens_for_another_client_or_key_are_refused() {
    let token = id_token(HEADER, CLAIMS_WITH_NAME, SIG_WITH_NAME);
    assert!(google_verify_finish(&token, &test_key(), "client-2").is_err());
    let other = GoogleKey { kid: "k1".into(), n: "AQAB".into(), e: "AQAB".into() };
    assert!(google_verify_finish(&token, &other, "client-1").is_err());
    let tampered = id_token(HEADER, CLAIMS_WITHOUT_NAME, SIG_WITH_NAME);
    assert!(google_verify_finish(&tampered, &test_key(), "client-1").is_err());
    assert!(google_verify_finish("a.b.c", &test_key(), "client-1").is_err());
}

#[test]
fn refreshed_keys_are_searched_once_more() {
    let keys = vec![
        GoogleKey { kid: "a".into(), n: "n1".into(), e: "e1".into() },
        GoogleKey { kid: "b".into(), n: "n2".into(), e: "e2".into() },
        GoogleKey { kid: "b".into(), n: "n3".into(), e: "e3".into() },
    ];
    let k = refreshed_key(&keys, "b").unwrap();
    assert_eq!((k.kid.as_str(), k.n.as_str(), k.e.as_str()), ("b", "n2", "e2"));
    assert_eq!(refreshed_key(&keys, "z").unwrap_err(), "google key z not found after refresh");
}

#[test]
fn white_space_is_what_std_calls_white_space() {
    for c in (0u32..=0x10ffff).filter_map(char::from_u32) {
        assert_eq!(char_is_whitespace(c), c.is_whitespace(), "{:?}", c);
    }
}

#[test]
fn cached_keys_are_used_before_refetching() {
    let cache = vec![
        GoogleKey { kid: "a".into(), n: "n1".into(), e: "e1".into() },
        GoogleKey { kid: "a".into(), n: "n2".into(), e: "e2".into() },
    ];
    match cached_key_step(&cache, "a") {
        GoogleKeyStep::Use(k) => assert_eq!((k.kid.as_str(), k.n.as_str(), k.e.as_str()), ("a", "n1", "e1")),
        GoogleKeyStep::Refetch => panic!("the key is cached"),
    }
    assert!(matches!(cached_key_step(&cache, "b"), GoogleKeyStep::Refetch));
    assert!(matches!(cached_key_step(&vec![], "a"), GoogleKeyStep::Refetch));
}

#[test]
fn google_keys_with_modulus_and_exponent_swapped_verify_nothing() {
    let token = id_token(HEADER, CLAIMS_WITH_NAME, SIG_WITH_NAME);
    let swapped = GoogleKey { kid: "k1".into(), n: "AQAB".into(), e: TEST_N.into() };
    assert!(google_verify_finish(&token, &swapped, "client-1").is_err());
}

#[test]
fn google_tokens_come_from_either_google_issuer() {
    assert_eq!(moat::idp::google_issuers(), vec!["https://accounts.google.com".to_string(), "accounts.google.com".to_string()]);
    let token = id_token(HEADER, CLAIMS_WITHOUT_NAME, SIG_WITHOUT_NAME);
    assert!(google_verify_finish(&token, &test_key(), "client-1").is_ok());
    let token = id_token(HEADER, CLAIMS_WITH_NAME, SIG_WITH_NAME);
    assert!(google_verify_finish(&token, &test_key(), "client-1").is_ok());
}

#[test]
fn refetched_keys_replace_the_cache() {
    let mut cache = vec![GoogleKey { kid: "old".into(), n: "n0".into(), e: "e0".into() }];
    let fetched = vec![GoogleKey { kid: "new".into(), n: "n1".into(), e: "e1".into() }];
    let k = moat::idp::replace_keys(&mut cache, fetched, "new").unwrap();
    assert_eq!(k.n, "n1");
    assert_eq!(cache.len(), 1);
    assert_eq!(cache[0].kid, "new");
    let again = vec![GoogleKey { kid: "x".into(), n: "n".into(), e: "e".into() }];
    assert_eq!(moat::idp::replace_keys(&mut cache, again, "new").unwrap_err(), "google key new not found after refresh");
    assert_eq!(cache[0].kid, "x");
}
