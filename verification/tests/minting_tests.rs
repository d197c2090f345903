use moat::api::{AnonTokenRequest, MintTokenRequest};
use moat::auth::UserRecord;
use moat::error::AppError;
use moat::minting::{
    expiry_report, mint_anonymous_start, mint_anonymous_step, mint_token_start, mint_token_step,
    namespace_parts, room_key, token_actions, AnonTokenAction, AnonTokenEvent, AnonTokenState,
    MintTokenAction, MintTokenEvent, MintTokenState, RoomInfo, RoomKey,
};
use moat::roles::{MemberRole, RoomVisibility, TokenRole};
use moat::session::create_session_token;
use moat::token::MintedToken;

fn room(visibility: RoomVisibility) -> RoomInfo {
    RoomInfo {
        id: 0x1111_2222_3333_4444_5555_6666_7777_8888,
        name: "lobby".to_string(),
        namespace_prefix: "mocha/demo".to_string(),
        visibility,
    }
}

fn minted() -> MintedToken {
    MintedToken { token: "tok".to_string(), token_type: 6501485, expires_in: 3600 }
}

#[test]
fn namespaces_split_at_every_slash() {
    assert_eq!(namespace_parts("a/b//c"), vec![b"a".to_vec(), b"b".to_vec(), vec![], b"c".to_vec()]);
    assert_eq!(namespace_parts(""), vec![Vec::<u8>::new()]);
    assert_eq!(namespace_parts("/"), vec![Vec::<u8>::new(), Vec::new()]);
    assert_eq!(namespace_parts("mocha/demo"), vec![b"mocha".to_vec(), b"demo".to_vec()]);
}

#[test]
fn token_roles_are_described_by_their_actions() {
    assert_eq!(token_actions(TokenRole::PubSub), vec!["publish", "subscribe"]);
    assert_eq!(token_actions(TokenRole::Publisher), vec!["publish"]);
    assert_eq!(token_actions(TokenRole::Subscriber), vec!["subscribe"]);
}

#[test]
fn expiry_is_now_plus_lifetime() {
    assert_eq!(expiry_report(1_700_000_000, 3600), 1_700_003_600);
    assert_eq!(expiry_report(-1, 1), 0);
}

#[test]
fn rooms_are_named_by_uuid_or_by_name() {
    match room_key("11112222-3333-4444-5555-666677778888".to_string()) {
        RoomKey::Id(id) => assert_eq!(id, 0x1111_2222_3333_4444_5555_6666_7777_8888),
        RoomKey::Name(_) => panic!("a UUID names a room by id"),
    }
    match room_key("lobby".to_string()) {
        RoomKey::Name(n) => assert_eq!(n, "lobby"),
        RoomKey::Id(_) => panic!("a name is not a UUID"),
    }
}

#[test]
fn token_request_without_credentials_is_refused() {
    let (s, a) = mint_token_start(None, "s", MintTokenRequest { room_id: "lobby".into(), role: None });
    assert!(matches!(s, MintTokenState::Finished));
    match a {
        MintTokenAction::Respond(Err(AppError::Unauthorized(m))) => assert_eq!(m, "missing Authorization header"),
        _ => panic!("expected 401"),
    }
}

#[test]
fn signed_in_token_request_joins_a_public_room_and_mints() {
    let header = format!("Bearer {}", create_session_token(5, "s"));
    let (s, a) = mint_token_start(Some(&header), "s", MintTokenRequest { room_id: "lobby".into(), role: None });
    assert!(matches!(a, MintTokenAction::FindRoomByName(ref n) if n == "lobby"));
    let (s, a) = mint_token_step(s, MintTokenEvent::RoomFound(Some(room(RoomVisibility::Public))), 3600);
    assert!(matches!(a, MintTokenAction::GetMemberRole { user: 5, .. }));
    let (s, a) = mint_token_step(s, MintTokenEvent::MemberRole(None), 3600);
    assert!(matches!(a, MintTokenAction::AddMember { user: 5, role: MemberRole::Admin, .. }));
    let (s, a) = mint_token_step(s, MintTokenEvent::Joined, 3600);
    assert!(matches!(a, MintTokenAction::GetUser(5)));
    let (s, a) = mint_token_step(s, MintTokenEvent::UserFound(Some("e@x.org".into())), 3600);
    match a {
        MintTokenAction::Mint(ref req) => {
            assert_eq!(req.subject, "e@x.org");
            assert_eq!(req.role, TokenRole::PubSub);
            assert_eq!(req.lifetime_secs, 3600);
            assert_eq!(req.namespace_parts, vec![b"mocha".to_vec(), b"demo".to_vec()]);
        },
        _ => panic!("expected a mint"),
    }
    let (s, a) = mint_token_step(s, MintTokenEvent::Minted(Ok(minted()), 100), 3600);
    assert!(matches!(s, MintTokenState::Finished));
    match a {
        MintTokenAction::Respond(Ok(resp)) => {
            assert_eq!(resp.token, "tok");
            assert_eq!(resp.expires_at, 3700);
            assert_eq!(resp.scopes.len(), 1);
            assert_eq!(resp.scopes[0].actions, vec!["publish", "subscribe"]);
            assert_eq!(resp.scopes[0].namespace, "mocha/demo");
            assert!(!resp.dpop);
        },
        _ => panic!("expected a token"),
    }
}

#[test]
fn token_request_errors_along_the_way() {
    let header = format!("Bearer {}", create_session_token(5, "s"));
    let start = || mint_token_start(Some(&header), "s", MintTokenRequest { room_id: "lobby".into(), role: Some(TokenRole::Publisher) }).0;
    let (_, a) = mint_token_step(start(), MintTokenEvent::RoomFound(None), 60);
    assert!(matches!(a, MintTokenAction::Respond(Err(AppError::NotFound(ref m))) if m == "room not found"));
    let (s, _) = mint_token_step(start(), MintTokenEvent::RoomFound(Some(room(RoomVisibility::Private))), 60);
    let (_, a) = mint_token_step(s, MintTokenEvent::MemberRole(None), 60);
    assert!(matches!(a, MintTokenAction::Respond(Err(AppError::Forbidden(_)))));
    let (s, _) = mint_token_step(start(), MintTokenEvent::RoomFound(Some(room(RoomVisibility::Private))), 60);
    let (_, a) = mint_token_step(s, MintTokenEvent::MemberRole(Some(MemberRole::Subscriber)), 60);
    assert!(matches!(a, MintTokenAction::Respond(Err(AppError::Forbidden(ref m))) if m == "subscriber members can only get subscriber tokens"));
    let (s, _) = mint_token_step(start(), MintTokenEvent::RoomFound(Some(room(RoomVisibility::Private))), 60);
    let (s, _) = mint_token_step(s, MintTokenEvent::MemberRole(Some(MemberRole::Publisher)), 60);
    let (_, a) = mint_token_step(s, MintTokenEvent::UserFound(None), 60);
    assert!(matches!(a, MintTokenAction::Respond(Err(AppError::NotFound(ref m))) if m == "user not found"));
    let (_, a) = mint_token_step(start(), MintTokenEvent::Joined, 60);
    assert!(matches!(a, MintTokenAction::Respond(Err(AppError::Internal(_)))));
}

#[test]
fn minter_failure_is_an_internal_error() {
    let (_, a) = mint_token_step(
        MintTokenState::Minting { role: TokenRole::Publisher, room: room(RoomVisibility::Public) },
        MintTokenEvent::Minted(Err("no token minter configured".into()), 0),
        60,
    );
    assert!(matches!(a, MintTokenAction::Respond(Err(AppError::Internal(ref m))) if m == "no token minter configured"));
}

#[test]
fn anonymous_request_signs_up_a_guest_and_mints() {
    let (s, a) = mint_anonymous_start(AnonTokenRequest { room_id: "lobby".into(), role: Some("subscriber".into()) });
    let upsert = match a {
        AnonTokenAction::UpsertUser(u) => u,
        _ => panic!("a guest signs up first"),
    };
    assert_eq!(upsert.provider, "guest");
    let head = &upsert.subject[..8];
    assert_eq!(upsert.email, format!("guest-{head}@moat.local"));
    assert_eq!(upsert.display_name, Some(format!("Guest-{head}")));
    let user = UserRecord { id: 9, email: upsert.email.clone(), display_name: upsert.display_name.clone() };
    let (s, a) = mint_anonymous_step(s, AnonTokenEvent::SignedUp(user), 60);
    assert!(matches!(a, AnonTokenAction::FindRoomByName(ref n) if n == "lobby"));
    let (s, a) = mint_anonymous_step(s, AnonTokenEvent::RoomFound(Some(room(RoomVisibility::Public))), 60);
    assert!(matches!(a, AnonTokenAction::AddMember { user: 9, role: MemberRole::Subscriber, .. }));
    let (s, a) = mint_anonymous_step(s, AnonTokenEvent::Joined, 60);
    match a {
        AnonTokenAction::Mint(ref req) => {
            assert_eq!(req.role, TokenRole::Subscriber);
            assert_eq!(req.subject, upsert.email);
        },
        _ => panic!("expected a mint"),
    }
    let (_, a) = mint_anonymous_step(s, AnonTokenEvent::Minted(Ok(minted()), 10), 60);
    match a {
        AnonTokenAction::Respond(Ok(resp)) => {
            assert_eq!(resp.expires_at, 3610);
            assert_eq!(resp.scopes[0].actions, vec!["subscribe"]);
        },
        _ => panic!("expected a token"),
    }
}

#[test]
fn anonymous_requests_are_refused_sign_in_rooms() {
    let (s, _) = mint_anonymous_start(AnonTokenRequest { room_id: "lobby".into(), role: None });
    let user = UserRecord { id: 9, email: "g".into(), display_name: None };
    let (s, _) = mint_anonymous_step(s, AnonTokenEvent::SignedUp(user), 60);
    let (s, a) = mint_anonymous_step(s, AnonTokenEvent::RoomFound(Some(room(RoomVisibility::Authenticated))), 60);
    assert!(matches!(s, AnonTokenState::Finished));
    assert!(matches!(a, AnonTokenAction::Respond(Err(AppError::Forbidden(_)))));
}
