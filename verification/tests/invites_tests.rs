use moat::api::CreateInviteRequest;
use moat::error::AppError;
use moat::idp::{find_key, google_identity, header_key_id, missing_key_error, GoogleKey, IdpRegistry, IdpStep};
use moat::invites::{
    check_invite, create_invite_start, create_invite_step, generate_short_code, invite_expiry, invite_expiry_fits,
    redeem_start, MAX_UNIX_SECS,
    redeem_step, CreateInviteAction, CreateInviteEvent, InviteRecord, RedeemAction, RedeemEvent, RedeemState,
    Timestamp,
};
use moat::minting::RoomInfo;
use moat::roles::{MemberRole, RoomVisibility};
use moat::rooms::{found_room, plan_room, removal_outcome, CreateRoomRequest};
use moat::session::create_session_token;

fn room() -> RoomInfo {
    RoomInfo { id: 0xaaaa_bbbb_cccc_dddd_eeee_ffff_0000_1111, name: "lobby".into(), namespace_prefix: "m/l".into(), visibility: RoomVisibility::Private }
}

fn invite(expires_at: Option<Timestamp>, max_uses: Option<i32>, use_count: i32) -> InviteRecord {
    InviteRecord { id: 77, room_id: room().id, code: "abc2345".into(), expires_at, max_uses, use_count }
}

#[test]
fn invite_codes_are_seven_unambiguous_characters() {
    for _ in 0..50 {
        let c = generate_short_code();
        assert_eq!(c.len(), 7);
        assert!(c.chars().all(|ch| "abcdefghijkmnpqrstuvwxyz23456789".contains(ch)));
    }
}

#[test]
fn invites_expire_hours_after_creation() {
    let now = Timestamp { secs: 1000, nanos: 5 };
    assert_eq!(invite_expiry(now, Some(2)), Some(Timestamp { secs: 8200, nanos: 5 }));
    assert_eq!(invite_expiry(now, None), None);
    assert_eq!(invite_expiry(now, Some(u64::MAX)), Some(Timestamp { secs: 1000 - 3600, nanos: 5 }));
    assert!(invite_expiry_fits(now, Some(u64::MAX)));
    assert!(invite_expiry_fits(now, Some(2)));
    assert!(invite_expiry_fits(now, None));
    assert!(!invite_expiry_fits(now, Some(1u64 << 40)));
    assert!(!invite_expiry_fits(now, Some(1u64 << 63)));
    assert!(invite_expiry_fits(Timestamp { secs: MAX_UNIX_SECS - 3600, nanos: 0 }, Some(1)));
    assert!(!invite_expiry_fits(Timestamp { secs: MAX_UNIX_SECS - 3599, nanos: 0 }, Some(1)));
}

#[test]
fn spent_or_expired_invites_are_refused() {
    let now = Timestamp { secs: 100, nanos: 0 };
    let expired = check_invite(&invite(Some(Timestamp { secs: 99, nanos: 999 }), None, 0), now);
    assert!(matches!(expired, Some(AppError::Forbidden(ref m)) if m == "this invite link has expired"));
    let same_second = check_invite(&invite(Some(Timestamp { secs: 100, nanos: 1 }), None, 0), now);
    assert!(same_second.is_none());
    let spent = check_invite(&invite(None, Some(3), 3), now);
    assert!(matches!(spent, Some(AppError::Forbidden(ref m)) if m == "this invite link has reached its maximum uses"));
    assert!(check_invite(&invite(None, Some(3), 2), now).is_none());
}

#[test]
fn members_create_invite_links() {
    let header = format!("Bearer {}", create_session_token(5, "s"));
    let req = CreateInviteRequest { max_uses: Some(10), expires_in_hours: Some(1) };
    let (s, a) = create_invite_start(Some(&header), "s", room().id, req);
    assert!(matches!(a, CreateInviteAction::FindRoom(id) if id == room().id));
    let (s, a) = create_invite_step(s, CreateInviteEvent::RoomFound(Some(room())), "https://chat");
    assert!(matches!(a, CreateInviteAction::GetMemberRole { user: 5, .. }));
    let now = Timestamp { secs: 50, nanos: 0 };
    let (s, a) = create_invite_step(s, CreateInviteEvent::MemberRole(Some(MemberRole::Publisher), now), "https://chat");
    let code = match a {
        CreateInviteAction::Insert(inv) => {
            assert_eq!(inv.created_by, 5);
            assert_eq!(inv.max_uses, Some(10));
            assert_eq!(inv.expires_at, Some(Timestamp { secs: 3650, nanos: 0 }));
            assert_eq!(inv.code.len(), 7);
            inv.code
        },
        _ => panic!("members write an invite"),
    };
    let written = InviteRecord { id: 1, room_id: room().id, code: code.clone(), expires_at: Some(Timestamp { secs: 3650, nanos: 0 }), max_uses: Some(10), use_count: 0 };
    let (_, a) = create_invite_step(s, CreateInviteEvent::Created(written), "https://chat");
    match a {
        CreateInviteAction::Respond(Ok(r)) => {
            assert_eq!(r.url, format!("https://chat/join/{code}"));
            assert_eq!(r.code, code);
            assert_eq!(r.room_name, "lobby");
            assert_eq!(r.expires_at, Some(3650));
            assert_eq!(r.max_uses, Some(10));
        },
        _ => panic!("expected the invite"),
    }
}

#[test]
fn strangers_cannot_create_invites() {
    let header = format!("Bearer {}", create_session_token(5, "s"));
    let req = CreateInviteRequest { max_uses: None, expires_in_hours: None };
    let (s, _) = create_invite_start(Some(&header), "s", room().id, req);
    let (s, _) = create_invite_step(s, CreateInviteEvent::RoomFound(Some(room())), "b");
    let (_, a) = create_invite_step(s, CreateInviteEvent::MemberRole(None, Timestamp { secs: 0, nanos: 0 }), "b");
    assert!(matches!(a, CreateInviteAction::Respond(Err(AppError::Forbidden(ref m))) if m == "only room members can create invite links"));
    let (_, a) = create_invite_start(None, "s", 1, CreateInviteRequest { max_uses: None, expires_in_hours: None });
    assert!(matches!(a, CreateInviteAction::Respond(Err(AppError::Unauthorized(_)))));
}

#[test]
fn redeeming_joins_new_members_as_publishers() {
    let header = format!("Bearer {}", create_session_token(6, "s"));
    let (s, a) = redeem_start(Some(&header), "s", "abc2345".into());
    assert!(matches!(a, RedeemAction::FindInvite(ref c) if c == "abc2345"));
    let now = Timestamp { secs: 10, nanos: 0 };
    let (s, a) = redeem_step(s, RedeemEvent::InviteFound(Some(invite(None, Some(2), 1)), now));
    assert!(matches!(a, RedeemAction::FindRoom(id) if id == room().id));
    let (s, _) = redeem_step(s, RedeemEvent::RoomFound(Some(room())));
    let (s, a) = redeem_step(s, RedeemEvent::MemberRole(None));
    assert!(matches!(a, RedeemAction::AddMember { user: 6, role: MemberRole::Publisher, .. }));
    let (s, a) = redeem_step(s, RedeemEvent::Joined);
    assert!(matches!(a, RedeemAction::CountUse(77)));
    let (s, a) = redeem_step(s, RedeemEvent::Counted);
    assert!(matches!(s, RedeemState::Finished));
    match a {
        RedeemAction::Respond(Ok(r)) => {
            assert_eq!(r.room_id, "aaaabbbb-cccc-dddd-eeee-ffff00001111");
            assert_eq!(r.room_name, "lobby");
            assert!(r.joined);
        },
        _ => panic!("expected to join"),
    }
}

#[test]
fn redeeming_as_a_member_changes_nothing() {
    let header = format!("Bearer {}", create_session_token(6, "s"));
    let (s, _) = redeem_start(Some(&header), "s", "abc2345".into());
    let (s, _) = redeem_step(s, RedeemEvent::InviteFound(Some(invite(None, None, 0)), Timestamp { secs: 0, nanos: 0 }));
    let (s, _) = redeem_step(s, RedeemEvent::RoomFound(Some(room())));
    let (_, a) = redeem_step(s, RedeemEvent::MemberRole(Some(MemberRole::Subscriber)));
    assert!(matches!(a, RedeemAction::Respond(Ok(ref r)) if !r.joined));
    let (s, _) = redeem_start(Some(&header), "s", "zzz".into());
    let (_, a) = redeem_step(s, RedeemEvent::InviteFound(None, Timestamp { secs: 0, nanos: 0 }));
    assert!(matches!(a, RedeemAction::Respond(Err(AppError::NotFound(ref m))) if m == "invite link not found or expired"));
}

#[test]
fn identity_providers_are_tried_in_order() {
    let reg = IdpRegistry::new(vec!["google".into(), "other".into()]);
    assert!(matches!(reg.verify_start(), IdpStep::Try(0)));
    assert!(matches!(reg.verify_step(0, Err("bad".into())), IdpStep::Try(1)));
    assert!(matches!(reg.verify_step(1, Err("bad".into())), IdpStep::Reject(ref m) if m == "no IdP could validate the token"));
    let id = google_identity("sub".into(), "e@x".into(), None);
    assert!(matches!(reg.verify_step(1, Ok(id)), IdpStep::Accept(ref i) if i.provider == "google" && i.subject == "sub"));
    let empty = IdpRegistry::new(vec![]);
    assert!(matches!(empty.verify_start(), IdpStep::Reject(_)));
}

#[test]
fn google_keys_are_found_by_key_id() {
    let keys = vec![
        GoogleKey { kid: "a".into(), n: "n1".into(), e: "e".into() },
        GoogleKey { kid: "b".into(), n: "n2".into(), e: "e".into() },
    ];
    assert_eq!(find_key(&keys, "b"), Some(1));
    assert_eq!(find_key(&keys, "c"), None);
    assert_eq!(missing_key_error("c"), "google key c not found after refresh");
    assert_eq!(header_key_id(None).unwrap_err(), "missing kid in token header");
    assert_eq!(header_key_id(Some("k".into())).unwrap(), "k");
}

#[test]
fn rooms_default_to_public_and_creators_become_admins() {
    let (r, creator) = plan_room(CreateRoomRequest { name: "n".into(), namespace_prefix: "p".into(), visibility: None, creator_id: Some(3) });
    assert_eq!(r.visibility, RoomVisibility::Public);
    let c = creator.unwrap();
    assert_eq!((c.user, c.role), (3, MemberRole::Admin));
    let (r, creator) = plan_room(CreateRoomRequest { name: "n".into(), namespace_prefix: "p".into(), visibility: Some(RoomVisibility::Private), creator_id: None });
    assert_eq!(r.visibility, RoomVisibility::Private);
    assert!(creator.is_none());
    assert!(matches!(found_room(None), Err(AppError::NotFound(ref m)) if m == "room not found"));
    assert!(removal_outcome(true).is_ok());
    assert!(matches!(removal_outcome(false), Err(AppError::NotFound(ref m)) if m == "member not found"));
}

fn redeem_once(user: u128, inv: InviteRecord) -> bool {
    let header = format!("Bearer {}", create_session_token(user, "s"));
    let (s, _) = redeem_start(Some(&header), "s", "abc2345".into());
    let (s, a) = redeem_step(s, RedeemEvent::InviteFound(Some(inv), Timestamp { secs: 10, nanos: 0 }));
    if !matches!(a, RedeemAction::FindRoom(_)) {
        return false;
    }
    let (s, _) = redeem_step(s, RedeemEvent::RoomFound(Some(room())));
    let (s, _) = redeem_step(s, RedeemEvent::MemberRole(None));
    let (_, a) = redeem_step(s, RedeemEvent::Joined);
    matches!(a, RedeemAction::CountUse(77))
}

#[test]
fn invites_never_count_past_their_maximum_uses() {
    let mut uses = 0;
    let mut joined = 0;
    for user in 1..=5u128 {
        if redeem_once(user, invite(None, Some(3), uses)) {
            uses += 1;
            joined += 1;
        }
        assert!(uses <= 3);
    }
    assert_eq!(joined, 3);
    assert_eq!(uses, 3);
}

#[test]
fn codes_spell_the_drawn_letters() {
    assert_eq!(moat::invites::code_from_indices(&[0, 1, 2, 3, 4, 5, 6]), "abcdefg");
    assert_eq!(moat::invites::code_from_indices(&[31, 30, 24, 11, 14, 0, 0]), "982mqaa");
    let code = generate_short_code();
    assert_eq!(code.len(), 7);
}
