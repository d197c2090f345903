use moat::error::AppError;
use moat::roles::{
    guest_access, guest_member_role, guest_token_role, mint_membership, resolve_role, MemberRole,
    MintMembership, RoomVisibility, TokenRole,
};

fn forbidden_text(r: Result<TokenRole, AppError>) -> String {
    match r {
        Err(AppError::Forbidden(m)) => m,
        other => panic!("expected a refusal, got {:?}", other),
    }
}

#[test]
fn admins_default_to_pubsub_and_may_ask_for_anything() {
    assert_eq!(resolve_role(None, MemberRole::Admin).unwrap(), TokenRole::PubSub);
    assert_eq!(resolve_role(Some(TokenRole::Subscriber), MemberRole::Admin).unwrap(), TokenRole::Subscriber);
    assert_eq!(resolve_role(Some(TokenRole::Publisher), MemberRole::Admin).unwrap(), TokenRole::Publisher);
}

#[test]
fn publishers_default_to_publisher_and_are_refused_subscriber_only() {
    assert_eq!(resolve_role(None, MemberRole::Publisher).unwrap(), TokenRole::Publisher);
    assert_eq!(resolve_role(Some(TokenRole::PubSub), MemberRole::Publisher).unwrap(), TokenRole::PubSub);
    assert_eq!(
        forbidden_text(resolve_role(Some(TokenRole::Subscriber), MemberRole::Publisher)),
        "publisher members cannot request subscriber-only tokens"
    );
}

#[test]
fn subscribers_only_get_subscriber_tokens() {
    assert_eq!(resolve_role(None, MemberRole::Subscriber).unwrap(), TokenRole::Subscriber);
    assert_eq!(
        forbidden_text(resolve_role(Some(TokenRole::PubSub), MemberRole::Subscriber)),
        "subscriber members can only get subscriber tokens"
    );
    assert_eq!(
        forbidden_text(resolve_role(Some(TokenRole::Publisher), MemberRole::Subscriber)),
        "subscriber members can only get subscriber tokens"
    );
}

#[test]
fn members_keep_their_role_and_private_rooms_refuse_strangers() {
    assert!(matches!(
        mint_membership(RoomVisibility::Private, Some(MemberRole::Subscriber)),
        Ok(MintMembership::Existing(MemberRole::Subscriber))
    ));
    assert!(matches!(mint_membership(RoomVisibility::Public, None), Ok(MintMembership::JoinAsAdmin)));
    assert!(matches!(mint_membership(RoomVisibility::Authenticated, None), Ok(MintMembership::JoinAsAdmin)));
    match mint_membership(RoomVisibility::Private, None) {
        Err(AppError::Forbidden(m)) => assert_eq!(
            m,
            "this is a private room — you need an invite link or to be added by a member"
        ),
        _ => panic!("private rooms refuse non-members"),
    }
}

#[test]
fn guests_only_enter_public_rooms() {
    assert!(guest_access(RoomVisibility::Public).is_ok());
    match guest_access(RoomVisibility::Authenticated) {
        Err(AppError::Forbidden(m)) => assert_eq!(
            m,
            "this room requires sign-in — please log in with your identity provider to join"
        ),
        _ => panic!("sign-in rooms refuse guests"),
    }
    assert!(matches!(guest_access(RoomVisibility::Private), Err(AppError::Forbidden(_))));
}

#[test]
fn guest_roles_follow_the_requested_text() {
    assert_eq!(guest_member_role(Some("subscriber")), MemberRole::Subscriber);
    assert_eq!(guest_member_role(Some("publisher")), MemberRole::Publisher);
    assert_eq!(guest_member_role(Some("admin")), MemberRole::Publisher);
    assert_eq!(guest_member_role(None), MemberRole::Publisher);
    assert_eq!(guest_token_role(MemberRole::Publisher), TokenRole::PubSub);
    assert_eq!(guest_token_role(MemberRole::Subscriber), TokenRole::Subscriber);
    assert_eq!(guest_token_role(MemberRole::Admin), TokenRole::PubSub);
}

#[test]
fn errors_answer_with_status_and_message() {
    let (s, m) = AppError::NotFound("room not found".to_string()).status_and_message();
    assert_eq!((s, m.as_str()), (404, "room not found"));
    let (s, m) = AppError::Internal("boom".to_string()).status_and_message();
    assert_eq!((s, m.as_str()), (500, "internal error"));
    let (s, m) = AppError::Database("down".to_string()).status_and_message();
    assert_eq!((s, m.as_str()), (500, "database error"));
    assert_eq!(AppError::Unauthorized("x".to_string()).status_and_message().0, 401);
    assert_eq!(AppError::Forbidden("x".to_string()).status_and_message().0, 403);
    assert_eq!(AppError::BadRequest("x".to_string()).status_and_message().0, 400);
    assert!(AppError::Internal("boom".to_string()).is_logged());
    assert!(!AppError::Forbidden("x".to_string()).is_logged());
}
