//! Serving token requests: the decisions between the database lookups, the
//! membership changes and the minting that a token request goes through.

use vstd::prelude::*;
use vstd::utf8::encode_utf8;
use crate::roles::{
    TokenRole, MemberRole, RoomVisibility, MintMembership, mint_membership, mint_membership_spec,
    resolve_role, resolve_role_spec, guest_access, guest_access_spec, guest_member_role,
    guest_member_role_spec, guest_token_role,
};
use crate::error::{AppError, ErrorView, not_found, internal};
use crate::ids::{uuid_from_text, parse_uuid};
use crate::token::{MintRequest, MintRequestView, MintedToken};
use crate::api::{
    MintTokenRequest, MintTokenResponse, MintTokenScope, AnonTokenRequest, AnonTokenResponse,
    AnonTokenScope,
};
use crate::auth::{
    authenticate, authenticate_spec, opt_str, opt_string, UserUpsert, UserRecord, guest_upsert,
    guest_label, is_random_uuid,
};

verus! {

/// A room as the database holds it.
pub struct RoomInfo {
    pub id: u128,
    pub name: String,
    pub namespace_prefix: String,
    pub visibility: RoomVisibility,
}

/// How a request names a room: by UUID when its text reads as one, else by name.
pub enum RoomKey {
    Id(u128),
    Name(String),
}

/// Whether a key is the one a request's room text gives.
pub open spec fn room_key_for(k: RoomKey, room_id: Seq<char>) -> bool {
    match uuid_from_text(encode_utf8(room_id)) {
        Some(id) => k == RoomKey::Id(id),
        None => k matches RoomKey::Name(n) && n@ == room_id,
    }
}

/// The key a request's room text names a room by.
pub fn room_key(room_id: String) -> (r: RoomKey)
    ensures
        room_key_for(r, room_id@),
{
    match parse_uuid(room_id.as_str().as_bytes()) {
        Some(id) => RoomKey::Id(id),
        None => RoomKey::Name(room_id),
    }
}

/// The pieces of `s` between the `sep` bytes, empty pieces included, as
/// `str::split` gives them.
pub open spec fn split_on(s: Seq<u8>, sep: u8) -> Seq<Seq<u8>>
    decreases s.len(),
{
    if s.len() == 0 {
        seq![Seq::empty()]
    } else {
        let init = split_on(s.drop_last(), sep);
        if s.last() == sep {
            init.push(Seq::empty())
        } else {
            init.update(init.len() - 1, init.last().push(s.last()))
        }
    }
}

/// Splitting gives at least one piece.
pub proof fn lemma_split_nonempty(s: Seq<u8>, sep: u8)
    ensures
        split_on(s, sep).len() >= 1,
    decreases s.len(),
{
    if s.len() > 0 {
        lemma_split_nonempty(s.drop_last(), sep);
    }
}

/// The contents of a vector of byte vectors.
pub open spec fn byte_pieces(v: Vec<Vec<u8>>) -> Seq<Seq<u8>> {
    v@.map_values(|p: Vec<u8>| p@)
}

/// The namespace tuple of a room: its prefix split at `/`.
pub fn namespace_parts(prefix: &str) -> (r: Vec<Vec<u8>>)
    ensures
        byte_pieces(r) == split_on(encode_utf8(prefix@), 47u8),
{
    let b = prefix.as_bytes();
    let mut parts: Vec<Vec<u8>> = Vec::new();
    let mut cur: Vec<u8> = Vec::new();
    let mut i: usize = 0;
    assert(b@.take(0) =~= Seq::<u8>::empty());
    assert(byte_pieces(parts).push(cur@) =~= split_on(b@.take(0), 47u8));
    while i < b.len()
        invariant
            i <= b@.len(),
            byte_pieces(parts).push(cur@) == split_on(b@.take(i as int), 47u8),
        decreases b@.len() - i,
    {
        let ghost before = byte_pieces(parts);
        let ghost cur_before = cur@;
        assert(b@.take(i + 1).drop_last() =~= b@.take(i as int));
        if b[i] == 47 {
            parts.push(cur);
            cur = Vec::new();
            assert(byte_pieces(parts) =~= before.push(cur_before));
        } else {
            cur.push(b[i]);
        }
        i = i + 1;
        assert(byte_pieces(parts).push(cur@) =~= split_on(b@.take(i as int), 47u8));
    }
    assert(b@.take(b@.len() as int) =~= b@);
    parts.push(cur);
    assert(byte_pieces(parts) =~= split_on(b@, 47u8));
    parts
}

/// The actions a token role is described by in a response.
pub open spec fn role_actions(role: TokenRole) -> Seq<Seq<char>> {
    match role {
        TokenRole::PubSub => seq!["publish"@, "subscribe"@],
        TokenRole::Publisher => seq!["publish"@],
        TokenRole::Subscriber => seq!["subscribe"@],
    }
}

/// The texts of a vector of strings.
pub open spec fn texts(v: Vec<String>) -> Seq<Seq<char>> {
    v@.map_values(|s: String| s@)
}

/// The actions a token role is described by in a response.
pub fn token_actions(role: TokenRole) -> (r: Vec<String>)
    ensures
        texts(r) == role_actions(role),
{
    let mut v: Vec<String> = Vec::new();
    match role {
        TokenRole::PubSub => {
            v.push("publish".to_owned());
            v.push("subscribe".to_owned());
        },
        TokenRole::Publisher => {
            v.push("publish".to_owned());
        },
        TokenRole::Subscriber => {
            v.push("subscribe".to_owned());
        },
    }
    assert(texts(v) =~= role_actions(role));
    v
}

/// When a token minted at Unix time `now` with this lifetime expires, as the
/// service reports it (wrapping at 2^64).
pub open spec fn reported_expiry(now: i64, expires_in: u64) -> u64 {
    vstd::wrapping::u64_specs::wrapping_add(now as u64, expires_in)
}

/// When a token minted now expires, as the service reports it.
pub fn expiry_report(now: i64, expires_in: u64) -> (r: u64)
    ensures
        r == reported_expiry(now, expires_in),
{
    let start: u64 = #[verifier::truncate] (now as u64);
    start.wrapping_add(expires_in)
}

/// The answer to a signed-in token request for a minted token.
pub open spec fn mint_response_for(r: MintTokenResponse, t: MintedToken, role: TokenRole, namespace: Seq<char>, now: i64) -> bool {
    &&& r.token@ == t.token@
    &&& r.expires_at == reported_expiry(now, t.expires_in)
    &&& r.scopes@.len() == 1
    &&& texts(r.scopes@[0].actions) == role_actions(role)
    &&& r.scopes@[0].namespace@ == namespace
    &&& !r.dpop
}

/// The answer to a signed-in token request for a minted token.
pub fn mint_response(t: MintedToken, role: TokenRole, namespace: String, now: i64) -> (r: MintTokenResponse)
    ensures
        mint_response_for(r, t, role, namespace@, now),
{
    let expires_at = expiry_report(now, t.expires_in);
    let mut scopes: Vec<MintTokenScope> = Vec::new();
    scopes.push(MintTokenScope { actions: token_actions(role), namespace });
    MintTokenResponse { token: t.token, expires_at, scopes, dpop: false }
}

/// The answer to an anonymous token request for a minted token.
pub open spec fn anon_response_for(r: AnonTokenResponse, t: MintedToken, role: TokenRole, namespace: Seq<char>, now: i64) -> bool {
    &&& r.token@ == t.token@
    &&& r.expires_at == reported_expiry(now, t.expires_in)
    &&& r.scopes@.len() == 1
    &&& texts(r.scopes@[0].actions) == role_actions(role)
    &&& r.scopes@[0].namespace@ == namespace
    &&& !r.dpop
}

/// The answer to an anonymous token request for a minted token.
pub fn anon_response(t: MintedToken, role: TokenRole, namespace: String, now: i64) -> (r: AnonTokenResponse)
    ensures
        anon_response_for(r, t, role, namespace@, now),
{
    let expires_at = expiry_report(now, t.expires_in);
    let mut scopes: Vec<AnonTokenScope> = Vec::new();
    scopes.push(AnonTokenScope { actions: token_actions(role), namespace });
    AnonTokenResponse { token: t.token, expires_at, scopes, dpop: false }
}

/// The request a token for a room is minted with.
pub open spec fn mint_request_for(req: MintRequest, subject: Seq<char>, room: RoomInfo, role: TokenRole, lifetime_secs: u64) -> bool {
    req@ == MintRequestView {
        subject,
        namespace_parts: split_on(encode_utf8(room.namespace_prefix@), 47u8),
        role,
        lifetime_secs,
    }
}

/// The request a token for a room is minted with.
fn room_mint_request(subject: String, room: &RoomInfo, role: TokenRole, lifetime_secs: u64) -> (r: MintRequest)
    ensures
        mint_request_for(r, subject@, *room, role, lifetime_secs),
{
    let parts = namespace_parts(room.namespace_prefix.as_str());
    MintRequest { subject, namespace_parts: parts, role, lifetime_secs }
}

/// Where a signed-in token request stands between its outside steps.
pub enum MintTokenState {
    /// Waiting for the room the request names.
    FindingRoom { user: u128, requested: Option<TokenRole> },
    /// Waiting for the caller's membership in the room.
    CheckingMembership { user: u128, requested: Option<TokenRole>, room: RoomInfo },
    /// Waiting for the caller to be added to the room as an admin.
    Joining { user: u128, requested: Option<TokenRole>, room: RoomInfo },
    /// Waiting for the caller's user record.
    FindingUser { user: u128, role: TokenRole, room: RoomInfo },
    /// Waiting for the minted token.
    Minting { role: TokenRole, room: RoomInfo },
    /// Answered.
    Finished,
}

/// What an outside step of a signed-in token request reports back.
pub enum MintTokenEvent {
    /// The room looked up, if it exists.
    RoomFound(Option<RoomInfo>),
    /// The caller's role in the room, if a member.
    MemberRole(Option<MemberRole>),
    /// The caller was added to the room.
    Joined,
    /// The caller's e-mail address, if the user exists.
    UserFound(Option<String>),
    /// The minter's outcome, and the Unix time after it.
    Minted(Result<MintedToken, String>, i64),
}

/// The outside step a signed-in token request takes next.
pub enum MintTokenAction {
    FindRoomById(u128),
    FindRoomByName(String),
    GetMemberRole { room: u128, user: u128 },
    AddMember { room: u128, user: u128, role: MemberRole },
    GetUser(u128),
    Mint(MintRequest),
    Respond(Result<MintTokenResponse, AppError>),
}

/// Whether an action answers with this error.
pub open spec fn mint_fails_with(a: MintTokenAction, e: ErrorView) -> bool {
    a matches MintTokenAction::Respond(Err(x)) && x@ == e
}

/// Whether an action looks up the room a request names.
pub open spec fn mint_looks_up(a: MintTokenAction, room_id: Seq<char>) -> bool {
    match uuid_from_text(encode_utf8(room_id)) {
        Some(id) => a == MintTokenAction::FindRoomById(id),
        None => a matches MintTokenAction::FindRoomByName(n) && n@ == room_id,
    }
}

/// The first step of a signed-in token request: authenticate the caller, then look
/// up the room.
pub open spec fn mint_token_begins(authorization: Option<Seq<char>>, secret: Seq<char>, request: MintTokenRequest, s: MintTokenState, a: MintTokenAction) -> bool {
    match authenticate_spec(authorization, secret) {
        Err(e) => s is Finished && mint_fails_with(a, e),
        Ok(user) => s == (MintTokenState::FindingRoom { user, requested: request.role })
            && mint_looks_up(a, request.room_id@),
    }
}

/// Once the caller's membership role is settled: the granted token role, then the
/// user record, or the refusal.
pub open spec fn mint_role_settled(user: u128, requested: Option<TokenRole>, m: MemberRole, room: RoomInfo, s: MintTokenState, a: MintTokenAction) -> bool {
    match resolve_role_spec(requested, m) {
        Err(e) => s is Finished && mint_fails_with(a, e),
        Ok(role) => s == (MintTokenState::FindingUser { user, role, room }) && a
            == MintTokenAction::GetUser(user),
    }
}

/// One step of a signed-in token request.
pub open spec fn mint_token_next(state: MintTokenState, event: MintTokenEvent, lifetime_secs: u64, s: MintTokenState, a: MintTokenAction) -> bool {
    match (state, event) {
        (MintTokenState::FindingRoom { user, requested }, MintTokenEvent::RoomFound(found)) => match found {
            None => s is Finished && mint_fails_with(a, ErrorView::NotFound("room not found"@)),
            Some(room) => s == (MintTokenState::CheckingMembership { user, requested, room })
                && a == (MintTokenAction::GetMemberRole { room: room.id, user }),
        },
        (MintTokenState::CheckingMembership { user, requested, room }, MintTokenEvent::MemberRole(existing)) => {
            match mint_membership_spec(room.visibility, existing) {
                Err(e) => s is Finished && mint_fails_with(a, e),
                Ok(MintMembership::JoinAsAdmin) => s == (MintTokenState::Joining { user, requested, room })
                    && a == (MintTokenAction::AddMember { room: room.id, user, role: MemberRole::Admin }),
                Ok(MintMembership::Existing(m)) => mint_role_settled(user, requested, m, room, s, a),
            }
        },
        (MintTokenState::Joining { user, requested, room }, MintTokenEvent::Joined) => mint_role_settled(
            user,
            requested,
            MemberRole::Admin,
            room,
            s,
            a,
        ),
        (MintTokenState::FindingUser { user, role, room }, MintTokenEvent::UserFound(found)) => match found {
            None => s is Finished && mint_fails_with(a, ErrorView::NotFound("user not found"@)),
            Some(email) => s == (MintTokenState::Minting { role, room: room }) && (a matches MintTokenAction::Mint(req)
                && mint_request_for(req, email@, room, role, lifetime_secs)),
        },
        (MintTokenState::Minting { role, room }, MintTokenEvent::Minted(outcome, now)) => s is Finished && match outcome {
            Err(e) => mint_fails_with(a, ErrorView::Internal(e@)),
            Ok(t) => a matches MintTokenAction::Respond(Ok(resp)) && mint_response_for(
                resp,
                t,
                role,
                room.namespace_prefix@,
                now,
            ),
        },
        _ => s is Finished && mint_fails_with(a, ErrorView::Internal("request handling out of order"@)),
    }
}

/// Starts a signed-in token request (`POST /v1/token`).
pub fn mint_token_start(authorization: Option<&str>, session_secret: &str, request: MintTokenRequest) -> (r: (MintTokenState, MintTokenAction))
    ensures
        mint_token_begins(opt_str(authorization), session_secret@, request, r.0, r.1),
{
    let user = match authenticate(authorization, session_secret) {
        Ok(u) => u,
        Err(e) => return (MintTokenState::Finished, MintTokenAction::Respond(Err(e))),
    };
    let action = match room_key(request.room_id) {
        RoomKey::Id(id) => MintTokenAction::FindRoomById(id),
        RoomKey::Name(n) => MintTokenAction::FindRoomByName(n),
    };
    (MintTokenState::FindingRoom { user, requested: request.role }, action)
}

/// The step once the caller's membership role is settled.
fn mint_settle_role(user: u128, requested: Option<TokenRole>, m: MemberRole, room: RoomInfo) -> (r: (MintTokenState, MintTokenAction))
    ensures
        mint_role_settled(user, requested, m, room, r.0, r.1),
{
    match resolve_role(requested, m) {
        Ok(role) => (MintTokenState::FindingUser { user, role, room }, MintTokenAction::GetUser(user)),
        Err(e) => (MintTokenState::Finished, MintTokenAction::Respond(Err(e))),
    }
}

/// Advances a signed-in token request by what its last outside step reported.
pub fn mint_token_step(state: MintTokenState, event: MintTokenEvent, lifetime_secs: u64) -> (r: (MintTokenState, MintTokenAction))
    ensures
        mint_token_next(state, event, lifetime_secs, r.0, r.1),
{
    match (state, event) {
        (MintTokenState::FindingRoom { user, requested }, MintTokenEvent::RoomFound(found)) => match found {
            None => (MintTokenState::Finished, MintTokenAction::Respond(Err(not_found("room not found")))),
            Some(room) => {
                let room_id = room.id;
                (
                    MintTokenState::CheckingMembership { user, requested, room },
                    MintTokenAction::GetMemberRole { room: room_id, user },
                )
            },
        },
        (MintTokenState::CheckingMembership { user, requested, room }, MintTokenEvent::MemberRole(existing)) => {
            match mint_membership(room.visibility, existing) {
                Err(e) => (MintTokenState::Finished, MintTokenAction::Respond(Err(e))),
                Ok(MintMembership::JoinAsAdmin) => {
                    let room_id = room.id;
                    (
                        MintTokenState::Joining { user, requested, room },
                        MintTokenAction::AddMember { room: room_id, user, role: MemberRole::Admin },
                    )
                },
                Ok(MintMembership::Existing(m)) => mint_settle_role(user, requested, m, room),
            }
        },
        (MintTokenState::Joining { user, requested, room }, MintTokenEvent::Joined) => mint_settle_role(
            user,
            requested,
            MemberRole::Admin,
            room,
        ),
        (MintTokenState::FindingUser { user, role, room }, MintTokenEvent::UserFound(found)) => match found {
            None => (MintTokenState::Finished, MintTokenAction::Respond(Err(not_found("user not found")))),
            Some(email) => {
                let req = room_mint_request(email, &room, role, lifetime_secs);
                (MintTokenState::Minting { role, room }, MintTokenAction::Mint(req))
            },
        },
        (MintTokenState::Minting { role, room }, MintTokenEvent::Minted(outcome, now)) => match outcome {
            Err(e) => (MintTokenState::Finished, MintTokenAction::Respond(Err(AppError::Internal(e)))),
            Ok(t) => (
                MintTokenState::Finished,
                MintTokenAction::Respond(Ok(mint_response(t, role, room.namespace_prefix, now))),
            ),
        },
        _ => (
            MintTokenState::Finished,
            MintTokenAction::Respond(Err(internal("request handling out of order"))),
        ),
    }
}

/// Where an anonymous token request stands between its outside steps.
pub enum AnonTokenState {
    /// Waiting for the guest's user record to be written.
    SigningUp { room_id: String, role: Option<String> },
    /// Waiting for the room the request names.
    FindingRoom { user: UserRecord, role: Option<String> },
    /// Waiting for the guest to be added to the room.
    Joining { user: UserRecord, role: MemberRole, room: RoomInfo },
    /// Waiting for the minted token.
    Minting { role: TokenRole, room: RoomInfo },
    /// Answered.
    Finished,
}

/// What an outside step of an anonymous token request reports back.
pub enum AnonTokenEvent {
    /// The guest's user record as written.
    SignedUp(UserRecord),
    /// The room looked up, if it exists.
    RoomFound(Option<RoomInfo>),
    /// The guest was added to the room.
    Joined,
    /// The minter's outcome, and the Unix time after it.
    Minted(Result<MintedToken, String>, i64),
}

/// The outside step an anonymous token request takes next.
pub enum AnonTokenAction {
    UpsertUser(UserUpsert),
    FindRoomById(u128),
    FindRoomByName(String),
    AddMember { room: u128, user: u128, role: MemberRole },
    Mint(MintRequest),
    Respond(Result<AnonTokenResponse, AppError>),
}

/// Whether an action answers with this error.
pub open spec fn anon_fails_with(a: AnonTokenAction, e: ErrorView) -> bool {
    a matches AnonTokenAction::Respond(Err(x)) && x@ == e
}

/// Whether an action looks up the room a request names.
pub open spec fn anon_looks_up(a: AnonTokenAction, room_id: Seq<char>) -> bool {
    match uuid_from_text(encode_utf8(room_id)) {
        Some(id) => a == AnonTokenAction::FindRoomById(id),
        None => a matches AnonTokenAction::FindRoomByName(n) && n@ == room_id,
    }
}

/// The first step of an anonymous token request: a guest with a fresh random
/// UUID signs up under the label `Guest-<first 8 hex digits>`.
pub open spec fn anon_token_begins(request: AnonTokenRequest, s: AnonTokenState, a: AnonTokenAction) -> bool {
    &&& s == (AnonTokenState::SigningUp { room_id: request.room_id, role: request.role })
    &&& a matches AnonTokenAction::UpsertUser(u) && exists|id: u128| #[trigger] is_random_uuid(id) && guest_upsert(u, id, guest_label(id))
}

/// The token role a guest gets for its room role.
pub open spec fn guest_token_role_spec(role: MemberRole) -> TokenRole {
    match role {
        MemberRole::Publisher => TokenRole::PubSub,
        MemberRole::Subscriber => TokenRole::Subscriber,
        MemberRole::Admin => TokenRole::PubSub,
    }
}

/// One step of an anonymous token request.
pub open spec fn anon_token_next(state: AnonTokenState, event: AnonTokenEvent, lifetime_secs: u64, s: AnonTokenState, a: AnonTokenAction) -> bool {
    match (state, event) {
        (AnonTokenState::SigningUp { room_id, role }, AnonTokenEvent::SignedUp(user)) => s == (AnonTokenState::FindingRoom { user, role })
            && anon_looks_up(a, room_id@),
        (AnonTokenState::FindingRoom { user, role }, AnonTokenEvent::RoomFound(found)) => match found {
            None => s is Finished && anon_fails_with(a, ErrorView::NotFound("room not found"@)),
            Some(room) => match guest_access_spec(room.visibility) {
                Err(e) => s is Finished && anon_fails_with(a, e),
                Ok(_) => {
                    let m = guest_member_role_spec(opt_string(role));
                    s == (AnonTokenState::Joining { user, role: m, room }) && a == (AnonTokenAction::AddMember {
                        room: room.id,
                        user: user.id,
                        role: m,
                    })
                },
            },
        },
        (AnonTokenState::Joining { user, role, room }, AnonTokenEvent::Joined) => {
            let t = guest_token_role_spec(role);
            s == (AnonTokenState::Minting { role: t, room }) && (a matches AnonTokenAction::Mint(req)
                && mint_request_for(req, user.email@, room, t, lifetime_secs))
        },
        (AnonTokenState::Minting { role, room }, AnonTokenEvent::Minted(outcome, now)) => s is Finished && match outcome {
            Err(e) => anon_fails_with(a, ErrorView::Internal(e@)),
            Ok(t) => a matches AnonTokenAction::Respond(Ok(resp)) && anon_response_for(
                resp,
                t,
                role,
                room.namespace_prefix@,
                now,
            ),
        },
        _ => s is Finished && anon_fails_with(a, ErrorView::Internal("request handling out of order"@)),
    }
}

/// Starts an anonymous token request (`POST /v1/token/anonymous`).
pub fn mint_anonymous_start(request: AnonTokenRequest) -> (r: (AnonTokenState, AnonTokenAction))
    ensures
        anon_token_begins(request, r.0, r.1),
{
    let id = crate::auth::new_guest_id();
    let label = crate::auth::guest_label_of(id);
    let upsert = crate::auth::guest_record(id, label);
    assert(is_random_uuid(id) && guest_upsert(upsert, id, guest_label(id)));
    (
        AnonTokenState::SigningUp { room_id: request.room_id, role: request.role },
        AnonTokenAction::UpsertUser(upsert),
    )
}

/// The optional role text of a request, borrowed.
fn opt_as_str(role: &Option<String>) -> (r: Option<&str>)
    ensures
        opt_str(r) == opt_string(*role),
{
    match role {
        Some(s) => Some(s.as_str()),
        None => None,
    }
}

/// Advances an anonymous token request by what its last outside step reported.
pub fn mint_anonymous_step(state: AnonTokenState, event: AnonTokenEvent, lifetime_secs: u64) -> (r: (AnonTokenState, AnonTokenAction))
    ensures
        anon_token_next(state, event, lifetime_secs, r.0, r.1),
{
    match (state, event) {
        (AnonTokenState::SigningUp { room_id, role }, AnonTokenEvent::SignedUp(user)) => {
            let action = match room_key(room_id) {
                RoomKey::Id(id) => AnonTokenAction::FindRoomById(id),
                RoomKey::Name(n) => AnonTokenAction::FindRoomByName(n),
            };
            (AnonTokenState::FindingRoom { user, role }, action)
        },
        (AnonTokenState::FindingRoom { user, role }, AnonTokenEvent::RoomFound(found)) => match found {
            None => (AnonTokenState::Finished, AnonTokenAction::Respond(Err(not_found("room not found")))),
            Some(room) => match guest_access(room.visibility) {
                Err(e) => (AnonTokenState::Finished, AnonTokenAction::Respond(Err(e))),
                Ok(_) => {
                    let m = guest_member_role(opt_as_str(&role));
                    let room_id = room.id;
                    let user_id = user.id;
                    (
                        AnonTokenState::Joining { user, role: m, room },
                        AnonTokenAction::AddMember { room: room_id, user: user_id, role: m },
                    )
                },
            },
        },
        (AnonTokenState::Joining { user, role, room }, AnonTokenEvent::Joined) => {
            let t = guest_token_role(role);
            let req = room_mint_request(user.email, &room, t, lifetime_secs);
            (AnonTokenState::Minting { role: t, room }, AnonTokenAction::Mint(req))
        },
        (AnonTokenState::Minting { role, room }, AnonTokenEvent::Minted(outcome, now)) => match outcome {
            Err(e) => (AnonTokenState::Finished, AnonTokenAction::Respond(Err(AppError::Internal(e)))),
            Ok(t) => (
                AnonTokenState::Finished,
                AnonTokenAction::Respond(Ok(anon_response(t, role, room.namespace_prefix, now))),
            ),
        },
        _ => (
            AnonTokenState::Finished,
            AnonTokenAction::Respond(Err(internal("request handling out of order"))),
        ),
    }
}

/// A signed-in caller's token role is always one its membership permits, and a
/// caller who is not a member of a private room never gets past the membership check.
pub proof fn lemma_signed_in_role_permitted(
    user: u128,
    requested: Option<TokenRole>,
    room: RoomInfo,
    existing: Option<MemberRole>,
    lifetime_secs: u64,
    s: MintTokenState,
    a: MintTokenAction,
)
    requires
        mint_token_next(
            MintTokenState::CheckingMembership { user, requested, room },
            MintTokenEvent::MemberRole(existing),
            lifetime_secs,
            s,
            a,
        ),
    ensures
        s matches MintTokenState::FindingUser { role, .. } ==> crate::roles::permits(
            match existing {
                Some(m) => m,
                None => MemberRole::Admin,
            },
            role,
        ),
        existing is None && room.visibility == RoomVisibility::Private ==> (s is Finished
            && a matches MintTokenAction::Respond(Err(_))),
        !(s is Minting),
{
    if let Some(m) = existing {
        crate::roles::lemma_resolve_role_permitted(requested, m);
    }
}

/// Joining as an admin grants whatever role the caller asks for, or publish and
/// subscribe when it asks for none.
pub proof fn lemma_joined_admin_gets_request(
    user: u128,
    requested: Option<TokenRole>,
    room: RoomInfo,
    lifetime_secs: u64,
    s: MintTokenState,
    a: MintTokenAction,
)
    requires
        mint_token_next(
            MintTokenState::Joining { user, requested, room },
            MintTokenEvent::Joined,
            lifetime_secs,
            s,
            a,
        ),
    ensures
        s matches MintTokenState::FindingUser { role, .. } && role == match requested {
            Some(r) => r,
            None => TokenRole::PubSub,
        },
{
}

/// Guests are only ever added to public rooms.
pub proof fn lemma_guests_join_only_public_rooms(
    state: AnonTokenState,
    event: AnonTokenEvent,
    lifetime_secs: u64,
    s: AnonTokenState,
    a: AnonTokenAction,
)
    requires
        anon_token_next(state, event, lifetime_secs, s, a),
        a is AddMember,
    ensures
        event matches AnonTokenEvent::RoomFound(Some(room)) && room.visibility == RoomVisibility::Public,
{
}

/// Two pieces joined with a separator between them.
pub open spec fn join_with(pieces: Seq<Seq<u8>>, sep: u8) -> Seq<u8>
    decreases pieces.len(),
{
    if pieces.len() <= 1 {
        if pieces.len() == 0 {
            Seq::empty()
        } else {
            pieces[0]
        }
    } else {
        join_with(pieces.drop_last(), sep) + seq![sep] + pieces.last()
    }
}

/// Growing the last piece grows the joined text by the same byte.
proof fn lemma_join_grow_last(p: Seq<Seq<u8>>, sep: u8, c: u8)
    requires
        p.len() >= 1,
    ensures
        join_with(p.update(p.len() - 1, p.last().push(c)), sep) == join_with(p, sep).push(c),
{
    let q = p.update(p.len() - 1, p.last().push(c));
    if p.len() == 1 {
        assert(q[0] == p[0].push(c));
    } else {
        assert(q.drop_last() =~= p.drop_last());
        assert(q.last() == p.last().push(c));
        assert(join_with(q, sep) =~= join_with(p, sep).push(c));
    }
}

/// Joining the pieces of a split with its separator gives back the text: the
/// namespace tuple of a room is its prefix, cut at every `/`.
pub proof fn lemma_split_join(s: Seq<u8>, sep: u8)
    ensures
        join_with(split_on(s, sep), sep) == s,
    decreases s.len(),
{
    if s.len() > 0 {
        let init = split_on(s.drop_last(), sep);
        lemma_split_join(s.drop_last(), sep);
        lemma_split_nonempty(s.drop_last(), sep);
        if s.last() == sep {
            let p = init.push(Seq::<u8>::empty());
            assert(p.drop_last() =~= init);
            assert(join_with(p, sep) =~= join_with(init, sep) + seq![sep]);
            assert(s =~= s.drop_last() + seq![sep]);
        } else {
            lemma_join_grow_last(init, sep, s.last());
            assert(s =~= s.drop_last().push(s.last()));
        }
    }
}

/// The actions a token role is described by, spelled out: a publisher may
/// publish, a subscriber may subscribe, and a pub/sub holder may do both, in
/// that order.
pub open spec fn actions_granted(role: TokenRole, actions: Seq<Seq<char>>) -> bool {
    match role {
        TokenRole::Publisher => actions == seq!["publish"@],
        TokenRole::Subscriber => actions == seq!["subscribe"@],
        TokenRole::PubSub => actions == seq!["publish"@, "subscribe"@],
    }
}

/// A signed-in token request answers a minted token with that token, one scope
/// over the room's namespace, and exactly the actions of the role the token was
/// minted for; a minter's failure is an internal error carrying its text.
pub proof fn lemma_signed_in_answer_names_the_minted_role(
    role: TokenRole,
    room: RoomInfo,
    outcome: Result<MintedToken, String>,
    now: i64,
    lifetime_secs: u64,
    s: MintTokenState,
    a: MintTokenAction,
)
    requires
        mint_token_next(MintTokenState::Minting { role, room }, MintTokenEvent::Minted(outcome, now), lifetime_secs, s, a),
    ensures
        s is Finished,
        outcome matches Ok(t) ==> a matches MintTokenAction::Respond(Ok(resp)) && {
            &&& resp.token@ == t.token@
            &&& resp.scopes@.len() == 1
            &&& actions_granted(role, resp.scopes@[0].actions@.map_values(|x: String| x@))
            &&& resp.scopes@[0].namespace@ == room.namespace_prefix@
        },
        outcome matches Err(e) ==> a matches MintTokenAction::Respond(Err(x)) && x@ == ErrorView::Internal(e@),
{
}

/// A guest's token carries publish and subscribe rights when the guest joined as
/// a publisher or an admin, and subscribe rights alone when it joined as a
/// subscriber; it is minted for the guest's email, for this request's lifetime.
pub proof fn lemma_guest_mints_by_joined_role(
    user: UserRecord,
    role: MemberRole,
    room: RoomInfo,
    lifetime_secs: u64,
    s: AnonTokenState,
    a: AnonTokenAction,
)
    requires
        anon_token_next(AnonTokenState::Joining { user, role, room }, AnonTokenEvent::Joined, lifetime_secs, s, a),
    ensures
        a matches AnonTokenAction::Mint(req) && {
            &&& (role == MemberRole::Publisher || role == MemberRole::Admin) ==> req.role == TokenRole::PubSub
            &&& role == MemberRole::Subscriber ==> req.role == TokenRole::Subscriber
            &&& req@.subject == user.email@
            &&& req@.lifetime_secs == lifetime_secs
            &&& s == (AnonTokenState::Minting { role: req.role, room })
        },
{
}

/// A guest entering a public room asks for a subscriber token by the role text
/// `subscriber`; with any other text, or none, it gets publish and subscribe
/// rights.
pub proof fn lemma_guest_token_role_of_request(
    user: UserRecord,
    requested: Option<String>,
    room: RoomInfo,
    lifetime_secs: u64,
    s1: AnonTokenState,
    a1: AnonTokenAction,
    s2: AnonTokenState,
    a2: AnonTokenAction,
)
    requires
        room.visibility == RoomVisibility::Public,
        anon_token_next(
            AnonTokenState::FindingRoom { user, role: requested },
            AnonTokenEvent::RoomFound(Some(room)),
            lifetime_secs,
            s1,
            a1,
        ),
        anon_token_next(s1, AnonTokenEvent::Joined, lifetime_secs, s2, a2),
    ensures
        a2 matches AnonTokenAction::Mint(req) && if requested matches Some(t) && t@ == "subscriber"@ {
            req.role == TokenRole::Subscriber
        } else {
            req.role == TokenRole::PubSub
        },
{
}

/// An anonymous token request answers a minted token with that token, one scope
/// over the room's namespace, and exactly the actions of the role the token was
/// minted for.
pub proof fn lemma_guest_answer_names_the_minted_role(
    role: TokenRole,
    room: RoomInfo,
    t: MintedToken,
    now: i64,
    lifetime_secs: u64,
    s: AnonTokenState,
    a: AnonTokenAction,
)
    requires
        anon_token_next(AnonTokenState::Minting { role, room }, AnonTokenEvent::Minted(Ok(t), now), lifetime_secs, s, a),
    ensures
        s is Finished,
        a matches AnonTokenAction::Respond(Ok(resp)) && {
            &&& resp.token@ == t.token@
            &&& resp.scopes@.len() == 1
            &&& actions_granted(role, resp.scopes@[0].actions@.map_values(|x: String| x@))
            &&& resp.scopes@[0].namespace@ == room.namespace_prefix@
        },
{
}

} // verus!
