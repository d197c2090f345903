//! Invite links: creating them for a room and redeeming them to join it.

use vstd::prelude::*;
use rand::Rng;
use vstd::utf8::encode_utf8;
use crate::text::{TextBuf, ascii_chars, all_ascii, uuid_hyphenated, push_uuid_hyphenated, lemma_uuid_hyphenated_facts};
use crate::error::{AppError, ErrorView, not_found, forbidden, internal};
use crate::roles::MemberRole;
use crate::api::{CreateInviteRequest, InviteResponse, RedeemResponse};
use crate::auth::{authenticate, authenticate_spec, opt_str};
use crate::minting::RoomInfo;

verus! {

/// The characters invite codes are made of: lowercase letters and digits
/// without the look-alikes `l`, `o`, `0` and `1`.
pub open spec fn code_alphabet() -> Seq<u8> {
    encode_utf8("abcdefghijkmnpqrstuvwxyz23456789"@)
}

/// Whether a text is an invite code: seven characters of the code alphabet.
pub open spec fn is_invite_code(code: Seq<char>) -> bool {
    exists|b: Seq<u8>|
        #[trigger] ascii_chars(b) == code && b.len() == 7 && forall|j: int|
            0 <= j < 7 ==> code_alphabet().contains(#[trigger] b[j])
}

/// `rand::rng().random_range(0..n)`: a uniformly random index below `n`.
#[verifier::external_body]
fn random_below(n: usize) -> (r: usize)
    requires
        n > 0,
    ensures
        r < n,
{
    rand::rng().random_range(0..n)
}

/// The invite code whose characters are the code alphabet's letters at these
/// seven positions.
pub open spec fn code_of_indices(idx: Seq<usize>) -> Seq<char> {
    ascii_chars(Seq::new(7, |j: int| code_alphabet()[idx[j] as int]))
}

/// The invite code spelled by seven positions in the code alphabet.
pub fn code_from_indices(idx: &[usize]) -> (r: String)
    requires
        idx@.len() == 7,
        forall|j: int| 0 <= j < 7 ==> #[trigger] idx@[j] < 32,
    ensures
        r@ == code_of_indices(idx@),
        is_invite_code(r@),
{
    let alphabet = "abcdefghijkmnpqrstuvwxyz23456789";
    proof {
        reveal_strlit("abcdefghijkmnpqrstuvwxyz23456789");
        vstd::utf8::is_ascii_chars_encode_utf8(alphabet@);
    }
    let letters = alphabet.as_bytes();
    assert(letters@ == code_alphabet());
    let ghost want = Seq::new(7, |j: int| code_alphabet()[idx@[j] as int]);
    let mut code: Vec<u8> = Vec::new();
    let mut i: usize = 0;
    while i < 7
        invariant
            letters@ == code_alphabet(),
            letters@.len() == 32,
            all_ascii(letters@),
            idx@.len() == 7,
            forall|j: int| 0 <= j < 7 ==> #[trigger] idx@[j] < 32,
            want == Seq::new(7, |j: int| code_alphabet()[idx@[j] as int]),
            i <= 7,
            code@ == want.take(i as int),
        decreases 7 - i,
    {
        let k = idx[i];
        code.push(letters[k]);
        i = i + 1;
        assert(code@ =~= want.take(i as int));
    }
    assert(want.take(7) =~= want);
    assert forall|j: int| 0 <= j < 7 implies code_alphabet().contains(#[trigger] code@[j]) by {
        assert(code_alphabet()[idx@[j] as int] == code@[j]);
    }
    assert(all_ascii(code@)) by {
        assert forall|j: int| 0 <= j < code@.len() implies #[trigger] code@[j] < 128 by {
            assert(letters@[idx@[j] as int] < 128);
        }
    }
    let mut text = TextBuf::new();
    text.push_ascii(code.as_slice());
    let r = text.into_string();
    assert(ascii_chars(code@) == r@);
    r
}

/// A fresh random invite code: seven uniform draws from the code alphabet.
pub fn generate_short_code() -> (r: String)
    ensures
        exists|idx: Seq<usize>|
            idx.len() == 7 && (forall|j: int| 0 <= j < 7 ==> #[trigger] idx[j] < 32) && r@ == code_of_indices(idx),
        is_invite_code(r@),
{
    let mut idx: Vec<usize> = Vec::new();
    let mut i: usize = 0;
    while i < 7
        invariant
            i <= 7,
            idx@.len() == i,
            forall|j: int| 0 <= j < i ==> #[trigger] idx@[j] < 32,
        decreases 7 - i,
    {
        idx.push(random_below(32));
        i = i + 1;
    }
    code_from_indices(idx.as_slice())
}

/// A moment as Unix seconds and nanoseconds.
#[derive(Debug, Clone, Copy, PartialEq, Eq, Structural)]
pub struct Timestamp {
    pub secs: i64,
    pub nanos: u32,
}

/// Whether one moment comes after another.
pub open spec fn later(a: Timestamp, b: Timestamp) -> bool {
    a.secs > b.secs || (a.secs == b.secs && a.nanos > b.nanos)
}

/// The latest Unix second `chrono` can represent (the end of year 262142).
pub const MAX_UNIX_SECS: i64 = 8_210_266_876_799;

/// The earliest Unix second `chrono` can represent (the start of year -262143).
pub const MIN_UNIX_SECS: i64 = -8_334_601_315_200;

/// Whether a Unix time in seconds lies where `chrono` can represent it.
pub open spec fn in_chrono_range(secs: int) -> bool {
    MIN_UNIX_SECS <= secs <= MAX_UNIX_SECS
}

/// An unsigned count as a signed 64-bit integer, wrapping (`h as i64`): counts
/// past `i64::MAX` become negative.
pub open spec fn wrapped_i64(h: u64) -> int {
    if h <= i64::MAX {
        h as int
    } else {
        h as int - 0x1_0000_0000_0000_0000
    }
}

/// When an invite created at `now` expires: the hours count, taken as a signed
/// integer, hours later, if it expires.
pub open spec fn invite_expiry_spec(now: Timestamp, hours: Option<u64>) -> Option<Timestamp> {
    match hours {
        Some(h) => Some(Timestamp { secs: (now.secs + 3600 * wrapped_i64(h)) as i64, nanos: now.nanos }),
        None => None,
    }
}

/// Whether `now`, and the expiry `hours` after it, lie where `chrono` can
/// compute them.
pub open spec fn expiry_in_range(now: Timestamp, hours: Option<u64>) -> bool {
    hours matches Some(h) ==> in_chrono_range(now.secs as int) && in_chrono_range(now.secs + 3600 * wrapped_i64(h))
}

/// An unsigned count as a signed 64-bit integer, wrapping.
pub fn wrap_i64(h: u64) -> (r: i64)
    ensures
        r == wrapped_i64(h),
{
    if h <= i64::MAX as u64 {
        h as i64
    } else {
        let below: u64 = u64::MAX - h;
        -1 - (below as i64)
    }
}

/// Whether the expiry of an invite created at `now` can be computed.
pub fn invite_expiry_fits(now: Timestamp, hours: Option<u64>) -> (r: bool)
    ensures
        r == expiry_in_range(now, hours),
{
    match hours {
        None => true,
        Some(h) => {
            if now.secs < MIN_UNIX_SECS || now.secs > MAX_UNIX_SECS {
                return false;
            }
            let w: i128 = wrap_i64(h) as i128;
            let end: i128 = now.secs as i128 + 3600 * w;
            MIN_UNIX_SECS as i128 <= end && end <= MAX_UNIX_SECS as i128
        },
    }
}

/// When an invite created at `now` expires.
pub fn invite_expiry(now: Timestamp, hours: Option<u64>) -> (r: Option<Timestamp>)
    requires
        expiry_in_range(now, hours),
    ensures
        r == invite_expiry_spec(now, hours),
{
    match hours {
        Some(h) => {
            let w: i64 = wrap_i64(h);
            Some(Timestamp { secs: now.secs + 3600 * w, nanos: now.nanos })
        },
        None => None,
    }
}

/// An invite as the database holds it.
pub struct InviteRecord {
    pub id: u128,
    pub room_id: u128,
    pub code: String,
    pub expires_at: Option<Timestamp>,
    pub max_uses: Option<i32>,
    pub use_count: i32,
}

/// An invite to be written.
pub struct NewInvite {
    pub room_id: u128,
    pub code: String,
    pub created_by: u128,
    pub max_uses: Option<i32>,
    pub expires_at: Option<Timestamp>,
}

/// The seconds of an optional moment.
pub open spec fn opt_secs(t: Option<Timestamp>) -> Option<i64> {
    match t {
        Some(x) => Some(x.secs),
        None => None,
    }
}

/// The link that redeems an invite code: `<base>/join/<code>`.
pub open spec fn invite_url(base_url: Seq<char>, code: Seq<char>) -> Seq<char> {
    base_url + "/join/"@ + code
}

/// Where creating an invite stands between its outside steps.
pub enum CreateInviteState {
    /// Waiting for the room.
    FindingRoom { user: u128, request: CreateInviteRequest },
    /// Waiting for the caller's membership, and the time.
    CheckingMember { user: u128, request: CreateInviteRequest, room: RoomInfo },
    /// Waiting for the invite to be written.
    Creating { room: RoomInfo },
    /// Answered.
    Finished,
}

/// What an outside step of creating an invite reports back.
pub enum CreateInviteEvent {
    RoomFound(Option<RoomInfo>),
    /// The caller's role in the room, if a member, and the current time.
    MemberRole(Option<MemberRole>, Timestamp),
    Created(InviteRecord),
}

/// The outside step creating an invite takes next.
pub enum CreateInviteAction {
    FindRoom(u128),
    GetMemberRole { room: u128, user: u128 },
    /// Write this invite.
    Insert(NewInvite),
    Respond(Result<InviteResponse, AppError>),
}

/// Whether an action answers with this error.
pub open spec fn invite_fails_with(a: CreateInviteAction, e: ErrorView) -> bool {
    a matches CreateInviteAction::Respond(Err(x)) && x@ == e
}

/// The first step of creating an invite: authenticate, then look up the room.
pub open spec fn create_invite_begins(authorization: Option<Seq<char>>, secret: Seq<char>, room_id: u128, request: CreateInviteRequest, s: CreateInviteState, a: CreateInviteAction) -> bool {
    match authenticate_spec(authorization, secret) {
        Err(e) => s is Finished && invite_fails_with(a, e),
        Ok(user) => s == (CreateInviteState::FindingRoom { user, request }) && a
            == CreateInviteAction::FindRoom(room_id),
    }
}

/// Whether the time an event reports keeps the invite's expiry computable.
pub open spec fn create_invite_event_ok(state: CreateInviteState, event: CreateInviteEvent) -> bool {
    match (state, event) {
        (CreateInviteState::CheckingMember { request, .. }, CreateInviteEvent::MemberRole(Some(_), now)) => expiry_in_range(
            now,
            request.expires_in_hours,
        ),
        _ => true,
    }
}

/// One step of creating an invite.
pub open spec fn create_invite_next(state: CreateInviteState, event: CreateInviteEvent, base_url: Seq<char>, s: CreateInviteState, a: CreateInviteAction) -> bool {
    match (state, event) {
        (CreateInviteState::FindingRoom { user, request }, CreateInviteEvent::RoomFound(found)) => match found {
            None => s is Finished && invite_fails_with(a, ErrorView::NotFound("room not found"@)),
            Some(room) => s == (CreateInviteState::CheckingMember { user, request, room }) && a == (CreateInviteAction::GetMemberRole {
                room: room.id,
                user,
            }),
        },
        (CreateInviteState::CheckingMember { user, request, room }, CreateInviteEvent::MemberRole(role, now)) => match role {
            None => s is Finished && invite_fails_with(
                a,
                ErrorView::Forbidden("only room members can create invite links"@),
            ),
            Some(_) => s == (CreateInviteState::Creating { room }) && (a matches CreateInviteAction::Insert(inv) && {
                &&& inv.room_id == room.id
                &&& is_invite_code(inv.code@)
                &&& inv.created_by == user
                &&& inv.max_uses == request.max_uses
                &&& inv.expires_at == invite_expiry_spec(now, request.expires_in_hours)
            }),
        },
        (CreateInviteState::Creating { room }, CreateInviteEvent::Created(inv)) => s is Finished && (a matches CreateInviteAction::Respond(Ok(resp)) && {
            &&& resp.url@ == invite_url(base_url, inv.code@)
            &&& resp.code@ == inv.code@
            &&& resp.room_name@ == room.name@
            &&& resp.expires_at == opt_secs(inv.expires_at)
            &&& resp.max_uses == inv.max_uses
        }),
        _ => s is Finished && invite_fails_with(a, ErrorView::Internal("request handling out of order"@)),
    }
}

/// Starts creating an invite for a room (`POST /v1/rooms/{room_id}/invites`).
pub fn create_invite_start(authorization: Option<&str>, session_secret: &str, room_id: u128, request: CreateInviteRequest) -> (r: (CreateInviteState, CreateInviteAction))
    ensures
        create_invite_begins(opt_str(authorization), session_secret@, room_id, request, r.0, r.1),
{
    match authenticate(authorization, session_secret) {
        Ok(user) => (CreateInviteState::FindingRoom { user, request }, CreateInviteAction::FindRoom(room_id)),
        Err(e) => (CreateInviteState::Finished, CreateInviteAction::Respond(Err(e))),
    }
}

/// Advances creating an invite by what its last outside step reported.
pub fn create_invite_step(state: CreateInviteState, event: CreateInviteEvent, base_url: &str) -> (r: (CreateInviteState, CreateInviteAction))
    requires
        create_invite_event_ok(state, event),
    ensures
        create_invite_next(state, event, base_url@, r.0, r.1),
{
    match (state, event) {
        (CreateInviteState::FindingRoom { user, request }, CreateInviteEvent::RoomFound(found)) => match found {
            None => (CreateInviteState::Finished, CreateInviteAction::Respond(Err(not_found("room not found")))),
            Some(room) => {
                let room_id = room.id;
                (
                    CreateInviteState::CheckingMember { user, request, room },
                    CreateInviteAction::GetMemberRole { room: room_id, user },
                )
            },
        },
        (CreateInviteState::CheckingMember { user, request, room }, CreateInviteEvent::MemberRole(role, now)) => match role {
            None => (
                CreateInviteState::Finished,
                CreateInviteAction::Respond(Err(forbidden("only room members can create invite links"))),
            ),
            Some(_) => {
                let code = generate_short_code();
                let expires_at = invite_expiry(now, request.expires_in_hours);
                let inv = NewInvite {
                    room_id: room.id,
                    code,
                    created_by: user,
                    max_uses: request.max_uses,
                    expires_at,
                };
                (CreateInviteState::Creating { room }, CreateInviteAction::Insert(inv))
            },
        },
        (CreateInviteState::Creating { room }, CreateInviteEvent::Created(inv)) => {
            let mut url = TextBuf::new();
            url.push_str(base_url);
            url.push_str("/join/");
            url.push_str(inv.code.as_str());
            let expires_at = match inv.expires_at {
                Some(t) => Some(t.secs),
                None => None,
            };
            let resp = InviteResponse {
                code: inv.code,
                url: url.into_string(),
                room_name: room.name,
                expires_at,
                max_uses: inv.max_uses,
            };
            (CreateInviteState::Finished, CreateInviteAction::Respond(Ok(resp)))
        },
        _ => (
            CreateInviteState::Finished,
            CreateInviteAction::Respond(Err(internal("request handling out of order"))),
        ),
    }
}

/// Why an invite can no longer be redeemed at `now`, if it cannot.
pub open spec fn invite_refusal(inv: InviteRecord, now: Timestamp) -> Option<ErrorView> {
    if inv.expires_at matches Some(t) && later(now, t) {
        Some(ErrorView::Forbidden("this invite link has expired"@))
    } else if inv.max_uses matches Some(m) && inv.use_count >= m {
        Some(ErrorView::Forbidden("this invite link has reached its maximum uses"@))
    } else {
        None
    }
}

/// Where redeeming an invite stands between its outside steps.
pub enum RedeemState {
    /// Waiting for the invite and the time.
    FindingInvite { user: u128 },
    /// Waiting for the invite's room.
    FindingRoom { user: u128, invite: u128 },
    /// Waiting for the caller's membership.
    CheckingMember { user: u128, invite: u128, room: RoomInfo },
    /// Waiting for the caller to be added as a publisher.
    Joining { invite: u128, room: RoomInfo },
    /// Waiting for the invite's use to be counted.
    Counting { room: RoomInfo },
    /// Answered.
    Finished,
}

/// What an outside step of redeeming an invite reports back.
pub enum RedeemEvent {
    /// The invite with the code, if any, and the current time.
    InviteFound(Option<InviteRecord>, Timestamp),
    RoomFound(Option<RoomInfo>),
    MemberRole(Option<MemberRole>),
    Joined,
    Counted,
}

/// The outside step redeeming an invite takes next.
pub enum RedeemAction {
    FindInvite(String),
    FindRoom(u128),
    GetMemberRole { room: u128, user: u128 },
    AddMember { room: u128, user: u128, role: MemberRole },
    CountUse(u128),
    Respond(Result<RedeemResponse, AppError>),
}

/// Whether an action answers with this error.
pub open spec fn redeem_fails_with(a: RedeemAction, e: ErrorView) -> bool {
    a matches RedeemAction::Respond(Err(x)) && x@ == e
}

/// Whether an action answers that the caller is in the room, and whether it just joined.
pub open spec fn redeem_answers(a: RedeemAction, room: RoomInfo, joined: bool) -> bool {
    a matches RedeemAction::Respond(Ok(resp)) && {
        &&& resp.room_id@ == ascii_chars(uuid_hyphenated(room.id))
        &&& resp.room_name@ == room.name@
        &&& resp.joined == joined
    }
}

/// The first step of redeeming an invite: authenticate, then look up the code.
pub open spec fn redeem_begins(authorization: Option<Seq<char>>, secret: Seq<char>, code: Seq<char>, s: RedeemState, a: RedeemAction) -> bool {
    match authenticate_spec(authorization, secret) {
        Err(e) => s is Finished && redeem_fails_with(a, e),
        Ok(user) => s == (RedeemState::FindingInvite { user }) && (a matches RedeemAction::FindInvite(c) && c@
            == code),
    }
}

/// One step of redeeming an invite.
pub open spec fn redeem_next(state: RedeemState, event: RedeemEvent, s: RedeemState, a: RedeemAction) -> bool {
    match (state, event) {
        (RedeemState::FindingInvite { user }, RedeemEvent::InviteFound(found, now)) => match found {
            None => s is Finished && redeem_fails_with(a, ErrorView::NotFound("invite link not found or expired"@)),
            Some(inv) => match invite_refusal(inv, now) {
                Some(e) => s is Finished && redeem_fails_with(a, e),
                None => s == (RedeemState::FindingRoom { user, invite: inv.id }) && a == RedeemAction::FindRoom(
                    inv.room_id,
                ),
            },
        },
        (RedeemState::FindingRoom { user, invite }, RedeemEvent::RoomFound(found)) => match found {
            None => s is Finished && redeem_fails_with(a, ErrorView::NotFound("room no longer exists"@)),
            Some(room) => s == (RedeemState::CheckingMember { user, invite, room }) && a == (RedeemAction::GetMemberRole {
                room: room.id,
                user,
            }),
        },
        (RedeemState::CheckingMember { user, invite, room }, RedeemEvent::MemberRole(role)) => match role {
            Some(_) => s is Finished && redeem_answers(a, room, false),
            None => s == (RedeemState::Joining { invite, room }) && a == (RedeemAction::AddMember {
                room: room.id,
                user,
                role: MemberRole::Publisher,
            }),
        },
        (RedeemState::Joining { invite, room }, RedeemEvent::Joined) => s == (RedeemState::Counting { room }) && a
            == RedeemAction::CountUse(invite),
        (RedeemState::Counting { room }, RedeemEvent::Counted) => s is Finished && redeem_answers(a, room, true),
        _ => s is Finished && redeem_fails_with(a, ErrorView::Internal("request handling out of order"@)),
    }
}

/// Starts redeeming an invite code (`POST /v1/invites/{code}/redeem`).
pub fn redeem_start(authorization: Option<&str>, session_secret: &str, code: String) -> (r: (RedeemState, RedeemAction))
    ensures
        redeem_begins(opt_str(authorization), session_secret@, code@, r.0, r.1),
{
    match authenticate(authorization, session_secret) {
        Ok(user) => (RedeemState::FindingInvite { user }, RedeemAction::FindInvite(code)),
        Err(e) => (RedeemState::Finished, RedeemAction::Respond(Err(e))),
    }
}

/// Whether an invite can no longer be redeemed at `now`, and why.
pub fn check_invite(inv: &InviteRecord, now: Timestamp) -> (r: Option<AppError>)
    ensures
        match r {
            Some(e) => invite_refusal(*inv, now) == Some(e@),
            None => invite_refusal(*inv, now) is None,
        },
{
    match inv.expires_at {
        Some(t) => {
            if now.secs > t.secs || (now.secs == t.secs && now.nanos > t.nanos) {
                return Some(forbidden("this invite link has expired"));
            }
        },
        None => {},
    }
    match inv.max_uses {
        Some(m) => {
            if inv.use_count >= m {
                return Some(forbidden("this invite link has reached its maximum uses"));
            }
        },
        None => {},
    }
    None
}

/// The answer that the caller is in a room.
fn redeem_response(room: RoomInfo, joined: bool) -> (r: RedeemAction)
    ensures
        redeem_answers(r, room, joined),
{
    let mut hyph: Vec<u8> = Vec::new();
    push_uuid_hyphenated(&mut hyph, room.id);
    proof {
        lemma_uuid_hyphenated_facts(room.id);
    }
    let mut id = TextBuf::new();
    id.push_ascii(hyph.as_slice());
    RedeemAction::Respond(Ok(RedeemResponse { room_id: id.into_string(), room_name: room.name, joined }))
}

/// Advances redeeming an invite by what its last outside step reported.
pub fn redeem_step(state: RedeemState, event: RedeemEvent) -> (r: (RedeemState, RedeemAction))
    ensures
        redeem_next(state, event, r.0, r.1),
{
    match (state, event) {
        (RedeemState::FindingInvite { user }, RedeemEvent::InviteFound(found, now)) => match found {
            None => (
                RedeemState::Finished,
                RedeemAction::Respond(Err(not_found("invite link not found or expired"))),
            ),
            Some(inv) => match check_invite(&inv, now) {
                Some(e) => (RedeemState::Finished, RedeemAction::Respond(Err(e))),
                None => (RedeemState::FindingRoom { user, invite: inv.id }, RedeemAction::FindRoom(inv.room_id)),
            },
        },
        (RedeemState::FindingRoom { user, invite }, RedeemEvent::RoomFound(found)) => match found {
            None => (RedeemState::Finished, RedeemAction::Respond(Err(not_found("room no longer exists")))),
            Some(room) => {
                let room_id = room.id;
                (RedeemState::CheckingMember { user, invite, room }, RedeemAction::GetMemberRole { room: room_id, user })
            },
        },
        (RedeemState::CheckingMember { user, invite, room }, RedeemEvent::MemberRole(role)) => match role {
            Some(_) => (RedeemState::Finished, redeem_response(room, false)),
            None => {
                let room_id = room.id;
                (
                    RedeemState::Joining { invite, room },
                    RedeemAction::AddMember { room: room_id, user, role: MemberRole::Publisher },
                )
            },
        },
        (RedeemState::Joining { invite, room }, RedeemEvent::Joined) => (RedeemState::Counting { room }, RedeemAction::CountUse(invite)),
        (RedeemState::Counting { room }, RedeemEvent::Counted) => (RedeemState::Finished, redeem_response(room, true)),
        _ => (RedeemState::Finished, RedeemAction::Respond(Err(internal("request handling out of order")))),
    }
}

/// An invite's use is counted only when a caller who was not a member has just
/// joined through it, and only callers who were not members are added.
pub proof fn lemma_uses_counted_only_for_new_members(state: RedeemState, event: RedeemEvent, s: RedeemState, a: RedeemAction)
    requires
        redeem_next(state, event, s, a),
    ensures
        a is CountUse ==> state is Joining && event is Joined,
        a is AddMember ==> state is CheckingMember && event == RedeemEvent::MemberRole(None),
{
}

/// An expired or used-up invite admits nobody: the redemption ends with its refusal.
pub proof fn lemma_refused_invite_admits_nobody(user: u128, inv: InviteRecord, now: Timestamp, s: RedeemState, a: RedeemAction)
    requires
        redeem_next(RedeemState::FindingInvite { user }, RedeemEvent::InviteFound(Some(inv), now), s, a),
        invite_refusal(inv, now) is Some,
    ensures
        s is Finished,
        a matches RedeemAction::Respond(Err(e)) && Some(e@) == invite_refusal(inv, now),
{
}

/// Whether steps are those of one redemption request in order: each step is
/// `redeem_next` from the state the step before it reached.
pub open spec fn redeem_run(steps: Seq<(RedeemState, RedeemEvent, RedeemState, RedeemAction)>) -> bool {
    &&& forall|i: int| 0 <= i < steps.len() ==> redeem_next(#[trigger] steps[i].0, steps[i].1, steps[i].2, steps[i].3)
    &&& forall|i: int| 0 < i < steps.len() ==> (#[trigger] steps[i]).0 == steps[i - 1].2
}

/// Whether a request's steps ask to count a use of the invite `id`.
pub open spec fn counts_use(steps: Seq<(RedeemState, RedeemEvent, RedeemState, RedeemAction)>, id: u128) -> bool {
    exists|i: int| 0 <= i < steps.len() && (#[trigger] steps[i]).3 == RedeemAction::CountUse(id)
}

/// Where a request stands after it found the invite `id`: finished, or (when the
/// invite was not refused) still working on that invite.
pub open spec fn after_finding(s: RedeemState, id: u128, admitted: bool) -> bool {
    match s {
        RedeemState::Finished => true,
        RedeemState::FindingRoom { user, invite } => admitted && invite == id,
        RedeemState::CheckingMember { user, invite, room } => admitted && invite == id,
        RedeemState::Joining { invite, room } => admitted && invite == id,
        RedeemState::Counting { room } => admitted,
        RedeemState::FindingInvite { user } => false,
    }
}

/// A request that starts from the invite it found counts a use of no other
/// invite, and of that one only when the invite was not refused.
pub proof fn lemma_run_counts_only_admitted(
    steps: Seq<(RedeemState, RedeemEvent, RedeemState, RedeemAction)>,
    inv: InviteRecord,
    now: Timestamp,
    id: u128,
)
    requires
        redeem_run(steps),
        steps.len() > 0,
        steps[0].0 is FindingInvite,
        steps[0].1 == RedeemEvent::InviteFound(Some(inv), now),
        counts_use(steps, id),
    ensures
        id == inv.id,
        invite_refusal(inv, now) is None,
{
    let k = choose|k: int| 0 <= k < steps.len() && (#[trigger] steps[k]).3 == RedeemAction::CountUse(id);
    if k > 0 {
        lemma_run_after_finding(steps, inv, now, k - 1);
        assert(steps[k].0 == steps[k - 1].2);
    }
    assert(redeem_next(steps[k].0, steps[k].1, steps[k].2, steps[k].3));
}

/// Every state a request reaches after finding the invite is `after_finding` it.
proof fn lemma_run_after_finding(
    steps: Seq<(RedeemState, RedeemEvent, RedeemState, RedeemAction)>,
    inv: InviteRecord,
    now: Timestamp,
    i: int,
)
    requires
        redeem_run(steps),
        0 <= i < steps.len(),
        steps[0].0 is FindingInvite,
        steps[0].1 == RedeemEvent::InviteFound(Some(inv), now),
    ensures
        after_finding(steps[i].2, inv.id, invite_refusal(inv, now) is None),
    decreases i,
{
    assert(redeem_next(steps[i].0, steps[i].1, steps[i].2, steps[i].3));
    if i > 0 {
        lemma_run_after_finding(steps, inv, now, i - 1);
        assert(steps[i].0 == steps[i - 1].2);
    }
}

/// Redemptions of one invite with at most `max` uses, made one after another,
/// never count it past its maximum. Request `k` reads the invite with `uses[k]`
/// uses, and the count grows by one exactly after the requests that ask to count
/// a use; then every count stays within `max`, and each request that counts a use
/// found the invite below its maximum.
pub proof fn lemma_invite_uses_bounded(
    runs: Seq<Seq<(RedeemState, RedeemEvent, RedeemState, RedeemAction)>>,
    uses: Seq<int>,
    id: u128,
    max: i32,
)
    requires
        uses.len() == runs.len() + 1,
        uses[0] <= max,
        forall|k: int|
            0 <= k < runs.len() ==> {
                &&& redeem_run(#[trigger] runs[k])
                &&& runs[k].len() > 0
                &&& runs[k][0].0 is FindingInvite
                &&& runs[k][0].1 matches RedeemEvent::InviteFound(Some(inv), _) && inv.id == id
                    && inv.max_uses == Some(max) && inv.use_count == uses[k]
            },
        forall|k: int|
            0 <= k < runs.len() ==> uses[k + 1] == uses[k] + if counts_use(#[trigger] runs[k], id) {
                1int
            } else {
                0int
            },
    ensures
        forall|k: int| 0 <= k <= runs.len() ==> #[trigger] uses[k] <= max,
        forall|k: int| 0 <= k < runs.len() && counts_use(#[trigger] runs[k], id) ==> uses[k] < max,
{
    assert forall|k: int| 0 <= k < runs.len() && counts_use(#[trigger] runs[k], id) implies uses[k] < max by {
        if let RedeemEvent::InviteFound(Some(inv), now) = runs[k][0].1 {
            lemma_run_counts_only_admitted(runs[k], inv, now, id);
        }
    }
    lemma_uses_within(runs, uses, id, max, runs.len() as int);
}

/// The counts up to request `n` stay within the maximum.
proof fn lemma_uses_within(
    runs: Seq<Seq<(RedeemState, RedeemEvent, RedeemState, RedeemAction)>>,
    uses: Seq<int>,
    id: u128,
    max: i32,
    n: int,
)
    requires
        0 <= n <= runs.len(),
        uses.len() == runs.len() + 1,
        uses[0] <= max,
        forall|k: int| 0 <= k < runs.len() && counts_use(#[trigger] runs[k], id) ==> uses[k] < max,
        forall|k: int|
            0 <= k < runs.len() ==> uses[k + 1] == uses[k] + if counts_use(#[trigger] runs[k], id) {
                1int
            } else {
                0int
            },
    ensures
        forall|k: int| 0 <= k <= n ==> #[trigger] uses[k] <= max,
    decreases n,
{
    if n > 0 {
        lemma_uses_within(runs, uses, id, max, n - 1);
        assert(uses[n] == uses[n - 1] + if counts_use(runs[n - 1], id) { 1int } else { 0int });
    }
}

/// Any member of a room, whatever its role, may create an invite link: the
/// invite written is for that room, by that member, with the requested use
/// limit, a seven-character code, and an expiry the requested number of hours
/// (taken as a signed 64-bit count) after `now`. Only a caller who is no member
/// is refused.
pub proof fn lemma_any_member_creates_invites(
    user: u128,
    request: CreateInviteRequest,
    room: RoomInfo,
    membership: Option<MemberRole>,
    now: Timestamp,
    base_url: Seq<char>,
    s: CreateInviteState,
    a: CreateInviteAction,
)
    requires
        create_invite_next(
            CreateInviteState::CheckingMember { user, request, room },
            CreateInviteEvent::MemberRole(membership, now),
            base_url,
            s,
            a,
        ),
    ensures
        membership is None <==> s is Finished,
        membership is None ==> (a matches CreateInviteAction::Respond(Err(e)) && e@ == ErrorView::Forbidden(
            "only room members can create invite links"@,
        )),
        membership is Some ==> s == (CreateInviteState::Creating { room }),
        membership is Some ==> (a matches CreateInviteAction::Insert(inv) && {
            &&& inv.room_id == room.id
            &&& inv.created_by == user
            &&& inv.max_uses == request.max_uses
            &&& inv.code@.len() == 7
            &&& request.expires_in_hours is None ==> inv.expires_at is None
            &&& request.expires_in_hours matches Some(h) ==> inv.expires_at matches Some(t) && t.nanos == now.nanos && {
                let signed_hours: int = if h < 0x8000_0000_0000_0000 {
                    h as int
                } else {
                    h - 0x1_0000_0000_0000_0000
                };
                i64::MIN <= now.secs + 3600 * signed_hours <= i64::MAX ==> t.secs == now.secs + 3600 * signed_hours
            }
        }),
{
    if let Some(_) = membership {
        if let CreateInviteAction::Insert(inv) = a {
            let b = choose|b: Seq<u8>|
                #[trigger] ascii_chars(b) == inv.code@ && b.len() == 7 && forall|j: int|
                    0 <= j < 7 ==> code_alphabet().contains(#[trigger] b[j]);
            assert(inv.code@.len() == b.len());
        }
    }
}

} // verus!
