//! Signing in: bearer credentials, guest names and identities, and the session
//! a signed-in user gets.

use vstd::prelude::*;
use vstd::string::StrSliceExecFns;
use crate::text::{TextBuf, ascii_chars, all_ascii, uuid_hyphenated, push_uuid_hyphenated, lemma_uuid_hyphenated_facts};
use crate::error::{AppError, ErrorView, unauthorized, bad_request};
use crate::session::{session_user, verify_session_token, create_session_token};
use crate::api::AuthResponse;

verus! {

/// `s` without the prefix `p`, when `s` starts with `p`.
pub open spec fn strip_char_prefix(s: Seq<char>, p: Seq<char>) -> Option<Seq<char>> {
    if p.len() <= s.len() && s.take(p.len() as int) == p {
        Some(s.skip(p.len() as int))
    } else {
        None
    }
}

/// An optional string slice as its text.
pub open spec fn opt_str(s: Option<&str>) -> Option<Seq<char>> {
    match s {
        Some(t) => Some(t@),
        None => None,
    }
}

/// `s` without the prefix `p`, when `s` starts with `p`.
pub fn strip_str_prefix<'a>(s: &'a str, p: &str) -> (r: Option<&'a str>)
    ensures
        opt_str(r) == strip_char_prefix(s@, p@),
{
    let n = s.unicode_len();
    let m = p.unicode_len();
    if m > n {
        return None;
    }
    let mut i: usize = 0;
    while i < m
        invariant
            m == p@.len(),
            n == s@.len(),
            m <= n,
            i <= m,
            forall|j: int| 0 <= j < i ==> s@[j] == p@[j],
        decreases m - i,
    {
        if s.get_char(i) != p.get_char(i) {
            assert(s@.take(m as int)[i as int] != p@[i as int]);
            return None;
        }
        i = i + 1;
    }
    assert(s@.take(m as int) =~= p@);
    let rest = s.substring_char(m, n);
    assert(rest@ =~= s@.skip(m as int));
    Some(rest)
}

/// The outcome of authenticating a request by its `Authorization` header (only a
/// header whose value is visible ASCII counts as present).
pub open spec fn authenticate_spec(authorization: Option<Seq<char>>, secret: Seq<char>) -> Result<u128, ErrorView> {
    match authorization {
        None => Err(ErrorView::Unauthorized("missing Authorization header"@)),
        Some(h) => match strip_char_prefix(h, "Bearer "@) {
            None => Err(ErrorView::Unauthorized("expected Bearer token"@)),
            Some(t) => match session_user(t, secret) {
                None => Err(ErrorView::Unauthorized("invalid session token"@)),
                Some(u) => Ok(u),
            },
        },
    }
}

/// A user id, or the error view.
pub open spec fn user_result(r: Result<u128, AppError>) -> Result<u128, ErrorView> {
    match r {
        Ok(u) => Ok(u),
        Err(e) => Err(e@),
    }
}

/// The signed-in user of a request: a `Bearer` session token valid under `secret`.
pub fn authenticate(authorization: Option<&str>, secret: &str) -> (r: Result<u128, AppError>)
    ensures
        user_result(r) == authenticate_spec(opt_str(authorization), secret@),
{
    let header = match authorization {
        Some(h) => h,
        None => return Err(unauthorized("missing Authorization header")),
    };
    let token = match strip_str_prefix(header, "Bearer ") {
        Some(t) => t,
        None => return Err(unauthorized("expected Bearer token")),
    };
    match verify_session_token(token, secret) {
        Some(u) => Ok(u),
        None => Err(unauthorized("invalid session token")),
    }
}

/// The identity token of a `Bearer` header, for signing in with an identity provider.
pub open spec fn bearer_spec(authorization: Option<Seq<char>>) -> Result<Seq<char>, ErrorView> {
    match authorization {
        Some(h) => match strip_char_prefix(h, "Bearer "@) {
            Some(t) => Ok(t),
            None => Err(ErrorView::Unauthorized("missing Bearer token"@)),
        },
        None => Err(ErrorView::Unauthorized("missing Bearer token"@)),
    }
}

/// A text, or the error view.
pub open spec fn str_result(r: Result<&str, AppError>) -> Result<Seq<char>, ErrorView> {
    match r {
        Ok(t) => Ok(t@),
        Err(e) => Err(e@),
    }
}

/// The identity token a sign-in request carries in its `Authorization` header.
pub fn bearer_id_token(authorization: Option<&str>) -> (r: Result<&str, AppError>)
    ensures
        str_result(r) == bearer_spec(opt_str(authorization)),
{
    match authorization {
        Some(h) => match strip_str_prefix(h, "Bearer ") {
            Some(t) => Ok(t),
            None => Err(unauthorized("missing Bearer token")),
        },
        None => Err(unauthorized("missing Bearer token")),
    }
}

/// The error a sign-in gets when the identity provider refuses its token.
pub fn idp_refusal(why: &str) -> (e: AppError)
    ensures
        e@ == ErrorView::Unauthorized("Google verification failed: "@ + why@),
{
    let mut msg = TextBuf::new();
    msg.push_str("Google verification failed: ");
    msg.push_str(why);
    AppError::Unauthorized(msg.into_string())
}

/// Unicode's `White_Space` characters.
pub open spec fn is_white_space(c: char) -> bool {
    ||| '\u{9}' <= c <= '\u{d}'
    ||| c == ' '
    ||| c == '\u{85}'
    ||| c == '\u{a0}'
    ||| c == '\u{1680}'
    ||| '\u{2000}' <= c <= '\u{200a}'
    ||| c == '\u{2028}'
    ||| c == '\u{2029}'
    ||| c == '\u{202f}'
    ||| c == '\u{205f}'
    ||| c == '\u{3000}'
}

/// Whether a character has Unicode's `White_Space` property, as
/// `char::is_whitespace` tests it.
pub fn char_is_whitespace(c: char) -> (r: bool)
    ensures
        r == is_white_space(c),
{
    ('\u{9}' <= c && c <= '\u{d}') || c == ' ' || c == '\u{85}' || c == '\u{a0}' || c == '\u{1680}'
        || ('\u{2000}' <= c && c <= '\u{200a}') || c == '\u{2028}' || c == '\u{2029}' || c == '\u{202f}'
        || c == '\u{205f}' || c == '\u{3000}'
}

/// The text without its leading white space.
pub open spec fn trim_start(s: Seq<char>) -> Seq<char>
    decreases s.len(),
{
    if s.len() > 0 && is_white_space(s[0]) {
        trim_start(s.drop_first())
    } else {
        s
    }
}

/// The text without its trailing white space.
pub open spec fn trim_end(s: Seq<char>) -> Seq<char>
    decreases s.len(),
{
    if s.len() > 0 && is_white_space(s.last()) {
        trim_end(s.drop_last())
    } else {
        s
    }
}

/// The text without white space at either end, as `str::trim` gives it.
pub open spec fn trim_spec(s: Seq<char>) -> Seq<char> {
    trim_end(trim_start(s))
}

/// The text without white space at either end.
pub fn trim_str(s: &str) -> (r: &str)
    ensures
        r@ == trim_spec(s@),
{
    let n = s.unicode_len();
    let mut a: usize = 0;
    assert(s@.subrange(0, n as int) =~= s@);
    while a < n && char_is_whitespace(s.get_char(a))
        invariant
            n == s@.len(),
            a <= n,
            trim_start(s@) == trim_start(s@.subrange(a as int, n as int)),
        decreases n - a,
    {
        let ghost t = s@.subrange(a as int, n as int);
        assert(t.drop_first() =~= s@.subrange(a + 1, n as int));
        a = a + 1;
    }
    let ghost t = s@.subrange(a as int, n as int);
    assert(trim_start(s@) == t);
    let mut b: usize = n;
    while b > a && char_is_whitespace(s.get_char(b - 1))
        invariant
            n == s@.len(),
            a <= b <= n,
            trim_end(t) == trim_end(s@.subrange(a as int, b as int)),
        decreases b - a,
    {
        let ghost u = s@.subrange(a as int, b as int);
        assert(u.drop_last() =~= s@.subrange(a as int, b - 1));
        b = b - 1;
    }
    s.substring_char(a, b)
}

/// The display name a guest signs in with: the name trimmed, 1 to 64 characters long.
pub open spec fn guest_name_spec(raw: Seq<char>) -> Result<Seq<char>, ErrorView> {
    let name = trim_spec(raw);
    if name.len() == 0 || name.len() > 64 {
        Err(ErrorView::BadRequest("display_name must be 1-64 characters"@))
    } else {
        Ok(name)
    }
}

/// A string, or the error view.
pub open spec fn string_result(r: Result<String, AppError>) -> Result<Seq<char>, ErrorView> {
    match r {
        Ok(t) => Ok(t@),
        Err(e) => Err(e@),
    }
}

/// The display name a guest signs in with, or why it is refused.
pub fn guest_display_name(raw: &str) -> (r: Result<String, AppError>)
    ensures
        string_result(r) == guest_name_spec(raw@),
{
    let name = trim_str(raw);
    let len = name.unicode_len();
    if len == 0 || len > 64 {
        return Err(bad_request("display_name must be 1-64 characters"));
    }
    Ok(name.to_owned())
}

/// Whether a UUID is of version 4 with the RFC 4122 variant, as random ones are.
pub open spec fn is_random_uuid(id: u128) -> bool {
    (id >> 76u128) & 0xfu128 == 4 && (id >> 62u128) & 0x3u128 == 2
}

/// `Uuid::new_v4`: a random UUID of version 4 and variant RFC 4122.
#[verifier::external_body]
pub(crate) fn new_guest_id() -> (r: u128)
    ensures
        is_random_uuid(r),
{
    uuid::Uuid::new_v4().as_u128()
}

/// The first eight hex digits of a UUID as text.
pub open spec fn uuid_head(id: u128) -> Seq<char> {
    ascii_chars(uuid_hyphenated(id).take(8))
}

/// The e-mail address of a guest: `guest-<first 8 hex digits>@moat.local`.
pub open spec fn guest_email(id: u128) -> Seq<char> {
    "guest-"@ + uuid_head(id) + "@moat.local"@
}

/// The display name of an anonymous guest: `Guest-<first 8 hex digits>`.
pub open spec fn guest_label(id: u128) -> Seq<char> {
    "Guest-"@ + uuid_head(id)
}

/// The identity-provider subject of a guest: its UUID, hyphenated.
pub open spec fn guest_subject(id: u128) -> Seq<char> {
    ascii_chars(uuid_hyphenated(id))
}

/// The user record a sign-in creates or updates.
pub struct UserUpsert {
    pub email: String,
    pub provider: String,
    pub subject: String,
    pub display_name: Option<String>,
}

/// An optional string as its text.
pub open spec fn opt_string(s: Option<String>) -> Option<Seq<char>> {
    match s {
        Some(t) => Some(t@),
        None => None,
    }
}

/// The user record of a guest with this UUID and display name.
pub open spec fn guest_upsert(u: UserUpsert, id: u128, name: Seq<char>) -> bool {
    &&& u.email@ == guest_email(id)
    &&& u.provider@ == "guest"@
    &&& u.subject@ == guest_subject(id)
    &&& opt_string(u.display_name) == Some(name)
}

/// The user record of a guest with this UUID, under the given display name.
pub fn guest_record(id: u128, display_name: String) -> (r: UserUpsert)
    ensures
        guest_upsert(r, id, display_name@),
{
    let mut hyph: Vec<u8> = Vec::new();
    push_uuid_hyphenated(&mut hyph, id);
    proof {
        lemma_uuid_hyphenated_facts(id);
    }
    let mut head: Vec<u8> = Vec::new();
    let mut i: usize = 0;
    while i < 8
        invariant
            hyph@ == uuid_hyphenated(id),
            hyph@.len() == 36,
            i <= 8,
            head@ == hyph@.take(i as int),
        decreases 8 - i,
    {
        head.push(hyph[i]);
        i = i + 1;
        assert(head@ =~= hyph@.take(i as int));
    }
    assert(all_ascii(head@)) by {
        assert forall|j: int| 0 <= j < head@.len() implies #[trigger] head@[j] < 128 by {
            assert(head@[j] == uuid_hyphenated(id)[j]);
        }
    }
    let mut email = TextBuf::new();
    email.push_str("guest-");
    email.push_ascii(head.as_slice());
    email.push_str("@moat.local");
    let mut subject = TextBuf::new();
    subject.push_ascii(hyph.as_slice());
    let mut provider = TextBuf::new();
    provider.push_str("guest");
    proof {
        reveal_strlit("guest");
    }
    UserUpsert {
        email: email.into_string(),
        provider: provider.into_string(),
        subject: subject.into_string(),
        display_name: Some(display_name),
    }
}

/// The display name of an anonymous guest with this UUID.
pub fn guest_label_of(id: u128) -> (r: String)
    ensures
        r@ == guest_label(id),
{
    let mut hyph: Vec<u8> = Vec::new();
    push_uuid_hyphenated(&mut hyph, id);
    proof {
        lemma_uuid_hyphenated_facts(id);
    }
    let mut head: Vec<u8> = Vec::new();
    let mut i: usize = 0;
    while i < 8
        invariant
            hyph@ == uuid_hyphenated(id),
            hyph@.len() == 36,
            i <= 8,
            head@ == hyph@.take(i as int),
        decreases 8 - i,
    {
        head.push(hyph[i]);
        i = i + 1;
        assert(head@ =~= hyph@.take(i as int));
    }
    assert(all_ascii(head@)) by {
        assert forall|j: int| 0 <= j < head@.len() implies #[trigger] head@[j] < 128 by {
            assert(head@[j] == uuid_hyphenated(id)[j]);
        }
    }
    let mut label = TextBuf::new();
    label.push_str("Guest-");
    label.push_ascii(head.as_slice());
    label.into_string()
}

/// The outcome of a guest sign-in with this display name, for any random UUID.
pub open spec fn guest_signup_ok(raw: Seq<char>, r: UserUpsert) -> bool {
    exists|id: u128| #[trigger] is_random_uuid(id) && guest_name_spec(raw) == Ok::<Seq<char>, ErrorView>(
        opt_string(r.display_name).unwrap(),
    ) && guest_upsert(r, id, opt_string(r.display_name).unwrap())
}

/// A guest sign-in: the display name checked and trimmed, and a fresh random
/// UUID naming the guest.
pub fn guest_signup(display_name: &str) -> (r: Result<UserUpsert, AppError>)
    ensures
        match r {
            Ok(u) => guest_signup_ok(display_name@, u),
            Err(e) => guest_name_spec(display_name@) == Err::<Seq<char>, ErrorView>(e@),
        },
{
    let name = match guest_display_name(display_name) {
        Ok(n) => n,
        Err(e) => return Err(e),
    };
    let ghost nv = name@;
    let id = new_guest_id();
    let rec = guest_record(id, name);
    assert(opt_string(rec.display_name).unwrap() == nv);
    assert(is_random_uuid(id));
    Ok(rec)
}

/// A user as the database holds it: id, e-mail and display name.
pub struct UserRecord {
    pub id: u128,
    pub email: String,
    pub display_name: Option<String>,
}

/// The answer to a sign-in: the user and a fresh session token for it.
pub fn auth_response(user: UserRecord, provider: &str, session_secret: &str) -> (r: AuthResponse)
    ensures
        r.user_id == user.id,
        r.email@ == user.email@,
        opt_string(r.display_name) == opt_string(user.display_name),
        r.provider@ == provider@,
        session_user(r.session_token@, session_secret@) == Some(user.id),
{
    let token = create_session_token(user.id, session_secret);
    AuthResponse {
        user_id: user.id,
        email: user.email,
        display_name: user.display_name,
        provider: provider.to_owned(),
        session_token: token,
    }
}

} // verus!
