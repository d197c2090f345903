//! Session tokens: `base64url(user_id ":" issued_at "." hash)` where the hash is
//! the 64-bit FNV-1a digest of `user_id ":" issued_at` followed by the server
//! secret, printed as 16 lowercase hex digits.

use vstd::prelude::*;
use vstd::utf8::*;
use crate::text::{
    hex16, uuid_hyphenated, decimal, ascii_chars, all_ascii, is_hex_digit_byte, push_hex16,
    push_uuid_hyphenated, push_decimal_i64, push_all, ascii_string, string_from_utf8,
    lemma_hex16_facts, lemma_uuid_hyphenated_facts, lemma_decimal_facts, lemma_ascii_utf8,
};
use crate::b64::{b64url, b64_decode, b64url_encode, b64url_decode, lemma_decode_encode};
use crate::ids::{uuid_from_text, parse_uuid, lemma_uuid_from_hyphenated};

verus! {

/// The FNV-1a 64-bit offset basis.
pub const FNV_OFFSET_BASIS: u64 = 0xcbf29ce484222325;

/// The FNV-1a 64-bit prime.
pub const FNV_PRIME: u64 = 0x100000001b3;

/// One FNV-1a round: xor the byte in, then multiply by the prime modulo 2^64.
pub open spec fn fnv_round(h: u64, b: u8) -> u64 {
    (((h ^ (b as u64)) as nat * FNV_PRIME as nat) % 0x1_0000_0000_0000_0000nat) as u64
}

/// The 64-bit FNV-1a digest of a byte string.
pub open spec fn fnv1a(data: Seq<u8>) -> u64
    decreases data.len(),
{
    if data.len() == 0 {
        FNV_OFFSET_BASIS
    } else {
        fnv_round(fnv1a(data.drop_last()), data.last())
    }
}

/// The hex digest that signs a session payload under a secret.
pub open spec fn session_digest(payload: Seq<u8>, secret: Seq<u8>) -> Seq<u8> {
    hex16(fnv1a(payload + secret))
}

/// `user_id ":" issued_at`.
pub open spec fn session_payload(user_id: u128, issued_at: int) -> Seq<u8> {
    uuid_hyphenated(user_id) + seq![58u8] + decimal(issued_at)
}

/// `payload "." digest`, before base64.
pub open spec fn session_body(user_id: u128, secret: Seq<u8>, issued_at: int) -> Seq<u8> {
    session_payload(user_id, issued_at) + seq![46u8] + session_digest(
        session_payload(user_id, issued_at),
        secret,
    )
}

/// The session token issued to `user_id` at `issued_at` under `secret`.
pub open spec fn session_token(user_id: u128, secret: Seq<char>, issued_at: int) -> Seq<char> {
    b64url(session_body(user_id, encode_utf8(secret), issued_at))
}

/// Index of the last occurrence of `c`, if any.
pub open spec fn last_index_of(b: Seq<u8>, c: u8) -> Option<int> {
    if exists|i: int| 0 <= i < b.len() && b[i] == c {
        Some(choose|i: int| 0 <= i < b.len() && b[i] == c && forall|j: int| i < j < b.len() ==> b[j] != c)
    } else {
        None
    }
}

/// The part before the first occurrence of `c` (the whole text when absent).
pub open spec fn first_segment(b: Seq<u8>, c: u8) -> Seq<u8> {
    if exists|i: int| 0 <= i < b.len() && b[i] == c {
        b.take(choose|i: int| 0 <= i < b.len() && b[i] == c && forall|j: int| 0 <= j < i ==> b[j] != c)
    } else {
        b
    }
}

/// What a decoded token body says, under `secret`: valid UTF-8 split at its last
/// `.` into payload and digest; the digest must match, and the payload's first
/// `:`-separated field must read as a UUID.
pub open spec fn check_session_body(body: Seq<u8>, secret: Seq<u8>) -> Option<u128> {
    if !valid_utf8(body) {
        None
    } else {
        match last_index_of(body, 46u8) {
            None => None,
            Some(i) => {
                let payload = body.take(i);
                let digest = body.skip(i + 1);
                if digest != session_digest(payload, secret) {
                    None
                } else {
                    uuid_from_text(first_segment(payload, 58u8))
                }
            },
        }
    }
}

/// The user a session token names under `secret`, if the token is genuine.
pub open spec fn session_user(token: Seq<char>, secret: Seq<char>) -> Option<u128> {
    match b64_decode(true, false, token) {
        None => None,
        Some(body) => check_session_body(body, encode_utf8(secret)),
    }
}

/// The FNV-1a digest of `data`.
pub fn fnv1a_digest(data: &[u8]) -> (h: u64)
    ensures
        h == fnv1a(data@),
{
    let mut h: u64 = FNV_OFFSET_BASIS;
    let mut i: usize = 0;
    while i < data.len()
        invariant
            i <= data@.len(),
            h == fnv1a(data@.take(i as int)),
        decreases data@.len() - i,
    {
        assert(data@.take(i as int + 1).drop_last() =~= data@.take(i as int));
        h = h ^ (data[i] as u64);
        h = h.wrapping_mul(FNV_PRIME);
        i = i + 1;
    }
    assert(data@.take(data@.len() as int) =~= data@);
    h
}

/// The 16 lowercase hex digits of the FNV-1a digest of `data`.
pub fn simple_hash(data: &[u8]) -> (r: String)
    ensures
        r@ == ascii_chars(hex16(fnv1a(data@))),
{
    let mut out: Vec<u8> = Vec::new();
    push_hex16(&mut out, fnv1a_digest(data));
    proof {
        lemma_hex16_facts(fnv1a(data@));
    }
    ascii_string(out)
}

/// The session token for `user_id` issued at `issued_at` (seconds since the epoch).
pub fn session_token_at(user_id: u128, secret: &str, issued_at: i64) -> (r: String)
    ensures
        r@ == session_token(user_id, secret@, issued_at as int),
{
    let mut body: Vec<u8> = Vec::new();
    push_uuid_hyphenated(&mut body, user_id);
    body.push(58);
    push_decimal_i64(&mut body, issued_at);
    let ghost payload = body@;
    assert(payload =~= session_payload(user_id, issued_at as int));
    let mut sig_input = body.clone();
    push_all(&mut sig_input, secret.as_bytes());
    let h = fnv1a_digest(sig_input.as_slice());
    body.push(46);
    push_hex16(&mut body, h);
    assert(body@ =~= session_body(user_id, encode_utf8(secret@), issued_at as int));
    b64url_encode(body.as_slice())
}

/// Current time in whole seconds since the Unix epoch (`chrono::Utc::now().timestamp()`).
/// `Utc::now` panics on a system time before the epoch or past what chrono can
/// represent, so whatever it returns lies from the epoch to the end of year 262142.
#[verifier::external_body]
pub(crate) fn unix_now() -> (r: i64)
    ensures
        0 <= r <= crate::invites::MAX_UNIX_SECS,
{
    chrono::Utc::now().timestamp()
}

/// A fresh session token for `user_id`, stamped with the current time.
pub fn create_session_token(user_id: u128, secret: &str) -> (r: String)
    ensures
        exists|t: i64| 0 <= t <= crate::invites::MAX_UNIX_SECS && r@ == session_token(user_id, secret@, t as int),
        session_user(r@, secret@) == Some(user_id),
{
    let now = unix_now();
    let r = session_token_at(user_id, secret, now);
    proof {
        lemma_session_roundtrip(user_id, secret@, now as int);
    }
    r
}

/// Position of the last byte equal to `c`.
pub fn find_last(b: &[u8], c: u8) -> (r: Option<usize>)
    ensures
        match r {
            Some(i) => i < b@.len() && b@[i as int] == c && forall|j: int|
                i < j < b@.len() ==> b@[j] != c,
            None => forall|j: int| 0 <= j < b@.len() ==> b@[j] != c,
        },
{
    let mut k: usize = b.len();
    while k > 0
        invariant
            k <= b@.len(),
            forall|j: int| k <= j < b@.len() ==> b@[j] != c,
        decreases k,
    {
        if b[k - 1] == c {
            return Some(k - 1);
        }
        k = k - 1;
    }
    None
}

/// Position of the first byte equal to `c`.
pub fn find_first(b: &[u8], c: u8) -> (r: Option<usize>)
    ensures
        match r {
            Some(i) => i < b@.len() && b@[i as int] == c && forall|j: int|
                0 <= j < i ==> b@[j] != c,
            None => forall|j: int| 0 <= j < b@.len() ==> b@[j] != c,
        },
{
    let mut k: usize = 0;
    while k < b.len()
        invariant
            k <= b@.len(),
            forall|j: int| 0 <= j < k ==> b@[j] != c,
        decreases b@.len() - k,
    {
        if b[k] == c {
            return Some(k);
        }
        k = k + 1;
    }
    None
}

/// Whether two byte strings are equal.
pub fn bytes_eq(a: &[u8], b: &[u8]) -> (r: bool)
    ensures
        r == (a@ == b@),
{
    if a.len() != b.len() {
        return false;
    }
    let mut k: usize = 0;
    while k < a.len()
        invariant
            a@.len() == b@.len(),
            k <= a@.len(),
            forall|j: int| 0 <= j < k ==> a@[j] == b@[j],
        decreases a@.len() - k,
    {
        if a[k] != b[k] {
            return false;
        }
        k = k + 1;
    }
    assert(a@ =~= b@);
    true
}

proof fn lemma_last_index(b: Seq<u8>, c: u8, i: int)
    requires
        0 <= i < b.len(),
        b[i] == c,
        forall|j: int| i < j < b.len() ==> b[j] != c,
    ensures
        last_index_of(b, c) == Some(i),
{
    let k = choose|k: int| 0 <= k < b.len() && b[k] == c && forall|j: int| k < j < b.len() ==> b[j] != c;
    assert(k == i);
}

proof fn lemma_first_segment(b: Seq<u8>, c: u8, i: int)
    requires
        0 <= i < b.len(),
        b[i] == c,
        forall|j: int| 0 <= j < i ==> b[j] != c,
    ensures
        first_segment(b, c) == b.take(i),
{
    let k = choose|k: int| 0 <= k < b.len() && b[k] == c && forall|j: int| 0 <= j < k ==> b[j] != c;
    assert(k == i);
}

/// The user named by a session token, when the token decodes, is valid UTF-8,
/// carries the right digest for its payload under `secret`, and starts with a UUID.
pub fn verify_session_token(token: &str, secret: &str) -> (r: Option<u128>)
    ensures
        r == session_user(token@, secret@),
{
    let decoded = match b64url_decode(token) {
        Some(d) => d,
        None => {
            return None;
        },
    };
    let ghost body = decoded@;
    assert(b64_decode(true, false, token@) == Some(body));
    let text = match string_from_utf8(decoded) {
        Some(s) => s,
        None => {
            return None;
        },
    };
    let bytes = text.as_str().as_bytes();
    proof {
        decode_utf8_encode_utf8(body);
    }
    assert(bytes@ == body);
    let dot = match find_last(bytes, 46) {
        Some(i) => i,
        None => {
            assert(last_index_of(body, 46u8) is None);
            return None;
        },
    };
    proof {
        lemma_last_index(body, 46u8, dot as int);
    }
    let end = bytes.len();
    let payload = &bytes[0..dot];
    let digest = &bytes[dot + 1..end];
    assert(payload@ =~= body.take(dot as int));
    assert(digest@ =~= body.skip(dot as int + 1));
    let mut sig_input: Vec<u8> = Vec::new();
    push_all(&mut sig_input, payload);
    push_all(&mut sig_input, secret.as_bytes());
    let mut expected: Vec<u8> = Vec::new();
    push_hex16(&mut expected, fnv1a_digest(sig_input.as_slice()));
    assert(expected@ =~= session_digest(payload@, encode_utf8(secret@)));
    if !bytes_eq(digest, expected.as_slice()) {
        return None;
    }
    let id_text = match find_first(payload, 58) {
        Some(c) => {
            proof {
                lemma_first_segment(payload@, 58u8, c as int);
            }
            let s = &payload[0..c];
            assert(s@ =~= payload@.take(c as int));
            s
        },
        None => payload,
    };
    parse_uuid(id_text)
}

/// A token issued to a user is accepted under the same secret and names that user.
pub proof fn lemma_session_roundtrip(user_id: u128, secret: Seq<char>, issued_at: int)
    ensures
        session_user(session_token(user_id, secret, issued_at), secret) == Some(user_id),
{
    let sb = encode_utf8(secret);
    let payload = session_payload(user_id, issued_at);
    let digest = session_digest(payload, sb);
    let body = session_body(user_id, sb, issued_at);
    lemma_decode_encode(true, false, body);
    lemma_uuid_hyphenated_facts(user_id);
    lemma_decimal_facts(issued_at);
    lemma_hex16_facts(fnv1a(payload + sb));
    let u = uuid_hyphenated(user_id);
    let d = decimal(issued_at);
    let n = payload.len() as int;
    assert(all_ascii(body)) by {
        assert forall|i: int| 0 <= i < body.len() implies #[trigger] body[i] < 128 by {
            if i < 36 {
                assert(body[i] == u[i]);
            } else if i == 36 {
            } else if i < n {
                assert(body[i] == d[i - 37]);
            } else if i == n {
            } else {
                assert(body[i] == digest[i - n - 1]);
            }
        }
    }
    lemma_ascii_utf8(body);
    assert(forall|j: int| n < j < body.len() ==> body[j] != 46u8) by {
        assert forall|j: int| n < j < body.len() implies body[j] != 46u8 by {
            assert(body[j] == digest[j - n - 1]);
            assert(is_hex_digit_byte(digest[j - n - 1]));
        }
    }
    lemma_last_index(body, 46u8, n);
    assert(body.take(n) =~= payload);
    assert(body.skip(n + 1) =~= digest);
    assert(payload[36] == 58u8);
    assert(forall|j: int| 0 <= j < 36 ==> payload[j] != 58u8) by {
        assert forall|j: int| 0 <= j < 36 implies payload[j] != 58u8 by {
            assert(payload[j] == u[j]);
        }
    }
    lemma_first_segment(payload, 58u8, 36);
    assert(payload.take(36) =~= u);
    lemma_uuid_from_hyphenated(user_id);
}

} // verus!
