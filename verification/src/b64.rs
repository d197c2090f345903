//! Base64 (RFC 4648) through the `base64` crate: the standard alphabet with
//! padding, and the URL-safe alphabet without padding.

use vstd::prelude::*;
use base64::engine::general_purpose::{STANDARD, URL_SAFE_NO_PAD};
use base64::Engine;

verus! {

/// The base64 symbol for a 6-bit value; `url_safe` picks `-_` over `+/`.
pub open spec fn b64_symbol(url_safe: bool, v: int) -> char {
    if v < 26 {
        (65 + v) as char
    } else if v < 52 {
        (71 + v) as char
    } else if v < 62 {
        (v - 4) as char
    } else if v == 62 {
        if url_safe {
            '-'
        } else {
            '+'
        }
    } else {
        if url_safe {
            '_'
        } else {
            '/'
        }
    }
}

/// Base64 encoding of `data`: every 3 bytes become 4 symbols; a final group of
/// 1 or 2 bytes becomes 2 or 3 symbols, followed by `=` padding when `pad`.
pub open spec fn b64_encode(url_safe: bool, pad: bool, data: Seq<u8>) -> Seq<char>
    decreases data.len(),
{
    if data.len() == 0 {
        Seq::empty()
    } else if data.len() == 1 {
        seq![b64_symbol(url_safe, (data[0] as int) / 4), b64_symbol(url_safe, ((data[0] as int) % 4) * 16)] + if pad {
            seq!['=', '=']
        } else {
            Seq::empty()
        }
    } else if data.len() == 2 {
        seq![
            b64_symbol(url_safe, (data[0] as int) / 4),
            b64_symbol(url_safe, ((data[0] as int) % 4) * 16 + (data[1] as int) / 16),
            b64_symbol(url_safe, ((data[1] as int) % 16) * 4),
        ] + if pad {
            seq!['=']
        } else {
            Seq::empty()
        }
    } else {
        seq![
            b64_symbol(url_safe, (data[0] as int) / 4),
            b64_symbol(url_safe, ((data[0] as int) % 4) * 16 + (data[1] as int) / 16),
            b64_symbol(url_safe, ((data[1] as int) % 16) * 4 + (data[2] as int) / 64),
            b64_symbol(url_safe, (data[2] as int) % 64),
        ] + b64_encode(url_safe, pad, data.subrange(3, data.len() as int))
    }
}

/// URL-safe base64 without padding.
pub open spec fn b64url(data: Seq<u8>) -> Seq<char> {
    b64_encode(true, false, data)
}

/// Standard base64 with padding.
pub open spec fn b64std(data: Seq<u8>) -> Seq<char> {
    b64_encode(false, true, data)
}

/// The bytes that decode from `text`, if `text` is the encoding of some bytes.
pub open spec fn b64_decode(url_safe: bool, pad: bool, text: Seq<char>) -> Option<Seq<u8>> {
    if exists|x: Seq<u8>| b64_encode(url_safe, pad, x) == text {
        Some(choose|x: Seq<u8>| b64_encode(url_safe, pad, x) == text)
    } else {
        None
    }
}

pub proof fn lemma_symbol_injective(url_safe: bool, v: int, w: int)
    requires
        0 <= v < 64,
        0 <= w < 64,
        b64_symbol(url_safe, v) == b64_symbol(url_safe, w),
    ensures
        v == w,
{
}

pub proof fn lemma_symbol_not_pad(url_safe: bool, v: int)
    requires
        0 <= v < 64,
    ensures
        b64_symbol(url_safe, v) != '=',
        (b64_symbol(url_safe, v) as u32) < 128,
{
}

pub proof fn lemma_encode_len(url_safe: bool, pad: bool, data: Seq<u8>)
    ensures
        data.len() == 0 ==> b64_encode(url_safe, pad, data).len() == 0,
        data.len() == 1 ==> b64_encode(url_safe, pad, data).len() == if pad { 4int } else { 2 },
        data.len() == 2 ==> b64_encode(url_safe, pad, data).len() == if pad { 4int } else { 3 },
        data.len() >= 3 ==> b64_encode(url_safe, pad, data).len() >= 4,
    decreases data.len(),
{
}

/// Different byte strings have different encodings.
pub proof fn lemma_encode_injective(url_safe: bool, pad: bool, x: Seq<u8>, y: Seq<u8>)
    requires
        b64_encode(url_safe, pad, x) == b64_encode(url_safe, pad, y),
    ensures
        x == y,
    decreases x.len(),
{
    let ex = b64_encode(url_safe, pad, x);
    let ey = b64_encode(url_safe, pad, y);
    lemma_encode_len(url_safe, pad, x);
    lemma_encode_len(url_safe, pad, y);
    if x.len() == 0 || y.len() == 0 {
        if x.len() != 0 || y.len() != 0 {
            assert(ex.len() != ey.len());
        }
        assert(x =~= y);
        return;
    }
    // first symbol
    assert(ex[0] == b64_symbol(url_safe, (x[0] as int) / 4));
    assert(ey[0] == b64_symbol(url_safe, (y[0] as int) / 4));
    lemma_symbol_injective(url_safe, (x[0] as int) / 4, (y[0] as int) / 4);
    if x.len() >= 3 && y.len() >= 3 {
        let (a0, a1, a2) = (x[0] as int, x[1] as int, x[2] as int);
        let (b0, b1, b2) = (y[0] as int, y[1] as int, y[2] as int);
        assert(ex[1] == ey[1]);
        assert(ex[2] == ey[2]);
        assert(ex[3] == ey[3]);
        lemma_symbol_injective(url_safe, (a0 % 4) * 16 + a1 / 16, (b0 % 4) * 16 + b1 / 16);
        lemma_symbol_injective(url_safe, (a1 % 16) * 4 + a2 / 64, (b1 % 16) * 4 + b2 / 64);
        lemma_symbol_injective(url_safe, a2 % 64, b2 % 64);
        assert(a0 == b0);
        assert(a1 == b1);
        assert(a2 == b2);
        let rx = x.subrange(3, x.len() as int);
        let ry = y.subrange(3, y.len() as int);
        assert(ex.subrange(4, ex.len() as int) =~= b64_encode(url_safe, pad, rx));
        assert(ey.subrange(4, ey.len() as int) =~= b64_encode(url_safe, pad, ry));
        lemma_encode_injective(url_safe, pad, rx, ry);
        assert(x =~= x.subrange(0, 3) + rx);
        assert(y =~= y.subrange(0, 3) + ry);
    } else if x.len() < 3 && y.len() < 3 {
        if x.len() != y.len() {
            if pad {
                // the symbol at index 2 is padding in one and data in the other
                assert(ex[2] != ey[2]) by {
                    if x.len() == 1 {
                        lemma_symbol_not_pad(url_safe, ((y[1] as int) % 16) * 4);
                    } else {
                        lemma_symbol_not_pad(url_safe, ((x[1] as int) % 16) * 4);
                    }
                }
            }
            assert(false);
        }
        assert(ex[1] == ey[1]);
        if x.len() == 1 {
            lemma_symbol_injective(url_safe, ((x[0] as int) % 4) * 16, ((y[0] as int) % 4) * 16);
        } else {
            assert(ex[2] == ey[2]);
            lemma_symbol_injective(
                url_safe,
                ((x[0] as int) % 4) * 16 + (x[1] as int) / 16,
                ((y[0] as int) % 4) * 16 + (y[1] as int) / 16,
            );
            lemma_symbol_injective(url_safe, ((x[1] as int) % 16) * 4, ((y[1] as int) % 16) * 4);
        }
        assert(x =~= y);
    } else {
        // one has at least 3 bytes, the other fewer: compare symbol 3 or lengths
        let (big, small) = if x.len() >= 3 {
            (x, y)
        } else {
            (y, x)
        };
        let eb = b64_encode(url_safe, pad, big);
        let es = b64_encode(url_safe, pad, small);
        assert(eb == es);
        if pad {
            assert(eb[3] == b64_symbol(url_safe, (big[2] as int) % 64));
            lemma_symbol_not_pad(url_safe, (big[2] as int) % 64);
            assert(es[3] == '=');
        }
        assert(false);
    }
}

/// Decoding gives back the encoded bytes.
pub proof fn lemma_decode_encode(url_safe: bool, pad: bool, x: Seq<u8>)
    ensures
        b64_decode(url_safe, pad, b64_encode(url_safe, pad, x)) == Some(x),
{
    let t = b64_encode(url_safe, pad, x);
    assert(exists|y: Seq<u8>| b64_encode(url_safe, pad, y) == t);
    let y = choose|y: Seq<u8>| b64_encode(url_safe, pad, y) == t;
    lemma_encode_injective(url_safe, pad, x, y);
}

/// Every encoding is ASCII text.
pub proof fn lemma_encode_ascii(url_safe: bool, pad: bool, x: Seq<u8>)
    ensures
        vstd::utf8::is_ascii_chars(b64_encode(url_safe, pad, x)),
    decreases x.len(),
{
    if x.len() >= 3 {
        lemma_encode_ascii(url_safe, pad, x.subrange(3, x.len() as int));
    }
    let e = b64_encode(url_safe, pad, x);
    assert forall|i: int| 0 <= i < e.len() implies '\0' <= #[trigger] e[i] <= '\u{7f}' by {
        if x.len() >= 3 && i >= 4 {
            assert(e[i] == b64_encode(url_safe, pad, x.subrange(3, x.len() as int))[i - 4]);
        }
    }
}

/// `URL_SAFE_NO_PAD.encode`.
#[verifier::external_body]
pub(crate) fn b64url_encode(data: &[u8]) -> (r: String)
    ensures
        r@ == b64url(data@),
{
    URL_SAFE_NO_PAD.encode(data)
}

/// `URL_SAFE_NO_PAD.decode`: succeeds exactly on the unpadded URL-safe
/// encodings (trailing bits must be zero, `=` is refused), and gives back the
/// encoded bytes.
#[verifier::external_body]
pub(crate) fn b64url_decode(text: &str) -> (r: Option<Vec<u8>>)
    ensures
        opt_bytes(r) == b64_decode(true, false, text@),
{
    URL_SAFE_NO_PAD.decode(text).ok()
}

/// `STANDARD.encode`.
#[verifier::external_body]
pub(crate) fn b64std_encode(data: &[u8]) -> (r: String)
    ensures
        r@ == b64std(data@),
{
    STANDARD.encode(data)
}

/// The text of the error `STANDARD.decode` reports for an input it refuses.
pub uninterp spec fn b64std_error_text(text: Seq<u8>) -> Seq<char>;

/// `STANDARD.decode`: succeeds exactly on the canonical padded standard
/// encodings and gives back the encoded bytes; a refusal carries the text of
/// the decode error.
#[verifier::external_body]
pub(crate) fn b64std_decode(text: &[u8]) -> (r: Result<Vec<u8>, String>)
    ensures
        match r {
            Ok(v) => b64_decode(false, true, crate::text::ascii_chars(text@)) == Some(v@),
            Err(m) => b64_decode(false, true, crate::text::ascii_chars(text@)) is None && m@
                == b64std_error_text(text@),
        },
{
    STANDARD.decode(text).map_err(|e| e.to_string())
}

/// The contents of an optional byte vector.
pub open spec fn opt_bytes(r: Option<Vec<u8>>) -> Option<Seq<u8>> {
    match r {
        Some(v) => Some(v@),
        None => None,
    }
}

} // verus!
