//! Plain-text encodings used across the service: lowercase hexadecimal,
//! decimal integers, hyphenated UUIDs, and UTF-8 strings made from bytes.

use vstd::prelude::*;
use vstd::utf8::*;

verus! {

/// The lowercase hexadecimal digit for a value in `0..16`.
pub open spec fn hex_digit(n: int) -> u8 {
    if n < 10 {
        (48 + n) as u8
    } else {
        (87 + n) as u8
    }
}

/// Whether a byte is one of `0-9a-f`.
pub open spec fn is_hex_digit_byte(b: u8) -> bool {
    (48 <= b <= 57) || (97 <= b <= 102)
}

/// The 16 lowercase hex digits of a `u64`, most significant first
/// (what `format!("{:016x}", h)` prints).
pub open spec fn hex16(h: u64) -> Seq<u8> {
    Seq::new(16, |i: int| hex_digit(((h >> ((60 - 4 * i) as u64)) & 0xf) as int))
}

/// The `i`-th hex digit (from the most significant end) of a 128-bit value.
pub open spec fn nibble128(u: u128, i: int) -> int {
    ((u >> ((124 - 4 * i) as u128)) & 0xf) as int
}

/// Position among the 32 hex digits shown at column `j` of a hyphenated UUID.
pub open spec fn uuid_column_digit(j: int) -> int {
    if j < 8 {
        j
    } else if j < 13 {
        j - 1
    } else if j < 18 {
        j - 2
    } else if j < 23 {
        j - 3
    } else {
        j - 4
    }
}

/// Whether column `j` of a hyphenated UUID holds a hyphen.
pub open spec fn uuid_hyphen_column(j: int) -> bool {
    j == 8 || j == 13 || j == 18 || j == 23
}

/// The hyphenated lowercase form of a UUID given as its 128-bit big-endian value:
/// `xxxxxxxx-xxxx-xxxx-xxxx-xxxxxxxxxxxx`.
pub open spec fn uuid_hyphenated(u: u128) -> Seq<u8> {
    Seq::new(
        36,
        |j: int|
            if uuid_hyphen_column(j) {
                45u8
            } else {
                hex_digit(nibble128(u, uuid_column_digit(j)))
            },
    )
}

/// Decimal digits of a natural number, most significant first.
pub open spec fn decimal_digits(n: nat) -> Seq<u8>
    decreases n,
{
    if n < 10 {
        seq![(48 + n) as u8]
    } else {
        decimal_digits(n / 10).push((48 + n % 10) as u8)
    }
}

/// The decimal form of an integer, with a leading `-` when negative.
pub open spec fn decimal(t: int) -> Seq<u8> {
    if t < 0 {
        seq![45u8] + decimal_digits((-t) as nat)
    } else {
        decimal_digits(t as nat)
    }
}

/// Whether every byte is ASCII.
pub open spec fn all_ascii(b: Seq<u8>) -> bool {
    forall|i: int| 0 <= i < b.len() ==> #[trigger] b[i] < 128
}

/// The characters of an ASCII byte sequence.
pub open spec fn ascii_chars(b: Seq<u8>) -> Seq<char> {
    Seq::new(b.len(), |i: int| b[i] as char)
}

/// The bytes of an ASCII character sequence.
pub open spec fn ascii_bytes(c: Seq<char>) -> Seq<u8> {
    Seq::new(c.len(), |i: int| c[i] as u8)
}

pub proof fn lemma_nibble_range(u: u128, i: int)
    ensures
        0 <= nibble128(u, i) < 16,
{
    let s = (124 - 4 * i) as u128;
    assert((u >> s) & 0xf <= 0xf) by (bit_vector);
}

pub proof fn lemma_hex16_facts(h: u64)
    ensures
        hex16(h).len() == 16,
        all_ascii(hex16(h)),
        forall|i: int| 0 <= i < 16 ==> #[trigger] is_hex_digit_byte(hex16(h)[i]),
{
    assert forall|i: int| 0 <= i < 16 implies #[trigger] hex16(h)[i] < 128 && is_hex_digit_byte(
        hex16(h)[i],
    ) by {
        let s = (60 - 4 * i) as u64;
        assert((h >> s) & 0xf <= 0xf) by (bit_vector);
    }
}

pub proof fn lemma_uuid_hyphenated_facts(u: u128)
    ensures
        uuid_hyphenated(u).len() == 36,
        all_ascii(uuid_hyphenated(u)),
        forall|j: int|
            0 <= j < 36 ==> #[trigger] uuid_hyphenated(u)[j] != 46u8 && uuid_hyphenated(u)[j]
                != 58u8,
{
    assert forall|j: int| 0 <= j < 36 implies #[trigger] uuid_hyphenated(u)[j] < 128
        && uuid_hyphenated(u)[j] != 46u8 && uuid_hyphenated(u)[j] != 58u8 by {
        if !uuid_hyphen_column(j) {
            lemma_nibble_range(u, uuid_column_digit(j));
        }
    }
}

pub proof fn lemma_decimal_digits_facts(n: nat)
    ensures
        decimal_digits(n).len() >= 1,
        forall|i: int|
            0 <= i < decimal_digits(n).len() ==> 48 <= #[trigger] decimal_digits(n)[i] <= 57,
    decreases n,
{
    if n >= 10 {
        lemma_decimal_digits_facts(n / 10);
    }
}

pub proof fn lemma_decimal_facts(t: int)
    ensures
        all_ascii(decimal(t)),
        forall|i: int|
            0 <= i < decimal(t).len() ==> #[trigger] decimal(t)[i] != 46u8 && decimal(t)[i]
                != 58u8,
{
    if t < 0 {
        lemma_decimal_digits_facts((-t) as nat);
        let d = decimal_digits((-t) as nat);
        assert forall|i: int| 0 <= i < decimal(t).len() implies #[trigger] decimal(t)[i] < 128
            && decimal(t)[i] != 46u8 && decimal(t)[i] != 58u8 by {
            if i > 0 {
                assert(decimal(t)[i] == d[i - 1]);
            }
        }
    } else {
        lemma_decimal_digits_facts(t as nat);
    }
}

/// ASCII bytes form valid UTF-8 that decodes to the same characters.
pub proof fn lemma_ascii_utf8(b: Seq<u8>)
    requires
        all_ascii(b),
    ensures
        valid_utf8(b),
        decode_utf8(b) == ascii_chars(b),
    decreases b.len(),
{
    if b.len() > 0 {
        let rest = b.subrange(1, b.len() as int);
        let b0 = b[0];
        assert((b0 & 0x7F) as u32 == b0 as u32) by (bit_vector)
            requires
                b0 < 128,
        ;
        assert(valid_first_scalar(b));
        assert(pop_first_scalar(b) == rest);
        assert(all_ascii(rest)) by {
            assert forall|i: int| 0 <= i < rest.len() implies #[trigger] rest[i] < 128 by {
                assert(rest[i] == b[i + 1]);
            }
        }
        lemma_ascii_utf8(rest);
        assert(decode_utf8(b) =~= ascii_chars(b)) by {
            assert(decode_first_scalar(b) == b[0] as u32);
        }
    }
}

/// Characters that are all ASCII encode to their own code units.
pub proof fn lemma_ascii_chars_roundtrip(b: Seq<u8>)
    requires
        all_ascii(b),
    ensures
        ascii_bytes(ascii_chars(b)) == b,
        encode_utf8(ascii_chars(b)) == b,
{
    lemma_ascii_utf8(b);
    vstd::utf8::decode_utf8_encode_utf8(b);
    assert(ascii_bytes(ascii_chars(b)) =~= b);
}

/// Appends the 16 lowercase hex digits of `h`.
pub fn push_hex16(out: &mut Vec<u8>, h: u64)
    ensures
        final(out)@ == old(out)@ + hex16(h),
{
    let ghost start = out@;
    let mut i: u64 = 0;
    while i < 16
        invariant
            i <= 16,
            out@ == start + hex16(h).take(i as int),
        decreases 16 - i,
    {
        let sh: u64 = 60 - 4 * i;
        let d = (h >> sh) & 0xf;
        assert(d <= 0xf) by (bit_vector)
            requires
                d == (h >> sh) & 0xf,
        ;
        let c: u8 = if d < 10 {
            48 + d as u8
        } else {
            87 + d as u8
        };
        out.push(c);
        assert(hex16(h).take(i as int + 1) =~= hex16(h).take(i as int).push(c));
        i = i + 1;
    }
    assert(hex16(h).take(16) =~= hex16(h));
}

/// Appends the hyphenated lowercase form of a UUID.
pub fn push_uuid_hyphenated(out: &mut Vec<u8>, u: u128)
    ensures
        final(out)@ == old(out)@ + uuid_hyphenated(u),
{
    let ghost start = out@;
    let mut j: u64 = 0;
    while j < 36
        invariant
            j <= 36,
            out@ == start + uuid_hyphenated(u).take(j as int),
        decreases 36 - j,
    {
        let c: u8 = if j == 8 || j == 13 || j == 18 || j == 23 {
            45
        } else {
            let k: u64 = if j < 8 {
                j
            } else if j < 13 {
                j - 1
            } else if j < 18 {
                j - 2
            } else if j < 23 {
                j - 3
            } else {
                j - 4
            };
            let sh: u128 = (124 - 4 * k) as u128;
            let d = (u >> sh) & 0xf;
            assert(d <= 0xf) by (bit_vector)
                requires
                    d == (u >> sh) & 0xf,
            ;
            if d < 10 {
                48 + d as u8
            } else {
                87 + d as u8
            }
        };
        out.push(c);
        assert(uuid_hyphenated(u).take(j as int + 1) =~= uuid_hyphenated(u).take(j as int).push(c));
        j = j + 1;
    }
    assert(uuid_hyphenated(u).take(36) =~= uuid_hyphenated(u));
}

/// Appends the decimal digits of `n`.
pub fn push_decimal_digits(out: &mut Vec<u8>, n: u64)
    ensures
        final(out)@ == old(out)@ + decimal_digits(n as nat),
    decreases n,
{
    if n < 10 {
        out.push(48 + n as u8);
        assert(decimal_digits(n as nat) =~= seq![(48 + n) as u8]);
    } else {
        push_decimal_digits(out, n / 10);
        out.push(48 + (n % 10) as u8);
        assert(decimal_digits(n as nat) =~= decimal_digits((n / 10) as nat).push(
            (48 + n % 10) as u8,
        ));
    }
}

/// Appends the decimal form of `t` (what `format!("{}", t)` prints).
pub fn push_decimal_i64(out: &mut Vec<u8>, t: i64)
    ensures
        final(out)@ == old(out)@ + decimal(t as int),
{
    if t < 0 {
        out.push(45);
        let m: u64 = if t == i64::MIN {
            9223372036854775808u64
        } else {
            (-t) as u64
        };
        push_decimal_digits(out, m);
        assert(out@ =~= old(out)@ + decimal(t as int));
    } else {
        push_decimal_digits(out, t as u64);
    }
}

/// Appends the bytes of a slice.
pub fn push_all(out: &mut Vec<u8>, s: &[u8])
    ensures
        final(out)@ == old(out)@ + s@,
{
    let ghost start = out@;
    let mut i: usize = 0;
    while i < s.len()
        invariant
            i <= s@.len(),
            out@ == start + s@.take(i as int),
        decreases s@.len() - i,
    {
        out.push(s[i]);
        assert(s@.take(i as int + 1) =~= s@.take(i as int).push(s@[i as int]));
        i = i + 1;
    }
    assert(s@.take(s@.len() as int) =~= s@);
}

/// The UTF-8 encoding of a concatenation is the concatenation of the encodings.
pub proof fn lemma_encode_utf8_concat(a: Seq<char>, b: Seq<char>)
    ensures
        encode_utf8(a + b) == encode_utf8(a) + encode_utf8(b),
    decreases a.len(),
{
    if a.len() == 0 {
        assert(a + b =~= b);
        assert(encode_utf8(a) + encode_utf8(b) =~= encode_utf8(b));
    } else {
        assert((a + b).drop_first() =~= a.drop_first() + b);
        lemma_encode_utf8_concat(a.drop_first(), b);
        assert(encode_utf8(a + b) =~= encode_scalar(a[0] as u32) + encode_utf8(a.drop_first() + b));
        assert(encode_utf8(a) + encode_utf8(b) =~= encode_scalar(a[0] as u32) + (encode_utf8(
            a.drop_first(),
        ) + encode_utf8(b)));
    }
}

/// ASCII characters encode to their code units.
pub proof fn lemma_ascii_encode(b: Seq<u8>)
    requires
        all_ascii(b),
    ensures
        encode_utf8(ascii_chars(b)) == b,
{
    lemma_ascii_chars_roundtrip(b);
}

/// Appends the UTF-8 bytes of a string.
pub fn push_str(out: &mut Vec<u8>, s: &str)
    ensures
        final(out)@ == old(out)@ + encode_utf8(s@),
{
    push_all(out, s.as_bytes());
}

/// The string whose UTF-8 encoding is `bytes`.
pub fn string_of(bytes: Vec<u8>, Ghost(chars): Ghost<Seq<char>>) -> (r: String)
    requires
        bytes@ == encode_utf8(chars),
    ensures
        r@ == chars,
{
    proof {
        encode_utf8_valid_utf8(chars);
        encode_utf8_decode_utf8(chars);
    }
    match string_from_utf8(bytes) {
        Some(s) => s,
        None => {
            proof {
                assert(false);
            }
            String::new()
        },
    }
}

/// The lowercase hex digits of a byte, two of them (`{:02x}`).
pub open spec fn hex2(b: u8) -> Seq<u8> {
    seq![hex_digit((b / 16) as int), hex_digit((b % 16) as int)]
}

/// The lowercase hex digits of a 16-bit value, four of them (`{:04x}`).
pub open spec fn hex4(v: u16) -> Seq<u8> {
    seq![
        hex_digit((v / 4096) as int),
        hex_digit(((v / 256) % 16) as int),
        hex_digit(((v / 16) % 16) as int),
        hex_digit((v % 16) as int),
    ]
}

fn hex_char(d: u8) -> (c: u8)
    requires
        d < 16,
    ensures
        c == hex_digit(d as int),
{
    if d < 10 {
        48 + d
    } else {
        87 + d
    }
}

/// Appends the two hex digits of a byte.
pub fn push_hex2(out: &mut Vec<u8>, b: u8)
    ensures
        final(out)@ == old(out)@ + hex2(b),
{
    out.push(hex_char(b / 16));
    out.push(hex_char(b % 16));
    assert(final(out)@ =~= old(out)@ + hex2(b));
}

/// Appends the four hex digits of a 16-bit value.
pub fn push_hex4(out: &mut Vec<u8>, v: u16)
    ensures
        final(out)@ == old(out)@ + hex4(v),
{
    out.push(hex_char((v / 4096) as u8));
    out.push(hex_char(((v / 256) % 16) as u8));
    out.push(hex_char(((v / 16) % 16) as u8));
    out.push(hex_char((v % 16) as u8));
    assert(final(out)@ =~= old(out)@ + hex4(v));
}

pub proof fn lemma_hex2_ascii(b: u8)
    ensures
        all_ascii(hex2(b)),
{
}

pub proof fn lemma_hex4_ascii(v: u16)
    ensures
        all_ascii(hex4(v)),
{
}

/// A vector holding the bytes of a slice.
pub fn bytes_to_vec(s: &[u8]) -> (r: Vec<u8>)
    ensures
        r@ == s@,
{
    let mut v: Vec<u8> = Vec::new();
    push_all(&mut v, s);
    assert(v@ =~= s@);
    v
}

/// A string under construction, kept as its UTF-8 bytes.
pub struct TextBuf {
    bytes: Vec<u8>,
    chars: Ghost<Seq<char>>,
}

impl View for TextBuf {
    type V = Seq<char>;

    closed spec fn view(&self) -> Seq<char> {
        self.chars@
    }
}

impl TextBuf {
    /// The bytes are the encoding of the characters.
    pub closed spec fn wf(&self) -> bool {
        self.bytes@ == encode_utf8(self.chars@)
    }

    /// An empty text.
    pub fn new() -> (r: TextBuf)
        ensures
            r.wf(),
            r@ == Seq::<char>::empty(),
    {
        TextBuf { bytes: Vec::new(), chars: Ghost(Seq::empty()) }
    }

    /// Appends a string.
    pub fn push_str(&mut self, s: &str)
        requires
            old(self).wf(),
        ensures
            final(self).wf(),
            final(self)@ == old(self)@ + s@,
    {
        push_all(&mut self.bytes, s.as_bytes());
        proof {
            lemma_encode_utf8_concat(self.chars@, s@);
        }
        self.chars = Ghost(self.chars@ + s@);
    }

    /// Appends ASCII bytes as characters.
    pub fn push_ascii(&mut self, b: &[u8])
        requires
            old(self).wf(),
            all_ascii(b@),
        ensures
            final(self).wf(),
            final(self)@ == old(self)@ + ascii_chars(b@),
    {
        push_all(&mut self.bytes, b);
        proof {
            lemma_ascii_encode(b@);
            lemma_encode_utf8_concat(self.chars@, ascii_chars(b@));
        }
        self.chars = Ghost(self.chars@ + ascii_chars(b@));
    }

    /// The finished string.
    pub fn into_string(self) -> (r: String)
        requires
            self.wf(),
        ensures
            r@ == self@,
    {
        string_of(self.bytes, self.chars)
    }
}

/// `s` without the prefix `p`, when `s` starts with `p`.
pub open spec fn strip_prefix_spec(s: Seq<u8>, p: Seq<u8>) -> Option<Seq<u8>> {
    if p.len() <= s.len() && s.take(p.len() as int) == p {
        Some(s.skip(p.len() as int))
    } else {
        None
    }
}

/// `s` without the suffix `p`, when `s` ends with `p`.
pub open spec fn strip_suffix_spec(s: Seq<u8>, p: Seq<u8>) -> Option<Seq<u8>> {
    if p.len() <= s.len() && s.skip(s.len() - p.len()) == p {
        Some(s.take(s.len() - p.len()))
    } else {
        None
    }
}

/// `s.strip_prefix(p)` on bytes.
pub fn strip_prefix<'a>(s: &'a [u8], p: &[u8]) -> (r: Option<&'a [u8]>)
    ensures
        match r {
            Some(t) => strip_prefix_spec(s@, p@) == Some(t@),
            None => strip_prefix_spec(s@, p@) is None,
        },
{
    if p.len() > s.len() {
        return None;
    }
    let mut k: usize = 0;
    while k < p.len()
        invariant
            p@.len() <= s@.len(),
            k <= p@.len(),
            forall|j: int| 0 <= j < k ==> s@[j] == p@[j],
        decreases p@.len() - k,
    {
        if s[k] != p[k] {
            assert(s@.take(p@.len() as int)[k as int] != p@[k as int]);
            return None;
        }
        k = k + 1;
    }
    assert(s@.take(p@.len() as int) =~= p@);
    let n = s.len();
    let t = &s[p.len()..n];
    assert(t@ =~= s@.skip(p@.len() as int));
    Some(t)
}

/// `s.strip_suffix(p)` on bytes.
pub fn strip_suffix<'a>(s: &'a [u8], p: &[u8]) -> (r: Option<&'a [u8]>)
    ensures
        match r {
            Some(t) => strip_suffix_spec(s@, p@) == Some(t@),
            None => strip_suffix_spec(s@, p@) is None,
        },
{
    if p.len() > s.len() {
        return None;
    }
    let n = s.len();
    let off = n - p.len();
    let mut k: usize = 0;
    while k < p.len()
        invariant
            p@.len() <= s@.len(),
            off == s@.len() - p@.len(),
            off + p@.len() == s@.len(),
            n == s@.len(),
            k <= p@.len(),
            forall|j: int| 0 <= j < k ==> s@[off + j] == p@[j],
        decreases p@.len() - k,
    {
        if s[off + k] != p[k] {
            assert(s@.skip(off as int)[k as int] != p@[k as int]);
            return None;
        }
        k = k + 1;
    }
    assert(s@.skip(off as int) =~= p@);
    let t = &s[0..off];
    assert(t@ =~= s@.take(off as int));
    Some(t)
}

/// `String::from_utf8`: the string whose UTF-8 encoding is `bytes`, when they are valid UTF-8.
#[verifier::external_body]
pub(crate) fn string_from_utf8(bytes: Vec<u8>) -> (r: Option<String>)
    ensures
        r is Some <==> valid_utf8(bytes@),
        r matches Some(s) ==> s@ == decode_utf8(bytes@),
{
    String::from_utf8(bytes).ok()
}

/// A `String` holding the characters of ASCII bytes.
pub fn ascii_string(bytes: Vec<u8>) -> (r: String)
    requires
        all_ascii(bytes@),
    ensures
        r@ == ascii_chars(bytes@),
{
    proof {
        lemma_ascii_utf8(bytes@);
    }
    match string_from_utf8(bytes) {
        Some(s) => s,
        None => {
            proof {
                assert(false);
            }
            String::new()
        },
    }
}

} // verus!
