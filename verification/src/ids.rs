//! UUIDs through the `uuid` crate, carried as their 128-bit big-endian value.

use vstd::prelude::*;
use crate::text::{uuid_hyphenated, nibble128, hex_digit, uuid_column_digit, uuid_hyphen_column, lemma_nibble_range};

verus! {

/// The UUID that `Uuid::parse_str` reads from a text, if it reads one.
pub uninterp spec fn uuid_parse(text: Seq<u8>) -> Option<u128>;

/// The UUID read from a text: the hyphenated lowercase form that `Uuid`'s
/// `Display` prints reads back as the UUID it shows; other texts as the parser says.
pub open spec fn uuid_from_text(text: Seq<u8>) -> Option<u128> {
    if exists|u: u128| uuid_hyphenated(u) == text {
        Some(choose|u: u128| uuid_hyphenated(u) == text)
    } else {
        uuid_parse(text)
    }
}

/// Different UUIDs print differently.
pub proof fn lemma_uuid_hyphenated_injective(u: u128, v: u128)
    requires
        uuid_hyphenated(u) == uuid_hyphenated(v),
    ensures
        u == v,
{
    assert forall|k: int| 0 <= k < 32 implies nibble128(u, k) == nibble128(v, k) by {
        let j = if k < 8 {
            k
        } else if k < 12 {
            k + 1
        } else if k < 16 {
            k + 2
        } else if k < 20 {
            k + 3
        } else {
            k + 4
        };
        assert(uuid_column_digit(j) == k);
        assert(!uuid_hyphen_column(j));
        assert(uuid_hyphenated(u)[j] == uuid_hyphenated(v)[j]);
        assert(uuid_hyphenated(u)[j] == hex_digit(nibble128(u, k)));
        assert(uuid_hyphenated(v)[j] == hex_digit(nibble128(v, k)));
        lemma_nibble_range(u, k);
        lemma_nibble_range(v, k);
        let a = nibble128(u, k);
        let b = nibble128(v, k);
        assert(hex_digit(a) == hex_digit(b));
    }
    lemma_nibbles_determine(u, v);
}

proof fn lemma_nibbles_determine(u: u128, v: u128)
    requires
        forall|k: int| 0 <= k < 32 ==> nibble128(u, k) == nibble128(v, k),
    ensures
        u == v,
{
    assert(nibble128(u, 0) == nibble128(v, 0));
    assert(nibble128(u, 1) == nibble128(v, 1));
    assert(nibble128(u, 2) == nibble128(v, 2));
    assert(nibble128(u, 3) == nibble128(v, 3));
    assert(nibble128(u, 4) == nibble128(v, 4));
    assert(nibble128(u, 5) == nibble128(v, 5));
    assert(nibble128(u, 6) == nibble128(v, 6));
    assert(nibble128(u, 7) == nibble128(v, 7));
    assert(nibble128(u, 8) == nibble128(v, 8));
    assert(nibble128(u, 9) == nibble128(v, 9));
    assert(nibble128(u, 10) == nibble128(v, 10));
    assert(nibble128(u, 11) == nibble128(v, 11));
    assert(nibble128(u, 12) == nibble128(v, 12));
    assert(nibble128(u, 13) == nibble128(v, 13));
    assert(nibble128(u, 14) == nibble128(v, 14));
    assert(nibble128(u, 15) == nibble128(v, 15));
    assert(nibble128(u, 16) == nibble128(v, 16));
    assert(nibble128(u, 17) == nibble128(v, 17));
    assert(nibble128(u, 18) == nibble128(v, 18));
    assert(nibble128(u, 19) == nibble128(v, 19));
    assert(nibble128(u, 20) == nibble128(v, 20));
    assert(nibble128(u, 21) == nibble128(v, 21));
    assert(nibble128(u, 22) == nibble128(v, 22));
    assert(nibble128(u, 23) == nibble128(v, 23));
    assert(nibble128(u, 24) == nibble128(v, 24));
    assert(nibble128(u, 25) == nibble128(v, 25));
    assert(nibble128(u, 26) == nibble128(v, 26));
    assert(nibble128(u, 27) == nibble128(v, 27));
    assert(nibble128(u, 28) == nibble128(v, 28));
    assert(nibble128(u, 29) == nibble128(v, 29));
    assert(nibble128(u, 30) == nibble128(v, 30));
    assert(nibble128(u, 31) == nibble128(v, 31));
    assert(u == v) by (bit_vector)
        requires
            (u >> 124u128) & 0xf == (v >> 124u128) & 0xf,
            (u >> 120u128) & 0xf == (v >> 120u128) & 0xf,
            (u >> 116u128) & 0xf == (v >> 116u128) & 0xf,
            (u >> 112u128) & 0xf == (v >> 112u128) & 0xf,
            (u >> 108u128) & 0xf == (v >> 108u128) & 0xf,
            (u >> 104u128) & 0xf == (v >> 104u128) & 0xf,
            (u >> 100u128) & 0xf == (v >> 100u128) & 0xf,
            (u >> 96u128) & 0xf == (v >> 96u128) & 0xf,
            (u >> 92u128) & 0xf == (v >> 92u128) & 0xf,
            (u >> 88u128) & 0xf == (v >> 88u128) & 0xf,
            (u >> 84u128) & 0xf == (v >> 84u128) & 0xf,
            (u >> 80u128) & 0xf == (v >> 80u128) & 0xf,
            (u >> 76u128) & 0xf == (v >> 76u128) & 0xf,
            (u >> 72u128) & 0xf == (v >> 72u128) & 0xf,
            (u >> 68u128) & 0xf == (v >> 68u128) & 0xf,
            (u >> 64u128) & 0xf == (v >> 64u128) & 0xf,
            (u >> 60u128) & 0xf == (v >> 60u128) & 0xf,
            (u >> 56u128) & 0xf == (v >> 56u128) & 0xf,
            (u >> 52u128) & 0xf == (v >> 52u128) & 0xf,
            (u >> 48u128) & 0xf == (v >> 48u128) & 0xf,
            (u >> 44u128) & 0xf == (v >> 44u128) & 0xf,
            (u >> 40u128) & 0xf == (v >> 40u128) & 0xf,
            (u >> 36u128) & 0xf == (v >> 36u128) & 0xf,
            (u >> 32u128) & 0xf == (v >> 32u128) & 0xf,
            (u >> 28u128) & 0xf == (v >> 28u128) & 0xf,
            (u >> 24u128) & 0xf == (v >> 24u128) & 0xf,
            (u >> 20u128) & 0xf == (v >> 20u128) & 0xf,
            (u >> 16u128) & 0xf == (v >> 16u128) & 0xf,
            (u >> 12u128) & 0xf == (v >> 12u128) & 0xf,
            (u >> 8u128) & 0xf == (v >> 8u128) & 0xf,
            (u >> 4u128) & 0xf == (v >> 4u128) & 0xf,
            (u >> 0u128) & 0xf == (v >> 0u128) & 0xf,
    ;
}

/// The hyphenated form reads back as the UUID it shows.
pub proof fn lemma_uuid_from_hyphenated(u: u128)
    ensures
        uuid_from_text(uuid_hyphenated(u)) == Some(u),
{
    let t = uuid_hyphenated(u);
    assert(exists|w: u128| uuid_hyphenated(w) == t);
    let w = choose|w: u128| uuid_hyphenated(w) == t;
    lemma_uuid_hyphenated_injective(u, w);
}

/// `Uuid::try_parse_ascii` (the parser behind `Uuid::parse_str`): the result is a
/// function of the text, and the hyphenated form that `Uuid`'s `Display` prints
/// reads back as the same UUID.
#[verifier::external_body]
pub(crate) fn parse_uuid(text: &[u8]) -> (r: Option<u128>)
    ensures
        r == uuid_parse(text@),
        r == uuid_from_text(text@),
{
    uuid::Uuid::try_parse_ascii(text).ok().map(|u| u.as_u128())
}

} // verus!
