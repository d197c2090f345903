//! CBOR data items (RFC 8949) as plain values, and their encoding and decoding
//! through `ciborium`.

use vstd::prelude::*;
use ciborium::value::Value;

verus! {

/// `ciborium`'s data item, held opaque.
#[verifier::external_type_specification]
#[verifier::external_body]
pub struct ExCiboriumValue(Value);

/// A CBOR data item. A floating-point item is held by the bits of its IEEE 754
/// double-precision value.
pub enum Cbor {
    Integer(i128),
    FloatBits(u64),
    Bytes(Vec<u8>),
    Text(String),
    Bool(bool),
    Null,
    Tag(u64, Box<Cbor>),
    Array(Vec<Cbor>),
    Mapping(Vec<(Cbor, Cbor)>),
}

/// A CBOR data item as a mathematical value.
pub enum CborView {
    Integer(int),
    FloatBits(u64),
    Bytes(Seq<u8>),
    Text(Seq<char>),
    Bool(bool),
    Null,
    Tag(u64, Box<CborView>),
    Array(Seq<CborView>),
    Mapping(Seq<(CborView, CborView)>),
}

/// The mathematical value of a data item.
pub open spec fn cbor_view(c: Cbor) -> CborView
    decreases c,
{
    match c {
        Cbor::Integer(i) => CborView::Integer(i as int),
        Cbor::FloatBits(b) => CborView::FloatBits(b),
        Cbor::Bytes(b) => CborView::Bytes(b@),
        Cbor::Text(t) => CborView::Text(t@),
        Cbor::Bool(b) => CborView::Bool(b),
        Cbor::Null => CborView::Null,
        Cbor::Tag(t, inner) => CborView::Tag(t, Box::new(cbor_view(*inner))),
        Cbor::Array(items) => CborView::Array(
            Seq::new(
                items@.len(),
                |i: int|
                    if 0 <= i < items@.len() {
                        cbor_view(items@[i])
                    } else {
                        CborView::Null
                    },
            ),
        ),
        Cbor::Mapping(entries) => CborView::Mapping(
            Seq::new(
                entries@.len(),
                |i: int|
                    if 0 <= i < entries@.len() {
                        (cbor_view(entries@[i].0), cbor_view(entries@[i].1))
                    } else {
                        (CborView::Null, CborView::Null)
                    },
            ),
        ),
    }
}

impl View for Cbor {
    type V = CborView;

    open spec fn view(&self) -> CborView {
        cbor_view(*self)
    }
}

/// Every integer lies in CBOR's range, -2^64 ..= 2^64 - 1.
pub open spec fn cbor_wf(c: CborView) -> bool
    decreases c,
{
    match c {
        CborView::Integer(i) => -0x1_0000_0000_0000_0000 <= i <= 0xffff_ffff_ffff_ffff,
        CborView::Tag(_, inner) => cbor_wf(*inner),
        CborView::Array(items) => forall|i: int| 0 <= i < items.len() ==> cbor_wf(#[trigger] items[i]),
        CborView::Mapping(e) => forall|i: int|
            0 <= i < e.len() ==> cbor_wf(#[trigger] e[i].0) && cbor_wf(e[i].1),
        _ => true,
    }
}

/// A map is in range when its keys and values are.
pub proof fn lemma_wf_mapping(e: Seq<(CborView, CborView)>)
    requires
        forall|i: int| 0 <= i < e.len() ==> cbor_wf(#[trigger] e[i].0) && cbor_wf(e[i].1),
    ensures
        cbor_wf(CborView::Mapping(e)),
{
}

/// An array is in range when its items are.
pub proof fn lemma_wf_array(items: Seq<CborView>)
    requires
        forall|i: int| 0 <= i < items.len() ==> cbor_wf(#[trigger] items[i]),
    ensures
        cbor_wf(CborView::Array(items)),
{
}

/// The bytes `ciborium` writes for a data item.
pub uninterp spec fn cbor_encoding(v: CborView) -> Seq<u8>;

/// What `ciborium` reads from the front of some bytes: the data item, or the
/// text of its error.
pub uninterp spec fn cbor_decoding(b: Seq<u8>) -> Result<CborView, Seq<char>>;

/// A decoding result as mathematical values.
pub open spec fn decode_view(r: Result<Cbor, String>) -> Result<CborView, Seq<char>> {
    match r {
        Ok(c) => Ok(c@),
        Err(e) => Err(e@),
    }
}

/// The `ciborium` value of the double-precision float with these bits, read by
/// `ciborium::de::from_reader` from its CBOR encoding: the initial byte 0xfb and
/// the eight bits' bytes, big-endian (RFC 8949, section 3.3).
#[verifier::external_body]
fn float_from_bits(bits: u64) -> Value {
    let mut item = vec![0xfbu8];
    item.extend_from_slice(&bits.to_be_bytes());
    ciborium::de::from_reader(item.as_slice()).unwrap()
}

/// Converts a data item into a `ciborium` value, one for one.
#[verifier::external_body]
fn value_of(c: &Cbor) -> Value
    requires
        cbor_wf(c@),
{
    match c {
        Cbor::Integer(i) => Value::Integer((*i).try_into().unwrap()),
        Cbor::FloatBits(b) => float_from_bits(*b),
        Cbor::Bytes(b) => Value::Bytes(b.clone()),
        Cbor::Text(t) => Value::Text(t.clone()),
        Cbor::Bool(b) => Value::Bool(*b),
        Cbor::Null => Value::Null,
        Cbor::Tag(t, x) => Value::Tag(*t, Box::new(value_of(x))),
        Cbor::Array(a) => Value::Array(a.iter().map(value_of).collect()),
        Cbor::Mapping(e) => Value::Map(entries_of(e)),
    }
}

/// Converts map entries into `ciborium` entries, one for one.
#[verifier::external_body]
fn entries_of(e: &Vec<(Cbor, Cbor)>) -> Vec<(Value, Value)>
    requires
        forall|i: int| 0 <= i < e@.len() ==> cbor_wf(#[trigger] e@[i].0@) && cbor_wf(e@[i].1@),
{
    e.iter().map(|(k, v)| (value_of(k), value_of(v))).collect()
}

/// Converts a `ciborium` value into a data item, one for one; `None` for a kind
/// of value that `Cbor` lacks (`Value` is non-exhaustive; ciborium 0.2 has none).
#[verifier::external_body]
fn cbor_of(v: Value) -> Option<Cbor> {
    Some(match v {
        Value::Integer(i) => Cbor::Integer(i.into()),
        Value::Float(f) => Cbor::FloatBits(f.to_bits()),
        Value::Bytes(b) => Cbor::Bytes(b),
        Value::Text(t) => Cbor::Text(t),
        Value::Bool(b) => Cbor::Bool(b),
        Value::Null => Cbor::Null,
        Value::Tag(t, inner) => Cbor::Tag(t, Box::new(cbor_of(*inner)?)),
        Value::Array(a) => Cbor::Array(a.into_iter().map(cbor_of).collect::<Option<_>>()?),
        Value::Map(e) => Cbor::Mapping(entries_from(e)?),
        _ => return None,
    })
}

/// Converts `ciborium` map entries into data items, one for one; `None` as for
/// `cbor_of`.
#[verifier::external_body]
fn entries_from(e: Vec<(Value, Value)>) -> Option<Vec<(Cbor, Cbor)>> {
    e.into_iter().map(|(k, v)| Some((cbor_of(k)?, cbor_of(v)?))).collect()
}

/// `ciborium::ser::into_writer` into a byte vector, which cannot fail there.
#[verifier::external_body]
pub(crate) fn cbor_encode(c: &Cbor) -> (r: Vec<u8>)
    requires
        cbor_wf(c@),
    ensures
        r@ == cbor_encoding(c@),
{
    let mut out = Vec::new();
    ciborium::ser::into_writer(&value_of(c), &mut out).unwrap();
    out
}

/// `ciborium::de::from_reader` of one value, or the text of its error; its
/// integers are in CBOR's range.
#[verifier::external_body]
pub(crate) fn cbor_decode(bytes: &[u8]) -> (r: Result<Cbor, String>)
    ensures
        decode_view(r) == cbor_decoding(bytes@),
        r matches Ok(c) ==> cbor_wf(c@),
{
    match ciborium::de::from_reader::<Value, &[u8]>(bytes) {
        Ok(v) => cbor_of(v).ok_or_else(|| "unsupported CBOR item".to_owned()),
        Err(e) => Err(e.to_string()),
    }
}

/// A map entry with the key `from` renamed to `to`, its value wrapped as the
/// bytes of its encoding; any other entry unchanged.
pub open spec fn remap_entry(e: (CborView, CborView), from: int, to: int) -> (CborView, CborView) {
    if e.0 == CborView::Integer(from) {
        (CborView::Integer(to), CborView::Bytes(cbor_encoding(e.1)))
    } else {
        e
    }
}

/// The map entries with every `from` key renamed.
pub open spec fn remap_entries(e: Seq<(CborView, CborView)>, from: int, to: int) -> Seq<(CborView, CborView)> {
    Seq::new(e.len(), |i: int| remap_entry(e[i], from, to))
}

/// Renaming keeps every entry under another key as it was, and leaves no entry
/// under the old key when it differs from the new one.
pub proof fn lemma_remap_keeps_other_entries(e: Seq<(CborView, CborView)>, from: int, to: int)
    ensures
        remap_entries(e, from, to).len() == e.len(),
        forall|i: int|
            0 <= i < e.len() && e[i].0 != CborView::Integer(from) ==> #[trigger] remap_entries(
                e,
                from,
                to,
            )[i] == e[i],
        from != to ==> forall|i: int|
            0 <= i < e.len() ==> (#[trigger] remap_entries(e, from, to)[i]).0 != CborView::Integer(
                from,
            ),
{
}

/// The re-encoded map, or why there is none.
pub open spec fn remap_claim_spec(cbor: Seq<u8>, from: int, to: int) -> Result<Seq<u8>, Seq<char>> {
    match cbor_decoding(cbor) {
        Err(e) => Err("CBOR decode for key remap failed: "@ + e),
        Ok(CborView::Mapping(e)) => Ok(cbor_encoding(CborView::Mapping(remap_entries(e, from, to)))),
        Ok(_) => Err("expected CBOR map in payload"@),
    }
}

/// The bytes of a result, or its message.
pub open spec fn bytes_result(r: Result<Vec<u8>, String>) -> Result<Seq<u8>, Seq<char>> {
    match r {
        Ok(b) => Ok(b@),
        Err(e) => Err(e@),
    }
}

/// Decodes a CBOR map, renames the key `from` to `to`, wraps that entry's value
/// as the bytes of its encoding, and encodes the map again.
pub fn remap_claim_key(cbor: &[u8], from: i64, to: i64) -> (r: Result<Vec<u8>, String>)
    ensures
        bytes_result(r) == remap_claim_spec(cbor@, from as int, to as int),
{
    let decoded = match cbor_decode(cbor) {
        Ok(v) => v,
        Err(e) => {
            let mut msg = crate::text::TextBuf::new();
            msg.push_str("CBOR decode for key remap failed: ");
            msg.push_str(e.as_str());
            return Err(msg.into_string());
        },
    };
    let mut rest = match decoded {
        Cbor::Mapping(e) => e,
        _ => return Err("expected CBOR map in payload".to_owned()),
    };
    let ghost orig: Seq<(CborView, CborView)> = match cbor_decoding(cbor@) {
        Ok(CborView::Mapping(e)) => e,
        _ => Seq::empty(),
    };
    let ghost n: int = orig.len() as int;
    let mut out: Vec<(Cbor, Cbor)> = Vec::new();
    while rest.len() > 0
        invariant
            out@.len() + rest@.len() == n,
            forall|j: int|
                0 <= j < out@.len() ==> (#[trigger] out@[j].0@, out@[j].1@) == remap_entry(
                    orig[j],
                    from as int,
                    to as int,
                ),
            forall|j: int|
                0 <= j < out@.len() ==> cbor_wf(#[trigger] out@[j].0@) && cbor_wf(out@[j].1@),
            forall|j: int|
                0 <= j < rest@.len() ==> (#[trigger] rest@[j].0@, rest@[j].1@) == orig[out@.len() + j],
            orig.len() == n,
            forall|j: int| 0 <= j < n ==> cbor_wf((#[trigger] orig[j]).0) && cbor_wf(orig[j].1),
        decreases rest@.len(),
    {
        let ghost before = rest@;
        let (k, v) = rest.remove(0);
        assert((k@, v@) == orig[out@.len() as int]) by {
            assert(before[0] == (k, v));
        }
        assert forall|j: int| 0 <= j < rest@.len() implies (#[trigger] rest@[j].0@, rest@[j].1@)
            == orig[out@.len() + 1 + j] by {
            assert(rest@[j] == before[j + 1]);
        }
        let matches_from = match &k {
            Cbor::Integer(x) => *x == from as i128,
            _ => false,
        };
        assert(cbor_wf(k@) && cbor_wf(v@)) by {
            assert(cbor_wf(orig[out@.len() as int].0) && cbor_wf(orig[out@.len() as int].1));
        }
        if matches_from {
            let inner = cbor_encode(&v);
            out.push((Cbor::Integer(to as i128), Cbor::Bytes(inner)));
        } else {
            out.push((k, v));
        }
    }
    let remapped = Cbor::Mapping(out);
    let ghost e: Seq<(CborView, CborView)> = Seq::new(
        out@.len(),
        |i: int| (cbor_view(out@[i].0), cbor_view(out@[i].1)),
    );
    assert(remapped@ == CborView::Mapping(e)) by {
        if let CborView::Mapping(e2) = remapped@ {
            assert(e2 =~= e);
        }
    }
    assert(out@.len() == n);
    assert forall|i: int| 0 <= i < e.len() implies #[trigger] e[i] == remap_entries(
        orig,
        from as int,
        to as int,
    )[i] by {
        assert(e[i] == (out@[i].0@, out@[i].1@));
    }
    assert(e =~= remap_entries(orig, from as int, to as int));
    assert(cbor_wf(remapped@)) by {
        assert forall|i: int| 0 <= i < e.len() implies cbor_wf(#[trigger] e[i].0) && cbor_wf(
            e[i].1,
        ) by {
            assert(e[i] == (out@[i].0@, out@[i].1@));
        }
    }
    Ok(cbor_encode(&remapped))
}

} // verus!
