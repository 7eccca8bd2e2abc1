//! The wire codec: a length-prefixed, schema-driven encoding of tagged
//! values, call frames and return frames.
//!
//! Every encoded value is self-delimiting: a tag byte, a 32-bit
//! little-endian payload length, and the payload. A decoder can therefore
//! skip a value whose tag it does not know, which keeps the schema
//! forward-compatible: new tag values are surfaced as an unknown type
//! instead of derailing the decoder.

use vstd::prelude::*;

use crate::func_types::{ReturnValue, ValueView};

verus! {

broadcast use vstd::seq_lib::group_seq_properties;

/// The tag byte of a wire value.
pub open spec fn spec_tag_of(v: ValueView) -> u8 {
    match v {
        ValueView::Int(_) => 1u8,
        ValueView::UInt(_) => 2u8,
        ValueView::Long(_) => 3u8,
        ValueView::ULong(_) => 4u8,
        ValueView::Bool(_) => 5u8,
        ValueView::Float(_) => 6u8,
        ValueView::Double(_) => 7u8,
        ValueView::Str(_) => 8u8,
        ValueView::Bytes(_) => 9u8,
        ValueView::Void => 10u8,
    }
}

/// Whether a tag byte names a type of the current schema.
pub open spec fn spec_known_tag(t: u8) -> bool {
    1 <= t <= 10
}

/// The payload bytes of a wire value. Scalars are little-endian; floats are
/// their bit patterns; text is UTF-8.
pub open spec fn spec_payload_of(v: ValueView) -> Seq<u8> {
    match v {
        ValueView::Int(i) => vstd::bytes::spec_u32_to_le_bytes(i as u32),
        ValueView::UInt(u) => vstd::bytes::spec_u32_to_le_bytes(u),
        ValueView::Long(l) => vstd::bytes::spec_u64_to_le_bytes(l as u64),
        ValueView::ULong(u) => vstd::bytes::spec_u64_to_le_bytes(u),
        ValueView::Bool(b) => seq![if b { 1u8 } else { 0u8 }],
        ValueView::Float(f) => vstd::bytes::spec_u32_to_le_bytes(f),
        ValueView::Double(d) => vstd::bytes::spec_u64_to_le_bytes(d),
        ValueView::Str(s) => vstd::utf8::encode_utf8(s),
        ValueView::Bytes(b) => b,
        ValueView::Void => Seq::empty(),
    }
}

/// A value can be framed when its payload length fits the 32-bit length
/// prefix.
pub open spec fn spec_value_wf(v: ValueView) -> bool {
    spec_payload_of(v).len() <= u32::MAX
}

/// The complete encoding of one wire value.
pub open spec fn spec_encode_value(v: ValueView) -> Seq<u8> {
    seq![spec_tag_of(v)] + vstd::bytes::spec_u32_to_le_bytes(spec_payload_of(v).len() as u32)
        + spec_payload_of(v)
}

/// The value that a known tag byte and payload stand for, if the payload is
/// well-formed for that tag.
pub open spec fn spec_value_of_tag(tag: u8, payload: Seq<u8>) -> Option<ValueView> {
    if tag == 1 && payload.len() == 4 {
        Some(ValueView::Int(vstd::bytes::spec_u32_from_le_bytes(payload) as i32))
    } else if tag == 2 && payload.len() == 4 {
        Some(ValueView::UInt(vstd::bytes::spec_u32_from_le_bytes(payload)))
    } else if tag == 3 && payload.len() == 8 {
        Some(ValueView::Long(vstd::bytes::spec_u64_from_le_bytes(payload) as i64))
    } else if tag == 4 && payload.len() == 8 {
        Some(ValueView::ULong(vstd::bytes::spec_u64_from_le_bytes(payload)))
    } else if tag == 5 && payload.len() == 1 && (payload[0] == 0 || payload[0] == 1) {
        Some(ValueView::Bool(payload[0] == 1))
    } else if tag == 6 && payload.len() == 4 {
        Some(ValueView::Float(vstd::bytes::spec_u32_from_le_bytes(payload)))
    } else if tag == 7 && payload.len() == 8 {
        Some(ValueView::Double(vstd::bytes::spec_u64_from_le_bytes(payload)))
    } else if tag == 8 && vstd::utf8::valid_utf8(payload) {
        Some(ValueView::Str(vstd::utf8::decode_utf8(payload)))
    } else if tag == 9 {
        Some(ValueView::Bytes(payload))
    } else if tag == 10 && payload.len() == 0 {
        Some(ValueView::Void)
    } else {
        None
    }
}

/// Ghost image of a decoded wire value: either a value of the current
/// schema, or the tag of a value from a newer one.
pub ghost enum DecodedView {
    /// A value of the current schema.
    Known(ValueView),
    /// A value with an unrecognized tag byte, tolerated and skipped.
    Unknown(u8),
}

/// Decode the first wire value of `bytes`. Returns the decoded value and the
/// number of bytes it occupied.
pub open spec fn spec_decode_value(bytes: Seq<u8>) -> Option<(DecodedView, int)> {
    if bytes.len() < 5 {
        None
    } else {
        let tag = bytes[0];
        let len = vstd::bytes::spec_u32_from_le_bytes(bytes.subrange(1, 5)) as int;
        if 5 + len > bytes.len() {
            None
        } else {
            let payload = bytes.subrange(5, 5 + len);
            match spec_value_of_tag(tag, payload) {
                Some(v) => Some((DecodedView::Known(v), 5 + len)),
                None => if spec_known_tag(tag) {
                    None
                } else {
                    Some((DecodedView::Unknown(tag), 5 + len))
                },
            }
        }
    }
}

/// The round trip at the value level: every well-formed wire value decodes
/// from its own encoding, whatever bytes follow it.
pub proof fn lemma_value_round_trip(v: ValueView, rest: Seq<u8>)
    requires
        spec_value_wf(v),
    ensures
        spec_decode_value(spec_encode_value(v) + rest) == Some(
            (DecodedView::Known(v), spec_encode_value(v).len() as int),
        ),
{
    vstd::bytes::lemma_auto_spec_u32_to_from_le_bytes();
    vstd::bytes::lemma_auto_spec_u64_to_from_le_bytes();
    let payload = spec_payload_of(v);
    let enc = spec_encode_value(v);
    let all = enc + rest;
    assert(all.subrange(1, 5) =~= vstd::bytes::spec_u32_to_le_bytes(payload.len() as u32));
    assert(all.subrange(5, 5 + payload.len() as int) =~= payload);
    match v {
        ValueView::Int(i) => {
            assert((i as u32) as i32 == i) by (bit_vector);
        },
        ValueView::Long(l) => {
            assert((l as u64) as i64 == l) by (bit_vector);
        },
        ValueView::Str(s) => {
            broadcast use vstd::utf8::encode_utf8_valid_utf8, vstd::utf8::encode_utf8_decode_utf8;

        },
        _ => {},
    }
}

/// A decoded wire value: either a value of the current schema, or a value
/// with an unrecognized tag byte, tolerated and skipped over.
#[derive(Debug, Clone, PartialEq)]
pub enum DecodedValue {
    /// A value of the current schema.
    Known(ReturnValue),
    /// The tag byte of a value from a newer schema.
    Unknown(u8),
}

impl View for DecodedValue {
    type V = DecodedView;

    open spec fn view(&self) -> DecodedView {
        match self {
            DecodedValue::Known(v) => DecodedView::Known(v@),
            DecodedValue::Unknown(t) => DecodedView::Unknown(*t),
        }
    }
}

/// Append the encoding of one wire value to `out`. Fails exactly when the
/// payload is too large for the 32-bit length prefix.
pub fn encode_value(v: &ReturnValue, out: &mut Vec<u8>) -> (ok: bool)
    ensures
        ok == spec_value_wf(v@),
        ok ==> final(out)@ == old(out)@ + spec_encode_value(v@),
        !ok ==> final(out)@ == old(out)@,
{
    let payload: Vec<u8> = match v {
        ReturnValue::Int(i) => {
            let u: u32 = #[verifier::truncate] (*i as u32);
            vstd::bytes::u32_to_le_bytes(u)
        },
        ReturnValue::UInt(u) => vstd::bytes::u32_to_le_bytes(*u),
        ReturnValue::Long(l) => {
            let u: u64 = #[verifier::truncate] (*l as u64);
            vstd::bytes::u64_to_le_bytes(u)
        },
        ReturnValue::ULong(u) => vstd::bytes::u64_to_le_bytes(*u),
        ReturnValue::Bool(b) => {
            let mut p: Vec<u8> = Vec::new();
            p.push(if *b {
                1u8
            } else {
                0u8
            });
            p
        },
        ReturnValue::Float(f) => vstd::bytes::u32_to_le_bytes(*f),
        ReturnValue::Double(d) => vstd::bytes::u64_to_le_bytes(*d),
        ReturnValue::String(s) => s.as_str().as_bytes_vec(),
        ReturnValue::VecBytes(b) => b.clone(),
        ReturnValue::Void => Vec::new(),
    };
    assert(payload@ == spec_payload_of(v@));
    if payload.len() > u32::MAX as usize {
        return false;
    }
    let tag: u8 = match v {
        ReturnValue::Int(_) => 1u8,
        ReturnValue::UInt(_) => 2u8,
        ReturnValue::Long(_) => 3u8,
        ReturnValue::ULong(_) => 4u8,
        ReturnValue::Bool(_) => 5u8,
        ReturnValue::Float(_) => 6u8,
        ReturnValue::Double(_) => 7u8,
        ReturnValue::String(_) => 8u8,
        ReturnValue::VecBytes(_) => 9u8,
        ReturnValue::Void => 10u8,
    };
    out.push(tag);
    let mut len_bytes = vstd::bytes::u32_to_le_bytes(payload.len() as u32);
    out.append(&mut len_bytes);
    let mut payload = payload;
    out.append(&mut payload);
    assert(out@ =~= old(out)@ + spec_encode_value(v@));
    true
}

/// Decode the wire value that starts at `pos`. Returns the decoded value and
/// the position just past it.
pub fn decode_value(input: &Vec<u8>, pos: usize) -> (r: Option<(DecodedValue, usize)>)
    requires
        pos <= input@.len(),
    ensures
        match r {
            Some((v, end)) => {
                &&& pos < end <= input@.len()
                &&& spec_decode_value(input@.skip(pos as int)) == Some(
                    (v@, end - pos),
                )
            },
            None => spec_decode_value(input@.skip(pos as int)) is None,
        },
{
    let n = input.len();
    if n - pos < 5 {
        return None;
    }
    let tag = input[pos];
    let len_slice = vstd::slice::slice_subrange(input.as_slice(), pos + 1, pos + 5);
    let len32 = vstd::bytes::u32_from_le_bytes(len_slice);
    proof {
        assert(input@.skip(pos as int).subrange(1, 5) =~= input@.subrange(
            pos + 1,
            pos + 5,
        ));
    }
    let len = len32 as usize;
    if n - (pos + 5) < len {
        return None;
    }
    let payload_slice = vstd::slice::slice_subrange(input.as_slice(), pos + 5, pos + 5 + len);
    let payload: Vec<u8> = vstd::slice::slice_to_vec(payload_slice);
    proof {
        assert(input@.skip(pos as int).subrange(5, 5 + len as int) =~= input@.subrange(
            pos + 5,
            pos + 5 + len as int,
        ));
    }
    let ghost gpayload = input@.skip(pos as int).subrange(5, 5 + len as int);
    let end = pos + 5 + len;
    let known: Option<ReturnValue> = decode_known_payload(tag, &payload);
    proof {
        assert(known matches Some(kv) ==> spec_value_of_tag(tag, gpayload) == Some(kv@));
        assert(known is None ==> spec_value_of_tag(tag, gpayload) is None);
    }
    match known {
        Some(v) => Some((DecodedValue::Known(v), end)),
        None => {
            if 1 <= tag && tag <= 10 {
                None
            } else {
                Some((DecodedValue::Unknown(tag), end))
            }
        },
    }
}

/// Decode the payload of a known tag into a wire value, if it is
/// well-formed for that tag.
fn decode_known_payload(tag: u8, payload: &Vec<u8>) -> (r: Option<ReturnValue>)
    ensures
        match r {
            Some(v) => spec_value_of_tag(tag, payload@) == Some(v@),
            None => spec_value_of_tag(tag, payload@) is None,
        },
{
    if tag == 1 && payload.len() == 4 {
        let u = vstd::bytes::u32_from_le_bytes(payload.as_slice());
        Some(ReturnValue::Int(#[verifier::truncate] (u as i32)))
    } else if tag == 2 && payload.len() == 4 {
        Some(ReturnValue::UInt(vstd::bytes::u32_from_le_bytes(payload.as_slice())))
    } else if tag == 3 && payload.len() == 8 {
        let u = vstd::bytes::u64_from_le_bytes(payload.as_slice());
        Some(ReturnValue::Long(#[verifier::truncate] (u as i64)))
    } else if tag == 4 && payload.len() == 8 {
        Some(ReturnValue::ULong(vstd::bytes::u64_from_le_bytes(payload.as_slice())))
    } else if tag == 5 && payload.len() == 1 && (payload[0] == 0 || payload[0] == 1) {
        Some(ReturnValue::Bool(payload[0] == 1))
    } else if tag == 6 && payload.len() == 4 {
        Some(ReturnValue::Float(vstd::bytes::u32_from_le_bytes(payload.as_slice())))
    } else if tag == 7 && payload.len() == 8 {
        Some(ReturnValue::Double(vstd::bytes::u64_from_le_bytes(payload.as_slice())))
    } else if tag == 8 {
        match string_from_utf8_vec(payload.clone()) {
            Some(s) => {
                proof {
                    broadcast use vstd::utf8::encode_utf8_decode_utf8;

                    assert(vstd::utf8::decode_utf8(payload@) == s@);
                }
                Some(ReturnValue::String(s))
            },
            None => None,
        }
    } else if tag == 9 {
        Some(ReturnValue::VecBytes(payload.clone()))
    } else if tag == 10 && payload.len() == 0 {
        Some(ReturnValue::Void)
    } else {
        None
    }
}

/// Relies on `String::from_utf8`: it succeeds exactly on valid UTF-8 input
/// and returns the string whose UTF-8 encoding is that input, byte for byte.
#[verifier::external_body]
pub(crate) fn string_from_utf8_vec(bytes: Vec<u8>) -> (r: Option<String>)
    ensures
        r is Some <==> vstd::utf8::valid_utf8(bytes@),
        r matches Some(s) ==> vstd::utf8::encode_utf8(s@) == bytes@,
{
    match String::from_utf8(bytes) {
        Ok(s) => Some(s),
        Err(_) => None,
    }
}

/// The tag byte of a declared parameter type.
pub open spec fn spec_param_type_tag(pt: crate::func_types::ParameterType) -> u8 {
    match pt {
        crate::func_types::ParameterType::Int => 1u8,
        crate::func_types::ParameterType::UInt => 2u8,
        crate::func_types::ParameterType::Long => 3u8,
        crate::func_types::ParameterType::ULong => 4u8,
        crate::func_types::ParameterType::Bool => 5u8,
        crate::func_types::ParameterType::Float => 6u8,
        crate::func_types::ParameterType::Double => 7u8,
        crate::func_types::ParameterType::String => 8u8,
        crate::func_types::ParameterType::VecBytes => 9u8,
    }
}

/// The declared parameter type a tag byte names, if any.
pub open spec fn spec_param_type_of_tag(t: u8) -> Option<crate::func_types::ParameterType> {
    if t == 1 {
        Some(crate::func_types::ParameterType::Int)
    } else if t == 2 {
        Some(crate::func_types::ParameterType::UInt)
    } else if t == 3 {
        Some(crate::func_types::ParameterType::Long)
    } else if t == 4 {
        Some(crate::func_types::ParameterType::ULong)
    } else if t == 5 {
        Some(crate::func_types::ParameterType::Bool)
    } else if t == 6 {
        Some(crate::func_types::ParameterType::Float)
    } else if t == 7 {
        Some(crate::func_types::ParameterType::Double)
    } else if t == 8 {
        Some(crate::func_types::ParameterType::String)
    } else if t == 9 {
        Some(crate::func_types::ParameterType::VecBytes)
    } else {
        None
    }
}

/// The tag byte of a declared return type.
pub open spec fn spec_return_type_tag(rt: crate::func_types::ReturnType) -> u8 {
    match rt {
        crate::func_types::ReturnType::Int => 1u8,
        crate::func_types::ReturnType::UInt => 2u8,
        crate::func_types::ReturnType::Long => 3u8,
        crate::func_types::ReturnType::ULong => 4u8,
        crate::func_types::ReturnType::Bool => 5u8,
        crate::func_types::ReturnType::Float => 6u8,
        crate::func_types::ReturnType::Double => 7u8,
        crate::func_types::ReturnType::String => 8u8,
        crate::func_types::ReturnType::VecBytes => 9u8,
        crate::func_types::ReturnType::Void => 10u8,
    }
}

/// The declared return type a tag byte names, if any.
pub open spec fn spec_return_type_of_tag(t: u8) -> Option<crate::func_types::ReturnType> {
    if t == 10 {
        Some(crate::func_types::ReturnType::Void)
    } else {
        match spec_param_type_of_tag(t) {
            Some(pt) => Some(spec_param_to_return_type(pt)),
            None => None,
        }
    }
}

/// The return type with the same wire representation as a parameter type.
pub open spec fn spec_param_to_return_type(pt: crate::func_types::ParameterType) -> crate::func_types::ReturnType {
    match pt {
        crate::func_types::ParameterType::Int => crate::func_types::ReturnType::Int,
        crate::func_types::ParameterType::UInt => crate::func_types::ReturnType::UInt,
        crate::func_types::ParameterType::Long => crate::func_types::ReturnType::Long,
        crate::func_types::ParameterType::ULong => crate::func_types::ReturnType::ULong,
        crate::func_types::ParameterType::Bool => crate::func_types::ReturnType::Bool,
        crate::func_types::ParameterType::Float => crate::func_types::ReturnType::Float,
        crate::func_types::ParameterType::Double => crate::func_types::ReturnType::Double,
        crate::func_types::ParameterType::String => crate::func_types::ReturnType::String,
        crate::func_types::ParameterType::VecBytes => crate::func_types::ReturnType::VecBytes,
    }
}

/// The tag byte of a declared parameter type.
pub fn param_type_tag(pt: crate::func_types::ParameterType) -> (t: u8)
    ensures
        t == spec_param_type_tag(pt),
{
    match pt {
        crate::func_types::ParameterType::Int => 1u8,
        crate::func_types::ParameterType::UInt => 2u8,
        crate::func_types::ParameterType::Long => 3u8,
        crate::func_types::ParameterType::ULong => 4u8,
        crate::func_types::ParameterType::Bool => 5u8,
        crate::func_types::ParameterType::Float => 6u8,
        crate::func_types::ParameterType::Double => 7u8,
        crate::func_types::ParameterType::String => 8u8,
        crate::func_types::ParameterType::VecBytes => 9u8,
    }
}

/// The declared parameter type a tag byte names, if any.
pub fn param_type_of_tag(t: u8) -> (r: Option<crate::func_types::ParameterType>)
    ensures
        r == spec_param_type_of_tag(t),
{
    if t == 1 {
        Some(crate::func_types::ParameterType::Int)
    } else if t == 2 {
        Some(crate::func_types::ParameterType::UInt)
    } else if t == 3 {
        Some(crate::func_types::ParameterType::Long)
    } else if t == 4 {
        Some(crate::func_types::ParameterType::ULong)
    } else if t == 5 {
        Some(crate::func_types::ParameterType::Bool)
    } else if t == 6 {
        Some(crate::func_types::ParameterType::Float)
    } else if t == 7 {
        Some(crate::func_types::ParameterType::Double)
    } else if t == 8 {
        Some(crate::func_types::ParameterType::String)
    } else if t == 9 {
        Some(crate::func_types::ParameterType::VecBytes)
    } else {
        None
    }
}

/// The tag byte of a declared return type.
pub fn return_type_tag(rt: crate::func_types::ReturnType) -> (t: u8)
    ensures
        t == spec_return_type_tag(rt),
{
    match rt {
        crate::func_types::ReturnType::Int => 1u8,
        crate::func_types::ReturnType::UInt => 2u8,
        crate::func_types::ReturnType::Long => 3u8,
        crate::func_types::ReturnType::ULong => 4u8,
        crate::func_types::ReturnType::Bool => 5u8,
        crate::func_types::ReturnType::Float => 6u8,
        crate::func_types::ReturnType::Double => 7u8,
        crate::func_types::ReturnType::String => 8u8,
        crate::func_types::ReturnType::VecBytes => 9u8,
        crate::func_types::ReturnType::Void => 10u8,
    }
}

/// The declared return type a tag byte names, if any.
pub fn return_type_of_tag(t: u8) -> (r: Option<crate::func_types::ReturnType>)
    ensures
        r == spec_return_type_of_tag(t),
{
    if t == 10 {
        Some(crate::func_types::ReturnType::Void)
    } else {
        match param_type_of_tag(t) {
            Some(pt) => Some(param_to_return_type(pt)),
            None => None,
        }
    }
}

/// The return type with the same wire representation as a parameter type.
pub fn param_to_return_type(pt: crate::func_types::ParameterType) -> (rt: crate::func_types::ReturnType)
    ensures
        rt == spec_param_to_return_type(pt),
{
    match pt {
        crate::func_types::ParameterType::Int => crate::func_types::ReturnType::Int,
        crate::func_types::ParameterType::UInt => crate::func_types::ReturnType::UInt,
        crate::func_types::ParameterType::Long => crate::func_types::ReturnType::Long,
        crate::func_types::ParameterType::ULong => crate::func_types::ReturnType::ULong,
        crate::func_types::ParameterType::Bool => crate::func_types::ReturnType::Bool,
        crate::func_types::ParameterType::Float => crate::func_types::ReturnType::Float,
        crate::func_types::ParameterType::Double => crate::func_types::ReturnType::Double,
        crate::func_types::ParameterType::String => crate::func_types::ReturnType::String,
        crate::func_types::ParameterType::VecBytes => crate::func_types::ReturnType::VecBytes,
    }
}

/// The encoding of a length-prefixed byte string: a 32-bit little-endian
/// length, then the bytes.
pub open spec fn spec_encode_lp(bytes: Seq<u8>) -> Seq<u8> {
    vstd::bytes::spec_u32_to_le_bytes(bytes.len() as u32) + bytes
}

/// Decode the length-prefixed byte string at the front of `bytes`. Returns
/// the byte string and the number of bytes it occupied.
pub open spec fn spec_decode_lp(bytes: Seq<u8>) -> Option<(Seq<u8>, int)> {
    if bytes.len() < 4 {
        None
    } else {
        let len = vstd::bytes::spec_u32_from_le_bytes(bytes.subrange(0, 4)) as int;
        if 4 + len > bytes.len() {
            None
        } else {
            Some((bytes.subrange(4, 4 + len), 4 + len))
        }
    }
}

/// The round trip for length-prefixed byte strings.
pub proof fn lemma_lp_round_trip(bytes: Seq<u8>, rest: Seq<u8>)
    requires
        bytes.len() <= u32::MAX,
    ensures
        spec_decode_lp(spec_encode_lp(bytes) + rest) == Some(
            (bytes, spec_encode_lp(bytes).len() as int),
        ),
{
    vstd::bytes::lemma_auto_spec_u32_to_from_le_bytes();
    let all = spec_encode_lp(bytes) + rest;
    assert(all.subrange(0, 4) =~= vstd::bytes::spec_u32_to_le_bytes(bytes.len() as u32));
    assert(all.subrange(4, 4 + bytes.len() as int) =~= bytes);
}

/// Append a length-prefixed byte string to `out`. Fails exactly when the
/// byte string is too long for the 32-bit length prefix.
pub fn encode_lp(bytes: &[u8], out: &mut Vec<u8>) -> (ok: bool)
    ensures
        ok == (bytes@.len() <= u32::MAX),
        ok ==> final(out)@ == old(out)@ + spec_encode_lp(bytes@),
        !ok ==> final(out)@ == old(out)@,
{
    if bytes.len() > u32::MAX as usize {
        return false;
    }
    let mut len_bytes = vstd::bytes::u32_to_le_bytes(bytes.len() as u32);
    out.append(&mut len_bytes);
    let mut data = vstd::slice::slice_to_vec(bytes);
    out.append(&mut data);
    assert(out@ =~= old(out)@ + spec_encode_lp(bytes@));
    true
}

/// Decode the length-prefixed byte string at `pos`. Returns the byte string
/// and the position just past it.
pub fn decode_lp(input: &Vec<u8>, pos: usize) -> (r: Option<(Vec<u8>, usize)>)
    requires
        pos <= input@.len(),
    ensures
        match r {
            Some((bytes, end)) => {
                &&& pos < end <= input@.len()
                &&& spec_decode_lp(input@.skip(pos as int)) == Some((bytes@, end - pos))
            },
            None => spec_decode_lp(input@.skip(pos as int)) is None,
        },
{
    let n = input.len();
    if n - pos < 4 {
        return None;
    }
    let len_slice = vstd::slice::slice_subrange(input.as_slice(), pos, pos + 4);
    let len32 = vstd::bytes::u32_from_le_bytes(len_slice);
    proof {
        assert(input@.skip(pos as int).subrange(0, 4) =~= input@.subrange(pos as int, pos + 4));
    }
    let len = len32 as usize;
    if n - (pos + 4) < len {
        return None;
    }
    let data_slice = vstd::slice::slice_subrange(input.as_slice(), pos + 4, pos + 4 + len);
    let data: Vec<u8> = vstd::slice::slice_to_vec(data_slice);
    proof {
        assert(input@.skip(pos as int).subrange(4, 4 + len as int) =~= input@.subrange(
            pos + 4,
            pos + 4 + len as int,
        ));
    }
    Some((data, pos + 4 + len))
}

/// The concatenated encodings of a parameter list.
pub open spec fn spec_encode_params(vs: Seq<ValueView>) -> Seq<u8>
    decreases vs.len(),
{
    if vs.len() == 0 {
        Seq::empty()
    } else {
        spec_encode_value(vs[0]) + spec_encode_params(vs.skip(1))
    }
}

/// A parameter list can be framed when each value can be, and none is
/// `Void`, which has no parameter position.
pub open spec fn spec_params_wf(vs: Seq<ValueView>) -> bool {
    forall|i: int| 0 <= i < vs.len() ==> spec_value_wf(#[trigger] vs[i]) && !(vs[i] is Void)
}

/// Decode `n` consecutive parameter values from the front of `bytes`.
/// Returns the values and the number of bytes they occupied.
pub open spec fn spec_decode_params(bytes: Seq<u8>, n: nat) -> Option<(Seq<ValueView>, int)>
    decreases n,
{
    if n == 0 {
        Some((Seq::empty(), 0))
    } else {
        match spec_decode_value(bytes) {
            Some((DecodedView::Known(v), used)) => if v is Void {
                None
            } else {
                match spec_decode_params(bytes.skip(used), (n - 1) as nat) {
                    Some((rest, used2)) => Some((seq![v] + rest, used + used2)),
                    None => None,
                }
            },
            _ => None,
        }
    }
}

/// Appending one more value to a parameter list appends its encoding.
pub proof fn lemma_encode_params_snoc(vs: Seq<ValueView>, v: ValueView)
    ensures
        spec_encode_params(vs.push(v)) == spec_encode_params(vs) + spec_encode_value(v),
    decreases vs.len(),
{
    if vs.len() == 0 {
        assert(vs.push(v).skip(1) =~= Seq::empty());
        assert(vs.push(v)[0] == v);
        assert(spec_encode_params(vs.push(v)) =~= spec_encode_params(vs) + spec_encode_value(v));
    } else {
        assert(vs.push(v).skip(1) =~= vs.skip(1).push(v));
        lemma_encode_params_snoc(vs.skip(1), v);
        assert(spec_encode_params(vs.push(v)) =~= spec_encode_params(vs) + spec_encode_value(v));
    }
}

/// The round trip for parameter lists: a well-formed list decodes from its
/// own encoding, whatever bytes follow it.
pub proof fn lemma_params_round_trip(vs: Seq<ValueView>, rest: Seq<u8>)
    requires
        spec_params_wf(vs),
    ensures
        spec_decode_params(spec_encode_params(vs) + rest, vs.len()) == Some(
            (vs, spec_encode_params(vs).len() as int),
        ),
    decreases vs.len(),
{
    if vs.len() == 0 {
        assert(spec_encode_params(vs) + rest =~= rest);
    } else {
        let v = vs[0];
        let enc0 = spec_encode_value(v);
        let enc_rest = spec_encode_params(vs.skip(1));
        let all = spec_encode_params(vs) + rest;
        assert(all =~= enc0 + (enc_rest + rest));
        lemma_value_round_trip(v, enc_rest + rest);
        assert(all.skip(enc0.len() as int) =~= enc_rest + rest);
        assert(spec_params_wf(vs.skip(1)));
        lemma_params_round_trip(vs.skip(1), rest);
        assert(seq![v] + vs.skip(1) =~= vs);
    }
}

/// Append the encoding of one parameter value to `out`. Fails exactly when
/// the payload is too large for the 32-bit length prefix.
pub fn encode_param_value(v: &crate::func_types::ParameterValue, out: &mut Vec<u8>) -> (ok: bool)
    ensures
        ok == spec_value_wf(v@),
        ok ==> final(out)@ == old(out)@ + spec_encode_value(v@),
        !ok ==> final(out)@ == old(out)@,
{
    let payload: Vec<u8> = match v {
        crate::func_types::ParameterValue::Int(i) => {
            let u: u32 = #[verifier::truncate] (*i as u32);
            vstd::bytes::u32_to_le_bytes(u)
        },
        crate::func_types::ParameterValue::UInt(u) => vstd::bytes::u32_to_le_bytes(*u),
        crate::func_types::ParameterValue::Long(l) => {
            let u: u64 = #[verifier::truncate] (*l as u64);
            vstd::bytes::u64_to_le_bytes(u)
        },
        crate::func_types::ParameterValue::ULong(u) => vstd::bytes::u64_to_le_bytes(*u),
        crate::func_types::ParameterValue::Bool(b) => {
            let mut p: Vec<u8> = Vec::new();
            p.push(if *b {
                1u8
            } else {
                0u8
            });
            p
        },
        crate::func_types::ParameterValue::Float(f) => vstd::bytes::u32_to_le_bytes(*f),
        crate::func_types::ParameterValue::Double(d) => vstd::bytes::u64_to_le_bytes(*d),
        crate::func_types::ParameterValue::String(s) => s.as_str().as_bytes_vec(),
        crate::func_types::ParameterValue::VecBytes(b) => b.clone(),
    };
    assert(payload@ == spec_payload_of(v@));
    if payload.len() > u32::MAX as usize {
        return false;
    }
    let tag: u8 = match v {
        crate::func_types::ParameterValue::Int(_) => 1u8,
        crate::func_types::ParameterValue::UInt(_) => 2u8,
        crate::func_types::ParameterValue::Long(_) => 3u8,
        crate::func_types::ParameterValue::ULong(_) => 4u8,
        crate::func_types::ParameterValue::Bool(_) => 5u8,
        crate::func_types::ParameterValue::Float(_) => 6u8,
        crate::func_types::ParameterValue::Double(_) => 7u8,
        crate::func_types::ParameterValue::String(_) => 8u8,
        crate::func_types::ParameterValue::VecBytes(_) => 9u8,
    };
    out.push(tag);
    let mut len_bytes = vstd::bytes::u32_to_le_bytes(payload.len() as u32);
    out.append(&mut len_bytes);
    let mut payload = payload;
    out.append(&mut payload);
    assert(out@ =~= old(out)@ + spec_encode_value(v@));
    true
}

/// Decode `count` consecutive parameter values starting at `pos`. Returns
/// the values and the position just past them.
pub fn decode_params(input: &Vec<u8>, pos: usize, count: u32) -> (r: Option<
    (Vec<crate::func_types::ParameterValue>, usize),
>)
    requires
        pos <= input@.len(),
    ensures
        match r {
            Some((ps, end)) => {
                &&& pos <= end <= input@.len()
                &&& spec_decode_params(input@.skip(pos as int), count as nat) == Some(
                    (ps@.map_values(|p: crate::func_types::ParameterValue| p@), end - pos),
                )
            },
            None => spec_decode_params(input@.skip(pos as int), count as nat) is None,
        },
    decreases count,
{
    if count == 0 {
        let ps: Vec<crate::func_types::ParameterValue> = Vec::new();
        assert(ps@.map_values(|p: crate::func_types::ParameterValue| p@) =~= Seq::<
            ValueView,
        >::empty());
        return Some((ps, pos));
    }
    match decode_value(input, pos) {
        Some((DecodedValue::Known(rv), p1)) => {
            match crate::func_types::return_to_param(rv) {
                Some(pv) => {
                    proof {
                        assert(input@.skip(pos as int).skip(p1 - pos) =~= input@.skip(p1 as int));
                    }
                    match decode_params(input, p1, count - 1) {
                        Some((rest, end)) => {
                            let mut ps = rest;
                            ps.insert(0, pv);
                            proof {
                                let f = |p: crate::func_types::ParameterValue| p@;
                                assert(ps@.map_values(f) =~= seq![pv@] + ps@.skip(1).map_values(f));
                            }
                            Some((ps, end))
                        },
                        None => None,
                    }
                },
                None => None,
            }
        },
        Some((DecodedValue::Unknown(_), _)) => None,
        None => None,
    }
}

/// A parameter frame can be framed when the name and each parameter fit
/// their length prefixes.
pub open spec fn spec_call_wf(fc: crate::func_types::FunctionCallView) -> bool {
    &&& vstd::utf8::encode_utf8(fc.function_name).len() <= u32::MAX
    &&& fc.parameters.len() <= u32::MAX
    &&& spec_params_wf(fc.parameters)
}

/// The encoding of a parameter frame: the name, the parameter count, the
/// parameters, and the expected return type.
pub open spec fn spec_encode_call(fc: crate::func_types::FunctionCallView) -> Seq<u8> {
    spec_encode_lp(vstd::utf8::encode_utf8(fc.function_name)) + vstd::bytes::spec_u32_to_le_bytes(
        fc.parameters.len() as u32,
    ) + spec_encode_params(fc.parameters) + seq![spec_return_type_tag(fc.expected_return_type)]
}

/// Decode the parameter frame at the front of `bytes`. Returns the frame and
/// the number of bytes it occupied.
pub open spec fn spec_decode_call(bytes: Seq<u8>) -> Option<
    (crate::func_types::FunctionCallView, int),
> {
    match spec_decode_lp(bytes) {
        Some((name_bytes, p1)) => if !vstd::utf8::valid_utf8(name_bytes) {
            None
        } else {
            if bytes.len() < p1 + 4 {
                None
            } else {
                let count = vstd::bytes::spec_u32_from_le_bytes(
                    bytes.subrange(p1, p1 + 4),
                ) as int;
                match spec_decode_params(bytes.skip(p1 + 4), count as nat) {
                    Some((vals, p2)) => {
                        let p3 = p1 + 4 + p2;
                        if bytes.len() < p3 + 1 {
                            None
                        } else {
                            match spec_return_type_of_tag(bytes[p3]) {
                                Some(rt) => Some(
                                    (
                                        crate::func_types::FunctionCallView {
                                            function_name: vstd::utf8::decode_utf8(name_bytes),
                                            parameters: vals,
                                            expected_return_type: rt,
                                        },
                                        p3 + 1,
                                    ),
                                ),
                                None => None,
                            }
                        }
                    },
                    None => None,
                }
            }
        },
        None => None,
    }
}

/// The round trip for parameter frames: a well-formed frame decodes from its
/// own encoding, whatever bytes follow it in the mailbox.
pub proof fn lemma_call_round_trip(fc: crate::func_types::FunctionCallView, rest: Seq<u8>)
    requires
        spec_call_wf(fc),
    ensures
        spec_decode_call(spec_encode_call(fc) + rest) == Some(
            (fc, spec_encode_call(fc).len() as int),
        ),
{
    broadcast use vstd::utf8::encode_utf8_valid_utf8, vstd::utf8::encode_utf8_decode_utf8;

    vstd::bytes::lemma_auto_spec_u32_to_from_le_bytes();
    let name_bytes = vstd::utf8::encode_utf8(fc.function_name);
    let seg_name = spec_encode_lp(name_bytes);
    let seg_count = vstd::bytes::spec_u32_to_le_bytes(fc.parameters.len() as u32);
    let seg_params = spec_encode_params(fc.parameters);
    let seg_tag = seq![spec_return_type_tag(fc.expected_return_type)];
    let all = spec_encode_call(fc) + rest;
    let p1 = seg_name.len() as int;
    assert(all =~= seg_name + (seg_count + seg_params + seg_tag + rest));
    lemma_lp_round_trip(name_bytes, seg_count + seg_params + seg_tag + rest);
    assert(all.subrange(p1, p1 + 4) =~= seg_count);
    assert(all.skip(p1 + 4) =~= seg_params + (seg_tag + rest));
    lemma_params_round_trip(fc.parameters, seg_tag + rest);
    let p3 = p1 + 4 + seg_params.len() as int;
    assert(all[p3] == spec_return_type_tag(fc.expected_return_type));
    assert(spec_return_type_of_tag(spec_return_type_tag(fc.expected_return_type)) == Some(
        fc.expected_return_type,
    ));
    assert(spec_encode_call(fc).len() as int == p3 + 1);
}

/// Encode a parameter frame for the host-to-guest mailbox. Fails exactly
/// when the frame is too large to be framed.
pub fn encode_function_call(fc: &crate::func_types::FunctionCall) -> (r: Option<Vec<u8>>)
    ensures
        match r {
            Some(b) => spec_call_wf(fc@) && b@ == spec_encode_call(fc@),
            None => !spec_call_wf(fc@),
        },
{
    let ghost pvs = fc@.parameters;
    let mut out: Vec<u8> = Vec::new();
    if !encode_lp(fc.function_name.as_str().as_bytes(), &mut out) {
        return None;
    }
    if fc.parameters.len() > u32::MAX as usize {
        return None;
    }
    let mut count_bytes = vstd::bytes::u32_to_le_bytes(fc.parameters.len() as u32);
    out.append(&mut count_bytes);
    let ghost base = out@;
    let mut i: usize = 0;
    while i < fc.parameters.len()
        invariant
            i <= fc.parameters@.len(),
            pvs == fc@.parameters,
            pvs.len() == fc.parameters@.len(),
            forall|j: int| 0 <= j < i ==> spec_value_wf(#[trigger] pvs[j]),
            out@ == base + spec_encode_params(pvs.take(i as int)),
        decreases fc.parameters@.len() - i,
    {
        let ok = encode_param_value(&fc.parameters[i], &mut out);
        if !ok {
            return None;
        }
        proof {
            lemma_encode_params_snoc(pvs.take(i as int), pvs[i as int]);
            assert(pvs.take(i + 1) =~= pvs.take(i as int).push(pvs[i as int]));
        }
        i += 1;
    }
    proof {
        assert(pvs.take(pvs.len() as int) =~= pvs);
        assert forall|j: int| 0 <= j < pvs.len() implies !(#[trigger] pvs[j] is Void) by {
            assert(pvs[j] == fc.parameters@[j]@);
        }
    }
    out.push(return_type_tag(fc.expected_return_type));
    assert(out@ =~= spec_encode_call(fc@));
    Some(out)
}

/// Decode the parameter frame at `pos` in the mailbox. Returns the frame and
/// the position just past it.
pub fn decode_function_call(input: &Vec<u8>, pos: usize) -> (r: Option<
    (crate::func_types::FunctionCall, usize),
>)
    requires
        pos <= input@.len(),
    ensures
        match r {
            Some((fc, end)) => {
                &&& pos < end <= input@.len()
                &&& spec_decode_call(input@.skip(pos as int)) == Some((fc@, end - pos))
            },
            None => spec_decode_call(input@.skip(pos as int)) is None,
        },
{
    let (name_bytes, p1) = match decode_lp(input, pos) {
        Some(x) => x,
        None => {
            return None;
        },
    };
    let name = match string_from_utf8_vec(name_bytes) {
        Some(s) => {
            proof {
                broadcast use vstd::utf8::encode_utf8_decode_utf8;

            }
            s
        },
        None => {
            return None;
        },
    };
    let n = input.len();
    if n - p1 < 4 {
        return None;
    }
    let count_slice = vstd::slice::slice_subrange(input.as_slice(), p1, p1 + 4);
    let count = vstd::bytes::u32_from_le_bytes(count_slice);
    proof {
        assert(input@.skip(pos as int).subrange(p1 - pos, p1 - pos + 4) =~= input@.subrange(
            p1 as int,
            p1 + 4,
        ));
    }
    proof {
        assert(input@.skip(pos as int).skip(p1 - pos + 4) =~= input@.skip(p1 + 4));
    }
    let (params, p3) = match decode_params(input, p1 + 4, count) {
        Some(x) => x,
        None => {
            return None;
        },
    };
    if n - p3 < 1 {
        return None;
    }
    let rt = match return_type_of_tag(input[p3]) {
        Some(rt) => rt,
        None => {
            return None;
        },
    };
    let fc = crate::func_types::FunctionCall {
        function_name: name,
        parameters: params,
        expected_return_type: rt,
    };
    Some((fc, p3 + 1))
}

/// Decode the return frame at the front of `bytes`: a single wire value of
/// the current schema.
pub open spec fn spec_decode_return(bytes: Seq<u8>) -> Option<ValueView> {
    match spec_decode_value(bytes) {
        Some((DecodedView::Known(v), _)) => Some(v),
        _ => None,
    }
}

/// Encode a return frame for the guest-to-host mailbox. Fails exactly when
/// the value is too large to be framed.
pub fn encode_return_value(v: &ReturnValue) -> (r: Option<Vec<u8>>)
    ensures
        match r {
            Some(b) => spec_value_wf(v@) && b@ == spec_encode_value(v@),
            None => !spec_value_wf(v@),
        },
{
    let mut out: Vec<u8> = Vec::new();
    if encode_value(v, &mut out) {
        Some(out)
    } else {
        None
    }
}

/// Decode the return frame at the front of the mailbox.
pub fn decode_return_value(input: &Vec<u8>) -> (r: Option<ReturnValue>)
    ensures
        match r {
            Some(v) => spec_decode_return(input@) == Some(v@),
            None => spec_decode_return(input@) is None,
        },
{
    proof {
        assert(input@.skip(0) =~= input@);
    }
    match decode_value(input, 0) {
        Some((DecodedValue::Known(v), _)) => Some(v),
        _ => None,
    }
}

/// Every well-formed return value decodes from its own return frame.
pub proof fn lemma_return_round_trip(v: ValueView, rest: Seq<u8>)
    requires
        spec_value_wf(v),
    ensures
        spec_decode_return(spec_encode_value(v) + rest) == Some(v),
{
    lemma_value_round_trip(v, rest);
}

} // verus!
