//! Host-function descriptors, their engine-level types, the serialized
//! registry blob handed to the guest at runtime initialization, and the
//! marshalling seam around an outgoing host call.

use vstd::prelude::*;

use crate::codec::{
    param_type_of_tag, param_type_tag, return_type_of_tag, return_type_tag, spec_decode_lp,
    spec_encode_lp, spec_param_type_of_tag, spec_param_type_tag, spec_return_type_of_tag,
    spec_return_type_tag,
};
use crate::errors::GuestError;
use crate::func_types::{FunctionCall, ParameterType, ReturnType, ReturnValue};
use crate::guest_mem::GuestMemory;
use crate::marshal::{WasmVal, WasmValType};

verus! {

broadcast use vstd::seq_lib::group_seq_properties;

/// Ghost image of a host-function descriptor.
pub ghost struct HostFunctionDefinitionView {
    /// The unique name the guest imports the function under.
    pub function_name: Seq<char>,
    /// The declared parameter types.
    pub parameter_types: Seq<ParameterType>,
    /// The declared return type.
    pub return_type: ReturnType,
}

/// A host-function descriptor: what the registry records about one
/// registered host function.
#[derive(Debug, Clone, PartialEq)]
pub struct HostFunctionDefinition {
    /// The unique name the guest imports the function under.
    pub function_name: String,
    /// The declared parameter types.
    pub parameter_types: Vec<ParameterType>,
    /// The declared return type.
    pub return_type: ReturnType,
}

impl View for HostFunctionDefinition {
    type V = HostFunctionDefinitionView;

    open spec fn view(&self) -> HostFunctionDefinitionView {
        HostFunctionDefinitionView {
            function_name: self.function_name@,
            parameter_types: self.parameter_types@,
            return_type: self.return_type,
        }
    }
}

/// The vector-length convention on a declared parameter list: every
/// `VecBytes` is immediately followed by the `Int` that carries its length.
pub open spec fn spec_params_shape_ok(pts: Seq<ParameterType>) -> bool {
    forall|i: int|
        0 <= i < pts.len() && #[trigger] pts[i] == ParameterType::VecBytes ==> i + 1 < pts.len()
            && pts[i + 1] == ParameterType::Int
}

/// The engine-level type of one declared parameter. Pointers (text and
/// buffers) and the length slots that follow buffers are 32-bit integers.
pub open spec fn spec_param_valtype(pt: ParameterType) -> WasmValType {
    match pt {
        ParameterType::Int => WasmValType::I32,
        ParameterType::UInt => WasmValType::I32,
        ParameterType::Long => WasmValType::I64,
        ParameterType::ULong => WasmValType::I64,
        ParameterType::Bool => WasmValType::I32,
        ParameterType::Float => WasmValType::F32,
        ParameterType::Double => WasmValType::F64,
        ParameterType::String => WasmValType::I32,
        ParameterType::VecBytes => WasmValType::I32,
    }
}

/// The engine-level result types of a declared return type: none for
/// `Void`, otherwise one value; a returned buffer is a 32-bit pointer to a
/// length-prefixed buffer in guest memory.
pub open spec fn spec_engine_results(rt: ReturnType) -> Seq<WasmValType> {
    match rt {
        ReturnType::Void => Seq::empty(),
        ReturnType::Int => seq![WasmValType::I32],
        ReturnType::UInt => seq![WasmValType::I32],
        ReturnType::Long => seq![WasmValType::I64],
        ReturnType::ULong => seq![WasmValType::I64],
        ReturnType::Bool => seq![WasmValType::I32],
        ReturnType::Float => seq![WasmValType::F32],
        ReturnType::Double => seq![WasmValType::F64],
        ReturnType::String => seq![WasmValType::I32],
        ReturnType::VecBytes => seq![WasmValType::I32],
    }
}

/// An engine-level function type: what the linker registers a host
/// function's wrapper under.
#[derive(Debug, Clone, PartialEq)]
pub struct FuncTypeModel {
    /// The engine-level parameter types.
    pub params: Vec<WasmValType>,
    /// The engine-level result types.
    pub results: Vec<WasmValType>,
}

/// Compute the engine-level type of a host function from its descriptor,
/// rejecting a parameter list that breaks the vector-length convention.
#[verifier::rlimit(60)]
pub fn hostfunc_type(d: &HostFunctionDefinition) -> (r: Result<FuncTypeModel, GuestError>)
    ensures
        match r {
            Ok(ft) => {
                &&& spec_params_shape_ok(d@.parameter_types)
                &&& ft.params@ == d@.parameter_types.map_values(
                    |pt: ParameterType| spec_param_valtype(pt),
                )
                &&& ft.results@ == spec_engine_results(d@.return_type)
            },
            Err(e) => e == GuestError::VectorLengthMissing && !spec_params_shape_ok(
                d@.parameter_types,
            ),
        },
{
    let n = d.parameter_types.len();
    let mut params: Vec<WasmValType> = Vec::new();
    let mut i: usize = 0;
    while i < n
        invariant
            n == d.parameter_types@.len(),
            i <= n,
            params@.len() == i,
            forall|k: int|
                0 <= k < i ==> params@[k] == spec_param_valtype(#[trigger] d.parameter_types@[k]),
            forall|k: int|
                0 <= k < i && #[trigger] d.parameter_types@[k] == ParameterType::VecBytes ==> k + 1
                    < n && d.parameter_types@[k + 1] == ParameterType::Int,
        decreases n - i,
    {
        let pt = d.parameter_types[i];
        if matches!(pt, ParameterType::VecBytes) {
            let bad = if i + 1 >= n {
                true
            } else {
                !matches!(d.parameter_types[i + 1], ParameterType::Int)
            };
            if bad {
                return Err(GuestError::VectorLengthMissing);
            }
        }
        let vt = match pt {
            ParameterType::Int => WasmValType::I32,
            ParameterType::UInt => WasmValType::I32,
            ParameterType::Long => WasmValType::I64,
            ParameterType::ULong => WasmValType::I64,
            ParameterType::Bool => WasmValType::I32,
            ParameterType::Float => WasmValType::F32,
            ParameterType::Double => WasmValType::F64,
            ParameterType::String => WasmValType::I32,
            ParameterType::VecBytes => WasmValType::I32,
        };
        params.push(vt);
        i += 1;
    }
    proof {
        assert(params@ =~= d.parameter_types@.map_values(
            |pt: ParameterType| spec_param_valtype(pt),
        ));
    }
    let mut results: Vec<WasmValType> = Vec::new();
    match d.return_type {
        ReturnType::Void => {},
        ReturnType::Int => results.push(WasmValType::I32),
        ReturnType::UInt => results.push(WasmValType::I32),
        ReturnType::Long => results.push(WasmValType::I64),
        ReturnType::ULong => results.push(WasmValType::I64),
        ReturnType::Bool => results.push(WasmValType::I32),
        ReturnType::Float => results.push(WasmValType::F32),
        ReturnType::Double => results.push(WasmValType::F64),
        ReturnType::String => results.push(WasmValType::I32),
        ReturnType::VecBytes => results.push(WasmValType::I32),
    }
    proof {
        assert(results@ =~= spec_engine_results(d@.return_type));
    }
    Ok(FuncTypeModel { params, results })
}

/// The tag bytes of a declared parameter list.
pub open spec fn spec_param_tags(pts: Seq<ParameterType>) -> Seq<u8> {
    pts.map_values(|pt: ParameterType| spec_param_type_tag(pt))
}

/// The declared parameter list that a sequence of tag bytes names, if every
/// byte names one.
pub open spec fn spec_tags_to_params(tags: Seq<u8>) -> Option<Seq<ParameterType>>
    decreases tags.len(),
{
    if tags.len() == 0 {
        Some(Seq::empty())
    } else {
        match spec_param_type_of_tag(tags[0]) {
            Some(pt) => match spec_tags_to_params(tags.skip(1)) {
                Some(rest) => Some(seq![pt] + rest),
                None => None,
            },
            None => None,
        }
    }
}

/// Tag bytes of a parameter list decode back to that list.
pub proof fn lemma_param_tags_round_trip(pts: Seq<ParameterType>)
    ensures
        spec_tags_to_params(spec_param_tags(pts)) == Some(pts),
    decreases pts.len(),
{
    if pts.len() == 0 {
        assert(spec_param_tags(pts) =~= Seq::<u8>::empty());
    } else {
        assert(spec_param_tags(pts).skip(1) =~= spec_param_tags(pts.skip(1)));
        lemma_param_tags_round_trip(pts.skip(1));
        assert(spec_param_type_of_tag(spec_param_type_tag(pts[0])) == Some(pts[0]));
        assert(seq![pts[0]] + pts.skip(1) =~= pts);
    }
}

/// A descriptor fits the registry blob when its name and parameter list fit
/// their length prefixes.
pub open spec fn spec_def_wf(d: HostFunctionDefinitionView) -> bool {
    &&& vstd::utf8::encode_utf8(d.function_name).len() <= u32::MAX
    &&& d.parameter_types.len() <= u32::MAX
}

/// The encoding of one host-function descriptor: the name, the parameter
/// tag bytes, and the return tag.
pub open spec fn spec_encode_def(d: HostFunctionDefinitionView) -> Seq<u8> {
    spec_encode_lp(vstd::utf8::encode_utf8(d.function_name)) + spec_encode_lp(
        spec_param_tags(d.parameter_types),
    ) + seq![spec_return_type_tag(d.return_type)]
}

/// Decode the host-function descriptor at the front of `bytes`. Returns the
/// descriptor and the number of bytes it occupied.
pub open spec fn spec_decode_def(bytes: Seq<u8>) -> Option<(HostFunctionDefinitionView, int)> {
    match spec_decode_lp(bytes) {
        Some((name_bytes, p1)) => if !vstd::utf8::valid_utf8(name_bytes) {
            None
        } else {
            match spec_decode_lp(bytes.skip(p1)) {
                Some((tag_bytes, p2)) => match spec_tags_to_params(tag_bytes) {
                    Some(pts) => if bytes.len() < p1 + p2 + 1 {
                        None
                    } else {
                        match spec_return_type_of_tag(bytes[p1 + p2]) {
                            Some(rt) => Some(
                                (
                                    HostFunctionDefinitionView {
                                        function_name: vstd::utf8::decode_utf8(name_bytes),
                                        parameter_types: pts,
                                        return_type: rt,
                                    },
                                    p1 + p2 + 1,
                                ),
                            ),
                            None => None,
                        }
                    },
                    None => None,
                },
                None => None,
            }
        },
        None => None,
    }
}

/// The round trip for one descriptor, whatever bytes follow it.
pub proof fn lemma_def_round_trip(d: HostFunctionDefinitionView, rest: Seq<u8>)
    requires
        spec_def_wf(d),
    ensures
        spec_decode_def(spec_encode_def(d) + rest) == Some((d, spec_encode_def(d).len() as int)),
{
    broadcast use vstd::utf8::encode_utf8_valid_utf8, vstd::utf8::encode_utf8_decode_utf8;

    let name_bytes = vstd::utf8::encode_utf8(d.function_name);
    let seg_name = spec_encode_lp(name_bytes);
    let tag_bytes = spec_param_tags(d.parameter_types);
    let seg_tags = spec_encode_lp(tag_bytes);
    let seg_rt = seq![spec_return_type_tag(d.return_type)];
    let all = spec_encode_def(d) + rest;
    assert(all =~= seg_name + (seg_tags + seg_rt + rest));
    crate::codec::lemma_lp_round_trip(name_bytes, seg_tags + seg_rt + rest);
    let p1 = seg_name.len() as int;
    assert(all.skip(p1) =~= seg_tags + (seg_rt + rest));
    crate::codec::lemma_lp_round_trip(tag_bytes, seg_rt + rest);
    lemma_param_tags_round_trip(d.parameter_types);
    let p2 = seg_tags.len() as int;
    assert(all[p1 + p2] == spec_return_type_tag(d.return_type));
    assert(spec_return_type_of_tag(spec_return_type_tag(d.return_type)) == Some(d.return_type));
}

/// The concatenated encodings of a descriptor list.
pub open spec fn spec_encode_defs(ds: Seq<HostFunctionDefinitionView>) -> Seq<u8>
    decreases ds.len(),
{
    if ds.len() == 0 {
        Seq::empty()
    } else {
        spec_encode_def(ds[0]) + spec_encode_defs(ds.skip(1))
    }
}

/// Every descriptor of the list fits the registry blob.
pub open spec fn spec_defs_wf(ds: Seq<HostFunctionDefinitionView>) -> bool {
    forall|i: int| 0 <= i < ds.len() ==> spec_def_wf(#[trigger] ds[i])
}

/// Appending one more descriptor appends its encoding.
pub proof fn lemma_encode_defs_snoc(ds: Seq<HostFunctionDefinitionView>, d: HostFunctionDefinitionView)
    ensures
        spec_encode_defs(ds.push(d)) == spec_encode_defs(ds) + spec_encode_def(d),
    decreases ds.len(),
{
    if ds.len() == 0 {
        assert(ds.push(d).skip(1) =~= Seq::empty());
        assert(ds.push(d)[0] == d);
        assert(spec_encode_defs(ds.push(d)) =~= spec_encode_defs(ds) + spec_encode_def(d));
    } else {
        assert(ds.push(d).skip(1) =~= ds.skip(1).push(d));
        lemma_encode_defs_snoc(ds.skip(1), d);
        assert(spec_encode_defs(ds.push(d)) =~= spec_encode_defs(ds) + spec_encode_def(d));
    }
}

/// Decode `n` consecutive descriptors from the front of `bytes`. Returns
/// the descriptors and the number of bytes they occupied.
pub open spec fn spec_decode_defs(bytes: Seq<u8>, n: nat) -> Option<
    (Seq<HostFunctionDefinitionView>, int),
>
    decreases n,
{
    if n == 0 {
        Some((Seq::empty(), 0))
    } else {
        match spec_decode_def(bytes) {
            Some((d, used)) => match spec_decode_defs(bytes.skip(used), (n - 1) as nat) {
                Some((rest, used2)) => Some((seq![d] + rest, used + used2)),
                None => None,
            },
            None => None,
        }
    }
}

/// The round trip for descriptor lists, whatever bytes follow them.
pub proof fn lemma_defs_round_trip(ds: Seq<HostFunctionDefinitionView>, rest: Seq<u8>)
    requires
        spec_defs_wf(ds),
    ensures
        spec_decode_defs(spec_encode_defs(ds) + rest, ds.len()) == Some(
            (ds, spec_encode_defs(ds).len() as int),
        ),
    decreases ds.len(),
{
    if ds.len() == 0 {
        assert(spec_encode_defs(ds) + rest =~= rest);
    } else {
        let d = ds[0];
        let enc0 = spec_encode_def(d);
        let enc_rest = spec_encode_defs(ds.skip(1));
        let all = spec_encode_defs(ds) + rest;
        assert(all =~= enc0 + (enc_rest + rest));
        lemma_def_round_trip(d, enc_rest + rest);
        assert(all.skip(enc0.len() as int) =~= enc_rest + rest);
        assert(spec_defs_wf(ds.skip(1)));
        lemma_defs_round_trip(ds.skip(1), rest);
        assert(seq![d] + ds.skip(1) =~= ds);
    }
}

/// The registry blob handed to the guest at runtime initialization: the
/// descriptor count, then the descriptors.
pub open spec fn spec_encode_registry(ds: Seq<HostFunctionDefinitionView>) -> Seq<u8> {
    vstd::bytes::spec_u32_to_le_bytes(ds.len() as u32) + spec_encode_defs(ds)
}

/// Decode the registry blob at the front of `bytes`.
pub open spec fn spec_decode_registry(bytes: Seq<u8>) -> Option<Seq<HostFunctionDefinitionView>> {
    if bytes.len() < 4 {
        None
    } else {
        let count = vstd::bytes::spec_u32_from_le_bytes(bytes.subrange(0, 4)) as int;
        match spec_decode_defs(bytes.skip(4), count as nat) {
            Some((ds, _)) => Some(ds),
            None => None,
        }
    }
}

/// The round trip for the registry blob, whatever bytes follow it in the
/// init buffer.
pub proof fn lemma_registry_round_trip(ds: Seq<HostFunctionDefinitionView>, rest: Seq<u8>)
    requires
        spec_defs_wf(ds),
        ds.len() <= u32::MAX,
    ensures
        spec_decode_registry(spec_encode_registry(ds) + rest) == Some(ds),
{
    vstd::bytes::lemma_auto_spec_u32_to_from_le_bytes();
    let all = spec_encode_registry(ds) + rest;
    assert(all.subrange(0, 4) =~= vstd::bytes::spec_u32_to_le_bytes(ds.len() as u32));
    assert(all.skip(4) =~= spec_encode_defs(ds) + rest);
    lemma_defs_round_trip(ds, rest);
}

/// Encode the host-function registry for the guest. Fails exactly when some
/// descriptor, or the registry itself, does not fit its length prefixes.
pub fn encode_registry(ds: &Vec<HostFunctionDefinition>) -> (r: Option<Vec<u8>>)
    ensures
        match r {
            Some(b) => {
                &&& spec_defs_wf(ds@.map_values(|d: HostFunctionDefinition| d@))
                &&& ds@.len() <= u32::MAX
                &&& b@ == spec_encode_registry(ds@.map_values(|d: HostFunctionDefinition| d@))
            },
            None => !(spec_defs_wf(ds@.map_values(|d: HostFunctionDefinition| d@)) && ds@.len()
                <= u32::MAX),
        },
{
    let ghost dvs = ds@.map_values(|d: HostFunctionDefinition| d@);
    if ds.len() > u32::MAX as usize {
        return None;
    }
    let mut out = vstd::bytes::u32_to_le_bytes(ds.len() as u32);
    let ghost base = out@;
    let mut i: usize = 0;
    while i < ds.len()
        invariant
            i <= ds@.len(),
            dvs == ds@.map_values(|d: HostFunctionDefinition| d@),
            dvs.len() == ds@.len(),
            forall|j: int| 0 <= j < i ==> spec_def_wf(#[trigger] dvs[j]),
            out@ == base + spec_encode_defs(dvs.take(i as int)),
        decreases ds@.len() - i,
    {
        let d = &ds[i];
        assert(d@ == dvs[i as int]);
        if !encode_def(d, &mut out) {
            return None;
        }
        proof {
            lemma_encode_defs_snoc(dvs.take(i as int), dvs[i as int]);
            assert(dvs.take(i + 1) =~= dvs.take(i as int).push(dvs[i as int]));
        }
        i += 1;
    }
    proof {
        assert(dvs.take(dvs.len() as int) =~= dvs);
    }
    Some(out)
}

/// Append the encoding of one descriptor to `out`. Fails exactly when the
/// descriptor does not fit its length prefixes.
fn encode_def(d: &HostFunctionDefinition, out: &mut Vec<u8>) -> (ok: bool)
    ensures
        ok == spec_def_wf(d@),
        ok ==> final(out)@ == old(out)@ + spec_encode_def(d@),
        !ok ==> final(out)@ == old(out)@,
{
    let ghost start = out@;
    let n = d.parameter_types.len();
    if d.function_name.as_str().as_bytes().len() > u32::MAX as usize {
        return false;
    }
    if n > u32::MAX as usize {
        proof {
            assert(spec_param_tags(d@.parameter_types).len() == n);
        }
        return false;
    }
    let ok_name = crate::codec::encode_lp(d.function_name.as_str().as_bytes(), out);
    assert(ok_name);
    let mut tags: Vec<u8> = Vec::new();
    let mut i: usize = 0;
    while i < n
        invariant
            n == d.parameter_types@.len(),
            i <= n,
            tags@ == spec_param_tags(d.parameter_types@.take(i as int)),
        decreases n - i,
    {
        tags.push(param_type_tag(d.parameter_types[i]));
        proof {
            assert(d.parameter_types@.take(i + 1) =~= d.parameter_types@.take(i as int).push(
                d.parameter_types@[i as int],
            ));
            assert(tags@ =~= spec_param_tags(d.parameter_types@.take(i + 1)));
        }
        i += 1;
    }
    proof {
        assert(d.parameter_types@.take(n as int) =~= d.parameter_types@);
    }
    let ok = crate::codec::encode_lp(tags.as_slice(), out);
    assert(ok);
    out.push(return_type_tag(d.return_type));
    assert(out@ =~= start + spec_encode_def(d@));
    true
}

/// Decode the host-function registry blob, as the guest does at runtime
/// initialization.
pub fn decode_registry(input: &Vec<u8>) -> (r: Option<Vec<HostFunctionDefinition>>)
    ensures
        match r {
            Some(ds) => spec_decode_registry(input@) == Some(
                ds@.map_values(|d: HostFunctionDefinition| d@),
            ),
            None => spec_decode_registry(input@) is None,
        },
{
    if input.len() < 4 {
        return None;
    }
    let count_slice = vstd::slice::slice_subrange(input.as_slice(), 0, 4);
    let count = vstd::bytes::u32_from_le_bytes(count_slice);
    proof {
        assert(input@.subrange(0, 4) =~= count_slice@);
    }
    match decode_defs_rec(input, 4, count) {
        Some((ds, _)) => Some(ds),
        None => None,
    }
}

/// The recursive worker behind `decode_registry`.
#[verifier::rlimit(60)]
fn decode_defs_rec(input: &Vec<u8>, pos: usize, count: u32) -> (r: Option<
    (Vec<HostFunctionDefinition>, usize),
>)
    requires
        pos <= input@.len(),
    ensures
        match r {
            Some((ds, end)) => {
                &&& pos <= end <= input@.len()
                &&& spec_decode_defs(input@.skip(pos as int), count as nat) == Some(
                    (ds@.map_values(|d: HostFunctionDefinition| d@), end - pos),
                )
            },
            None => spec_decode_defs(input@.skip(pos as int), count as nat) is None,
        },
    decreases count,
{
    let ghost f = |d: HostFunctionDefinition| d@;
    if count == 0 {
        let ds: Vec<HostFunctionDefinition> = Vec::new();
        assert(ds@.map_values(f) =~= Seq::<HostFunctionDefinitionView>::empty());
        return Some((ds, pos));
    }
    match decode_def(input, pos) {
        Some((d, p1)) => {
            proof {
                assert(input@.skip(pos as int).skip(p1 - pos) =~= input@.skip(p1 as int));
            }
            match decode_defs_rec(input, p1, count - 1) {
                Some((rest, end)) => {
                    let mut ds = rest;
                    ds.insert(0, d);
                    proof {
                        assert(ds@.map_values(f) =~= seq![ds@[0]@] + ds@.skip(1).map_values(f));
                    }
                    Some((ds, end))
                },
                None => None,
            }
        },
        None => None,
    }
}

/// Decode one descriptor at `pos`.
fn decode_def(input: &Vec<u8>, pos: usize) -> (r: Option<(HostFunctionDefinition, usize)>)
    requires
        pos <= input@.len(),
    ensures
        match r {
            Some((d, end)) => {
                &&& pos < end <= input@.len()
                &&& spec_decode_def(input@.skip(pos as int)) == Some((d@, end - pos))
            },
            None => spec_decode_def(input@.skip(pos as int)) is None,
        },
{
    let (name_bytes, p1) = match crate::codec::decode_lp(input, pos) {
        Some(x) => x,
        None => {
            return None;
        },
    };
    let name = match crate::codec::string_from_utf8_vec(name_bytes) {
        Some(s) => {
            proof {
                broadcast use vstd::utf8::encode_utf8_decode_utf8;

            }
            s
        },
        None => {
            return None;
        },
    };
    proof {
        assert(input@.skip(pos as int).skip(p1 - pos) =~= input@.skip(p1 as int));
    }
    let (tag_bytes, p2) = match crate::codec::decode_lp(input, p1) {
        Some(x) => x,
        None => {
            return None;
        },
    };
    let pts = match tags_to_params(&tag_bytes) {
        Some(x) => x,
        None => {
            return None;
        },
    };
    if input.len() - p2 < 1 {
        return None;
    }
    proof {
        assert(input@.skip(pos as int)[p2 - pos] == input@[p2 as int]);
    }
    let rt = match return_type_of_tag(input[p2]) {
        Some(rt) => rt,
        None => {
            return None;
        },
    };
    Some(
        (
            HostFunctionDefinition { function_name: name, parameter_types: pts, return_type: rt },
            p2 + 1,
        ),
    )
}

/// Map tag bytes back to a declared parameter list, if every byte names
/// one.
fn tags_to_params(tags: &Vec<u8>) -> (r: Option<Vec<ParameterType>>)
    ensures
        match r {
            Some(pts) => spec_tags_to_params(tags@) == Some(pts@),
            None => spec_tags_to_params(tags@) is None,
        },
{
    tags_to_params_rec(tags, 0)
}

/// The recursive worker behind `tags_to_params`.
fn tags_to_params_rec(tags: &Vec<u8>, i: usize) -> (r: Option<Vec<ParameterType>>)
    requires
        i <= tags@.len(),
    ensures
        match r {
            Some(pts) => spec_tags_to_params(tags@.skip(i as int)) == Some(pts@),
            None => spec_tags_to_params(tags@.skip(i as int)) is None,
        },
    decreases tags@.len() - i,
{
    if i >= tags.len() {
        let pts: Vec<ParameterType> = Vec::new();
        assert(pts@ =~= Seq::<ParameterType>::empty());
        return Some(pts);
    }
    proof {
        assert(tags@.skip(i as int)[0] == tags@[i as int]);
        assert(tags@.skip(i as int).skip(1) =~= tags@.skip(i + 1));
    }
    let pt = match param_type_of_tag(tags[i]) {
        Some(pt) => pt,
        None => {
            return None;
        },
    };
    match tags_to_params_rec(tags, i + 1) {
        Some(mut pts) => {
            pts.insert(0, pt);
            proof {
                assert(pts@ =~= seq![pts@[0]] + pts@.skip(1));
            }
            Some(pts)
        },
        None => None,
    }
}

/// Marshal guest-provided engine arguments into the parameter frame of an
/// outgoing host call. The driver carries the frame across the boundary.
pub fn prepare_host_call(
    mem: &GuestMemory,
    d: &HostFunctionDefinition,
    vals: &Vec<WasmVal>,
) -> (r: Result<FunctionCall, GuestError>)
    requires
        mem@.wf(),
    ensures
        match crate::marshal::spec_vals_to_params(mem@.mem, d@.parameter_types, vals@, None) {
            Ok(vs) => r matches Ok(fc) && fc@.function_name == d@.function_name && fc@.parameters
                == vs && fc@.expected_return_type == d@.return_type,
            Err(e) => r == Err::<FunctionCall, GuestError>(e),
        },
{
    let params = match crate::marshal::val_to_hl_param(mem, &d.parameter_types, vals) {
        Ok(ps) => ps,
        Err(e) => {
            return Err(e);
        },
    };
    Ok(
        FunctionCall {
            function_name: d.function_name.clone(),
            parameters: params,
            expected_return_type: d.return_type,
        },
    )
}

/// Check a host function's wire return value against its declared return
/// type and marshal it back into an engine value for the waiting guest
/// code.
pub fn finish_host_call(
    mem: &mut GuestMemory,
    d: &HostFunctionDefinition,
    rv: &ReturnValue,
) -> (r: Result<WasmVal, GuestError>)
    requires
        old(mem)@.wf(),
    ensures
        final(mem)@.wf(),
        crate::func_types::spec_return_type_of(rv@) != d@.return_type ==> r == Err::<
            WasmVal,
            GuestError,
        >(GuestError::ReturnTypeMismatch) && final(mem)@ == old(mem)@,
        crate::func_types::spec_return_type_of(rv@) == d@.return_type ==> (
        match crate::marshal::spec_scalar_to_val(rv@) {
            Some(v) => r == Ok::<WasmVal, GuestError>(v) && final(mem)@ == old(mem)@,
            None => (match rv@ {
                crate::func_types::ValueView::Str(s) => crate::marshal::marshalled_cstr(
                    old(mem)@,
                    final(mem)@,
                    s,
                    r,
                ),
                crate::func_types::ValueView::Bytes(b) => crate::marshal::marshalled_buffer(
                    old(mem)@,
                    final(mem)@,
                    b,
                    r,
                ),
                crate::func_types::ValueView::Void => r == Ok::<WasmVal, GuestError>(
                    WasmVal::I32(0),
                ) && final(mem)@ == old(mem)@,
                _ => false,
            }),
        }),
{
    let actual = crate::func_types::return_type_from_val(rv);
    if actual != d.return_type {
        return Err(GuestError::ReturnTypeMismatch);
    }
    crate::marshal::hl_return_to_val(mem, rv)
}

} // verus!
