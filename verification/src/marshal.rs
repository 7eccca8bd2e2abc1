//! Parameter and return value marshalling between wire values and
//! engine-level values.
//!
//! Scalars pass by value; bools are widened to `i32` (0/1); floats pass as
//! their bit patterns. Strings and byte buffers are reference types: the
//! sender allocates in the receiver's linear memory and passes a pointer.
//! Strings are written with a NUL terminator; a byte-buffer return is a
//! pointer to a 4-byte little-endian length followed by the payload.

use vstd::prelude::*;

use crate::errors::GuestError;
use crate::func_types::{ParameterValue, ValueView};
use crate::guest_mem::{spec_cstr_at, Block, GuestMemory};

verus! {

broadcast use vstd::seq_lib::group_seq_properties;

/// An engine-level value. Floats are carried as their bit patterns.
#[derive(Debug, Clone, Copy, PartialEq, Eq, Structural)]
pub enum WasmVal {
    /// A 32-bit integer.
    I32(i32),
    /// A 64-bit integer.
    I64(i64),
    /// A 32-bit float, as its bit pattern.
    F32(u32),
    /// A 64-bit float, as its bit pattern.
    F64(u64),
}

/// An engine-level value type.
#[derive(Debug, Clone, Copy, PartialEq, Eq, Structural)]
pub enum WasmValType {
    /// 32-bit integers.
    I32,
    /// 64-bit integers.
    I64,
    /// 32-bit floats.
    F32,
    /// 64-bit floats.
    F64,
}

/// How a scalar wire value passes into the engine by value. Reference
/// values (text and buffers) pass through guest memory instead.
pub open spec fn spec_scalar_to_val(v: ValueView) -> Option<WasmVal> {
    match v {
        ValueView::Int(i) => Some(WasmVal::I32(i)),
        ValueView::UInt(u) => Some(WasmVal::I32(u as i32)),
        ValueView::Long(l) => Some(WasmVal::I64(l)),
        ValueView::ULong(u) => Some(WasmVal::I64(u as i64)),
        ValueView::Bool(b) => Some(
            WasmVal::I32(
                if b {
                    1
                } else {
                    0
                },
            ),
        ),
        ValueView::Float(f) => Some(WasmVal::F32(f)),
        ValueView::Double(d) => Some(WasmVal::F64(d)),
        ValueView::Str(_) => None,
        ValueView::Bytes(_) => None,
        ValueView::Void => None,
    }
}

/// The bytes a string occupies in guest memory: its UTF-8 encoding and the
/// NUL terminator.
pub open spec fn spec_cstr_bytes(s: Seq<char>) -> Seq<u8> {
    vstd::utf8::encode_utf8(s) + seq![0u8]
}

/// A byte string written before a NUL terminator reads back exactly.
pub proof fn lemma_cstr_at_written(mem: Seq<u8>, addr: int, bytes: Seq<u8>)
    requires
        0 <= addr,
        addr + bytes.len() + 1 <= mem.len(),
        forall|i: int| 0 <= i < bytes.len() ==> bytes[i] != 0,
        forall|i: int| 0 <= i < bytes.len() ==> mem[addr + i] == bytes[i],
        mem[addr + bytes.len()] == 0,
    ensures
        spec_cstr_at(mem, addr) == Some(bytes),
    decreases bytes.len(),
{
    if bytes.len() == 0 {
        assert(mem[addr] == 0);
    } else {
        assert(mem[addr] == bytes[0]);
        lemma_cstr_at_written(mem, addr + 1, bytes.skip(1));
        assert(seq![mem[addr]] + bytes.skip(1) =~= bytes);
    }
}

/// Convert a wire parameter value to an engine value for a guest-function
/// call.
///
/// Text and byte buffers are allocated in the guest's memory and passed as
/// pointers; ownership of those allocations transfers to the guest, which
/// must free them.
pub fn hl_param_to_val(mem: &mut GuestMemory, param: &ParameterValue) -> (r: Result<
    WasmVal,
    GuestError,
>)
    requires
        old(mem)@.wf(),
    ensures
        final(mem)@.wf(),
        final(mem)@.mem.len() == old(mem)@.mem.len(),
        match spec_scalar_to_val(param@) {
            Some(v) => r == Ok::<WasmVal, GuestError>(v) && final(mem)@ == old(mem)@,
            None => (match param@ {
                ValueView::Str(s) => marshalled_cstr(old(mem)@, final(mem)@, s, r),
                ValueView::Bytes(b) => marshalled_buffer(old(mem)@, final(mem)@, b, r),
                _ => false,
            }),
        },
{
    match param {
        ParameterValue::Int(i) => Ok(WasmVal::I32(*i)),
        ParameterValue::UInt(u) => Ok(WasmVal::I32(#[verifier::truncate] (*u as i32))),
        ParameterValue::Long(l) => Ok(WasmVal::I64(*l)),
        ParameterValue::ULong(u) => Ok(WasmVal::I64(#[verifier::truncate] (*u as i64))),
        ParameterValue::Bool(b) => Ok(
            WasmVal::I32(
                if *b {
                    1
                } else {
                    0
                },
            ),
        ),
        ParameterValue::Float(f) => Ok(WasmVal::F32(*f)),
        ParameterValue::Double(d) => Ok(WasmVal::F64(*d)),
        ParameterValue::String(s) => {
            let bytes = s.as_str().as_bytes_vec();
            if contains_nul(&bytes) {
                return Err(GuestError::InteriorNul);
            }
            if bytes.len() >= u32::MAX as usize {
                return Err(GuestError::FrameTooLarge);
            }
            let n = bytes.len() as u32;
            let addr = match mem.malloc(n + 1) {
                Ok(a) => a,
                Err(e) => {
                    return Err(e);
                },
            };
            let mut cbytes = bytes;
            cbytes.push(0u8);
            assert(cbytes@ =~= spec_cstr_bytes(s@));
            let w = mem.write(addr, cbytes.as_slice());
            assert(w is Ok);
            proof {
                let nm = mem@.mem;
                assert forall|i: int| 0 <= i < vstd::utf8::encode_utf8(s@).len() implies nm[addr
                    + i] == vstd::utf8::encode_utf8(s@)[i] by {
                    assert(nm[addr + i] == cbytes@[i]);
                }
                assert(nm[addr + vstd::utf8::encode_utf8(s@).len()] == 0);
                lemma_cstr_at_written(nm, addr as int, vstd::utf8::encode_utf8(s@));
            }
            Ok(WasmVal::I32(addr as i32))
        },
        ParameterValue::VecBytes(b) => {
            if b.len() >= u32::MAX as usize {
                return Err(GuestError::FrameTooLarge);
            }
            let n = b.len() as u32;
            let addr = match mem.malloc(n) {
                Ok(a) => a,
                Err(e) => {
                    return Err(e);
                },
            };
            let w = mem.write(addr, b.as_slice());
            assert(w is Ok);
            proof {
                assert(mem@.mem.subrange(addr as int, addr + b@.len()) =~= b@);
            }
            Ok(WasmVal::I32(addr as i32))
        },
    }
}

/// What marshalling a string into guest memory achieves: on success the
/// returned pointer leads to the NUL-terminated UTF-8 text, registered as a
/// live allocation, with all other memory untouched.
pub open spec fn marshalled_cstr(
    om: crate::guest_mem::GuestMemoryView,
    nm: crate::guest_mem::GuestMemoryView,
    s: Seq<char>,
    r: Result<WasmVal, GuestError>,
) -> bool {
    match r {
        Ok(v) => (match v {
            WasmVal::I32(p) => {
                &&& 0 <= p
                &&& spec_cstr_bytes(s).len() <= u32::MAX
                &&& !vstd::utf8::encode_utf8(s).contains(0u8)
                &&& spec_cstr_at(nm.mem, p as int) == Some(vstd::utf8::encode_utf8(s))
                &&& nm.allocs == om.allocs.push(
                    Block { addr: p as u32, len: spec_cstr_bytes(s).len() as u32 },
                )
                &&& forall|k: int|
                    0 <= k < om.mem.len() && !(p <= k < p + spec_cstr_bytes(s).len())
                        ==> nm.mem[k] == om.mem[k]
                &&& forall|i: int|
                    0 <= i < om.allocs.len() ==> spec_disjoint_from(
                        p as u32,
                        spec_cstr_bytes(s).len() as u32,
                        #[trigger] om.allocs[i],
                    )
            },
            _ => false,
        }),
        Err(e) => {
            &&& nm == om
            &&& (e == GuestError::InteriorNul || e == GuestError::FrameTooLarge || e
                == GuestError::OutOfMemory)
            &&& (e == GuestError::InteriorNul <==> vstd::utf8::encode_utf8(s).contains(0u8))
            &&& (e == GuestError::FrameTooLarge <==> !vstd::utf8::encode_utf8(s).contains(0u8)
                && vstd::utf8::encode_utf8(s).len() >= u32::MAX)
            &&& (e == GuestError::OutOfMemory <==> !vstd::utf8::encode_utf8(s).contains(0u8)
                && vstd::utf8::encode_utf8(s).len() < u32::MAX && !om.has_free_of_len(
                spec_cstr_bytes(s).len() as u32,
            ) && om.next + spec_cstr_bytes(s).len() > om.mem.len())
        },
    }
}

/// What marshalling a byte buffer into guest memory achieves: on success
/// the returned pointer leads to the bytes, registered as a live
/// allocation, with all other memory untouched.
pub open spec fn marshalled_buffer(
    om: crate::guest_mem::GuestMemoryView,
    nm: crate::guest_mem::GuestMemoryView,
    b: Seq<u8>,
    r: Result<WasmVal, GuestError>,
) -> bool {
    match r {
        Ok(v) => (match v {
            WasmVal::I32(p) => {
                &&& 0 <= p
                &&& b.len() <= u32::MAX
                &&& nm.mem.subrange(p as int, p + b.len()) == b
                &&& nm.allocs == om.allocs.push(Block { addr: p as u32, len: b.len() as u32 })
                &&& forall|k: int|
                    0 <= k < om.mem.len() && !(p <= k < p + b.len()) ==> nm.mem[k] == om.mem[k]
                &&& forall|i: int|
                    0 <= i < om.allocs.len() ==> spec_disjoint_from(
                        p as u32,
                        b.len() as u32,
                        #[trigger] om.allocs[i],
                    )
            },
            _ => false,
        }),
        Err(e) => {
            &&& nm == om
            &&& (e == GuestError::FrameTooLarge || e == GuestError::OutOfMemory)
            &&& (e == GuestError::FrameTooLarge <==> b.len() >= u32::MAX)
            &&& (e == GuestError::OutOfMemory <==> b.len() < u32::MAX && !om.has_free_of_len(
                b.len() as u32,
            ) && om.next + b.len() > om.mem.len())
        },
    }
}

/// The block starting at `addr` with length `len` is disjoint from `b`.
pub open spec fn spec_disjoint_from(addr: u32, len: u32, b: Block) -> bool {
    crate::guest_mem::spec_disjoint(Block { addr, len }, b)
}

/// Whether any byte of `bytes` is NUL.
fn contains_nul(bytes: &Vec<u8>) -> (r: bool)
    ensures
        r == bytes@.contains(0u8),
{
    let mut i: usize = 0;
    while i < bytes.len()
        invariant
            i <= bytes@.len(),
            forall|k: int| 0 <= k < i ==> bytes@[k] != 0,
        decreases bytes@.len() - i,
    {
        if bytes[i] == 0 {
            assert(bytes@.contains(0u8));
            return true;
        }
        i += 1;
    }
    assert(!bytes@.contains(0u8));
    false
}

/// Removing an element keeps every other element present.
pub proof fn lemma_remove_contains(s: Seq<Block>, i: int, b: Block)
    requires
        0 <= i < s.len(),
        s.remove(i).contains(b),
    ensures
        s.contains(b),
{
    let w = choose|w: int| 0 <= w < s.remove(i).len() && s.remove(i)[w] == b;
    if w < i {
        assert(s[w] == b);
    } else {
        assert(s[w + 1] == b);
    }
}

/// Pushing keeps every element present.
pub proof fn lemma_push_contains(s: Seq<Block>, x: Block, b: Block)
    requires
        s.contains(b) || b == x,
    ensures
        s.push(x).contains(b),
{
    if b == x {
        assert(s.push(x)[s.len() as int] == x);
    } else {
        let w = choose|w: int| 0 <= w < s.len() && s[w] == b;
        assert(s.push(x)[w] == b);
    }
}

/// Record a guest allocation returned across the boundary; it will be freed
/// on the next VM entry.
pub fn track_return_value_allocation(tracker: &mut Vec<u32>, addr: u32)
    ensures
        final(tracker)@ == old(tracker)@.push(addr),
{
    tracker.push(addr);
}

/// Some block that was live in `om` at address `a` is a reusable free
/// block of `nm`.
pub open spec fn spec_block_freed(
    om: crate::guest_mem::GuestMemoryView,
    nm: crate::guest_mem::GuestMemoryView,
    a: u32,
) -> bool {
    exists|b: Block| om.allocs.contains(b) && b.addr == a && nm.free_blocks.contains(b)
}

/// The addresses in `tracker` are pairwise distinct and all start live
/// allocations of `m`.
pub open spec fn spec_tracked_live(m: crate::guest_mem::GuestMemoryView, addrs: Seq<u32>) -> bool {
    &&& forall|i: int, j: int|
        0 <= i < addrs.len() && 0 <= j < addrs.len() && i != j ==> addrs[i] != addrs[j]
    &&& forall|i: int| 0 <= i < addrs.len() ==> m.has_alloc(#[trigger] addrs[i])
}

/// Free all tracked return-value allocations from previous VM calls. This
/// runs at every VM entry, before new parameters are marshalled, and is the
/// sole mechanism that keeps guest-heap usage bounded across calls.
pub fn free_return_value_allocations(mem: &mut GuestMemory, tracker: &mut Vec<u32>) -> (r: Result<
    (),
    GuestError,
>)
    requires
        old(mem)@.wf(),
    ensures
        final(mem)@.wf(),
        final(mem)@.mem == old(mem)@.mem,
        final(mem)@.next == old(mem)@.next,
        r is Ok ==> final(tracker)@.len() == 0,
        r is Ok ==> final(mem)@.allocs.len() + old(tracker)@.len() == old(mem)@.allocs.len(),
        r is Ok ==> forall|b: Block|
            final(mem)@.allocs.contains(b) ==> old(mem)@.allocs.contains(b),
        r is Ok ==> forall|j: int|
            0 <= j < old(tracker)@.len() ==> spec_block_freed(
                old(mem)@,
                final(mem)@,
                #[trigger] old(tracker)@[j],
            ),
        spec_tracked_live(old(mem)@, old(tracker)@) ==> r is Ok,
        r matches Err(e) ==> e == GuestError::OutOfBounds,
{
    let ghost hyp = spec_tracked_live(old(mem)@, old(tracker)@);
    while tracker.len() > 0
        invariant
            mem@.wf(),
            mem@.mem == old(mem)@.mem,
            mem@.next == old(mem)@.next,
            tracker@.len() <= old(tracker)@.len(),
            tracker@ == old(tracker)@.take(tracker@.len() as int),
            mem@.allocs.len() + (old(tracker)@.len() - tracker@.len()) == old(mem)@.allocs.len(),
            forall|b: Block| mem@.allocs.contains(b) ==> old(mem)@.allocs.contains(b),
            forall|j: int|
                tracker@.len() <= j < old(tracker)@.len() ==> spec_block_freed(
                    old(mem)@,
                    mem@,
                    #[trigger] old(tracker)@[j],
                ),
            hyp == spec_tracked_live(old(mem)@, old(tracker)@),
            hyp ==> forall|j: int|
                0 <= j < tracker@.len() ==> mem@.has_alloc(#[trigger] tracker@[j]),
        decreases tracker@.len(),
    {
        let ghost pre_mem = mem@;
        let ghost pre_tracker = tracker@;
        let a = tracker[tracker.len() - 1];
        tracker.pop();
        proof {
            assert(tracker@ =~= old(tracker)@.take(tracker@.len() as int));
            assert(a == old(tracker)@[tracker@.len() as int]);
        }
        let fr = mem.free(a);
        match fr {
            Ok(()) => {
                proof {
                    let i = choose|i: int|
                        0 <= i < pre_mem.allocs.len() && (#[trigger] pre_mem.allocs[i]).addr == a
                            && mem@.allocs == pre_mem.allocs.remove(i) && mem@.free_blocks
                            == pre_mem.free_blocks.push(pre_mem.allocs[i]);
                    let fb = pre_mem.allocs[i];
                    // The freed block is present afterwards, and earlier
                    // freed blocks stay present.
                    assert(mem@.free_blocks.contains(fb)) by {
                        lemma_push_contains(pre_mem.free_blocks, fb, fb);
                    }
                    assert(old(mem)@.allocs.contains(fb));
                    assert forall|j: int|
                        tracker@.len() + 1 <= j < old(tracker)@.len() implies spec_block_freed(
                        old(mem)@,
                        mem@,
                        #[trigger] old(tracker)@[j],
                    ) by {
                        let b = choose|b: Block|
                            old(mem)@.allocs.contains(b) && b.addr == old(tracker)@[j]
                                && pre_mem.free_blocks.contains(b);
                        lemma_push_contains(pre_mem.free_blocks, fb, b);
                        assert(old(mem)@.allocs.contains(b) && b.addr == old(tracker)@[j]
                            && mem@.free_blocks.contains(b));
                    }
                    assert(spec_block_freed(old(mem)@, mem@, a));
                    // Live allocations only shrink.
                    assert forall|b: Block| mem@.allocs.contains(b) implies old(
                        mem,
                    )@.allocs.contains(b) by {
                        lemma_remove_contains(pre_mem.allocs, i, b);
                    }
                    // Under the good-case hypothesis the remaining tracked
                    // addresses are still live: the freed block had a
                    // different address.
                    if hyp {
                        assert forall|j: int| 0 <= j < tracker@.len() implies mem@.has_alloc(
                            #[trigger] tracker@[j],
                        ) by {
                            assert(tracker@[j] == old(tracker)@[j]);
                            assert(old(tracker)@[j] != a);
                            let w = choose|w: int|
                                0 <= w < pre_mem.allocs.len() && (#[trigger] pre_mem.allocs[w]).addr
                                    == tracker@[j];
                            assert(w != i);
                            if w < i {
                                assert(mem@.allocs[w].addr == tracker@[j]);
                            } else {
                                assert(mem@.allocs[w - 1].addr == tracker@[j]);
                            }
                        }
                    }
                }
            },
            Err(e) => {
                proof {
                    if hyp {
                        assert(pre_mem.has_alloc(a));
                        assert(false);
                    }
                }
                return Err(e);
            },
        }
    }
    proof {
        assert(tracker@.len() == 0);
    }
    Ok(())
}

/// A C string read out of memory lies inside the memory.
pub proof fn lemma_cstr_at_bounds(mem: Seq<u8>, addr: int)
    requires
        spec_cstr_at(mem, addr) is Some,
    ensures
        addr + spec_cstr_at(mem, addr).unwrap().len() < mem.len(),
    decreases mem.len() - addr,
{
    if mem[addr] == 0 {
    } else {
        lemma_cstr_at_bounds(mem, addr + 1);
    }
}

/// The wire value that a guest function's engine-level results stand for,
/// under the expected return type.
pub open spec fn spec_result_value(mem: Seq<u8>, rt: crate::func_types::ReturnType, rvs: Seq<WasmVal>) -> Result<ValueView, GuestError> {
    if rt == crate::func_types::ReturnType::Void {
        Ok(ValueView::Void)
    } else if rvs.len() == 0 {
        Err(GuestError::MalformedFrame)
    } else {
        match (rt, rvs[0]) {
            (crate::func_types::ReturnType::Int, WasmVal::I32(i)) => Ok(ValueView::Int(i)),
            (crate::func_types::ReturnType::UInt, WasmVal::I32(i)) => Ok(ValueView::UInt(i as u32)),
            (crate::func_types::ReturnType::Long, WasmVal::I64(l)) => Ok(ValueView::Long(l)),
            (crate::func_types::ReturnType::ULong, WasmVal::I64(l)) => Ok(ValueView::ULong(l as u64)),
            (crate::func_types::ReturnType::Bool, WasmVal::I32(b)) => Ok(ValueView::Bool(b != 0)),
            (crate::func_types::ReturnType::Float, WasmVal::F32(f)) => Ok(ValueView::Float(f)),
            (crate::func_types::ReturnType::Double, WasmVal::F64(d)) => Ok(ValueView::Double(d)),
            (crate::func_types::ReturnType::String, WasmVal::I32(p)) => if p < 0 {
                Err(GuestError::OutOfBounds)
            } else {
                match spec_cstr_at(mem, p as int) {
                    Some(bytes) => if vstd::utf8::valid_utf8(bytes) {
                        Ok(ValueView::Str(vstd::utf8::decode_utf8(bytes)))
                    } else {
                        Err(GuestError::NonUtf8)
                    },
                    None => Err(GuestError::UnterminatedCString),
                }
            },
            (crate::func_types::ReturnType::VecBytes, WasmVal::I32(p)) => if p < 0 || p + 4 > mem.len() {
                Err(GuestError::OutOfBounds)
            } else {
                let size = vstd::bytes::spec_u32_from_le_bytes(mem.subrange(p as int, p + 4)) as i32;
                if size < 0 {
                    Err(GuestError::MalformedFrame)
                } else if p + 4 + size > mem.len() {
                    Err(GuestError::OutOfBounds)
                } else {
                    Ok(ValueView::Bytes(mem.subrange(p + 4, p + 4 + size)))
                }
            },
            _ => Err(GuestError::UnsupportedTypeCombination),
        }
    }
}

/// The guest allocation recorded for later freeing when a reference-typed
/// return value crosses the boundary.
pub open spec fn spec_result_tracked(rt: crate::func_types::ReturnType, rvs: Seq<WasmVal>) -> Seq<u32> {
    if {
        &&& (rt == crate::func_types::ReturnType::String || rt
            == crate::func_types::ReturnType::VecBytes)
        &&& rvs.len() > 0
        &&& rvs[0] matches WasmVal::I32(p) && p >= 0
    } {
        seq![(rvs[0]->I32_0) as u32]
    } else {
        Seq::empty()
    }
}

/// Convert a guest function's engine-level results to an encoded return
/// frame.
///
/// A returned string or buffer was allocated by the guest in its own heap;
/// the host takes ownership and records the pointer so that it is freed on
/// the next VM entry.
pub fn val_to_hl_result(
    mem: &GuestMemory,
    tracker: &mut Vec<u32>,
    rt: crate::func_types::ReturnType,
    rvs: &Vec<WasmVal>,
) -> (r: Result<Vec<u8>, GuestError>)
    requires
        mem@.wf(),
    ensures
        final(tracker)@ == old(tracker)@ + spec_result_tracked(rt, rvs@),
        match spec_result_value(mem@.mem, rt, rvs@) {
            Ok(v) => r matches Ok(frame) && frame@ == crate::codec::spec_encode_value(v)
                && crate::codec::spec_value_wf(v),
            Err(e) => r == Err::<Vec<u8>, GuestError>(e),
        },
{
    let ghost empty_tracked: Seq<u32> = Seq::empty();
    if matches!(rt, crate::func_types::ReturnType::Void) {
        proof {
            assert(old(tracker)@ + empty_tracked =~= old(tracker)@);
        }
        let frame = crate::codec::encode_return_value(&crate::func_types::ReturnValue::Void);
        match frame {
            Some(b) => {
                return Ok(b);
            },
            None => {
                assert(false);
                return Err(GuestError::FrameTooLarge);
            },
        }
    }
    if rvs.len() == 0 {
        proof {
            assert(old(tracker)@ + empty_tracked =~= old(tracker)@);
        }
        return Err(GuestError::MalformedFrame);
    }
    let v0 = rvs[0];
    proof {
        assert(old(tracker)@ + empty_tracked =~= old(tracker)@);
    }
    match (rt, v0) {
        (crate::func_types::ReturnType::Int, WasmVal::I32(i)) => {
            encode_scalar_result(crate::func_types::ReturnValue::Int(i))
        },
        (crate::func_types::ReturnType::UInt, WasmVal::I32(i)) => {
            encode_scalar_result(
                crate::func_types::ReturnValue::UInt(#[verifier::truncate] (i as u32)),
            )
        },
        (crate::func_types::ReturnType::Long, WasmVal::I64(l)) => {
            encode_scalar_result(crate::func_types::ReturnValue::Long(l))
        },
        (crate::func_types::ReturnType::ULong, WasmVal::I64(l)) => {
            encode_scalar_result(
                crate::func_types::ReturnValue::ULong(#[verifier::truncate] (l as u64)),
            )
        },
        (crate::func_types::ReturnType::Bool, WasmVal::I32(b)) => {
            encode_scalar_result(crate::func_types::ReturnValue::Bool(b != 0))
        },
        (crate::func_types::ReturnType::Float, WasmVal::F32(f)) => {
            encode_scalar_result(crate::func_types::ReturnValue::Float(f))
        },
        (crate::func_types::ReturnType::Double, WasmVal::F64(d)) => {
            encode_scalar_result(crate::func_types::ReturnValue::Double(d))
        },
        (crate::func_types::ReturnType::String, WasmVal::I32(p)) => {
            if p < 0 {
                return Err(GuestError::OutOfBounds);
            }
            track_return_value_allocation(tracker, p as u32);
            let bytes = match mem.read_cstr(p as u32) {
                Ok(b) => b,
                Err(e) => {
                    return Err(e);
                },
            };
            proof {
                lemma_cstr_at_bounds(mem@.mem, p as int);
            }
            let s = match crate::codec::string_from_utf8_vec(bytes) {
                Some(s) => s,
                None => {
                    return Err(GuestError::NonUtf8);
                },
            };
            proof {
                broadcast use vstd::utf8::encode_utf8_decode_utf8;

            }
            let frame = crate::codec::encode_return_value(
                &crate::func_types::ReturnValue::String(s),
            );
            match frame {
                Some(b) => Ok(b),
                None => {
                    assert(false);
                    Err(GuestError::FrameTooLarge)
                },
            }
        },
        (crate::func_types::ReturnType::VecBytes, WasmVal::I32(p)) => {
            if p < 0 {
                return Err(GuestError::OutOfBounds);
            }
            track_return_value_allocation(tracker, p as u32);
            let size_bytes = match mem.read(p as u32, 4) {
                Ok(b) => b,
                Err(e) => {
                    return Err(e);
                },
            };
            let size_u = vstd::bytes::u32_from_le_bytes(size_bytes.as_slice());
            let size = #[verifier::truncate] (size_u as i32);
            if size < 0 {
                return Err(GuestError::MalformedFrame);
            }
            let bytes = match mem.read((p + 4) as u32, size as usize) {
                Ok(b) => b,
                Err(e) => {
                    return Err(e);
                },
            };
            assert(bytes@.len() == size as int);
            assert(crate::codec::spec_value_wf(ValueView::Bytes(bytes@)));
            let frame = crate::codec::encode_return_value(
                &crate::func_types::ReturnValue::VecBytes(bytes),
            );
            match frame {
                Some(b) => Ok(b),
                None => {
                    assert(false);
                    Err(GuestError::FrameTooLarge)
                },
            }
        },
        (_, _) => Err(GuestError::UnsupportedTypeCombination),
    }
}

/// Encode a scalar return value, which always fits a frame.
fn encode_scalar_result(rv: crate::func_types::ReturnValue) -> (r: Result<Vec<u8>, GuestError>)
    requires
        !(rv@ is Str),
        !(rv@ is Bytes),
    ensures
        r matches Ok(frame) && frame@ == crate::codec::spec_encode_value(rv@)
            && crate::codec::spec_value_wf(rv@),
{
    proof {
        vstd::bytes::lemma_auto_spec_u32_to_from_le_bytes();
        vstd::bytes::lemma_auto_spec_u64_to_from_le_bytes();
    }
    match crate::codec::encode_return_value(&rv) {
        Some(b) => Ok(b),
        None => {
            assert(false);
            Err(GuestError::FrameTooLarge)
        },
    }
}

/// Convert a host function's wire return value to an engine value for the
/// calling guest code.
///
/// Text and byte buffers are allocated in the guest's memory; the guest
/// owns those allocations and must free them.
pub fn hl_return_to_val(mem: &mut GuestMemory, rv: &crate::func_types::ReturnValue) -> (r: Result<
    WasmVal,
    GuestError,
>)
    requires
        old(mem)@.wf(),
    ensures
        final(mem)@.wf(),
        final(mem)@.mem.len() == old(mem)@.mem.len(),
        match spec_scalar_to_val(rv@) {
            Some(v) => r == Ok::<WasmVal, GuestError>(v) && final(mem)@ == old(mem)@,
            None => (match rv@ {
                ValueView::Str(s) => marshalled_cstr(old(mem)@, final(mem)@, s, r),
                ValueView::Bytes(b) => marshalled_buffer(old(mem)@, final(mem)@, b, r),
                ValueView::Void => r == Ok::<WasmVal, GuestError>(WasmVal::I32(0)) && final(mem)@
                    == old(mem)@,
                _ => false,
            }),
        },
{
    match rv {
        crate::func_types::ReturnValue::Int(i) => Ok(WasmVal::I32(*i)),
        crate::func_types::ReturnValue::UInt(u) => Ok(
            WasmVal::I32(#[verifier::truncate] (*u as i32)),
        ),
        crate::func_types::ReturnValue::Long(l) => Ok(WasmVal::I64(*l)),
        crate::func_types::ReturnValue::ULong(u) => Ok(
            WasmVal::I64(#[verifier::truncate] (*u as i64)),
        ),
        crate::func_types::ReturnValue::Bool(b) => Ok(
            WasmVal::I32(
                if *b {
                    1
                } else {
                    0
                },
            ),
        ),
        crate::func_types::ReturnValue::Float(f) => Ok(WasmVal::F32(*f)),
        crate::func_types::ReturnValue::Double(d) => Ok(WasmVal::F64(*d)),
        crate::func_types::ReturnValue::String(s) => {
            let bytes = s.as_str().as_bytes_vec();
            if contains_nul(&bytes) {
                return Err(GuestError::InteriorNul);
            }
            if bytes.len() >= u32::MAX as usize {
                return Err(GuestError::FrameTooLarge);
            }
            let n = bytes.len() as u32;
            let addr = match mem.malloc(n + 1) {
                Ok(a) => a,
                Err(e) => {
                    return Err(e);
                },
            };
            let mut cbytes = bytes;
            cbytes.push(0u8);
            assert(cbytes@ =~= spec_cstr_bytes(s@));
            let w = mem.write(addr, cbytes.as_slice());
            assert(w is Ok);
            proof {
                let nm = mem@.mem;
                assert forall|i: int| 0 <= i < vstd::utf8::encode_utf8(s@).len() implies nm[addr
                    + i] == vstd::utf8::encode_utf8(s@)[i] by {
                    assert(nm[addr + i] == cbytes@[i]);
                }
                assert(nm[addr + vstd::utf8::encode_utf8(s@).len()] == 0);
                lemma_cstr_at_written(nm, addr as int, vstd::utf8::encode_utf8(s@));
            }
            Ok(WasmVal::I32(addr as i32))
        },
        crate::func_types::ReturnValue::VecBytes(b) => {
            if b.len() >= u32::MAX as usize {
                return Err(GuestError::FrameTooLarge);
            }
            let n = b.len() as u32;
            let addr = match mem.malloc(n) {
                Ok(a) => a,
                Err(e) => {
                    return Err(e);
                },
            };
            let w = mem.write(addr, b.as_slice());
            assert(w is Ok);
            proof {
                assert(mem@.mem.subrange(addr as int, addr + b@.len()) =~= b@);
            }
            Ok(WasmVal::I32(addr as i32))
        },
        crate::func_types::ReturnValue::Void => Ok(WasmVal::I32(0)),
    }
}

/// The wire parameters that guest-provided engine values stand for, under
/// the declared parameter types of a host function.
///
/// A declared `VecBytes` consumes two consecutive engine values, the
/// pointer and the length; the declared `Int` that must follow it receives
/// that same length and consumes no engine value. Any deviation is a
/// structural error.
pub open spec fn spec_vals_to_params(
    mem: Seq<u8>,
    pts: Seq<crate::func_types::ParameterType>,
    vals: Seq<WasmVal>,
    pending: Option<u32>,
) -> Result<Seq<ValueView>, GuestError>
    decreases pts.len(),
{
    if pts.len() == 0 {
        if pending is Some {
            Err(GuestError::VectorLengthMissing)
        } else {
            Ok(Seq::empty())
        }
    } else {
        let pt = pts[0];
        if pending is Some {
            let l = pending->Some_0;
            if pt == crate::func_types::ParameterType::Int {
                match spec_vals_to_params(mem, pts.skip(1), vals, None) {
                    Ok(rest) => Ok(seq![ValueView::Int(l as i32)] + rest),
                    Err(e) => Err(e),
                }
            } else {
                Err(GuestError::VectorLengthMissing)
            }
        } else if vals.len() == 0 {
            Err(GuestError::MalformedFrame)
        } else {
            match (pt, vals[0]) {
                (crate::func_types::ParameterType::Int, WasmVal::I32(i)) => match spec_vals_to_params(mem, pts.skip(1), vals.skip(1), None) {
                    Ok(rest) => Ok(seq![ValueView::Int(i)] + rest),
                    Err(e) => Err(e),
                },
                (crate::func_types::ParameterType::UInt, WasmVal::I32(i)) => match spec_vals_to_params(mem, pts.skip(1), vals.skip(1), None) {
                    Ok(rest) => Ok(seq![ValueView::UInt(i as u32)] + rest),
                    Err(e) => Err(e),
                },
                (crate::func_types::ParameterType::Long, WasmVal::I64(l)) => match spec_vals_to_params(mem, pts.skip(1), vals.skip(1), None) {
                    Ok(rest) => Ok(seq![ValueView::Long(l)] + rest),
                    Err(e) => Err(e),
                },
                (crate::func_types::ParameterType::ULong, WasmVal::I64(l)) => match spec_vals_to_params(mem, pts.skip(1), vals.skip(1), None) {
                    Ok(rest) => Ok(seq![ValueView::ULong(l as u64)] + rest),
                    Err(e) => Err(e),
                },
                (crate::func_types::ParameterType::Bool, WasmVal::I32(b)) => match spec_vals_to_params(mem, pts.skip(1), vals.skip(1), None) {
                    Ok(rest) => Ok(seq![ValueView::Bool(b != 0)] + rest),
                    Err(e) => Err(e),
                },
                (crate::func_types::ParameterType::Float, WasmVal::F32(f)) => match spec_vals_to_params(mem, pts.skip(1), vals.skip(1), None) {
                    Ok(rest) => Ok(seq![ValueView::Float(f)] + rest),
                    Err(e) => Err(e),
                },
                (crate::func_types::ParameterType::Double, WasmVal::F64(d)) => match spec_vals_to_params(mem, pts.skip(1), vals.skip(1), None) {
                    Ok(rest) => Ok(seq![ValueView::Double(d)] + rest),
                    Err(e) => Err(e),
                },
                (crate::func_types::ParameterType::String, WasmVal::I32(p)) => if p < 0 {
                    Err(GuestError::OutOfBounds)
                } else {
                    match spec_cstr_at(mem, p as int) {
                        Some(bytes) => if vstd::utf8::valid_utf8(bytes) {
                            match spec_vals_to_params(mem, pts.skip(1), vals.skip(1), None) {
                                Ok(rest) => Ok(
                                    seq![ValueView::Str(vstd::utf8::decode_utf8(bytes))] + rest,
                                ),
                                Err(e) => Err(e),
                            }
                        } else {
                            Err(GuestError::NonUtf8)
                        },
                        None => Err(GuestError::UnterminatedCString),
                    }
                },
                (crate::func_types::ParameterType::VecBytes, WasmVal::I32(p)) => if vals.len()
                    < 2 {
                    Err(GuestError::MalformedFrame)
                } else if !(vals[1] matches WasmVal::I32(_)) {
                    Err(GuestError::MalformedFrame)
                } else {
                    let l = vals[1]->I32_0;
                    if p < 0 || l < 0 {
                        Err(GuestError::OutOfBounds)
                    } else if p + l > mem.len() {
                        Err(GuestError::OutOfBounds)
                    } else {
                        match spec_vals_to_params(mem, pts.skip(1), vals.skip(2), Some(l as u32)) {
                            Ok(rest) => Ok(
                                seq![ValueView::Bytes(mem.subrange(p as int, p + l))] + rest,
                            ),
                            Err(e) => Err(e),
                        }
                    }
                },
                _ => Err(GuestError::ParameterTypeMismatch),
            }
        }
    }
}

/// Convert guest-provided engine values to wire parameters for a host
/// function call, enforcing the vector-length convention.
///
/// The guest passes pointers into its own memory; the host only reads them
/// and takes no ownership.
pub fn val_to_hl_param(
    mem: &GuestMemory,
    pts: &Vec<crate::func_types::ParameterType>,
    vals: &Vec<WasmVal>,
) -> (r: Result<Vec<ParameterValue>, GuestError>)
    requires
        mem@.wf(),
    ensures
        match spec_vals_to_params(mem@.mem, pts@, vals@, None) {
            Ok(vs) => r matches Ok(ps) && ps@.map_values(|p: ParameterValue| p@) == vs,
            Err(e) => r == Err::<Vec<ParameterValue>, GuestError>(e),
        },
{
    proof {
        assert(pts@.skip(0) =~= pts@);
        assert(vals@.skip(0) =~= vals@);
    }
    vals_to_params_rec(mem, pts, vals, 0, 0, None)
}

/// The recursive worker behind `val_to_hl_param`, walking the declared
/// parameter types and the engine values in step.
#[verifier::rlimit(60)]
fn vals_to_params_rec(
    mem: &GuestMemory,
    pts: &Vec<crate::func_types::ParameterType>,
    vals: &Vec<WasmVal>,
    pi: usize,
    vi: usize,
    pending: Option<u32>,
) -> (r: Result<Vec<ParameterValue>, GuestError>)
    requires
        mem@.wf(),
        pi <= pts@.len(),
        vi <= vals@.len(),
    ensures
        match spec_vals_to_params(mem@.mem, pts@.skip(pi as int), vals@.skip(vi as int), pending) {
            Ok(vs) => r matches Ok(ps) && ps@.map_values(|p: ParameterValue| p@) == vs,
            Err(e) => r == Err::<Vec<ParameterValue>, GuestError>(e),
        },
    decreases pts@.len() - pi,
{
    let ghost f = |p: ParameterValue| p@;
    if pi >= pts.len() {
        if pending.is_some() {
            return Err(GuestError::VectorLengthMissing);
        }
        let ps: Vec<ParameterValue> = Vec::new();
        assert(ps@.map_values(f) =~= Seq::<ValueView>::empty());
        return Ok(ps);
    }
    let pt = pts[pi];
    proof {
        assert(pts@.skip(pi as int)[0] == pts@[pi as int]);
        assert(pts@.skip(pi as int).skip(1) =~= pts@.skip(pi + 1));
    }
    if let Some(l) = pending {
        if matches!(pt, crate::func_types::ParameterType::Int) {
            let rest = vals_to_params_rec(mem, pts, vals, pi + 1, vi, None);
            match rest {
                Ok(mut ps) => {
                    let lv: i32 = #[verifier::truncate] (l as i32);
                    ps.insert(0, ParameterValue::Int(lv));
                    proof {
                        assert(ps@.map_values(f) =~= seq![ValueView::Int(l as i32)]
                            + ps@.skip(1).map_values(f));
                    }
                    return Ok(ps);
                },
                Err(e) => {
                    return Err(e);
                },
            }
        } else {
            return Err(GuestError::VectorLengthMissing);
        }
    }
    if vi >= vals.len() {
        return Err(GuestError::MalformedFrame);
    }
    let v0 = vals[vi];
    proof {
        assert(vals@.skip(vi as int)[0] == vals@[vi as int]);
        assert(vals@.skip(vi as int).skip(1) =~= vals@.skip(vi + 1));
    }
    match (pt, v0) {
        (crate::func_types::ParameterType::Int, WasmVal::I32(i)) => {
            prepend_param(
                ParameterValue::Int(i),
                vals_to_params_rec(mem, pts, vals, pi + 1, vi + 1, None),
            )
        },
        (crate::func_types::ParameterType::UInt, WasmVal::I32(i)) => {
            prepend_param(
                ParameterValue::UInt(#[verifier::truncate] (i as u32)),
                vals_to_params_rec(mem, pts, vals, pi + 1, vi + 1, None),
            )
        },
        (crate::func_types::ParameterType::Long, WasmVal::I64(l)) => {
            prepend_param(
                ParameterValue::Long(l),
                vals_to_params_rec(mem, pts, vals, pi + 1, vi + 1, None),
            )
        },
        (crate::func_types::ParameterType::ULong, WasmVal::I64(l)) => {
            prepend_param(
                ParameterValue::ULong(#[verifier::truncate] (l as u64)),
                vals_to_params_rec(mem, pts, vals, pi + 1, vi + 1, None),
            )
        },
        (crate::func_types::ParameterType::Bool, WasmVal::I32(b)) => {
            prepend_param(
                ParameterValue::Bool(b != 0),
                vals_to_params_rec(mem, pts, vals, pi + 1, vi + 1, None),
            )
        },
        (crate::func_types::ParameterType::Float, WasmVal::F32(f2)) => {
            prepend_param(
                ParameterValue::Float(f2),
                vals_to_params_rec(mem, pts, vals, pi + 1, vi + 1, None),
            )
        },
        (crate::func_types::ParameterType::Double, WasmVal::F64(d)) => {
            prepend_param(
                ParameterValue::Double(d),
                vals_to_params_rec(mem, pts, vals, pi + 1, vi + 1, None),
            )
        },
        (crate::func_types::ParameterType::String, WasmVal::I32(p)) => {
            if p < 0 {
                return Err(GuestError::OutOfBounds);
            }
            let bytes = match mem.read_cstr(p as u32) {
                Ok(b) => b,
                Err(e) => {
                    return Err(e);
                },
            };
            let s = match crate::codec::string_from_utf8_vec(bytes) {
                Some(s) => s,
                None => {
                    return Err(GuestError::NonUtf8);
                },
            };
            proof {
                broadcast use vstd::utf8::encode_utf8_decode_utf8;

            }
            prepend_param(
                ParameterValue::String(s),
                vals_to_params_rec(mem, pts, vals, pi + 1, vi + 1, None),
            )
        },
        (crate::func_types::ParameterType::VecBytes, WasmVal::I32(p)) => {
            if vals.len() - vi < 2 {
                return Err(GuestError::MalformedFrame);
            }
            proof {
                assert(vals@.skip(vi as int).skip(2) =~= vals@.skip(vi + 2));
                assert(vals@.skip(vi as int)[1] == vals@[vi + 1]);
            }
            let v1 = vals[vi + 1];
            let l = match v1 {
                WasmVal::I32(l) => l,
                _ => {
                    return Err(GuestError::MalformedFrame);
                },
            };
            if p < 0 || l < 0 {
                return Err(GuestError::OutOfBounds);
            }
            let bytes = match mem.read(p as u32, l as usize) {
                Ok(b) => b,
                Err(e) => {
                    return Err(e);
                },
            };
            prepend_param(
                ParameterValue::VecBytes(bytes),
                vals_to_params_rec(mem, pts, vals, pi + 1, vi + 2, Some(l as u32)),
            )
        },
        (_, _) => Err(GuestError::ParameterTypeMismatch),
    }
}

/// Prepend a converted parameter to the rest of a conversion result.
fn prepend_param(pv: ParameterValue, rest: Result<Vec<ParameterValue>, GuestError>) -> (r: Result<
    Vec<ParameterValue>,
    GuestError,
>)
    ensures
        match rest {
            Ok(ps) => r matches Ok(qs) && qs@.map_values(|p: ParameterValue| p@) == seq![pv@]
                + ps@.map_values(|p: ParameterValue| p@),
            Err(e) => r == Err::<Vec<ParameterValue>, GuestError>(e),
        },
{
    match rest {
        Ok(mut ps) => {
            ps.insert(0, pv);
            proof {
                let f = |p: ParameterValue| p@;
                assert(ps@.map_values(f) =~= seq![ps@[0]@] + ps@.skip(1).map_values(f));
            }
            Ok(ps)
        },
        Err(e) => Err(e),
    }
}

} // verus!
