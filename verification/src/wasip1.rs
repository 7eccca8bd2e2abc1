//! A minimal WASI preview-one surface: standard output is forwarded to the
//! host print function; file descriptors beyond it do not exist.
//!
//! `fd_write` is split around the outgoing host call: gathering decodes the
//! I/O vectors out of guest memory into the strings to print; the driver
//! issues one host print per string; finishing writes the total byte count
//! back into guest memory.

use vstd::prelude::*;

use crate::errors::GuestError;
use crate::guest_mem::{spec_write_bytes, GuestMemory};

verus! {

broadcast use vstd::seq_lib::group_seq_properties;

/// The only file descriptor the shim serves: standard output.
pub const STDOUT_FD: i32 = 1;

/// The little-endian 32-bit value at `addr`.
pub open spec fn spec_read_u32(mem: Seq<u8>, addr: int) -> u32 {
    vstd::bytes::spec_u32_from_le_bytes(mem.subrange(addr, addr + 4))
}

/// The texts that `n` I/O vectors at `iovs` point to: each vector is a
/// 32-bit buffer pointer followed by a 32-bit length, and each buffer must
/// hold UTF-8 text.
pub open spec fn spec_gather_iovs(mem: Seq<u8>, iovs: int, n: nat) -> Result<
    Seq<Seq<char>>,
    GuestError,
>
    decreases n,
{
    if n == 0 {
        Ok(Seq::empty())
    } else if iovs < 0 || iovs + 8 > mem.len() {
        Err(GuestError::OutOfBounds)
    } else {
        let buf = spec_read_u32(mem, iovs) as int;
        let len = spec_read_u32(mem, iovs + 4) as int;
        if buf + len > mem.len() {
            Err(GuestError::OutOfBounds)
        } else {
            let bytes = mem.subrange(buf, buf + len);
            if !vstd::utf8::valid_utf8(bytes) {
                Err(GuestError::NonUtf8)
            } else {
                match spec_gather_iovs(mem, iovs + 8, (n - 1) as nat) {
                    Ok(rest) => Ok(seq![vstd::utf8::decode_utf8(bytes)] + rest),
                    Err(e) => Err(e),
                }
            }
        }
    }
}

/// First half of `fd_write`: decode the I/O vectors into the texts to
/// print. Only standard output is writable; broken vectors report the
/// generic failure code and text that is not UTF-8 its own.
pub fn fd_write_gather(mem: &GuestMemory, fd: i32, iovs: u32, iovs_len: u32) -> (r: Result<
    Vec<String>,
    i32,
>)
    requires
        mem@.wf(),
    ensures
        fd != STDOUT_FD ==> r == Err::<Vec<String>, i32>(-1i32),
        fd == STDOUT_FD ==> match spec_gather_iovs(mem@.mem, iovs as int, iovs_len as nat) {
            Ok(ss) => r matches Ok(v) && v@.map_values(|s: String| s@) == ss,
            Err(e) => r == Err::<Vec<String>, i32>(
                if e == GuestError::NonUtf8 {
                    -2i32
                } else {
                    -1i32
                },
            ),
        },
{
    if fd != STDOUT_FD {
        return Err(-1);
    }
    gather_rec(mem, iovs as u64, iovs_len)
}

/// The recursive worker behind `fd_write_gather`.
fn gather_rec(mem: &GuestMemory, iovs: u64, n: u32) -> (r: Result<Vec<String>, i32>)
    requires
        mem@.wf(),
    ensures
        match spec_gather_iovs(mem@.mem, iovs as int, n as nat) {
            Ok(ss) => r matches Ok(v) && v@.map_values(|s: String| s@) == ss,
            Err(e) => r == Err::<Vec<String>, i32>(
                if e == GuestError::NonUtf8 {
                    -2i32
                } else {
                    -1i32
                },
            ),
        },
    decreases n,
{
    let ghost f = |s: String| s@;
    if n == 0 {
        let v: Vec<String> = Vec::new();
        assert(v@.map_values(f) =~= Seq::<Seq<char>>::empty());
        return Ok(v);
    }
    if iovs > u32::MAX as u64 {
        // Addresses are 32 bits wide; well-formed memory is smaller still.
        assert(mem@.mem.len() <= crate::guest_mem::MAX_GUEST_MEMORY_BYTES);
        return Err(-1);
    }
    let head = match mem.read(iovs as u32, 8) {
        Ok(b) => b,
        Err(_) => {
            return Err(-1);
        },
    };
    let buf_slice = vstd::slice::slice_subrange(head.as_slice(), 0, 4);
    let buf = vstd::bytes::u32_from_le_bytes(buf_slice);
    let len_slice = vstd::slice::slice_subrange(head.as_slice(), 4, 8);
    let len = vstd::bytes::u32_from_le_bytes(len_slice);
    proof {
        assert(head@.subrange(0, 4) =~= mem@.mem.subrange(iovs as int, iovs + 4));
        assert(head@.subrange(4, 8) =~= mem@.mem.subrange(iovs + 4, iovs + 8));
    }
    let bytes = match mem.read(buf, len as usize) {
        Ok(b) => b,
        Err(_) => {
            return Err(-1);
        },
    };
    let s = match crate::codec::string_from_utf8_vec(bytes) {
        Some(s) => s,
        None => {
            return Err(-2);
        },
    };
    proof {
        broadcast use vstd::utf8::encode_utf8_decode_utf8;

    }
    match gather_rec(mem, iovs + 8, n - 1) {
        Ok(mut v) => {
            v.insert(0, s);
            proof {
                assert(v@.map_values(f) =~= seq![v@[0]@] + v@.skip(1).map_values(f));
            }
            Ok(v)
        },
        Err(e) => Err(e),
    }
}

/// The sum of the per-vector byte counts the host print returned.
pub open spec fn spec_sum_counts(counts: Seq<i32>) -> int
    decreases counts.len(),
{
    if counts.len() == 0 {
        0
    } else {
        counts[0] + spec_sum_counts(counts.skip(1))
    }
}

/// Second half of `fd_write`: write the total byte count the host reported
/// back at `retptr` and report success.
pub fn fd_write_finish(mem: &mut GuestMemory, retptr: u32, counts: &Vec<i32>) -> (r: Result<
    i32,
    GuestError,
>)
    requires
        i32::MIN <= spec_sum_counts(counts@) <= i32::MAX,
    ensures
        match r {
            Ok(code) => {
                &&& code == 0
                &&& retptr + 4 <= (*old(mem))@.mem.len()
                &&& (*final(mem))@.mem == spec_write_bytes(
                    (*old(mem))@.mem,
                    retptr as int,
                    vstd::bytes::spec_u32_to_le_bytes(
                        (spec_sum_counts(counts@) as i32) as u32,
                    ),
                )
            },
            Err(e) => {
                &&& e == GuestError::OutOfBounds
                &&& retptr + 4 > (*old(mem))@.mem.len()
                &&& (*final(mem))@ == (*old(mem))@
            },
        },
        (*final(mem))@.allocs == (*old(mem))@.allocs,
        (*final(mem))@.free_blocks == (*old(mem))@.free_blocks,
        (*final(mem))@.next == (*old(mem))@.next,
        (*old(mem))@.wf() ==> (*final(mem))@.wf(),
{
    let n = counts.len();
    let mut total: i128 = 0;
    let mut i: usize = 0;
    while i < n
        invariant
            n == counts@.len(),
            i <= n,
            total == spec_sum_counts(counts@.take(i as int)),
        decreases n - i,
    {
        proof {
            lemma_sum_take_snoc(counts@, i as int);
            lemma_sum_parts_bounded(counts@.take(i + 1));
            assert((i + 1) * (i32::MIN as int) >= i128::MIN && (i + 1) * (i32::MAX as int)
                <= i128::MAX) by (nonlinear_arith)
                requires
                    0 <= i < n <= usize::MAX,
            ;
        }
        total = total + counts[i] as i128;
        i += 1;
    }
    proof {
        assert(counts@.take(n as int) =~= counts@);
        assert(total == spec_sum_counts(counts@));
    }
    let total32: i32 = total as i32;
    proof {
        assert(total32 == spec_sum_counts(counts@) as i32);
        vstd::bytes::lemma_auto_spec_u32_to_from_le_bytes();
    }
    let total_bytes = vstd::bytes::u32_to_le_bytes(#[verifier::truncate] (total32 as u32));
    match mem.write(retptr, total_bytes.as_slice()) {
        Ok(()) => Ok(0),
        Err(e) => Err(e),
    }
}

/// Extending a prefix by one element adds that element to its sum.
proof fn lemma_sum_take_snoc(counts: Seq<i32>, i: int)
    requires
        0 <= i < counts.len(),
    ensures
        spec_sum_counts(counts.take(i + 1)) == spec_sum_counts(counts.take(i)) + counts[i],
    decreases i,
{
    if i == 0 {
        assert(counts.take(1) =~= seq![counts[0]]);
        assert(counts.take(1).skip(1) =~= Seq::empty());
        assert(counts.take(0) =~= Seq::empty());
    } else {
        assert(counts.take(i + 1)[0] == counts[0]);
        assert(counts.take(i + 1).skip(1) =~= counts.skip(1).take(i));
        assert(counts.take(i).skip(1) =~= counts.skip(1).take(i - 1));
        assert(counts.take(i)[0] == counts[0]);
        lemma_sum_take_snoc(counts.skip(1), i - 1);
        assert(counts.skip(1)[i - 1] == counts[i]);
    }
}

/// Any sum of 32-bit values is bounded by the count times the extremes;
/// only the coarse bound over one sequence is needed here.
proof fn lemma_sum_parts_bounded(counts: Seq<i32>)
    ensures
        counts.len() * (i32::MIN as int) <= spec_sum_counts(counts) <= counts.len() * (
        i32::MAX as int),
    decreases counts.len(),
{
    if counts.len() == 0 {
    } else {
        lemma_sum_parts_bounded(counts.skip(1));
        assert((counts.len() - 1) * (i32::MIN as int) == counts.len() * (i32::MIN as int) - (
        i32::MIN as int)) by (nonlinear_arith);
        assert((counts.len() - 1) * (i32::MAX as int) == counts.len() * (i32::MAX as int) - (
        i32::MAX as int)) by (nonlinear_arith);
    }
}

/// The descriptor report for standard output: a regular file, no flags,
/// read-write-seek rights, written at the caller's result pointer.
pub open spec fn spec_fdstat_bytes(mem: Seq<u8>, retptr: int) -> Seq<u8> {
    let w1 = spec_write_bytes(mem, retptr, vstd::bytes::spec_u16_to_le_bytes(4u16));
    let w2 = spec_write_bytes(w1, retptr + 2, vstd::bytes::spec_u16_to_le_bytes(0u16));
    let w3 = spec_write_bytes(w2, retptr + 8, vstd::bytes::spec_u64_to_le_bytes(0b100011u64));
    spec_write_bytes(w3, retptr + 16, vstd::bytes::spec_u64_to_le_bytes(0b100011u64))
}

/// Report the descriptor status of standard output; any other descriptor,
/// or a result pointer outside memory, reports failure.
pub fn fd_fdstat_get(mem: &mut GuestMemory, fd: i32, retptr: u32) -> (r: i32)
    requires
        (*old(mem))@.wf(),
    ensures
        (*final(mem))@.allocs == (*old(mem))@.allocs,
        (*final(mem))@.free_blocks == (*old(mem))@.free_blocks,
        (*final(mem))@.next == (*old(mem))@.next,
        (*old(mem))@.wf() ==> (*final(mem))@.wf(),
        fd != STDOUT_FD ==> r == -1 && (*final(mem))@ == (*old(mem))@,
        fd == STDOUT_FD && retptr + 24 > (*old(mem))@.mem.len() ==> r == -1 && (*final(mem))@
            == (*old(mem))@,
        fd == STDOUT_FD && retptr + 24 <= (*old(mem))@.mem.len() ==> r == 0 && (*final(mem))@.mem
            == spec_fdstat_bytes((*old(mem))@.mem, retptr as int),
{
    if fd != STDOUT_FD {
        return -1;
    }
    let mlen = mem.mem.len();
    if mlen < 24 || retptr as usize > mlen - 24 {
        return -1;
    }
    proof {
        vstd::bytes::lemma_auto_spec_u16_to_from_le_bytes();
        vstd::bytes::lemma_auto_spec_u64_to_from_le_bytes();
    }
    let filetype = vstd::bytes::u16_to_le_bytes(4u16);
    let w1 = mem.write(retptr, filetype.as_slice());
    assert(w1 is Ok);
    let flags = vstd::bytes::u16_to_le_bytes(0u16);
    let w2 = mem.write(retptr + 2, flags.as_slice());
    assert(w2 is Ok);
    let rights = vstd::bytes::u64_to_le_bytes(0b100011u64);
    let w3 = mem.write(retptr + 8, rights.as_slice());
    assert(w3 is Ok);
    let rights2 = vstd::bytes::u64_to_le_bytes(0b100011u64);
    let w4 = mem.write(retptr + 16, rights2.as_slice());
    assert(w4 is Ok);
    0
}

/// Seeking is not implemented: nothing but standard output exists. A
/// bare-metal guest treats such a call as fatal; the model reports
/// failure.
pub fn fd_seek() -> (r: i32)
    ensures
        r == -1,
{
    -1
}

/// Closing is not implemented: nothing but standard output exists. A
/// bare-metal guest treats such a call as fatal; the model reports
/// failure.
pub fn fd_close() -> (r: i32)
    ensures
        r == -1,
{
    -1
}

} // verus!
