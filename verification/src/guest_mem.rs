//! A model of guest linear memory as the marshaller sees it: a byte array,
//! the module's `malloc`/`free` exports, and bounded reads and writes.
//!
//! The allocator mirrors the behaviour the marshalling contracts rely on:
//! `malloc` hands out a block disjoint from every live allocation, and
//! reuses a freed block of the same size before growing the heap. The
//! latter is what keeps guest heap usage bounded when return-value
//! allocations are freed on the next VM entry and replaced by equal-sized
//! ones.

use vstd::prelude::*;

use crate::errors::GuestError;

verus! {

broadcast use vstd::seq_lib::group_seq_properties;

/// Linear memory addresses must stay below this bound so that pointers
/// survive the round trip through the engine's signed 32-bit values.
pub const MAX_GUEST_MEMORY_BYTES: usize = 0x7FFF_FFFF;

/// One heap allocation: its address and its length in bytes.
#[derive(Debug, Clone, Copy, PartialEq, Eq, Structural)]
pub struct Block {
    /// The first address of the block.
    pub addr: u32,
    /// The length of the block in bytes.
    pub len: u32,
}

/// Two blocks occupy disjoint address ranges.
pub open spec fn spec_disjoint(a: Block, b: Block) -> bool {
    a.addr + a.len <= b.addr || b.addr + b.len <= a.addr
}

/// Ghost image of a guest memory.
pub ghost struct GuestMemoryView {
    /// The bytes of the linear memory.
    pub mem: Seq<u8>,
    /// The live heap allocations.
    pub allocs: Seq<Block>,
    /// Freed blocks available for reuse.
    pub free_blocks: Seq<Block>,
    /// The bump pointer: all blocks live below it.
    pub next: u32,
}

impl GuestMemoryView {
    /// Well-formedness: every block lies under the bump pointer inside the
    /// memory, and all blocks, live or freed, are pairwise disjoint.
    pub open spec fn wf(self) -> bool {
        &&& self.mem.len() <= MAX_GUEST_MEMORY_BYTES
        &&& self.next <= self.mem.len()
        &&& forall|i: int|
            0 <= i < self.allocs.len() ==> (#[trigger] self.allocs[i]).addr + self.allocs[i].len
                <= self.next
        &&& forall|i: int|
            0 <= i < self.free_blocks.len() ==> (#[trigger] self.free_blocks[i]).addr
                + self.free_blocks[i].len <= self.next
        &&& forall|i: int, j: int|
            0 <= i < self.allocs.len() && 0 <= j < self.allocs.len() && i != j ==> spec_disjoint(
                #[trigger] self.allocs[i],
                #[trigger] self.allocs[j],
            )
        &&& forall|i: int, j: int|
            0 <= i < self.free_blocks.len() && 0 <= j < self.allocs.len() ==> spec_disjoint(
                #[trigger] self.free_blocks[i],
                #[trigger] self.allocs[j],
            )
        &&& forall|i: int, j: int|
            0 <= i < self.free_blocks.len() && 0 <= j < self.free_blocks.len() && i != j
                ==> spec_disjoint(#[trigger] self.free_blocks[i], #[trigger] self.free_blocks[j])
    }

    /// Whether some live allocation starts at `addr`.
    pub open spec fn has_alloc(self, addr: u32) -> bool {
        exists|i: int| 0 <= i < self.allocs.len() && (#[trigger] self.allocs[i]).addr == addr
    }

    /// Whether some freed block of exactly `len` bytes is available.
    pub open spec fn has_free_of_len(self, len: u32) -> bool {
        exists|i: int| 0 <= i < self.free_blocks.len() && (#[trigger] self.free_blocks[i]).len
            == len
    }
}

/// The bytes of `mem` with `bytes` written at `addr`.
pub open spec fn spec_write_bytes(mem: Seq<u8>, addr: int, bytes: Seq<u8>) -> Seq<u8> {
    Seq::new(
        mem.len(),
        |i: int|
            if addr <= i < addr + bytes.len() {
                bytes[i - addr]
            } else {
                mem[i]
            },
    )
}

/// The NUL-terminated byte string at `addr`: the bytes up to but not
/// including the first zero byte, if a zero byte exists before the end of
/// the memory.
pub open spec fn spec_cstr_at(mem: Seq<u8>, addr: int) -> Option<Seq<u8>>
    decreases mem.len() - addr,
{
    if addr < 0 || addr >= mem.len() {
        None
    } else if mem[addr] == 0 {
        Some(Seq::empty())
    } else {
        match spec_cstr_at(mem, addr + 1) {
            Some(s) => Some(seq![mem[addr]] + s),
            None => None,
        }
    }
}

/// A model of a guest module's linear memory and heap exports.
#[derive(Debug, Clone)]
pub struct GuestMemory {
    /// The bytes of the linear memory.
    pub mem: Vec<u8>,
    /// The live heap allocations.
    pub allocs: Vec<Block>,
    /// Freed blocks available for reuse.
    pub free_blocks: Vec<Block>,
    /// The bump pointer: fresh blocks are carved here.
    pub next: u32,
}

impl View for GuestMemory {
    type V = GuestMemoryView;

    open spec fn view(&self) -> GuestMemoryView {
        GuestMemoryView {
            mem: self.mem@,
            allocs: self.allocs@,
            free_blocks: self.free_blocks@,
            next: self.next,
        }
    }
}

impl GuestMemory {
    /// Create a zeroed linear memory of `size` bytes with an empty heap.
    pub fn new(size: usize) -> (r: Result<GuestMemory, GuestError>)
        ensures
            match r {
                Ok(m) => {
                    &&& size <= MAX_GUEST_MEMORY_BYTES
                    &&& m@.wf()
                    &&& m@.mem == Seq::new(size as nat, |i: int| 0u8)
                    &&& m@.allocs.len() == 0
                    &&& m@.free_blocks.len() == 0
                    &&& m@.next == 0
                },
                Err(e) => e == GuestError::OutOfBounds && size > MAX_GUEST_MEMORY_BYTES,
            },
    {
        if size > MAX_GUEST_MEMORY_BYTES {
            return Err(GuestError::OutOfBounds);
        }
        let mut mem: Vec<u8> = Vec::new();
        mem.resize(size, 0u8);
        proof {
            assert(mem@ =~= Seq::new(size as nat, |i: int| 0u8));
        }
        Ok(GuestMemory { mem, allocs: Vec::new(), free_blocks: Vec::new(), next: 0 })
    }

    /// Read `len` bytes at `addr`.
    pub fn read(&self, addr: u32, len: usize) -> (r: Result<Vec<u8>, GuestError>)
        ensures
            match r {
                Ok(b) => {
                    &&& addr + len <= self@.mem.len()
                    &&& b@ == self@.mem.subrange(addr as int, addr + len)
                },
                Err(e) => e == GuestError::OutOfBounds && addr + len > self@.mem.len(),
            },
    {
        if len > self.mem.len() || addr as usize > self.mem.len() - len {
            return Err(GuestError::OutOfBounds);
        }
        let s = vstd::slice::slice_subrange(
            self.mem.as_slice(),
            addr as usize,
            addr as usize + len,
        );
        Ok(vstd::slice::slice_to_vec(s))
    }

    /// Write `bytes` at `addr`. The heap bookkeeping is untouched.
    pub fn write(&mut self, addr: u32, bytes: &[u8]) -> (r: Result<(), GuestError>)
        ensures
            match r {
                Ok(()) => {
                    &&& addr + bytes@.len() <= old(self)@.mem.len()
                    &&& final(self)@.mem == spec_write_bytes(old(self)@.mem, addr as int, bytes@)
                },
                Err(e) => {
                    &&& e == GuestError::OutOfBounds
                    &&& addr + bytes@.len() > old(self)@.mem.len()
                    &&& final(self)@ == old(self)@
                },
            },
            final(self)@.allocs == old(self)@.allocs,
            final(self)@.free_blocks == old(self)@.free_blocks,
            final(self)@.next == old(self)@.next,
            final(self)@.mem.len() == old(self)@.mem.len(),
            old(self)@.wf() ==> final(self)@.wf(),
    {
        let n = bytes.len();
        if n > self.mem.len() || addr as usize > self.mem.len() - n {
            return Err(GuestError::OutOfBounds);
        }
        assert(addr as usize + n <= usize::MAX);
        let mut i: usize = 0;
        while i < n
            invariant
                n == bytes@.len(),
                addr + n <= self.mem@.len(),
                addr as usize + n <= usize::MAX,
                i <= n,
                self.mem@.len() == old(self)@.mem.len(),
                self.allocs@ == old(self)@.allocs,
                self.free_blocks@ == old(self)@.free_blocks,
                self.next == old(self)@.next,
                forall|k: int|
                    0 <= k < self.mem@.len() ==> self.mem@[k] == if addr <= k < addr + i {
                        bytes@[k - addr]
                    } else {
                        old(self)@.mem[k]
                    },
            decreases n - i,
        {
            let b = bytes[i];
            self.mem.set(addr as usize + i, b);
            i += 1;
        }
        proof {
            assert(self.mem@ =~= spec_write_bytes(old(self)@.mem, addr as int, bytes@));
        }
        Ok(())
    }

    /// Read the NUL-terminated byte string at `addr`, without the
    /// terminator.
    pub fn read_cstr(&self, addr: u32) -> (r: Result<Vec<u8>, GuestError>)
        ensures
            match r {
                Ok(b) => spec_cstr_at(self@.mem, addr as int) == Some(b@),
                Err(e) => e == GuestError::UnterminatedCString && spec_cstr_at(
                    self@.mem,
                    addr as int,
                ) is None,
            },
    {
        let mut out: Vec<u8> = Vec::new();
        let mut p = addr as usize;
        loop
            invariant
                addr <= p,
                out@.len() == p - addr,
                spec_cstr_at(self@.mem, addr as int) matches Some(s) ==> (
                spec_cstr_at(self@.mem, p as int) matches Some(t) && s == out@ + t),
                spec_cstr_at(self@.mem, addr as int) is None ==> spec_cstr_at(
                    self@.mem,
                    p as int,
                ) is None,
            decreases self.mem@.len() - p,
        {
            if p >= self.mem.len() {
                return Err(GuestError::UnterminatedCString);
            }
            let b = self.mem[p];
            if b == 0 {
                proof {
                    assert(spec_cstr_at(self@.mem, p as int) == Some(Seq::<u8>::empty()));
                    assert(out@ + Seq::<u8>::empty() =~= out@);
                }
                return Ok(out);
            }
            out.push(b);
            proof {
                if spec_cstr_at(self@.mem, addr as int) is Some {
                    let t = spec_cstr_at(self@.mem, p as int).unwrap();
                    assert(t == seq![self@.mem[p as int]] + spec_cstr_at(
                        self@.mem,
                        p + 1,
                    ).unwrap());
                    assert(spec_cstr_at(self@.mem, addr as int).unwrap() =~= out@ + spec_cstr_at(
                        self@.mem,
                        p + 1,
                    ).unwrap());
                }
            }
            p += 1;
        }
    }

    /// Allocate `len` bytes: reuse a freed block of exactly `len` bytes if
    /// one exists, otherwise carve a fresh block at the bump pointer.
    pub fn malloc(&mut self, len: u32) -> (r: Result<u32, GuestError>)
        requires
            old(self)@.wf(),
        ensures
            final(self)@.wf(),
            final(self)@.mem == old(self)@.mem,
            match r {
                Ok(addr) => {
                    &&& addr + len <= final(self)@.next <= old(self)@.mem.len()
                    &&& final(self)@.allocs == old(self)@.allocs.push(Block { addr, len })
                    &&& forall|i: int|
                        0 <= i < old(self)@.allocs.len() ==> spec_disjoint(
                            Block { addr, len },
                            #[trigger] old(self)@.allocs[i],
                        )
                    &&& old(self)@.has_free_of_len(len) ==> final(self)@.next == old(self)@.next
                        && final(self)@.free_blocks.len() == old(self)@.free_blocks.len() - 1
                    &&& !old(self)@.has_free_of_len(len) ==> final(self)@.next == old(self)@.next
                        + len && final(self)@.free_blocks == old(self)@.free_blocks
                },
                Err(e) => {
                    &&& e == GuestError::OutOfMemory
                    &&& final(self)@ == old(self)@
                    &&& !old(self)@.has_free_of_len(len)
                    &&& old(self)@.next + len > old(self)@.mem.len()
                },
            },
    {
        // First try to reuse a freed block of exactly this size.
        let mut i: usize = 0;
        while i < self.free_blocks.len()
            invariant
                self@ == old(self)@,
                old(self)@.wf(),
                i <= self.free_blocks@.len(),
                forall|k: int| 0 <= k < i ==> (#[trigger] self.free_blocks@[k]).len != len,
            decreases self.free_blocks@.len() - i,
        {
            if self.free_blocks[i].len == len {
                let ghost ov = old(self)@;
                let ghost gi = i as int;
                proof {
                    assert(ov.free_blocks[gi].len == len);
                    assert(ov.has_free_of_len(len));
                }
                let b = self.free_blocks.remove(i);
                self.allocs.push(b);
                proof {
                    let nv = self@;
                    assert(b == ov.free_blocks[gi]);
                    assert(nv.allocs =~= ov.allocs.push(b));
                    assert(forall|k: int|
                        0 <= k < nv.free_blocks.len() ==> #[trigger] nv.free_blocks[k] == if k
                            < gi {
                            ov.free_blocks[k]
                        } else {
                            ov.free_blocks[k + 1]
                        });
                    assert forall|p: int, q: int|
                        0 <= p < nv.allocs.len() && 0 <= q < nv.allocs.len() && p
                            != q implies spec_disjoint(
                        #[trigger] nv.allocs[p],
                        #[trigger] nv.allocs[q],
                    ) by {
                        if p == nv.allocs.len() - 1 {
                            assert(nv.allocs[p] == ov.free_blocks[gi]);
                            assert(nv.allocs[q] == ov.allocs[q]);
                            assert(spec_disjoint(ov.free_blocks[gi], ov.allocs[q]));
                        } else if q == nv.allocs.len() - 1 {
                            assert(nv.allocs[q] == ov.free_blocks[gi]);
                            assert(nv.allocs[p] == ov.allocs[p]);
                            assert(spec_disjoint(ov.free_blocks[gi], ov.allocs[p]));
                        } else {
                            assert(nv.allocs[p] == ov.allocs[p]);
                            assert(nv.allocs[q] == ov.allocs[q]);
                        }
                    }
                    assert forall|p: int, q: int|
                        0 <= p < nv.free_blocks.len() && 0 <= q
                            < nv.allocs.len() implies spec_disjoint(
                        #[trigger] nv.free_blocks[p],
                        #[trigger] nv.allocs[q],
                    ) by {
                        let po = if p < gi {
                            p
                        } else {
                            p + 1
                        };
                        assert(nv.free_blocks[p] == ov.free_blocks[po]);
                        if q == nv.allocs.len() - 1 {
                            assert(nv.allocs[q] == ov.free_blocks[gi]);
                            assert(po != gi);
                            assert(spec_disjoint(ov.free_blocks[po], ov.free_blocks[gi]));
                        } else {
                            assert(nv.allocs[q] == ov.allocs[q]);
                        }
                    }
                    assert forall|p: int, q: int|
                        0 <= p < nv.free_blocks.len() && 0 <= q < nv.free_blocks.len() && p
                            != q implies spec_disjoint(
                        #[trigger] nv.free_blocks[p],
                        #[trigger] nv.free_blocks[q],
                    ) by {
                        let po = if p < gi {
                            p
                        } else {
                            p + 1
                        };
                        let qo = if q < gi {
                            q
                        } else {
                            q + 1
                        };
                        assert(nv.free_blocks[p] == ov.free_blocks[po]);
                        assert(nv.free_blocks[q] == ov.free_blocks[qo]);
                    }
                }
                return Ok(b.addr);
            }
            i += 1;
        }
        proof {
            assert(!old(self)@.has_free_of_len(len));
        }
        // No reusable block: carve a fresh one at the bump pointer.
        if len as usize > self.mem.len() - self.next as usize {
            return Err(GuestError::OutOfMemory);
        }
        let addr = self.next;
        let b = Block { addr, len };
        self.next = self.next + len;
        self.allocs.push(b);
        proof {
            let ov = old(self)@;
            let nv = self@;
            assert(nv.allocs =~= ov.allocs.push(b));
            assert forall|p: int, q: int|
                0 <= p < nv.allocs.len() && 0 <= q < nv.allocs.len() && p != q implies spec_disjoint(
                #[trigger] nv.allocs[p],
                #[trigger] nv.allocs[q],
            ) by {
                if p == nv.allocs.len() - 1 {
                    assert(nv.allocs[q] == ov.allocs[q]);
                    assert(ov.allocs[q].addr + ov.allocs[q].len <= ov.next);
                } else if q == nv.allocs.len() - 1 {
                    assert(nv.allocs[p] == ov.allocs[p]);
                    assert(ov.allocs[p].addr + ov.allocs[p].len <= ov.next);
                } else {
                    assert(nv.allocs[p] == ov.allocs[p]);
                    assert(nv.allocs[q] == ov.allocs[q]);
                }
            }
            assert forall|p: int, q: int|
                0 <= p < nv.free_blocks.len() && 0 <= q < nv.allocs.len() implies spec_disjoint(
                #[trigger] nv.free_blocks[p],
                #[trigger] nv.allocs[q],
            ) by {
                if q == nv.allocs.len() - 1 {
                    assert(ov.free_blocks[p].addr + ov.free_blocks[p].len <= ov.next);
                } else {
                    assert(nv.allocs[q] == ov.allocs[q]);
                }
            }
        }
        Ok(addr)
    }

    /// Free the live allocation that starts at `addr`.
    pub fn free(&mut self, addr: u32) -> (r: Result<(), GuestError>)
        requires
            old(self)@.wf(),
        ensures
            final(self)@.wf(),
            final(self)@.mem == old(self)@.mem,
            final(self)@.next == old(self)@.next,
            match r {
                Ok(()) => {
                    &&& old(self)@.has_alloc(addr)
                    &&& exists|i: int|
                        0 <= i < old(self)@.allocs.len() && (#[trigger] old(
                            self,
                        )@.allocs[i]).addr == addr && final(self)@.allocs == old(
                            self,
                        )@.allocs.remove(i) && final(self)@.free_blocks == old(
                            self,
                        )@.free_blocks.push(old(self)@.allocs[i])
                },
                Err(e) => {
                    &&& e == GuestError::OutOfBounds
                    &&& !old(self)@.has_alloc(addr)
                    &&& final(self)@ == old(self)@
                },
            },
    {
        let mut i: usize = 0;
        while i < self.allocs.len()
            invariant
                self@ == old(self)@,
                old(self)@.wf(),
                i <= self.allocs@.len(),
                forall|k: int| 0 <= k < i ==> (#[trigger] self.allocs@[k]).addr != addr,
            decreases self.allocs@.len() - i,
        {
            if self.allocs[i].addr == addr {
                let ghost ov = old(self)@;
                let ghost gi = i as int;
                proof {
                    assert(ov.allocs[gi].addr == addr);
                    assert(ov.has_alloc(addr));
                }
                let b = self.allocs.remove(i);
                self.free_blocks.push(b);
                proof {
                    let nv = self@;
                    assert(b == ov.allocs[gi]);
                    assert(nv.free_blocks =~= ov.free_blocks.push(b));
                    assert(forall|k: int|
                        0 <= k < nv.allocs.len() ==> #[trigger] nv.allocs[k] == if k < gi {
                            ov.allocs[k]
                        } else {
                            ov.allocs[k + 1]
                        });
                    assert forall|p: int, q: int|
                        0 <= p < nv.allocs.len() && 0 <= q < nv.allocs.len() && p
                            != q implies spec_disjoint(
                        #[trigger] nv.allocs[p],
                        #[trigger] nv.allocs[q],
                    ) by {
                        let po = if p < gi {
                            p
                        } else {
                            p + 1
                        };
                        let qo = if q < gi {
                            q
                        } else {
                            q + 1
                        };
                        assert(nv.allocs[p] == ov.allocs[po]);
                        assert(nv.allocs[q] == ov.allocs[qo]);
                    }
                    assert forall|p: int, q: int|
                        0 <= p < nv.free_blocks.len() && 0 <= q
                            < nv.allocs.len() implies spec_disjoint(
                        #[trigger] nv.free_blocks[p],
                        #[trigger] nv.allocs[q],
                    ) by {
                        let qo = if q < gi {
                            q
                        } else {
                            q + 1
                        };
                        assert(nv.allocs[q] == ov.allocs[qo]);
                        if p == nv.free_blocks.len() - 1 {
                            assert(nv.free_blocks[p] == ov.allocs[gi]);
                            assert(qo != gi);
                            assert(spec_disjoint(ov.allocs[gi], ov.allocs[qo]));
                        } else {
                            assert(nv.free_blocks[p] == ov.free_blocks[p]);
                        }
                    }
                    assert forall|p: int, q: int|
                        0 <= p < nv.free_blocks.len() && 0 <= q < nv.free_blocks.len() && p
                            != q implies spec_disjoint(
                        #[trigger] nv.free_blocks[p],
                        #[trigger] nv.free_blocks[q],
                    ) by {
                        if p == nv.free_blocks.len() - 1 {
                            assert(nv.free_blocks[p] == ov.allocs[gi]);
                            assert(nv.free_blocks[q] == ov.free_blocks[q]);
                            assert(spec_disjoint(ov.free_blocks[q], ov.allocs[gi]));
                        } else if q == nv.free_blocks.len() - 1 {
                            assert(nv.free_blocks[q] == ov.allocs[gi]);
                            assert(nv.free_blocks[p] == ov.free_blocks[p]);
                            assert(spec_disjoint(ov.free_blocks[p], ov.allocs[gi]));
                        } else {
                            assert(nv.free_blocks[p] == ov.free_blocks[p]);
                            assert(nv.free_blocks[q] == ov.free_blocks[q]);
                        }
                    }
                }
                return Ok(());
            }
            i += 1;
        }
        Err(GuestError::OutOfBounds)
    }
}

} // verus!
