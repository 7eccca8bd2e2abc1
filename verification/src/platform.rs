//! The engine's platform callbacks inside the bare-metal guest: a coarse
//! virtual-address allocator backing `mmap`, the permitted `mprotect`
//! transitions, the page-fault window check, trap forwarding for the
//! invalid-opcode vector, single-slot TLS, and the custom code memory.

use vstd::prelude::*;

use crate::errors::GuestError;

verus! {

/// The base of the engine's virtual-address window.
pub const VA_WINDOW_BASE: u64 = 0x100_0000_0000;

/// The stride between handed-out virtual-address ranges: regions are
/// overprovisioned so that growth needs no remapping.
pub const VA_STRIDE: u64 = 0x100_0000_0000;

/// The guest page size.
pub const OS_PAGE_SIZE: usize = 4096;

/// The exception vector serviced for engine-window page faults.
pub const PAGE_FAULT_VECTOR: u64 = 14;

/// The invalid-opcode exception vector, used by the engine to signal a
/// trap.
pub const TRAP_VECTOR: u64 = 6;

/// The coarse virtual-address allocator behind the engine's `mmap`
/// callback: addresses are handed out at a fixed large stride and never
/// reclaimed before sandbox teardown.
#[derive(Debug, Clone, Copy, PartialEq, Eq, Structural)]
pub struct VaAllocator {
    /// The next address to hand out.
    pub next: u64,
}

impl VaAllocator {
    /// A fresh allocator at the base of the engine's window.
    pub fn new() -> (r: VaAllocator)
        ensures
            r.next == VA_WINDOW_BASE,
    {
        VaAllocator { next: VA_WINDOW_BASE }
    }

    /// Hand out a fresh unbacked virtual-address range; pages are faulted
    /// in on first access. Fails on a request larger than the stride or
    /// when the address space is spent.
    pub fn wasmtime_mmap_new(&mut self, size: u64) -> (r: Result<u64, GuestError>)
        ensures
            match r {
                Ok(addr) => {
                    &&& size <= VA_STRIDE
                    &&& addr == (*old(self)).next
                    &&& (*final(self)).next == (*old(self)).next + VA_STRIDE
                },
                Err(e) => {
                    &&& e == GuestError::OutOfMemory
                    &&& *final(self) == *old(self)
                    &&& (size > VA_STRIDE || (*old(self)).next + VA_STRIDE > u64::MAX)
                },
            },
    {
        if size > VA_STRIDE {
            return Err(GuestError::OutOfMemory);
        }
        if self.next > u64::MAX - VA_STRIDE {
            return Err(GuestError::OutOfMemory);
        }
        let addr = self.next;
        self.next = self.next + VA_STRIDE;
        Ok(addr)
    }
}

/// Remapping is a size or permission change, both of which the coarse
/// allocator absorbs: a no-op for any size within the stride.
pub fn wasmtime_mmap_remap(size: u64) -> (r: i32)
    ensures
        r == if size <= VA_STRIDE {
            0i32
        } else {
            -1i32
        },
{
    if size <= VA_STRIDE {
        0
    } else {
        -1
    }
}

/// Unmapping is a no-op: memory is returned only at sandbox teardown.
pub fn wasmtime_munmap() -> (r: i32)
    ensures
        r == 0,
{
    0
}

/// The permission sets `mprotect` accepts: read, read-write and
/// read-execute. Permissions are not yet enforced in the page tables.
pub open spec fn spec_mprotect_allowed(prot_flags: u32) -> bool {
    prot_flags == 1 || prot_flags == 3 || prot_flags == 5
}

/// Accept or reject a permission change; accepted sets are currently
/// no-ops because all pages are mapped read-write-execute.
pub fn wasmtime_mprotect(prot_flags: u32) -> (r: i32)
    ensures
        r == if spec_mprotect_allowed(prot_flags) {
            0i32
        } else {
            -1i32
        },
{
    if prot_flags == 1 || prot_flags == 3 || prot_flags == 5 {
        0
    } else {
        -1
    }
}

/// The platform page size.
pub fn wasmtime_page_size() -> (r: usize)
    ensures
        r == OS_PAGE_SIZE,
{
    OS_PAGE_SIZE
}

/// Whether a page fault is serviceable: a non-present fault whose address
/// lies in the engine's virtual-address window. Such a fault gets a fresh
/// zeroed page; any other falls through and crashes the guest.
pub fn page_fault_in_window(error_code: u64, page_fault_address: u64) -> (r: bool)
    ensures
        r == ((error_code & 1) == 0 && page_fault_address >= VA_WINDOW_BASE),
{
    (error_code & 1) == 0 && page_fault_address >= VA_WINDOW_BASE
}

/// The page a serviceable fault maps: the faulting address rounded down to
/// its page base.
pub fn fault_page_base(page_fault_address: u64) -> (r: u64)
    ensures
        r == page_fault_address & !0xfffu64,
{
    page_fault_address & !0xfffu64
}

/// The saved registers a trap rewrite manipulates: the interrupted
/// instruction pointer and frame pointer, and the scratch registers the
/// redirect convention fills.
#[derive(Debug, Clone, Copy, PartialEq, Eq, Structural)]
pub struct TrapContext {
    /// The saved instruction pointer; rewritten to the trap handler.
    pub rip: u64,
    /// The saved frame pointer.
    pub rbp: u64,
    /// Scratch register receiving the original instruction pointer.
    pub scratch_rip: u64,
    /// Scratch register receiving the original frame pointer.
    pub scratch_rbp: u64,
    /// Scratch register zeroed by the convention.
    pub scratch_a: u64,
    /// Scratch register zeroed by the convention.
    pub scratch_b: u64,
}

/// The trap-forwarding state: the handler the engine registered.
#[derive(Debug, Clone, Copy, PartialEq, Eq, Structural)]
pub struct TrapState {
    /// The engine's registered trap handler, or zero for none.
    pub requested_handler: u64,
}

impl TrapState {
    /// No handler registered yet.
    pub fn new() -> (r: TrapState)
        ensures
            r.requested_handler == 0,
    {
        TrapState { requested_handler: 0 }
    }

    /// Record the engine's trap handler; the invalid-opcode vector is then
    /// forwarded to it.
    pub fn wasmtime_init_traps(&mut self, handler: u64) -> (r: i32)
        ensures
            r == 0,
            (*final(self)).requested_handler == handler,
    {
        self.requested_handler = handler;
        0
    }

    /// Decide a trap: on the invalid-opcode vector with a handler
    /// registered, redirect execution into the handler, preserving the
    /// original instruction and frame pointers in scratch registers; any
    /// other exception is not re-signalled to the engine.
    pub fn wasmtime_trap_handler(&self, exception_number: u64, ctx: TrapContext) -> (r: (
        bool,
        TrapContext,
    ))
        ensures
            (self.requested_handler != 0 && exception_number == TRAP_VECTOR) ==> r == ((
                true,
                TrapContext {
                    rip: self.requested_handler,
                    rbp: ctx.rbp,
                    scratch_rip: ctx.rip,
                    scratch_rbp: ctx.rbp,
                    scratch_a: 0u64,
                    scratch_b: 0u64,
                },
            )),
            !(self.requested_handler != 0 && exception_number == TRAP_VECTOR) ==> r == ((
                false,
                ctx,
            )),
    {
        if self.requested_handler != 0 && exception_number == TRAP_VECTOR {
            (
                true,
                TrapContext {
                    rip: self.requested_handler,
                    rbp: ctx.rbp,
                    scratch_rip: ctx.rip,
                    scratch_rbp: ctx.rbp,
                    scratch_a: 0,
                    scratch_b: 0,
                },
            )
        } else {
            (false, ctx)
        }
    }
}

/// Memory images are not supported: creation reports success with no
/// image, so the mapping and freeing entrypoints are never reached.
pub fn wasmtime_memory_image_new() -> (r: (i32, Option<u64>))
    ensures
        r == (0i32, None::<u64>),
{
    (0, None)
}

/// The single-slot thread-local storage: sufficient because the guest is
/// single-threaded.
#[derive(Debug, Clone, Copy, PartialEq, Eq, Structural)]
pub struct TlsSlot {
    /// The stored pointer value.
    pub ptr: u64,
}

impl TlsSlot {
    /// An empty slot.
    pub fn new() -> (r: TlsSlot)
        ensures
            r.ptr == 0,
    {
        TlsSlot { ptr: 0 }
    }

    /// Read the slot.
    pub fn wasmtime_tls_get(&self) -> (r: u64)
        ensures
            r == self.ptr,
    {
        self.ptr
    }

    /// Write the slot.
    pub fn wasmtime_tls_set(&mut self, ptr: u64)
        ensures
            (*final(self)).ptr == ptr,
    {
        self.ptr = ptr;
    }
}

/// The engine's custom code memory: alignment is the page size, and
/// publishing is a no-op while code pages stay read-write-execute.
#[derive(Debug, Clone, Copy, PartialEq, Eq, Structural)]
pub struct WasmtimeCodeMemory {
}

impl WasmtimeCodeMemory {
    /// Code must be page-aligned.
    pub fn required_alignment(&self) -> (r: usize)
        ensures
            r == OS_PAGE_SIZE,
    {
        OS_PAGE_SIZE
    }

    /// Mark a code range executable: currently a no-op.
    pub fn publish_executable(&self) -> (r: Result<(), GuestError>)
        ensures
            r is Ok,
    {
        Ok(())
    }

    /// Mark a code range non-executable again: currently a no-op.
    pub fn unpublish_executable(&self) -> (r: Result<(), GuestError>)
        ensures
            r is Ok,
    {
        Ok(())
    }
}

} // verus!
