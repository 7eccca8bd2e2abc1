//! The `Loaded` phase of the sandbox lifecycle: a VM with the engine and a
//! module instantiated, ready to execute guest calls, with snapshot and
//! restore, poisoning, and interruption.
//!
//! The vCPU run itself is the hypervisor's work: a driver writes the
//! encoded parameter frame into the mailbox, runs the vCPU, and hands the
//! outcome back as a `VmRun` value. The verified state machine decides
//! everything else.

use vstd::prelude::*;

use crate::errors::SandboxError;
use crate::func_types::{FunctionCall, FunctionCallView, ReturnValue, ValueView};
use crate::hostfuncs::{HostFunctionDefinition, HostFunctionDefinitionView};

verus! {

/// An immutable capture of guest memory, sufficient to reproduce a prior
/// state via `restore`.
#[derive(Debug, Clone, PartialEq)]
pub struct Snapshot {
    /// The captured guest memory.
    pub mem: Vec<u8>,
}

impl View for Snapshot {
    type V = Seq<u8>;

    open spec fn view(&self) -> Seq<u8> {
        self.mem@
    }
}

/// Ghost image of the outcome of one vCPU run.
pub ghost enum VmRunView {
    /// The guest ran to completion: the return mailbox bytes and the guest
    /// memory after the run.
    Completed { output: Seq<u8>, mem_after: Seq<u8> },
    /// The run was terminated by an interrupt handle.
    Cancelled,
    /// The guest aborted (panic or trap).
    GuestAborted,
    /// The guest faulted on memory outside any serviceable region.
    MemoryFault,
    /// The guest exhausted its stack or heap.
    StackExhausted,
}

/// The outcome of one vCPU run, as the driver reports it.
#[derive(Debug, Clone, PartialEq)]
pub enum VmRun {
    /// The guest ran to completion: the return mailbox bytes and the guest
    /// memory after the run.
    Completed {
        /// The bytes of the guest-to-host result mailbox.
        output: Vec<u8>,
        /// The guest memory after the run.
        mem_after: Vec<u8>,
    },
    /// The run was terminated by an interrupt handle.
    Cancelled,
    /// The guest aborted (panic or trap).
    GuestAborted,
    /// The guest faulted on memory outside any serviceable region.
    MemoryFault,
    /// The guest exhausted its stack or heap.
    StackExhausted,
}

impl View for VmRun {
    type V = VmRunView;

    open spec fn view(&self) -> VmRunView {
        match self {
            VmRun::Completed { output, mem_after } => VmRunView::Completed {
                output: output@,
                mem_after: mem_after@,
            },
            VmRun::Cancelled => VmRunView::Cancelled,
            VmRun::GuestAborted => VmRunView::GuestAborted,
            VmRun::MemoryFault => VmRunView::MemoryFault,
            VmRun::StackExhausted => VmRunView::StackExhausted,
        }
    }
}

/// Ghost image of a `Loaded` sandbox.
pub ghost struct LoadedWasmSandboxView {
    /// The sealed host-function registry.
    pub registry: Seq<HostFunctionDefinitionView>,
    /// The current guest memory.
    pub mem: Seq<u8>,
    /// The `Runtime` snapshot retained for unloading.
    pub runtime_snapshot: Seq<u8>,
    /// Whether the sandbox is poisoned.
    pub poisoned: bool,
    /// Whether a kill is latched for the next call.
    pub pending_kill: bool,
}

/// A sandbox with both the Wasm engine and a module loaded, ready to
/// execute guest calls.
#[derive(Debug, Clone)]
pub struct LoadedWasmSandbox {
    /// The sealed host-function registry.
    pub registry: Vec<HostFunctionDefinition>,
    /// The current guest memory.
    pub mem: Vec<u8>,
    /// The `Runtime` snapshot retained for unloading.
    pub runtime_snapshot: Snapshot,
    /// Whether the sandbox is poisoned.
    pub poisoned: bool,
    /// Whether a kill is latched for the next call.
    pub pending_kill: bool,
}

impl View for LoadedWasmSandbox {
    type V = LoadedWasmSandboxView;

    open spec fn view(&self) -> LoadedWasmSandboxView {
        LoadedWasmSandboxView {
            registry: self.registry@.map_values(|d: HostFunctionDefinition| d@),
            mem: self.mem@,
            runtime_snapshot: self.runtime_snapshot@,
            poisoned: self.poisoned,
            pending_kill: self.pending_kill,
        }
    }
}

/// What one guest call does to a `Loaded` sandbox: the successor state and
/// the outcome handed to the caller.
///
/// A poisoned sandbox refuses the call outright; a latched kill is consumed
/// and fails the call the way an in-flight kill would; an abnormal exit
/// poisons the sandbox and surfaces its own error, never `PoisonedSandbox`;
/// a normal exit installs the new guest memory and decodes the return
/// frame.
pub open spec fn spec_call_guest_function(
    l: LoadedWasmSandboxView,
    fc: FunctionCallView,
    run: VmRunView,
) -> (LoadedWasmSandboxView, Result<ValueView, SandboxError>) {
    if l.poisoned {
        (l, Err(SandboxError::PoisonedSandbox))
    } else if l.pending_kill {
        (
            LoadedWasmSandboxView { poisoned: true, pending_kill: false, ..l },
            Err(SandboxError::ExecutionCanceledByHost),
        )
    } else if !crate::codec::spec_call_wf(fc) {
        (l, Err(SandboxError::MarshallingError))
    } else {
        match run {
            VmRunView::Completed { output, mem_after } => {
                let l2 = LoadedWasmSandboxView { mem: mem_after, pending_kill: false, ..l };
                match crate::codec::spec_decode_return(output) {
                    Some(v) => if crate::func_types::spec_return_type_of(v)
                        == fc.expected_return_type {
                        (l2, Ok(v))
                    } else {
                        (l2, Err(SandboxError::MarshallingError))
                    },
                    None => (l2, Err(SandboxError::MarshallingError)),
                }
            },
            VmRunView::Cancelled => (
                LoadedWasmSandboxView { poisoned: true, pending_kill: false, ..l },
                Err(SandboxError::ExecutionCanceledByHost),
            ),
            VmRunView::GuestAborted => (
                LoadedWasmSandboxView { poisoned: true, pending_kill: false, ..l },
                Err(SandboxError::GuestAborted),
            ),
            VmRunView::MemoryFault => (
                LoadedWasmSandboxView { poisoned: true, pending_kill: false, ..l },
                Err(SandboxError::MemoryFault),
            ),
            VmRunView::StackExhausted => (
                LoadedWasmSandboxView { poisoned: true, pending_kill: false, ..l },
                Err(SandboxError::StackExhausted),
            ),
        }
    }
}

/// What `snapshot` returns: the captured memory on a healthy sandbox, and
/// `PoisonedSandbox` otherwise. The sandbox itself never changes.
pub open spec fn spec_snapshot(l: LoadedWasmSandboxView) -> Result<Seq<u8>, SandboxError> {
    if l.poisoned {
        Err(SandboxError::PoisonedSandbox)
    } else {
        Ok(l.mem)
    }
}

/// What `restore` does: overwrite guest memory from the snapshot and
/// unconditionally clear poisoning.
pub open spec fn spec_restore(l: LoadedWasmSandboxView, s: Seq<u8>) -> LoadedWasmSandboxView {
    LoadedWasmSandboxView { mem: s, poisoned: false, ..l }
}

/// What `unload_module` produces: a `Runtime` sandbox restored from the
/// retained snapshot, whatever the poisoning state was.
pub open spec fn spec_unload_module(
    l: LoadedWasmSandboxView,
) -> crate::wasm_sandbox::WasmSandboxView {
    crate::wasm_sandbox::WasmSandboxView {
        registry: l.registry,
        mem: l.runtime_snapshot,
        runtime_snapshot: l.runtime_snapshot,
    }
}

/// What `kill` does: latch an interrupt for the call in progress or the
/// next one.
pub open spec fn spec_kill(l: LoadedWasmSandboxView) -> LoadedWasmSandboxView {
    LoadedWasmSandboxView { pending_kill: true, ..l }
}

impl LoadedWasmSandbox {
    /// Execute a guest call: the driver has placed the encoded frame for
    /// `fc` in the mailbox and run the vCPU with outcome `run`; decide the
    /// successor state and decode the result.
    pub fn call_guest_function(&mut self, fc: &FunctionCall, run: VmRun) -> (r: Result<
        ReturnValue,
        SandboxError,
    >)
        ensures
            (*final(self))@ == spec_call_guest_function((*old(self))@, fc@, run@).0,
            match spec_call_guest_function((*old(self))@, fc@, run@).1 {
                Ok(v) => r matches Ok(rv) && rv@ == v,
                Err(e) => r == Err::<ReturnValue, SandboxError>(e),
            },
    {
        if self.poisoned {
            return Err(SandboxError::PoisonedSandbox);
        }
        if self.pending_kill {
            self.poisoned = true;
            self.pending_kill = false;
            return Err(SandboxError::ExecutionCanceledByHost);
        }
        // The frame itself travels through the driver; here only its
        // encodability decides between proceeding and a marshalling error.
        match crate::codec::encode_function_call(fc) {
            Some(_) => {},
            None => {
                return Err(SandboxError::MarshallingError);
            },
        }
        match run {
            VmRun::Completed { output, mem_after } => {
                self.mem = mem_after;
                self.pending_kill = false;
                match crate::codec::decode_return_value(&output) {
                    Some(rv) => {
                        let rt = crate::func_types::return_type_from_val(&rv);
                        if rt == fc.expected_return_type {
                            Ok(rv)
                        } else {
                            Err(SandboxError::MarshallingError)
                        }
                    },
                    None => Err(SandboxError::MarshallingError),
                }
            },
            VmRun::Cancelled => {
                self.poisoned = true;
                self.pending_kill = false;
                Err(SandboxError::ExecutionCanceledByHost)
            },
            VmRun::GuestAborted => {
                self.poisoned = true;
                self.pending_kill = false;
                Err(SandboxError::GuestAborted)
            },
            VmRun::MemoryFault => {
                self.poisoned = true;
                self.pending_kill = false;
                Err(SandboxError::MemoryFault)
            },
            VmRun::StackExhausted => {
                self.poisoned = true;
                self.pending_kill = false;
                Err(SandboxError::StackExhausted)
            },
        }
    }

    /// Capture the current state of the sandbox; fails on a poisoned
    /// sandbox.
    pub fn snapshot(&mut self) -> (r: Result<Snapshot, SandboxError>)
        ensures
            *final(self) == *old(self),
            match spec_snapshot((*old(self))@) {
                Ok(m) => r matches Ok(s) && s@ == m,
                Err(e) => r == Err::<Snapshot, SandboxError>(e),
            },
    {
        if self.poisoned {
            return Err(SandboxError::PoisonedSandbox);
        }
        Ok(Snapshot { mem: self.mem.clone() })
    }

    /// Overwrite the sandbox state from a snapshot; unconditionally clears
    /// poisoning.
    pub fn restore(&mut self, s: &Snapshot) -> (r: Result<(), SandboxError>)
        ensures
            r is Ok,
            (*final(self))@ == spec_restore((*old(self))@, s@),
    {
        self.mem = s.mem.clone();
        self.poisoned = false;
        Ok(())
    }

    /// Unload the module: restore the retained `Runtime` snapshot and hand
    /// the `Runtime` sandbox back. This succeeds whatever the poisoning
    /// state, and is the primary recovery path.
    pub fn unload_module(self) -> (r: crate::wasm_sandbox::WasmSandbox)
        ensures
            r@ == spec_unload_module(self@),
    {
        let snapshot_mem = self.runtime_snapshot.mem.clone();
        crate::wasm_sandbox::WasmSandbox {
            registry: self.registry,
            mem: snapshot_mem,
            runtime_snapshot: self.runtime_snapshot,
        }
    }

    /// Latch an interrupt: an in-progress call is reported by the driver as
    /// `Cancelled`; with no call in progress the kill is consumed by the
    /// next call, which fails the same way.
    pub fn kill(&mut self)
        ensures
            (*final(self))@ == spec_kill((*old(self))@),
    {
        self.pending_kill = true;
    }

    /// Whether the sandbox is poisoned.
    pub fn is_poisoned(&self) -> (r: bool)
        ensures
            r == self@.poisoned,
    {
        self.poisoned
    }
}

/// Encode the parameter frame the driver places in the host-to-guest
/// mailbox before running the vCPU.
pub fn encode_guest_call_frame(fc: &FunctionCall) -> (r: Result<Vec<u8>, SandboxError>)
    ensures
        match r {
            Ok(b) => crate::codec::spec_call_wf(fc@) && b@ == crate::codec::spec_encode_call(fc@),
            Err(e) => e == SandboxError::MarshallingError && !crate::codec::spec_call_wf(fc@),
        },
{
    match crate::codec::encode_function_call(fc) {
        Some(b) => Ok(b),
        None => Err(SandboxError::MarshallingError),
    }
}

} // verus!
