//! The `Runtime` phase of the sandbox lifecycle: the engine is initialized
//! inside the guest and a snapshot of this state is retained, so a later
//! `Loaded` sandbox can return here by unloading its module.
//!
//! Loading a module has two paths: mapping an ahead-of-time-compiled
//! artifact at a fixed guest virtual address and calling
//! `LoadWasmModulePhys`, or copying the bytes through the mailbox and
//! calling `LoadWasmModule`. The mapping itself and any file reading are
//! the driver's work; the verified logic frames the entrypoint calls and
//! decides the transition from the run outcome.

use vstd::prelude::*;

use crate::errors::SandboxError;
use crate::func_types::{
    FunctionCall, ParameterValue, ReturnType, ReturnValue, ValueView,
};
use crate::hostfuncs::{HostFunctionDefinition, HostFunctionDefinitionView};
use crate::loaded_sandbox::{LoadedWasmSandbox, LoadedWasmSandboxView, Snapshot, VmRun, VmRunView};

verus! {

/// The fixed guest virtual address at which a module artifact is mapped.
pub const MAPPED_BINARY_VA: u64 = 0x1_0000_0000;

/// Ghost image of a `Runtime` sandbox.
pub ghost struct WasmSandboxView {
    /// The sealed host-function registry.
    pub registry: Seq<HostFunctionDefinitionView>,
    /// The current guest memory.
    pub mem: Seq<u8>,
    /// The snapshot of this `Runtime` state, retained for unloading.
    pub runtime_snapshot: Seq<u8>,
}

/// A sandbox with the Wasm engine loaded but no module: it can load a
/// module to become a `Loaded` sandbox.
#[derive(Debug, Clone)]
pub struct WasmSandbox {
    /// The sealed host-function registry.
    pub registry: Vec<HostFunctionDefinition>,
    /// The current guest memory.
    pub mem: Vec<u8>,
    /// The snapshot of this `Runtime` state, retained for unloading.
    pub runtime_snapshot: Snapshot,
}

impl View for WasmSandbox {
    type V = WasmSandboxView;

    open spec fn view(&self) -> WasmSandboxView {
        WasmSandboxView {
            registry: self.registry@.map_values(|d: HostFunctionDefinition| d@),
            mem: self.mem@,
            runtime_snapshot: self.runtime_snapshot@,
        }
    }
}

/// The `Loaded` sandbox that a successful module load produces: the new
/// guest memory, the retained `Runtime` snapshot, healthy and with no
/// latched kill.
pub open spec fn spec_loaded_from(w: WasmSandboxView, mem_after: Seq<u8>) -> LoadedWasmSandboxView {
    LoadedWasmSandboxView {
        registry: w.registry,
        mem: mem_after,
        runtime_snapshot: w.runtime_snapshot,
        poisoned: false,
        pending_kill: false,
    }
}

/// What loading a module from a byte buffer does: on a normal run that
/// returned zero, the `Loaded` sandbox; on a non-zero return or an
/// abnormal exit, an error, with the `Runtime` sandbox preserved for the
/// caller.
pub open spec fn spec_load_module_from_buffer(
    w: WasmSandboxView,
    buffer: Seq<u8>,
    run: VmRunView,
) -> Result<LoadedWasmSandboxView, (WasmSandboxView, SandboxError)> {
    if buffer.len() > i32::MAX {
        Err((w, SandboxError::MarshallingError))
    } else {
        match run {
            VmRunView::Completed { output, mem_after } => {
                match crate::codec::spec_decode_return(output) {
                    Some(v) => match v {
                        ValueView::Int(rc) => if rc == 0 {
                            Ok(spec_loaded_from(w, mem_after))
                        } else {
                            Err((w, SandboxError::LoadFailed(rc)))
                        },
                        _ => Err((w, SandboxError::MarshallingError)),
                    },
                    None => Err((w, SandboxError::MarshallingError)),
                }
            },
            VmRunView::Cancelled => Err((w, SandboxError::ExecutionCanceledByHost)),
            VmRunView::GuestAborted => Err((w, SandboxError::GuestAborted)),
            VmRunView::MemoryFault => Err((w, SandboxError::MemoryFault)),
            VmRunView::StackExhausted => Err((w, SandboxError::StackExhausted)),
        }
    }
}

/// What loading a mapped module does: `LoadWasmModulePhys` returns void on
/// success and is fatal on failure.
pub open spec fn spec_load_module_by_mapping(
    w: WasmSandboxView,
    run: VmRunView,
) -> Result<LoadedWasmSandboxView, (WasmSandboxView, SandboxError)> {
    match run {
        VmRunView::Completed { output, mem_after } => {
            match crate::codec::spec_decode_return(output) {
                Some(v) => if v is Void {
                    Ok(spec_loaded_from(w, mem_after))
                } else {
                    Err((w, SandboxError::MarshallingError))
                },
                None => Err((w, SandboxError::MarshallingError)),
            }
        },
        VmRunView::Cancelled => Err((w, SandboxError::ExecutionCanceledByHost)),
        VmRunView::GuestAborted => Err((w, SandboxError::GuestAborted)),
        VmRunView::MemoryFault => Err((w, SandboxError::MemoryFault)),
        VmRunView::StackExhausted => Err((w, SandboxError::StackExhausted)),
    }
}

impl WasmSandbox {
    /// The parameter frame of the copy path: `LoadWasmModule` with the
    /// artifact bytes and their length.
    pub fn load_module_frame(buffer: &Vec<u8>) -> (r: Result<FunctionCall, SandboxError>)
        ensures
            match r {
                Ok(fc) => {
                    &&& buffer@.len() <= i32::MAX
                    &&& fc@.function_name == "LoadWasmModule"@
                    &&& fc@.parameters == seq![
                        ValueView::Bytes(buffer@),
                        ValueView::Int(buffer@.len() as i32),
                    ]
                    &&& fc@.expected_return_type == ReturnType::Int
                },
                Err(e) => e == SandboxError::MarshallingError && buffer@.len() > i32::MAX,
            },
    {
        if buffer.len() > i32::MAX as usize {
            return Err(SandboxError::MarshallingError);
        }
        let len = buffer.len() as i32;
        let mut params: Vec<ParameterValue> = Vec::new();
        params.push(ParameterValue::VecBytes(buffer.clone()));
        params.push(ParameterValue::Int(len));
        let fc = FunctionCall {
            function_name: String::from_str("LoadWasmModule"),
            parameters: params,
            expected_return_type: ReturnType::Int,
        };
        proof {
            assert(fc@.parameters =~= seq![
                ValueView::Bytes(buffer@),
                ValueView::Int(buffer@.len() as i32),
            ]);
        }
        Ok(fc)
    }

    /// The parameter frame of the mapped path: `LoadWasmModulePhys` with
    /// the fixed guest virtual address and the mapped length.
    pub fn load_module_phys_frame(len: u64) -> (fc: FunctionCall)
        ensures
            fc@.function_name == "LoadWasmModulePhys"@,
            fc@.parameters == seq![
                ValueView::ULong(MAPPED_BINARY_VA),
                ValueView::ULong(len),
            ],
            fc@.expected_return_type == ReturnType::Void,
    {
        let mut params: Vec<ParameterValue> = Vec::new();
        params.push(ParameterValue::ULong(MAPPED_BINARY_VA));
        params.push(ParameterValue::ULong(len));
        let fc = FunctionCall {
            function_name: String::from_str("LoadWasmModulePhys"),
            parameters: params,
            expected_return_type: ReturnType::Void,
        };
        proof {
            assert(fc@.parameters =~= seq![
                ValueView::ULong(MAPPED_BINARY_VA),
                ValueView::ULong(len),
            ]);
        }
        fc
    }

    /// Load a module from a byte buffer copied through the mailbox. The
    /// driver has run `LoadWasmModule` with outcome `run`. On failure the
    /// `Runtime` sandbox comes back to the caller.
    pub fn load_module_from_buffer(self, buffer: &Vec<u8>, run: VmRun) -> (r: Result<
        LoadedWasmSandbox,
        (WasmSandbox, SandboxError),
    >)
        ensures
            match spec_load_module_from_buffer(self@, buffer@, run@) {
                Ok(l) => r matches Ok(lw) && lw@ == l,
                Err((w, e)) => r matches Err((ws, er)) && ws@ == w && er == e,
            },
    {
        if buffer.len() > i32::MAX as usize {
            return Err((self, SandboxError::MarshallingError));
        }
        match run {
            VmRun::Completed { output, mem_after } => {
                match crate::codec::decode_return_value(&output) {
                    Some(ReturnValue::Int(rc)) => {
                        if rc == 0 {
                            Ok(self.into_loaded(mem_after))
                        } else {
                            Err((self, SandboxError::LoadFailed(rc)))
                        }
                    },
                    Some(_) => Err((self, SandboxError::MarshallingError)),
                    None => Err((self, SandboxError::MarshallingError)),
                }
            },
            VmRun::Cancelled => Err((self, SandboxError::ExecutionCanceledByHost)),
            VmRun::GuestAborted => Err((self, SandboxError::GuestAborted)),
            VmRun::MemoryFault => Err((self, SandboxError::MemoryFault)),
            VmRun::StackExhausted => Err((self, SandboxError::StackExhausted)),
        }
    }

    /// Load a module that the driver mapped at the fixed guest virtual
    /// address and ran `LoadWasmModulePhys` over, with outcome `run`. On
    /// failure the `Runtime` sandbox comes back to the caller.
    pub fn load_module_by_mapping(self, run: VmRun) -> (r: Result<
        LoadedWasmSandbox,
        (WasmSandbox, SandboxError),
    >)
        ensures
            match spec_load_module_by_mapping(self@, run@) {
                Ok(l) => r matches Ok(lw) && lw@ == l,
                Err((w, e)) => r matches Err((ws, er)) && ws@ == w && er == e,
            },
    {
        match run {
            VmRun::Completed { output, mem_after } => {
                match crate::codec::decode_return_value(&output) {
                    Some(ReturnValue::Void) => Ok(self.into_loaded(mem_after)),
                    Some(_) => Err((self, SandboxError::MarshallingError)),
                    None => Err((self, SandboxError::MarshallingError)),
                }
            },
            VmRun::Cancelled => Err((self, SandboxError::ExecutionCanceledByHost)),
            VmRun::GuestAborted => Err((self, SandboxError::GuestAborted)),
            VmRun::MemoryFault => Err((self, SandboxError::MemoryFault)),
            VmRun::StackExhausted => Err((self, SandboxError::StackExhausted)),
        }
    }

    /// The `Loaded` sandbox a successful load produces.
    fn into_loaded(self, mem_after: Vec<u8>) -> (l: LoadedWasmSandbox)
        ensures
            l@ == spec_loaded_from(self@, mem_after@),
    {
        LoadedWasmSandbox {
            registry: self.registry,
            mem: mem_after,
            runtime_snapshot: self.runtime_snapshot,
            poisoned: false,
            pending_kill: false,
        }
    }
}

} // verus!
