//! Error types for the host-side sandbox lifecycle and the guest-side
//! runtime shim.

use vstd::prelude::*;

verus! {

/// Errors surfaced by the host-side sandbox operations.
#[derive(Debug, Clone, Copy, PartialEq, Eq, Structural)]
pub enum SandboxError {
    /// No virtualization backend is available on this machine.
    NoHypervisorFound,
    /// A host-function registration was rejected.
    RegistrationError,
    /// The guest's `InitWasmRuntime` entrypoint returned the carried
    /// non-zero code.
    InitFailed(i32),
    /// The guest's module-loading entrypoint returned the carried non-zero
    /// code.
    LoadFailed(i32),
    /// A guest call was terminated by an interrupt handle.
    ExecutionCanceledByHost,
    /// The guest aborted (panic or trap).
    GuestAborted,
    /// The guest faulted on memory outside any serviceable region.
    MemoryFault,
    /// The guest exhausted its stack or heap.
    StackExhausted,
    /// The sandbox is poisoned; only restore or unload can recover it.
    PoisonedSandbox,
    /// A value could not be encoded into, or decoded from, a wire frame.
    MarshallingError,
}

/// Errors produced by the guest-side runtime shim.
#[derive(Debug, Clone, Copy, PartialEq, Eq, Structural)]
pub enum GuestError {
    /// A guest memory access fell outside the linear memory.
    OutOfBounds,
    /// The guest heap could not satisfy an allocation.
    OutOfMemory,
    /// A C string in guest memory has no terminator inside the memory.
    UnterminatedCString,
    /// Bytes that should be UTF-8 text are not.
    NonUtf8,
    /// Text destined for a NUL-terminated buffer contains a NUL byte.
    InteriorNul,
    /// The called guest function is not exported by the loaded module.
    FunctionNotFound,
    /// A parameter did not match the declared parameter type.
    ParameterTypeMismatch,
    /// A declared `VecBytes` parameter is not followed by the `Int` length
    /// parameter that the vector-length convention demands.
    VectorLengthMissing,
    /// A wire type cannot be represented at the engine level.
    UnsupportedTypeCombination,
    /// A host function returned a value of a type other than its declared
    /// return type.
    ReturnTypeMismatch,
    /// The Wasm runtime has not been initialized or no module is loaded.
    RuntimeNotInitialized,
    /// A wire frame could not be decoded.
    MalformedFrame,
    /// A value is too large to be framed.
    FrameTooLarge,
}

} // verus!
