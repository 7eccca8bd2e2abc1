//! Verified core of a sandbox system that runs WebAssembly modules inside
//! hardware-virtualized micro-VMs.
//!
//! The library models and verifies the logic that the system's correctness
//! rests on: the four-phase sandbox lifecycle (`Proto -> Runtime -> Loaded ->
//! Runtime`) with snapshot/restore, poisoning and interruption; the tagged
//! wire value ADT and the length-prefixed frame codec spoken across the VM
//! boundary; parameter and return-value marshalling between wire values and
//! engine-level values, including string/buffer placement in guest linear
//! memory and the vector-length convention; the host-function registry; the
//! guest-side runtime shim (dispatch, WASI stubs, platform callbacks); and
//! the return-allocation tracker that keeps guest-heap usage bounded.
//!
//! The hypervisor and the Wasm engine themselves are outside collaborators:
//! a vCPU run is performed by a driver, which hands its outcome back to the
//! verified state machine as a plain value.

use vstd::prelude::*;

pub mod build_info;
pub mod component;
pub mod guest_mem;
pub mod guest_rt;
pub mod hostfuncs;
pub mod laws;
pub mod loaded_sandbox;
pub mod marshal;
pub mod platform;
pub mod proto_sandbox;
pub mod sandbox_builder;
pub mod wasip1;
pub mod wasm_sandbox;
pub mod codec;
pub mod errors;
pub mod func_types;

verus! {

/// Get the build information for this library.
pub fn get_build_info() -> (r: crate::build_info::BuildInfo)
    ensures
        r@ == crate::build_info::BuildInfo::spec_get(),
{
    crate::build_info::BuildInfo::get()
}

/// Get the version of the Wasm engine that the embedded guest runtime links.
pub fn get_wasmtime_version() -> (r: &'static str)
    ensures
        r@ == crate::build_info::spec_wasmtime_version(),
{
    crate::build_info::BuildInfo::get_wasmtime_version()
}

} // verus!
