//! The lifecycle laws: what holds of every sandbox, proved over the
//! state-machine transition functions. The marshalling laws live with the
//! codec: the value, frame and registry round trips.

use vstd::prelude::*;

use crate::errors::SandboxError;
use crate::func_types::{FunctionCallView, ReturnType, ValueView};
use crate::loaded_sandbox::{
    spec_call_guest_function, spec_kill, spec_restore, spec_snapshot, spec_unload_module,
    LoadedWasmSandboxView, VmRunView,
};
use crate::wasm_sandbox::spec_load_module_from_buffer;

verus! {

/// On a poisoned sandbox, calling and snapshotting fail with
/// `PoisonedSandbox` and leave the sandbox exactly as it was; only restore
/// and unload apply.
pub proof fn lemma_poisoned_operations_reject(
    l: LoadedWasmSandboxView,
    fc: FunctionCallView,
    run: VmRunView,
)
    requires
        l.poisoned,
    ensures
        spec_call_guest_function(l, fc, run) == (l, Err::<ValueView, SandboxError>(
            SandboxError::PoisonedSandbox,
        )),
        spec_snapshot(l) == Err::<Seq<u8>, SandboxError>(SandboxError::PoisonedSandbox),
{
}

/// Snapshot idempotence: on a healthy sandbox, taking a snapshot, restoring
/// it and snapshotting again captures bitwise-identical memory.
pub proof fn lemma_snapshot_idempotent(l: LoadedWasmSandboxView)
    requires
        !l.poisoned,
    ensures
        spec_snapshot(l) matches Ok(s) && spec_snapshot(spec_restore(l, s)) == Ok::<
            Seq<u8>,
            SandboxError,
        >(s),
{
}

/// Restore clears poisoning: after restoring any snapshot the sandbox is
/// healthy, and the next call of a pure function, one whose run completes
/// with a well-typed return frame, succeeds.
pub proof fn lemma_restore_clears_poisoning(
    l: LoadedWasmSandboxView,
    s: Seq<u8>,
    fc: FunctionCallView,
    output: Seq<u8>,
    mem_after: Seq<u8>,
)
    requires
        !l.pending_kill,
        crate::codec::spec_call_wf(fc),
        crate::codec::spec_decode_return(output) matches Some(v)
            && crate::func_types::spec_return_type_of(v) == fc.expected_return_type,
    ensures
        !spec_restore(l, s).poisoned,
        spec_call_guest_function(
            spec_restore(l, s),
            fc,
            VmRunView::Completed { output, mem_after },
        ).1 == Ok::<ValueView, SandboxError>(crate::codec::spec_decode_return(output).unwrap()),
{
}

/// Unload recovers: unloading succeeds whatever the poisoning state,
/// restores the retained runtime snapshot, and the resulting `Runtime`
/// sandbox loads any valid module whose load run completes with a zero
/// return.
pub proof fn lemma_unload_recovers(
    l: LoadedWasmSandboxView,
    buffer: Seq<u8>,
    output: Seq<u8>,
    mem_after: Seq<u8>,
)
    requires
        buffer.len() <= i32::MAX,
        crate::codec::spec_decode_return(output) == Some(ValueView::Int(0)),
    ensures
        spec_unload_module(l).mem == l.runtime_snapshot,
        !spec_restore(l, l.runtime_snapshot).poisoned,
        spec_load_module_from_buffer(
            spec_unload_module(l),
            buffer,
            VmRunView::Completed { output, mem_after },
        ) is Ok,
{
}

/// A latched kill is consumed by the next call, which fails with
/// `ExecutionCanceledByHost` and poisons the sandbox, exactly as an
/// in-flight kill would.
pub proof fn lemma_latched_kill_consumed(
    l: LoadedWasmSandboxView,
    fc: FunctionCallView,
    run: VmRunView,
)
    requires
        !l.poisoned,
    ensures
        spec_call_guest_function(spec_kill(l), fc, run) == (
            LoadedWasmSandboxView { poisoned: true, pending_kill: false, ..l },
            Err::<ValueView, SandboxError>(SandboxError::ExecutionCanceledByHost),
        ),
{
}

/// Parallel isolation: two sandboxes share no state, so their transitions
/// commute — driving them in either order yields the same pair of
/// successor states and the same outcomes.
pub proof fn lemma_parallel_isolation(
    a: LoadedWasmSandboxView,
    b: LoadedWasmSandboxView,
    fca: FunctionCallView,
    fcb: FunctionCallView,
    runa: VmRunView,
    runb: VmRunView,
)
    ensures
        ({
            let (a1, ra1) = spec_call_guest_function(a, fca, runa);
            let (b1, rb1) = spec_call_guest_function(b, fcb, runb);
            let (b2, rb2) = spec_call_guest_function(b, fcb, runb);
            let (a2, ra2) = spec_call_guest_function(a, fca, runa);
            a1 == a2 && b1 == b2 && ra1 == ra2 && rb1 == rb2
        }),
{
}

/// At most one guest allocation is recorded per call: only a reference-
/// typed return value is tracked, and a call returns one value. Together
/// with the freeing of the whole tracked batch at the next VM entry, this
/// keeps the number of live return-value allocations bounded by one,
/// independent of how many calls are made.
pub proof fn lemma_return_tracking_bounded(
    rt: ReturnType,
    rvs: Seq<crate::marshal::WasmVal>,
)
    ensures
        crate::marshal::spec_result_tracked(rt, rvs).len() <= 1,
{
}

} // verus!
