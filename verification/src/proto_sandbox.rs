//! The `Proto` phase of the sandbox lifecycle: the guest image is loaded
//! into VM memory, no engine is initialized, and host functions may still
//! be registered. Registrations are sealed at the transition to `Runtime`:
//! the registry is serialized and handed to the guest's `InitWasmRuntime`
//! entrypoint.

use vstd::prelude::*;

use crate::errors::SandboxError;
use crate::func_types::{ParameterType, ReturnType, ReturnValue, ValueView};
use crate::hostfuncs::{HostFunctionDefinition, HostFunctionDefinitionView};
use crate::loaded_sandbox::{Snapshot, VmRun, VmRunView};
use crate::wasm_sandbox::{WasmSandbox, WasmSandboxView};

verus! {

/// Ghost image of a `Proto` sandbox.
pub ghost struct ProtoWasmSandboxView {
    /// The sandbox configuration.
    pub config: crate::sandbox_builder::SandboxConfiguration,
    /// The host-function registry collected so far.
    pub registry: Seq<HostFunctionDefinitionView>,
    /// The VM memory, holding the guest image.
    pub mem: Seq<u8>,
}

/// A sandbox with the guest image loaded but no Wasm runtime: host
/// functions are registered here.
#[derive(Debug, Clone)]
pub struct ProtoWasmSandbox {
    /// The sandbox configuration.
    pub config: crate::sandbox_builder::SandboxConfiguration,
    /// The host-function registry collected so far.
    pub registry: Vec<HostFunctionDefinition>,
    /// The VM memory, holding the guest image.
    pub mem: Vec<u8>,
}

impl View for ProtoWasmSandbox {
    type V = ProtoWasmSandboxView;

    open spec fn view(&self) -> ProtoWasmSandboxView {
        ProtoWasmSandboxView {
            config: self.config,
            registry: self.registry@.map_values(|d: HostFunctionDefinition| d@),
            mem: self.mem@,
        }
    }
}

/// The first registry index that carries `name`, if any: names are unique
/// keys of the registry.
pub open spec fn spec_find_def(rs: Seq<HostFunctionDefinitionView>, name: Seq<char>) -> Option<
    int,
>
    decreases rs.len(),
{
    if rs.len() == 0 {
        None
    } else if rs[0].function_name == name {
        Some(0)
    } else {
        match spec_find_def(rs.skip(1), name) {
            Some(i) => Some(i + 1),
            None => None,
        }
    }
}

/// Searching past a prefix without the name finds the same entry, offset by
/// the prefix length.
pub proof fn lemma_find_def_skip(rs: Seq<HostFunctionDefinitionView>, name: Seq<char>, i: int)
    requires
        0 <= i <= rs.len(),
        forall|k: int| 0 <= k < i ==> (#[trigger] rs[k]).function_name != name,
    ensures
        spec_find_def(rs, name) == (match spec_find_def(rs.skip(i), name) {
            Some(j) => Some(i + j),
            None => None::<int>,
        }),
    decreases i,
{
    if i == 0 {
        assert(rs.skip(0) =~= rs);
    } else {
        lemma_find_def_skip(rs, name, i - 1);
        assert(rs.skip(i - 1).len() > 0);
        assert(rs.skip(i - 1)[0] == rs[i - 1]);
        assert(rs.skip(i - 1).skip(1) =~= rs.skip(i));
    }
}

/// A registration is accepted when the name is non-empty and the declared
/// parameter list obeys the vector-length convention.
pub open spec fn spec_registration_ok(d: HostFunctionDefinitionView) -> bool {
    &&& d.function_name.len() > 0
    &&& crate::hostfuncs::spec_params_shape_ok(d.parameter_types)
}

/// What `register` does to the registry: an accepted descriptor replaces
/// the entry of the same name or is appended; a rejected one leaves the
/// registry alone.
pub open spec fn spec_register(
    rs: Seq<HostFunctionDefinitionView>,
    d: HostFunctionDefinitionView,
) -> Seq<HostFunctionDefinitionView> {
    match spec_find_def(rs, d.function_name) {
        Some(i) => rs.update(i, d),
        None => rs.push(d),
    }
}

impl ProtoWasmSandbox {
    /// Register the host function described by `name`, `parameter_types`
    /// and `return_type`; the implementation itself stays with the driver,
    /// keyed by the name. Fails exactly when the name is empty or the
    /// parameter list breaks the vector-length convention; an accepted
    /// registration overrides an entry of the same name.
    #[verifier::rlimit(60)]
    pub fn register(
        &mut self,
        name: String,
        parameter_types: Vec<ParameterType>,
        return_type: ReturnType,
    ) -> (r: Result<(), SandboxError>)
        ensures
            (*final(self)).config == (*old(self)).config,
            (*final(self)).mem == (*old(self)).mem,
            match r {
                Ok(()) => {
                    &&& spec_registration_ok(
                        HostFunctionDefinitionView {
                            function_name: name@,
                            parameter_types: parameter_types@,
                            return_type,
                        },
                    )
                    &&& (*final(self))@.registry == spec_register(
                        (*old(self))@.registry,
                        HostFunctionDefinitionView {
                            function_name: name@,
                            parameter_types: parameter_types@,
                            return_type,
                        },
                    )
                },
                Err(e) => {
                    &&& e == SandboxError::RegistrationError
                    &&& *final(self) == *old(self)
                    &&& !spec_registration_ok(
                        HostFunctionDefinitionView {
                            function_name: name@,
                            parameter_types: parameter_types@,
                            return_type,
                        },
                    )
                },
            },
    {
        let ghost dv = HostFunctionDefinitionView {
            function_name: name@,
            parameter_types: parameter_types@,
            return_type,
        };
        if name.as_str().unicode_len() == 0 {
            return Err(SandboxError::RegistrationError);
        }
        let d = HostFunctionDefinition {
            function_name: name,
            parameter_types,
            return_type,
        };
        match crate::hostfuncs::hostfunc_type(&d) {
            Ok(_) => {},
            Err(_) => {
                return Err(SandboxError::RegistrationError);
            },
        }
        let ghost rs0 = self@.registry;
        let n = self.registry.len();
        let mut i: usize = 0;
        while i < n
            invariant
                *self == *old(self),
                rs0 == self@.registry,
                n == self.registry@.len(),
                i <= n,
                forall|k: int| 0 <= k < i ==> (#[trigger] rs0[k]).function_name != dv.function_name,
                d@ == dv,
                dv == (HostFunctionDefinitionView {
                    function_name: name@,
                    parameter_types: parameter_types@,
                    return_type,
                }),
                spec_registration_ok(dv),
            decreases n - i,
        {
            proof {
                assert(rs0[i as int] == self.registry@[i as int]@);
            }
            if self.registry[i].function_name == d.function_name {
                proof {
                    lemma_find_def_skip(rs0, dv.function_name, i as int);
                    assert(rs0.skip(i as int)[0] == rs0[i as int]);
                    assert(spec_find_def(rs0, dv.function_name) == Some(i as int));
                }
                self.registry.set(i, d);
                proof {
                    assert(self@.registry =~= rs0.update(i as int, dv));
                }
                return Ok(());
            }
            i += 1;
        }
        proof {
            lemma_find_def_skip(rs0, dv.function_name, n as int);
            assert(rs0.skip(n as int).len() == 0);
            assert(spec_find_def(rs0, dv.function_name) is None);
        }
        self.registry.push(d);
        proof {
            assert(self@.registry =~= rs0.push(dv));
        }
        return Ok(());
    }

    /// Replace the implementation of the default host print function. The
    /// recorded descriptor does not change; the closure itself lives with
    /// the driver.
    pub fn register_print(&mut self) -> (r: Result<(), SandboxError>)
        ensures
            r is Ok,
            *final(self) == *old(self),
    {
        Ok(())
    }

    /// Seal the registry and transition to `Runtime`: the driver has run
    /// the guest's `InitWasmRuntime` entrypoint over the serialized
    /// registry, with outcome `run`; a zero return yields the `Runtime`
    /// sandbox, which retains a snapshot of this state.
    pub fn load_runtime(self, run: VmRun) -> (r: Result<WasmSandbox, SandboxError>)
        ensures
            match spec_load_runtime(self@, run@) {
                Ok(w) => r matches Ok(ws) && ws@ == w,
                Err(e) => r == Err::<WasmSandbox, SandboxError>(e),
            },
    {
        let blob = match crate::hostfuncs::encode_registry(&self.registry) {
            Some(b) => b,
            None => {
                return Err(SandboxError::RegistrationError);
            },
        };
        if blob.len() > self.config.function_definition_size {
            return Err(SandboxError::RegistrationError);
        }
        match run {
            VmRun::Completed { output, mem_after } => {
                match crate::codec::decode_return_value(&output) {
                    Some(ReturnValue::Int(rc)) => {
                        if rc == 0 {
                            let snapshot_mem = mem_after.clone();
                            Ok(
                                WasmSandbox {
                                    registry: self.registry,
                                    mem: mem_after,
                                    runtime_snapshot: Snapshot { mem: snapshot_mem },
                                },
                            )
                        } else {
                            Err(SandboxError::InitFailed(rc))
                        }
                    },
                    Some(_) => Err(SandboxError::MarshallingError),
                    None => Err(SandboxError::MarshallingError),
                }
            },
            VmRun::Cancelled => Err(SandboxError::ExecutionCanceledByHost),
            VmRun::GuestAborted => Err(SandboxError::GuestAborted),
            VmRun::MemoryFault => Err(SandboxError::MemoryFault),
            VmRun::StackExhausted => Err(SandboxError::StackExhausted),
        }
    }

    /// The serialized registry blob that `load_runtime` seals and hands to
    /// the guest; the driver passes it to `InitWasmRuntime`. Fails exactly
    /// when the registry does not fit its length prefixes or the configured
    /// descriptor-table capacity.
    pub fn registry_blob(&self) -> (r: Result<Vec<u8>, SandboxError>)
        ensures
            match r {
                Ok(b) => {
                    &&& crate::hostfuncs::spec_defs_wf(self@.registry)
                    &&& self@.registry.len() <= u32::MAX
                    &&& b@ == crate::hostfuncs::spec_encode_registry(self@.registry)
                    &&& b@.len() <= self@.config.function_definition_size
                },
                Err(e) => {
                    &&& e == SandboxError::RegistrationError
                    &&& !(crate::hostfuncs::spec_defs_wf(self@.registry) && self@.registry.len()
                        <= u32::MAX && crate::hostfuncs::spec_encode_registry(
                        self@.registry,
                    ).len() <= self@.config.function_definition_size)
                },
            },
    {
        let blob = match crate::hostfuncs::encode_registry(&self.registry) {
            Some(b) => b,
            None => {
                return Err(SandboxError::RegistrationError);
            },
        };
        if blob.len() > self.config.function_definition_size {
            return Err(SandboxError::RegistrationError);
        }
        Ok(blob)
    }
}

/// What sealing the registry and initializing the runtime does: the
/// registry must fit the configured descriptor-table capacity; a zero
/// return from `InitWasmRuntime` produces the `Runtime` sandbox with its
/// retained snapshot; a non-zero return fails the transition; an abnormal
/// exit surfaces its own error.
pub open spec fn spec_load_runtime(p: ProtoWasmSandboxView, run: VmRunView) -> Result<
    WasmSandboxView,
    SandboxError,
> {
    if !(crate::hostfuncs::spec_defs_wf(p.registry) && p.registry.len() <= u32::MAX
        && crate::hostfuncs::spec_encode_registry(p.registry).len()
        <= p.config.function_definition_size) {
        Err(SandboxError::RegistrationError)
    } else {
        match run {
            VmRunView::Completed { output, mem_after } => {
                match crate::codec::spec_decode_return(output) {
                    Some(v) => match v {
                        ValueView::Int(rc) => if rc == 0 {
                            Ok(
                                WasmSandboxView {
                                    registry: p.registry,
                                    mem: mem_after,
                                    runtime_snapshot: mem_after,
                                },
                            )
                        } else {
                            Err(SandboxError::InitFailed(rc))
                        },
                        _ => Err(SandboxError::MarshallingError),
                    },
                    None => Err(SandboxError::MarshallingError),
                }
            },
            VmRunView::Cancelled => Err(SandboxError::ExecutionCanceledByHost),
            VmRunView::GuestAborted => Err(SandboxError::GuestAborted),
            VmRunView::MemoryFault => Err(SandboxError::MemoryFault),
            VmRunView::StackExhausted => Err(SandboxError::StackExhausted),
        }
    }
}

} // verus!
