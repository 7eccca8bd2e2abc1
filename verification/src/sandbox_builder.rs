//! The sandbox builder: collect configuration and produce a `Proto`
//! sandbox. Values below a floor are silently clamped up; values above are
//! accepted as they are.

use vstd::prelude::*;

use crate::errors::SandboxError;
use crate::func_types::{ParameterType, ReturnType};
use crate::hostfuncs::HostFunctionDefinition;
use crate::proto_sandbox::ProtoWasmSandbox;

verus! {

/// The floor of the guest stack size.
pub const MIN_STACK_SIZE: u64 = 64 * 1024;

/// The floor of the host-to-guest parameter mailbox size.
pub const MIN_INPUT_DATA_SIZE: usize = 192 * 1024;

/// The floor of the guest heap size.
pub const MIN_HEAP_SIZE: u64 = 1024 * 1024;

/// The floor of the serialized host-function descriptor table capacity.
pub const MIN_FUNCTION_DEFINITION_SIZE: usize = 1024;

/// The default guest-to-host result mailbox size.
pub const DEFAULT_OUTPUT_DATA_SIZE: usize = 16 * 1024;

/// The configuration a sandbox is built with.
#[derive(Debug, Clone, Copy, PartialEq, Eq)]
pub struct SandboxConfiguration {
    /// The size of the host-to-guest parameter mailbox.
    pub guest_input_buffer_size: usize,
    /// The size of the guest-to-host result mailbox.
    pub guest_output_buffer_size: usize,
    /// The guest stack size.
    pub guest_stack_size: u64,
    /// The guest heap size.
    pub guest_heap_size: u64,
    /// The capacity of the serialized host-function descriptor table.
    pub function_definition_size: usize,
    /// The GDB stub port, when debugging is enabled.
    pub debug_port: Option<u16>,
    /// Whether to emit a core dump on a guest crash.
    pub crashdump_enabled: bool,
}

impl SandboxConfiguration {
    /// Every configured value respects its floor.
    pub open spec fn wf(self) -> bool {
        &&& self.guest_input_buffer_size >= MIN_INPUT_DATA_SIZE
        &&& self.guest_stack_size >= MIN_STACK_SIZE
        &&& self.guest_heap_size >= MIN_HEAP_SIZE
        &&& self.function_definition_size >= MIN_FUNCTION_DEFINITION_SIZE
    }
}

/// The default configuration: every floored value at its floor, debugging
/// and crash dumps off.
pub open spec fn spec_default_config() -> SandboxConfiguration {
    SandboxConfiguration {
        guest_input_buffer_size: MIN_INPUT_DATA_SIZE,
        guest_output_buffer_size: DEFAULT_OUTPUT_DATA_SIZE,
        guest_stack_size: MIN_STACK_SIZE,
        guest_heap_size: MIN_HEAP_SIZE,
        function_definition_size: MIN_FUNCTION_DEFINITION_SIZE,
        debug_port: None,
        crashdump_enabled: false,
    }
}

/// A builder for a `Proto` sandbox.
#[derive(Debug, Clone)]
pub struct SandboxBuilder {
    /// The configuration collected so far.
    pub config: SandboxConfiguration,
}

impl SandboxBuilder {
    /// Create a builder with the default configuration.
    pub fn new() -> (r: SandboxBuilder)
        ensures
            r.config == spec_default_config(),
            r.config.wf(),
    {
        SandboxBuilder {
            config: SandboxConfiguration {
                guest_input_buffer_size: MIN_INPUT_DATA_SIZE,
                guest_output_buffer_size: DEFAULT_OUTPUT_DATA_SIZE,
                guest_stack_size: MIN_STACK_SIZE,
                guest_heap_size: MIN_HEAP_SIZE,
                function_definition_size: MIN_FUNCTION_DEFINITION_SIZE,
                debug_port: None,
                crashdump_enabled: false,
            },
        }
    }

    /// Set the host-to-guest parameter mailbox size; values below the floor
    /// are clamped up to it.
    pub fn with_guest_input_buffer_size(self, guest_input_buffer_size: usize) -> (r: Self)
        ensures
            r.config == (SandboxConfiguration {
                guest_input_buffer_size: if guest_input_buffer_size > MIN_INPUT_DATA_SIZE {
                    guest_input_buffer_size
                } else {
                    MIN_INPUT_DATA_SIZE
                },
                ..self.config
            }),
            self.config.wf() ==> r.config.wf(),
    {
        let mut config = self.config;
        if guest_input_buffer_size > MIN_INPUT_DATA_SIZE {
            config.guest_input_buffer_size = guest_input_buffer_size;
        } else {
            config.guest_input_buffer_size = MIN_INPUT_DATA_SIZE;
        }
        SandboxBuilder { config }
    }

    /// Set the guest-to-host result mailbox size.
    pub fn with_guest_output_buffer_size(self, guest_output_buffer_size: usize) -> (r: Self)
        ensures
            r.config == (SandboxConfiguration { guest_output_buffer_size, ..self.config }),
            self.config.wf() ==> r.config.wf(),
    {
        let mut config = self.config;
        config.guest_output_buffer_size = guest_output_buffer_size;
        SandboxBuilder { config }
    }

    /// Set the guest stack size; values below the floor are clamped up to
    /// it.
    pub fn with_guest_stack_size(self, guest_stack_size: u64) -> (r: Self)
        ensures
            r.config == (SandboxConfiguration {
                guest_stack_size: if guest_stack_size > MIN_STACK_SIZE {
                    guest_stack_size
                } else {
                    MIN_STACK_SIZE
                },
                ..self.config
            }),
            self.config.wf() ==> r.config.wf(),
    {
        let mut config = self.config;
        if guest_stack_size > MIN_STACK_SIZE {
            config.guest_stack_size = guest_stack_size;
        } else {
            config.guest_stack_size = MIN_STACK_SIZE;
        }
        SandboxBuilder { config }
    }

    /// Set the guest heap size; values below the floor are clamped up to
    /// it.
    pub fn with_guest_heap_size(self, guest_heap_size: u64) -> (r: Self)
        ensures
            r.config == (SandboxConfiguration {
                guest_heap_size: if guest_heap_size > MIN_HEAP_SIZE {
                    guest_heap_size
                } else {
                    MIN_HEAP_SIZE
                },
                ..self.config
            }),
            self.config.wf() ==> r.config.wf(),
    {
        let mut config = self.config;
        if guest_heap_size > MIN_HEAP_SIZE {
            config.guest_heap_size = guest_heap_size;
        } else {
            config.guest_heap_size = MIN_HEAP_SIZE;
        }
        SandboxBuilder { config }
    }

    /// Set the capacity of the serialized host-function descriptor table;
    /// values below the floor are clamped up to it.
    pub fn with_function_definition_size(self, size: usize) -> (r: Self)
        ensures
            r.config == (SandboxConfiguration {
                function_definition_size: if size > MIN_FUNCTION_DEFINITION_SIZE {
                    size
                } else {
                    MIN_FUNCTION_DEFINITION_SIZE
                },
                ..self.config
            }),
            self.config.wf() ==> r.config.wf(),
    {
        let mut config = self.config;
        if size > MIN_FUNCTION_DEFINITION_SIZE {
            config.function_definition_size = size;
        } else {
            config.function_definition_size = MIN_FUNCTION_DEFINITION_SIZE;
        }
        SandboxBuilder { config }
    }

    /// Enable the GDB stub inside the guest on the given port.
    pub fn with_debugging_enabled(self, port: u16) -> (r: Self)
        ensures
            r.config == (SandboxConfiguration { debug_port: Some(port), ..self.config }),
            self.config.wf() ==> r.config.wf(),
    {
        let mut config = self.config;
        config.debug_port = Some(port);
        SandboxBuilder { config }
    }

    /// Enable or disable core dumps on guest crashes.
    pub fn with_crashdump_enabled(self, enabled: bool) -> (r: Self)
        ensures
            r.config == (SandboxConfiguration { crashdump_enabled: enabled, ..self.config }),
            self.config.wf() ==> r.config.wf(),
    {
        let mut config = self.config;
        config.crashdump_enabled = enabled;
        SandboxBuilder { config }
    }

    /// Build the `Proto` sandbox around the guest image: fails exactly when
    /// no virtualization backend is available, which the driver reports.
    /// The registry starts with the default host print function.
    pub fn build(self, hypervisor_present: bool, guest_image: Vec<u8>) -> (r: Result<
        ProtoWasmSandbox,
        SandboxError,
    >)
        ensures
            match r {
                Ok(p) => {
                    &&& hypervisor_present
                    &&& p@.config == self.config
                    &&& p@.mem == guest_image@
                    &&& p@.registry.len() == 1
                    &&& p@.registry[0].function_name == "HostPrint"@
                    &&& p@.registry[0].parameter_types == seq![ParameterType::String]
                    &&& p@.registry[0].return_type == ReturnType::Int
                },
                Err(e) => e == SandboxError::NoHypervisorFound && !hypervisor_present,
            },
    {
        if !hypervisor_present {
            return Err(SandboxError::NoHypervisorFound);
        }
        let mut print_params: Vec<ParameterType> = Vec::new();
        print_params.push(ParameterType::String);
        let host_print = HostFunctionDefinition {
            function_name: String::from_str("HostPrint"),
            parameter_types: print_params,
            return_type: ReturnType::Int,
        };
        let mut registry: Vec<HostFunctionDefinition> = Vec::new();
        registry.push(host_print);
        let p = ProtoWasmSandbox { config: self.config, registry, mem: guest_image };
        proof {
            assert(p@.registry =~= seq![p.registry@[0]@]);
            assert(p@.registry[0].parameter_types =~= seq![ParameterType::String]);
        }
        Ok(p)
    }
}

} // verus!
