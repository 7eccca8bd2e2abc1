//! The guest-side runtime shim: the state the guest keeps between VM
//! entries, the module-loading entrypoints, and guest-function dispatch.
//!
//! The engine itself (deserialize, instantiate, invoke) is the outside
//! collaborator: dispatch is split around the engine call. `prepare` frees
//! the previous call's tracked return allocations, looks the export up and
//! marshals the parameters in; the driver invokes the export; `finish`
//! marshals the results out and records new return allocations.

use vstd::prelude::*;

use crate::errors::GuestError;
use crate::func_types::{FunctionCall, ParameterValue, ReturnType, ValueView};
use crate::guest_mem::{spec_cstr_at, Block, GuestMemory};
use crate::hostfuncs::HostFunctionDefinition;
use crate::marshal::{spec_scalar_to_val, WasmVal};

verus! {

broadcast use vstd::seq_lib::group_seq_properties;

/// A guest-function registration: what the guest's entrypoint table holds
/// about one function callable from the host.
#[derive(Debug, Clone, PartialEq)]
pub struct GuestFunctionDefinition {
    /// The name the host calls the function under.
    pub function_name: String,
    /// The declared parameter types.
    pub parameter_types: Vec<crate::func_types::ParameterType>,
    /// The declared return type.
    pub return_type: ReturnType,
}

/// The entrypoints the guest registers at boot: host print, runtime
/// initialization, and the two module-loading paths.
pub fn hyperlight_main() -> (r: Vec<GuestFunctionDefinition>)
    ensures
        r@.len() == 4,
        r@[0].function_name@ == "PrintOutput"@,
        r@[0].parameter_types@ == seq![crate::func_types::ParameterType::String],
        r@[0].return_type == ReturnType::Int,
        r@[1].function_name@ == "InitWasmRuntime"@,
        r@[1].parameter_types@ == seq![crate::func_types::ParameterType::VecBytes, crate::func_types::ParameterType::Int],
        r@[1].return_type == ReturnType::Int,
        r@[2].function_name@ == "LoadWasmModule"@,
        r@[2].parameter_types@ == seq![crate::func_types::ParameterType::VecBytes, crate::func_types::ParameterType::Int],
        r@[2].return_type == ReturnType::Int,
        r@[3].function_name@ == "LoadWasmModulePhys"@,
        r@[3].parameter_types@ == seq![crate::func_types::ParameterType::ULong, crate::func_types::ParameterType::ULong],
        r@[3].return_type == ReturnType::Void,
{
    let mut r: Vec<GuestFunctionDefinition> = Vec::new();
    let mut print_params: Vec<crate::func_types::ParameterType> = Vec::new();
    print_params.push(crate::func_types::ParameterType::String);
    r.push(
        GuestFunctionDefinition {
            function_name: String::from_str("PrintOutput"),
            parameter_types: print_params,
            return_type: ReturnType::Int,
        },
    );
    let mut init_params: Vec<crate::func_types::ParameterType> = Vec::new();
    init_params.push(crate::func_types::ParameterType::VecBytes);
    init_params.push(crate::func_types::ParameterType::Int);
    r.push(
        GuestFunctionDefinition {
            function_name: String::from_str("InitWasmRuntime"),
            parameter_types: init_params,
            return_type: ReturnType::Int,
        },
    );
    let mut load_params: Vec<crate::func_types::ParameterType> = Vec::new();
    load_params.push(crate::func_types::ParameterType::VecBytes);
    load_params.push(crate::func_types::ParameterType::Int);
    r.push(
        GuestFunctionDefinition {
            function_name: String::from_str("LoadWasmModule"),
            parameter_types: load_params,
            return_type: ReturnType::Int,
        },
    );
    let mut phys_params: Vec<crate::func_types::ParameterType> = Vec::new();
    phys_params.push(crate::func_types::ParameterType::ULong);
    phys_params.push(crate::func_types::ParameterType::ULong);
    r.push(
        GuestFunctionDefinition {
            function_name: String::from_str("LoadWasmModulePhys"),
            parameter_types: phys_params,
            return_type: ReturnType::Void,
        },
    );
    proof {
        assert(r@[0].parameter_types@ =~= seq![crate::func_types::ParameterType::String]);
        assert(r@[1].parameter_types@ =~= seq![
            crate::func_types::ParameterType::VecBytes,
            crate::func_types::ParameterType::Int,
        ]);
        assert(r@[2].parameter_types@ =~= seq![
            crate::func_types::ParameterType::VecBytes,
            crate::func_types::ParameterType::Int,
        ]);
        assert(r@[3].parameter_types@ =~= seq![
            crate::func_types::ParameterType::ULong,
            crate::func_types::ParameterType::ULong,
        ]);
    }
    r
}

/// The state the guest runtime keeps across VM entries.
#[derive(Debug, Clone)]
pub struct GuestRuntime {
    /// The loaded module's linear memory and heap model.
    pub memory: GuestMemory,
    /// Return-value allocations to free on the next VM entry.
    pub tracker: Vec<u32>,
    /// The host functions wired into the linker at initialization.
    pub host_imports: Vec<HostFunctionDefinition>,
    /// Whether the engine and linker have been created.
    pub initialized: bool,
    /// Whether a module instance is loaded.
    pub module_loaded: bool,
    /// The names the loaded module exports.
    pub exports: Vec<String>,
}

impl GuestRuntime {
    /// Well-formedness: the memory model is well formed.
    pub open spec fn wf(self) -> bool {
        self.memory@.wf()
    }

    /// Whether the loaded module exports `name`.
    pub open spec fn spec_has_export(self, name: Seq<char>) -> bool {
        exists|i: int| 0 <= i < self.exports@.len() && (#[trigger] self.exports@[i])@ == name
    }

    /// A fresh runtime around a linear memory: nothing initialized, nothing
    /// loaded, nothing tracked.
    pub fn new(memory: GuestMemory) -> (r: GuestRuntime)
        ensures
            r.memory == memory,
            r.tracker@.len() == 0,
            r.host_imports@.len() == 0,
            !r.initialized,
            !r.module_loaded,
            r.exports@.len() == 0,
    {
        GuestRuntime {
            memory,
            tracker: Vec::new(),
            host_imports: Vec::new(),
            initialized: false,
            module_loaded: false,
            exports: Vec::new(),
        }
    }
}

/// What one marshalled parameter looks like from inside the engine: a
/// scalar passes by value; text and buffers are pointers to the payload in
/// linear memory.
pub open spec fn param_marshalled_at(v: ValueView, w: WasmVal, mem: Seq<u8>) -> bool {
    match spec_scalar_to_val(v) {
        Some(x) => w == x,
        None => match v {
            ValueView::Str(s) => w matches WasmVal::I32(p) && p >= 0 && spec_cstr_at(mem, p as int)
                == Some(vstd::utf8::encode_utf8(s)),
            ValueView::Bytes(b) => w matches WasmVal::I32(p) && p >= 0 && p + b.len() <= mem.len()
                && mem.subrange(p as int, p + b.len()) == b,
            _ => false,
        },
    }
}

/// The heap block that carries a marshalled reference parameter, if any.
pub open spec fn spec_param_block(v: ValueView, w: WasmVal) -> Option<Block> {
    match v {
        ValueView::Str(s) => match w {
            WasmVal::I32(p) => Some(
                Block { addr: p as u32, len: crate::marshal::spec_cstr_bytes(s).len() as u32 },
            ),
            _ => None,
        },
        ValueView::Bytes(b) => match w {
            WasmVal::I32(p) => Some(Block { addr: p as u32, len: b.len() as u32 }),
            _ => None,
        },
        _ => None,
    }
}

/// A C string is read the same out of any memory that agrees on its bytes
/// and terminator.
pub proof fn lemma_cstr_at_stable(m1: Seq<u8>, m2: Seq<u8>, addr: int)
    requires
        spec_cstr_at(m1, addr) is Some,
        m2.len() == m1.len(),
        forall|i: int|
            addr <= i <= addr + spec_cstr_at(m1, addr).unwrap().len() ==> m2[i] == m1[i],
    ensures
        spec_cstr_at(m2, addr) == spec_cstr_at(m1, addr),
    decreases m1.len() - addr,
{
    if m1[addr] == 0 {
        assert(m2[addr] == 0);
    } else {
        let s = spec_cstr_at(m1, addr).unwrap();
        assert(s == seq![m1[addr]] + spec_cstr_at(m1, addr + 1).unwrap());
        assert(spec_cstr_at(m1, addr + 1).unwrap().len() == s.len() - 1);
        lemma_cstr_at_stable(m1, m2, addr + 1);
        assert(m2[addr] == m1[addr]);
    }
}

/// First half of guest-function dispatch, run at VM entry: free the
/// previous call's tracked return allocations, check that the module is
/// loaded and exports the function, and marshal the parameters into engine
/// values. The driver then invokes the export with those values.
///
/// Dispatch consumes the runtime and hands the successor back, like every
/// other transition of the model. It refuses exactly the phase errors
/// spec'd for it: `RuntimeNotInitialized` when no module is loaded and
/// `FunctionNotFound` when the module does not export the name; and it
/// succeeds whenever the tracked allocations are live and every parameter
/// is a scalar.
pub fn guest_dispatch_prepare(rt: GuestRuntime, fc: &FunctionCall) -> (r: (
    GuestRuntime,
    Result<Vec<WasmVal>, GuestError>,
))
    requires
        rt.wf(),
    ensures
        r.0.wf(),
        r.0.host_imports == rt.host_imports,
        r.0.initialized == rt.initialized,
        r.0.module_loaded == rt.module_loaded,
        r.0.exports == rt.exports,
        r.0.memory@.mem.len() == rt.memory@.mem.len(),
        r.1 == Err::<Vec<WasmVal>, GuestError>(GuestError::RuntimeNotInitialized)
            <==> !rt.module_loaded,
        !rt.module_loaded ==> r.0 == rt,
        rt.module_loaded ==> (r.1 == Err::<Vec<WasmVal>, GuestError>(GuestError::FunctionNotFound)
            <==> !rt.spec_has_export(fc@.function_name)),
        rt.module_loaded && !rt.spec_has_export(fc@.function_name) ==> r.0 == rt,
        r.1 is Ok ==> r.0.tracker@.len() == 0,
        match r.1 {
            Ok(vals) => {
                &&& vals@.len() == fc@.parameters.len()
                &&& forall|i: int|
                    0 <= i < vals@.len() ==> param_marshalled_at(
                        fc@.parameters[i],
                        #[trigger] vals@[i],
                        r.0.memory@.mem,
                    )
            },
            Err(_) => true,
        },
        rt.module_loaded && rt.spec_has_export(fc@.function_name)
            && crate::marshal::spec_tracked_live(rt.memory@, rt.tracker@) && (forall|i: int|
            0 <= i < fc@.parameters.len() ==> crate::marshal::spec_scalar_to_val(
                #[trigger] fc@.parameters[i],
            ) is Some) ==> r.1 is Ok,
{
    if !rt.module_loaded {
        return (rt, Err(GuestError::RuntimeNotInitialized));
    }
    if !has_export(&rt.exports, &fc.function_name) {
        return (rt, Err(GuestError::FunctionNotFound));
    }
    let ghost rt0 = rt;
    let ghost all_scalar = forall|i: int|
        0 <= i < fc@.parameters.len() ==> crate::marshal::spec_scalar_to_val(
            #[trigger] fc@.parameters[i],
        ) is Some;
    let mut memory = rt.memory;
    let mut tracker = rt.tracker;
    let host_imports = rt.host_imports;
    let initialized = rt.initialized;
    let module_loaded = rt.module_loaded;
    let exports = rt.exports;
    // Free the return-value allocations of the previous call: the memory
    // ownership model that keeps guest-heap usage bounded.
    match crate::marshal::free_return_value_allocations(&mut memory, &mut tracker) {
        Ok(()) => {},
        Err(e) => {
            proof {
                assert(!crate::marshal::spec_tracked_live(rt0.memory@, rt0.tracker@));
            }
            let out = GuestRuntime {
                memory,
                tracker,
                host_imports,
                initialized,
                module_loaded,
                exports,
            };
            return (out, Err(e));
        },
    }
    let n = fc.parameters.len();
    let mut vals: Vec<WasmVal> = Vec::new();
    let mut i: usize = 0;
    while i < n
        invariant
            memory@.wf(),
            n == fc.parameters@.len(),
            i <= n,
            vals@.len() == i,
            tracker@.len() == 0,
            rt0 == rt,
            rt0.module_loaded,
            rt0.spec_has_export(fc@.function_name),
            memory@.mem.len() == rt0.memory@.mem.len(),
            host_imports == rt0.host_imports,
            initialized == rt0.initialized,
            module_loaded == rt0.module_loaded,
            exports == rt0.exports,
            all_scalar == (forall|k: int|
                0 <= k < fc@.parameters.len() ==> crate::marshal::spec_scalar_to_val(
                    #[trigger] fc@.parameters[k],
                ) is Some),
            forall|k: int|
                0 <= k < i ==> param_marshalled_at(
                    fc@.parameters[k],
                    #[trigger] vals@[k],
                    memory@.mem,
                ),
            forall|k: int|
                0 <= k < i ==> (match spec_param_block(fc@.parameters[k], #[trigger] vals@[k]) {
                    Some(b) => memory@.allocs.contains(b),
                    None => true,
                }),
        decreases n - i,
    {
        let ghost pre = memory@;
        let ghost pre_vals = vals@;
        let w = match crate::marshal::hl_param_to_val(&mut memory, &fc.parameters[i]) {
            Ok(w) => w,
            Err(e) => {
                proof {
                    // A scalar parameter never fails to marshal, so an
                    // all-scalar list cannot reach this exit.
                    if all_scalar {
                        assert(crate::marshal::spec_scalar_to_val(
                            fc@.parameters[i as int],
                        ) is Some);
                        assert(false);
                    }
                }
                let out = GuestRuntime {
                    memory,
                    tracker,
                    host_imports,
                    initialized,
                    module_loaded,
                    exports,
                };
                return (out, Err(e));
            },
        };
        vals.push(w);
        proof {
            let pv = fc@.parameters[i as int];
            let nmem = memory@;
            if spec_scalar_to_val(pv) is None {
                // A reference parameter: its block is the newly pushed
                // allocation, disjoint from every earlier one.
                let nb = spec_param_block(pv, w).unwrap();
                assert(nmem.allocs == pre.allocs.push(nb));
                crate::marshal::lemma_push_contains(pre.allocs, nb, nb);
            }
            assert forall|k: int| 0 <= k < i + 1 implies param_marshalled_at(
                fc@.parameters[k],
                #[trigger] vals@[k],
                nmem.mem,
            ) && (match spec_param_block(fc@.parameters[k], vals@[k]) {
                Some(b) => nmem.allocs.contains(b),
                None => true,
            }) by {
                if k < i {
                    let pk = fc@.parameters[k];
                    let wk = pre_vals[k];
                    assert(vals@[k] == wk);
                    assert(param_marshalled_at(pk, wk, pre.mem));
                    match spec_param_block(pk, wk) {
                        Some(bk) => {
                            assert(pre.allocs.contains(bk));
                            if spec_scalar_to_val(pv) is None {
                                let nb = spec_param_block(pv, w).unwrap();
                                // The length of the old block as an
                                // integer: the cast in its construction
                                // did not truncate.
                                match pk {
                                    ValueView::Str(s) => {
                                        crate::marshal::lemma_cstr_at_bounds(
                                            pre.mem,
                                            bk.addr as int,
                                        );
                                        assert(bk.len
                                            == crate::marshal::spec_cstr_bytes(s).len());
                                    },
                                    ValueView::Bytes(b) => {
                                        assert(bk.len == b.len());
                                    },
                                    _ => {},
                                }
                                // The new block is disjoint from block k,
                                // so block k's bytes are untouched.
                                let wi = choose|wi: int|
                                    0 <= wi < pre.allocs.len() && pre.allocs[wi] == bk;
                                assert(crate::marshal::spec_disjoint_from(
                                    nb.addr,
                                    nb.len,
                                    pre.allocs[wi],
                                ));
                                assert(bk.addr + bk.len <= pre.next <= pre.mem.len());
                                // The new block's length as an integer.
                                let ghost nlen: int = match pv {
                                    ValueView::Str(s2) => crate::marshal::spec_cstr_bytes(
                                        s2,
                                    ).len() as int,
                                    ValueView::Bytes(b2) => b2.len() as int,
                                    _ => 0,
                                };
                                assert(nb.len == nlen);
                                assert(w matches WasmVal::I32(p2) && p2 >= 0 && nb.addr == p2);
                                assert forall|q: int|
                                    bk.addr <= q < bk.addr + bk.len implies nmem.mem[q]
                                    == pre.mem[q] by {
                                    assert(crate::guest_mem::spec_disjoint(nb, bk));
                                    assert(!(nb.addr <= q < nb.addr + nlen));
                                }
                                match pk {
                                    ValueView::Str(s) => {
                                        assert(spec_cstr_at(pre.mem, bk.addr as int) == Some(
                                            vstd::utf8::encode_utf8(s),
                                        ));
                                        lemma_cstr_at_stable(pre.mem, nmem.mem, bk.addr as int);
                                    },
                                    ValueView::Bytes(b) => {
                                        assert(nmem.mem.subrange(
                                            bk.addr as int,
                                            bk.addr + b.len(),
                                        ) =~= pre.mem.subrange(bk.addr as int, bk.addr + b.len()));
                                    },
                                    _ => {},
                                }
                                crate::marshal::lemma_push_contains(pre.allocs, nb, bk);
                            } else {
                                assert(nmem == pre);
                            }
                        },
                        None => {
                            if spec_scalar_to_val(pv) is None {
                            } else {
                                assert(nmem == pre);
                            }
                        },
                    }
                } else {
                    assert(vals@[k] == w);
                }
            }
        }
        i += 1;
    }
    let out = GuestRuntime { memory, tracker, host_imports, initialized, module_loaded, exports };
    (out, Ok(vals))
}

/// Second half of guest-function dispatch, run after the engine call:
/// marshal the engine results into the encoded return frame, recording any
/// guest allocation the return value lives in.
pub fn guest_dispatch_finish(
    rt: &mut GuestRuntime,
    expected: ReturnType,
    results: &Vec<WasmVal>,
) -> (r: Result<Vec<u8>, GuestError>)
    requires
        (*old(rt)).wf(),
    ensures
        (*final(rt)).wf(),
        (*final(rt)).memory == (*old(rt)).memory,
        (*final(rt)).host_imports == (*old(rt)).host_imports,
        (*final(rt)).initialized == (*old(rt)).initialized,
        (*final(rt)).module_loaded == (*old(rt)).module_loaded,
        (*final(rt)).exports == (*old(rt)).exports,
        (*final(rt)).tracker@ == (*old(rt)).tracker@ + crate::marshal::spec_result_tracked(
            expected,
            results@,
        ),
        match crate::marshal::spec_result_value((*old(rt)).memory@.mem, expected, results@) {
            Ok(v) => r matches Ok(frame) && frame@ == crate::codec::spec_encode_value(v),
            Err(e) => r == Err::<Vec<u8>, GuestError>(e),
        },
{
    crate::marshal::val_to_hl_result(&rt.memory, &mut rt.tracker, expected, results)
}

/// Whether `name` is among the module's exports.
fn has_export(exports: &Vec<String>, name: &String) -> (r: bool)
    ensures
        r == exists|i: int| 0 <= i < exports@.len() && (#[trigger] exports@[i])@ == name@,
{
    let mut i: usize = 0;
    while i < exports.len()
        invariant
            i <= exports@.len(),
            forall|k: int| 0 <= k < i ==> (#[trigger] exports@[k])@ != name@,
        decreases exports@.len() - i,
    {
        if exports[i] == *name {
            return true;
        }
        i += 1;
    }
    false
}

/// Initialize the Wasm runtime inside the guest: decode the registry blob
/// the host sealed at `Proto -> Runtime`, validate every descriptor's
/// engine type, and wire the imports. Returns the encoded zero status the
/// host expects.
pub fn init_wasm_runtime(rt: &mut GuestRuntime, registry_blob: &Vec<u8>) -> (r: Result<
    Vec<u8>,
    GuestError,
>)
    requires
        (*old(rt)).wf(),
    ensures
        (*final(rt)).wf(),
        (*final(rt)).memory == (*old(rt)).memory,
        (*final(rt)).tracker == (*old(rt)).tracker,
        (*final(rt)).module_loaded == (*old(rt)).module_loaded,
        (*final(rt)).exports == (*old(rt)).exports,
        match r {
            Ok(frame) => {
                &&& crate::hostfuncs::spec_decode_registry(registry_blob@) matches Some(ds)
                &&& (*final(rt)).host_imports@.map_values(|d: HostFunctionDefinition| d@) == ds
                &&& forall|i: int|
                    0 <= i < ds.len() ==> crate::hostfuncs::spec_params_shape_ok(
                        (#[trigger] ds[i]).parameter_types,
                    )
                &&& (*final(rt)).initialized
                &&& frame@ == crate::codec::spec_encode_value(ValueView::Int(0))
            },
            Err(e) => {
                &&& (*final(rt)).initialized == (*old(rt)).initialized
                &&& (*final(rt)).host_imports == (*old(rt)).host_imports
                &&& (e == GuestError::MalformedFrame || e == GuestError::VectorLengthMissing)
                &&& (e == GuestError::MalformedFrame
                    <==> crate::hostfuncs::spec_decode_registry(registry_blob@) is None)
                &&& (e == GuestError::VectorLengthMissing <==> (
                crate::hostfuncs::spec_decode_registry(registry_blob@) matches Some(ds) && exists|i: int|
                    0 <= i < ds.len() && !crate::hostfuncs::spec_params_shape_ok(
                        (#[trigger] ds[i]).parameter_types,
                    )))
            },
        },
{
    let defs = match crate::hostfuncs::decode_registry(registry_blob) {
        Some(ds) => ds,
        None => {
            return Err(GuestError::MalformedFrame);
        },
    };
    // Validate every descriptor as the linker registration would.
    let mut i: usize = 0;
    while i < defs.len()
        invariant
            *rt == *old(rt),
            (*old(rt)).wf(),
            crate::hostfuncs::spec_decode_registry(registry_blob@) == Some(
                defs@.map_values(|d: HostFunctionDefinition| d@),
            ),
            i <= defs@.len(),
            forall|k: int|
                0 <= k < i ==> crate::hostfuncs::spec_params_shape_ok(
                    (#[trigger] defs@[k])@.parameter_types,
                ),
        decreases defs@.len() - i,
    {
        match crate::hostfuncs::hostfunc_type(&defs[i]) {
            Ok(_) => {},
            Err(e) => {
                proof {
                    let ds = crate::hostfuncs::spec_decode_registry(registry_blob@).unwrap();
                    let dsm = defs@.map_values(|d: HostFunctionDefinition| d@);
                    assert(ds[i as int] == dsm[i as int]);
                    assert(!crate::hostfuncs::spec_params_shape_ok(ds[i as int].parameter_types));
                }
                return Err(e);
            },
        }
        i += 1;
    }
    proof {
        vstd::bytes::lemma_auto_spec_u32_to_from_le_bytes();
    }
    let frame = match crate::codec::encode_return_value(&crate::func_types::ReturnValue::Int(0)) {
        Some(b) => b,
        None => {
            assert(false);
            return Err(GuestError::FrameTooLarge);
        },
    };
    rt.host_imports = defs;
    rt.initialized = true;
    proof {
        let ds = crate::hostfuncs::spec_decode_registry(registry_blob@).unwrap();
        assert(rt.host_imports@.map_values(|d: HostFunctionDefinition| d@) == ds);
        assert forall|k: int| 0 <= k < ds.len() implies crate::hostfuncs::spec_params_shape_ok(
            (#[trigger] ds[k]).parameter_types,
        ) by {
            assert(ds[k] == rt.host_imports@.map_values(|d: HostFunctionDefinition| d@)[k]);
            assert(ds[k] == rt.host_imports@[k]@);
        }
    }
    Ok(frame)
}

/// The guest entrypoint that loads a module from a byte buffer copied into
/// guest memory: validate the parameters and the runtime phase; the engine
/// deserializes and instantiates, yielding the exports the driver hands
/// in. Returns the encoded zero status the host expects.
pub fn load_wasm_module(rt: &mut GuestRuntime, fc: &FunctionCall, module_exports: Vec<String>) -> (r:
    Result<Vec<u8>, GuestError>)
    requires
        (*old(rt)).wf(),
    ensures
        (*final(rt)).wf(),
        (*final(rt)).memory == (*old(rt)).memory,
        (*final(rt)).tracker == (*old(rt)).tracker,
        (*final(rt)).host_imports == (*old(rt)).host_imports,
        (*final(rt)).initialized == (*old(rt)).initialized,
        match r {
            Ok(frame) => {
                &&& (*old(rt)).initialized
                &&& fc@.parameters.len() == 2
                &&& fc@.parameters[0] is Bytes
                &&& fc@.parameters[1] is Int
                &&& (*final(rt)).module_loaded
                &&& (*final(rt)).exports == module_exports
                &&& frame@ == crate::codec::spec_encode_value(ValueView::Int(0))
            },
            Err(e) => {
                &&& e == GuestError::ParameterTypeMismatch
                &&& *final(rt) == *old(rt)
                &&& !((*old(rt)).initialized && fc@.parameters.len() == 2 && fc@.parameters[0] is Bytes
                    && fc@.parameters[1] is Int)
            },
        },
{
    if !rt.initialized {
        return Err(GuestError::ParameterTypeMismatch);
    }
    if fc.parameters.len() != 2 {
        return Err(GuestError::ParameterTypeMismatch);
    }
    let ok_shape = matches!(&fc.parameters[0], ParameterValue::VecBytes(_)) && matches!(
        &fc.parameters[1],
        ParameterValue::Int(_),
    );
    if !ok_shape {
        return Err(GuestError::ParameterTypeMismatch);
    }
    proof {
        vstd::bytes::lemma_auto_spec_u32_to_from_le_bytes();
    }
    let frame = match crate::codec::encode_return_value(&crate::func_types::ReturnValue::Int(0)) {
        Some(b) => b,
        None => {
            assert(false);
            return Err(GuestError::FrameTooLarge);
        },
    };
    rt.module_loaded = true;
    rt.exports = module_exports;
    Ok(frame)
}

/// The guest entrypoint that loads a module already mapped at a fixed guest
/// virtual address: validate the parameters and the runtime phase; the
/// engine deserializes in place. Returns the encoded void frame the host
/// expects.
pub fn load_wasm_module_phys(
    rt: &mut GuestRuntime,
    fc: &FunctionCall,
    module_exports: Vec<String>,
) -> (r: Result<Vec<u8>, GuestError>)
    requires
        (*old(rt)).wf(),
    ensures
        (*final(rt)).wf(),
        (*final(rt)).memory == (*old(rt)).memory,
        (*final(rt)).tracker == (*old(rt)).tracker,
        (*final(rt)).host_imports == (*old(rt)).host_imports,
        (*final(rt)).initialized == (*old(rt)).initialized,
        match r {
            Ok(frame) => {
                &&& (*old(rt)).initialized
                &&& fc@.parameters.len() == 2
                &&& fc@.parameters[0] is ULong
                &&& fc@.parameters[1] is ULong
                &&& (*final(rt)).module_loaded
                &&& (*final(rt)).exports == module_exports
                &&& frame@ == crate::codec::spec_encode_value(ValueView::Void)
            },
            Err(e) => {
                &&& e == GuestError::ParameterTypeMismatch
                &&& *final(rt) == *old(rt)
                &&& !((*old(rt)).initialized && fc@.parameters.len() == 2 && fc@.parameters[0] is ULong
                    && fc@.parameters[1] is ULong)
            },
        },
{
    if !rt.initialized {
        return Err(GuestError::ParameterTypeMismatch);
    }
    if fc.parameters.len() != 2 {
        return Err(GuestError::ParameterTypeMismatch);
    }
    let ok_shape = matches!(&fc.parameters[0], ParameterValue::ULong(_)) && matches!(
        &fc.parameters[1],
        ParameterValue::ULong(_),
    );
    if !ok_shape {
        return Err(GuestError::ParameterTypeMismatch);
    }
    proof {
        vstd::bytes::lemma_auto_spec_u32_to_from_le_bytes();
    }
    let frame = match crate::codec::encode_return_value(&crate::func_types::ReturnValue::Void) {
        Some(b) => b,
        None => {
            assert(false);
            return Err(GuestError::FrameTooLarge);
        },
    };
    rt.module_loaded = true;
    rt.exports = module_exports;
    Ok(frame)
}

} // verus!
