//! The guest-side runtime: dispatch marshalling through linear memory, the
//! vector-length convention, the return-allocation tracker that keeps heap
//! usage bounded, the registry handover, and the platform callbacks.

use hyperlight_wasm::codec::decode_return_value;
use hyperlight_wasm::errors::GuestError;
use hyperlight_wasm::func_types::{
    FunctionCall, ParameterType, ParameterValue, ReturnType, ReturnValue,
};
use hyperlight_wasm::guest_mem::GuestMemory;
use hyperlight_wasm::guest_rt::{
    guest_dispatch_finish, guest_dispatch_prepare, hyperlight_main, init_wasm_runtime,
    load_wasm_module, GuestRuntime,
};
use hyperlight_wasm::hostfuncs::{
    finish_host_call, hostfunc_type, prepare_host_call, HostFunctionDefinition,
};
use hyperlight_wasm::marshal::{WasmVal, WasmValType};
use hyperlight_wasm::sandbox_builder::SandboxBuilder;
use hyperlight_wasm::component::{guest_dispatch_function, ResourceTable};
use hyperlight_wasm::platform::{
    fault_page_base, page_fault_in_window, wasmtime_mmap_remap, wasmtime_mprotect,
    wasmtime_munmap, wasmtime_page_size, TlsSlot, TrapContext, TrapState, VaAllocator,
    WasmtimeCodeMemory, OS_PAGE_SIZE, VA_STRIDE, VA_WINDOW_BASE,
};
use hyperlight_wasm::wasip1::{
    fd_close, fd_fdstat_get, fd_seek, fd_write_finish, fd_write_gather,
};

fn loaded_runtime(exports: Vec<&str>) -> GuestRuntime {
    let memory = GuestMemory::new(64 * 1024).expect("small memory");
    let mut rt = GuestRuntime::new(memory);
    let blob = hyperlight_wasm::hostfuncs::encode_registry(&Vec::new()).unwrap();
    init_wasm_runtime(&mut rt, &blob).expect("init");
    let fc = FunctionCall {
        function_name: String::from("LoadWasmModule"),
        parameters: vec![ParameterValue::VecBytes(vec![0u8; 8]), ParameterValue::Int(8)],
        expected_return_type: ReturnType::Int,
    };
    let names = exports.into_iter().map(String::from).collect();
    load_wasm_module(&mut rt, &fc, names).expect("load");
    rt
}

#[test]
fn guest_boot_registers_the_four_entrypoints() {
    let entries = hyperlight_main();
    let names: Vec<&str> = entries.iter().map(|e| e.function_name.as_str()).collect();
    assert_eq!(
        names,
        vec!["PrintOutput", "InitWasmRuntime", "LoadWasmModule", "LoadWasmModulePhys"]
    );
    assert_eq!(entries[3].return_type, ReturnType::Void);
}

#[test]
fn dispatch_echo_string_through_linear_memory() {
    // The full string leg of a guest call: the host-sent text is written
    // into guest memory NUL-terminated; the echo export hands the pointer
    // back; the return frame carries the same text out.
    let mut rt = loaded_runtime(vec!["Echo"]);
    let fc = FunctionCall {
        function_name: String::from("Echo"),
        parameters: vec![ParameterValue::String(String::from("Hello World!"))],
        expected_return_type: ReturnType::String,
    };
    let (rt2, prepared) = guest_dispatch_prepare(rt, &fc);
    let mut rt = rt2;
    let vals = prepared.expect("prepare");
    assert_eq!(vals.len(), 1);
    let p = match vals[0] {
        WasmVal::I32(p) => p,
        _ => panic!("string passes as a pointer"),
    };
    let text = rt.memory.read_cstr(p as u32).expect("terminated");
    assert_eq!(text, b"Hello World!".to_vec());
    // The pure echo returns its argument pointer.
    let frame = guest_dispatch_finish(&mut rt, ReturnType::String, &vals).expect("finish");
    let rv = decode_return_value(&frame).expect("decodable");
    assert_eq!(rv, ReturnValue::String(String::from("Hello World!")));
    // The returned allocation is tracked for the next VM entry.
    assert_eq!(rt.tracker, vec![p as u32]);
}

#[test]
fn dispatch_rejects_unknown_exports_and_missing_module() {
    let rt = loaded_runtime(vec!["Echo"]);
    let fc = FunctionCall {
        function_name: String::from("NoSuchExport"),
        parameters: vec![],
        expected_return_type: ReturnType::Void,
    };
    let (_, r) = guest_dispatch_prepare(rt, &fc);
    assert_eq!(r.unwrap_err(), GuestError::FunctionNotFound);

    let memory = GuestMemory::new(4096).unwrap();
    let fresh = GuestRuntime::new(memory);
    let (_, r) = guest_dispatch_prepare(fresh, &fc);
    assert_eq!(r.unwrap_err(), GuestError::RuntimeNotInitialized);
}

#[test]
fn return_value_allocations_do_not_accumulate() {
    // Calling a string-producing export in a loop: every VM entry frees the
    // previous return allocation, and the equal-sized replacement reuses
    // it, so the heap bump pointer never advances after the first call.
    let mut rt = loaded_runtime(vec!["produce_string"]);
    let fc = FunctionCall {
        function_name: String::from("produce_string"),
        parameters: vec![],
        expected_return_type: ReturnType::String,
    };
    let mut first_next: Option<u32> = None;
    for round in 0..50 {
        let (rt2, prepared) = guest_dispatch_prepare(rt, &fc);
        rt = rt2;
        let vals = prepared.expect("prepare");
        assert_eq!(vals.len(), 0);
        assert!(rt.tracker.is_empty());
        // The guest builds its return string in its own heap.
        let addr = rt.memory.malloc(6).expect("guest allocation");
        rt.memory.write(addr, b"text!\0").expect("in bounds");
        let results = vec![WasmVal::I32(addr as i32)];
        let frame = guest_dispatch_finish(&mut rt, ReturnType::String, &results).expect("finish");
        let rv = decode_return_value(&frame).unwrap();
        assert_eq!(rv, ReturnValue::String(String::from("text!")));
        assert_eq!(rt.tracker.len(), 1);
        match first_next {
            None => first_next = Some(rt.memory.next),
            Some(n) => assert_eq!(rt.memory.next, n, "heap grew on round {round}"),
        }
    }
}

#[test]
fn test_call_host_func_with_vecbytes() {
    // Register a host function taking a buffer and its length; the guest
    // passes a pointer and length pair, and the host reads the bytes
    // without taking ownership.
    let mut proto = SandboxBuilder::new().build(true, vec![0u8; 16]).unwrap();
    proto
        .register(
            String::from("HostFuncWithBufferAndLength"),
            vec![ParameterType::VecBytes, ParameterType::Int],
            ReturnType::Int,
        )
        .unwrap();

    // Guest side: the buffer lives in guest memory; the call site passes
    // pointer and length as two engine values.
    let mut memory = GuestMemory::new(4096).unwrap();
    let addr = memory.malloc(12).unwrap();
    memory.write(addr, b"Hello World!").unwrap();
    let d = HostFunctionDefinition {
        function_name: String::from("HostFuncWithBufferAndLength"),
        parameter_types: vec![ParameterType::VecBytes, ParameterType::Int],
        return_type: ReturnType::Int,
    };
    let vals = vec![WasmVal::I32(addr as i32), WasmVal::I32(12)];
    let fc = prepare_host_call(&memory, &d, &vals).expect("marshals");
    assert_eq!(fc.function_name, "HostFuncWithBufferAndLength");
    assert_eq!(
        fc.parameters,
        vec![
            ParameterValue::VecBytes(b"Hello World!".to_vec()),
            ParameterValue::Int(12),
        ]
    );

    // Host side: the registered implementation checks what it received.
    let host_impl = |b: Vec<u8>, l: i32| -> Result<i32, ()> {
        let s = std::str::from_utf8(&b).unwrap();
        if s != "Hello World!" {
            return Err(());
        }
        if l != 12 {
            return Err(());
        }
        Ok(0i32)
    };
    let (buffer, len) = match (&fc.parameters[0], &fc.parameters[1]) {
        (ParameterValue::VecBytes(b), ParameterValue::Int(l)) => (b.clone(), *l),
        _ => panic!("shape checked above"),
    };
    let rv = ReturnValue::Int(host_impl(buffer, len).expect("host accepts"));
    let back = finish_host_call(&mut memory, &d, &rv).expect("return marshals");
    assert_eq!(back, WasmVal::I32(0));
}

#[test]
fn host_call_return_type_mismatch_is_rejected() {
    let mut memory = GuestMemory::new(4096).unwrap();
    let d = HostFunctionDefinition {
        function_name: String::from("TestHostFunc"),
        parameter_types: vec![ParameterType::Int],
        return_type: ReturnType::Int,
    };
    let rv = ReturnValue::String(String::from("six"));
    let r = finish_host_call(&mut memory, &d, &rv);
    assert_eq!(r.unwrap_err(), GuestError::ReturnTypeMismatch);
}

#[test]
fn hostfunc_type_maps_wire_types_to_engine_types() {
    let d = HostFunctionDefinition {
        function_name: String::from("Mixed"),
        parameter_types: vec![
            ParameterType::VecBytes,
            ParameterType::Int,
            ParameterType::Double,
            ParameterType::String,
            ParameterType::ULong,
        ],
        return_type: ReturnType::String,
    };
    let ft = hostfunc_type(&d).expect("well shaped");
    assert_eq!(
        ft.params,
        vec![
            WasmValType::I32,
            WasmValType::I32,
            WasmValType::F64,
            WasmValType::I32,
            WasmValType::I64,
        ]
    );
    assert_eq!(ft.results, vec![WasmValType::I32]);

    let bad = HostFunctionDefinition {
        function_name: String::from("Bad"),
        parameter_types: vec![ParameterType::VecBytes, ParameterType::Float],
        return_type: ReturnType::Void,
    };
    assert_eq!(hostfunc_type(&bad).unwrap_err(), GuestError::VectorLengthMissing);
}

#[test]
fn registry_seal_reaches_the_guest_intact() {
    // What the host seals at the runtime transition is exactly what the
    // guest wires into its linker.
    let mut proto = SandboxBuilder::new().build(true, vec![0u8; 16]).unwrap();
    proto
        .register(
            String::from("GetTimeSinceBootMicrosecond"),
            vec![],
            ReturnType::Long,
        )
        .unwrap();
    let blob = proto.registry_blob().expect("fits");
    let memory = GuestMemory::new(4096).unwrap();
    let mut rt = GuestRuntime::new(memory);
    init_wasm_runtime(&mut rt, &blob).expect("init");
    assert!(rt.initialized);
    let names: Vec<&str> = rt.host_imports.iter().map(|d| d.function_name.as_str()).collect();
    assert_eq!(names, vec!["HostPrint", "GetTimeSinceBootMicrosecond"]);
    assert_eq!(rt.host_imports[0].parameter_types, vec![ParameterType::String]);
    assert_eq!(rt.host_imports[1].return_type, ReturnType::Long);
}

#[test]
fn platform_callbacks_behave_as_documented() {
    let mut va = VaAllocator::new();
    let a1 = va.wasmtime_mmap_new(4096).unwrap();
    let a2 = va.wasmtime_mmap_new(VA_STRIDE).unwrap();
    assert_eq!(a1, VA_WINDOW_BASE);
    assert_eq!(a2, VA_WINDOW_BASE + VA_STRIDE);
    assert!(va.wasmtime_mmap_new(VA_STRIDE + 1).is_err());

    assert_eq!(wasmtime_mmap_remap(4096), 0);
    assert_eq!(wasmtime_munmap(), 0);
    assert_eq!(wasmtime_mprotect(1), 0);
    assert_eq!(wasmtime_mprotect(3), 0);
    assert_eq!(wasmtime_mprotect(5), 0);
    assert_eq!(wasmtime_mprotect(7), -1);
    assert_eq!(wasmtime_page_size(), OS_PAGE_SIZE);

    assert!(page_fault_in_window(0, VA_WINDOW_BASE + 123));
    assert!(!page_fault_in_window(1, VA_WINDOW_BASE + 123));
    assert!(!page_fault_in_window(0, 0x1000));
    assert_eq!(fault_page_base(VA_WINDOW_BASE + 0x1234), VA_WINDOW_BASE + 0x1000);

    let mut traps = TrapState::new();
    let ctx = TrapContext {
        rip: 0x4000,
        rbp: 0x8000,
        scratch_rip: 0,
        scratch_rbp: 0,
        scratch_a: 7,
        scratch_b: 7,
    };
    // Without a registered handler nothing is forwarded.
    let (handled, same) = traps.wasmtime_trap_handler(6, ctx);
    assert!(!handled);
    assert_eq!(same, ctx);
    assert_eq!(traps.wasmtime_init_traps(0xABCD), 0);
    let (handled, rewritten) = traps.wasmtime_trap_handler(6, ctx);
    assert!(handled);
    assert_eq!(rewritten.rip, 0xABCD);
    assert_eq!(rewritten.scratch_rip, 0x4000);
    assert_eq!(rewritten.scratch_rbp, 0x8000);
    assert_eq!(rewritten.scratch_a, 0);
    // Other vectors are not re-signalled.
    let (handled, _) = traps.wasmtime_trap_handler(14, ctx);
    assert!(!handled);

    let mut tls = TlsSlot::new();
    assert_eq!(tls.wasmtime_tls_get(), 0);
    tls.wasmtime_tls_set(0x1234);
    assert_eq!(tls.wasmtime_tls_get(), 0x1234);

    let cm = WasmtimeCodeMemory {};
    assert_eq!(cm.required_alignment(), OS_PAGE_SIZE);
    assert!(cm.publish_executable().is_ok());
    assert!(cm.unpublish_executable().is_ok());
}

#[test]
fn fd_write_forwards_stdout_to_host_print() {
    let mut memory = GuestMemory::new(4096).unwrap();
    // One I/O vector at 64: buffer 128, length 5.
    memory.write(64, &[128, 0, 0, 0, 5, 0, 0, 0]).unwrap();
    memory.write(128, b"hello").unwrap();
    let texts = fd_write_gather(&memory, 1, 64, 1).expect("gathers");
    assert_eq!(texts, vec![String::from("hello")]);
    // Only standard output exists.
    assert_eq!(fd_write_gather(&memory, 2, 64, 1).unwrap_err(), -1);
    // The host print returned five bytes written; the total lands at the
    // result pointer.
    let code = fd_write_finish(&mut memory, 256, &vec![5i32]).expect("writes");
    assert_eq!(code, 0);
    assert_eq!(memory.read(256, 4).unwrap(), vec![5, 0, 0, 0]);
    assert_eq!(fd_seek(), -1);
    assert_eq!(fd_close(), -1);
}

#[test]
fn fd_fdstat_reports_a_regular_file_for_stdout() {
    let mut memory = GuestMemory::new(4096).unwrap();
    assert_eq!(fd_fdstat_get(&mut memory, 1, 512), 0);
    assert_eq!(memory.read(512, 2).unwrap(), vec![4, 0]);
    assert_eq!(memory.read(514, 2).unwrap(), vec![0, 0]);
    assert_eq!(memory.read(520, 8).unwrap(), vec![0b100011, 0, 0, 0, 0, 0, 0, 0]);
    assert_eq!(memory.read(528, 8).unwrap(), vec![0b100011, 0, 0, 0, 0, 0, 0, 0]);
    assert_eq!(fd_fdstat_get(&mut memory, 3, 512), -1);
}

#[test]
fn component_dispatch_and_resource_table() {
    let fc = FunctionCall {
        function_name: String::from("anything"),
        parameters: vec![],
        expected_return_type: ReturnType::Void,
    };
    assert_eq!(
        guest_dispatch_function(&fc).unwrap_err(),
        GuestError::FunctionNotFound
    );
    let mut table = ResourceTable::new();
    let h1 = table.get_or_register(77).unwrap();
    let h2 = table.get_or_register(99).unwrap();
    let h1_again = table.get_or_register(77).unwrap();
    assert_eq!(h1, h1_again);
    assert_ne!(h1, h2);
}

#[test]
fn build_info_reports_the_embedded_versions() {
    let info = hyperlight_wasm::get_build_info();
    assert_eq!(info.package_name, "hyperlight-wasm");
    assert_eq!(hyperlight_wasm::get_wasmtime_version(), "36.0.2");
    assert_eq!(info.wasm_runtime_wasmtime_version, "36.0.2");
    let report = info.report();
    assert!(report.contains("Wasm engine version: 36.0.2"));
}

#[test]
fn full_pipeline_over_mailbox_bytes() {
    // The complete data path of one call, byte-accurate on both mailboxes:
    // the host encodes the parameter frame; the guest decodes it out of the
    // mailbox, marshals into the engine, the echo export answers, and the
    // return frame travels back to the host decoder.
    let mut rt = loaded_runtime(vec!["Echo"]);
    let fc = FunctionCall {
        function_name: String::from("Echo"),
        parameters: vec![ParameterValue::String(String::from("Hello World!"))],
        expected_return_type: ReturnType::String,
    };
    let mailbox = hyperlight_wasm::loaded_sandbox::encode_guest_call_frame(&fc).unwrap();
    let (guest_fc, _) = hyperlight_wasm::codec::decode_function_call(&mailbox, 0).unwrap();
    assert_eq!(guest_fc, fc);
    let (rt2, prepared) = guest_dispatch_prepare(rt, &guest_fc);
    let mut rt = rt2;
    let vals = prepared.unwrap();
    let out_mailbox =
        guest_dispatch_finish(&mut rt, guest_fc.expected_return_type, &vals).unwrap();
    let rv = decode_return_value(&out_mailbox).unwrap();
    assert_eq!(rv, ReturnValue::String(String::from("Hello World!")));
}
