//! One concrete input for each error the library can report.

use hyperlight_wasm::errors::{GuestError, SandboxError};
use hyperlight_wasm::func_types::{
    FunctionCall, ParameterType, ParameterValue, ReturnType, ReturnValue,
};
use hyperlight_wasm::guest_mem::GuestMemory;
use hyperlight_wasm::guest_rt::{init_wasm_runtime, GuestRuntime};
use hyperlight_wasm::hostfuncs::{encode_registry, HostFunctionDefinition};
use hyperlight_wasm::loaded_sandbox::VmRun;
use hyperlight_wasm::marshal::{
    hl_param_to_val, val_to_hl_param, val_to_hl_result, WasmVal,
};
use hyperlight_wasm::sandbox_builder::SandboxBuilder;

#[test]
fn out_of_bounds_read() {
    let memory = GuestMemory::new(64).unwrap();
    assert_eq!(memory.read(60, 8).unwrap_err(), GuestError::OutOfBounds);
}

#[test]
fn out_of_memory_allocation() {
    let mut memory = GuestMemory::new(64).unwrap();
    assert_eq!(memory.malloc(65).unwrap_err(), GuestError::OutOfMemory);
}

#[test]
fn unterminated_c_string() {
    let mut memory = GuestMemory::new(16).unwrap();
    memory.write(0, &[0x41; 16]).unwrap();
    assert_eq!(memory.read_cstr(0).unwrap_err(), GuestError::UnterminatedCString);
}

#[test]
fn non_utf8_string_parameter() {
    // A guest passes a pointer to bytes that are not UTF-8.
    let mut memory = GuestMemory::new(64).unwrap();
    memory.write(0, &[0xFF, 0xFE, 0x00]).unwrap();
    let r = val_to_hl_param(
        &memory,
        &vec![ParameterType::String],
        &vec![WasmVal::I32(0)],
    );
    assert_eq!(r.unwrap_err(), GuestError::NonUtf8);
}

#[test]
fn interior_nul_in_string_parameter() {
    // Text destined for a NUL-terminated buffer must not contain NUL.
    let mut memory = GuestMemory::new(256).unwrap();
    let param = ParameterValue::String(String::from("cut\0short"));
    let r = hl_param_to_val(&mut memory, &param);
    assert_eq!(r.unwrap_err(), GuestError::InteriorNul);
}

#[test]
fn parameter_type_mismatch() {
    // An i64 engine value where the declaration says i32.
    let memory = GuestMemory::new(64).unwrap();
    let r = val_to_hl_param(&memory, &vec![ParameterType::Int], &vec![WasmVal::I64(5)]);
    assert_eq!(r.unwrap_err(), GuestError::ParameterTypeMismatch);
}

#[test]
fn vector_length_missing_at_call_time() {
    // The engine delivered a buffer pointer and length, but the declared
    // list does not follow the buffer with its length parameter.
    let mut memory = GuestMemory::new(64).unwrap();
    memory.write(0, b"abc").unwrap();
    let r = val_to_hl_param(
        &memory,
        &vec![ParameterType::VecBytes, ParameterType::Long],
        &vec![WasmVal::I32(0), WasmVal::I32(3), WasmVal::I64(9)],
    );
    assert_eq!(r.unwrap_err(), GuestError::VectorLengthMissing);
}

#[test]
fn unsupported_return_combination() {
    let memory = GuestMemory::new(64).unwrap();
    let mut tracker: Vec<u32> = Vec::new();
    let r = val_to_hl_result(&memory, &mut tracker, ReturnType::Long, &vec![WasmVal::F32(0)]);
    assert_eq!(r.unwrap_err(), GuestError::UnsupportedTypeCombination);
}

#[test]
fn missing_result_is_malformed() {
    let memory = GuestMemory::new(64).unwrap();
    let mut tracker: Vec<u32> = Vec::new();
    let r = val_to_hl_result(&memory, &mut tracker, ReturnType::Int, &Vec::new());
    assert_eq!(r.unwrap_err(), GuestError::MalformedFrame);
}

#[test]
fn abnormal_exits_poison_with_their_own_error() {
    let build = || {
        SandboxBuilder::new()
            .build(true, vec![0u8; 16])
            .unwrap()
            .load_runtime(VmRun::Completed {
                output: hyperlight_wasm::codec::encode_return_value(&ReturnValue::Int(0)).unwrap(),
                mem_after: vec![0u8; 16],
            })
            .unwrap()
            .load_module_from_buffer(&vec![0u8; 4], VmRun::Completed {
                output: hyperlight_wasm::codec::encode_return_value(&ReturnValue::Int(0)).unwrap(),
                mem_after: vec![0u8; 16],
            })
            .unwrap()
    };
    let fc = FunctionCall {
        function_name: String::from("CalcFib"),
        parameters: vec![ParameterValue::Int(4)],
        expected_return_type: ReturnType::Int,
    };
    let mut l = build();
    assert_eq!(
        l.call_guest_function(&fc, VmRun::MemoryFault).unwrap_err(),
        SandboxError::MemoryFault
    );
    assert!(l.is_poisoned());
    let mut l = build();
    assert_eq!(
        l.call_guest_function(&fc, VmRun::StackExhausted).unwrap_err(),
        SandboxError::StackExhausted
    );
    assert!(l.is_poisoned());
    let mut l = build();
    assert_eq!(
        l.call_guest_function(&fc, VmRun::GuestAborted).unwrap_err(),
        SandboxError::GuestAborted
    );
    assert!(l.is_poisoned());
}

#[test]
fn init_rejects_a_bad_shaped_registry_blob() {
    // A registry whose buffer parameter has no length parameter encodes
    // fine but cannot be wired into the linker.
    let defs = vec![HostFunctionDefinition {
        function_name: String::from("Lonely"),
        parameter_types: vec![ParameterType::VecBytes],
        return_type: ReturnType::Int,
    }];
    let blob = encode_registry(&defs).unwrap();
    let mut rt = GuestRuntime::new(GuestMemory::new(4096).unwrap());
    let r = init_wasm_runtime(&mut rt, &blob);
    assert_eq!(r.unwrap_err(), GuestError::VectorLengthMissing);
    assert!(!rt.initialized);
    // An undecodable blob reports its own error.
    let mut rt = GuestRuntime::new(GuestMemory::new(4096).unwrap());
    let r = init_wasm_runtime(&mut rt, &vec![1u8, 2, 3]);
    assert_eq!(r.unwrap_err(), GuestError::MalformedFrame);
}

#[test]
fn registry_blob_must_fit_the_descriptor_table() {
    // A registry larger than the configured descriptor-table capacity
    // cannot be sealed.
    let mut proto = SandboxBuilder::new().build(true, vec![0u8; 16]).unwrap();
    let long_name: String = std::iter::repeat('n').take(4096).collect();
    proto
        .register(long_name, vec![ParameterType::Int], ReturnType::Int)
        .unwrap();
    assert_eq!(
        proto.registry_blob().unwrap_err(),
        SandboxError::RegistrationError
    );
    let r = proto.load_runtime(VmRun::Completed {
        output: hyperlight_wasm::codec::encode_return_value(&ReturnValue::Int(0)).unwrap(),
        mem_after: vec![0u8; 16],
    });
    assert_eq!(r.unwrap_err(), SandboxError::RegistrationError);
}
