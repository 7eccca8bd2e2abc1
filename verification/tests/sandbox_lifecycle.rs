//! End-to-end lifecycle scenarios over the sandbox state machine, with the
//! test playing the driver: it fabricates the vCPU run outcomes a real
//! hypervisor and guest would produce.

use hyperlight_wasm::codec::encode_return_value;
use hyperlight_wasm::errors::SandboxError;
use hyperlight_wasm::func_types::{FunctionCall, ParameterType, ParameterValue, ReturnType, ReturnValue};
use hyperlight_wasm::loaded_sandbox::{encode_guest_call_frame, LoadedWasmSandbox, VmRun};
use hyperlight_wasm::sandbox_builder::{SandboxBuilder, MIN_HEAP_SIZE, MIN_STACK_SIZE};
use hyperlight_wasm::wasm_sandbox::WasmSandbox;

fn ok_run(rv: ReturnValue, mem_after: Vec<u8>) -> VmRun {
    VmRun::Completed { output: encode_return_value(&rv).expect("encodable"), mem_after }
}

fn call(name: &str, params: Vec<ParameterValue>, rt: ReturnType) -> FunctionCall {
    FunctionCall {
        function_name: String::from(name),
        parameters: params,
        expected_return_type: rt,
    }
}

fn loaded_sandbox() -> LoadedWasmSandbox {
    let proto = SandboxBuilder::new()
        .build(true, vec![0xEE; 64])
        .expect("hypervisor present");
    let runtime = proto
        .load_runtime(ok_run(ReturnValue::Int(0), vec![0x01; 64]))
        .expect("init succeeds");
    runtime
        .load_module_from_buffer(&vec![0x00; 16], ok_run(ReturnValue::Int(0), vec![0x02; 64]))
        .expect("load succeeds")
}

#[test]
fn test_new_sandbox() {
    let proto = SandboxBuilder::new().build(true, vec![0xEE; 8]);
    assert!(proto.is_ok());
    let refused = SandboxBuilder::new().build(false, vec![0xEE; 8]);
    assert_eq!(refused.unwrap_err(), SandboxError::NoHypervisorFound);
}

#[test]
fn builder_clamps_low_values() {
    let b = SandboxBuilder::new()
        .with_guest_stack_size(32 * 1024)
        .with_guest_heap_size(128 * 1024);
    assert_eq!(b.config.guest_stack_size, MIN_STACK_SIZE);
    assert_eq!(b.config.guest_heap_size, MIN_HEAP_SIZE);
    let b = b.with_guest_stack_size(4 * 1024 * 1024);
    assert_eq!(b.config.guest_stack_size, 4 * 1024 * 1024);
}

#[test]
fn registration_rejects_empty_name_and_bad_shape() {
    let mut proto = SandboxBuilder::new().build(true, vec![0u8; 8]).unwrap();
    let r = proto.register(String::new(), vec![ParameterType::Int], ReturnType::Int);
    assert_eq!(r.unwrap_err(), SandboxError::RegistrationError);
    // A buffer parameter must be followed by its length parameter.
    let r = proto.register(
        String::from("BadBuffer"),
        vec![ParameterType::VecBytes, ParameterType::Long],
        ReturnType::Int,
    );
    assert_eq!(r.unwrap_err(), SandboxError::RegistrationError);
    let r = proto.register(
        String::from("BadTrailingBuffer"),
        vec![ParameterType::VecBytes],
        ReturnType::Int,
    );
    assert_eq!(r.unwrap_err(), SandboxError::RegistrationError);
    let r = proto.register(
        String::from("HostFuncWithBufferAndLength"),
        vec![ParameterType::VecBytes, ParameterType::Int],
        ReturnType::Int,
    );
    assert!(r.is_ok());
}

#[test]
fn echo_scalar_scenario() {
    // Build the default sandbox, register nothing beyond the default host
    // print, load the runtime and the echo module, and call it.
    let mut loaded = loaded_sandbox();
    let fc = call(
        "Echo",
        vec![ParameterValue::String(String::from("Hello World!"))],
        ReturnType::String,
    );
    let frame = encode_guest_call_frame(&fc).expect("frame encodable");
    assert!(!frame.is_empty());
    // A pure echo guest hands the argument back.
    let run = ok_run(ReturnValue::String(String::from("Hello World!")), vec![0x03; 64]);
    let r = loaded.call_guest_function(&fc, run).expect("call succeeds");
    assert_eq!(r, ReturnValue::String(String::from("Hello World!")));
    assert!(!loaded.is_poisoned());
}

#[test]
fn host_callback_scenario() {
    // Register TestHostFunc(i32) -> i32; the guest function forwards its
    // argument to the host, whose implementation adds one.
    let mut proto = SandboxBuilder::new().build(true, vec![0u8; 32]).unwrap();
    proto
        .register(String::from("TestHostFunc"), vec![ParameterType::Int], ReturnType::Int)
        .unwrap();
    let runtime = proto
        .load_runtime(ok_run(ReturnValue::Int(0), vec![0u8; 32]))
        .unwrap();
    let mut loaded = runtime
        .load_module_from_buffer(&vec![1u8; 8], ok_run(ReturnValue::Int(0), vec![0u8; 32]))
        .expect("load succeeds");
    let host_impl = |a: i32| a + 1;
    let fc = call("call_host_function", vec![ParameterValue::Int(5)], ReturnType::Int);
    let run = ok_run(ReturnValue::Int(host_impl(5)), vec![0u8; 32]);
    let r = loaded.call_guest_function(&fc, run).unwrap();
    assert_eq!(r, ReturnValue::Int(6));
}

#[test]
fn snapshot_restore_scenario() {
    let mut loaded = loaded_sandbox();
    let fc = |a: f64, b: f64| {
        call(
            "RoundToNearestInt",
            vec![
                ParameterValue::Double(a.to_bits()),
                ParameterValue::Double(b.to_bits()),
            ],
            ReturnType::Int,
        )
    };
    let r = loaded
        .call_guest_function(&fc(1.331, 24.0), ok_run(ReturnValue::Int(32), vec![0x10; 64]))
        .unwrap();
    assert_eq!(r, ReturnValue::Int(32));
    let s = loaded.snapshot().expect("healthy");
    let r = loaded
        .call_guest_function(&fc(-5.7, 10.3), ok_run(ReturnValue::Int(-59), vec![0x11; 64]))
        .unwrap();
    assert_eq!(r, ReturnValue::Int(-59));
    loaded.restore(&s).unwrap();
    // Snapshot idempotence: the restored state captures bitwise-identical
    // memory.
    let s2 = loaded.snapshot().expect("healthy");
    assert_eq!(s2, s);
    let r = loaded
        .call_guest_function(&fc(1.5, 1.5), ok_run(ReturnValue::Int(2), vec![0x12; 64]))
        .unwrap();
    assert_eq!(r, ReturnValue::Int(2));
}

#[test]
fn interrupt_scenario() {
    let mut loaded = loaded_sandbox();
    let pre_call_snapshot = loaded.snapshot().unwrap();
    // The driver reports that the run was killed mid-flight.
    let fc = call("KeepCPUBusy", vec![ParameterValue::Int(100000)], ReturnType::Int);
    let r = loaded.call_guest_function(&fc, VmRun::Cancelled);
    assert_eq!(r.unwrap_err(), SandboxError::ExecutionCanceledByHost);
    assert!(loaded.is_poisoned());
    // Subsequent calls surface the poisoning, not the original cause.
    let fib = call("CalcFib", vec![ParameterValue::Int(10)], ReturnType::Int);
    let r = loaded.call_guest_function(&fib, ok_run(ReturnValue::Int(55), vec![0x20; 64]));
    assert_eq!(r.unwrap_err(), SandboxError::PoisonedSandbox);
    // A snapshot of a poisoned sandbox is refused too.
    assert_eq!(loaded.snapshot().unwrap_err(), SandboxError::PoisonedSandbox);
    // Restore clears the poisoning and the sandbox works again.
    loaded.restore(&pre_call_snapshot).unwrap();
    assert!(!loaded.is_poisoned());
    let r = loaded
        .call_guest_function(&fib, ok_run(ReturnValue::Int(55), vec![0x21; 64]))
        .unwrap();
    assert_eq!(r, ReturnValue::Int(55));
}

#[test]
fn latched_kill_consumed_by_next_call() {
    let mut loaded = loaded_sandbox();
    // No call is in progress: the kill is latched.
    loaded.kill();
    assert!(!loaded.is_poisoned());
    let fc = call("CalcFib", vec![ParameterValue::Int(4)], ReturnType::Int);
    let r = loaded.call_guest_function(&fc, ok_run(ReturnValue::Int(3), vec![0x30; 64]));
    assert_eq!(r.unwrap_err(), SandboxError::ExecutionCanceledByHost);
    assert!(loaded.is_poisoned());
}

#[test]
fn unload_recovery_scenario() {
    let mut loaded = loaded_sandbox();
    let fc = call("KeepCPUBusy", vec![ParameterValue::Int(100000)], ReturnType::Int);
    let _ = loaded.call_guest_function(&fc, VmRun::Cancelled);
    assert!(loaded.is_poisoned());
    // Unloading succeeds regardless of poisoning and restores the runtime
    // snapshot.
    let runtime: WasmSandbox = loaded.unload_module();
    assert_eq!(runtime.mem, runtime.runtime_snapshot.mem);
    // The recovered runtime loads another module.
    let mut loaded = runtime
        .load_module_from_buffer(&vec![2u8; 8], ok_run(ReturnValue::Int(0), vec![0x40; 64]))
        .expect("load succeeds");
    let hello = call(
        "HelloWorld",
        vec![ParameterValue::String(String::from("Recovery successful!"))],
        ReturnType::Int,
    );
    let r = loaded
        .call_guest_function(&hello, ok_run(ReturnValue::Int(0), vec![0x41; 64]))
        .unwrap();
    assert_eq!(r, ReturnValue::Int(0));
}

#[test]
fn load_failure_preserves_runtime() {
    let proto = SandboxBuilder::new().build(true, vec![0u8; 16]).unwrap();
    let runtime = proto
        .load_runtime(ok_run(ReturnValue::Int(0), vec![0u8; 16]))
        .unwrap();
    // A non-zero return from the load entrypoint fails the transition and
    // hands the runtime sandbox back.
    let (runtime, e) = runtime
        .load_module_from_buffer(&vec![9u8; 4], ok_run(ReturnValue::Int(3), vec![0u8; 16]))
        .unwrap_err();
    assert_eq!(e, SandboxError::LoadFailed(3));
    // The preserved runtime still loads a good module.
    let loaded = runtime
        .load_module_from_buffer(&vec![9u8; 4], ok_run(ReturnValue::Int(0), vec![0u8; 16]));
    assert!(loaded.is_ok());
}

#[test]
fn init_failure_reports_guest_code() {
    let proto = SandboxBuilder::new().build(true, vec![0u8; 16]).unwrap();
    let r = proto.load_runtime(ok_run(ReturnValue::Int(7), vec![0u8; 16]));
    assert_eq!(r.unwrap_err(), SandboxError::InitFailed(7));
    let proto = SandboxBuilder::new().build(true, vec![0u8; 16]).unwrap();
    let r = proto.load_runtime(VmRun::GuestAborted);
    assert_eq!(r.unwrap_err(), SandboxError::GuestAborted);
}

#[test]
fn mistyped_return_frame_is_marshalling_error() {
    let mut loaded = loaded_sandbox();
    let fc = call("CalcFib", vec![ParameterValue::Int(10)], ReturnType::Int);
    // The guest replied with a string where an int was expected.
    let run = ok_run(ReturnValue::String(String::from("55")), vec![0x50; 64]);
    let r = loaded.call_guest_function(&fc, run);
    assert_eq!(r.unwrap_err(), SandboxError::MarshallingError);
    // A marshalling error leaves the sandbox healthy.
    assert!(!loaded.is_poisoned());
}

#[test]
fn parallel_sandboxes_do_not_observe_each_other() {
    // Two sandboxes driven independently: operations on one never change
    // the other.
    let mut a = loaded_sandbox();
    let mut b = loaded_sandbox();
    let fc = call("KeepCPUBusy", vec![ParameterValue::Int(7)], ReturnType::Int);
    let _ = a.call_guest_function(&fc, VmRun::Cancelled);
    assert!(a.is_poisoned());
    assert!(!b.is_poisoned());
    let snapshot_b = b.snapshot().unwrap();
    let r = b
        .call_guest_function(
            &call("CalcFib", vec![ParameterValue::Int(4)], ReturnType::Int),
            ok_run(ReturnValue::Int(3), vec![0x60; 64]),
        )
        .unwrap();
    assert_eq!(r, ReturnValue::Int(3));
    assert!(a.is_poisoned());
    let _ = snapshot_b;
}
