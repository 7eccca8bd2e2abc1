//! Round trips of the wire codec: every tagged value decodes from its own
//! encoding, frames survive the mailbox, and unknown tags are tolerated.

use hyperlight_wasm::codec::{
    decode_function_call, decode_return_value, decode_value, encode_function_call,
    encode_return_value, DecodedValue,
};
use hyperlight_wasm::func_types::{FunctionCall, ParameterType, ParameterValue, ReturnType, ReturnValue};
use hyperlight_wasm::hostfuncs::{decode_registry, encode_registry, HostFunctionDefinition};

fn round_trip(v: ReturnValue) {
    let bytes = encode_return_value(&v).expect("encodable");
    let back = decode_return_value(&bytes).expect("decodable");
    assert_eq!(back, v);
}

#[test]
fn round_trip_int() {
    round_trip(ReturnValue::Int(-123456));
    round_trip(ReturnValue::Int(0));
    round_trip(ReturnValue::Int(i32::MAX));
    round_trip(ReturnValue::Int(i32::MIN));
}

#[test]
fn round_trip_uint() {
    round_trip(ReturnValue::UInt(0));
    round_trip(ReturnValue::UInt(u32::MAX));
}

#[test]
fn round_trip_long() {
    round_trip(ReturnValue::Long(-9_876_543_210));
    round_trip(ReturnValue::Long(i64::MIN));
}

#[test]
fn round_trip_ulong() {
    round_trip(ReturnValue::ULong(u64::MAX));
}

#[test]
fn round_trip_bool() {
    round_trip(ReturnValue::Bool(true));
    round_trip(ReturnValue::Bool(false));
}

#[test]
fn round_trip_float_bits() {
    round_trip(ReturnValue::Float(1.331f32.to_bits()));
    round_trip(ReturnValue::Double(24.0f64.to_bits()));
}

#[test]
fn round_trip_string() {
    round_trip(ReturnValue::String(String::from("Hello World!")));
    round_trip(ReturnValue::String(String::new()));
    round_trip(ReturnValue::String(String::from("snowman \u{2603} text")));
}

#[test]
fn round_trip_vec_bytes() {
    round_trip(ReturnValue::VecBytes(vec![0x01, 0x02, 0x03]));
    round_trip(ReturnValue::VecBytes(Vec::new()));
}

#[test]
fn round_trip_void() {
    round_trip(ReturnValue::Void);
}

#[test]
fn unknown_tag_is_tolerated() {
    // A value with a tag from a future schema: tag byte, 32-bit length,
    // payload. The decoder skips it and reports the tag.
    let bytes = vec![42u8, 1, 0, 0, 0, 0xAA];
    let (v, end) = decode_value(&bytes, 0).expect("skippable");
    assert_eq!(v, DecodedValue::Unknown(42));
    assert_eq!(end, 6);
}

#[test]
fn truncated_value_is_rejected() {
    let mut bytes = encode_return_value(&ReturnValue::Long(7)).unwrap();
    bytes.pop();
    assert!(decode_return_value(&bytes).is_none());
}

#[test]
fn malformed_bool_payload_is_rejected() {
    // Tag 5 is bool; a payload byte other than 0 or 1 is malformed.
    let bytes = vec![5u8, 1, 0, 0, 0, 7];
    assert!(decode_value(&bytes, 0).is_none());
}

#[test]
fn call_frame_round_trip() {
    let fc = FunctionCall {
        function_name: String::from("RoundToNearestInt"),
        parameters: vec![
            ParameterValue::Double(1.331f64.to_bits()),
            ParameterValue::Double(24.0f64.to_bits()),
        ],
        expected_return_type: ReturnType::Int,
    };
    let bytes = encode_function_call(&fc).expect("encodable");
    let (back, end) = decode_function_call(&bytes, 0).expect("decodable");
    assert_eq!(back, fc);
    assert_eq!(end, bytes.len());
}

#[test]
fn call_frame_round_trip_with_trailing_mailbox_bytes() {
    let fc = FunctionCall {
        function_name: String::from("Echo"),
        parameters: vec![ParameterValue::String(String::from("Hello World!"))],
        expected_return_type: ReturnType::String,
    };
    let mut bytes = encode_function_call(&fc).expect("encodable");
    let frame_len = bytes.len();
    bytes.extend_from_slice(&[0u8; 64]);
    let (back, end) = decode_function_call(&bytes, 0).expect("decodable");
    assert_eq!(back, fc);
    assert_eq!(end, frame_len);
}

#[test]
fn registry_blob_round_trip() {
    let defs = vec![
        HostFunctionDefinition {
            function_name: String::from("HostPrint"),
            parameter_types: vec![ParameterType::String],
            return_type: ReturnType::Int,
        },
        HostFunctionDefinition {
            function_name: String::from("HostFuncWithBufferAndLength"),
            parameter_types: vec![ParameterType::VecBytes, ParameterType::Int],
            return_type: ReturnType::Int,
        },
    ];
    let blob = encode_registry(&defs).expect("encodable");
    let back = decode_registry(&blob).expect("decodable");
    assert_eq!(back, defs);
}
