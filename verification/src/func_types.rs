//! The tagged wire value ADT: the only types permitted to cross the VM
//! boundary, in parameter and in return position.
//!
//! Floating-point parameters and returns travel as their IEEE-754 bit
//! patterns; the `Float` and `Double` variants therefore carry `u32` and
//! `u64` bit patterns.

use vstd::prelude::*;

verus! {

/// The declared type of one guest- or host-function parameter.
#[derive(Debug, Clone, Copy, PartialEq, Eq, Structural)]
pub enum ParameterType {
    /// `i32`.
    Int,
    /// `u32`.
    UInt,
    /// `i64`.
    Long,
    /// `u64`.
    ULong,
    /// `bool`, widened to `i32` (0/1) at the engine level.
    Bool,
    /// `f32`, carried as its bit pattern.
    Float,
    /// `f64`, carried as its bit pattern.
    Double,
    /// UTF-8 text, passed through guest memory.
    String,
    /// A byte buffer, passed through guest memory with an explicit length.
    VecBytes,
}

/// The declared return type of a guest or host function.
#[derive(Debug, Clone, Copy, PartialEq, Eq, Structural)]
pub enum ReturnType {
    /// `i32`.
    Int,
    /// `u32`.
    UInt,
    /// `i64`.
    Long,
    /// `u64`.
    ULong,
    /// `bool`.
    Bool,
    /// `f32`, carried as its bit pattern.
    Float,
    /// `f64`, carried as its bit pattern.
    Double,
    /// UTF-8 text.
    String,
    /// A byte buffer.
    VecBytes,
    /// No value.
    Void,
}

/// The value of a single parameter.
#[derive(Debug, Clone, PartialEq)]
pub enum ParameterValue {
    /// An `i32` value.
    Int(i32),
    /// A `u32` value.
    UInt(u32),
    /// An `i64` value.
    Long(i64),
    /// A `u64` value.
    ULong(u64),
    /// A `bool` value.
    Bool(bool),
    /// An `f32` value, as its bit pattern.
    Float(u32),
    /// An `f64` value, as its bit pattern.
    Double(u64),
    /// UTF-8 text.
    String(String),
    /// A byte buffer.
    VecBytes(Vec<u8>),
}

/// The value returned from a guest or host function.
#[derive(Debug, Clone, PartialEq)]
pub enum ReturnValue {
    /// An `i32` value.
    Int(i32),
    /// A `u32` value.
    UInt(u32),
    /// An `i64` value.
    Long(i64),
    /// A `u64` value.
    ULong(u64),
    /// A `bool` value.
    Bool(bool),
    /// An `f32` value, as its bit pattern.
    Float(u32),
    /// An `f64` value, as its bit pattern.
    Double(u64),
    /// UTF-8 text.
    String(String),
    /// A byte buffer.
    VecBytes(Vec<u8>),
    /// No value.
    Void,
}

/// Ghost image of a wire value, used by all contracts: text becomes a
/// character sequence and buffers become byte sequences.
pub ghost enum ValueView {
    /// An `i32` value.
    Int(i32),
    /// A `u32` value.
    UInt(u32),
    /// An `i64` value.
    Long(i64),
    /// A `u64` value.
    ULong(u64),
    /// A `bool` value.
    Bool(bool),
    /// An `f32` bit pattern.
    Float(u32),
    /// An `f64` bit pattern.
    Double(u64),
    /// Text.
    Str(Seq<char>),
    /// Bytes.
    Bytes(Seq<u8>),
    /// No value.
    Void,
}

impl View for ParameterValue {
    type V = ValueView;

    open spec fn view(&self) -> ValueView {
        match self {
            ParameterValue::Int(i) => ValueView::Int(*i),
            ParameterValue::UInt(u) => ValueView::UInt(*u),
            ParameterValue::Long(l) => ValueView::Long(*l),
            ParameterValue::ULong(u) => ValueView::ULong(*u),
            ParameterValue::Bool(b) => ValueView::Bool(*b),
            ParameterValue::Float(f) => ValueView::Float(*f),
            ParameterValue::Double(d) => ValueView::Double(*d),
            ParameterValue::String(s) => ValueView::Str(s@),
            ParameterValue::VecBytes(b) => ValueView::Bytes(b@),
        }
    }
}

impl View for ReturnValue {
    type V = ValueView;

    open spec fn view(&self) -> ValueView {
        match self {
            ReturnValue::Int(i) => ValueView::Int(*i),
            ReturnValue::UInt(u) => ValueView::UInt(*u),
            ReturnValue::Long(l) => ValueView::Long(*l),
            ReturnValue::ULong(u) => ValueView::ULong(*u),
            ReturnValue::Bool(b) => ValueView::Bool(*b),
            ReturnValue::Float(f) => ValueView::Float(*f),
            ReturnValue::Double(d) => ValueView::Double(*d),
            ReturnValue::String(s) => ValueView::Str(s@),
            ReturnValue::VecBytes(b) => ValueView::Bytes(b@),
            ReturnValue::Void => ValueView::Void,
        }
    }
}

/// Ghost image of a parameter frame.
pub ghost struct FunctionCallView {
    /// The name of the function to call.
    pub function_name: Seq<char>,
    /// The parameter values.
    pub parameters: Seq<ValueView>,
    /// The type the caller expects back.
    pub expected_return_type: ReturnType,
}

/// A parameter frame: one guest- or host-function invocation as it crosses
/// the VM boundary.
#[derive(Debug, Clone, PartialEq)]
pub struct FunctionCall {
    /// The name of the function to call.
    pub function_name: String,
    /// The parameter values.
    pub parameters: Vec<ParameterValue>,
    /// The type the caller expects back.
    pub expected_return_type: ReturnType,
}

impl View for FunctionCall {
    type V = FunctionCallView;

    open spec fn view(&self) -> FunctionCallView {
        FunctionCallView {
            function_name: self.function_name@,
            parameters: self.parameters@.map_values(|p: ParameterValue| p@),
            expected_return_type: self.expected_return_type,
        }
    }
}

/// Reinterpret a decoded wire value as a parameter value; only `Void` has no
/// parameter position.
pub fn return_to_param(v: ReturnValue) -> (r: Option<ParameterValue>)
    ensures
        r is Some <==> v@ !is Void,
        r matches Some(p) ==> p@ == v@,
{
    match v {
        ReturnValue::Int(i) => Some(ParameterValue::Int(i)),
        ReturnValue::UInt(u) => Some(ParameterValue::UInt(u)),
        ReturnValue::Long(l) => Some(ParameterValue::Long(l)),
        ReturnValue::ULong(u) => Some(ParameterValue::ULong(u)),
        ReturnValue::Bool(b) => Some(ParameterValue::Bool(b)),
        ReturnValue::Float(f) => Some(ParameterValue::Float(f)),
        ReturnValue::Double(d) => Some(ParameterValue::Double(d)),
        ReturnValue::String(s) => Some(ParameterValue::String(s)),
        ReturnValue::VecBytes(b) => Some(ParameterValue::VecBytes(b)),
        ReturnValue::Void => None,
    }
}

/// The declared parameter type that a parameter value inhabits.
pub open spec fn spec_param_type_of(v: ValueView) -> ParameterType {
    match v {
        ValueView::Int(_) => ParameterType::Int,
        ValueView::UInt(_) => ParameterType::UInt,
        ValueView::Long(_) => ParameterType::Long,
        ValueView::ULong(_) => ParameterType::ULong,
        ValueView::Bool(_) => ParameterType::Bool,
        ValueView::Float(_) => ParameterType::Float,
        ValueView::Double(_) => ParameterType::Double,
        ValueView::Str(_) => ParameterType::String,
        ValueView::Bytes(_) => ParameterType::VecBytes,
        ValueView::Void => ParameterType::Int,
    }
}

/// The declared return type that a return value inhabits.
pub open spec fn spec_return_type_of(v: ValueView) -> ReturnType {
    match v {
        ValueView::Int(_) => ReturnType::Int,
        ValueView::UInt(_) => ReturnType::UInt,
        ValueView::Long(_) => ReturnType::Long,
        ValueView::ULong(_) => ReturnType::ULong,
        ValueView::Bool(_) => ReturnType::Bool,
        ValueView::Float(_) => ReturnType::Float,
        ValueView::Double(_) => ReturnType::Double,
        ValueView::Str(_) => ReturnType::String,
        ValueView::Bytes(_) => ReturnType::VecBytes,
        ValueView::Void => ReturnType::Void,
    }
}

/// The declared return type that a return value inhabits.
pub fn return_type_from_val(val: &ReturnValue) -> (rt: ReturnType)
    ensures
        rt == spec_return_type_of(val@),
{
    match val {
        ReturnValue::Int(_) => ReturnType::Int,
        ReturnValue::UInt(_) => ReturnType::UInt,
        ReturnValue::Long(_) => ReturnType::Long,
        ReturnValue::ULong(_) => ReturnType::ULong,
        ReturnValue::Bool(_) => ReturnType::Bool,
        ReturnValue::Float(_) => ReturnType::Float,
        ReturnValue::Double(_) => ReturnType::Double,
        ReturnValue::String(_) => ReturnType::String,
        ReturnValue::VecBytes(_) => ReturnType::VecBytes,
        ReturnValue::Void => ReturnType::Void,
    }
}

} // verus!
