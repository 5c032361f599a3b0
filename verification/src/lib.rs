//! A Modbus protocol stack: function and exception codes, register types,
//! Modbus/RTU and Modbus/TCP frame decoders, and PDU encoders and decoders.
use vstd::prelude::*;

/// Sizes shared by the frame types.
pub mod constants;

/// Big-endian byte helpers used on the wire.
pub mod wire;

/// Register related types and helper functions.
pub mod register;

/// Function code related types.
mod codes;
pub use codes::{
    FunctionCode, FunctionKind, is_known_function_code, function_code_byte, function_code_from_byte,
    function_kind_byte, function_kind_from_byte, is_canonical_function_code,
    is_canonical_function_kind, lemma_function_code_byte_is_seven_bit,
    lemma_exception_byte_is_normal_byte_plus_0x80, lemma_function_kind_byte_roundtrip,
    lemma_function_code_roundtrip, lemma_function_kind_roundtrip, lemma_function_code_bytes,
};

/// Exception code related types and helper functions.
mod exception;
pub use exception::{
    ExceptionCode, is_known_exception_code, exception_code_byte, exception_code_from_byte,
    is_canonical_exception_code, lemma_exception_byte_roundtrip, lemma_exception_code_roundtrip,
    lemma_exception_code_bytes,
};

/// PDU related types.
mod pdu;
pub use pdu::{PduData, PduDataMut};

/// ADU related types.
mod adu;
pub use adu::AduData;

/// Modbus/RTU related types and helper functions.
pub mod rtu;

/// TCP/IP related types and helper functions.
pub mod tcp;

/// Decoders for request and response PDUs.
pub mod decode;

/// Encoders for request and response PDUs.
pub mod encode;

/// Server related types and helper functions.
pub mod server;

verus! {

} // verus!
