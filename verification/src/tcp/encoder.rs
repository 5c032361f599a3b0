use vstd::prelude::*;
use crate::ExceptionCode;

verus! {

/// Why a read holding registers response could not be encoded.
#[non_exhaustive]
#[derive(Debug, PartialEq, Eq, Structural, Clone, Copy)]
pub enum EncodeError {
    InvalidQuantityOfRegisters,
    InvalidQuantityOfProvidedRegisters,
}

/// Why a read holding registers exception response could not be encoded.
#[derive(Debug, PartialEq, Eq, Structural, Clone, Copy)]
pub enum EncodeExceptionError {
    WrongExceptionCode,
}

/// A frame that a read holding registers response can be encoded into, for
/// users of the library to implement.
pub trait ReadHoldingRegistersEnconder: Sized {
    /// Encodes a response with `quantity_of_registers` registers taken from
    /// `registers`.
    fn encode(self, quantity_of_registers: u16, registers: &[u16]) -> Result<Self, EncodeError>;

    /// Encodes an exception response with `code`.
    fn encode_exception(self, code: ExceptionCode) -> Result<Self, EncodeExceptionError>;
}

} // verus!
