use vstd::prelude::*;

verus! {

/// The exception codes a server answers a refused request with.
#[derive(Debug, Clone, Copy, PartialEq, Eq, Structural)]
pub enum ExceptionCode {
    /// The function code received in the query is not an allowable
    /// action for the server.
    IllegalFunction,
    /// The data address received in the query is not an allowable
    /// address for the server.
    IllegalDataAddress,
    /// A value contained in the query data field is not an allowable
    /// value for server.
    IllegalDataValue,
    /// An unrecoverable error occurred while the server was attempting
    /// to perform the requested action.
    SlaveDeviceFailure,
    /// The server has accepted the request and is processing it, but
    /// a long duration of time will be required to do so.
    Acknowledge,
    /// The server is engaged in processing a long-duration program command.
    SlaveDeviceBusy,
    /// The extended file area failed to pass a consistency check.
    MemoryParityError,
    /// The gateway was unable to allocate an internal communication path.
    GatewayPathUnavailable,
    /// No response was obtained from the target device.
    GatewayTargetFailedToRespond,
    /// Set if nothing else is applicable.
    Unknown(u8),
}

/// The values that name an exception code of [ExceptionCode].
pub open spec fn is_known_exception_code(v: u8) -> bool {
    (1 <= v <= 6) || v == 8 || v == 0x0A || v == 0x0B
}

/// The byte of an exception code (`From<ExceptionCode> for u8`).
pub open spec fn exception_code_byte(code: ExceptionCode) -> u8 {
    match code {
        ExceptionCode::IllegalFunction => 0x01,
        ExceptionCode::IllegalDataAddress => 0x02,
        ExceptionCode::IllegalDataValue => 0x03,
        ExceptionCode::SlaveDeviceFailure => 0x04,
        ExceptionCode::Acknowledge => 0x05,
        ExceptionCode::SlaveDeviceBusy => 0x06,
        ExceptionCode::MemoryParityError => 0x08,
        ExceptionCode::GatewayPathUnavailable => 0x0A,
        ExceptionCode::GatewayTargetFailedToRespond => 0x0B,
        ExceptionCode::Unknown(value) => value,
    }
}

/// The exception code of a byte (`From<u8> for ExceptionCode`).
pub open spec fn exception_code_from_byte(value: u8) -> ExceptionCode {
    if value == 0x01 {
        ExceptionCode::IllegalFunction
    } else if value == 0x02 {
        ExceptionCode::IllegalDataAddress
    } else if value == 0x03 {
        ExceptionCode::IllegalDataValue
    } else if value == 0x04 {
        ExceptionCode::SlaveDeviceFailure
    } else if value == 0x05 {
        ExceptionCode::Acknowledge
    } else if value == 0x06 {
        ExceptionCode::SlaveDeviceBusy
    } else if value == 0x08 {
        ExceptionCode::MemoryParityError
    } else if value == 0x0A {
        ExceptionCode::GatewayPathUnavailable
    } else if value == 0x0B {
        ExceptionCode::GatewayTargetFailedToRespond
    } else {
        ExceptionCode::Unknown(value)
    }
}

/// The exception codes that decoding a byte can give: a named code, or
/// `Unknown` of a value that names none.
pub open spec fn is_canonical_exception_code(code: ExceptionCode) -> bool {
    match code {
        ExceptionCode::Unknown(v) => !is_known_exception_code(v),
        _ => true,
    }
}

impl From<ExceptionCode> for u8 {
    fn from(value: ExceptionCode) -> (r: u8) {
        match value {
            ExceptionCode::IllegalFunction => 0x01,
            ExceptionCode::IllegalDataAddress => 0x02,
            ExceptionCode::IllegalDataValue => 0x03,
            ExceptionCode::SlaveDeviceFailure => 0x04,
            ExceptionCode::Acknowledge => 0x05,
            ExceptionCode::SlaveDeviceBusy => 0x06,
            ExceptionCode::MemoryParityError => 0x08,
            ExceptionCode::GatewayPathUnavailable => 0x0A,
            ExceptionCode::GatewayTargetFailedToRespond => 0x0B,
            ExceptionCode::Unknown(value) => value,
        }
    }
}

impl vstd::std_specs::convert::FromSpecImpl<ExceptionCode> for u8 {
    open spec fn obeys_from_spec() -> bool {
        true
    }

    open spec fn from_spec(v: ExceptionCode) -> u8 {
        exception_code_byte(v)
    }
}

impl From<u8> for ExceptionCode {
    fn from(value: u8) -> (r: ExceptionCode) {
        match value {
            0x01 => ExceptionCode::IllegalFunction,
            0x02 => ExceptionCode::IllegalDataAddress,
            0x03 => ExceptionCode::IllegalDataValue,
            0x04 => ExceptionCode::SlaveDeviceFailure,
            0x05 => ExceptionCode::Acknowledge,
            0x06 => ExceptionCode::SlaveDeviceBusy,
            0x08 => ExceptionCode::MemoryParityError,
            0x0A => ExceptionCode::GatewayPathUnavailable,
            0x0B => ExceptionCode::GatewayTargetFailedToRespond,
            _ => ExceptionCode::Unknown(value),
        }
    }
}

impl vstd::std_specs::convert::FromSpecImpl<u8> for ExceptionCode {
    open spec fn obeys_from_spec() -> bool {
        true
    }

    open spec fn from_spec(v: u8) -> ExceptionCode {
        exception_code_from_byte(v)
    }
}

/// Every byte is the byte of the exception code that it decodes to.
pub proof fn lemma_exception_byte_roundtrip(value: u8)
    ensures
        exception_code_byte(exception_code_from_byte(value)) == value,
{
}

/// Decoding the byte of an exception code gives the code back exactly when
/// the code is canonical (so `Unknown(1)` comes back as `IllegalFunction`).
pub proof fn lemma_exception_code_roundtrip(code: ExceptionCode)
    ensures
        exception_code_from_byte(exception_code_byte(code)) == code <==> is_canonical_exception_code(
            code,
        ),
{
}

/// The bytes of the Modbus exception codes: illegal function 0x01, illegal
/// data address 0x02, illegal data value 0x03, slave device failure 0x04,
/// acknowledge 0x05, slave device busy 0x06, memory parity error 0x08,
/// gateway path unavailable 0x0A, gateway target failed to respond 0x0B;
/// any other byte is kept as an unknown code.
pub proof fn lemma_exception_code_bytes(value: u8)
    ensures
        exception_code_byte(ExceptionCode::IllegalFunction) == 0x01,
        exception_code_byte(ExceptionCode::IllegalDataAddress) == 0x02,
        exception_code_byte(ExceptionCode::IllegalDataValue) == 0x03,
        exception_code_byte(ExceptionCode::SlaveDeviceFailure) == 0x04,
        exception_code_byte(ExceptionCode::Acknowledge) == 0x05,
        exception_code_byte(ExceptionCode::SlaveDeviceBusy) == 0x06,
        exception_code_byte(ExceptionCode::MemoryParityError) == 0x08,
        exception_code_byte(ExceptionCode::GatewayPathUnavailable) == 0x0A,
        exception_code_byte(ExceptionCode::GatewayTargetFailedToRespond) == 0x0B,
        !(value == 0x01 || value == 0x02 || value == 0x03 || value == 0x04 || value == 0x05
            || value == 0x06 || value == 0x08 || value == 0x0A || value == 0x0B)
            <==> exception_code_from_byte(value) == ExceptionCode::Unknown(value),
{
}

} // verus!
