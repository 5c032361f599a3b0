use vstd::prelude::*;

verus! {

/// A function code together with the information whether the PDU carries
/// a normal reply/request or an exception reply.
#[derive(Debug, Clone, Copy, PartialEq, Eq, Structural)]
pub enum FunctionKind {
    Normal(FunctionCode),
    Exception(FunctionCode),
}

/// The Modbus function codes.
#[non_exhaustive]
#[derive(Debug, Clone, Copy, PartialEq, Eq, Structural)]
pub enum FunctionCode {
    ReadCoils,
    ReadDiscreteInputs,
    ReadHoldingRegisters,
    ReadInputRegisters,
    WriteSingleCoil,
    WriteSingleRegister,
    ReadExceptionStatus,
    Diagnostic,
    GetComEventCounter,
    GetComEventLog,
    WriteMultipleCoils,
    WriteMultipleRegisters,
    ReportServerId,
    ReadFileRecord,
    WriteFileRecord,
    MaskWriteRegister,
    ReadWriteMultipleRegisters,
    ReadFifoQueue,
    Unknown(u8),
}

/// The 7-bit values that name a function code of [FunctionCode].
pub open spec fn is_known_function_code(v: u8) -> bool {
    ||| 1 <= v <= 8
    ||| v == 11 || v == 12
    ||| 15 <= v <= 17
    ||| 20 <= v <= 24
}

/// The byte of a function code (`From<FunctionCode> for u8`).
pub open spec fn function_code_byte(code: FunctionCode) -> u8 {
    match code {
        FunctionCode::ReadCoils => 1,
        FunctionCode::ReadDiscreteInputs => 2,
        FunctionCode::ReadHoldingRegisters => 3,
        FunctionCode::ReadInputRegisters => 4,
        FunctionCode::WriteSingleCoil => 5,
        FunctionCode::WriteSingleRegister => 6,
        FunctionCode::ReadExceptionStatus => 7,
        FunctionCode::Diagnostic => 8,
        FunctionCode::GetComEventCounter => 11,
        FunctionCode::GetComEventLog => 12,
        FunctionCode::WriteMultipleCoils => 15,
        FunctionCode::WriteMultipleRegisters => 16,
        FunctionCode::ReportServerId => 17,
        FunctionCode::ReadFileRecord => 20,
        FunctionCode::WriteFileRecord => 21,
        FunctionCode::MaskWriteRegister => 22,
        FunctionCode::ReadWriteMultipleRegisters => 23,
        FunctionCode::ReadFifoQueue => 24,
        FunctionCode::Unknown(value) => value & 0x7F,
    }
}

/// The function code named by the low seven bits of `value`
/// (`From<u8> for FunctionCode`); an unknown value is kept whole.
pub open spec fn function_code_from_byte(value: u8) -> FunctionCode {
    let v = value & 0x7F;
    if v == 1 {
        FunctionCode::ReadCoils
    } else if v == 2 {
        FunctionCode::ReadDiscreteInputs
    } else if v == 3 {
        FunctionCode::ReadHoldingRegisters
    } else if v == 4 {
        FunctionCode::ReadInputRegisters
    } else if v == 5 {
        FunctionCode::WriteSingleCoil
    } else if v == 6 {
        FunctionCode::WriteSingleRegister
    } else if v == 7 {
        FunctionCode::ReadExceptionStatus
    } else if v == 8 {
        FunctionCode::Diagnostic
    } else if v == 11 {
        FunctionCode::GetComEventCounter
    } else if v == 12 {
        FunctionCode::GetComEventLog
    } else if v == 15 {
        FunctionCode::WriteMultipleCoils
    } else if v == 16 {
        FunctionCode::WriteMultipleRegisters
    } else if v == 17 {
        FunctionCode::ReportServerId
    } else if v == 20 {
        FunctionCode::ReadFileRecord
    } else if v == 21 {
        FunctionCode::WriteFileRecord
    } else if v == 22 {
        FunctionCode::MaskWriteRegister
    } else if v == 23 {
        FunctionCode::ReadWriteMultipleRegisters
    } else if v == 24 {
        FunctionCode::ReadFifoQueue
    } else {
        FunctionCode::Unknown(value)
    }
}

/// The byte of a function kind: the code's byte, with the high bit set for
/// an exception (`From<FunctionKind> for u8`).
pub open spec fn function_kind_byte(kind: FunctionKind) -> u8 {
    match kind {
        FunctionKind::Normal(code) => function_code_byte(code),
        FunctionKind::Exception(code) => function_code_byte(code) | 0x80,
    }
}

/// The function kind of a byte: an exception when the high bit is set
/// (`From<u8> for FunctionKind`).
pub open spec fn function_kind_from_byte(value: u8) -> FunctionKind {
    if value & 0x80 != 0 {
        FunctionKind::Exception(function_code_from_byte(value))
    } else {
        FunctionKind::Normal(function_code_from_byte(value))
    }
}

/// The function codes that decoding their own byte gives back: a named code,
/// or `Unknown` of a 7-bit value that names no code.
pub open spec fn is_canonical_function_code(code: FunctionCode) -> bool {
    match code {
        FunctionCode::Unknown(v) => v < 0x80 && !is_known_function_code(v),
        _ => true,
    }
}

/// The function kinds that `function_kind_from_byte` can give back: an
/// `Unknown` code holds the whole byte, so it has the high bit set exactly
/// when the kind is an exception, and its low seven bits name no code.
pub open spec fn is_canonical_function_kind(kind: FunctionKind) -> bool {
    match kind {
        FunctionKind::Normal(code) => is_canonical_function_code(code),
        FunctionKind::Exception(code) => match code {
            FunctionCode::Unknown(v) => v >= 0x80 && !is_known_function_code(v & 0x7F),
            _ => true,
        },
    }
}

impl FunctionKind {
    pub fn new_normal(code: FunctionCode) -> (r: FunctionKind)
        ensures
            r == FunctionKind::Normal(code),
    {
        FunctionKind::Normal(code)
    }

    pub fn new_exception(code: FunctionCode) -> (r: FunctionKind)
        ensures
            r == FunctionKind::Exception(code),
    {
        FunctionKind::Exception(code)
    }

    pub fn is_exception(&self) -> (r: bool)
        ensures
            r <==> self is Exception,
    {
        match self {
            FunctionKind::Exception(_) => true,
            _ => false,
        }
    }

    pub fn is_normal(&self) -> (r: bool)
        ensures
            r <==> self is Normal,
    {
        match self {
            FunctionKind::Normal(_) => true,
            _ => false,
        }
    }

    pub fn function_code(&self) -> (r: FunctionCode)
        ensures
            r == (match *self {
                FunctionKind::Normal(code) => code,
                FunctionKind::Exception(code) => code,
            }),
    {
        match self {
            FunctionKind::Normal(code) => *code,
            FunctionKind::Exception(code) => *code,
        }
    }
}

impl From<FunctionCode> for u8 {
    fn from(value: FunctionCode) -> (r: u8) {
        match value {
            FunctionCode::ReadCoils => 1,
            FunctionCode::ReadDiscreteInputs => 2,
            FunctionCode::ReadHoldingRegisters => 3,
            FunctionCode::ReadInputRegisters => 4,
            FunctionCode::WriteSingleCoil => 5,
            FunctionCode::WriteSingleRegister => 6,
            FunctionCode::ReadExceptionStatus => 7,
            FunctionCode::Diagnostic => 8,
            FunctionCode::GetComEventCounter => 11,
            FunctionCode::GetComEventLog => 12,
            FunctionCode::WriteMultipleCoils => 15,
            FunctionCode::WriteMultipleRegisters => 16,
            FunctionCode::ReportServerId => 17,
            FunctionCode::ReadFileRecord => 20,
            FunctionCode::WriteFileRecord => 21,
            FunctionCode::MaskWriteRegister => 22,
            FunctionCode::ReadWriteMultipleRegisters => 23,
            FunctionCode::ReadFifoQueue => 24,
            FunctionCode::Unknown(value) => value & 0x7F,
        }
    }
}

impl vstd::std_specs::convert::FromSpecImpl<FunctionCode> for u8 {
    open spec fn obeys_from_spec() -> bool {
        true
    }

    open spec fn from_spec(v: FunctionCode) -> u8 {
        function_code_byte(v)
    }
}

impl From<u8> for FunctionCode {
    fn from(value: u8) -> (r: FunctionCode) {
        let v = value & 0x7F;
        if v == 1 {
            FunctionCode::ReadCoils
        } else if v == 2 {
            FunctionCode::ReadDiscreteInputs
        } else if v == 3 {
            FunctionCode::ReadHoldingRegisters
        } else if v == 4 {
            FunctionCode::ReadInputRegisters
        } else if v == 5 {
            FunctionCode::WriteSingleCoil
        } else if v == 6 {
            FunctionCode::WriteSingleRegister
        } else if v == 7 {
            FunctionCode::ReadExceptionStatus
        } else if v == 8 {
            FunctionCode::Diagnostic
        } else if v == 11 {
            FunctionCode::GetComEventCounter
        } else if v == 12 {
            FunctionCode::GetComEventLog
        } else if v == 15 {
            FunctionCode::WriteMultipleCoils
        } else if v == 16 {
            FunctionCode::WriteMultipleRegisters
        } else if v == 17 {
            FunctionCode::ReportServerId
        } else if v == 20 {
            FunctionCode::ReadFileRecord
        } else if v == 21 {
            FunctionCode::WriteFileRecord
        } else if v == 22 {
            FunctionCode::MaskWriteRegister
        } else if v == 23 {
            FunctionCode::ReadWriteMultipleRegisters
        } else if v == 24 {
            FunctionCode::ReadFifoQueue
        } else {
            FunctionCode::Unknown(value)
        }
    }
}

impl vstd::std_specs::convert::FromSpecImpl<u8> for FunctionCode {
    open spec fn obeys_from_spec() -> bool {
        true
    }

    open spec fn from_spec(v: u8) -> FunctionCode {
        function_code_from_byte(v)
    }
}

impl From<FunctionKind> for u8 {
    fn from(value: FunctionKind) -> (r: u8) {
        match value {
            FunctionKind::Normal(code) => {
                let value = u8::from(code);
                value
            },
            FunctionKind::Exception(code) => {
                let value = u8::from(code);
                value | 0x80
            },
        }
    }
}

impl vstd::std_specs::convert::FromSpecImpl<FunctionKind> for u8 {
    open spec fn obeys_from_spec() -> bool {
        true
    }

    open spec fn from_spec(v: FunctionKind) -> u8 {
        function_kind_byte(v)
    }
}

impl From<u8> for FunctionKind {
    fn from(value: u8) -> (r: FunctionKind) {
        if value & 0x80 != 0 {
            let code = FunctionCode::from(value);
            FunctionKind::Exception(code)
        } else {
            let code = FunctionCode::from(value);
            FunctionKind::Normal(code)
        }
    }
}

impl vstd::std_specs::convert::FromSpecImpl<u8> for FunctionKind {
    open spec fn obeys_from_spec() -> bool {
        true
    }

    open spec fn from_spec(v: u8) -> FunctionKind {
        function_kind_from_byte(v)
    }
}

/// The byte of a function code never has the high bit set.
pub proof fn lemma_function_code_byte_is_seven_bit(code: FunctionCode)
    ensures
        function_code_byte(code) < 0x80,
{
    if let FunctionCode::Unknown(v) = code {
        assert(v & 0x7F < 0x80) by (bit_vector);
    }
}

/// The exception byte of a code is its normal byte plus 0x80.
pub proof fn lemma_exception_byte_is_normal_byte_plus_0x80(code: FunctionCode)
    ensures
        function_kind_byte(FunctionKind::Normal(code)) < 0x80,
        function_kind_byte(FunctionKind::Exception(code)) == function_kind_byte(
            FunctionKind::Normal(code),
        ) + 0x80,
{
    lemma_function_code_byte_is_seven_bit(code);
    let b = function_code_byte(code);
    assert(b < 0x80 ==> b | 0x80 == b + 0x80) by (bit_vector);
}

/// Every byte is the byte of the function kind that it decodes to.
pub proof fn lemma_function_kind_byte_roundtrip(value: u8)
    ensures
        function_kind_byte(function_kind_from_byte(value)) == value,
{
    let v = value & 0x7F;
    assert(value & 0x80 != 0 ==> (value & 0x7F) | 0x80 == value) by (bit_vector);
    assert(value & 0x80 == 0 ==> value & 0x7F == value) by (bit_vector);
    assert((value & 0x7F) & 0x7F == value & 0x7F) by (bit_vector);
}

/// A canonical function code is given back by decoding its byte.
pub proof fn lemma_function_code_roundtrip(code: FunctionCode)
    requires
        is_canonical_function_code(code),
    ensures
        function_code_from_byte(function_code_byte(code)) == code,
{
    lemma_function_code_byte_is_seven_bit(code);
    let b = function_code_byte(code);
    assert(b < 0x80 ==> b & 0x7F == b) by (bit_vector);
    if let FunctionCode::Unknown(v) = code {
        assert((v & 0x7F) & 0x7F == v & 0x7F) by (bit_vector);
        assert(v < 0x80 ==> v & 0x7F == v) by (bit_vector);
    }
}

/// A canonical function kind is given back by decoding its byte.
pub proof fn lemma_function_kind_roundtrip(kind: FunctionKind)
    requires
        is_canonical_function_kind(kind),
    ensures
        function_kind_from_byte(function_kind_byte(kind)) == kind,
{
    match kind {
        FunctionKind::Normal(code) => {
            lemma_function_code_byte_is_seven_bit(code);
            let b = function_code_byte(code);
            assert(b < 0x80 ==> b & 0x80 == 0) by (bit_vector);
            assert(b < 0x80 ==> b & 0x7F == b) by (bit_vector);
            if let FunctionCode::Unknown(v) = code {
                assert(v < 0x80 ==> v & 0x7F == v) by (bit_vector);
            }
        },
        FunctionKind::Exception(code) => {
            lemma_function_code_byte_is_seven_bit(code);
            let b = function_code_byte(code);
            assert(b < 0x80 ==> (b | 0x80) & 0x80 != 0) by (bit_vector);
            assert(b < 0x80 ==> (b | 0x80) & 0x7F == b) by (bit_vector);
            if let FunctionCode::Unknown(v) = code {
                assert(v >= 0x80 ==> (v & 0x7F) | 0x80 == v) by (bit_vector);
                assert((v & 0x7F) & 0x7F == v & 0x7F) by (bit_vector);
            }
        },
    }
}

/// The bytes of the Modbus function codes: read coils 0x01, read discrete
/// inputs 0x02, read holding registers 0x03, read input registers 0x04,
/// write single coil 0x05, write single register 0x06, read exception
/// status 0x07, diagnostic 0x08, get comm event counter 0x0B, get comm
/// event log 0x0C, write multiple coils 0x0F, write multiple registers
/// 0x10, report server id 0x11, read file record 0x14, write file record
/// 0x15, mask write register 0x16, read/write multiple registers 0x17,
/// read FIFO queue 0x18.
pub proof fn lemma_function_code_bytes()
    ensures
        function_code_byte(FunctionCode::ReadCoils) == 0x01,
        function_code_byte(FunctionCode::ReadDiscreteInputs) == 0x02,
        function_code_byte(FunctionCode::ReadHoldingRegisters) == 0x03,
        function_code_byte(FunctionCode::ReadInputRegisters) == 0x04,
        function_code_byte(FunctionCode::WriteSingleCoil) == 0x05,
        function_code_byte(FunctionCode::WriteSingleRegister) == 0x06,
        function_code_byte(FunctionCode::ReadExceptionStatus) == 0x07,
        function_code_byte(FunctionCode::Diagnostic) == 0x08,
        function_code_byte(FunctionCode::GetComEventCounter) == 0x0B,
        function_code_byte(FunctionCode::GetComEventLog) == 0x0C,
        function_code_byte(FunctionCode::WriteMultipleCoils) == 0x0F,
        function_code_byte(FunctionCode::WriteMultipleRegisters) == 0x10,
        function_code_byte(FunctionCode::ReportServerId) == 0x11,
        function_code_byte(FunctionCode::ReadFileRecord) == 0x14,
        function_code_byte(FunctionCode::WriteFileRecord) == 0x15,
        function_code_byte(FunctionCode::MaskWriteRegister) == 0x16,
        function_code_byte(FunctionCode::ReadWriteMultipleRegisters) == 0x17,
        function_code_byte(FunctionCode::ReadFifoQueue) == 0x18,
{
}

} // verus!
