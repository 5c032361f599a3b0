use vstd::prelude::*;
use crate::{FunctionCode, FunctionKind};
use crate::constants::MODBUS_RTU_FRAME_DATA_LENGTH;
use crate::rtu::crc::check_rtu_crc;
use crate::rtu::frame::ModbusRtuFrame;
use crate::rtu::layout::{
    ModbusRtuFrameDecoderDirection, RtuLayoutTable, RtuFrameLayout, RtuOutcome, direction_table,
    request_layout, response_layout, rtu_layout, is_frame_layout, at_least_one,
    rtu_frame_length, rtu_step, rtu_step_unsupported, rtu_feed,
};

/// A decoder for Modbus/RTU requests of a few function codes.
pub mod request;

verus! {

/// Where in a frame the decoder stands.
#[derive(Debug, PartialEq, Eq, Clone, Copy, Structural)]
enum ModbusRtuFrameDecoderState {
    WaitForSlaveAddress,
    WaitForFunctionCode,
    ReadByteCount { bytes_before_byte_count: usize },
    CollectPduData { index: usize, length: usize },
    CollectCrcData { index: usize },
}

/// The state a decoder following `table` is in once it has collected `p`.
spec fn expected_state(table: RtuLayoutTable, p: Seq<u8>) -> ModbusRtuFrameDecoderState {
    if p.len() == 0 {
        ModbusRtuFrameDecoderState::WaitForSlaveAddress
    } else if p.len() == 1 {
        ModbusRtuFrameDecoderState::WaitForFunctionCode
    } else {
        let i = p.len() - 2;
        match rtu_layout(table, p[1]) {
            RtuFrameLayout::CrcOnly => ModbusRtuFrameDecoderState::CollectCrcData {
                index: i as usize,
            },
            RtuFrameLayout::Fixed(n) => if i < at_least_one(n as int) {
                ModbusRtuFrameDecoderState::CollectPduData { index: i as usize, length: n }
            } else {
                ModbusRtuFrameDecoderState::CollectCrcData {
                    index: (i - at_least_one(n as int)) as usize,
                }
            },
            RtuFrameLayout::Counted(k) => if i <= k {
                ModbusRtuFrameDecoderState::ReadByteCount {
                    bytes_before_byte_count: (k - i) as usize,
                }
            } else {
                let bc = p[2 + k];
                let j = i - k - 1;
                if j < at_least_one(bc as int) {
                    ModbusRtuFrameDecoderState::CollectPduData {
                        index: j as usize,
                        length: bc as usize,
                    }
                } else {
                    ModbusRtuFrameDecoderState::CollectCrcData {
                        index: (j - at_least_one(bc as int)) as usize,
                    }
                }
            },
            _ => ModbusRtuFrameDecoderState::WaitForSlaveAddress,
        }
    }
}

/// Whether `p` is the start of a frame that is still being collected.
spec fn is_collecting(table: RtuLayoutTable, p: Seq<u8>) -> bool {
    p.len() >= 2 ==> {
        &&& is_frame_layout(rtu_layout(table, p[1]))
        &&& match rtu_frame_length(table, p) {
            Some(n) => p.len() < n,
            None => true,
        }
    }
}

/// In the checksum state, the second checksum byte completes the frame.
proof fn lemma_crc_state(table: RtuLayoutTable, p: Seq<u8>, byte: u8)
    requires
        p.len() >= 2,
        is_collecting(table, p),
        expected_state(table, p) is CollectCrcData,
    ensures
        ({
            let i = expected_state(table, p)->CollectCrcData_index;
            &&& i <= 1
            &&& i == 1 ==> rtu_frame_length(table, p.push(byte)) == Some(p.len() + 1int)
            &&& i == 0 ==> rtu_frame_length(table, p.push(byte)) == rtu_frame_length(table, p)
        }),
{
    let q = p.push(byte);
    assert(q[1] == p[1]);
    if let RtuFrameLayout::Counted(k) = rtu_layout(table, p[1]) {
        if p.len() > 2 + k {
            assert(q[2 + k] == p[2 + k]);
        }
    }
}

/// What the Modbus/RTU decoder reports after one byte.
#[derive(Debug, PartialEq)]
pub enum ModbusRtuFrameDecoderResult<'a> {
    Success(ModbusRtuFrame<'a>),
    Pending,
    CrcError,
    NotSupported,
    InvalidFunctionCode,
    NotEnoughData,
}

/// The report kind of a decoder result.
pub open spec fn outcome_of(r: ModbusRtuFrameDecoderResult<'_>) -> RtuOutcome {
    match r {
        ModbusRtuFrameDecoderResult::Success(_) => RtuOutcome::Success,
        ModbusRtuFrameDecoderResult::Pending => RtuOutcome::Pending,
        ModbusRtuFrameDecoderResult::CrcError => RtuOutcome::CrcError,
        ModbusRtuFrameDecoderResult::NotSupported => RtuOutcome::NotSupported,
        ModbusRtuFrameDecoderResult::InvalidFunctionCode => RtuOutcome::InvalidFunctionCode,
        ModbusRtuFrameDecoderResult::NotEnoughData => RtuOutcome::NotEnoughData,
    }
}

/// The layout of a request with the given normal function code.
fn request_frame_layout(code: FunctionCode) -> (r: RtuFrameLayout)
    ensures
        r == request_layout(code),
{
    match code {
        FunctionCode::ReadCoils => RtuFrameLayout::Fixed(4),
        FunctionCode::ReadDiscreteInputs => RtuFrameLayout::Fixed(4),
        FunctionCode::ReadHoldingRegisters => RtuFrameLayout::Fixed(4),
        FunctionCode::ReadInputRegisters => RtuFrameLayout::Fixed(4),
        FunctionCode::WriteSingleCoil => RtuFrameLayout::Fixed(4),
        FunctionCode::WriteSingleRegister => RtuFrameLayout::Fixed(4),
        FunctionCode::ReadExceptionStatus => RtuFrameLayout::CrcOnly,
        FunctionCode::Diagnostic => RtuFrameLayout::Unsupported,
        FunctionCode::GetComEventCounter => RtuFrameLayout::CrcOnly,
        FunctionCode::GetComEventLog => RtuFrameLayout::CrcOnly,
        FunctionCode::WriteMultipleCoils => RtuFrameLayout::Counted(4),
        FunctionCode::WriteMultipleRegisters => RtuFrameLayout::Counted(4),
        FunctionCode::ReportServerId => RtuFrameLayout::CrcOnly,
        FunctionCode::ReadFileRecord => RtuFrameLayout::Counted(0),
        FunctionCode::WriteFileRecord => RtuFrameLayout::Unsupported,
        FunctionCode::MaskWriteRegister => RtuFrameLayout::Fixed(6),
        FunctionCode::ReadWriteMultipleRegisters => RtuFrameLayout::Counted(8),
        FunctionCode::ReadFifoQueue => RtuFrameLayout::Fixed(2),
        FunctionCode::Unknown(_) => RtuFrameLayout::Dropped,
    }
}

/// The layout of a response with the given normal function code.
fn response_frame_layout(code: FunctionCode) -> (r: RtuFrameLayout)
    ensures
        r == response_layout(code),
{
    match code {
        FunctionCode::ReadCoils => RtuFrameLayout::Counted(0),
        FunctionCode::ReadDiscreteInputs => RtuFrameLayout::Counted(0),
        FunctionCode::ReadHoldingRegisters => RtuFrameLayout::Counted(0),
        FunctionCode::ReadInputRegisters => RtuFrameLayout::Counted(0),
        FunctionCode::WriteSingleCoil => RtuFrameLayout::Fixed(4),
        FunctionCode::WriteSingleRegister => RtuFrameLayout::Fixed(4),
        FunctionCode::ReadExceptionStatus => RtuFrameLayout::Fixed(1),
        FunctionCode::Diagnostic => RtuFrameLayout::Unsupported,
        FunctionCode::GetComEventCounter => RtuFrameLayout::Fixed(4),
        FunctionCode::GetComEventLog => RtuFrameLayout::Counted(0),
        FunctionCode::WriteMultipleCoils => RtuFrameLayout::Fixed(4),
        FunctionCode::WriteMultipleRegisters => RtuFrameLayout::Fixed(4),
        FunctionCode::ReportServerId => RtuFrameLayout::Unsupported,
        FunctionCode::ReadFileRecord => RtuFrameLayout::Unsupported,
        FunctionCode::WriteFileRecord => RtuFrameLayout::Unsupported,
        FunctionCode::MaskWriteRegister => RtuFrameLayout::Fixed(6),
        FunctionCode::ReadWriteMultipleRegisters => RtuFrameLayout::Counted(0),
        FunctionCode::ReadFifoQueue => RtuFrameLayout::Unsupported,
        FunctionCode::Unknown(_) => RtuFrameLayout::Dropped,
    }
}

/// The layout of the frame whose function code byte is `fc`, for a decoder
/// expecting `direction`.
fn frame_layout(direction: ModbusRtuFrameDecoderDirection, fc: u8) -> (r: RtuFrameLayout)
    ensures
        r == rtu_layout(direction_table(direction), fc),
{
    let function_kind = FunctionKind::from(fc);
    match direction {
        ModbusRtuFrameDecoderDirection::Request => match function_kind {
            FunctionKind::Normal(code) => request_frame_layout(code),
            FunctionKind::Exception(_) => RtuFrameLayout::Invalid,
        },
        ModbusRtuFrameDecoderDirection::Response => match function_kind {
            FunctionKind::Normal(code) => response_frame_layout(code),
            FunctionKind::Exception(_) => RtuFrameLayout::Fixed(1),
        },
    }
}

/// The buffer after a decoder that has collected `collected` bytes stores
/// `byte`: at the next place, unless the buffer is full.
pub open spec fn written_buffer(buffer: Seq<u8>, collected: nat, byte: u8) -> Seq<u8> {
    if collected < MODBUS_RTU_FRAME_DATA_LENGTH {
        buffer.update(collected as int, byte)
    } else {
        buffer
    }
}

/// The buffer of a decoder holding `start` and `buffer` after it takes in
/// `bytes` one after another: each byte is stored after the bytes collected
/// before it.
pub open spec fn rtu_feed_buffer(
    table: RtuLayoutTable,
    start: Seq<u8>,
    buffer: Seq<u8>,
    bytes: Seq<u8>,
) -> Seq<u8>
    decreases bytes.len(),
{
    if bytes.len() == 0 {
        buffer
    } else {
        written_buffer(
            rtu_feed_buffer(table, start, buffer, bytes.drop_last()),
            rtu_feed(table, start, bytes.drop_last()).0.len(),
            bytes.last(),
        )
    }
}

/// A byte-by-byte decoder of Modbus/RTU frames.
pub struct ModbusRtuFrameDecoder<'a> {
    data: &'a mut [u8; MODBUS_RTU_FRAME_DATA_LENGTH],
    state: ModbusRtuFrameDecoderState,
    index: usize,
    decoder_direction: ModbusRtuFrameDecoderDirection,
}

impl<'a> ModbusRtuFrameDecoder<'a> {
    /// The bytes of the frame collected so far.
    pub closed spec fn pending(&self) -> Seq<u8> {
        self.data@.take(self.index as int)
    }

    /// The whole buffer the decoder collects into.
    pub closed spec fn buffer(&self) -> Seq<u8> {
        self.data@
    }

    /// The reference to the caller's buffer, whose final value the caller's
    /// buffer ends as.
    pub closed spec fn buffer_ref(&self) -> &'a mut [u8; MODBUS_RTU_FRAME_DATA_LENGTH] {
        self.data
    }

    /// Once the decoder is changed no more, the buffer it holds is what the
    /// borrowed buffer ends as.
    pub proof fn lemma_resolved(&self)
        requires
            has_resolved(*self),
        ensures
            final(self.buffer_ref())@ == self.buffer(),
    {
    }

    /// The kind of frames the decoder expects.
    pub closed spec fn direction(&self) -> ModbusRtuFrameDecoderDirection {
        self.decoder_direction
    }

    /// The decoder's state agrees with the bytes it has collected.
    pub closed spec fn wf(&self) -> bool {
        let table = direction_table(self.decoder_direction);
        &&& self.index <= MODBUS_RTU_FRAME_DATA_LENGTH
        &&& is_collecting(table, self.pending())
        &&& self.state == expected_state(table, self.pending())
    }

    /// Whether the decoder can take in `byte` (it panics on a function code
    /// it does not handle).
    pub open spec fn accepts(&self, byte: u8) -> bool {
        !rtu_step_unsupported(direction_table(self.direction()), self.pending(), byte)
    }

    pub fn new(
        data: &'a mut [u8; MODBUS_RTU_FRAME_DATA_LENGTH],
        decoder_direction: ModbusRtuFrameDecoderDirection,
    ) -> (r: ModbusRtuFrameDecoder<'a>)
        ensures
            r.wf(),
            r.buffer() == old(data)@,
            *final(data) == *final(r.buffer_ref()),
            r.pending() == Seq::<u8>::empty(),
            r.direction() == decoder_direction,
    {
        let decoder = ModbusRtuFrameDecoder {
            data,
            state: ModbusRtuFrameDecoderState::WaitForSlaveAddress,
            index: 0,
            decoder_direction,
        };
        proof {
            assert(decoder.pending() =~= Seq::<u8>::empty());
        }
        decoder
    }

    pub fn expect_request(&mut self)
        ensures
            final(self).wf(),
            final(self).pending() == Seq::<u8>::empty(),
            final(self).direction() == ModbusRtuFrameDecoderDirection::Request,
            final(self).buffer() == old(self).buffer(),
            *final(final(self).buffer_ref()) == *final(old(self).buffer_ref()),
    {
        // Reset state
        self.reset();

        // Switch to request mode
        self.decoder_direction = ModbusRtuFrameDecoderDirection::Request;
    }

    pub fn expect_response(&mut self)
        ensures
            final(self).wf(),
            final(self).pending() == Seq::<u8>::empty(),
            final(self).direction() == ModbusRtuFrameDecoderDirection::Response,
            final(self).buffer() == old(self).buffer(),
            *final(final(self).buffer_ref()) == *final(old(self).buffer_ref()),
    {
        // Reset state
        self.reset();

        // Switch to response mode
        self.decoder_direction = ModbusRtuFrameDecoderDirection::Response;
    }

    pub fn reset(&mut self)
        ensures
            final(self).wf(),
            final(self).pending() == Seq::<u8>::empty(),
            final(self).direction() == old(self).direction(),
            final(self).buffer() == old(self).buffer(),
            *final(final(self).buffer_ref()) == *final(old(self).buffer_ref()),
    {
        self.state = ModbusRtuFrameDecoderState::WaitForSlaveAddress;
        self.index = 0;
        proof {
            assert(self.pending() =~= Seq::<u8>::empty());
        }
    }

    /// Takes in one byte of a frame. Once the bytes make up a whole frame,
    /// it is handed out when its checksum is right.
    pub fn push_data(&mut self, data: u8) -> (r: ModbusRtuFrameDecoderResult<'_>)
        requires
            old(self).wf(),
            old(self).accepts(data),
        ensures
            final(self).wf(),
            final(self).direction() == old(self).direction(),
            final(self).pending() == rtu_step(
                direction_table(old(self).direction()),
                old(self).pending(),
                data,
            ).0,
            outcome_of(r) == rtu_step(
                direction_table(old(self).direction()),
                old(self).pending(),
                data,
            ).1,
            r matches ModbusRtuFrameDecoderResult::Success(frame) ==> frame.frame_bytes()
                == old(self).pending().push(data) && frame.frame_length() == old(
                self,
            ).pending().len() + 1 && frame.buffer() == written_buffer(
                old(self).buffer(),
                old(self).pending().len(),
                data,
            ) && final(self).buffer() == final(frame.buffer_ref())@,
            !(r is Success) ==> final(self).buffer() == written_buffer(
                old(self).buffer(),
                old(self).pending().len(),
                data,
            ),
            *final(final(self).buffer_ref()) == *final(old(self).buffer_ref()),
    {
        let ghost table = direction_table(self.decoder_direction);
        let ghost old_pending = self.pending();

        // Push data into internal storage
        if self.index >= MODBUS_RTU_FRAME_DATA_LENGTH {
            self.reset();
            return ModbusRtuFrameDecoderResult::NotEnoughData;
        }
        self.data[self.index] = data;

        // Increment index
        self.index += 1;

        let ghost p = old_pending.push(data);
        proof {
            assert(self.pending() =~= p);
        }

        match self.state {
            ModbusRtuFrameDecoderState::WaitForSlaveAddress => {
                // Next state
                self.state = ModbusRtuFrameDecoderState::WaitForFunctionCode;
            },
            ModbusRtuFrameDecoderState::WaitForFunctionCode => {
                match frame_layout(self.decoder_direction, data) {
                    RtuFrameLayout::CrcOnly => {
                        self.state = ModbusRtuFrameDecoderState::CollectCrcData { index: 0 };
                    },
                    RtuFrameLayout::Fixed(length) => {
                        self.state = ModbusRtuFrameDecoderState::CollectPduData {
                            index: 0,
                            length,
                        };
                    },
                    RtuFrameLayout::Counted(bytes_before_byte_count) => {
                        self.state = ModbusRtuFrameDecoderState::ReadByteCount {
                            bytes_before_byte_count,
                        };
                    },
                    RtuFrameLayout::Invalid => {
                        // Reset state
                        self.reset();

                        // Return
                        return ModbusRtuFrameDecoderResult::InvalidFunctionCode;
                    },
                    RtuFrameLayout::Dropped => {
                        // Reset
                        self.index = 0;
                        self.state = ModbusRtuFrameDecoderState::WaitForSlaveAddress;
                        proof {
                            assert(self.pending() =~= Seq::<u8>::empty());
                        }
                    },
                    RtuFrameLayout::Unsupported => {
                        proof {
                            assert(false);
                        }
                    },
                }
            },
            ModbusRtuFrameDecoderState::ReadByteCount { bytes_before_byte_count } => {
                // Check if this byte is the byte count
                if bytes_before_byte_count == 0 {
                    // Next state
                    self.state = ModbusRtuFrameDecoderState::CollectPduData {
                        index: 0,
                        length: data as usize,
                    };
                } else {
                    // Decrement bytes before byte count
                    self.state = ModbusRtuFrameDecoderState::ReadByteCount {
                        bytes_before_byte_count: bytes_before_byte_count - 1,
                    };
                }
            },
            ModbusRtuFrameDecoderState::CollectPduData { index, length } => {
                let index = index + 1;
                if index >= length {
                    self.state = ModbusRtuFrameDecoderState::CollectCrcData { index: 0 };
                } else {
                    self.state = ModbusRtuFrameDecoderState::CollectPduData { index, length };
                }
            },
            ModbusRtuFrameDecoderState::CollectCrcData { index } => {
                let index = index + 1;
                proof {
                    lemma_crc_state(table, old_pending, data);
                }
                if index >= 2 {
                    // Check CRC
                    let end = self.index - 2;
                    proof {
                        assert(self.data@.subrange(0, end as int) =~= p.take(p.len() - 2));
                    }
                    let crc_ok = check_rtu_crc(
                        &self.data[0..end],
                        self.data[self.index - 2],
                        self.data[self.index - 1],
                    );
                    if crc_ok {
                        let frame = ModbusRtuFrame::new_unchecked(&mut *self.data, self.index);

                        // Reset state
                        self.state = ModbusRtuFrameDecoderState::WaitForSlaveAddress;
                        self.index = 0;

                        // Success
                        return ModbusRtuFrameDecoderResult::Success(frame);
                    } else {
                        // Reset state
                        self.reset();

                        // CrcError
                        return ModbusRtuFrameDecoderResult::CrcError;
                    }
                }
                self.state = ModbusRtuFrameDecoderState::CollectCrcData { index };
            },
        }
        ModbusRtuFrameDecoderResult::Pending
    }
}

} // verus!
