use vstd::prelude::*;
use crate::{FunctionCode, FunctionKind};
use crate::constants::MODBUS_RTU_FRAME_DATA_LENGTH;
use crate::rtu::crc::check_rtu_crc;
use crate::rtu::frame::ModbusRtuFrame;
use crate::rtu::layout::{
    RtuLayoutTable, RtuFrameLayout, RtuOutcome, basic_request_pdu_length, rtu_layout,
    at_least_one, rtu_frame_length, rtu_step, rtu_feed, lemma_rtu_idle_takes_slave_address,
};
use crate::rtu::decoder::{written_buffer, rtu_feed_buffer};

verus! {

/// The number of data bytes of a request frame with the given function
/// code, as far as this decoder knows them.
fn compute_pdu_data_length_for_request_frame(function_code: FunctionCode) -> (r: usize)
    ensures
        r == basic_request_pdu_length(function_code),
{
    match function_code {
        FunctionCode::ReadHoldingRegisters => 4,
        FunctionCode::ReadCoils => 4,
        _ => 0,
    }
}

/// Where in a request the decoder stands.
#[derive(Debug, PartialEq, Eq, Clone, Copy, Structural)]
enum ModbusRtuFrameRequestDecoderState {
    WaitForSlaveAddress,
    WaitForFunctionCode,
    CollectPduData { index: usize, length: usize },
    CollectCrcData { index: usize },
}

/// The state of the decoder once it has collected `p`.
spec fn expected_request_state(p: Seq<u8>) -> ModbusRtuFrameRequestDecoderState {
    if p.len() == 0 {
        ModbusRtuFrameRequestDecoderState::WaitForSlaveAddress
    } else if p.len() == 1 {
        ModbusRtuFrameRequestDecoderState::WaitForFunctionCode
    } else {
        let i = p.len() - 2;
        match rtu_layout(RtuLayoutTable::BasicRequest, p[1]) {
            RtuFrameLayout::Fixed(n) => if i < at_least_one(n as int) {
                ModbusRtuFrameRequestDecoderState::CollectPduData { index: i as usize, length: n }
            } else {
                ModbusRtuFrameRequestDecoderState::CollectCrcData {
                    index: (i - at_least_one(n as int)) as usize,
                }
            },
            _ => ModbusRtuFrameRequestDecoderState::WaitForSlaveAddress,
        }
    }
}

/// What the request decoder reports after one byte.
#[derive(Debug, PartialEq)]
pub enum ModbusRtuFrameRequestDecoderResult<'a> {
    Success(ModbusRtuFrame<'a>),
    Pending,
    CrcError,
    NotSupported,
    InvalidFunctionCode,
    NotEnoughData,
}

/// The report kind of a request decoder result.
pub open spec fn request_outcome_of(r: ModbusRtuFrameRequestDecoderResult<'_>) -> RtuOutcome {
    match r {
        ModbusRtuFrameRequestDecoderResult::Success(_) => RtuOutcome::Success,
        ModbusRtuFrameRequestDecoderResult::Pending => RtuOutcome::Pending,
        ModbusRtuFrameRequestDecoderResult::CrcError => RtuOutcome::CrcError,
        ModbusRtuFrameRequestDecoderResult::NotSupported => RtuOutcome::NotSupported,
        ModbusRtuFrameRequestDecoderResult::InvalidFunctionCode => RtuOutcome::InvalidFunctionCode,
        ModbusRtuFrameRequestDecoderResult::NotEnoughData => RtuOutcome::NotEnoughData,
    }
}

/// A byte-by-byte decoder of Modbus/RTU requests: read coils and read
/// holding registers requests carry four data bytes, any other normal
/// request one.
pub struct ModbusRtuFrameRequestDecoder<'a> {
    data: &'a mut [u8; MODBUS_RTU_FRAME_DATA_LENGTH],
    state: ModbusRtuFrameRequestDecoderState,
    index: usize,
}

impl<'a> ModbusRtuFrameRequestDecoder<'a> {
    /// The bytes of the request collected so far.
    pub closed spec fn pending(&self) -> Seq<u8> {
        self.data@.take(self.index as int)
    }

    /// The whole buffer the decoder collects into.
    pub closed spec fn buffer(&self) -> Seq<u8> {
        self.data@
    }

    /// The reference to the caller's buffer, whose final value the caller's
    /// buffer ends as.
    pub closed spec fn buffer_ref(&self) -> &'a mut [u8; MODBUS_RTU_FRAME_DATA_LENGTH] {
        self.data
    }

    /// Once the decoder is changed no more, the buffer it holds is what the
    /// borrowed buffer ends as.
    pub proof fn lemma_resolved(&self)
        requires
            has_resolved(*self),
        ensures
            final(self.buffer_ref())@ == self.buffer(),
    {
    }

    /// The decoder's state agrees with the bytes it has collected.
    pub closed spec fn wf(&self) -> bool {
        let p = self.pending();
        &&& self.index <= MODBUS_RTU_FRAME_DATA_LENGTH
        &&& p.len() >= 2 ==> rtu_layout(RtuLayoutTable::BasicRequest, p[1]) is Fixed && p.len()
            < rtu_frame_length(RtuLayoutTable::BasicRequest, p)->0
        &&& self.state == expected_request_state(p)
    }

    pub fn new(data: &'a mut [u8; MODBUS_RTU_FRAME_DATA_LENGTH]) -> (r: ModbusRtuFrameRequestDecoder<'a>)
        ensures
            r.wf(),
            r.pending() == Seq::<u8>::empty(),
            r.buffer() == old(data)@,
            *final(data) == *final(r.buffer_ref()),
    {
        let decoder = ModbusRtuFrameRequestDecoder {
            data,
            state: ModbusRtuFrameRequestDecoderState::WaitForSlaveAddress,
            index: 0,
        };
        proof {
            assert(decoder.pending() =~= Seq::<u8>::empty());
        }
        decoder
    }

    pub fn reset(&mut self)
        ensures
            final(self).wf(),
            final(self).pending() == Seq::<u8>::empty(),
            final(self).buffer() == old(self).buffer(),
            *final(final(self).buffer_ref()) == *final(old(self).buffer_ref()),
    {
        self.state = ModbusRtuFrameRequestDecoderState::WaitForSlaveAddress;
        self.index = 0;
        proof {
            assert(self.pending() =~= Seq::<u8>::empty());
        }
    }

    /// Takes in one byte of a request. Once the bytes make up a whole
    /// request, it is handed out when its checksum is right.
    pub fn push_data(&mut self, data: u8) -> (r: ModbusRtuFrameRequestDecoderResult<'_>)
        requires
            old(self).wf(),
        ensures
            final(self).wf(),
            final(self).pending() == rtu_step(
                RtuLayoutTable::BasicRequest,
                old(self).pending(),
                data,
            ).0,
            request_outcome_of(r) == rtu_step(
                RtuLayoutTable::BasicRequest,
                old(self).pending(),
                data,
            ).1,
            r matches ModbusRtuFrameRequestDecoderResult::Success(frame) ==> frame.frame_bytes()
                == old(self).pending().push(data) && frame.frame_length() == old(
                self,
            ).pending().len() + 1 && frame.buffer() == written_buffer(
                old(self).buffer(),
                old(self).pending().len(),
                data,
            ) && final(self).buffer() == final(frame.buffer_ref())@,
            !(r is Success) ==> final(self).buffer() == written_buffer(
                old(self).buffer(),
                old(self).pending().len(),
                data,
            ),
            *final(final(self).buffer_ref()) == *final(old(self).buffer_ref()),
    {
        let ghost old_pending = self.pending();
        proof {
            if old_pending.len() >= 2 {
                assert(self.index < 8);
            }
        }

        // Push data into internal storage
        self.data[self.index] = data;

        // Increment index
        self.index += 1;

        let ghost p = old_pending.push(data);
        proof {
            assert(self.pending() =~= p);
            assert(p.len() >= 2 ==> p[1] == (if old_pending.len() >= 2 {
                old_pending[1]
            } else {
                data
            }));
        }

        match self.state {
            ModbusRtuFrameRequestDecoderState::WaitForSlaveAddress => {
                // Next state
                self.state = ModbusRtuFrameRequestDecoderState::WaitForFunctionCode;
            },
            ModbusRtuFrameRequestDecoderState::WaitForFunctionCode => {
                // Function Code
                let function_kind = FunctionKind::from(data);

                // Check function kind
                match function_kind {
                    FunctionKind::Normal(function_code) => {
                        // Next State
                        self.state = ModbusRtuFrameRequestDecoderState::CollectPduData {
                            index: 0,
                            length: compute_pdu_data_length_for_request_frame(function_code),
                        };
                    },
                    FunctionKind::Exception(_) => {
                        // Reset state and index
                        self.reset();

                        // Return
                        return ModbusRtuFrameRequestDecoderResult::InvalidFunctionCode;
                    },
                }
            },
            ModbusRtuFrameRequestDecoderState::CollectPduData { index, length } => {
                let index = index + 1;
                if index >= length {
                    self.state = ModbusRtuFrameRequestDecoderState::CollectCrcData { index: 0 };
                } else {
                    self.state = ModbusRtuFrameRequestDecoderState::CollectPduData {
                        index,
                        length,
                    };
                }
            },
            ModbusRtuFrameRequestDecoderState::CollectCrcData { index } => {
                let index = index + 1;
                if index >= 2 {
                    // Check CRC
                    let end = self.index - 2;
                    proof {
                        assert(self.data@.subrange(0, end as int) =~= p.take(p.len() - 2));
                    }
                    let crc_ok = check_rtu_crc(
                        &self.data[0..end],
                        self.data[self.index - 2],
                        self.data[self.index - 1],
                    );
                    if crc_ok {
                        let frame = ModbusRtuFrame::new_unchecked(&mut *self.data, self.index);

                        // Reset state
                        self.state = ModbusRtuFrameRequestDecoderState::WaitForSlaveAddress;
                        self.index = 0;

                        // Success
                        return ModbusRtuFrameRequestDecoderResult::Success(frame);
                    } else {
                        // Reset state
                        self.reset();

                        // CrcError
                        return ModbusRtuFrameRequestDecoderResult::CrcError;
                    }
                }
                self.state = ModbusRtuFrameRequestDecoderState::CollectCrcData { index };
            },
        }
        ModbusRtuFrameRequestDecoderResult::Pending
    }
}

/// A decoder that was reset answers every run of bytes as a new decoder over
/// a buffer with the same contents does. Reset and `new` both leave nothing
/// collected, and `push_data` answers, collects and stores from nothing but
/// what was collected and the buffer: so the answers, the bytes collected
/// after the run and the buffer's contents are the same for both, and the
/// first byte is stored at the start of the buffer as the slave address.
pub proof fn lemma_reset_runs_as_new(
    reset: &ModbusRtuFrameRequestDecoder<'_>,
    fresh: &ModbusRtuFrameRequestDecoder<'_>,
    bytes: Seq<u8>,
)
    requires
        reset.pending() == Seq::<u8>::empty(),
        fresh.pending() == Seq::<u8>::empty(),
        reset.buffer() == fresh.buffer(),
    ensures
        rtu_feed(RtuLayoutTable::BasicRequest, reset.pending(), bytes) == rtu_feed(
            RtuLayoutTable::BasicRequest,
            fresh.pending(),
            bytes,
        ),
        rtu_feed_buffer(RtuLayoutTable::BasicRequest, reset.pending(), reset.buffer(), bytes)
            == rtu_feed_buffer(RtuLayoutTable::BasicRequest, fresh.pending(), fresh.buffer(), bytes),
        bytes.len() > 0 ==> rtu_feed_buffer(
            RtuLayoutTable::BasicRequest,
            reset.pending(),
            reset.buffer(),
            bytes.take(1),
        ) == reset.buffer().update(0, bytes[0]),
        bytes.len() > 0 ==> rtu_feed(RtuLayoutTable::BasicRequest, reset.pending(), bytes.take(1))
            == (seq![bytes[0]], seq![RtuOutcome::Pending]),
{
    if bytes.len() > 0 {
        let table = RtuLayoutTable::BasicRequest;
        let none = Seq::<u8>::empty();
        let first = bytes.take(1);
        assert(first.drop_last() =~= none);
        assert(first.last() == bytes[0]);
        assert(rtu_feed(table, none, none) == (none, Seq::<RtuOutcome>::empty()));
        assert(rtu_feed_buffer(table, none, reset.buffer(), none) == reset.buffer());
        lemma_rtu_idle_takes_slave_address(table, bytes[0]);
        assert(Seq::<RtuOutcome>::empty().push(RtuOutcome::Pending) =~= seq![RtuOutcome::Pending]);
    }
}

} // verus!
