use vstd::prelude::*;
use crate::{FunctionCode, FunctionKind};
use crate::codes::function_kind_from_byte;
use crate::constants::MODBUS_RTU_FRAME_DATA_LENGTH;
use crate::rtu::crc::crc_matches;

verus! {

/// The kind of traffic a Modbus/RTU decoder expects.
#[derive(Debug, PartialEq, Eq, Clone, Copy, Default, Structural)]
pub enum ModbusRtuFrameDecoderDirection {
    #[default]
    Request,
    Response,
}

/// Which table of frame layouts a decoder follows.
pub enum RtuLayoutTable {
    /// The layouts of [ModbusRtuFrameDecoderDirection::Request] frames.
    Request,
    /// The layouts of [ModbusRtuFrameDecoderDirection::Response] frames.
    Response,
    /// The reduced request table of the request-only decoder.
    BasicRequest,
}

/// The layout table that a decoder expecting `direction` follows.
pub open spec fn direction_table(direction: ModbusRtuFrameDecoderDirection) -> RtuLayoutTable {
    match direction {
        ModbusRtuFrameDecoderDirection::Request => RtuLayoutTable::Request,
        ModbusRtuFrameDecoderDirection::Response => RtuLayoutTable::Response,
    }
}

/// How the bytes after the function code of a Modbus/RTU frame are laid out.
pub enum RtuFrameLayout {
    /// The checksum follows the function code directly.
    CrcOnly,
    /// A fixed number of data bytes (a count of zero still takes one byte),
    /// then the checksum.
    Fixed(usize),
    /// The given number of data bytes, a byte count, that many data bytes
    /// (a count of zero still takes one byte), then the checksum.
    Counted(usize),
    /// The function kind is refused.
    Invalid,
    /// The function code is unknown: the frame is dropped silently.
    Dropped,
    /// The decoder does not handle the function code.
    Unsupported,
}

/// The layout of a request with the given normal function code.
pub open spec fn request_layout(code: FunctionCode) -> RtuFrameLayout {
    match code {
        FunctionCode::ReadCoils => RtuFrameLayout::Fixed(4),
        FunctionCode::ReadDiscreteInputs => RtuFrameLayout::Fixed(4),
        FunctionCode::ReadHoldingRegisters => RtuFrameLayout::Fixed(4),
        FunctionCode::ReadInputRegisters => RtuFrameLayout::Fixed(4),
        FunctionCode::WriteSingleCoil => RtuFrameLayout::Fixed(4),
        FunctionCode::WriteSingleRegister => RtuFrameLayout::Fixed(4),
        FunctionCode::ReadExceptionStatus => RtuFrameLayout::CrcOnly,
        FunctionCode::Diagnostic => RtuFrameLayout::Unsupported,
        FunctionCode::GetComEventCounter => RtuFrameLayout::CrcOnly,
        FunctionCode::GetComEventLog => RtuFrameLayout::CrcOnly,
        FunctionCode::WriteMultipleCoils => RtuFrameLayout::Counted(4),
        FunctionCode::WriteMultipleRegisters => RtuFrameLayout::Counted(4),
        FunctionCode::ReportServerId => RtuFrameLayout::CrcOnly,
        FunctionCode::ReadFileRecord => RtuFrameLayout::Counted(0),
        FunctionCode::WriteFileRecord => RtuFrameLayout::Unsupported,
        FunctionCode::MaskWriteRegister => RtuFrameLayout::Fixed(6),
        FunctionCode::ReadWriteMultipleRegisters => RtuFrameLayout::Counted(8),
        FunctionCode::ReadFifoQueue => RtuFrameLayout::Fixed(2),
        FunctionCode::Unknown(_) => RtuFrameLayout::Dropped,
    }
}

/// The layout of a response with the given normal function code.
pub open spec fn response_layout(code: FunctionCode) -> RtuFrameLayout {
    match code {
        FunctionCode::ReadCoils => RtuFrameLayout::Counted(0),
        FunctionCode::ReadDiscreteInputs => RtuFrameLayout::Counted(0),
        FunctionCode::ReadHoldingRegisters => RtuFrameLayout::Counted(0),
        FunctionCode::ReadInputRegisters => RtuFrameLayout::Counted(0),
        FunctionCode::WriteSingleCoil => RtuFrameLayout::Fixed(4),
        FunctionCode::WriteSingleRegister => RtuFrameLayout::Fixed(4),
        FunctionCode::ReadExceptionStatus => RtuFrameLayout::Fixed(1),
        FunctionCode::Diagnostic => RtuFrameLayout::Unsupported,
        FunctionCode::GetComEventCounter => RtuFrameLayout::Fixed(4),
        FunctionCode::GetComEventLog => RtuFrameLayout::Counted(0),
        FunctionCode::WriteMultipleCoils => RtuFrameLayout::Fixed(4),
        FunctionCode::WriteMultipleRegisters => RtuFrameLayout::Fixed(4),
        FunctionCode::ReportServerId => RtuFrameLayout::Unsupported,
        FunctionCode::ReadFileRecord => RtuFrameLayout::Unsupported,
        FunctionCode::WriteFileRecord => RtuFrameLayout::Unsupported,
        FunctionCode::MaskWriteRegister => RtuFrameLayout::Fixed(6),
        FunctionCode::ReadWriteMultipleRegisters => RtuFrameLayout::Counted(0),
        FunctionCode::ReadFifoQueue => RtuFrameLayout::Unsupported,
        FunctionCode::Unknown(_) => RtuFrameLayout::Dropped,
    }
}

/// The number of data bytes of a request in the request-only decoder.
pub open spec fn basic_request_pdu_length(code: FunctionCode) -> usize {
    match code {
        FunctionCode::ReadHoldingRegisters => 4,
        FunctionCode::ReadCoils => 4,
        _ => 0,
    }
}

/// The layout that a table gives the frame whose function code byte is `fc`.
pub open spec fn rtu_layout(table: RtuLayoutTable, fc: u8) -> RtuFrameLayout {
    match function_kind_from_byte(fc) {
        FunctionKind::Normal(code) => match table {
            RtuLayoutTable::Request => request_layout(code),
            RtuLayoutTable::Response => response_layout(code),
            RtuLayoutTable::BasicRequest => RtuFrameLayout::Fixed(basic_request_pdu_length(code)),
        },
        FunctionKind::Exception(_) => match table {
            RtuLayoutTable::Response => RtuFrameLayout::Fixed(1),
            _ => RtuFrameLayout::Invalid,
        },
    }
}

/// Whether a layout describes frames that are collected.
pub open spec fn is_frame_layout(layout: RtuFrameLayout) -> bool {
    layout is CrcOnly || layout is Fixed || layout is Counted
}

/// `n`, or one where `n` is zero: a data block is never empty.
pub open spec fn at_least_one(n: int) -> int {
    if n < 1 {
        1
    } else {
        n
    }
}

/// The length of the frame that starts with `p`, once `p` determines it:
/// slave address, function code, the data bytes of its layout, two CRC bytes.
pub open spec fn rtu_frame_length(table: RtuLayoutTable, p: Seq<u8>) -> Option<int> {
    if p.len() < 2 {
        None
    } else {
        match rtu_layout(table, p[1]) {
            RtuFrameLayout::CrcOnly => Some(4),
            RtuFrameLayout::Fixed(n) => Some(2 + at_least_one(n as int) + 2),
            RtuFrameLayout::Counted(k) => if p.len() > 2 + k {
                Some(2 + k + 1 + at_least_one(p[2 + k] as int) + 2)
            } else {
                None
            },
            _ => None,
        }
    }
}

/// What a decoder reports after taking in one byte.
#[derive(Debug, PartialEq, Eq, Clone, Copy, Structural)]
pub enum RtuOutcome {
    Pending,
    Success,
    CrcError,
    NotSupported,
    InvalidFunctionCode,
    NotEnoughData,
}

/// One byte taken in by a Modbus/RTU decoder that has collected `pending`:
/// the bytes it holds afterwards and what it reports.
///
/// A full buffer refuses the byte; a refused function kind or an unknown
/// function code drops the frame; once the bytes make up a whole frame, its
/// checksum decides between success and a CRC error, and the decoder starts
/// over.
pub open spec fn rtu_step(table: RtuLayoutTable, pending: Seq<u8>, byte: u8) -> (
    Seq<u8>,
    RtuOutcome,
) {
    let p = pending.push(byte);
    if pending.len() >= MODBUS_RTU_FRAME_DATA_LENGTH {
        (Seq::empty(), RtuOutcome::NotEnoughData)
    } else if p.len() == 2 && rtu_layout(table, byte) is Invalid {
        (Seq::empty(), RtuOutcome::InvalidFunctionCode)
    } else if p.len() == 2 && rtu_layout(table, byte) is Dropped {
        (Seq::empty(), RtuOutcome::Pending)
    } else if rtu_frame_length(table, p) == Some(p.len() as int) {
        if crc_matches(p.take(p.len() - 2), p[p.len() - 2], p[p.len() - 1]) {
            (Seq::empty(), RtuOutcome::Success)
        } else {
            (Seq::empty(), RtuOutcome::CrcError)
        }
    } else {
        (p, RtuOutcome::Pending)
    }
}

/// Whether taking in `byte` after `pending` reaches a function code that the
/// decoder does not handle (the decoder panics there).
pub open spec fn rtu_step_unsupported(table: RtuLayoutTable, pending: Seq<u8>, byte: u8) -> bool {
    pending.len() == 1 && rtu_layout(table, byte) is Unsupported
}

/// The bytes held and the reports after a decoder holding `start` takes in
/// `bytes` one after another.
pub open spec fn rtu_feed(table: RtuLayoutTable, start: Seq<u8>, bytes: Seq<u8>) -> (
    Seq<u8>,
    Seq<RtuOutcome>,
)
    decreases bytes.len(),
{
    if bytes.len() == 0 {
        (start, Seq::empty())
    } else {
        let (held, outcomes) = rtu_feed(table, start, bytes.drop_last());
        let (next, outcome) = rtu_step(table, held, bytes.last());
        (next, outcomes.push(outcome))
    }
}

/// Whether `frame` is one whole Modbus/RTU frame of a collected layout that
/// fits the buffer.
pub open spec fn is_rtu_frame(table: RtuLayoutTable, frame: Seq<u8>) -> bool {
    &&& 2 <= frame.len() <= MODBUS_RTU_FRAME_DATA_LENGTH
    &&& is_frame_layout(rtu_layout(table, frame[1]))
    &&& rtu_frame_length(table, frame) == Some(frame.len() as int)
}

/// Whether the checksum at the end of `frame` is the one of the bytes before it.
pub open spec fn rtu_frame_crc_ok(frame: Seq<u8>) -> bool {
    crc_matches(frame.take(frame.len() - 2), frame[frame.len() - 2], frame[frame.len() - 1])
}

/// Once a prefix of a frame determines the frame length, it is the length of
/// the whole frame.
proof fn lemma_frame_length_of_prefix(table: RtuLayoutTable, frame: Seq<u8>, j: int)
    requires
        is_rtu_frame(table, frame),
        2 <= j <= frame.len(),
    ensures
        rtu_frame_length(table, frame.take(j)) is None || rtu_frame_length(table, frame.take(j))
            == Some(frame.len() as int),
{
    let q = frame.take(j);
    assert(q[1] == frame[1]);
    if let RtuFrameLayout::Counted(k) = rtu_layout(table, frame[1]) {
        if q.len() > 2 + k {
            assert(q[2 + k] == frame[2 + k]);
        }
    }
}

/// Feeding a proper prefix of a frame to an idle decoder leaves the prefix
/// collected with every byte reported pending.
proof fn lemma_feed_frame_prefix(table: RtuLayoutTable, frame: Seq<u8>, j: int)
    requires
        is_rtu_frame(table, frame),
        0 <= j < frame.len(),
    ensures
        rtu_feed(table, Seq::empty(), frame.take(j)).0 == frame.take(j),
        rtu_feed(table, Seq::empty(), frame.take(j)).1 == Seq::new(
            j as nat,
            |i: int| RtuOutcome::Pending,
        ),
    decreases j,
{
    if j == 0 {
        assert(frame.take(0) =~= Seq::<u8>::empty());
        assert(Seq::new(0, |i: int| RtuOutcome::Pending) =~= Seq::<RtuOutcome>::empty());
    } else {
        lemma_feed_frame_prefix(table, frame, j - 1);
        let prev = frame.take(j - 1);
        let p = prev.push(frame[j - 1]);
        assert(frame.take(j).drop_last() =~= prev);
        assert(p =~= frame.take(j));
        if j >= 2 {
            lemma_frame_length_of_prefix(table, frame, j);
        }
        assert(p.len() == 2 ==> p[1] == frame[1]);
        assert(Seq::new(j as nat, |i: int| RtuOutcome::Pending) =~= Seq::new(
            (j - 1) as nat,
            |i: int| RtuOutcome::Pending,
        ).push(RtuOutcome::Pending));
    }
}

/// A decoder that is fed one whole frame byte by byte from its idle state
/// holds the bytes so far before each byte and never meets a function code
/// it does not handle; it reports pending for every byte but the last; for
/// the last byte it reports success when the frame's checksum is right and a
/// CRC error otherwise, and it is idle again afterwards.
pub proof fn lemma_rtu_decodes_whole_frame(table: RtuLayoutTable, frame: Seq<u8>)
    requires
        is_rtu_frame(table, frame),
    ensures
        forall|j: int|
            0 <= j < frame.len() ==> #[trigger] rtu_feed(table, Seq::empty(), frame.take(j)).0
                == frame.take(j),
        forall|j: int|
            0 <= j < frame.len() ==> !rtu_step_unsupported(table, #[trigger] frame.take(j), frame[j]),
        rtu_feed(table, Seq::empty(), frame).0 == Seq::<u8>::empty(),
        rtu_feed(table, Seq::empty(), frame).1.len() == frame.len(),
        forall|i: int|
            0 <= i < frame.len() - 1 ==> #[trigger] rtu_feed(table, Seq::empty(), frame).1[i]
                == RtuOutcome::Pending,
        rtu_feed(table, Seq::empty(), frame).1[frame.len() - 1] == if rtu_frame_crc_ok(frame) {
            RtuOutcome::Success
        } else {
            RtuOutcome::CrcError
        },
{
    let n = frame.len() as int;
    assert forall|j: int| 0 <= j < frame.len() implies #[trigger] rtu_feed(
        table,
        Seq::empty(),
        frame.take(j),
    ).0 == frame.take(j) by {
        lemma_feed_frame_prefix(table, frame, j);
    }
    lemma_feed_frame_prefix(table, frame, n - 1);
    assert(frame.take(n) =~= frame);
    assert(frame.drop_last() =~= frame.take(n - 1));
    assert(frame.take(n - 1).push(frame.last()) =~= frame);
}

/// A decoder that holds nothing, as a new one does and as one does right
/// after a reset, takes its next byte as the slave address of a new frame:
/// it holds that byte alone and reports pending.
pub proof fn lemma_rtu_idle_takes_slave_address(table: RtuLayoutTable, byte: u8)
    ensures
        rtu_step(table, Seq::empty(), byte) == (seq![byte], RtuOutcome::Pending),
{
    assert(Seq::<u8>::empty().push(byte) =~= seq![byte]);
}

/// A function code byte without the high bit decodes to the normal kind of
/// the code it names.
proof fn lemma_normal_function_byte(b: u8)
    requires
        b < 0x80,
    ensures
        function_kind_from_byte(b) == FunctionKind::Normal(crate::codes::function_code_from_byte(b)),
        b & 0x7F == b,
{
    assert(b < 0x80 ==> b & 0x80 == 0) by (bit_vector);
    assert(b < 0x80 ==> b & 0x7F == b) by (bit_vector);
}

/// `n`, but at least one.
pub open spec fn one_or_more(n: u8) -> int {
    if n == 0 {
        1
    } else {
        n as int
    }
}

/// How long a Modbus/RTU request frame is, read off its function code byte
/// (the second byte) and, for the codes with a byte count, that count:
/// - read coils, discrete inputs, holding registers and input registers,
///   write single coil and write single register (0x01 to 0x06): 8 bytes
///   (address and quantity, or address and value);
/// - read exception status, get comm event counter and log, report server
///   id (0x07, 0x0B, 0x0C, 0x11): 4 bytes, nothing between code and CRC;
/// - mask write register (0x16): 10 bytes; read FIFO queue (0x18): 6 bytes;
/// - write multiple coils and registers (0x0F, 0x10): 9 bytes and the byte
///   count at offset 6; read file record (0x14): 5 bytes and the byte count
///   at offset 2; read/write multiple registers (0x17): 13 bytes and the
///   byte count at offset 10 (a count of zero still takes one byte);
/// - an exception function code (high bit set) is refused.
pub proof fn lemma_request_frame_lengths(p: Seq<u8>)
    requires
        p.len() >= 2,
    ensures
        ({
            let fc = p[1];
            let len = rtu_frame_length(RtuLayoutTable::Request, p);
            &&& 1 <= fc <= 6 ==> len == Some(8int)
            &&& (fc == 7 || fc == 11 || fc == 12 || fc == 17) ==> len == Some(4int)
            &&& fc == 22 ==> len == Some(10int)
            &&& fc == 24 ==> len == Some(6int)
            &&& (fc == 15 || fc == 16) && p.len() > 6 ==> len == Some(9 + one_or_more(p[6]))
            &&& fc == 20 && p.len() > 2 ==> len == Some(5 + one_or_more(p[2]))
            &&& fc == 23 && p.len() > 10 ==> len == Some(13 + one_or_more(p[10]))
            &&& fc >= 0x80 ==> rtu_layout(RtuLayoutTable::Request, fc) is Invalid
        }),
{
    let fc = p[1];
    if fc < 0x80 {
        lemma_normal_function_byte(fc);
    } else {
        assert(fc >= 0x80 ==> fc & 0x80 != 0) by (bit_vector);
    }
}

/// How long a Modbus/RTU response frame is, read off its function code byte
/// (the second byte) and, for the codes with a byte count, that count:
/// - read coils, discrete inputs, holding registers and input registers,
///   get comm event log, read/write multiple registers (0x01 to 0x04,
///   0x0C, 0x17): 5 bytes and the byte count at offset 2 (a count of zero
///   still takes one byte);
/// - write single coil and register, get comm event counter, write
///   multiple coils and registers (0x05, 0x06, 0x0B, 0x0F, 0x10): 8 bytes;
/// - read exception status (0x07): 5 bytes; mask write register (0x16):
///   10 bytes;
/// - an exception response (high bit set): 5 bytes, the exception code
///   between function code and CRC.
pub proof fn lemma_response_frame_lengths(p: Seq<u8>)
    requires
        p.len() >= 2,
    ensures
        ({
            let fc = p[1];
            let len = rtu_frame_length(RtuLayoutTable::Response, p);
            &&& (1 <= fc <= 4 || fc == 12 || fc == 23) && p.len() > 2 ==> len == Some(
                5 + one_or_more(p[2]),
            )
            &&& (fc == 5 || fc == 6 || fc == 11 || fc == 15 || fc == 16) ==> len == Some(8int)
            &&& fc == 7 ==> len == Some(5int)
            &&& fc == 22 ==> len == Some(10int)
            &&& fc >= 0x80 ==> len == Some(5int)
        }),
{
    let fc = p[1];
    if fc < 0x80 {
        lemma_normal_function_byte(fc);
    } else {
        assert(fc >= 0x80 ==> fc & 0x80 != 0) by (bit_vector);
    }
}

/// The request-only decoder takes read coils and read holding registers
/// requests (0x01, 0x03) as 8-byte frames, and refuses an exception
/// function code.
pub proof fn lemma_basic_request_frame_lengths(p: Seq<u8>)
    requires
        p.len() >= 2,
    ensures
        (p[1] == 1 || p[1] == 3) ==> rtu_frame_length(RtuLayoutTable::BasicRequest, p) == Some(
            8int,
        ),
        p[1] >= 0x80 ==> rtu_layout(RtuLayoutTable::BasicRequest, p[1]) is Invalid,
{
    let fc = p[1];
    if fc < 0x80 {
        lemma_normal_function_byte(fc);
    } else {
        assert(fc >= 0x80 ==> fc & 0x80 != 0) by (bit_vector);
    }
}

/// An 8-byte request whose function code is one of 0x01 to 0x06 (read coils,
/// discrete inputs, holding or input registers, write single coil or
/// register) is one whole frame: a request decoder fed it from its idle
/// state reports pending for the first seven bytes, and at the eighth
/// success when the checksum is right (a CRC error otherwise).
pub proof fn lemma_eight_byte_requests_decode(frame: Seq<u8>)
    requires
        frame.len() == 8,
        1 <= frame[1] <= 6,
    ensures
        is_rtu_frame(RtuLayoutTable::Request, frame),
        forall|i: int|
            0 <= i < 7 ==> #[trigger] rtu_feed(RtuLayoutTable::Request, Seq::empty(), frame).1[i]
                == RtuOutcome::Pending,
        rtu_feed(RtuLayoutTable::Request, Seq::empty(), frame).1[7] == if rtu_frame_crc_ok(frame) {
            RtuOutcome::Success
        } else {
            RtuOutcome::CrcError
        },
{
    lemma_request_frame_lengths(frame);
    lemma_normal_function_byte(frame[1]);
    lemma_rtu_decodes_whole_frame(RtuLayoutTable::Request, frame);
}

/// A frame's checksum is right exactly when its last two bytes, the low
/// byte first, make the CRC-16/Modbus checksum of the bytes before them.
pub proof fn lemma_rtu_frame_crc_ok(frame: Seq<u8>)
    requires
        frame.len() >= 2,
    ensures
        rtu_frame_crc_ok(frame) <==> frame[frame.len() - 2] + 256 * frame[frame.len() - 1]
            == crate::rtu::crc::crc16(frame.take(frame.len() - 2)),
{
    let c = crate::rtu::crc::crc16(frame.take(frame.len() - 2));
    crate::wire::lemma_big_endian_arithmetic(0, 0, c, Seq::empty(), 0);
}

} // verus!
