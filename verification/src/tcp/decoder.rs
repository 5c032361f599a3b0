use vstd::prelude::*;
use crate::tcp::frame::{
    Frame, MbapHeader, FRAME_SIZE, MBAP_HEADER_SIZE, mbap_protocol_id, mbap_length,
    mbap_transaction_id, mbap_unit_id,
};

verus! {

// ── DecodeError ──

#[derive(Debug, PartialEq, Eq, Clone, Copy, Structural)]
pub enum DecodeError {
    InvalidProtocolIdentifier,
    InvalidLength,
}

// ── DecodeResult ──

#[derive(Debug, PartialEq, Eq, Clone, Copy, Structural)]
pub enum DecodeResult {
    Done,
    Pending,
    Error(DecodeError),
}

/// Where in a Modbus/TCP frame the decoder stands.
#[derive(Debug, PartialEq, Eq, Clone, Copy, Structural)]
pub enum DecoderState {
    /// `index` header bytes have been received.
    DecodeFrameHeader { index: usize },
    /// The header announced `expected` bytes after the unit identifier, of
    /// which `index` have been received.
    DecodeFramePayload { expected: usize, index: usize },
    /// The header was refused; the decoder stays here until it is reset.
    DecoderError { reason: DecodeError },
}

/// The state a decoder moves to once the seven header bytes are in: the
/// protocol identifier must be zero and the length field between one and
/// the size of the buffer after the header.
pub open spec fn header_state(header: Seq<u8>) -> DecoderState {
    if mbap_protocol_id(header) != 0 {
        DecoderState::DecoderError { reason: DecodeError::InvalidProtocolIdentifier }
    } else if mbap_length(header) == 0 || mbap_length(header) > FRAME_SIZE - MBAP_HEADER_SIZE {
        DecoderState::DecoderError { reason: DecodeError::InvalidLength }
    } else {
        DecoderState::DecodeFramePayload { expected: (mbap_length(header) - 1) as usize, index: 0 }
    }
}

/// The states a decoder can be in.
pub open spec fn tcp_state_ok(state: DecoderState) -> bool {
    match state {
        DecoderState::DecodeFrameHeader { index } => index < MBAP_HEADER_SIZE,
        DecoderState::DecodeFramePayload { expected, index } => {
            &&& expected < FRAME_SIZE - MBAP_HEADER_SIZE
            &&& expected > 0 ==> index < expected
            &&& MBAP_HEADER_SIZE + index <= FRAME_SIZE
        },
        DecoderState::DecoderError { .. } => true,
    }
}

/// Whether a decoder in `state` can store one more byte in the frame buffer
/// (a length field of one leaves no end to the payload, and the decoder
/// panics once the buffer is full).
pub open spec fn tcp_state_has_room(state: DecoderState) -> bool {
    match state {
        DecoderState::DecodeFramePayload { index, .. } => MBAP_HEADER_SIZE + index < FRAME_SIZE,
        _ => true,
    }
}

/// One byte taken in by a decoder in `state` that writes into a frame
/// buffer: the new state, the new buffer, the frame length it sets (if
/// any), and the report.
pub open spec fn tcp_step(state: DecoderState, buffer: Seq<u8>, byte: u8) -> (
    DecoderState,
    Seq<u8>,
    Option<nat>,
    DecodeResult,
) {
    match state {
        DecoderState::DecodeFrameHeader { index } => {
            let b = buffer.update(index as int, byte);
            if index + 1 == MBAP_HEADER_SIZE {
                let s = header_state(b.take(MBAP_HEADER_SIZE as int));
                (
                    s,
                    b,
                    None,
                    match s {
                        DecoderState::DecoderError { reason } => DecodeResult::Error(reason),
                        _ => DecodeResult::Pending,
                    },
                )
            } else {
                (
                    DecoderState::DecodeFrameHeader { index: (index + 1) as usize },
                    b,
                    None,
                    DecodeResult::Pending,
                )
            }
        },
        DecoderState::DecodeFramePayload { expected, index } => {
            let b = buffer.update(MBAP_HEADER_SIZE + index, byte);
            if index + 1 == expected {
                (
                    DecoderState::DecodeFrameHeader { index: 0 },
                    b,
                    Some((MBAP_HEADER_SIZE + expected) as nat),
                    DecodeResult::Done,
                )
            } else {
                (
                    DecoderState::DecodeFramePayload { expected, index: (index + 1) as usize },
                    b,
                    None,
                    DecodeResult::Pending,
                )
            }
        },
        DecoderState::DecoderError { reason } => (state, buffer, None, DecodeResult::Error(reason)),
    }
}

/// The state a decoder works from when it is handed the frame known by
/// `frame_key`: a different frame than the one it was filling restarts it.
pub open spec fn tcp_effective_state(
    last_key: Option<usize>,
    state: DecoderState,
    frame_key: usize,
) -> DecoderState {
    match last_key {
        Some(k) => if k != frame_key {
            DecoderState::DecodeFrameHeader { index: 0 }
        } else {
            state
        },
        None => state,
    }
}

/// The state, frame buffer, frame length and reports after a decoder in
/// `state` takes in `bytes`, one after another, for one frame.
pub open spec fn tcp_feed(state: DecoderState, buffer: Seq<u8>, length: nat, bytes: Seq<u8>) -> (
    DecoderState,
    Seq<u8>,
    nat,
    Seq<DecodeResult>,
)
    decreases bytes.len(),
{
    if bytes.len() == 0 {
        (state, buffer, length, Seq::empty())
    } else {
        let (s, b, l, results) = tcp_feed(state, buffer, length, bytes.drop_last());
        let (next, b2, set, result) = tcp_step(s, b, bytes.last());
        (
            next,
            b2,
            match set {
                Some(n) => n,
                None => l,
            },
            results.push(result),
        )
    }
}

/// Whether `adu` is one whole Modbus/TCP frame that the decoder takes:
/// protocol identifier zero, a length field of at least two (unit
/// identifier and function code) that fits the buffer, and as many bytes
/// after the length field as it announces.
pub open spec fn is_tcp_adu(adu: Seq<u8>) -> bool {
    let header = adu.take(MBAP_HEADER_SIZE as int);
    &&& adu.len() > MBAP_HEADER_SIZE
    &&& mbap_protocol_id(header) == 0
    &&& 2 <= mbap_length(header) <= FRAME_SIZE - MBAP_HEADER_SIZE
    &&& adu.len() == MBAP_HEADER_SIZE - 1 + mbap_length(header)
}

/// Feeding the first `j` bytes of a header to a decoder at the start of a
/// frame stores them and reports pending.
proof fn lemma_tcp_header_prefix(header: Seq<u8>, buffer: Seq<u8>, length: nat, j: int)
    requires
        header.len() >= MBAP_HEADER_SIZE,
        buffer.len() == FRAME_SIZE,
        0 <= j < MBAP_HEADER_SIZE,
    ensures
        ({
            let (s, b, l, results) = tcp_feed(
                DecoderState::DecodeFrameHeader { index: 0 },
                buffer,
                length,
                header.take(j),
            );
            &&& s == DecoderState::DecodeFrameHeader { index: j as usize }
            &&& b == header.take(j) + buffer.skip(j)
            &&& l == length
            &&& results == Seq::new(j as nat, |i: int| DecodeResult::Pending)
        }),
    decreases j,
{
    if j == 0 {
        assert(header.take(0) =~= Seq::<u8>::empty());
        assert(header.take(0) + buffer.skip(0) =~= buffer);
        assert(Seq::new(0, |i: int| DecodeResult::Pending) =~= Seq::<DecodeResult>::empty());
    } else {
        lemma_tcp_header_prefix(header, buffer, length, j - 1);
        assert(header.take(j).drop_last() =~= header.take(j - 1));
        assert((header.take(j - 1) + buffer.skip(j - 1)).update(j - 1, header[j - 1])
            =~= header.take(j) + buffer.skip(j));
        assert(Seq::new(j as nat, |i: int| DecodeResult::Pending) =~= Seq::new(
            (j - 1) as nat,
            |i: int| DecodeResult::Pending,
        ).push(DecodeResult::Pending));
    }
}

/// A decoder at the start of a frame that takes in the seven bytes of an
/// MBAP header stores them, reports pending for the first six, and then
/// moves to the state that the header decides: refused with an error when
/// the protocol identifier is not zero or the length field is out of range,
/// collecting the announced bytes otherwise.
pub proof fn lemma_tcp_decodes_header(header: Seq<u8>, buffer: Seq<u8>, length: nat)
    requires
        header.len() == MBAP_HEADER_SIZE,
        buffer.len() == FRAME_SIZE,
    ensures
        ({
            let (s, b, l, results) = tcp_feed(
                DecoderState::DecodeFrameHeader { index: 0 },
                buffer,
                length,
                header,
            );
            &&& s == header_state(header)
            &&& b == header + buffer.skip(MBAP_HEADER_SIZE as int)
            &&& l == length
            &&& results.len() == MBAP_HEADER_SIZE
            &&& forall|i: int| 0 <= i < MBAP_HEADER_SIZE - 1 ==> results[i] == DecodeResult::Pending
            &&& results[MBAP_HEADER_SIZE - 1] == match header_state(header) {
                DecoderState::DecoderError { reason } => DecodeResult::Error(reason),
                _ => DecodeResult::Pending,
            }
        }),
{
    let n = MBAP_HEADER_SIZE as int;
    lemma_tcp_header_prefix(header, buffer, length, n - 1);
    assert(header.take(n) =~= header);
    assert(header.drop_last() =~= header.take(n - 1));
    let b = (header.take(n - 1) + buffer.skip(n - 1)).update(n - 1, header[n - 1]);
    assert(b =~= header + buffer.skip(n));
    assert(b.take(n) =~= header);
}

/// Feeding the first `j` bytes of a whole frame to a decoder at the start of
/// a frame stores them and reports pending.
proof fn lemma_tcp_adu_prefix(adu: Seq<u8>, buffer: Seq<u8>, length: nat, j: int)
    requires
        is_tcp_adu(adu),
        buffer.len() == FRAME_SIZE,
        MBAP_HEADER_SIZE <= j < adu.len(),
    ensures
        ({
            let e = (mbap_length(adu.take(MBAP_HEADER_SIZE as int)) - 1) as usize;
            let (s, b, l, results) = tcp_feed(
                DecoderState::DecodeFrameHeader { index: 0 },
                buffer,
                length,
                adu.take(j),
            );
            &&& s == DecoderState::DecodeFramePayload {
                expected: e,
                index: (j - MBAP_HEADER_SIZE) as usize,
            }
            &&& b == adu.take(j) + buffer.skip(j)
            &&& l == length
            &&& results == Seq::new(j as nat, |i: int| DecodeResult::Pending)
        }),
    decreases j,
{
    let n = MBAP_HEADER_SIZE as int;
    let header = adu.take(n);
    if j == n {
        lemma_tcp_decodes_header(header, buffer, length);
        assert(adu.take(j) =~= header);
        assert(Seq::new(j as nat, |i: int| DecodeResult::Pending) =~= tcp_feed(
            DecoderState::DecodeFrameHeader { index: 0 },
            buffer,
            length,
            header,
        ).3);
    } else {
        lemma_tcp_adu_prefix(adu, buffer, length, j - 1);
        assert(adu.take(j).drop_last() =~= adu.take(j - 1));
        assert((adu.take(j - 1) + buffer.skip(j - 1)).update(j - 1, adu[j - 1]) =~= adu.take(j)
            + buffer.skip(j));
        assert(Seq::new(j as nat, |i: int| DecodeResult::Pending) =~= Seq::new(
            (j - 1) as nat,
            |i: int| DecodeResult::Pending,
        ).push(DecodeResult::Pending));
    }
}

/// A decoder at the start of a frame that is fed one whole frame byte by
/// byte reports pending for every byte but the last and done for the last;
/// afterwards the frame buffer starts with the frame, the frame length is
/// the frame's, and the decoder is at the start of a frame again. No byte
/// finds the buffer full.
pub proof fn lemma_tcp_decodes_whole_adu(adu: Seq<u8>, buffer: Seq<u8>, length: nat)
    requires
        is_tcp_adu(adu),
        buffer.len() == FRAME_SIZE,
    ensures
        ({
            let (s, b, l, results) = tcp_feed(
                DecoderState::DecodeFrameHeader { index: 0 },
                buffer,
                length,
                adu,
            );
            &&& s == DecoderState::DecodeFrameHeader { index: 0 }
            &&& b.take(adu.len() as int) == adu
            &&& b.skip(adu.len() as int) == buffer.skip(adu.len() as int)
            &&& l == adu.len()
            &&& results.len() == adu.len()
            &&& forall|i: int| 0 <= i < adu.len() - 1 ==> results[i] == DecodeResult::Pending
            &&& results[adu.len() - 1] == DecodeResult::Done
        }),
        forall|j: int|
            0 <= j < adu.len() ==> tcp_state_has_room(
                #[trigger] tcp_feed(
                    DecoderState::DecodeFrameHeader { index: 0 },
                    buffer,
                    length,
                    adu.take(j),
                ).0,
            ),
{
    let n = adu.len() as int;
    let h = MBAP_HEADER_SIZE as int;
    lemma_tcp_adu_prefix(adu, buffer, length, n - 1);
    assert(adu.take(n) =~= adu);
    assert(adu.drop_last() =~= adu.take(n - 1));
    let b = (adu.take(n - 1) + buffer.skip(n - 1)).update(n - 1, adu[n - 1]);
    assert(b.take(n) =~= adu);
    assert(b.skip(n) =~= buffer.skip(n));
    assert forall|j: int|
        0 <= j < adu.len() implies tcp_state_has_room(
        #[trigger] tcp_feed(
            DecoderState::DecodeFrameHeader { index: 0 },
            buffer,
            length,
            adu.take(j),
        ).0,
    ) by {
        if j < h {
            lemma_tcp_header_prefix(adu, buffer, length, j);
        } else {
            lemma_tcp_adu_prefix(adu, buffer, length, j);
        }
    }
}

/// A decoder that refused a header keeps reporting the same error for every
/// byte, and leaves the frame alone, until it is reset.
pub proof fn lemma_tcp_error_persists(
    reason: DecodeError,
    buffer: Seq<u8>,
    length: nat,
    bytes: Seq<u8>,
)
    ensures
        ({
            let (s, b, l, results) = tcp_feed(
                DecoderState::DecoderError { reason },
                buffer,
                length,
                bytes,
            );
            &&& s == DecoderState::DecoderError { reason }
            &&& b == buffer
            &&& l == length
            &&& results == Seq::new(bytes.len(), |i: int| DecodeResult::Error(reason))
        }),
    decreases bytes.len(),
{
    if bytes.len() > 0 {
        lemma_tcp_error_persists(reason, buffer, length, bytes.drop_last());
        assert(Seq::new(bytes.len(), |i: int| DecodeResult::Error(reason)) =~= Seq::new(
            (bytes.len() - 1) as nat,
            |i: int| DecodeResult::Error(reason),
        ).push(DecodeResult::Error(reason)));
    } else {
        assert(Seq::new(0, |i: int| DecodeResult::Error(reason)) =~= Seq::<DecodeResult>::empty());
    }
}

// ── FrameDecoder ──

/// A byte-by-byte decoder of Modbus/TCP frames. Each byte is written into
/// the frame it is handed with; `frame_key` tells frames apart (the frame's
/// address, say), and a byte for another frame than the one being filled
/// starts a new frame.
#[derive(Debug, PartialEq, Clone, Copy)]
pub struct Decoder {
    frame_key: Option<usize>,
    state: DecoderState,
}

impl Decoder {
    /// Where the decoder stands.
    pub closed spec fn phase(&self) -> DecoderState {
        self.state
    }

    /// The key of the frame being filled, if any.
    pub closed spec fn current_frame(&self) -> Option<usize> {
        self.frame_key
    }

    /// The decoder is in one of its states.
    pub open spec fn wf(&self) -> bool {
        tcp_state_ok(self.phase())
    }

    /// Whether the decoder can take one more byte for the frame known by
    /// `frame_key` without overrunning the buffer.
    pub open spec fn accepts(&self, frame_key: usize) -> bool {
        tcp_state_has_room(tcp_effective_state(self.current_frame(), self.phase(), frame_key))
    }

    pub fn new() -> (r: Decoder)
        ensures
            r.wf(),
            r.phase() == (DecoderState::DecodeFrameHeader { index: 0 }),
            r.current_frame() is None,
    {
        Decoder { frame_key: None, state: DecoderState::DecodeFrameHeader { index: 0 } }
    }

    /// Takes in one byte of a frame and writes it into `frame`. Once the
    /// whole frame is in, its length is set and `Done` is reported.
    pub fn push_data(&mut self, frame: &mut Frame, frame_key: usize, byte: u8) -> (r:
        DecodeResult)
        requires
            old(self).wf(),
            old(self).accepts(frame_key),
        ensures
            ({
                let state = tcp_effective_state(
                    old(self).current_frame(),
                    old(self).phase(),
                    frame_key,
                );
                let (next, buffer, length, result) = tcp_step(state, old(frame).buffer(), byte);
                &&& final(self).wf()
                &&& final(self).phase() == next
                &&& final(frame).buffer() == buffer
                &&& final(frame).frame_length() == match length {
                    Some(n) => n,
                    None => old(frame).frame_length(),
                }
                &&& r == result
                &&& final(self).current_frame() == if result is Done {
                    None
                } else {
                    Some(frame_key)
                }
            }),
    {
        if let Some(key) = self.frame_key {
            if key != frame_key {
                self.reset();
            }
        }
        self.frame_key = Some(frame_key);

        match self.state {
            DecoderState::DecodeFrameHeader { index } => {
                // push data
                let raw = frame.raw_mut();
                raw[index] = byte;

                // increment counter
                let index = index + 1;

                if index == MBAP_HEADER_SIZE {
                    let ghost header = frame.buffer().take(MBAP_HEADER_SIZE as int);

                    // read protocol_identifier
                    let protocol_identifier = frame.mbap().protocol_id();

                    // check for correct protocol identifier
                    if protocol_identifier != 0 {
                        self.state = DecoderState::DecoderError {
                            reason: DecodeError::InvalidProtocolIdentifier,
                        };
                        return DecodeResult::Error(DecodeError::InvalidProtocolIdentifier);
                    }

                    // read length
                    let length = frame.mbap().length() as usize;

                    // check for correct length
                    if length == 0 || length > FRAME_SIZE - MBAP_HEADER_SIZE {
                        self.state = DecoderState::DecoderError {
                            reason: DecodeError::InvalidLength,
                        };
                        return DecodeResult::Error(DecodeError::InvalidLength);
                    }

                    self.state = DecoderState::DecodeFramePayload { expected: length - 1, index: 0 };
                } else {
                    self.state = DecoderState::DecodeFrameHeader { index };
                }
                DecodeResult::Pending
            },
            DecoderState::DecodeFramePayload { expected, index } => {
                // compute index
                let idx = MBAP_HEADER_SIZE + index;

                // push data
                let raw = frame.raw_mut();
                raw[idx] = byte;

                // increment counter
                let index = index + 1;

                if index == expected {
                    // compute total length
                    let total_length = MBAP_HEADER_SIZE + expected;

                    // set new state
                    self.frame_key = None;
                    self.state = DecoderState::DecodeFrameHeader { index: 0 };

                    // set length
                    frame.set_len(total_length);

                    // return
                    return DecodeResult::Done;
                }
                self.state = DecoderState::DecodeFramePayload { expected, index };
                DecodeResult::Pending
            },
            DecoderState::DecoderError { reason } => DecodeResult::Error(reason),
        }
    }

    /// Whether the decoder can take one more byte for the frame known by
    /// `frame_key` (see [Decoder::accepts]).
    pub fn can_accept(&self, frame_key: usize) -> (r: bool)
        ensures
            r == self.accepts(frame_key),
    {
        let restarts = match self.frame_key {
            Some(k) => k != frame_key,
            None => false,
        };
        if restarts {
            true
        } else {
            match self.state {
                DecoderState::DecodeFramePayload { index, .. } => index < FRAME_SIZE
                    - MBAP_HEADER_SIZE,
                _ => true,
            }
        }
    }

    pub fn reset(&mut self)
        ensures
            final(self).wf(),
            final(self).phase() == (DecoderState::DecodeFrameHeader { index: 0 }),
            final(self).current_frame() == old(self).current_frame(),
    {
        self.state = DecoderState::DecodeFrameHeader { index: 0 };
    }
}

impl Default for Decoder {
    fn default() -> (r: Self)
        ensures
            r.wf(),
            r.phase() == (DecoderState::DecodeFrameHeader { index: 0 }),
            r.current_frame() is None,
    {
        Decoder::new()
    }
}

/// The fields of a seven-byte MBAP header, read most significant byte
/// first: transaction identifier (bytes 0 and 1), protocol identifier
/// (bytes 2 and 3), length (bytes 4 and 5), unit identifier (byte 6). A
/// header is refused when its protocol identifier is not zero, or when its
/// length is zero or more than the 253 bytes a 260-byte frame has room for
/// after the header; otherwise the decoder expects `length - 1` more bytes.
/// A whole frame the decoder takes is a header with protocol identifier
/// zero and a length from 2 to 253, followed by `length - 1` bytes.
pub proof fn lemma_tcp_header_fields(header: Seq<u8>, adu: Seq<u8>)
    requires
        header.len() == 7,
    ensures
        mbap_transaction_id(header) == header[0] * 256 + header[1],
        mbap_protocol_id(header) == header[2] * 256 + header[3],
        mbap_length(header) == header[4] * 256 + header[5],
        mbap_unit_id(header) == header[6],
        header[2] != 0 || header[3] != 0 ==> header_state(header) == (DecoderState::DecoderError {
            reason: DecodeError::InvalidProtocolIdentifier,
        }),
        header[2] == 0 && header[3] == 0 && (header[4] * 256 + header[5] == 0 || header[4] * 256
            + header[5] > 253) ==> header_state(header) == (DecoderState::DecoderError {
            reason: DecodeError::InvalidLength,
        }),
        header[2] == 0 && header[3] == 0 && 1 <= header[4] * 256 + header[5] <= 253
            ==> header_state(header) == (DecoderState::DecodeFramePayload {
            expected: (header[4] * 256 + header[5] - 1) as usize,
            index: 0,
        }),
        is_tcp_adu(adu) <==> adu.len() > 7 && adu[2] == 0 && adu[3] == 0 && 2 <= adu[4] * 256
            + adu[5] <= 253 && adu.len() == 6 + adu[4] * 256 + adu[5],
{
    if adu.len() > 7 {
        let h = adu.take(7);
        assert(h[2] == adu[2] && h[3] == adu[3] && h[4] == adu[4] && h[5] == adu[5]);
    }
}

} // verus!
