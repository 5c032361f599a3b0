use vstd::prelude::*;
use crate::{FunctionKind, AduData, PduData};
use crate::codes::function_kind_from_byte;
use crate::wire::{be_u16, hi_byte, lo_byte, u16_from_be, u16_hi, u16_lo, lemma_be_u16_roundtrip};

verus! {

/// Size of the buffer of a Modbus/TCP frame.
pub const FRAME_SIZE: usize = 260;

/// Size of the MBAP header of a Modbus/TCP frame.
pub const MBAP_HEADER_SIZE: usize = 7;

/// Read access to the fields of an MBAP header.
pub trait MbapHeader {
    fn transaction_id(&self) -> u16;

    fn protocol_id(&self) -> u16;

    fn length(&self) -> u16;

    fn unit_id(&self) -> u8;
}

/// Write access to the fields of an MBAP header.
pub trait MbapHeaderMut {
    fn set_transaction_id(&mut self, id: u16);

    fn set_unit_id(&mut self, id: u8);
}

/// The transaction identifier of an MBAP header.
pub open spec fn mbap_transaction_id(header: Seq<u8>) -> u16 {
    be_u16(header[0], header[1])
}

/// The protocol identifier of an MBAP header.
pub open spec fn mbap_protocol_id(header: Seq<u8>) -> u16 {
    be_u16(header[2], header[3])
}

/// The length field of an MBAP header: the number of bytes that follow it,
/// unit identifier included.
pub open spec fn mbap_length(header: Seq<u8>) -> u16 {
    be_u16(header[4], header[5])
}

/// The unit identifier of an MBAP header.
pub open spec fn mbap_unit_id(header: Seq<u8>) -> u8 {
    header[6]
}

/// Writing a transaction identifier and then a unit identifier into an MBAP
/// header, as the setters of [MbapHeaderMut] do, changes those two fields
/// and nothing else: the header reads back the written values, and its
/// protocol identifier and length stay as they were.
pub proof fn lemma_mbap_set_ids(header: Seq<u8>, id: u16, unit: u8)
    requires
        header.len() == MBAP_HEADER_SIZE,
    ensures
        ({
            let written = header.update(0, hi_byte(id)).update(1, lo_byte(id)).update(6, unit);
            &&& mbap_transaction_id(written) == id
            &&& mbap_unit_id(written) == unit
            &&& mbap_protocol_id(written) == mbap_protocol_id(header)
            &&& mbap_length(written) == mbap_length(header)
            &&& written.len() == header.len()
            &&& forall|i: int| 2 <= i < 6 ==> written[i] == header[i]
        }),
{
    lemma_be_u16_roundtrip(id);
}

/// A read-only view of the MBAP header of a frame.
#[derive(Debug, PartialEq, Clone, Copy)]
pub struct Mbap<'a> {
    data: &'a [u8],
}

impl<'a> Mbap<'a> {
    #[verifier::type_invariant]
    spec fn header_size(&self) -> bool {
        self.data@.len() == MBAP_HEADER_SIZE
    }

    /// The header bytes.
    pub closed spec fn header(&self) -> Seq<u8> {
        self.data@
    }
}

impl<'a> MbapHeader for Mbap<'a> {
    fn transaction_id(&self) -> (r: u16)
        ensures
            r == mbap_transaction_id(self.header()),
    {
        proof {
            use_type_invariant(self);
        }
        u16_from_be(self.data[0], self.data[1])
    }

    fn protocol_id(&self) -> (r: u16)
        ensures
            r == mbap_protocol_id(self.header()),
    {
        proof {
            use_type_invariant(self);
        }
        u16_from_be(self.data[2], self.data[3])
    }

    fn length(&self) -> (r: u16)
        ensures
            r == mbap_length(self.header()),
    {
        proof {
            use_type_invariant(self);
        }
        u16_from_be(self.data[4], self.data[5])
    }

    fn unit_id(&self) -> (r: u8)
        ensures
            r == mbap_unit_id(self.header()),
    {
        proof {
            use_type_invariant(self);
        }
        self.data[6]
    }
}

/// A writable view of the MBAP header of a frame.
pub struct MbapMut<'a> {
    data: &'a mut [u8],
}

impl<'a> MbapMut<'a> {
    #[verifier::type_invariant]
    spec fn header_size(&self) -> bool {
        self.data@.len() == MBAP_HEADER_SIZE
    }

    /// The header bytes.
    pub closed spec fn header(&self) -> Seq<u8> {
        self.data@
    }

    /// The reference to the header bytes, whose final value the frame's
    /// header ends as.
    pub closed spec fn header_ref(&self) -> &'a mut [u8] {
        self.data
    }

    /// Once the handle is written through no more, the header bytes it holds
    /// are those the frame's header ends as.
    pub proof fn lemma_resolved(&self)
        requires
            has_resolved(*self),
        ensures
            final(self.header_ref())@ == self.header(),
    {
    }
}

impl<'a> MbapHeader for MbapMut<'a> {
    fn transaction_id(&self) -> (r: u16)
        ensures
            r == mbap_transaction_id(self.header()),
    {
        proof {
            use_type_invariant(self);
        }
        u16_from_be(self.data[0], self.data[1])
    }

    fn protocol_id(&self) -> (r: u16)
        ensures
            r == mbap_protocol_id(self.header()),
    {
        proof {
            use_type_invariant(self);
        }
        u16_from_be(self.data[2], self.data[3])
    }

    fn length(&self) -> (r: u16)
        ensures
            r == mbap_length(self.header()),
    {
        proof {
            use_type_invariant(self);
        }
        u16_from_be(self.data[4], self.data[5])
    }

    fn unit_id(&self) -> (r: u8)
        ensures
            r == mbap_unit_id(self.header()),
    {
        proof {
            use_type_invariant(self);
        }
        self.data[6]
    }
}

impl<'a> MbapHeaderMut for MbapMut<'a> {
    fn set_transaction_id(&mut self, id: u16)
        ensures
            final(self).header() == old(self).header().update(0, hi_byte(id)).update(
                1,
                lo_byte(id),
            ),
            final(final(self).header_ref())@ == final(old(self).header_ref())@,
            (*final(self).header_ref())@ == final(self).header(),
    {
        proof {
            use_type_invariant(&*self);
        }
        self.data[0] = u16_hi(id);
        self.data[1] = u16_lo(id);
    }

    fn set_unit_id(&mut self, id: u8)
        ensures
            final(self).header() == old(self).header().update(6, id),
            final(final(self).header_ref())@ == final(old(self).header_ref())@,
            (*final(self).header_ref())@ == final(self).header(),
    {
        proof {
            use_type_invariant(&*self);
        }
        self.data[6] = id;
    }
}

/// A Modbus/TCP frame: MBAP header followed by the PDU, held in a buffer of
/// [FRAME_SIZE] bytes of which the first `data_length` make up the frame.
#[derive(Debug, PartialEq, Clone)]
pub struct Frame {
    data: [u8; FRAME_SIZE],
    data_length: usize,
}

impl Frame {
    pub const FRAME_SIZE: usize = 260;

    pub const MBAP_HEADER_SIZE: usize = 7;

    /// The whole buffer.
    pub closed spec fn buffer(&self) -> Seq<u8> {
        self.data@
    }

    /// The number of buffer bytes that make up the frame.
    pub closed spec fn frame_length(&self) -> nat {
        self.data_length as nat
    }

    /// The buffer holds [FRAME_SIZE] bytes.
    pub proof fn lemma_buffer_length(&self)
        ensures
            self.buffer().len() == FRAME_SIZE,
    {
    }

    /// A frame whose buffer is zero but for a length field of 254, the most
    /// a frame of this size can announce, spanning the whole buffer.
    pub fn new_unchecked() -> (r: Frame)
        ensures
            r.frame_length() == FRAME_SIZE,
            r.buffer() == Seq::new(FRAME_SIZE as nat, |i: int| if i == 5 { 254u8 } else { 0u8 }),
    {
        let mut data = [0u8; FRAME_SIZE];
        data[4] = u16_hi(254);
        data[5] = u16_lo(254);
        let r = Frame { data, data_length: FRAME_SIZE };
        proof {
            assert(r.buffer() =~= Seq::new(FRAME_SIZE as nat, |i: int| if i == 5 { 254u8 } else { 0u8 }));
        }
        r
    }

    pub fn mbap(&self) -> (r: Mbap<'_>)
        ensures
            r.header() == self.buffer().take(MBAP_HEADER_SIZE as int),
    {
        Mbap { data: &self.data[0..MBAP_HEADER_SIZE] }
    }

    pub fn mbap_mut(&mut self) -> (r: MbapMut<'_>)
        ensures
            r.header() == old(self).buffer().take(MBAP_HEADER_SIZE as int),
            (*r.header_ref())@ == r.header(),
            final(self).buffer() == final(r.header_ref())@ + old(self).buffer().skip(
                MBAP_HEADER_SIZE as int,
            ),
            final(self).buffer().len() == old(self).buffer().len(),
            final(self).buffer().skip(MBAP_HEADER_SIZE as int) == old(self).buffer().skip(
                MBAP_HEADER_SIZE as int,
            ),
            final(self).frame_length() == old(self).frame_length(),
    {
        let buffer: &mut [u8] = &mut self.data;
        let (header, _) = buffer.split_at_mut(MBAP_HEADER_SIZE);
        MbapMut { data: header }
    }

    pub(crate) fn raw_mut(&mut self) -> (r: &mut [u8])
        ensures
            r@ == old(self).buffer(),
            r@.len() == FRAME_SIZE,
            final(self).buffer() == final(r)@,
            final(self).frame_length() == old(self).frame_length(),
    {
        let buffer: &mut [u8] = &mut self.data;
        buffer
    }

    pub(crate) fn set_len(&mut self, len: usize)
        requires
            len <= FRAME_SIZE,
        ensures
            final(self).buffer() == old(self).buffer(),
            final(self).frame_length() == len,
    {
        self.data_length = len;
    }
}

impl AduData for Frame {
    open spec fn spec_adu_data(&self) -> Seq<u8> {
        self.buffer().take(self.frame_length() as int)
    }

    open spec fn spec_adu_available(&self) -> bool {
        self.frame_length() <= FRAME_SIZE
    }

    fn adu_data(&self) -> (r: &[u8]) {
        &self.data[0..self.data_length]
    }

    fn adu_length(&self) -> (r: usize) {
        self.data_length
    }
}

impl PduData for Frame {
    /// The PDU follows the MBAP header.
    open spec fn spec_pdu_data(&self) -> Seq<u8> {
        self.buffer().subrange(MBAP_HEADER_SIZE as int, self.frame_length() as int)
    }

    open spec fn spec_function_code(&self) -> FunctionKind {
        function_kind_from_byte(self.buffer()[7])
    }

    open spec fn spec_length(&self) -> Option<u16> {
        Some(mbap_length(self.buffer().take(MBAP_HEADER_SIZE as int)))
    }

    open spec fn spec_pdu_available(&self) -> bool {
        MBAP_HEADER_SIZE <= self.frame_length() <= FRAME_SIZE
    }

    fn pdu_data(&self) -> (r: &[u8]) {
        &self.data[MBAP_HEADER_SIZE..self.data_length]
    }

    fn function_code(&self) -> (r: FunctionKind) {
        FunctionKind::from(self.data[7])
    }

    fn length(&self) -> (r: Option<u16>) {
        Some(self.mbap().length())
    }
}

/// The PDU of a Modbus/TCP frame is every byte of the frame after the
/// seven-byte MBAP header; it starts with the function code, byte 7, and
/// the length the frame reports is the header's length field, bytes 4 and
/// 5, most significant first.
pub proof fn lemma_tcp_frame_pdu(frame: &Frame)
    requires
        frame.spec_pdu_available(),
    ensures
        frame.spec_pdu_data().len() == frame.frame_length() - 7,
        forall|i: int|
            0 <= i < frame.frame_length() - 7 ==> #[trigger] frame.spec_pdu_data()[i]
                == frame.buffer()[7 + i],
        frame.spec_function_code() == function_kind_from_byte(frame.buffer()[7]),
        frame.spec_length() == Some((frame.buffer()[4] * 256 + frame.buffer()[5]) as u16),
{
    frame.lemma_buffer_length();
}

} // verus!
