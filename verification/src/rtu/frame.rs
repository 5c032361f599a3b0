use vstd::prelude::*;
use crate::{FunctionKind, PduData, PduDataMut};
use crate::codes::{function_kind_byte, function_kind_from_byte};
use crate::constants::MODBUS_RTU_FRAME_DATA_LENGTH;
use crate::wire::{be_u16, u16_from_be};

verus! {

/// A Modbus/RTU frame: slave address, PDU and CRC, in a borrowed buffer of
/// [MODBUS_RTU_FRAME_DATA_LENGTH] bytes of which the first `data_length`
/// make up the frame.
#[derive(Debug, PartialEq)]
pub struct ModbusRtuFrame<'a> {
    pub(crate) data: &'a mut [u8; MODBUS_RTU_FRAME_DATA_LENGTH],
    pub(crate) data_length: usize,
}

impl<'a> ModbusRtuFrame<'a> {
    #[verifier::type_invariant]
    pub(crate) open spec fn length_fits(&self) -> bool {
        self.data_length <= MODBUS_RTU_FRAME_DATA_LENGTH
    }

    /// The whole buffer.
    pub closed spec fn buffer(&self) -> Seq<u8> {
        self.data@
    }

    /// The number of buffer bytes that make up the frame.
    pub closed spec fn frame_length(&self) -> nat {
        self.data_length as nat
    }

    /// The reference to the borrowed buffer, whose final value the buffer
    /// ends as.
    pub closed spec fn buffer_ref(&self) -> &'a mut [u8; MODBUS_RTU_FRAME_DATA_LENGTH] {
        self.data
    }

    /// Once the frame is changed no more, the buffer it holds is what the
    /// borrowed buffer ends as.
    pub proof fn lemma_resolved(&self)
        requires
            has_resolved(*self),
        ensures
            final(self.buffer_ref())@ == self.buffer(),
    {
    }

    /// The buffer holds [MODBUS_RTU_FRAME_DATA_LENGTH] bytes.
    pub proof fn lemma_buffer_length(&self)
        ensures
            self.buffer().len() == MODBUS_RTU_FRAME_DATA_LENGTH,
    {
    }

    /// The bytes of the frame.
    pub open spec fn frame_bytes(&self) -> Seq<u8> {
        self.buffer().take(self.frame_length() as int)
    }

    /// Wraps a buffer whose first `data_length` bytes are a frame; a length
    /// beyond the buffer is cut to the buffer's size.
    pub fn new_unchecked(
        data: &'a mut [u8; MODBUS_RTU_FRAME_DATA_LENGTH],
        data_length: usize,
    ) -> (r: ModbusRtuFrame<'a>)
        ensures
            r.buffer() == old(data)@,
            *final(data) == *final(r.buffer_ref()),
            r.frame_length() == if data_length <= MODBUS_RTU_FRAME_DATA_LENGTH {
                data_length
            } else {
                MODBUS_RTU_FRAME_DATA_LENGTH
            },
    {
        let data_length = if data_length <= MODBUS_RTU_FRAME_DATA_LENGTH {
            data_length
        } else {
            MODBUS_RTU_FRAME_DATA_LENGTH
        };
        ModbusRtuFrame { data, data_length }
    }

    /// The first `end` bytes of the buffer.
    pub(crate) fn buffer_prefix(&self, end: usize) -> (r: &[u8])
        requires
            end <= MODBUS_RTU_FRAME_DATA_LENGTH,
        ensures
            r@ == self.buffer().take(end as int),
    {
        &self.data[0..end]
    }

    /// Writes one byte of the buffer.
    pub(crate) fn set_byte(&mut self, index: usize, value: u8)
        requires
            index < MODBUS_RTU_FRAME_DATA_LENGTH,
        ensures
            final(self).buffer() == old(self).buffer().update(index as int, value),
            final(self).frame_length() == old(self).frame_length(),
            *final(final(self).buffer_ref()) == *final(old(self).buffer_ref()),
    {
        proof {
            use_type_invariant(&*self);
        }
        self.data[index] = value;
    }

    /// Sets the number of buffer bytes that make up the frame.
    pub(crate) fn set_data_length(&mut self, data_length: usize)
        requires
            data_length <= MODBUS_RTU_FRAME_DATA_LENGTH,
        ensures
            final(self).buffer() == old(self).buffer(),
            final(self).frame_length() == data_length,
            *final(final(self).buffer_ref()) == *final(old(self).buffer_ref()),
    {
        self.data_length = data_length;
    }

    pub fn slave_address(&self) -> (r: u8)
        ensures
            r == self.buffer()[0],
    {
        self.data[0]
    }

    /// The transmitted checksum: the last two frame bytes, low byte first.
    pub fn checksum(&self) -> (r: u16)
        requires
            self.frame_length() >= 2,
        ensures
            r == be_u16(
                self.buffer()[self.frame_length() - 1],
                self.buffer()[self.frame_length() - 2],
            ),
    {
        proof {
            use_type_invariant(self);
        }
        let low = self.data[self.data_length - 2];
        let high = self.data[self.data_length - 1];
        u16_from_be(high, low)
    }
}

impl<'a> PduData for ModbusRtuFrame<'a> {
    /// The PDU lies between the slave address and the checksum.
    open spec fn spec_pdu_data(&self) -> Seq<u8> {
        self.buffer().subrange(1, self.frame_length() - 2)
    }

    open spec fn spec_function_code(&self) -> FunctionKind {
        function_kind_from_byte(self.buffer()[1])
    }

    open spec fn spec_length(&self) -> Option<u16> {
        None
    }

    open spec fn spec_pdu_available(&self) -> bool {
        3 <= self.frame_length() <= MODBUS_RTU_FRAME_DATA_LENGTH
    }

    fn pdu_data(&self) -> (r: &[u8]) {
        proof {
            use_type_invariant(self);
        }
        let end_index: usize = self.data_length - 2;
        &self.data[1..end_index]
    }

    fn function_code(&self) -> (r: FunctionKind) {
        FunctionKind::from(self.data[1])
    }

    fn length(&self) -> (r: Option<u16>) {
        None
    }
}

impl<'a> PduDataMut for ModbusRtuFrame<'a> {
    fn pdu_data_mut(&mut self) -> (r: &mut [u8])
        ensures
            final(self).frame_length() == old(self).frame_length(),
            final(self).buffer().len() == old(self).buffer().len(),
            final(self).buffer().take(1) == old(self).buffer().take(1),
            final(self).buffer().skip(old(self).frame_length() - 2) == old(self).buffer().skip(
                old(self).frame_length() - 2,
            ),
            *final(final(self).buffer_ref()) == *final(old(self).buffer_ref()),
    {
        proof {
            use_type_invariant(&*self);
        }
        let end_index: usize = self.data_length - 2;
        let buffer: &mut [u8] = self.data;
        let (_, rest) = buffer.split_at_mut(1);
        let (pdu, _) = rest.split_at_mut(end_index - 1);
        pdu
    }

    fn set_function_code(&mut self, code: FunctionKind)
        ensures
            final(self).buffer() == old(self).buffer().update(1, function_kind_byte(code)),
            final(self).frame_length() == old(self).frame_length(),
            *final(final(self).buffer_ref()) == *final(old(self).buffer_ref()),
    {
        proof {
            use_type_invariant(&*self);
        }
        self.data[1] = u8::from(code);
        proof {
            assert(final(self).spec_pdu_data() =~= old(self).spec_pdu_data().update(
                0,
                function_kind_byte(code),
            ));
        }
    }

    fn set_length(&mut self, _length: u16)
        ensures
            *final(self) == *old(self),
    {
    }
}

/// The PDU of a Modbus/RTU frame is every byte after the slave address
/// (byte 0) and before the two checksum bytes at the end; it starts with
/// the function code, which is read from byte 1.
pub proof fn lemma_rtu_frame_pdu(frame: &ModbusRtuFrame<'_>)
    requires
        frame.spec_pdu_available(),
    ensures
        frame.spec_pdu_data().len() == frame.frame_length() - 3,
        forall|i: int|
            0 <= i < frame.frame_length() - 3 ==> #[trigger] frame.spec_pdu_data()[i]
                == frame.buffer()[1 + i],
        frame.spec_function_code() == function_kind_from_byte(frame.buffer()[1]),
        frame.spec_length() is None,
{
    frame.lemma_buffer_length();
}

} // verus!
