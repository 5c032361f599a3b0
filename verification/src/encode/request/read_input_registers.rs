use vstd::prelude::*;
use crate::{ExceptionCode, FunctionKind, FunctionCode};
use crate::codes::function_kind_byte;
use crate::exception::exception_code_byte;
use crate::encode::response::write_multiple_registers::is_reported_exception;
use crate::rtu::{ModbusRtuFrame, RtuLayoutTable, is_rtu_frame, rtu_frame_crc_ok, rtu_crc, crc16};
use crate::constants::MODBUS_RTU_FRAME_DATA_LENGTH;
use crate::wire::{be_bytes, le_bytes, u16_hi, u16_lo};

verus! {

#[non_exhaustive]
#[derive(Debug, PartialEq, Eq, Clone, Copy, Structural)]
pub enum ReadInputRegistersRequestEncodeError {
    Succes,
    NotEnoughData,
    InvalidQuantityOfRegisters,
    InvalidQuantityOfProvidedRegisters,
}

#[non_exhaustive]
#[derive(Debug, PartialEq, Eq, Clone, Copy, Structural)]
pub enum ReadInputRegistersRequestEncodeExceptionError {
    Success,
    NotEnoughData,
    InvalidExceptionCode,
}

/// The eight bytes of a Modbus/RTU request that carries two words after the
/// slave address and function code byte in `head`: the words big-endian,
/// then the checksum of those six bytes, low byte first.
pub open spec fn rtu_two_word_request(head: Seq<u8>, first: u16, second: u16) -> Seq<u8> {
    let body = head + be_bytes(first) + be_bytes(second);
    body + le_bytes(crc16(body))
}

/// The byte of an exception code that an exception reply may carry here.
pub fn reported_exception_byte(code: ExceptionCode) -> (r: Option<u8>)
    ensures
        is_reported_exception(code) ==> r == Some(exception_code_byte(code)),
        !is_reported_exception(code) ==> r is None,
{
    match code {
        ExceptionCode::IllegalFunction => Some(0x01),
        ExceptionCode::IllegalDataAddress => Some(0x02),
        ExceptionCode::IllegalDataValue => Some(0x03),
        ExceptionCode::SlaveDeviceFailure => Some(0x04),
        _ => None,
    }
}

pub trait ReadInputRegistersRequestEncoder {
    fn encode(&mut self, start_address: u16, quantity_of_registers: u16) -> ReadInputRegistersRequestEncodeError;

    fn encode_exception(&mut self, code: ExceptionCode) -> ReadInputRegistersRequestEncodeExceptionError;
}

impl<'a> ReadInputRegistersRequestEncoder for ModbusRtuFrame<'a> {
    /// Writes starting address, quantity and checksum after the slave
    /// address and function code already in the frame; the quantity must be
    /// from 1 to 125.
    fn encode(&mut self, start_address: u16, quantity_of_registers: u16) -> (r:
        ReadInputRegistersRequestEncodeError)
        ensures
            *final(final(self).buffer_ref()) == *final(old(self).buffer_ref()),
            quantity_of_registers == 0 || quantity_of_registers > 0x007D ==> r
                == ReadInputRegistersRequestEncodeError::InvalidQuantityOfRegisters && final(self).buffer()
                == old(self).buffer() && final(self).frame_length() == old(self).frame_length(),
            1 <= quantity_of_registers <= 0x007D ==> r == ReadInputRegistersRequestEncodeError::Succes
                && final(self).buffer() == rtu_two_word_request(
                old(self).buffer().take(2),
                start_address,
                quantity_of_registers,
            ) + old(self).buffer().skip(8) && final(self).frame_length() == 8,
    {
        if MODBUS_RTU_FRAME_DATA_LENGTH > 8 {
            if quantity_of_registers == 0 || quantity_of_registers > 0x007D {
                return ReadInputRegistersRequestEncodeError::InvalidQuantityOfRegisters;
            }
            let ghost head = self.buffer().take(2);
            proof {
                self.lemma_buffer_length();
            }

            // Encode Starting Address
            self.set_byte(2, u16_hi(start_address));
            self.set_byte(3, u16_lo(start_address));

            // Encode Quantity of Registers
            self.set_byte(4, u16_hi(quantity_of_registers));
            self.set_byte(5, u16_lo(quantity_of_registers));

            // Encode CRC
            let ghost body = head + be_bytes(start_address) + be_bytes(quantity_of_registers);
            proof {
                assert(self.buffer().take(6) =~= body);
            }
            let crc = rtu_crc(self.buffer_prefix(6));
            self.set_byte(6, u16_lo(crc));
            self.set_byte(7, u16_hi(crc));

            // Update Data Length
            self.set_data_length(8);
            proof {
                assert(self.buffer() =~= rtu_two_word_request(
                    head,
                    start_address,
                    quantity_of_registers,
                ) + old(self).buffer().skip(8));
            }
        } else {
            return ReadInputRegistersRequestEncodeError::NotEnoughData;
        }

        ReadInputRegistersRequestEncodeError::Succes
    }

    /// Writes the exception function code and the exception code; the
    /// function code is written before the exception code is checked.
    fn encode_exception(&mut self, code: ExceptionCode) -> (r:
        ReadInputRegistersRequestEncodeExceptionError)
        ensures
            *final(final(self).buffer_ref()) == *final(old(self).buffer_ref()),
            final(self).frame_length() == old(self).frame_length(),
            is_reported_exception(code) ==> r == ReadInputRegistersRequestEncodeExceptionError::Success
                && final(self).buffer() == old(self).buffer().update(
                1,
                function_kind_byte(FunctionKind::Exception(FunctionCode::ReadInputRegisters)),
            ).update(2, exception_code_byte(code)),
            !is_reported_exception(code) ==> r
                == ReadInputRegistersRequestEncodeExceptionError::InvalidExceptionCode && final(self).buffer() == old(self).buffer().update(
                1,
                function_kind_byte(FunctionKind::Exception(FunctionCode::ReadInputRegisters)),
            ),
    {
        proof {
            self.lemma_buffer_length();
        }
        if MODBUS_RTU_FRAME_DATA_LENGTH > 5 {
            // Update function code (error code)
            let function_code = FunctionKind::Exception(FunctionCode::ReadInputRegisters);
            let function_code = u8::from(function_code);
            self.set_byte(1, function_code);

            // Set exeception code
            let exception_code = match reported_exception_byte(code) {
                Some(value) => value,
                None => {
                    return ReadInputRegistersRequestEncodeExceptionError::InvalidExceptionCode;
                },
            };
            self.set_byte(2, exception_code);
        } else {
            return ReadInputRegistersRequestEncodeExceptionError::NotEnoughData;
        }

        ReadInputRegistersRequestEncodeExceptionError::Success
    }
}

/// A read input registers request frame that `encode` writes behind a slave
/// address and the read input registers function code is a whole request
/// frame with a right checksum, so a request decoder hands it out.
pub proof fn lemma_read_input_registers_request_frame(
    slave: u8,
    start_address: u16,
    quantity_of_registers: u16,
)
    ensures
        ({
            let code = function_kind_byte(FunctionKind::Normal(FunctionCode::ReadInputRegisters));
            let frame = rtu_two_word_request(seq![slave, code], start_address, quantity_of_registers);
            &&& frame.len() == 8
            &&& is_rtu_frame(RtuLayoutTable::Request, frame)
            &&& rtu_frame_crc_ok(frame)
        }),
{
    let code = function_kind_byte(FunctionKind::Normal(FunctionCode::ReadInputRegisters));
    let frame = rtu_two_word_request(seq![slave, code], start_address, quantity_of_registers);
    assert(4u8 & 0x80u8 == 0u8 && 4u8 & 0x7Fu8 == 4u8) by (bit_vector);
    assert(code == 4);
    assert(frame[1] == 4);
    assert(frame.take(6) =~= seq![slave, code] + be_bytes(start_address) + be_bytes(
        quantity_of_registers,
    ));
}

} // verus!
