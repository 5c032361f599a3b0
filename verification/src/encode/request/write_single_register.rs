use vstd::prelude::*;
use crate::{ExceptionCode, FunctionKind, FunctionCode};
use crate::codes::{function_kind_byte, function_kind_from_byte};
use crate::constants::MODBUS_RTU_FRAME_DATA_LENGTH;
use crate::decode::request::write_single_register::write_single_register_request;
use crate::encode::request::read_input_registers::{reported_exception_byte, rtu_two_word_request};
use crate::encode::response::write_multiple_registers::is_reported_exception;
use crate::exception::exception_code_byte;
use crate::rtu::{ModbusRtuFrame, RtuLayoutTable, is_rtu_frame, rtu_frame_crc_ok, rtu_crc};
use crate::wire::{be_bytes, u16_hi, u16_lo};

verus! {

#[non_exhaustive]
#[derive(Debug, PartialEq, Eq, Clone, Copy, Structural)]
pub enum WriteSingleRegisterRequestEncodeError {
    Succes,
    NotEnoughData,
}

#[non_exhaustive]
#[derive(Debug, PartialEq, Eq, Clone, Copy, Structural)]
pub enum WriteSingleRegisterRequestEncodeExceptionError {
    Success,
    NotEnoughData,
    InvalidExceptionCode,
}

/* MODBUS RTU */

pub trait WriteSingleRegisterRequestEncoder {
    fn encode(&mut self, register_address: u16, register_value: u16) -> WriteSingleRegisterRequestEncodeError;

    fn encode_exception(&mut self, code: ExceptionCode) -> WriteSingleRegisterRequestEncodeExceptionError;
}

/// The write single register request frame for `slave`: slave address,
/// function code 6, register address and value, and checksum.
pub open spec fn write_single_register_request_frame(slave: u8, register_address: u16, register_value: u16) -> Seq<u8> {
    rtu_two_word_request(
        seq![slave, function_kind_byte(FunctionKind::Normal(FunctionCode::WriteSingleRegister))],
        register_address,
        register_value,
    )
}

impl<'a> WriteSingleRegisterRequestEncoder for ModbusRtuFrame<'a> {
    /// Writes function code, register address, register value and checksum
    /// after the slave address already in the frame.
    fn encode(&mut self, register_address: u16, register_value: u16) -> (r:
        WriteSingleRegisterRequestEncodeError)
        ensures
            *final(final(self).buffer_ref()) == *final(old(self).buffer_ref()),
            r == WriteSingleRegisterRequestEncodeError::Succes,
            final(self).buffer() == write_single_register_request_frame(
                old(self).buffer()[0],
                register_address,
                register_value,
            ) + old(self).buffer().skip(8),
            final(self).frame_length() == 8,
    {
        proof {
            self.lemma_buffer_length();
        }
        if MODBUS_RTU_FRAME_DATA_LENGTH >= 8 {
            // Encode function code
            let function_kind = FunctionKind::Normal(FunctionCode::WriteSingleRegister);
            let function_kind = u8::from(function_kind);
            self.set_byte(1, function_kind);

            // Encode register address
            self.set_byte(2, u16_hi(register_address));
            self.set_byte(3, u16_lo(register_address));

            // Encode register value
            self.set_byte(4, u16_hi(register_value));
            self.set_byte(5, u16_lo(register_value));

            // Encode CRC
            let ghost head = self.buffer().take(2);
            proof {
                assert(self.buffer().take(6) =~= head + be_bytes(register_address) + be_bytes(
                    register_value,
                ));
            }
            let crc = rtu_crc(self.buffer_prefix(6));
            self.set_byte(6, u16_lo(crc));
            self.set_byte(7, u16_hi(crc));

            // Update data length
            self.set_data_length(8);
            proof {
                assert(head =~= seq![old(self).buffer()[0], function_kind]);
                assert(self.buffer() =~= write_single_register_request_frame(
                    old(self).buffer()[0],
                    register_address,
                    register_value,
                ) + old(self).buffer().skip(8));
            }
        } else {
            return WriteSingleRegisterRequestEncodeError::NotEnoughData;
        }

        WriteSingleRegisterRequestEncodeError::Succes
    }

    /// Writes the exception function code and the exception code and sets
    /// the frame length to five; the function code is written before the
    /// exception code is checked.
    fn encode_exception(&mut self, code: ExceptionCode) -> (r:
        WriteSingleRegisterRequestEncodeExceptionError)
        ensures
            *final(final(self).buffer_ref()) == *final(old(self).buffer_ref()),
            is_reported_exception(code) ==> r == WriteSingleRegisterRequestEncodeExceptionError::Success
                && final(self).buffer() == old(self).buffer().update(
                1,
                function_kind_byte(FunctionKind::Exception(FunctionCode::WriteSingleRegister)),
            ).update(2, exception_code_byte(code)) && final(self).frame_length() == 5,
            !is_reported_exception(code) ==> r
                == WriteSingleRegisterRequestEncodeExceptionError::InvalidExceptionCode && final(self).buffer() == old(self).buffer().update(
                1,
                function_kind_byte(FunctionKind::Exception(FunctionCode::WriteSingleRegister)),
            ) && final(self).frame_length() == old(self).frame_length(),
    {
        proof {
            self.lemma_buffer_length();
        }
        if MODBUS_RTU_FRAME_DATA_LENGTH >= 5 {
            // Update function code (error code)
            let function_code = FunctionKind::Exception(FunctionCode::WriteSingleRegister);
            let function_code = u8::from(function_code);
            self.set_byte(1, function_code);

            // Set exception code
            let exception_code = match reported_exception_byte(code) {
                Some(value) => value,
                None => {
                    return WriteSingleRegisterRequestEncodeExceptionError::InvalidExceptionCode;
                },
            };
            self.set_byte(2, exception_code);

            // Set data length
            self.set_data_length(5);
        } else {
            return WriteSingleRegisterRequestEncodeExceptionError::NotEnoughData;
        }

        WriteSingleRegisterRequestEncodeExceptionError::Success
    }
}

/// A write single register request frame that `encode` writes is a whole
/// request frame with a right checksum, so a request decoder hands it out,
/// and its PDU decodes to the register address and value that were encoded.
/// The same frame is also a whole write single register response frame (the
/// reply echoes the request).
pub proof fn lemma_write_single_register_request_roundtrip(
    slave: u8,
    register_address: u16,
    register_value: u16,
)
    ensures
        ({
            let frame = write_single_register_request_frame(slave, register_address, register_value);
            &&& frame.len() == 8
            &&& is_rtu_frame(RtuLayoutTable::Request, frame)
            &&& is_rtu_frame(RtuLayoutTable::Response, frame)
            &&& rtu_frame_crc_ok(frame)
            &&& write_single_register_request(
                frame.subrange(1, 6),
                function_kind_from_byte(frame[1]),
            ) == Ok::<(u16, u16), crate::decode::request::write_single_register::RequestError>(
                (register_address, register_value),
            )
        }),
{
    let frame = write_single_register_request_frame(slave, register_address, register_value);
    assert(6u8 & 0x80u8 == 0u8 && 6u8 & 0x7Fu8 == 6u8) by (bit_vector);
    assert(function_kind_byte(FunctionKind::Normal(FunctionCode::WriteSingleRegister)) == 6);
    assert(frame[1] == 6);
    assert(frame.take(6) =~= seq![slave, 6u8] + be_bytes(register_address) + be_bytes(
        register_value,
    ));
}

} // verus!
