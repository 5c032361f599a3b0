use vstd::prelude::*;
use crate::{ExceptionCode, FunctionCode, FunctionKind, PduDataMut};
use crate::codes::{function_kind_byte, lemma_function_code_bytes, lemma_exception_byte_is_normal_byte_plus_0x80};
use crate::exception::{exception_code_byte, exception_code_from_byte};
use crate::wire::{hi_byte, lo_byte, u16_hi, u16_lo};

verus! {

#[non_exhaustive]
#[derive(Debug, PartialEq, Eq, Clone, Copy, Structural)]
pub enum WriteMultipleRegistersReponseEncodeError {
    NotEnoughData,
}

#[non_exhaustive]
#[derive(Debug, PartialEq, Eq, Clone, Copy, Structural)]
pub enum WriteMultipleRegistersReponseEncodeExceptionError {
    NotEnoughData,
    InvalidExceptionCode,
}

/// The exception codes that an exception response may carry here.
pub open spec fn is_reported_exception(code: ExceptionCode) -> bool {
    ||| code == ExceptionCode::IllegalFunction
    ||| code == ExceptionCode::IllegalDataAddress
    ||| code == ExceptionCode::IllegalDataValue
    ||| code == ExceptionCode::SlaveDeviceFailure
}

/// The PDU after a write multiple registers response is written into it:
/// function code (that of write single register), starting address and
/// quantity of registers.
pub open spec fn encoded_write_multiple_registers_response(
    pdu: Seq<u8>,
    starting_address: u16,
    quantity_of_registers: u16,
) -> Seq<u8> {
    pdu.update(
        0,
        function_kind_byte(FunctionKind::Normal(FunctionCode::WriteSingleRegister)),
    ).update(1, hi_byte(starting_address)).update(2, lo_byte(starting_address)).update(
        3,
        hi_byte(quantity_of_registers),
    ).update(4, lo_byte(quantity_of_registers))
}

/// The PDU after the exception function code is written into it (that of
/// read holding registers).
pub open spec fn with_exception_function_code(pdu: Seq<u8>) -> Seq<u8> {
    pdu.update(
        0,
        function_kind_byte(FunctionKind::Exception(FunctionCode::ReadHoldingRegisters)),
    )
}

/// Writes a write multiple registers response into a PDU.
pub trait WriteMultipleRegistersReponseEncoder: PduDataMut {
    /// Writes the function code, the starting address and the quantity of
    /// registers, and sets the length field to six.
    fn encode(&mut self, starting_address: u16, quantity_of_registers: u16) -> (r: Result<
        (),
        WriteMultipleRegistersReponseEncodeError,
    >)
        requires
            old(self).spec_pdu_available(),
        ensures
            final(self).spec_pdu_available(),
            ({
                let before = old(self).spec_pdu_data();
                let after = final(self).spec_pdu_data();
                if before.len() < 5 {
                    r == Err::<(), WriteMultipleRegistersReponseEncodeError>(
                        WriteMultipleRegistersReponseEncodeError::NotEnoughData,
                    ) && after == before
                } else {
                    r == Ok::<(), WriteMultipleRegistersReponseEncodeError>(()) && after
                        == encoded_write_multiple_registers_response(
                        before,
                        starting_address,
                        quantity_of_registers,
                    )
                }
            }),
    ;

    /// Writes the exception function code and the exception code, and sets
    /// the length field to three. The function code is written before the
    /// exception code is checked.
    fn encode_exception(&mut self, code: ExceptionCode) -> (r: Result<
        (),
        WriteMultipleRegistersReponseEncodeExceptionError,
    >)
        requires
            old(self).spec_pdu_available(),
        ensures
            final(self).spec_pdu_available(),
            ({
                let before = old(self).spec_pdu_data();
                let after = final(self).spec_pdu_data();
                if before.len() < 2 {
                    r == Err::<(), WriteMultipleRegistersReponseEncodeExceptionError>(
                        WriteMultipleRegistersReponseEncodeExceptionError::NotEnoughData,
                    ) && after == before
                } else if !is_reported_exception(code) {
                    r == Err::<(), WriteMultipleRegistersReponseEncodeExceptionError>(
                        WriteMultipleRegistersReponseEncodeExceptionError::InvalidExceptionCode,
                    ) && after == with_exception_function_code(before)
                } else {
                    r == Ok::<(), WriteMultipleRegistersReponseEncodeExceptionError>(()) && after
                        == with_exception_function_code(before).update(1, exception_code_byte(code))
                }
            }),
    ;
}

impl<T: PduDataMut> WriteMultipleRegistersReponseEncoder for T {
    fn encode(&mut self, starting_address: u16, quantity_of_registers: u16) -> (r: Result<
        (),
        WriteMultipleRegistersReponseEncodeError,
    >) {
        // check for size
        let required_length: usize = 5;
        if self.pdu_data_mut().len() < required_length {
            return Err(WriteMultipleRegistersReponseEncodeError::NotEnoughData);
        }

        // write function code
        self.set_function_code(FunctionKind::Normal(FunctionCode::WriteSingleRegister));

        // write starting address
        let pdu = self.pdu_data_mut();
        pdu[1] = u16_hi(starting_address);
        pdu[2] = u16_lo(starting_address);

        // write quantity of registers
        pdu[3] = u16_hi(quantity_of_registers);
        pdu[4] = u16_lo(quantity_of_registers);

        // set length (necessary for TCP/IP based modbus frames)
        let length: u16 = 1 + 5;
        self.set_length(length);

        // return Ok
        Ok(())
    }

    fn encode_exception(&mut self, code: ExceptionCode) -> (r: Result<
        (),
        WriteMultipleRegistersReponseEncodeExceptionError,
    >) {
        // check the required data
        let required_length: usize = 2;
        if self.pdu_data_mut().len() < required_length {
            return Err(WriteMultipleRegistersReponseEncodeExceptionError::NotEnoughData);
        }

        // set function code
        self.set_function_code(FunctionKind::new_exception(FunctionCode::ReadHoldingRegisters));

        // compute exception code
        let exception_code = match code {
            ExceptionCode::IllegalFunction => u8::from(code),
            ExceptionCode::IllegalDataAddress => u8::from(code),
            ExceptionCode::IllegalDataValue => u8::from(code),
            ExceptionCode::SlaveDeviceFailure => u8::from(code),
            _ => return Err(WriteMultipleRegistersReponseEncodeExceptionError::InvalidExceptionCode),
        };

        // set exception code
        let pdu = self.pdu_data_mut();
        pdu[1] = exception_code;

        // set length (necessary for TCP/IP based modbus frames)
        let length: u16 = 1 + 2;
        self.set_length(length);

        // return Ok
        Ok(())
    }
}

/// An exception reply carries exactly the illegal function, illegal data
/// address, illegal data value and slave device failure codes, written as
/// the bytes 0x01 to 0x04: every byte from 1 to 4 names a code that is
/// reported and written back as that byte, and every reported code is
/// written as one of them.
pub proof fn lemma_reported_exceptions(code: ExceptionCode)
    ensures
        is_reported_exception(code) <==> (code is IllegalFunction || code is IllegalDataAddress
            || code is IllegalDataValue || code is SlaveDeviceFailure),
        is_reported_exception(code) ==> 1 <= exception_code_byte(code) <= 4,
        forall|b: u8|
            1 <= b <= 4 ==> is_reported_exception(#[trigger] exception_code_from_byte(b))
                && exception_code_byte(exception_code_from_byte(b)) == b,
{
}

/// The bytes a write multiple registers response encoding writes into a PDU
/// of at least five bytes: function code byte 0x06 (that of write single
/// register, as this encoder writes it), then the starting address and the
/// quantity of registers, each most significant byte first; the rest of the
/// PDU stays as it was. An exception reply writes function code byte 0x83
/// (the exception code of read holding registers, as this encoder writes
/// it).
pub proof fn lemma_write_multiple_registers_response_bytes(
    pdu: Seq<u8>,
    starting_address: u16,
    quantity_of_registers: u16,
)
    requires
        pdu.len() >= 5,
    ensures
        ({
            let out = encoded_write_multiple_registers_response(
                pdu,
                starting_address,
                quantity_of_registers,
            );
            &&& out.len() == pdu.len()
            &&& out[0] == 0x06
            &&& out[1] * 256 + out[2] == starting_address
            &&& out[3] * 256 + out[4] == quantity_of_registers
            &&& forall|i: int| 5 <= i < pdu.len() ==> #[trigger] out[i] == pdu[i]
        }),
        with_exception_function_code(pdu)[0] == 0x83,
        forall|i: int|
            1 <= i < pdu.len() ==> #[trigger] with_exception_function_code(pdu)[i] == pdu[i],
{
    lemma_function_code_bytes();
    lemma_exception_byte_is_normal_byte_plus_0x80(FunctionCode::ReadHoldingRegisters);
}

} // verus!
