use vstd::prelude::*;
use crate::{FunctionCode, FunctionKind, PduData};

verus! {

/// A view of a read holding registers response PDU that passed the checks.
pub struct ReadHoldingRegistersResponseDecoder<'a, T> where T: PduData {
    pdu: &'a T,
}

#[non_exhaustive]
#[derive(Debug, PartialEq, Eq, Clone, Copy, Structural)]
pub enum ReadHoldingRegistersResponseDecoderError {
    NotEnoughData,
    InvalidQuanitityOfRegisters,
    InvalidFunctionCode,
    CrcError,
}

/// Whether a read holding registers response PDU is taken, or why it is
/// refused: it needs four bytes, the read holding registers function code,
/// two bytes for each register its second byte counts, and a count from 1
/// to 125.
pub open spec fn read_holding_registers_response_check(pdu: Seq<u8>, code: FunctionKind) -> Result<
    (),
    ReadHoldingRegistersResponseDecoderError,
> {
    if pdu.len() < 4 {
        Err(ReadHoldingRegistersResponseDecoderError::NotEnoughData)
    } else if code != FunctionKind::Normal(FunctionCode::ReadHoldingRegisters) {
        Err(ReadHoldingRegistersResponseDecoderError::InvalidFunctionCode)
    } else {
        let quantity_of_registers = pdu[1];
        if pdu.len() < 2 + 2 * quantity_of_registers {
            Err(ReadHoldingRegistersResponseDecoderError::NotEnoughData)
        } else if quantity_of_registers > 125 || quantity_of_registers == 0 {
            Err(ReadHoldingRegistersResponseDecoderError::InvalidQuanitityOfRegisters)
        } else {
            Ok(())
        }
    }
}

impl<'a, T: PduData> ReadHoldingRegistersResponseDecoder<'a, T> {
    #[verifier::type_invariant]
    spec fn checked(&self) -> bool {
        &&& self.pdu.spec_pdu_available()
        &&& read_holding_registers_response_check(
            self.pdu.spec_pdu_data(),
            self.pdu.spec_function_code(),
        ) is Ok
    }

    /// The bytes of the PDU.
    pub closed spec fn pdu_bytes(&self) -> Seq<u8> {
        self.pdu.spec_pdu_data()
    }

    /// The function kind of the PDU.
    pub closed spec fn pdu_function_code(&self) -> FunctionKind {
        self.pdu.spec_function_code()
    }

    pub fn new(pdu: &'a T) -> (r: Result<
        ReadHoldingRegistersResponseDecoder<'a, T>,
        ReadHoldingRegistersResponseDecoderError,
    >)
        requires
            pdu.spec_pdu_available(),
        ensures
            match read_holding_registers_response_check(
                pdu.spec_pdu_data(),
                pdu.spec_function_code(),
            ) {
                Ok(_) => r matches Ok(d) && d.pdu_bytes() == pdu.spec_pdu_data()
                    && d.pdu_function_code() == pdu.spec_function_code(),
                Err(e) => r matches Err(e2) && e2 == e,
            },
    {
        let required_length: usize = 4;
        let data = pdu.pdu_data();
        if data.len() < required_length {
            Err(ReadHoldingRegistersResponseDecoderError::NotEnoughData)
        } else {
            let code = pdu.function_code();
            match code {
                FunctionKind::Normal(FunctionCode::ReadHoldingRegisters) => {
                    let quantity_of_registers = data[1];
                    let byte_count = (quantity_of_registers as usize) * 2;
                    let required_length = 2 + byte_count;

                    // Not enough data to provide
                    if data.len() < required_length {
                        return Err(ReadHoldingRegistersResponseDecoderError::NotEnoughData);
                    }
                    // invalid number of registers

                    if (quantity_of_registers > 125) || (quantity_of_registers == 0) {
                        return Err(
                            ReadHoldingRegistersResponseDecoderError::InvalidQuanitityOfRegisters,
                        );
                    }
                    Ok(ReadHoldingRegistersResponseDecoder { pdu })
                },
                _ => Err(ReadHoldingRegistersResponseDecoderError::InvalidFunctionCode),
            }
        }
    }

    pub fn function_code(&self) -> (r: FunctionKind)
        ensures
            r == self.pdu_function_code(),
            r == FunctionKind::Normal(FunctionCode::ReadHoldingRegisters),
    {
        proof {
            use_type_invariant(self);
        }
        self.pdu.function_code()
    }

    /// Two bytes for each register that the second PDU byte counts.
    pub fn byte_count(&self) -> (r: u16)
        ensures
            r == 2 * self.pdu_bytes()[1],
    {
        proof {
            use_type_invariant(self);
        }
        (self.pdu.pdu_data()[1] as u16) * 2
    }
}

/// A read holding registers response PDU is taken exactly when it has at
/// least four bytes, the read holding registers function code, a count
/// (byte 1) of 1 to 125 registers, and two bytes for each of them after it.
pub proof fn lemma_read_holding_registers_response_accepted(pdu: Seq<u8>, code: FunctionKind)
    ensures
        read_holding_registers_response_check(pdu, code) is Ok <==> pdu.len() >= 4 && code
            == FunctionKind::Normal(FunctionCode::ReadHoldingRegisters) && 1 <= pdu[1] <= 125
            && pdu.len() >= 2 + 2 * pdu[1],
        pdu.len() < 4 ==> read_holding_registers_response_check(pdu, code) == Err::<
            (),
            ReadHoldingRegistersResponseDecoderError,
        >(ReadHoldingRegistersResponseDecoderError::NotEnoughData),
        pdu.len() >= 4 && code != FunctionKind::Normal(FunctionCode::ReadHoldingRegisters)
            ==> read_holding_registers_response_check(pdu, code) == Err::<
            (),
            ReadHoldingRegistersResponseDecoderError,
        >(ReadHoldingRegistersResponseDecoderError::InvalidFunctionCode),
{
}

} // verus!
