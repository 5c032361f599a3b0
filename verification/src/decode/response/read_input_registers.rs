use vstd::prelude::*;
use crate::{FunctionCode, FunctionKind, PduData};
use crate::wire::{be_u16_at, u16_from_be};

verus! {

/// A view of a read input registers response PDU that passed the checks.
pub struct ReadInputRegistersResponseDecoder<'a, T> where T: PduData {
    pdu: &'a T,
}

#[derive(Debug, PartialEq, Eq, Clone, Copy, Structural)]
pub enum ReadInputRegistersResponseDecoderError {
    NotEnoughData,
    InvalidQuanitityOfRegisters,
    InvalidFunctionCode,
    CrcError,
}

/// Whether a read input registers response PDU is taken, or why it is
/// refused: it needs four bytes, the read input registers function code,
/// the bytes its byte count announces, and a byte count for 1 to 125
/// registers.
pub open spec fn read_input_registers_response_check(pdu: Seq<u8>, code: FunctionKind) -> Result<
    (),
    ReadInputRegistersResponseDecoderError,
> {
    if pdu.len() < 4 {
        Err(ReadInputRegistersResponseDecoderError::NotEnoughData)
    } else if code != FunctionKind::Normal(FunctionCode::ReadInputRegisters) {
        Err(ReadInputRegistersResponseDecoderError::InvalidFunctionCode)
    } else {
        let byte_count = pdu[1];
        let quantity_of_registers = byte_count / 2;
        if pdu.len() < 2 + byte_count {
            Err(ReadInputRegistersResponseDecoderError::NotEnoughData)
        } else if quantity_of_registers > 125 || quantity_of_registers == 0 {
            Err(ReadInputRegistersResponseDecoderError::InvalidQuanitityOfRegisters)
        } else {
            Ok(())
        }
    }
}

impl<'a, T: PduData> ReadInputRegistersResponseDecoder<'a, T> {
    #[verifier::type_invariant]
    spec fn checked(&self) -> bool {
        &&& self.pdu.spec_pdu_available()
        &&& read_input_registers_response_check(
            self.pdu.spec_pdu_data(),
            self.pdu.spec_function_code(),
        ) is Ok
    }

    /// The bytes of the PDU.
    pub closed spec fn pdu_bytes(&self) -> Seq<u8> {
        self.pdu.spec_pdu_data()
    }

    /// The function kind of the PDU.
    pub closed spec fn pdu_function_code(&self) -> FunctionKind {
        self.pdu.spec_function_code()
    }

    pub fn new(pdu: &'a T) -> (r: Result<
        ReadInputRegistersResponseDecoder<'a, T>,
        ReadInputRegistersResponseDecoderError,
    >)
        requires
            pdu.spec_pdu_available(),
        ensures
            match read_input_registers_response_check(
                pdu.spec_pdu_data(),
                pdu.spec_function_code(),
            ) {
                Ok(_) => r matches Ok(d) && d.pdu_bytes() == pdu.spec_pdu_data()
                    && d.pdu_function_code() == pdu.spec_function_code(),
                Err(e) => r matches Err(e2) && e2 == e,
            },
    {
        let required_length: usize = 4;
        let data = pdu.pdu_data();
        if data.len() < required_length {
            Err(ReadInputRegistersResponseDecoderError::NotEnoughData)
        } else {
            let code = pdu.function_code();
            match code {
                FunctionKind::Normal(FunctionCode::ReadInputRegisters) => {
                    let byte_count = data[1] as usize;
                    let quantity_of_registers = byte_count / 2;
                    let required_length = 2 + byte_count;

                    // Not enough data to provide
                    if data.len() < required_length {
                        return Err(ReadInputRegistersResponseDecoderError::NotEnoughData);
                    }
                    // invalid number of registers

                    if (quantity_of_registers > 125) || (quantity_of_registers == 0) {
                        return Err(
                            ReadInputRegistersResponseDecoderError::InvalidQuanitityOfRegisters,
                        );
                    }
                    Ok(ReadInputRegistersResponseDecoder { pdu })
                },
                _ => Err(ReadInputRegistersResponseDecoderError::InvalidFunctionCode),
            }
        }
    }

    pub fn function_code(&self) -> (r: FunctionKind)
        ensures
            r == self.pdu_function_code(),
            r == FunctionKind::Normal(FunctionCode::ReadInputRegisters),
    {
        proof {
            use_type_invariant(self);
        }
        self.pdu.function_code()
    }

    pub fn byte_count(&self) -> (r: u8)
        ensures
            r == self.pdu_bytes()[1],
            2 + r <= self.pdu_bytes().len(),
    {
        proof {
            use_type_invariant(self);
        }
        self.pdu.pdu_data()[1]
    }

    pub fn quantity_of_registers(&self) -> (r: u8)
        ensures
            r == self.pdu_bytes()[1] / 2,
            1 <= r <= 125,
    {
        proof {
            use_type_invariant(self);
        }
        self.byte_count() / 2
    }

    /// The register values, one after another.
    pub fn into_iter(self) -> (r: ReadInputRegistersResponseRegisterIter<'a, T>)
        ensures
            r.pdu_bytes() == self.pdu_bytes(),
            r.register_index() == 0,
    {
        ReadInputRegistersResponseRegisterIter { data: self, register_index: 0 }
    }
}

/* ITERATOR */

/// The register values of a read input registers response.
pub struct ReadInputRegistersResponseRegisterIter<'a, T> where T: PduData {
    data: ReadInputRegistersResponseDecoder<'a, T>,
    register_index: u8,
}

impl<'a, T: PduData> ReadInputRegistersResponseRegisterIter<'a, T> {
    /// The bytes of the PDU.
    pub closed spec fn pdu_bytes(&self) -> Seq<u8> {
        self.data.pdu_bytes()
    }

    /// The number of values handed out so far.
    pub closed spec fn register_index(&self) -> nat {
        self.register_index as nat
    }

    /// The next register value, while the byte count announces more.
    pub fn next(&mut self) -> (r: Option<u16>)
        ensures
            final(self).pdu_bytes() == old(self).pdu_bytes(),
            old(self).register_index() < old(self).pdu_bytes()[1] / 2 ==> r == Some(
                be_u16_at(old(self).pdu_bytes(), (2 + 2 * old(self).register_index()) as int),
            ) && final(self).register_index() == old(self).register_index() + 1,
            old(self).register_index() >= old(self).pdu_bytes()[1] / 2 ==> r is None
                && final(self).register_index() == old(self).register_index(),
    {
        proof {
            use_type_invariant(&self.data);
        }
        if self.register_index < self.data.quantity_of_registers() {
            let base_index = 2 + 2 * (self.register_index as usize);
            let data = self.data.pdu.pdu_data();
            if base_index + 2 <= data.len() {
                // Compute iterator return value
                let value = u16_from_be(data[base_index], data[base_index + 1]);

                // Increment register index
                self.register_index += 1;

                // Return iterator value
                Some(value)
            } else {
                None
            }
        } else {
            None
        }
    }
}

/// A read input registers response PDU is taken exactly when it has at least
/// four bytes, the read input registers function code, a byte count (byte
/// 1) for 1 to 125 registers, that is from 2 to 251 (an odd count's last
/// byte is not a register), and the bytes it counts after it. In
/// particular a response with byte count `2 * k`, `1 <= k <= 125`, holding
/// those bytes, is taken.
pub proof fn lemma_read_input_registers_response_accepted(pdu: Seq<u8>, code: FunctionKind)
    ensures
        read_input_registers_response_check(pdu, code) is Ok <==> pdu.len() >= 4 && code
            == FunctionKind::Normal(FunctionCode::ReadInputRegisters) && 2 <= pdu[1] <= 251
            && pdu.len() >= 2 + pdu[1],
        pdu.len() < 4 ==> read_input_registers_response_check(pdu, code) == Err::<
            (),
            ReadInputRegistersResponseDecoderError,
        >(ReadInputRegistersResponseDecoderError::NotEnoughData),
        pdu.len() >= 4 && code != FunctionKind::Normal(FunctionCode::ReadInputRegisters)
            ==> read_input_registers_response_check(pdu, code) == Err::<
            (),
            ReadInputRegistersResponseDecoderError,
        >(ReadInputRegistersResponseDecoderError::InvalidFunctionCode),
{
}

} // verus!
