use vstd::prelude::*;
use crate::{FunctionCode, FunctionKind, PduData};
use crate::wire::{be_u16_at, u16_from_be};

verus! {

/// A view of a write single register response PDU that passed the checks.
pub struct WriteSingleRegisterReponseDecoder<'a, T> where T: PduData {
    pdu: &'a T,
}

#[non_exhaustive]
#[derive(Debug, PartialEq, Eq, Clone, Copy, Structural)]
pub enum WriteSingleRegisterReponseDecoderError {
    NotEnoughData,
    InvalidFunctionCode,
}

/// Whether a write single register PDU is taken, or why it is refused: it
/// needs five bytes and the write single register function code.
pub open spec fn write_single_register_response_check(pdu: Seq<u8>, code: FunctionKind) -> Result<
    (),
    WriteSingleRegisterReponseDecoderError,
> {
    if pdu.len() < 5 {
        Err(WriteSingleRegisterReponseDecoderError::NotEnoughData)
    } else if code != FunctionKind::Normal(FunctionCode::WriteSingleRegister) {
        Err(WriteSingleRegisterReponseDecoderError::InvalidFunctionCode)
    } else {
        Ok(())
    }
}

impl<'a, T: PduData> WriteSingleRegisterReponseDecoder<'a, T> {
    #[verifier::type_invariant]
    spec fn checked(&self) -> bool {
        &&& self.pdu.spec_pdu_available()
        &&& write_single_register_response_check(
            self.pdu.spec_pdu_data(),
            self.pdu.spec_function_code(),
        ) is Ok
    }

    /// The bytes of the PDU.
    pub closed spec fn pdu_bytes(&self) -> Seq<u8> {
        self.pdu.spec_pdu_data()
    }

    pub fn new(pdu: &'a T) -> (r: Result<
        WriteSingleRegisterReponseDecoder<'a, T>,
        WriteSingleRegisterReponseDecoderError,
    >)
        requires
            pdu.spec_pdu_available(),
        ensures
            match write_single_register_response_check(
                pdu.spec_pdu_data(),
                pdu.spec_function_code(),
            ) {
                Ok(_) => r matches Ok(d) && d.pdu_bytes() == pdu.spec_pdu_data(),
                Err(e) => r matches Err(e2) && e2 == e,
            },
    {
        let required_length: usize = 5;
        if pdu.pdu_data().len() < required_length {
            Err(WriteSingleRegisterReponseDecoderError::NotEnoughData)
        } else {
            let code = pdu.function_code();
            match code {
                FunctionKind::Normal(FunctionCode::WriteSingleRegister) => {
                    Ok(WriteSingleRegisterReponseDecoder { pdu })
                },
                _ => Err(WriteSingleRegisterReponseDecoderError::InvalidFunctionCode),
            }
        }
    }

    pub fn register_address(&self) -> (r: u16)
        ensures
            r == be_u16_at(self.pdu_bytes(), 1),
    {
        proof {
            use_type_invariant(self);
        }
        let data = self.pdu.pdu_data();
        u16_from_be(data[1], data[2])
    }

    pub fn register_value(&self) -> (r: u16)
        ensures
            r == be_u16_at(self.pdu_bytes(), 3),
    {
        proof {
            use_type_invariant(self);
        }
        let data = self.pdu.pdu_data();
        u16_from_be(data[3], data[4])
    }
}

/// A write single register response PDU is taken exactly when it has at
/// least five bytes and the write single register function code.
pub proof fn lemma_write_single_register_response_accepted(pdu: Seq<u8>, code: FunctionKind)
    ensures
        write_single_register_response_check(pdu, code) is Ok <==> pdu.len() >= 5 && code
            == FunctionKind::Normal(FunctionCode::WriteSingleRegister),
        pdu.len() < 5 ==> write_single_register_response_check(pdu, code) == Err::<
            (),
            WriteSingleRegisterReponseDecoderError,
        >(WriteSingleRegisterReponseDecoderError::NotEnoughData),
{
}

} // verus!
