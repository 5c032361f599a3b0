use vstd::prelude::*;
use crate::{FunctionCode, FunctionKind, PduData};
use crate::wire::{be_u16_at, u16_from_be};

verus! {

// ── DecoderError ──

#[non_exhaustive]
#[derive(Debug, PartialEq, Eq, Clone, Copy, Structural)]
pub enum RequestError {
    NotEnoughData,
    InvalidFunctionCode,
}

// ── RequestDecoder ──

#[derive(Debug, PartialEq, Eq, Clone, Structural)]
pub struct Request {
    register_address: u16,
    register_value: u16,
}

/// The register address and value of a write single register request PDU,
/// or why it is refused: it needs five bytes and the write single register
/// function code.
pub open spec fn write_single_register_request(pdu: Seq<u8>, code: FunctionKind) -> Result<
    (u16, u16),
    RequestError,
> {
    if pdu.len() < 5 {
        Err(RequestError::NotEnoughData)
    } else if code != FunctionKind::Normal(FunctionCode::WriteSingleRegister) {
        Err(RequestError::InvalidFunctionCode)
    } else {
        Ok((be_u16_at(pdu, 1), be_u16_at(pdu, 3)))
    }
}

impl Request {
    /// The address of the register to write.
    pub closed spec fn spec_register_address(&self) -> u16 {
        self.register_address
    }

    /// The value to write.
    pub closed spec fn spec_register_value(&self) -> u16 {
        self.register_value
    }

    pub fn new<P: PduData + ?Sized>(pdu: &P) -> (r: Result<Request, RequestError>)
        requires
            pdu.spec_pdu_available(),
        ensures
            match write_single_register_request(pdu.spec_pdu_data(), pdu.spec_function_code()) {
                Ok((register_address, register_value)) => r matches Ok(d)
                    && d.spec_register_address() == register_address && d.spec_register_value()
                    == register_value,
                Err(e) => r == Err::<Request, RequestError>(e),
            },
    {
        if pdu.pdu_data().len() < 5 {
            return Err(RequestError::NotEnoughData);
        }
        match pdu.function_code() {
            FunctionKind::Normal(FunctionCode::WriteSingleRegister) => {
                let data = pdu.pdu_data();
                let register_address = u16_from_be(data[1], data[2]);
                let register_value = u16_from_be(data[3], data[4]);
                Ok(Request { register_address, register_value })
            },
            _ => Err(RequestError::InvalidFunctionCode),
        }
    }

    pub fn function_code(&self) -> (r: FunctionKind)
        ensures
            r == FunctionKind::Normal(FunctionCode::WriteSingleRegister),
    {
        FunctionKind::Normal(FunctionCode::WriteSingleRegister)
    }

    pub fn register_address(&self) -> (r: u16)
        ensures
            r == self.spec_register_address(),
    {
        self.register_address
    }

    pub fn register_value(&self) -> (r: u16)
        ensures
            r == self.spec_register_value(),
    {
        self.register_value
    }
}

/// A write single register request PDU is taken exactly when it has at least
/// five bytes and the write single register function code; it then holds
/// the register address of bytes 1 and 2 and the value of bytes 3 and 4,
/// both read most significant byte first.
pub proof fn lemma_write_single_register_request_fields(pdu: Seq<u8>, code: FunctionKind)
    ensures
        write_single_register_request(pdu, code) is Ok <==> pdu.len() >= 5 && code
            == FunctionKind::Normal(FunctionCode::WriteSingleRegister),
        write_single_register_request(pdu, code) matches Ok((address, value)) ==> {
            &&& address == pdu[1] * 256 + pdu[2]
            &&& value == pdu[3] * 256 + pdu[4]
        },
        pdu.len() < 5 ==> write_single_register_request(pdu, code) == Err::<(u16, u16), RequestError>(
            RequestError::NotEnoughData,
        ),
{
}

} // verus!
