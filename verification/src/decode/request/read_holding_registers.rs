use vstd::prelude::*;
use crate::{FunctionCode, FunctionKind, PduData};
use crate::wire::{be_u16_at, u16_from_be};

verus! {

pub struct RequestDecoder {
    starting_address: u16,
    quantity_of_registers: u16,
}

#[non_exhaustive]
#[derive(Debug, PartialEq, Eq, Clone, Copy, Structural)]
pub enum DecoderError {
    NotEnoughData,
    InvalidQuantityOfRegisters,
    InvalidFunctionCode,
}

/// The most registers one read holding registers request may ask for.
pub open spec fn max_read_quantity() -> u16 {
    125
}

/// The starting address and quantity of registers of a read holding
/// registers request PDU, or why it is refused: it needs five bytes, the
/// read holding registers function code, and a quantity from 1 to 125.
pub open spec fn read_holding_registers_request(pdu: Seq<u8>, code: FunctionKind) -> Result<
    (u16, u16),
    DecoderError,
> {
    if pdu.len() < 5 {
        Err(DecoderError::NotEnoughData)
    } else if code != FunctionKind::Normal(FunctionCode::ReadHoldingRegisters) {
        Err(DecoderError::InvalidFunctionCode)
    } else {
        let starting_address = be_u16_at(pdu, 1);
        let quantity_of_registers = be_u16_at(pdu, 3);
        if quantity_of_registers > max_read_quantity() || quantity_of_registers == 0 {
            Err(DecoderError::InvalidQuantityOfRegisters)
        } else {
            Ok((starting_address, quantity_of_registers))
        }
    }
}

impl RequestDecoder {
    /// The requested starting address.
    pub closed spec fn spec_starting_address(&self) -> u16 {
        self.starting_address
    }

    /// The requested number of registers.
    pub closed spec fn spec_quantity_of_registers(&self) -> u16 {
        self.quantity_of_registers
    }

    pub fn new<P: PduData + ?Sized>(pdu: &P) -> (r: Result<RequestDecoder, DecoderError>)
        requires
            pdu.spec_pdu_available(),
        ensures
            match read_holding_registers_request(pdu.spec_pdu_data(), pdu.spec_function_code()) {
                Ok((starting_address, quantity_of_registers)) => r matches Ok(d) && d.spec_starting_address()
                    == starting_address && d.spec_quantity_of_registers() == quantity_of_registers,
                Err(e) => r == Err::<RequestDecoder, DecoderError>(e),
            },
    {
        let required_length: usize = 5;
        if pdu.pdu_data().len() < required_length {
            Err(DecoderError::NotEnoughData)
        } else {
            let code = pdu.function_code();
            match code {
                FunctionKind::Normal(FunctionCode::ReadHoldingRegisters) => {
                    let data = pdu.pdu_data();
                    let starting_address = u16_from_be(data[1], data[2]);
                    let quantity_of_registers = u16_from_be(data[3], data[4]);

                    // invalid number of registers
                    if (quantity_of_registers > 125) || (quantity_of_registers == 0) {
                        return Err(DecoderError::InvalidQuantityOfRegisters);
                    }
                    Ok(RequestDecoder { starting_address, quantity_of_registers })
                },
                _ => Err(DecoderError::InvalidFunctionCode),
            }
        }
    }

    pub fn function_code(&self) -> (r: FunctionKind)
        ensures
            r == FunctionKind::Normal(FunctionCode::ReadHoldingRegisters),
    {
        FunctionKind::Normal(FunctionCode::ReadHoldingRegisters)
    }

    pub fn starting_address(&self) -> (r: u16)
        ensures
            r == self.spec_starting_address(),
    {
        self.starting_address
    }

    pub fn quantity_of_registers(&self) -> (r: u16)
        ensures
            r == self.spec_quantity_of_registers(),
    {
        self.quantity_of_registers
    }
}

/// A read holding registers request PDU is taken exactly when it has at least
/// five bytes, the read holding registers function code, and a quantity
/// (bytes 3 and 4, most significant first) from 1 to 125; the request then
/// holds the starting address of bytes 1 and 2 and that quantity, both read
/// most significant byte first.
pub proof fn lemma_read_holding_registers_request_fields(pdu: Seq<u8>, code: FunctionKind)
    ensures
        read_holding_registers_request(pdu, code) is Ok <==> pdu.len() >= 5 && code
            == FunctionKind::Normal(FunctionCode::ReadHoldingRegisters) && 1 <= pdu[3] * 256
            + pdu[4] <= 125,
        read_holding_registers_request(pdu, code) matches Ok((starting_address, quantity)) ==> {
            &&& starting_address == pdu[1] * 256 + pdu[2]
            &&& quantity == pdu[3] * 256 + pdu[4]
        },
        pdu.len() < 5 ==> read_holding_registers_request(pdu, code) == Err::<(u16, u16), DecoderError>(
            DecoderError::NotEnoughData,
        ),
        pdu.len() >= 5 && code != FunctionKind::Normal(FunctionCode::ReadHoldingRegisters)
            ==> read_holding_registers_request(pdu, code) == Err::<(u16, u16), DecoderError>(
            DecoderError::InvalidFunctionCode,
        ),
{
}

} // verus!
