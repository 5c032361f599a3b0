use vstd::prelude::*;
use crate::{ExceptionCode, FunctionCode, FunctionKind};
use crate::encode::FrameEncoder;
use crate::exception::exception_code_byte;
use crate::wire::{hi_byte, lo_byte, u16_hi, u16_lo, be_u16_at, lemma_be_u16_roundtrip};
use crate::codes::{function_kind_byte, function_kind_from_byte, lemma_function_kind_roundtrip};
use crate::decode::response::write_single_register::write_single_register_response_check;

verus! {

// ── EncodeError ──

#[non_exhaustive]
#[derive(Debug, PartialEq, Eq, Clone, Copy, Structural)]
pub enum EncodeError {
    NotEnoughData,
}

// ── Response ──

/// A write single register response: the written register and value, or
/// an exception.
#[derive(Debug, PartialEq, Eq, Clone, Copy, Structural)]
pub enum Response {
    Normal { register_address: u16, register_value: u16 },
    Exception(ExceptionCode),
}

impl Response {
    pub const MAX_PAYLOAD_LENGTH: usize = 4;

    pub fn new(register_address: u16, register_value: u16) -> (r: Response)
        ensures
            r == (Response::Normal { register_address, register_value }),
    {
        Response::Normal { register_address, register_value }
    }

    pub fn new_exception(code: ExceptionCode) -> (r: Response)
        ensures
            r == Response::Exception(code),
    {
        Response::Exception(code)
    }

    /// Writes the response into the payload of `frame` and finishes it:
    /// register address and value, or the exception code.
    pub fn encode<F: FrameEncoder + ?Sized>(&self, frame: &mut F) -> (r: Result<(), EncodeError>)
        ensures
            match *self {
                Response::Normal { register_address, register_value } => {
                    let payload = final(frame).spec_payload();
                    if old(frame).spec_payload().len() < 4 {
                        &&& r == Err::<(), EncodeError>(EncodeError::NotEnoughData)
                        &&& payload == old(frame).spec_payload()
                        &&& final(frame).spec_finalized() == old(frame).spec_finalized()
                    } else {
                        &&& r == Ok::<(), EncodeError>(())
                        &&& payload.len() == old(frame).spec_payload().len()
                        &&& payload.take(4) == seq![
                            hi_byte(register_address),
                            lo_byte(register_address),
                            hi_byte(register_value),
                            lo_byte(register_value),
                        ]
                        &&& forall|i: int|
                            4 <= i < payload.len() ==> #[trigger] payload[i] == old(
                                frame,
                            ).spec_payload()[i]
                        &&& final(frame).spec_finalized() == Some(
                            (FunctionKind::Normal(FunctionCode::WriteSingleRegister), 4usize),
                        )
                    }
                },
                Response::Exception(code) => {
                    let payload = final(frame).spec_payload();
                    if old(frame).spec_payload().len() == 0 {
                        &&& r == Err::<(), EncodeError>(EncodeError::NotEnoughData)
                        &&& payload == old(frame).spec_payload()
                        &&& final(frame).spec_finalized() == old(frame).spec_finalized()
                    } else {
                        &&& r == Ok::<(), EncodeError>(())
                        &&& payload.len() == old(frame).spec_payload().len()
                        &&& payload[0] == exception_code_byte(code)
                        &&& forall|i: int|
                            1 <= i < payload.len() ==> #[trigger] payload[i] == old(
                                frame,
                            ).spec_payload()[i]
                        &&& final(frame).spec_finalized() == Some(
                            (FunctionKind::Exception(FunctionCode::WriteSingleRegister), 1usize),
                        )
                    }
                },
            },
    {
        match *self {
            Response::Normal { register_address, register_value } => {
                let payload = frame.payload_mut();
                if payload.len() < Self::MAX_PAYLOAD_LENGTH {
                    return Err(EncodeError::NotEnoughData);
                }

                // register address
                payload[0] = u16_hi(register_address);
                payload[1] = u16_lo(register_address);

                // register value
                payload[2] = u16_hi(register_value);
                payload[3] = u16_lo(register_value);

                proof {
                    assert(payload@.take(4) =~= seq![
                        hi_byte(register_address),
                        lo_byte(register_address),
                        hi_byte(register_value),
                        lo_byte(register_value),
                    ]);
                }

                frame.finalize(
                    FunctionKind::Normal(FunctionCode::WriteSingleRegister),
                    Self::MAX_PAYLOAD_LENGTH,
                );
                Ok(())
            },
            Response::Exception(code) => {
                let payload = frame.payload_mut();
                if payload.len() == 0 {
                    return Err(EncodeError::NotEnoughData);
                }
                let raw = u8::from(code);
                payload[0] = raw;

                frame.finalize(FunctionKind::Exception(FunctionCode::WriteSingleRegister), 1);
                Ok(())
            },
        }
    }
}

/// The PDU of a write single register response that `encode` writes (its
/// function code followed by the four payload bytes) passes the response
/// decoder's checks, and the decoder reads back the register address and
/// value that were encoded.
pub proof fn lemma_write_single_register_response_roundtrip(
    register_address: u16,
    register_value: u16,
)
    ensures
        ({
            let code = FunctionKind::Normal(FunctionCode::WriteSingleRegister);
            let pdu = seq![function_kind_byte(code)] + seq![
                hi_byte(register_address),
                lo_byte(register_address),
                hi_byte(register_value),
                lo_byte(register_value),
            ];
            &&& write_single_register_response_check(pdu, function_kind_from_byte(pdu[0])) is Ok
            &&& be_u16_at(pdu, 1) == register_address
            &&& be_u16_at(pdu, 3) == register_value
        }),
{
    let code = FunctionKind::Normal(FunctionCode::WriteSingleRegister);
    lemma_function_kind_roundtrip(code);
    lemma_be_u16_roundtrip(register_address);
    lemma_be_u16_roundtrip(register_value);
}

} // verus!
