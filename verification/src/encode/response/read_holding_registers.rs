use vstd::prelude::*;
use crate::{ExceptionCode, FunctionKind, FunctionCode};
use crate::encode::FrameEncoder;
use crate::exception::exception_code_byte;
use crate::wire::{be_u16, u16_hi, u16_lo};

verus! {

// ── EncodeError ──

#[non_exhaustive]
#[derive(Debug, PartialEq, Eq, Clone, Copy, Structural)]
pub enum EncodeError {
    NotEnoughData,
    InvalidQuantityOfRegisters,
}

// ── Response ──

/// A read holding registers response: register values, or an exception.
#[derive(Debug, PartialEq, Clone, Copy)]
pub enum Response<'a> {
    Normal(&'a [u16]),
    Exception(ExceptionCode),
}

impl<'a> Response<'a> {
    pub const MAX_QUANTITY_OF_REGISTERS: usize = 125;

    pub fn new(registers: &'a [u16]) -> (r: Response<'a>)
        ensures
            r matches Response::Normal(regs) && regs@ == registers@,
    {
        Response::Normal(registers)
    }

    pub fn new_exception(code: ExceptionCode) -> (r: Response<'a>)
        ensures
            r == Response::Exception(code),
    {
        Response::Exception(code)
    }

    /// Writes the response into the payload of `frame` and finishes it:
    /// byte count and register values, or the exception code.
    pub fn encode<F: FrameEncoder + ?Sized>(&self, frame: &mut F) -> (r: Result<(), EncodeError>)
        ensures
            match *self {
                Response::Normal(registers) => {
                    let n = registers@.len();
                    let payload = final(frame).spec_payload();
                    if n == 0 || n > 125 {
                        &&& r == Err::<(), EncodeError>(EncodeError::InvalidQuantityOfRegisters)
                        &&& payload == old(frame).spec_payload()
                        &&& final(frame).spec_finalized() == old(frame).spec_finalized()
                    } else if old(frame).spec_payload().len() < 1 + 2 * n {
                        &&& r == Err::<(), EncodeError>(EncodeError::NotEnoughData)
                        &&& payload == old(frame).spec_payload()
                        &&& final(frame).spec_finalized() == old(frame).spec_finalized()
                    } else {
                        &&& r == Ok::<(), EncodeError>(())
                        &&& payload.len() == old(frame).spec_payload().len()
                        &&& payload[0] == 2 * n
                        &&& forall|i: int|
                            0 <= i < n ==> be_u16(#[trigger] payload[1 + 2 * i], payload[2 + 2 * i])
                                == registers@[i]
                        &&& forall|i: int|
                            1 + 2 * n <= i < payload.len() ==> #[trigger] payload[i] == old(
                                frame,
                            ).spec_payload()[i]
                        &&& final(frame).spec_finalized() == Some(
                            (
                                FunctionKind::Normal(FunctionCode::ReadHoldingRegisters),
                                (1 + 2 * n) as usize,
                            ),
                        )
                    }
                },
                Response::Exception(code) => {
                    let payload = final(frame).spec_payload();
                    if old(frame).spec_payload().len() == 0 {
                        &&& r == Err::<(), EncodeError>(EncodeError::NotEnoughData)
                        &&& payload == old(frame).spec_payload()
                        &&& final(frame).spec_finalized() == old(frame).spec_finalized()
                    } else {
                        &&& r == Ok::<(), EncodeError>(())
                        &&& payload.len() == old(frame).spec_payload().len()
                        &&& payload[0] == exception_code_byte(code)
                        &&& forall|i: int|
                            1 <= i < payload.len() ==> #[trigger] payload[i] == old(
                                frame,
                            ).spec_payload()[i]
                        &&& final(frame).spec_finalized() == Some(
                            (FunctionKind::Exception(FunctionCode::ReadHoldingRegisters), 1usize),
                        )
                    }
                },
            },
    {
        match *self {
            Response::Normal(registers) => {
                let count = registers.len();

                if count == 0 || count > 125 {
                    return Err(EncodeError::InvalidQuantityOfRegisters);
                }
                let byte_count = count * 2;

                let payload = frame.payload_mut();
                if payload.len() < 1 + byte_count {
                    return Err(EncodeError::NotEnoughData);
                }

                // Byte count
                payload[0] = byte_count as u8;

                // Register values
                let mut i: usize = 0;
                while i < count
                    invariant
                        count == registers@.len(),
                        1 <= count <= 125,
                        1 + 2 * count <= payload@.len(),
                        payload@.len() == old(frame).spec_payload().len(),
                        payload@[0] == 2 * count,
                        i <= count,
                        forall|j: int|
                            1 + 2 * i <= j < payload@.len() ==> #[trigger] payload@[j] == old(
                                frame,
                            ).spec_payload()[j],
                        forall|j: int|
                            0 <= j < i ==> be_u16(#[trigger] payload@[1 + 2 * j], payload@[2 + 2 * j])
                                == registers@[j],
                    decreases count - i,
                {
                    let value = registers[i];
                    payload[1 + i * 2] = u16_hi(value);
                    payload[1 + i * 2 + 1] = u16_lo(value);
                    i += 1;
                }

                frame.finalize(
                    FunctionKind::Normal(FunctionCode::ReadHoldingRegisters),
                    1 + byte_count,
                );
                Ok(())
            },
            Response::Exception(code) => {
                let payload = frame.payload_mut();
                if payload.len() == 0 {
                    return Err(EncodeError::NotEnoughData);
                }
                let raw = u8::from(code);
                payload[0] = raw;

                frame.finalize(FunctionKind::Exception(FunctionCode::ReadHoldingRegisters), 1);
                Ok(())
            },
        }
    }
}

} // verus!
