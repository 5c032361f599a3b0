use vstd::prelude::*;
use crate::{FunctionCode, FunctionKind, PduData};
use crate::wire::{be_u16, be_u16_at, u16_from_be};

verus! {

// ── RequestError ──

#[non_exhaustive]
#[derive(Debug, PartialEq, Eq, Clone, Copy, Structural)]
pub enum RequestError {
    NotEnoughData,
    InvalidFunctionCode,
    InvalidQuantityOfRegisters,
    InvalidByteCount,
}

/// Whether a write multiple registers request PDU is taken, or why it is
/// refused: it needs six bytes, the write multiple registers function code,
/// a quantity from 1 to 123, the register bytes its byte count announces,
/// and a byte count of two bytes per register.
pub open spec fn write_multiple_registers_request_check(pdu: Seq<u8>, code: FunctionKind) -> Result<
    (),
    RequestError,
> {
    if pdu.len() < 6 {
        Err(RequestError::NotEnoughData)
    } else if code != FunctionKind::Normal(FunctionCode::WriteMultipleRegisters) {
        Err(RequestError::InvalidFunctionCode)
    } else {
        let quantity_of_registers = be_u16_at(pdu, 3);
        let byte_count = pdu[5];
        if quantity_of_registers > 123 || quantity_of_registers < 1 {
            Err(RequestError::InvalidQuantityOfRegisters)
        } else if pdu.len() < 6 + byte_count {
            Err(RequestError::NotEnoughData)
        } else if 2 * quantity_of_registers != byte_count {
            Err(RequestError::InvalidByteCount)
        } else {
            Ok(())
        }
    }
}

/// The value of register `i` of a write multiple registers request PDU.
pub open spec fn request_register_value(pdu: Seq<u8>, i: int) -> u16 {
    be_u16_at(pdu, 6 + 2 * i)
}

// ── Request ──

/// A view of a write multiple registers request PDU that passed the checks.
pub struct Request<'a, T: PduData + ?Sized> {
    pdu: &'a T,
}

impl<'a, T: PduData + ?Sized> Clone for Request<'a, T> {
    fn clone(&self) -> (r: Self)
        ensures
            r == *self,
    {
        *self
    }
}

impl<'a, T: PduData + ?Sized> Copy for Request<'a, T> {

}

impl<'a, T: PduData + ?Sized> Request<'a, T> {
    pub const MIN_QUANTITY_OF_REGISTERS: u16 = 1;

    pub const MAX_QUANTITY_OF_REGISTERS: u16 = 123;

    #[verifier::type_invariant]
    spec fn checked(&self) -> bool {
        &&& self.pdu.spec_pdu_available()
        &&& write_multiple_registers_request_check(
            self.pdu.spec_pdu_data(),
            self.pdu.spec_function_code(),
        ) is Ok
    }

    /// The bytes of the PDU.
    pub closed spec fn pdu_bytes(&self) -> Seq<u8> {
        self.pdu.spec_pdu_data()
    }

    /// The function kind of the PDU.
    pub closed spec fn pdu_function_code(&self) -> FunctionKind {
        self.pdu.spec_function_code()
    }

    pub fn new(pdu: &'a T) -> (r: Result<Request<'a, T>, RequestError>)
        requires
            pdu.spec_pdu_available(),
        ensures
            match write_multiple_registers_request_check(
                pdu.spec_pdu_data(),
                pdu.spec_function_code(),
            ) {
                Ok(_) => r matches Ok(request) && request.pdu_bytes() == pdu.spec_pdu_data()
                    && request.pdu_function_code() == pdu.spec_function_code(),
                Err(e) => r matches Err(e2) && e2 == e,
            },
    {
        let data = pdu.pdu_data();
        if data.len() < 6 {
            return Err(RequestError::NotEnoughData);
        }

        match pdu.function_code() {
            FunctionKind::Normal(FunctionCode::WriteMultipleRegisters) => {
                let quantity_of_registers = u16_from_be(data[3], data[4]);

                let byte_count = data[5];

                // invalid number of registers
                if (quantity_of_registers > 123) || (quantity_of_registers < 1) {
                    return Err(RequestError::InvalidQuantityOfRegisters);
                }

                // not enough data
                if data.len() < 6 + byte_count as usize {
                    return Err(RequestError::NotEnoughData);
                }

                // invalid byte count
                if 2 * quantity_of_registers != byte_count as u16 {
                    return Err(RequestError::InvalidByteCount);
                }

                Ok(Request { pdu })
            },
            _ => Err(RequestError::InvalidFunctionCode),
        }
    }

    pub fn function_code(&self) -> (r: FunctionKind)
        ensures
            r == self.pdu_function_code(),
            r == FunctionKind::Normal(FunctionCode::WriteMultipleRegisters),
    {
        proof {
            use_type_invariant(self);
        }
        self.pdu.function_code()
    }

    pub fn starting_address(&self) -> (r: u16)
        ensures
            r == be_u16_at(self.pdu_bytes(), 1),
    {
        proof {
            use_type_invariant(self);
        }
        let data = self.pdu.pdu_data();
        u16_from_be(data[1], data[2])
    }

    pub fn quantity_of_registers(&self) -> (r: u16)
        ensures
            r == be_u16_at(self.pdu_bytes(), 3),
            1 <= r <= 123,
    {
        proof {
            use_type_invariant(self);
        }
        let data = self.pdu.pdu_data();
        u16_from_be(data[3], data[4])
    }

    pub fn byte_count(&self) -> (r: u8)
        ensures
            r == self.pdu_bytes()[5],
            r == 2 * be_u16_at(self.pdu_bytes(), 3),
            6 + r <= self.pdu_bytes().len(),
    {
        proof {
            use_type_invariant(self);
        }
        self.pdu.pdu_data()[5]
    }

    /// The register values, two bytes each.
    pub fn register_values(&self) -> (r: RegisterValueIter<'a>)
        ensures
            r.bytes() == self.pdu_bytes().subrange(6, 6 + self.pdu_bytes()[5]),
            r.position() == 0,
    {
        proof {
            use_type_invariant(self);
        }
        let all: &'a [u8] = self.pdu.pdu_data();
        let end = 6 + self.byte_count() as usize;
        let data = &all[6..end];
        RegisterValueIter { data, index: 0 }
    }

    /// The register values, one after another.
    pub fn into_iter(self) -> (r: RegisterValueIter<'a>)
        ensures
            r.bytes() == self.pdu_bytes().subrange(6, 6 + self.pdu_bytes()[5]),
            r.position() == 0,
    {
        self.register_values()
    }

    /// Copies the register values into `dest`, as many as both hold, and
    /// returns how many were copied.
    pub fn write_to(&self, dest: &mut [u16]) -> (r: usize)
        ensures
            r == if (be_u16_at(self.pdu_bytes(), 3) as int) < old(dest)@.len() {
                be_u16_at(self.pdu_bytes(), 3) as int
            } else {
                old(dest)@.len() as int
            },
            final(dest)@.len() == old(dest)@.len(),
            forall|i: int|
                0 <= i < r ==> #[trigger] final(dest)@[i] == request_register_value(
                    self.pdu_bytes(),
                    i,
                ),
            forall|i: int| r <= i < old(dest)@.len() ==> #[trigger] final(dest)@[i] == old(dest)@[i],
    {
        proof {
            use_type_invariant(self);
        }
        let count = self.quantity_of_registers() as usize;
        let all = self.pdu.pdu_data();
        let bytes = &all[6..all.len()];
        let n = if count < dest.len() {
            count
        } else {
            dest.len()
        };
        let ghost pdu = self.pdu_bytes();
        let mut i: usize = 0;
        while i < n
            invariant
                n <= count,
                count == be_u16_at(pdu, 3),
                count <= 123,
                2 * count + 6 <= pdu.len(),
                bytes@ == pdu.subrange(6, pdu.len() as int),
                n <= dest@.len(),
                i <= n,
                dest@.len() == old(dest)@.len(),
                forall|j: int| 0 <= j < i ==> #[trigger] dest@[j] == request_register_value(pdu, j),
                forall|j: int| n <= j < dest@.len() ==> #[trigger] dest@[j] == old(dest)@[j],
            decreases n - i,
        {
            dest[i] = u16_from_be(bytes[i * 2], bytes[i * 2 + 1]);
            i += 1;
        }
        n
    }
}

// ── RegisterValueIter ──

/// The register values of a write multiple registers request, one after
/// another.
#[derive(Debug, PartialEq)]
pub struct RegisterValueIter<'a> {
    data: &'a [u8],
    index: usize,
}

impl<'a> RegisterValueIter<'a> {
    #[verifier::type_invariant]
    spec fn in_range(&self) -> bool {
        self.index <= self.data@.len()
    }

    /// The register bytes.
    pub closed spec fn bytes(&self) -> Seq<u8> {
        self.data@
    }

    /// The number of bytes already handed out.
    pub closed spec fn position(&self) -> nat {
        self.index as nat
    }

    /// The next register value, while two more bytes are left.
    pub fn next(&mut self) -> (r: Option<u16>)
        ensures
            final(self).bytes() == old(self).bytes(),
            old(self).position() + 1 < old(self).bytes().len() ==> r == Some(
                be_u16_at(old(self).bytes(), old(self).position() as int),
            ) && final(self).position() == old(self).position() + 2,
            old(self).position() + 1 >= old(self).bytes().len() ==> r is None
                && final(self).position() == old(self).position(),
    {
        proof {
            use_type_invariant(&*self);
        }
        if self.data.len() - self.index > 1 {
            let value = u16_from_be(self.data[self.index], self.data[self.index + 1]);
            self.index += 2;
            Some(value)
        } else {
            None
        }
    }

    /// A copy that stands at the same place.
    pub fn duplicate(&self) -> (r: RegisterValueIter<'a>)
        ensures
            r.bytes() == self.bytes(),
            r.position() == self.position(),
    {
        proof {
            use_type_invariant(self);
        }
        RegisterValueIter { data: self.data, index: self.index }
    }

    /// The number of values left, as lower and upper bound.
    pub fn size_hint(&self) -> (r: (usize, Option<usize>))
        ensures
            r.0 == (self.bytes().len() - self.position()) / 2,
            r.1 == Some(r.0),
    {
        proof {
            use_type_invariant(self);
        }
        let remaining = (self.data.len() - self.index) / 2;
        (remaining, Some(remaining))
    }
}

/// A write multiple registers request PDU is taken exactly when it has at
/// least six bytes, the write multiple registers function code, a quantity
/// `q` (bytes 3 and 4, most significant first) from 1 to 123, a byte count
/// (byte 5) of `2 * q`, and that many register bytes after it. So the
/// quantity is refused only when it is 0 or above 123, and a one-register
/// request is taken. Its register `i` is the word of bytes `6 + 2 * i` and
/// `7 + 2 * i`, most significant first.
pub proof fn lemma_write_multiple_registers_request_accepted(pdu: Seq<u8>, code: FunctionKind)
    ensures
        write_multiple_registers_request_check(pdu, code) is Ok <==> {
            let q = pdu[3] * 256 + pdu[4];
            &&& pdu.len() >= 6
            &&& code == FunctionKind::Normal(FunctionCode::WriteMultipleRegisters)
            &&& 1 <= q <= 123
            &&& pdu[5] == 2 * q
            &&& pdu.len() >= 6 + 2 * q
        },
        pdu.len() >= 6 && code == FunctionKind::Normal(FunctionCode::WriteMultipleRegisters) && (
        pdu[3] * 256 + pdu[4] == 0 || pdu[3] * 256 + pdu[4] > 123)
            ==> write_multiple_registers_request_check(pdu, code) == Err::<(), RequestError>(
            RequestError::InvalidQuantityOfRegisters,
        ),
        pdu.len() < 6 ==> write_multiple_registers_request_check(pdu, code) == Err::<(), RequestError>(
            RequestError::NotEnoughData,
        ),
        forall|i: int|
            #![trigger request_register_value(pdu, i)]
            0 <= i && 7 + 2 * i < pdu.len() ==> request_register_value(pdu, i) == pdu[6 + 2 * i]
                * 256 + pdu[7 + 2 * i],
{
}

} // verus!
