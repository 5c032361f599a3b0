use vstd::prelude::*;
use crate::PduDataMut;
use crate::wire::{be_u16, hi_byte, lo_byte, u16_hi, u16_lo};

verus! {

/// Writes the register values of a read holding registers response into a
/// PDU: byte count at offset one, then two bytes per register, most
/// significant first.
pub struct ReadHoldingRegistersResponseBuilder<'a, T> where T: PduDataMut {
    pdu: &'a mut T,
    registers: &'a [u16],
    quantity_of_registers: u16,
}

/// The number of registers a response built from `values` for `quantity`
/// requested registers holds.
pub open spec fn response_register_count(values: Seq<u16>, quantity: u16) -> int {
    if (quantity as int) < values.len() {
        quantity as int
    } else {
        values.len() as int
    }
}

impl<'a, T: PduDataMut> ReadHoldingRegistersResponseBuilder<'a, T> {
    /// The bytes of the PDU being written.
    pub closed spec fn pdu_bytes(&self) -> Seq<u8> {
        self.pdu.spec_pdu_data()
    }

    /// Whether the PDU can be handed out.
    pub closed spec fn pdu_available(&self) -> bool {
        self.pdu.spec_pdu_available()
    }

    /// The register values to write.
    pub closed spec fn register_values(&self) -> Seq<u16> {
        self.registers@
    }

    /// The number of registers requested.
    pub closed spec fn requested(&self) -> u16 {
        self.quantity_of_registers
    }

    /// The reference to the caller's PDU, whose final value the caller's
    /// PDU ends as.
    pub closed spec fn pdu_ref(&self) -> &'a mut T {
        self.pdu
    }

    /// The PDU bytes and availability are those of the borrowed PDU; once
    /// the builder is changed no more, the borrowed PDU ends as it is now.
    pub proof fn lemma_resolved(&self)
        requires
            has_resolved(*self),
        ensures
            *final(self.pdu_ref()) == *self.pdu_ref(),
            (*self.pdu_ref()).spec_pdu_data() == self.pdu_bytes(),
            (*self.pdu_ref()).spec_pdu_available() == self.pdu_available(),
    {
    }

    pub fn new(pdu: &'a mut T, registers: &'a [u16], quantity_of_registers: u16) -> (r:
        ReadHoldingRegistersResponseBuilder<'a, T>)
        ensures
            r.pdu_bytes() == old(pdu).spec_pdu_data(),
            r.pdu_available() == old(pdu).spec_pdu_available(),
            r.register_values() == registers@,
            r.requested() == quantity_of_registers,
            *final(pdu) == *final(r.pdu_ref()),
    {
        ReadHoldingRegistersResponseBuilder { pdu, registers, quantity_of_registers }
    }

    /// Writes as many register values as were requested and given, then the
    /// byte count; fails when the PDU has no room for them, after writing
    /// the register bytes that fit.
    pub fn encode(&mut self) -> (r: Result<u16, ()>)
        requires
            old(self).pdu_available(),
            old(self).pdu_bytes().len() >= 2 || response_register_count(
                old(self).register_values(),
                old(self).requested(),
            ) > 0,
            old(self).pdu_bytes().len() <= 0xFFFF || 2 + 2 * response_register_count(
                old(self).register_values(),
                old(self).requested(),
            ) <= 0xFFFF,
        ensures
            ({
                let n = response_register_count(old(self).register_values(), old(self).requested());
                let before = old(self).pdu_bytes();
                let pdu = final(self).pdu_bytes();
                let values = old(self).register_values();
                &&& *final(final(self).pdu_ref()) == *final(old(self).pdu_ref())
                &&& final(self).register_values() == values
                &&& final(self).requested() == old(self).requested()
                &&& final(self).pdu_available()
                &&& pdu.len() == before.len()
                &&& (r is Ok <==> 2 + 2 * n <= pdu.len())
                &&& r is Ok ==> {
                    &&& r == Ok::<u16, ()>((2 + 2 * n) as u16)
                    &&& pdu[1] == ((2 * n) % 256) as u8
                    &&& pdu[0] == before[0]
                    &&& forall|i: int|
                        0 <= i < n ==> be_u16(#[trigger] pdu[2 + 2 * i], pdu[2 + 2 * i + 1])
                            == values[i]
                    &&& forall|i: int| 2 + 2 * n <= i < pdu.len() ==> #[trigger] pdu[i] == before[i]
                }
                &&& r is Err ==> {
                    let m = fitting_registers(pdu.len() as int);
                    &&& m < n
                    &&& forall|i: int|
                        0 <= i < m ==> be_u16(#[trigger] pdu[2 + 2 * i], pdu[2 + 2 * i + 1])
                            == values[i]
                    &&& has_half_register(pdu.len() as int) ==> pdu[2 + 2 * m] == hi_byte(values[m])
                    &&& forall|i: int|
                        0 <= i < pdu.len() && (i < 2 || i >= written_end(pdu.len() as int)) ==> #[trigger] pdu[i]
                            == before[i]
                }
            }),
    {
        let n = if (self.quantity_of_registers as usize) < self.registers.len() {
            self.quantity_of_registers as usize
        } else {
            self.registers.len()
        };
        let ghost old_pdu = self.pdu.spec_pdu_data();
        let ghost target = *final(self.pdu);
        let mut idx: usize = 2;
        let mut byte_counter: u16 = 0;
        let mut reg_counter: usize = 0;
        while reg_counter < n
            invariant
                n == response_register_count(self.registers@, self.quantity_of_registers),
                n <= self.registers@.len(),
                reg_counter <= n,
                idx == 2 + 2 * reg_counter,
                byte_counter == 2 * reg_counter,
                self.pdu.spec_pdu_available(),
                self.pdu.spec_pdu_data().len() == old_pdu.len(),
                old_pdu.len() <= 0xFFFF || 2 + 2 * n <= 0xFFFF,
                reg_counter == 0 || idx <= old_pdu.len(),
                self.registers@ == old(self).register_values(),
                self.quantity_of_registers == old(self).requested(),
                old_pdu == old(self).pdu_bytes(),
                *final(self.pdu) == target,
                target == *final(old(self).pdu),
                forall|i: int|
                    0 <= i < reg_counter ==> be_u16(
                        #[trigger] self.pdu.spec_pdu_data()[2 + 2 * i],
                        self.pdu.spec_pdu_data()[2 + 2 * i + 1],
                    ) == self.registers@[i],
                forall|i: int|
                    0 <= i < old_pdu.len() && (i < 2 || i >= idx) ==> #[trigger] self.pdu.spec_pdu_data()[i]
                        == old_pdu[i],
            decreases n - reg_counter,
        {
            let reg_value = self.registers[reg_counter];
            let high = u16_hi(reg_value);
            let low = u16_lo(reg_value);

            let pdu = self.pdu.pdu_data_mut();
            if idx < pdu.len() {
                pdu[idx] = high;
            } else {
                return Err(());
            }
            if idx + 1 < pdu.len() {
                pdu[idx + 1] = low;
            } else {
                return Err(());
            }
            idx += 2;
            byte_counter += 2;
            reg_counter += 1;
        }

        let ghost before = self.pdu.spec_pdu_data();
        let pdu = self.pdu.pdu_data_mut();
        pdu[1] = (byte_counter % 256) as u8;
        proof {
            let after = self.pdu.spec_pdu_data();
            assert(after == before.update(1, (byte_counter % 256) as u8));
            assert forall|i: int| 0 <= i < n implies be_u16(#[trigger] after[2 + 2 * i], after[2 + 2 * i + 1])
                == self.registers@[i] by {
                assert(after[2 + 2 * i] == before[2 + 2 * i]);
                assert(after[2 + 2 * i + 1] == before[2 + 2 * i + 1]);
            }
        }
        Ok(byte_counter + 2)
    }
}

/// The number of registers whose two bytes fit a PDU of `len` bytes after
/// the function code and the byte count.
pub open spec fn fitting_registers(len: int) -> int {
    if len < 2 {
        0
    } else {
        (len - 2) / 2
    }
}

/// Whether a PDU of `len` bytes has room for the high byte of one more
/// register after the registers that fit.
pub open spec fn has_half_register(len: int) -> bool {
    len >= 3 && (len - 2) % 2 == 1
}

/// The end of the register bytes written into a PDU of `len` bytes that
/// cannot hold all of them.
pub open spec fn written_end(len: int) -> int {
    2 + 2 * fitting_registers(len) + if has_half_register(len) {
        1int
    } else {
        0int
    }
}

} // verus!
