use vstd::prelude::*;
use vstd::std_specs::iter::IteratorSpec;
use super::{
    IntoRegIter, IntoRegIterMut, RegIterMut, RegisterData, ReadRegisterData, WriteRegisterData,
    RegisterResult, RegisterError, reachable, read_registers, write_registers, registers_iter_mut, iter_mut_words,
};
use super::words::{u32_words, u32_of_words, split_u32, join_u32, lemma_u32_words_roundtrip};

verus! {

/// Modbus register that holds an IEEE-754 single precision value, most
/// significant word first. The library keeps the value by its bit pattern
/// (`f32::to_bits`).
#[derive(Debug, PartialEq, Default, Clone)]
pub struct RegF32 {
    data: [u16; 2],
}

impl View for RegF32 {
    type V = Seq<u16>;

    /// The registers, in order.
    closed spec fn view(&self) -> Seq<u16> {
        self.data@
    }
}

impl RegF32 {
    /// The register holds two words.
    pub proof fn lemma_len(&self)
        ensures
            self@.len() == 2,
    {
    }

    /// Creates the register of the value with the bit pattern `bits`.
    pub fn from_bits(bits: u32) -> (r: RegF32)
        ensures
            r@ == u32_words(bits),
    {
        let w = split_u32(bits);
        RegF32 { data: w }
    }

    /// The bit pattern of the value the registers hold.
    pub fn to_bits(&self) -> (r: u32)
        ensures
            r == u32_of_words(self@),
    {
        join_u32(self.data[0], self.data[1])
    }

    /// The registers, in order.
    pub fn registers(&self) -> (r: &[u16])
        ensures
            r@ == self@,
    {
        self.data.as_slice()
    }

    /// The registers, in order, for writing.
    pub fn registers_mut(&mut self) -> (r: &mut [u16])
        ensures
            r@ == old(self)@,
            final(self)@ == final(r)@,
    {
        &mut self.data
    }
}

/// The bit pattern a register is made from is the one it gives back.
pub proof fn lemma_f32_bits_roundtrip(bits: u32)
    ensures
        u32_of_words(u32_words(bits)) == bits,
{
    lemma_u32_words_roundtrip(bits);
}

impl<'a> IntoIterator for &'a RegF32 {
    type Item = &'a u16;
    type IntoIter = core::slice::Iter<'a, u16>;

    fn into_iter(self) -> (r: Self::IntoIter)
        ensures
            r.remaining() == self@.as_ref(),
    {
        (&self.data).into_iter()
    }
}

impl<'a> IntoIterator for &'a mut RegF32 {
    type Item = &'a mut u16;
    type IntoIter = core::slice::IterMut<'a, u16>;

    fn into_iter(self) -> (r: Self::IntoIter)
        ensures
            iter_mut_words(r) == (*old(self))@,
    {
        registers_iter_mut(&mut self.data)
    }
}

impl<'a> IntoRegIter<'a> for &'a RegF32 {
    type IntoIter = core::slice::Iter<'a, u16>;

    /// The registers, in order.
    open spec fn reg_iter_words(&self) -> Seq<u16> {
        (*self)@
    }

    fn into_reg_iter(self) -> (r: Self::IntoIter)
        ensures
            r.remaining() == self@.as_ref(),
    {
        (&self.data).into_iter()
    }
}

impl IntoRegIterMut for RegF32 {
    /// The registers, in order.
    open spec fn reg_iter_mut_words(&self) -> Seq<u16> {
        self@
    }

    fn into_reg_iter_mut(&mut self) -> (r: RegIterMut<'_>) {
        RegIterMut::new(&mut self.data)
    }
}

impl RegisterData for RegF32 {
    open spec fn spec_span(&self) -> nat {
        2
    }

    fn register_span(&self) -> (r: usize) {
        2
    }
}

impl ReadRegisterData for RegF32 {
    fn read(&self, offset: usize, buf: &mut [u16]) -> (r: RegisterResult<usize>)
        ensures
            r matches Ok(n) ==> final(buf)@.take(n as int) == self@.subrange(
                offset as int,
                offset + n,
            ),
    {
        read_registers(self.data.as_slice(), offset, buf)
    }
}

impl WriteRegisterData for RegF32 {
    fn write(&mut self, offset: usize, buf: &[u16]) -> (r: RegisterResult<usize>)
        ensures
            match r {
                Ok(n) => final(self)@ == old(self)@.take(offset as int) + buf@.take(n as int) + old(
                    self,
                )@.skip(offset + n),
                Err(_) => final(self)@ == old(self)@,
            },
    {
        write_registers(&mut self.data, offset, buf)
    }
}

} // verus!
