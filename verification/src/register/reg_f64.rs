use vstd::prelude::*;
use vstd::std_specs::iter::IteratorSpec;
use super::{
    IntoRegIter, IntoRegIterMut, RegIterMut, RegisterData, ReadRegisterData, WriteRegisterData,
    RegisterResult, RegisterError, reachable, read_registers, write_registers, registers_iter_mut, iter_mut_words,
};
use super::words::{u64_words, u64_of_words, split_u64, join_u64, lemma_u64_words_roundtrip};

verus! {

/// Modbus register that holds an IEEE-754 double precision value, most
/// significant word first. The library keeps the value by its bit pattern
/// (`f64::to_bits`).
#[derive(Debug, PartialEq, Default, Clone)]
pub struct RegF64 {
    data: [u16; 4],
}

impl View for RegF64 {
    type V = Seq<u16>;

    /// The registers, in order.
    closed spec fn view(&self) -> Seq<u16> {
        self.data@
    }
}

impl RegF64 {
    /// The register holds four words.
    pub proof fn lemma_len(&self)
        ensures
            self@.len() == 4,
    {
    }

    /// Creates the register of the value with the bit pattern `bits`.
    pub fn from_bits(bits: u64) -> (r: RegF64)
        ensures
            r@ == u64_words(bits),
    {
        let w = split_u64(bits);
        RegF64 { data: w }
    }

    /// The bit pattern of the value the registers hold.
    pub fn to_bits(&self) -> (r: u64)
        ensures
            r == u64_of_words(self@),
    {
        join_u64(self.data[0], self.data[1], self.data[2], self.data[3])
    }

    /// The registers, in order.
    pub fn registers(&self) -> (r: &[u16])
        ensures
            r@ == self@,
    {
        self.data.as_slice()
    }

    /// The registers, in order, for writing.
    pub fn registers_mut(&mut self) -> (r: &mut [u16])
        ensures
            r@ == old(self)@,
            final(self)@ == final(r)@,
    {
        &mut self.data
    }
}

/// The bit pattern a register is made from is the one it gives back.
pub proof fn lemma_f64_bits_roundtrip(bits: u64)
    ensures
        u64_of_words(u64_words(bits)) == bits,
{
    lemma_u64_words_roundtrip(bits);
}

impl<'a> IntoIterator for &'a RegF64 {
    type Item = &'a u16;
    type IntoIter = core::slice::Iter<'a, u16>;

    fn into_iter(self) -> (r: Self::IntoIter)
        ensures
            r.remaining() == self@.as_ref(),
    {
        (&self.data).into_iter()
    }
}

impl<'a> IntoIterator for &'a mut RegF64 {
    type Item = &'a mut u16;
    type IntoIter = core::slice::IterMut<'a, u16>;

    fn into_iter(self) -> (r: Self::IntoIter)
        ensures
            iter_mut_words(r) == (*old(self))@,
    {
        registers_iter_mut(&mut self.data)
    }
}

impl<'a> IntoRegIter<'a> for &'a RegF64 {
    type IntoIter = core::slice::Iter<'a, u16>;

    /// The registers, in order.
    open spec fn reg_iter_words(&self) -> Seq<u16> {
        (*self)@
    }

    fn into_reg_iter(self) -> (r: Self::IntoIter)
        ensures
            r.remaining() == self@.as_ref(),
    {
        (&self.data).into_iter()
    }
}

impl IntoRegIterMut for RegF64 {
    /// The registers, in order.
    open spec fn reg_iter_mut_words(&self) -> Seq<u16> {
        self@
    }

    fn into_reg_iter_mut(&mut self) -> (r: RegIterMut<'_>) {
        RegIterMut::new(&mut self.data)
    }
}

impl RegisterData for RegF64 {
    open spec fn spec_span(&self) -> nat {
        4
    }

    fn register_span(&self) -> (r: usize) {
        4
    }
}

impl ReadRegisterData for RegF64 {
    fn read(&self, offset: usize, buf: &mut [u16]) -> (r: RegisterResult<usize>)
        ensures
            r matches Ok(n) ==> final(buf)@.take(n as int) == self@.subrange(
                offset as int,
                offset + n,
            ),
    {
        read_registers(self.data.as_slice(), offset, buf)
    }
}

impl WriteRegisterData for RegF64 {
    fn write(&mut self, offset: usize, buf: &[u16]) -> (r: RegisterResult<usize>)
        ensures
            match r {
                Ok(n) => final(self)@ == old(self)@.take(offset as int) + buf@.take(n as int) + old(
                    self,
                )@.skip(offset + n),
                Err(_) => final(self)@ == old(self)@,
            },
    {
        write_registers(&mut self.data, offset, buf)
    }
}

} // verus!
