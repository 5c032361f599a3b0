use vstd::prelude::*;
use vstd::std_specs::iter::IteratorSpec;
use super::{
    GetRegisterValue, SetRegisterValue, IntoRegIter, IntoRegIterMut, RegIterMut, registers_iter_mut, iter_mut_words,
};
use super::words::{i8_bits, i8_of_bits, i8_to_bits, i8_from_bits, lemma_i8_bits_roundtrip};

verus! {

/// Modbus register that can be converted to and from [i8].
#[derive(Debug, PartialEq, Default, Clone)]
pub struct RegI8 {
    data: [u16; 1],
}

impl View for RegI8 {
    type V = Seq<u16>;

    /// The registers, in order.
    closed spec fn view(&self) -> Seq<u16> {
        self.data@
    }
}

impl RegI8 {
    /// The register holds 1 word.
    pub proof fn lemma_len(&self)
        ensures
            self@.len() == 1,
    {
    }

    /// The register that holds the words `w`.
    pub closed spec fn from_words(w: Seq<u16>) -> RegI8 {
        RegI8 { data: [w[0]] }
    }

    /// Creates a new [i8] based register.
    pub fn new(value: i8) -> (r: RegI8)
        ensures
            r@ == reg_i8_words(value),
            r == RegI8::from_words(reg_i8_words(value)),
    {
        let w: [u16; 1] = [i8_to_bits(value) as u16];
        let r = RegI8 { data: [w[0]] };
        assert(r@ =~= reg_i8_words(value));
        r
    }

    /// The registers, in order.
    pub fn registers(&self) -> (r: &[u16])
        ensures
            r@ == self@,
    {
        self.data.as_slice()
    }

    /// The registers, in order, for writing.
    pub fn registers_mut(&mut self) -> (r: &mut [u16])
        ensures
            r@ == old(self)@,
            final(self)@ == final(r)@,
    {
        &mut self.data
    }

    /// The value the registers hold.
    fn value(&self) -> (r: i8)
        ensures
            r == reg_i8_value(self@),
    {
        i8_from_bits((self.data[0] % 0x100) as u8)
    }
}

/// The registers that hold `v`.
pub open spec fn reg_i8_words(v: i8) -> Seq<u16> {
    seq![i8_bits(v) as u16]
}

/// The value that the registers `w` hold.
pub open spec fn reg_i8_value(w: Seq<u16>) -> i8 {
    i8_of_bits((w[0] % 0x100) as u8)
}

/// A register set from an `i8` reads the same `i8` back; a word reads back as set exactly
/// when it fits in a byte.
pub proof fn lemma_i8_roundtrip(v: i8, w: Seq<u16>)
    requires
        w.len() == 1,
    ensures
        reg_i8_value(reg_i8_words(v)) == v,
        reg_i8_words(reg_i8_value(w)) == w <==> w[0] < 0x100,
{
    lemma_i8_bits_roundtrip(v, 0);
    lemma_i8_bits_roundtrip(0, (w[0] % 0x100) as u8);
    assert(w[0] < 0x100 ==> seq![i8_bits(i8_of_bits((w[0] % 0x100) as u8)) as u16] =~= w);
}

impl From<i8> for RegI8 {
    fn from(value: i8) -> (r: RegI8)
        ensures
            r@ == reg_i8_words(value),
    {
        RegI8::new(value)
    }
}

impl vstd::std_specs::convert::FromSpecImpl<i8> for RegI8 {
    open spec fn obeys_from_spec() -> bool {
        true
    }

    open spec fn from_spec(v: i8) -> RegI8 {
        RegI8::from_words(reg_i8_words(v))
    }
}

impl From<&i8> for RegI8 {
    fn from(value: &i8) -> (r: RegI8)
        ensures
            r@ == reg_i8_words(*value),
    {
        RegI8::new(*value)
    }
}

impl vstd::std_specs::convert::FromSpecImpl<&i8> for RegI8 {
    open spec fn obeys_from_spec() -> bool {
        true
    }

    open spec fn from_spec(v: &i8) -> RegI8 {
        RegI8::from_words(reg_i8_words(*v))
    }
}

impl From<RegI8> for i8 {
    fn from(value: RegI8) -> (r: i8)
        ensures
            r == reg_i8_value(value@),
    {
        value.value()
    }
}

impl vstd::std_specs::convert::FromSpecImpl<RegI8> for i8 {
    open spec fn obeys_from_spec() -> bool {
        true
    }

    open spec fn from_spec(v: RegI8) -> i8 {
        reg_i8_value(v@)
    }
}

impl From<&RegI8> for i8 {
    fn from(value: &RegI8) -> (r: i8)
        ensures
            r == reg_i8_value(value@),
    {
        value.value()
    }
}

impl vstd::std_specs::convert::FromSpecImpl<&RegI8> for i8 {
    open spec fn obeys_from_spec() -> bool {
        true
    }

    open spec fn from_spec(v: &RegI8) -> i8 {
        reg_i8_value(v@)
    }
}

impl<'a> IntoIterator for &'a RegI8 {
    type Item = &'a u16;
    type IntoIter = core::slice::Iter<'a, u16>;

    fn into_iter(self) -> (r: Self::IntoIter)
        ensures
            r.remaining() == self@.as_ref(),
    {
        (&self.data).into_iter()
    }
}

impl<'a> IntoIterator for &'a mut RegI8 {
    type Item = &'a mut u16;
    type IntoIter = core::slice::IterMut<'a, u16>;

    fn into_iter(self) -> (r: Self::IntoIter)
        ensures
            iter_mut_words(r) == (*old(self))@,
    {
        registers_iter_mut(&mut self.data)
    }
}

impl<'a> IntoRegIter<'a> for &'a RegI8 {
    type IntoIter = core::slice::Iter<'a, u16>;

    /// The registers, in order.
    open spec fn reg_iter_words(&self) -> Seq<u16> {
        (*self)@
    }

    fn into_reg_iter(self) -> (r: Self::IntoIter)
        ensures
            r.remaining() == self@.as_ref(),
    {
        (&self.data).into_iter()
    }
}

impl IntoRegIterMut for RegI8 {
    /// The registers, in order.
    open spec fn reg_iter_mut_words(&self) -> Seq<u16> {
        self@
    }

    fn into_reg_iter_mut(&mut self) -> (r: RegIterMut<'_>) {
        RegIterMut::new(&mut self.data)
    }
}

impl SetRegisterValue<i8> for RegI8 {
    fn set_value(&mut self, value: i8)
        ensures
            final(self)@ == reg_i8_words(value),
    {
        *self = RegI8::new(value);
    }
}

impl GetRegisterValue<i8> for RegI8 {
    fn get_value(&self) -> (r: i8)
        ensures
            r == reg_i8_value(self@),
    {
        self.value()
    }
}

} // verus!
