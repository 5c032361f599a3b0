use vstd::prelude::*;
use vstd::std_specs::iter::IteratorSpec;
use super::{
    GetRegisterValue, SetRegisterValue, IntoRegIter, IntoRegIterMut, RegIterMut, registers_iter_mut, iter_mut_words,
};
use super::words::{i16_bits, i16_of_bits, i16_to_bits, i16_from_bits, lemma_i16_bits_roundtrip};

verus! {

/// Modbus register that can be converted to and from [i16].
#[derive(Debug, PartialEq, Default, Clone)]
pub struct RegI16 {
    data: [u16; 1],
}

impl View for RegI16 {
    type V = Seq<u16>;

    /// The registers, in order.
    closed spec fn view(&self) -> Seq<u16> {
        self.data@
    }
}

impl RegI16 {
    /// The register holds 1 word.
    pub proof fn lemma_len(&self)
        ensures
            self@.len() == 1,
    {
    }

    /// The register that holds the words `w`.
    pub closed spec fn from_words(w: Seq<u16>) -> RegI16 {
        RegI16 { data: [w[0]] }
    }

    /// Creates a new [i16] based register.
    pub fn new(value: i16) -> (r: RegI16)
        ensures
            r@ == reg_i16_words(value),
            r == RegI16::from_words(reg_i16_words(value)),
    {
        let w: [u16; 1] = [i16_to_bits(value)];
        let r = RegI16 { data: [w[0]] };
        assert(r@ =~= reg_i16_words(value));
        r
    }

    /// The registers, in order.
    pub fn registers(&self) -> (r: &[u16])
        ensures
            r@ == self@,
    {
        self.data.as_slice()
    }

    /// The registers, in order, for writing.
    pub fn registers_mut(&mut self) -> (r: &mut [u16])
        ensures
            r@ == old(self)@,
            final(self)@ == final(r)@,
    {
        &mut self.data
    }

    /// The value the registers hold.
    fn value(&self) -> (r: i16)
        ensures
            r == reg_i16_value(self@),
    {
        i16_from_bits(self.data[0])
    }
}

/// The registers that hold `v`.
pub open spec fn reg_i16_words(v: i16) -> Seq<u16> {
    seq![i16_bits(v)]
}

/// The value that the registers `w` hold.
pub open spec fn reg_i16_value(w: Seq<u16>) -> i16 {
    i16_of_bits(w[0])
}

/// A register set from an `i16` reads the same `i16` back, and every word reads back as set.
pub proof fn lemma_i16_roundtrip(v: i16, w: Seq<u16>)
    requires
        w.len() == 1,
    ensures
        reg_i16_value(reg_i16_words(v)) == v,
        reg_i16_words(reg_i16_value(w)) == w,
{
    lemma_i16_bits_roundtrip(v, w[0]);
    assert(seq![i16_bits(i16_of_bits(w[0]))] =~= w);
}

impl From<i16> for RegI16 {
    fn from(value: i16) -> (r: RegI16)
        ensures
            r@ == reg_i16_words(value),
    {
        RegI16::new(value)
    }
}

impl vstd::std_specs::convert::FromSpecImpl<i16> for RegI16 {
    open spec fn obeys_from_spec() -> bool {
        true
    }

    open spec fn from_spec(v: i16) -> RegI16 {
        RegI16::from_words(reg_i16_words(v))
    }
}

impl From<&i16> for RegI16 {
    fn from(value: &i16) -> (r: RegI16)
        ensures
            r@ == reg_i16_words(*value),
    {
        RegI16::new(*value)
    }
}

impl vstd::std_specs::convert::FromSpecImpl<&i16> for RegI16 {
    open spec fn obeys_from_spec() -> bool {
        true
    }

    open spec fn from_spec(v: &i16) -> RegI16 {
        RegI16::from_words(reg_i16_words(*v))
    }
}

impl From<RegI16> for i16 {
    fn from(value: RegI16) -> (r: i16)
        ensures
            r == reg_i16_value(value@),
    {
        value.value()
    }
}

impl vstd::std_specs::convert::FromSpecImpl<RegI16> for i16 {
    open spec fn obeys_from_spec() -> bool {
        true
    }

    open spec fn from_spec(v: RegI16) -> i16 {
        reg_i16_value(v@)
    }
}

impl From<&RegI16> for i16 {
    fn from(value: &RegI16) -> (r: i16)
        ensures
            r == reg_i16_value(value@),
    {
        value.value()
    }
}

impl vstd::std_specs::convert::FromSpecImpl<&RegI16> for i16 {
    open spec fn obeys_from_spec() -> bool {
        true
    }

    open spec fn from_spec(v: &RegI16) -> i16 {
        reg_i16_value(v@)
    }
}

impl<'a> IntoIterator for &'a RegI16 {
    type Item = &'a u16;
    type IntoIter = core::slice::Iter<'a, u16>;

    fn into_iter(self) -> (r: Self::IntoIter)
        ensures
            r.remaining() == self@.as_ref(),
    {
        (&self.data).into_iter()
    }
}

impl<'a> IntoIterator for &'a mut RegI16 {
    type Item = &'a mut u16;
    type IntoIter = core::slice::IterMut<'a, u16>;

    fn into_iter(self) -> (r: Self::IntoIter)
        ensures
            iter_mut_words(r) == (*old(self))@,
    {
        registers_iter_mut(&mut self.data)
    }
}

impl<'a> IntoRegIter<'a> for &'a RegI16 {
    type IntoIter = core::slice::Iter<'a, u16>;

    /// The registers, in order.
    open spec fn reg_iter_words(&self) -> Seq<u16> {
        (*self)@
    }

    fn into_reg_iter(self) -> (r: Self::IntoIter)
        ensures
            r.remaining() == self@.as_ref(),
    {
        (&self.data).into_iter()
    }
}

impl IntoRegIterMut for RegI16 {
    /// The registers, in order.
    open spec fn reg_iter_mut_words(&self) -> Seq<u16> {
        self@
    }

    fn into_reg_iter_mut(&mut self) -> (r: RegIterMut<'_>) {
        RegIterMut::new(&mut self.data)
    }
}

impl SetRegisterValue<i16> for RegI16 {
    fn set_value(&mut self, value: i16)
        ensures
            final(self)@ == reg_i16_words(value),
    {
        *self = RegI16::new(value);
    }
}

impl GetRegisterValue<i16> for RegI16 {
    fn get_value(&self) -> (r: i16)
        ensures
            r == reg_i16_value(self@),
    {
        self.value()
    }
}

} // verus!
