use vstd::prelude::*;
use vstd::std_specs::iter::IteratorSpec;
use super::{
    GetRegisterValue, SetRegisterValue, IntoRegIter, IntoRegIterMut, RegIterMut, registers_iter_mut, iter_mut_words,
};
use super::words::{u32_words, u32_of_words, split_u32, join_u32, lemma_u32_words_roundtrip, lemma_u32_of_words_roundtrip, i32_bits, i32_of_bits, i32_to_bits, i32_from_bits, lemma_i32_bits_roundtrip};

verus! {

/// Modbus register that can be converted to and from [i32].
#[derive(Debug, PartialEq, Default, Clone)]
pub struct RegI32 {
    data: [u16; 2],
}

impl View for RegI32 {
    type V = Seq<u16>;

    /// The registers, in order.
    closed spec fn view(&self) -> Seq<u16> {
        self.data@
    }
}

impl RegI32 {
    /// The register holds 2 words.
    pub proof fn lemma_len(&self)
        ensures
            self@.len() == 2,
    {
    }

    /// The register that holds the words `w`.
    pub closed spec fn from_words(w: Seq<u16>) -> RegI32 {
        RegI32 { data: [w[0], w[1]] }
    }

    /// Creates a new [i32] based register.
    pub fn new(value: i32) -> (r: RegI32)
        ensures
            r@ == reg_i32_words(value),
            r == RegI32::from_words(reg_i32_words(value)),
    {
        let w: [u16; 2] = split_u32(i32_to_bits(value));
        let r = RegI32 { data: [w[0], w[1]] };
        assert(r@ =~= reg_i32_words(value));
        r
    }

    /// The registers, in order.
    pub fn registers(&self) -> (r: &[u16])
        ensures
            r@ == self@,
    {
        self.data.as_slice()
    }

    /// The registers, in order, for writing.
    pub fn registers_mut(&mut self) -> (r: &mut [u16])
        ensures
            r@ == old(self)@,
            final(self)@ == final(r)@,
    {
        &mut self.data
    }

    /// The value the registers hold.
    fn value(&self) -> (r: i32)
        ensures
            r == reg_i32_value(self@),
    {
        i32_from_bits(join_u32(self.data[0], self.data[1]))
    }
}

/// The registers that hold `v`.
pub open spec fn reg_i32_words(v: i32) -> Seq<u16> {
    u32_words(i32_bits(v))
}

/// The value that the registers `w` hold.
pub open spec fn reg_i32_value(w: Seq<u16>) -> i32 {
    i32_of_bits(u32_of_words(w))
}

/// A register set from an `i32` reads the same `i32` back, and every pair of words reads back
/// as set.
pub proof fn lemma_i32_roundtrip(v: i32, w: Seq<u16>)
    requires
        w.len() == 2,
    ensures
        reg_i32_value(reg_i32_words(v)) == v,
        reg_i32_words(reg_i32_value(w)) == w,
{
    lemma_u32_words_roundtrip(i32_bits(v));
    lemma_u32_of_words_roundtrip(w);
    lemma_i32_bits_roundtrip(v, u32_of_words(w));
    assert(u32_words(i32_bits(i32_of_bits(u32_of_words(w)))) =~= w);
}

impl From<i32> for RegI32 {
    fn from(value: i32) -> (r: RegI32)
        ensures
            r@ == reg_i32_words(value),
    {
        RegI32::new(value)
    }
}

impl vstd::std_specs::convert::FromSpecImpl<i32> for RegI32 {
    open spec fn obeys_from_spec() -> bool {
        true
    }

    open spec fn from_spec(v: i32) -> RegI32 {
        RegI32::from_words(reg_i32_words(v))
    }
}

impl From<&i32> for RegI32 {
    fn from(value: &i32) -> (r: RegI32)
        ensures
            r@ == reg_i32_words(*value),
    {
        RegI32::new(*value)
    }
}

impl vstd::std_specs::convert::FromSpecImpl<&i32> for RegI32 {
    open spec fn obeys_from_spec() -> bool {
        true
    }

    open spec fn from_spec(v: &i32) -> RegI32 {
        RegI32::from_words(reg_i32_words(*v))
    }
}

impl From<RegI32> for i32 {
    fn from(value: RegI32) -> (r: i32)
        ensures
            r == reg_i32_value(value@),
    {
        value.value()
    }
}

impl vstd::std_specs::convert::FromSpecImpl<RegI32> for i32 {
    open spec fn obeys_from_spec() -> bool {
        true
    }

    open spec fn from_spec(v: RegI32) -> i32 {
        reg_i32_value(v@)
    }
}

impl From<&RegI32> for i32 {
    fn from(value: &RegI32) -> (r: i32)
        ensures
            r == reg_i32_value(value@),
    {
        value.value()
    }
}

impl vstd::std_specs::convert::FromSpecImpl<&RegI32> for i32 {
    open spec fn obeys_from_spec() -> bool {
        true
    }

    open spec fn from_spec(v: &RegI32) -> i32 {
        reg_i32_value(v@)
    }
}

impl<'a> IntoIterator for &'a RegI32 {
    type Item = &'a u16;
    type IntoIter = core::slice::Iter<'a, u16>;

    fn into_iter(self) -> (r: Self::IntoIter)
        ensures
            r.remaining() == self@.as_ref(),
    {
        (&self.data).into_iter()
    }
}

impl<'a> IntoIterator for &'a mut RegI32 {
    type Item = &'a mut u16;
    type IntoIter = core::slice::IterMut<'a, u16>;

    fn into_iter(self) -> (r: Self::IntoIter)
        ensures
            iter_mut_words(r) == (*old(self))@,
    {
        registers_iter_mut(&mut self.data)
    }
}

impl<'a> IntoRegIter<'a> for &'a RegI32 {
    type IntoIter = core::slice::Iter<'a, u16>;

    /// The registers, in order.
    open spec fn reg_iter_words(&self) -> Seq<u16> {
        (*self)@
    }

    fn into_reg_iter(self) -> (r: Self::IntoIter)
        ensures
            r.remaining() == self@.as_ref(),
    {
        (&self.data).into_iter()
    }
}

impl IntoRegIterMut for RegI32 {
    /// The registers, in order.
    open spec fn reg_iter_mut_words(&self) -> Seq<u16> {
        self@
    }

    fn into_reg_iter_mut(&mut self) -> (r: RegIterMut<'_>) {
        RegIterMut::new(&mut self.data)
    }
}

impl SetRegisterValue<i32> for RegI32 {
    fn set_value(&mut self, value: i32)
        ensures
            final(self)@ == reg_i32_words(value),
    {
        *self = RegI32::new(value);
    }
}

impl GetRegisterValue<i32> for RegI32 {
    fn get_value(&self) -> (r: i32)
        ensures
            r == reg_i32_value(self@),
    {
        self.value()
    }
}

} // verus!
