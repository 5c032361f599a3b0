use vstd::prelude::*;
use vstd::std_specs::iter::IteratorSpec;
use super::{
    GetRegisterValue, SetRegisterValue, IntoRegIter, IntoRegIterMut, RegIterMut, registers_iter_mut, iter_mut_words,
};

verus! {

/// Modbus register that can be converted to and from [u16].
#[derive(Debug, PartialEq, Default, Clone)]
pub struct RegU16 {
    data: [u16; 1],
}

impl View for RegU16 {
    type V = Seq<u16>;

    /// The registers, in order.
    closed spec fn view(&self) -> Seq<u16> {
        self.data@
    }
}

impl RegU16 {
    /// The register holds 1 word.
    pub proof fn lemma_len(&self)
        ensures
            self@.len() == 1,
    {
    }

    /// The register that holds the words `w`.
    pub closed spec fn from_words(w: Seq<u16>) -> RegU16 {
        RegU16 { data: [w[0]] }
    }

    /// Creates a new [u16] based register.
    pub fn new(value: u16) -> (r: RegU16)
        ensures
            r@ == reg_u16_words(value),
            r == RegU16::from_words(reg_u16_words(value)),
    {
        let w: [u16; 1] = [value];
        let r = RegU16 { data: [w[0]] };
        assert(r@ =~= reg_u16_words(value));
        r
    }

    /// The registers, in order.
    pub fn registers(&self) -> (r: &[u16])
        ensures
            r@ == self@,
    {
        self.data.as_slice()
    }

    /// The registers, in order, for writing.
    pub fn registers_mut(&mut self) -> (r: &mut [u16])
        ensures
            r@ == old(self)@,
            final(self)@ == final(r)@,
    {
        &mut self.data
    }

    /// The value the registers hold.
    fn value(&self) -> (r: u16)
        ensures
            r == reg_u16_value(self@),
    {
        self.data[0]
    }
}

/// The registers that hold `v`.
pub open spec fn reg_u16_words(v: u16) -> Seq<u16> {
    seq![v]
}

/// The value that the registers `w` hold.
pub open spec fn reg_u16_value(w: Seq<u16>) -> u16 {
    w[0]
}

/// A register set from a `u16` reads the same `u16` back, and every word reads back as set.
pub proof fn lemma_u16_roundtrip(v: u16, w: Seq<u16>)
    requires
        w.len() == 1,
    ensures
        reg_u16_value(reg_u16_words(v)) == v,
        reg_u16_words(reg_u16_value(w)) == w,
{
    assert(seq![w[0]] =~= w);
}

impl From<u16> for RegU16 {
    fn from(value: u16) -> (r: RegU16)
        ensures
            r@ == reg_u16_words(value),
    {
        RegU16::new(value)
    }
}

impl vstd::std_specs::convert::FromSpecImpl<u16> for RegU16 {
    open spec fn obeys_from_spec() -> bool {
        true
    }

    open spec fn from_spec(v: u16) -> RegU16 {
        RegU16::from_words(reg_u16_words(v))
    }
}

impl From<&u16> for RegU16 {
    fn from(value: &u16) -> (r: RegU16)
        ensures
            r@ == reg_u16_words(*value),
    {
        RegU16::new(*value)
    }
}

impl vstd::std_specs::convert::FromSpecImpl<&u16> for RegU16 {
    open spec fn obeys_from_spec() -> bool {
        true
    }

    open spec fn from_spec(v: &u16) -> RegU16 {
        RegU16::from_words(reg_u16_words(*v))
    }
}

impl From<RegU16> for u16 {
    fn from(value: RegU16) -> (r: u16)
        ensures
            r == reg_u16_value(value@),
    {
        value.value()
    }
}

impl vstd::std_specs::convert::FromSpecImpl<RegU16> for u16 {
    open spec fn obeys_from_spec() -> bool {
        true
    }

    open spec fn from_spec(v: RegU16) -> u16 {
        reg_u16_value(v@)
    }
}

impl From<&RegU16> for u16 {
    fn from(value: &RegU16) -> (r: u16)
        ensures
            r == reg_u16_value(value@),
    {
        value.value()
    }
}

impl vstd::std_specs::convert::FromSpecImpl<&RegU16> for u16 {
    open spec fn obeys_from_spec() -> bool {
        true
    }

    open spec fn from_spec(v: &RegU16) -> u16 {
        reg_u16_value(v@)
    }
}

impl<'a> IntoIterator for &'a RegU16 {
    type Item = &'a u16;
    type IntoIter = core::slice::Iter<'a, u16>;

    fn into_iter(self) -> (r: Self::IntoIter)
        ensures
            r.remaining() == self@.as_ref(),
    {
        (&self.data).into_iter()
    }
}

impl<'a> IntoIterator for &'a mut RegU16 {
    type Item = &'a mut u16;
    type IntoIter = core::slice::IterMut<'a, u16>;

    fn into_iter(self) -> (r: Self::IntoIter)
        ensures
            iter_mut_words(r) == (*old(self))@,
    {
        registers_iter_mut(&mut self.data)
    }
}

impl<'a> IntoRegIter<'a> for &'a RegU16 {
    type IntoIter = core::slice::Iter<'a, u16>;

    /// The registers, in order.
    open spec fn reg_iter_words(&self) -> Seq<u16> {
        (*self)@
    }

    fn into_reg_iter(self) -> (r: Self::IntoIter)
        ensures
            r.remaining() == self@.as_ref(),
    {
        (&self.data).into_iter()
    }
}

impl IntoRegIterMut for RegU16 {
    /// The registers, in order.
    open spec fn reg_iter_mut_words(&self) -> Seq<u16> {
        self@
    }

    fn into_reg_iter_mut(&mut self) -> (r: RegIterMut<'_>) {
        RegIterMut::new(&mut self.data)
    }
}

impl SetRegisterValue<u16> for RegU16 {
    fn set_value(&mut self, value: u16)
        ensures
            final(self)@ == reg_u16_words(value),
    {
        *self = RegU16::new(value);
    }
}

impl GetRegisterValue<u16> for RegU16 {
    fn get_value(&self) -> (r: u16)
        ensures
            r == reg_u16_value(self@),
    {
        self.value()
    }
}

} // verus!
