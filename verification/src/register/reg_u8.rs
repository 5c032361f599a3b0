use vstd::prelude::*;
use vstd::std_specs::iter::IteratorSpec;
use super::{
    GetRegisterValue, SetRegisterValue, IntoRegIter, IntoRegIterMut, RegIterMut, registers_iter_mut, iter_mut_words,
};

verus! {

/// Modbus register that can be converted to and from [u8].
#[derive(Debug, PartialEq, Default, Clone)]
pub struct RegU8 {
    data: [u16; 1],
}

impl View for RegU8 {
    type V = Seq<u16>;

    /// The registers, in order.
    closed spec fn view(&self) -> Seq<u16> {
        self.data@
    }
}

impl RegU8 {
    /// The register holds 1 word.
    pub proof fn lemma_len(&self)
        ensures
            self@.len() == 1,
    {
    }

    /// The register that holds the words `w`.
    pub closed spec fn from_words(w: Seq<u16>) -> RegU8 {
        RegU8 { data: [w[0]] }
    }

    /// Creates a new [u8] based register.
    pub fn new(value: u8) -> (r: RegU8)
        ensures
            r@ == reg_u8_words(value),
            r == RegU8::from_words(reg_u8_words(value)),
    {
        let w: [u16; 1] = [value as u16];
        let r = RegU8 { data: [w[0]] };
        assert(r@ =~= reg_u8_words(value));
        r
    }

    /// The registers, in order.
    pub fn registers(&self) -> (r: &[u16])
        ensures
            r@ == self@,
    {
        self.data.as_slice()
    }

    /// The registers, in order, for writing.
    pub fn registers_mut(&mut self) -> (r: &mut [u16])
        ensures
            r@ == old(self)@,
            final(self)@ == final(r)@,
    {
        &mut self.data
    }

    /// The value the registers hold.
    fn value(&self) -> (r: u8)
        ensures
            r == reg_u8_value(self@),
    {
        (self.data[0] % 0x100) as u8
    }
}

/// The registers that hold `v`.
pub open spec fn reg_u8_words(v: u8) -> Seq<u16> {
    seq![v as u16]
}

/// The value that the registers `w` hold.
pub open spec fn reg_u8_value(w: Seq<u16>) -> u8 {
    (w[0] % 0x100) as u8
}

/// A register set from a `u8` reads the same `u8` back; a word reads back as set exactly when
/// it fits in a byte.
pub proof fn lemma_u8_roundtrip(v: u8, w: Seq<u16>)
    requires
        w.len() == 1,
    ensures
        reg_u8_value(reg_u8_words(v)) == v,
        reg_u8_words(reg_u8_value(w)) == w <==> w[0] < 0x100,
{
    assert(w[0] < 0x100 ==> seq![(w[0] % 0x100) as u8 as u16] =~= w);
}

impl From<u8> for RegU8 {
    fn from(value: u8) -> (r: RegU8)
        ensures
            r@ == reg_u8_words(value),
    {
        RegU8::new(value)
    }
}

impl vstd::std_specs::convert::FromSpecImpl<u8> for RegU8 {
    open spec fn obeys_from_spec() -> bool {
        true
    }

    open spec fn from_spec(v: u8) -> RegU8 {
        RegU8::from_words(reg_u8_words(v))
    }
}

impl From<&u8> for RegU8 {
    fn from(value: &u8) -> (r: RegU8)
        ensures
            r@ == reg_u8_words(*value),
    {
        RegU8::new(*value)
    }
}

impl vstd::std_specs::convert::FromSpecImpl<&u8> for RegU8 {
    open spec fn obeys_from_spec() -> bool {
        true
    }

    open spec fn from_spec(v: &u8) -> RegU8 {
        RegU8::from_words(reg_u8_words(*v))
    }
}

impl From<RegU8> for u8 {
    fn from(value: RegU8) -> (r: u8)
        ensures
            r == reg_u8_value(value@),
    {
        value.value()
    }
}

impl vstd::std_specs::convert::FromSpecImpl<RegU8> for u8 {
    open spec fn obeys_from_spec() -> bool {
        true
    }

    open spec fn from_spec(v: RegU8) -> u8 {
        reg_u8_value(v@)
    }
}

impl From<&RegU8> for u8 {
    fn from(value: &RegU8) -> (r: u8)
        ensures
            r == reg_u8_value(value@),
    {
        value.value()
    }
}

impl vstd::std_specs::convert::FromSpecImpl<&RegU8> for u8 {
    open spec fn obeys_from_spec() -> bool {
        true
    }

    open spec fn from_spec(v: &RegU8) -> u8 {
        reg_u8_value(v@)
    }
}

impl<'a> IntoIterator for &'a RegU8 {
    type Item = &'a u16;
    type IntoIter = core::slice::Iter<'a, u16>;

    fn into_iter(self) -> (r: Self::IntoIter)
        ensures
            r.remaining() == self@.as_ref(),
    {
        (&self.data).into_iter()
    }
}

impl<'a> IntoIterator for &'a mut RegU8 {
    type Item = &'a mut u16;
    type IntoIter = core::slice::IterMut<'a, u16>;

    fn into_iter(self) -> (r: Self::IntoIter)
        ensures
            iter_mut_words(r) == (*old(self))@,
    {
        registers_iter_mut(&mut self.data)
    }
}

impl<'a> IntoRegIter<'a> for &'a RegU8 {
    type IntoIter = core::slice::Iter<'a, u16>;

    /// The registers, in order.
    open spec fn reg_iter_words(&self) -> Seq<u16> {
        (*self)@
    }

    fn into_reg_iter(self) -> (r: Self::IntoIter)
        ensures
            r.remaining() == self@.as_ref(),
    {
        (&self.data).into_iter()
    }
}

impl IntoRegIterMut for RegU8 {
    /// The registers, in order.
    open spec fn reg_iter_mut_words(&self) -> Seq<u16> {
        self@
    }

    fn into_reg_iter_mut(&mut self) -> (r: RegIterMut<'_>) {
        RegIterMut::new(&mut self.data)
    }
}

impl SetRegisterValue<u8> for RegU8 {
    fn set_value(&mut self, value: u8)
        ensures
            final(self)@ == reg_u8_words(value),
    {
        *self = RegU8::new(value);
    }
}

impl GetRegisterValue<u8> for RegU8 {
    fn get_value(&self) -> (r: u8)
        ensures
            r == reg_u8_value(self@),
    {
        self.value()
    }
}

} // verus!
