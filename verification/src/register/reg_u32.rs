use vstd::prelude::*;
use vstd::std_specs::iter::IteratorSpec;
use super::{
    GetRegisterValue, SetRegisterValue, IntoRegIter, IntoRegIterMut, RegIterMut, registers_iter_mut, iter_mut_words,
};
use super::words::{u32_words, u32_of_words, split_u32, join_u32, lemma_u32_words_roundtrip, lemma_u32_of_words_roundtrip};

verus! {

/// Modbus register that can be converted to and from [u32].
#[derive(Debug, PartialEq, Default, Clone)]
pub struct RegU32 {
    data: [u16; 2],
}

impl View for RegU32 {
    type V = Seq<u16>;

    /// The registers, in order.
    closed spec fn view(&self) -> Seq<u16> {
        self.data@
    }
}

impl RegU32 {
    /// The register holds 2 words.
    pub proof fn lemma_len(&self)
        ensures
            self@.len() == 2,
    {
    }

    /// The register that holds the words `w`.
    pub closed spec fn from_words(w: Seq<u16>) -> RegU32 {
        RegU32 { data: [w[0], w[1]] }
    }

    /// Creates a new [u32] based register.
    pub fn new(value: u32) -> (r: RegU32)
        ensures
            r@ == reg_u32_words(value),
            r == RegU32::from_words(reg_u32_words(value)),
    {
        let w: [u16; 2] = split_u32(value);
        let r = RegU32 { data: [w[0], w[1]] };
        assert(r@ =~= reg_u32_words(value));
        r
    }

    /// The registers, in order.
    pub fn registers(&self) -> (r: &[u16])
        ensures
            r@ == self@,
    {
        self.data.as_slice()
    }

    /// The registers, in order, for writing.
    pub fn registers_mut(&mut self) -> (r: &mut [u16])
        ensures
            r@ == old(self)@,
            final(self)@ == final(r)@,
    {
        &mut self.data
    }

    /// The value the registers hold.
    fn value(&self) -> (r: u32)
        ensures
            r == reg_u32_value(self@),
    {
        join_u32(self.data[0], self.data[1])
    }
}

impl RegU32 {
    /// An iterator over the registers.
    pub fn reg_iter(&self) -> (r: core::slice::Iter<'_, u16>)
        ensures
            r.remaining() == self@.as_ref(),
    {
        (&self.data).into_iter()
    }

    /// An iterator that hands out the registers for writing, in order.
    pub fn reg_iter_mut(&mut self) -> (r: RegU32IterMut<'_>)
        ensures
            r.rest()@ == old(self)@,
            final(self)@ == final(r.rest())@,
    {
        RegU32IterMut::new(self)
    }
}

/// Iterator over the registers of a [RegU32], by index.
pub struct RegU32Iter<'a> {
    value: &'a RegU32,
    index: u8,
}

impl<'a> RegU32Iter<'a> {
    /// The registers handed out so far.
    pub closed spec fn position(&self) -> nat {
        self.index as nat
    }

    /// The register whose registers are walked.
    pub closed spec fn register(&self) -> RegU32 {
        *self.value
    }

    /// Starts at the first register.
    pub fn new(value: &'a RegU32) -> (r: RegU32Iter<'a>)
        ensures
            r.register() == *value,
            r.position() == 0,
    {
        RegU32Iter { value, index: 0 }
    }

    /// The next register, until all 2 have been handed out.
    pub fn next(&mut self) -> (r: Option<&'a u16>)
        ensures
            final(self).register() == old(self).register(),
            old(self).position() < 2 ==> r == Some(&old(self).register()@[old(self).position() as int])
                && final(self).position() == old(self).position() + 1,
            old(self).position() >= 2 ==> r is None && final(self).position() == old(self).position(),
    {
        if self.index < 2 {
            let idx = self.index as usize;
            self.index = self.index + 1;
            Some(&self.value.data[idx])
        } else {
            None
        }
    }
}

/// Iterator that hands out the registers of a [RegU32] for writing, in
/// order.
pub struct RegU32IterMut<'a> {
    inner: RegIterMut<'a>,
}

impl<'a> RegU32IterMut<'a> {
    /// The registers not yet handed out.
    pub closed spec fn rest(&self) -> &'a mut [u16] {
        self.inner.rest()
    }

    /// Once the iterator is advanced no more, the registers it has not
    /// handed out end as they are now.
    pub proof fn lemma_resolved(&self)
        requires
            has_resolved(*self),
        ensures
            final(self.rest())@ == self.rest()@,
    {
        self.inner.lemma_resolved();
    }

    /// Starts at the first register; what is written through the iterator
    /// ends up in the register.
    pub fn new(value: &'a mut RegU32) -> (r: RegU32IterMut<'a>)
        ensures
            r.rest()@ == old(value)@,
            final(value)@ == final(r.rest())@,
    {
        RegU32IterMut { inner: value.into_reg_iter_mut() }
    }

    /// The next register, for writing; `None` once all are handed out.
    pub fn next(&mut self) -> (r: Option<&'a mut u16>)
        ensures
            old(self).rest()@.len() == 0 ==> r is None && final(self).rest()@ == old(self).rest()@
                && final(old(self).rest())@ == final(final(self).rest())@,
            old(self).rest()@.len() > 0 ==> r is Some && *r->0 == old(self).rest()@[0]
                && final(self).rest()@ == old(self).rest()@.skip(1) && final(old(self).rest())@
                == seq![*final(r->0)] + final(final(self).rest())@,
    {
        self.inner.next()
    }
}

/// The registers that hold `v`.
pub open spec fn reg_u32_words(v: u32) -> Seq<u16> {
    u32_words(v)
}

/// The value that the registers `w` hold.
pub open spec fn reg_u32_value(w: Seq<u16>) -> u32 {
    u32_of_words(w)
}

/// A register set from a `u32` reads the same `u32` back, and every pair of words reads back
/// as set.
pub proof fn lemma_u32_roundtrip(v: u32, w: Seq<u16>)
    requires
        w.len() == 2,
    ensures
        reg_u32_value(reg_u32_words(v)) == v,
        reg_u32_words(reg_u32_value(w)) == w,
{
    lemma_u32_words_roundtrip(v);
    lemma_u32_of_words_roundtrip(w);
    assert(u32_words(u32_of_words(w)) =~= w);
}

impl From<u32> for RegU32 {
    fn from(value: u32) -> (r: RegU32)
        ensures
            r@ == reg_u32_words(value),
    {
        RegU32::new(value)
    }
}

impl vstd::std_specs::convert::FromSpecImpl<u32> for RegU32 {
    open spec fn obeys_from_spec() -> bool {
        true
    }

    open spec fn from_spec(v: u32) -> RegU32 {
        RegU32::from_words(reg_u32_words(v))
    }
}

impl From<&u32> for RegU32 {
    fn from(value: &u32) -> (r: RegU32)
        ensures
            r@ == reg_u32_words(*value),
    {
        RegU32::new(*value)
    }
}

impl vstd::std_specs::convert::FromSpecImpl<&u32> for RegU32 {
    open spec fn obeys_from_spec() -> bool {
        true
    }

    open spec fn from_spec(v: &u32) -> RegU32 {
        RegU32::from_words(reg_u32_words(*v))
    }
}

impl From<RegU32> for u32 {
    fn from(value: RegU32) -> (r: u32)
        ensures
            r == reg_u32_value(value@),
    {
        value.value()
    }
}

impl vstd::std_specs::convert::FromSpecImpl<RegU32> for u32 {
    open spec fn obeys_from_spec() -> bool {
        true
    }

    open spec fn from_spec(v: RegU32) -> u32 {
        reg_u32_value(v@)
    }
}

impl From<&RegU32> for u32 {
    fn from(value: &RegU32) -> (r: u32)
        ensures
            r == reg_u32_value(value@),
    {
        value.value()
    }
}

impl vstd::std_specs::convert::FromSpecImpl<&RegU32> for u32 {
    open spec fn obeys_from_spec() -> bool {
        true
    }

    open spec fn from_spec(v: &RegU32) -> u32 {
        reg_u32_value(v@)
    }
}

impl<'a> IntoIterator for &'a RegU32 {
    type Item = &'a u16;
    type IntoIter = core::slice::Iter<'a, u16>;

    fn into_iter(self) -> (r: Self::IntoIter)
        ensures
            r.remaining() == self@.as_ref(),
    {
        (&self.data).into_iter()
    }
}

impl<'a> IntoIterator for &'a mut RegU32 {
    type Item = &'a mut u16;
    type IntoIter = core::slice::IterMut<'a, u16>;

    fn into_iter(self) -> (r: Self::IntoIter)
        ensures
            iter_mut_words(r) == (*old(self))@,
    {
        registers_iter_mut(&mut self.data)
    }
}

impl<'a> IntoRegIter<'a> for &'a RegU32 {
    type IntoIter = core::slice::Iter<'a, u16>;

    /// The registers, in order.
    open spec fn reg_iter_words(&self) -> Seq<u16> {
        (*self)@
    }

    fn into_reg_iter(self) -> (r: Self::IntoIter)
        ensures
            r.remaining() == self@.as_ref(),
    {
        (&self.data).into_iter()
    }
}

impl IntoRegIterMut for RegU32 {
    /// The registers, in order.
    open spec fn reg_iter_mut_words(&self) -> Seq<u16> {
        self@
    }

    fn into_reg_iter_mut(&mut self) -> (r: RegIterMut<'_>) {
        RegIterMut::new(&mut self.data)
    }
}

impl SetRegisterValue<u32> for RegU32 {
    fn set_value(&mut self, value: u32)
        ensures
            final(self)@ == reg_u32_words(value),
    {
        *self = RegU32::new(value);
    }
}

impl GetRegisterValue<u32> for RegU32 {
    fn get_value(&self) -> (r: u32)
        ensures
            r == reg_u32_value(self@),
    {
        self.value()
    }
}

} // verus!
