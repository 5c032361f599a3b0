use vstd::prelude::*;
use vstd::std_specs::iter::IteratorSpec;
use super::{
    GetRegisterValue, SetRegisterValue, IntoRegIter, IntoRegIterMut, RegIterMut, registers_iter_mut, iter_mut_words,
};
use super::words::{u64_words, u64_of_words, split_u64, join_u64, lemma_u64_words_roundtrip, lemma_u64_of_words_roundtrip, i64_bits, i64_of_bits, i64_to_bits, i64_from_bits, lemma_i64_bits_roundtrip};

verus! {

/// Modbus register that can be converted to and from [i64].
#[derive(Debug, PartialEq, Default, Clone)]
pub struct RegI64 {
    data: [u16; 4],
}

impl View for RegI64 {
    type V = Seq<u16>;

    /// The registers, in order.
    closed spec fn view(&self) -> Seq<u16> {
        self.data@
    }
}

impl RegI64 {
    /// The register holds 4 words.
    pub proof fn lemma_len(&self)
        ensures
            self@.len() == 4,
    {
    }

    /// The register that holds the words `w`.
    pub closed spec fn from_words(w: Seq<u16>) -> RegI64 {
        RegI64 { data: [w[0], w[1], w[2], w[3]] }
    }

    /// Creates a new [i64] based register.
    pub fn new(value: i64) -> (r: RegI64)
        ensures
            r@ == reg_i64_words(value),
            r == RegI64::from_words(reg_i64_words(value)),
    {
        let w: [u16; 4] = split_u64(i64_to_bits(value));
        let r = RegI64 { data: [w[0], w[1], w[2], w[3]] };
        assert(r@ =~= reg_i64_words(value));
        r
    }

    /// The registers, in order.
    pub fn registers(&self) -> (r: &[u16])
        ensures
            r@ == self@,
    {
        self.data.as_slice()
    }

    /// The registers, in order, for writing.
    pub fn registers_mut(&mut self) -> (r: &mut [u16])
        ensures
            r@ == old(self)@,
            final(self)@ == final(r)@,
    {
        &mut self.data
    }

    /// The value the registers hold.
    fn value(&self) -> (r: i64)
        ensures
            r == reg_i64_value(self@),
    {
        i64_from_bits(join_u64(self.data[0], self.data[1], self.data[2], self.data[3]))
    }
}

impl RegI64 {
    /// An iterator over the registers.
    pub fn reg_iter(&self) -> (r: core::slice::Iter<'_, u16>)
        ensures
            r.remaining() == self@.as_ref(),
    {
        (&self.data).into_iter()
    }

    /// An iterator that hands out the registers for writing, in order.
    pub fn reg_iter_mut(&mut self) -> (r: RegI64IterMut<'_>)
        ensures
            r.rest()@ == old(self)@,
            final(self)@ == final(r.rest())@,
    {
        RegI64IterMut::new(self)
    }
}

/// Iterator over the registers of a [RegI64], by index.
pub struct RegI64Iter<'a> {
    value: &'a RegI64,
    index: u8,
}

impl<'a> RegI64Iter<'a> {
    /// The registers handed out so far.
    pub closed spec fn position(&self) -> nat {
        self.index as nat
    }

    /// The register whose registers are walked.
    pub closed spec fn register(&self) -> RegI64 {
        *self.value
    }

    /// Starts at the first register.
    pub fn new(value: &'a RegI64) -> (r: RegI64Iter<'a>)
        ensures
            r.register() == *value,
            r.position() == 0,
    {
        RegI64Iter { value, index: 0 }
    }

    /// The next register, until all 4 have been handed out.
    pub fn next(&mut self) -> (r: Option<&'a u16>)
        ensures
            final(self).register() == old(self).register(),
            old(self).position() < 4 ==> r == Some(&old(self).register()@[old(self).position() as int])
                && final(self).position() == old(self).position() + 1,
            old(self).position() >= 4 ==> r is None && final(self).position() == old(self).position(),
    {
        if self.index < 4 {
            let idx = self.index as usize;
            self.index = self.index + 1;
            Some(&self.value.data[idx])
        } else {
            None
        }
    }
}

/// Iterator that hands out the registers of a [RegI64] for writing, in
/// order.
pub struct RegI64IterMut<'a> {
    inner: RegIterMut<'a>,
}

impl<'a> RegI64IterMut<'a> {
    /// The registers not yet handed out.
    pub closed spec fn rest(&self) -> &'a mut [u16] {
        self.inner.rest()
    }

    /// Once the iterator is advanced no more, the registers it has not
    /// handed out end as they are now.
    pub proof fn lemma_resolved(&self)
        requires
            has_resolved(*self),
        ensures
            final(self.rest())@ == self.rest()@,
    {
        self.inner.lemma_resolved();
    }

    /// Starts at the first register; what is written through the iterator
    /// ends up in the register.
    pub fn new(value: &'a mut RegI64) -> (r: RegI64IterMut<'a>)
        ensures
            r.rest()@ == old(value)@,
            final(value)@ == final(r.rest())@,
    {
        RegI64IterMut { inner: value.into_reg_iter_mut() }
    }

    /// The next register, for writing; `None` once all are handed out.
    pub fn next(&mut self) -> (r: Option<&'a mut u16>)
        ensures
            old(self).rest()@.len() == 0 ==> r is None && final(self).rest()@ == old(self).rest()@
                && final(old(self).rest())@ == final(final(self).rest())@,
            old(self).rest()@.len() > 0 ==> r is Some && *r->0 == old(self).rest()@[0]
                && final(self).rest()@ == old(self).rest()@.skip(1) && final(old(self).rest())@
                == seq![*final(r->0)] + final(final(self).rest())@,
    {
        self.inner.next()
    }
}

/// The registers that hold `v`.
pub open spec fn reg_i64_words(v: i64) -> Seq<u16> {
    u64_words(i64_bits(v))
}

/// The value that the registers `w` hold.
pub open spec fn reg_i64_value(w: Seq<u16>) -> i64 {
    i64_of_bits(u64_of_words(w))
}

/// A register set from an `i64` reads the same `i64` back, and every four words read back as
/// set.
pub proof fn lemma_i64_roundtrip(v: i64, w: Seq<u16>)
    requires
        w.len() == 4,
    ensures
        reg_i64_value(reg_i64_words(v)) == v,
        reg_i64_words(reg_i64_value(w)) == w,
{
    lemma_u64_words_roundtrip(i64_bits(v));
    lemma_u64_of_words_roundtrip(w);
    lemma_i64_bits_roundtrip(v, u64_of_words(w));
    assert(u64_words(i64_bits(i64_of_bits(u64_of_words(w)))) =~= w);
}

impl From<i64> for RegI64 {
    fn from(value: i64) -> (r: RegI64)
        ensures
            r@ == reg_i64_words(value),
    {
        RegI64::new(value)
    }
}

impl vstd::std_specs::convert::FromSpecImpl<i64> for RegI64 {
    open spec fn obeys_from_spec() -> bool {
        true
    }

    open spec fn from_spec(v: i64) -> RegI64 {
        RegI64::from_words(reg_i64_words(v))
    }
}

impl From<&i64> for RegI64 {
    fn from(value: &i64) -> (r: RegI64)
        ensures
            r@ == reg_i64_words(*value),
    {
        RegI64::new(*value)
    }
}

impl vstd::std_specs::convert::FromSpecImpl<&i64> for RegI64 {
    open spec fn obeys_from_spec() -> bool {
        true
    }

    open spec fn from_spec(v: &i64) -> RegI64 {
        RegI64::from_words(reg_i64_words(*v))
    }
}

impl From<RegI64> for i64 {
    fn from(value: RegI64) -> (r: i64)
        ensures
            r == reg_i64_value(value@),
    {
        value.value()
    }
}

impl vstd::std_specs::convert::FromSpecImpl<RegI64> for i64 {
    open spec fn obeys_from_spec() -> bool {
        true
    }

    open spec fn from_spec(v: RegI64) -> i64 {
        reg_i64_value(v@)
    }
}

impl From<&RegI64> for i64 {
    fn from(value: &RegI64) -> (r: i64)
        ensures
            r == reg_i64_value(value@),
    {
        value.value()
    }
}

impl vstd::std_specs::convert::FromSpecImpl<&RegI64> for i64 {
    open spec fn obeys_from_spec() -> bool {
        true
    }

    open spec fn from_spec(v: &RegI64) -> i64 {
        reg_i64_value(v@)
    }
}

impl<'a> IntoIterator for &'a RegI64 {
    type Item = &'a u16;
    type IntoIter = core::slice::Iter<'a, u16>;

    fn into_iter(self) -> (r: Self::IntoIter)
        ensures
            r.remaining() == self@.as_ref(),
    {
        (&self.data).into_iter()
    }
}

impl<'a> IntoIterator for &'a mut RegI64 {
    type Item = &'a mut u16;
    type IntoIter = core::slice::IterMut<'a, u16>;

    fn into_iter(self) -> (r: Self::IntoIter)
        ensures
            iter_mut_words(r) == (*old(self))@,
    {
        registers_iter_mut(&mut self.data)
    }
}

impl<'a> IntoRegIter<'a> for &'a RegI64 {
    type IntoIter = core::slice::Iter<'a, u16>;

    /// The registers, in order.
    open spec fn reg_iter_words(&self) -> Seq<u16> {
        (*self)@
    }

    fn into_reg_iter(self) -> (r: Self::IntoIter)
        ensures
            r.remaining() == self@.as_ref(),
    {
        (&self.data).into_iter()
    }
}

impl IntoRegIterMut for RegI64 {
    /// The registers, in order.
    open spec fn reg_iter_mut_words(&self) -> Seq<u16> {
        self@
    }

    fn into_reg_iter_mut(&mut self) -> (r: RegIterMut<'_>) {
        RegIterMut::new(&mut self.data)
    }
}

impl SetRegisterValue<i64> for RegI64 {
    fn set_value(&mut self, value: i64)
        ensures
            final(self)@ == reg_i64_words(value),
    {
        *self = RegI64::new(value);
    }
}

impl GetRegisterValue<i64> for RegI64 {
    fn get_value(&self) -> (r: i64)
        ensures
            r == reg_i64_value(self@),
    {
        self.value()
    }
}

} // verus!
