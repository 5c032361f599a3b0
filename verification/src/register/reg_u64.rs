use vstd::prelude::*;
use vstd::std_specs::iter::IteratorSpec;
use super::{
    GetRegisterValue, SetRegisterValue, IntoRegIter, IntoRegIterMut, RegIterMut, registers_iter_mut, iter_mut_words,
};
use super::words::{u64_words, u64_of_words, split_u64, join_u64, lemma_u64_words_roundtrip, lemma_u64_of_words_roundtrip};

verus! {

/// Modbus register that can be converted to and from [u64].
#[derive(Debug, PartialEq, Default, Clone)]
pub struct RegU64 {
    data: [u16; 4],
}

impl View for RegU64 {
    type V = Seq<u16>;

    /// The registers, in order.
    closed spec fn view(&self) -> Seq<u16> {
        self.data@
    }
}

impl RegU64 {
    /// The register holds 4 words.
    pub proof fn lemma_len(&self)
        ensures
            self@.len() == 4,
    {
    }

    /// The register that holds the words `w`.
    pub closed spec fn from_words(w: Seq<u16>) -> RegU64 {
        RegU64 { data: [w[0], w[1], w[2], w[3]] }
    }

    /// Creates a new [u64] based register.
    pub fn new(value: u64) -> (r: RegU64)
        ensures
            r@ == reg_u64_words(value),
            r == RegU64::from_words(reg_u64_words(value)),
    {
        let w: [u16; 4] = split_u64(value);
        let r = RegU64 { data: [w[0], w[1], w[2], w[3]] };
        assert(r@ =~= reg_u64_words(value));
        r
    }

    /// The registers, in order.
    pub fn registers(&self) -> (r: &[u16])
        ensures
            r@ == self@,
    {
        self.data.as_slice()
    }

    /// The registers, in order, for writing.
    pub fn registers_mut(&mut self) -> (r: &mut [u16])
        ensures
            r@ == old(self)@,
            final(self)@ == final(r)@,
    {
        &mut self.data
    }

    /// The value the registers hold.
    fn value(&self) -> (r: u64)
        ensures
            r == reg_u64_value(self@),
    {
        join_u64(self.data[0], self.data[1], self.data[2], self.data[3])
    }
}

/// The registers that hold `v`.
pub open spec fn reg_u64_words(v: u64) -> Seq<u16> {
    u64_words(v)
}

/// The value that the registers `w` hold.
pub open spec fn reg_u64_value(w: Seq<u16>) -> u64 {
    u64_of_words(w)
}

/// A register set from a `u64` reads the same `u64` back, and every four words read back as
/// set.
pub proof fn lemma_u64_roundtrip(v: u64, w: Seq<u16>)
    requires
        w.len() == 4,
    ensures
        reg_u64_value(reg_u64_words(v)) == v,
        reg_u64_words(reg_u64_value(w)) == w,
{
    lemma_u64_words_roundtrip(v);
    lemma_u64_of_words_roundtrip(w);
    assert(u64_words(u64_of_words(w)) =~= w);
}

impl From<u64> for RegU64 {
    fn from(value: u64) -> (r: RegU64)
        ensures
            r@ == reg_u64_words(value),
    {
        RegU64::new(value)
    }
}

impl vstd::std_specs::convert::FromSpecImpl<u64> for RegU64 {
    open spec fn obeys_from_spec() -> bool {
        true
    }

    open spec fn from_spec(v: u64) -> RegU64 {
        RegU64::from_words(reg_u64_words(v))
    }
}

impl From<&u64> for RegU64 {
    fn from(value: &u64) -> (r: RegU64)
        ensures
            r@ == reg_u64_words(*value),
    {
        RegU64::new(*value)
    }
}

impl vstd::std_specs::convert::FromSpecImpl<&u64> for RegU64 {
    open spec fn obeys_from_spec() -> bool {
        true
    }

    open spec fn from_spec(v: &u64) -> RegU64 {
        RegU64::from_words(reg_u64_words(*v))
    }
}

impl From<RegU64> for u64 {
    fn from(value: RegU64) -> (r: u64)
        ensures
            r == reg_u64_value(value@),
    {
        value.value()
    }
}

impl vstd::std_specs::convert::FromSpecImpl<RegU64> for u64 {
    open spec fn obeys_from_spec() -> bool {
        true
    }

    open spec fn from_spec(v: RegU64) -> u64 {
        reg_u64_value(v@)
    }
}

impl From<&RegU64> for u64 {
    fn from(value: &RegU64) -> (r: u64)
        ensures
            r == reg_u64_value(value@),
    {
        value.value()
    }
}

impl vstd::std_specs::convert::FromSpecImpl<&RegU64> for u64 {
    open spec fn obeys_from_spec() -> bool {
        true
    }

    open spec fn from_spec(v: &RegU64) -> u64 {
        reg_u64_value(v@)
    }
}

impl<'a> IntoIterator for &'a RegU64 {
    type Item = &'a u16;
    type IntoIter = core::slice::Iter<'a, u16>;

    fn into_iter(self) -> (r: Self::IntoIter)
        ensures
            r.remaining() == self@.as_ref(),
    {
        (&self.data).into_iter()
    }
}

impl<'a> IntoIterator for &'a mut RegU64 {
    type Item = &'a mut u16;
    type IntoIter = core::slice::IterMut<'a, u16>;

    fn into_iter(self) -> (r: Self::IntoIter)
        ensures
            iter_mut_words(r) == (*old(self))@,
    {
        registers_iter_mut(&mut self.data)
    }
}

impl<'a> IntoRegIter<'a> for &'a RegU64 {
    type IntoIter = core::slice::Iter<'a, u16>;

    /// The registers, in order.
    open spec fn reg_iter_words(&self) -> Seq<u16> {
        (*self)@
    }

    fn into_reg_iter(self) -> (r: Self::IntoIter)
        ensures
            r.remaining() == self@.as_ref(),
    {
        (&self.data).into_iter()
    }
}

impl IntoRegIterMut for RegU64 {
    /// The registers, in order.
    open spec fn reg_iter_mut_words(&self) -> Seq<u16> {
        self@
    }

    fn into_reg_iter_mut(&mut self) -> (r: RegIterMut<'_>) {
        RegIterMut::new(&mut self.data)
    }
}

impl SetRegisterValue<u64> for RegU64 {
    fn set_value(&mut self, value: u64)
        ensures
            final(self)@ == reg_u64_words(value),
    {
        *self = RegU64::new(value);
    }
}

impl GetRegisterValue<u64> for RegU64 {
    fn get_value(&self) -> (r: u64)
        ensures
            r == reg_u64_value(self@),
    {
        self.value()
    }
}

} // verus!
