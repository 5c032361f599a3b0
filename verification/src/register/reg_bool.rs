use vstd::prelude::*;
use vstd::std_specs::iter::IteratorSpec;
use super::{
    GetRegisterValue, SetRegisterValue, IntoRegIter, IntoRegIterMut, RegIterMut, registers_iter_mut, iter_mut_words,
};
use super::words::{bool_word};

verus! {

/// Modbus register that can be converted to and from [bool].
#[derive(Debug, PartialEq, Default, Clone)]
pub struct RegBool {
    data: [u16; 1],
}

impl View for RegBool {
    type V = Seq<u16>;

    /// The registers, in order.
    closed spec fn view(&self) -> Seq<u16> {
        self.data@
    }
}

impl RegBool {
    /// The register holds 1 word.
    pub proof fn lemma_len(&self)
        ensures
            self@.len() == 1,
    {
    }

    /// The register that holds the words `w`.
    pub closed spec fn from_words(w: Seq<u16>) -> RegBool {
        RegBool { data: [w[0]] }
    }

    /// Creates a new [bool] based register.
    pub fn new(value: bool) -> (r: RegBool)
        ensures
            r@ == reg_bool_words(value),
            r == RegBool::from_words(reg_bool_words(value)),
    {
        let w: [u16; 1] = [if value {{ 0xFFFF }} else {{ 0 }}];
        let r = RegBool { data: [w[0]] };
        assert(r@ =~= reg_bool_words(value));
        r
    }

    /// The registers, in order.
    pub fn registers(&self) -> (r: &[u16])
        ensures
            r@ == self@,
    {
        self.data.as_slice()
    }

    /// The registers, in order, for writing.
    pub fn registers_mut(&mut self) -> (r: &mut [u16])
        ensures
            r@ == old(self)@,
            final(self)@ == final(r)@,
    {
        &mut self.data
    }

    /// The value the registers hold.
    fn value(&self) -> (r: bool)
        ensures
            r == reg_bool_value(self@),
    {
        self.data[0] != 0
    }
}

/// The registers that hold `v`.
pub open spec fn reg_bool_words(v: bool) -> Seq<u16> {
    seq![bool_word(v)]
}

/// The value that the registers `w` hold.
pub open spec fn reg_bool_value(w: Seq<u16>) -> bool {
    (w[0] != 0)
}

/// A register set from a `bool` reads the same `bool` back; a word reads back as set exactly
/// when it is `0x0000` or `0xFFFF`.
pub proof fn lemma_bool_roundtrip(v: bool, w: Seq<u16>)
    requires
        w.len() == 1,
    ensures
        reg_bool_value(reg_bool_words(v)) == v,
        reg_bool_words(reg_bool_value(w)) == w <==> w[0] == 0 || w[0] == 0xFFFF,
{
    assert(w[0] == 0 || w[0] == 0xFFFF ==> seq![bool_word((w[0] != 0))] =~= w);
}

impl From<bool> for RegBool {
    fn from(value: bool) -> (r: RegBool)
        ensures
            r@ == reg_bool_words(value),
    {
        RegBool::new(value)
    }
}

impl vstd::std_specs::convert::FromSpecImpl<bool> for RegBool {
    open spec fn obeys_from_spec() -> bool {
        true
    }

    open spec fn from_spec(v: bool) -> RegBool {
        RegBool::from_words(reg_bool_words(v))
    }
}

impl From<&bool> for RegBool {
    fn from(value: &bool) -> (r: RegBool)
        ensures
            r@ == reg_bool_words(*value),
    {
        RegBool::new(*value)
    }
}

impl vstd::std_specs::convert::FromSpecImpl<&bool> for RegBool {
    open spec fn obeys_from_spec() -> bool {
        true
    }

    open spec fn from_spec(v: &bool) -> RegBool {
        RegBool::from_words(reg_bool_words(*v))
    }
}

impl From<RegBool> for bool {
    fn from(value: RegBool) -> (r: bool)
        ensures
            r == reg_bool_value(value@),
    {
        value.value()
    }
}

impl vstd::std_specs::convert::FromSpecImpl<RegBool> for bool {
    open spec fn obeys_from_spec() -> bool {
        true
    }

    open spec fn from_spec(v: RegBool) -> bool {
        reg_bool_value(v@)
    }
}

impl From<&RegBool> for bool {
    fn from(value: &RegBool) -> (r: bool)
        ensures
            r == reg_bool_value(value@),
    {
        value.value()
    }
}

impl vstd::std_specs::convert::FromSpecImpl<&RegBool> for bool {
    open spec fn obeys_from_spec() -> bool {
        true
    }

    open spec fn from_spec(v: &RegBool) -> bool {
        reg_bool_value(v@)
    }
}

impl<'a> IntoIterator for &'a RegBool {
    type Item = &'a u16;
    type IntoIter = core::slice::Iter<'a, u16>;

    fn into_iter(self) -> (r: Self::IntoIter)
        ensures
            r.remaining() == self@.as_ref(),
    {
        (&self.data).into_iter()
    }
}

impl<'a> IntoIterator for &'a mut RegBool {
    type Item = &'a mut u16;
    type IntoIter = core::slice::IterMut<'a, u16>;

    fn into_iter(self) -> (r: Self::IntoIter)
        ensures
            iter_mut_words(r) == (*old(self))@,
    {
        registers_iter_mut(&mut self.data)
    }
}

impl<'a> IntoRegIter<'a> for &'a RegBool {
    type IntoIter = core::slice::Iter<'a, u16>;

    /// The registers, in order.
    open spec fn reg_iter_words(&self) -> Seq<u16> {
        (*self)@
    }

    fn into_reg_iter(self) -> (r: Self::IntoIter)
        ensures
            r.remaining() == self@.as_ref(),
    {
        (&self.data).into_iter()
    }
}

impl IntoRegIterMut for RegBool {
    /// The registers, in order.
    open spec fn reg_iter_mut_words(&self) -> Seq<u16> {
        self@
    }

    fn into_reg_iter_mut(&mut self) -> (r: RegIterMut<'_>) {
        RegIterMut::new(&mut self.data)
    }
}

impl SetRegisterValue<bool> for RegBool {
    fn set_value(&mut self, value: bool)
        ensures
            final(self)@ == reg_bool_words(value),
    {
        *self = RegBool::new(value);
    }
}

impl GetRegisterValue<bool> for RegBool {
    fn get_value(&self) -> (r: bool)
        ensures
            r == reg_bool_value(self@),
    {
        self.value()
    }
}

} // verus!
