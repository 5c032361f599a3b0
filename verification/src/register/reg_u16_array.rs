use vstd::prelude::*;
use vstd::std_specs::iter::IteratorSpec;
use super::{
    GetRegisterValue, SetRegisterValue, IntoRegIter, IntoRegIterMut, RegIterMut, RegisterData,
    ReadRegisterData, WriteRegisterData, RegisterResult, RegisterError, reachable, read_registers,
    write_registers, registers_iter_mut, iter_mut_words,
};
use crate::wire::{be_u16, u16_from_be};
use vstd::string::StringSliceAdditionalSpecFns;

verus! {

/// Byte `k` of `bytes`, or zero past its end.
pub open spec fn byte_or_zero(bytes: Seq<u8>, k: int) -> u8 {
    if 0 <= k < bytes.len() {
        bytes[k]
    } else {
        0
    }
}

/// The `n` registers that hold the text `bytes`: two bytes per register,
/// the first the most significant, padded with zero bytes.
pub open spec fn text_words(bytes: Seq<u8>, n: nat) -> Seq<u16> {
    Seq::new(n, |i: int| be_u16(byte_or_zero(bytes, 2 * i), byte_or_zero(bytes, 2 * i + 1)))
}

/// Modbus register that can be converted to and from `[u16; N]`.
#[derive(Debug, PartialEq, Clone)]
pub struct RegU16Array<const N: usize> {
    data: [u16; N],
}

impl<const N: usize> View for RegU16Array<N> {
    type V = Seq<u16>;

    /// The registers, in order.
    closed spec fn view(&self) -> Seq<u16> {
        self.data@
    }
}

impl<const N: usize> RegU16Array<N> {
    /// The register holds `N` words.
    pub proof fn lemma_len(&self)
        ensures
            self@.len() == N,
    {
    }

    /// The register that holds the words of `value`.
    pub closed spec fn of_array(value: [u16; N]) -> RegU16Array<N> {
        RegU16Array { data: value }
    }

    /// The array of the registers.
    pub closed spec fn words(&self) -> [u16; N] {
        self.data
    }

    /// The register that holds the text `bytes`.
    pub closed spec fn of_text(bytes: Seq<u8>) -> RegU16Array<N> {
        choose|r: RegU16Array<N>| r@ == text_words(bytes, N as nat)
    }

    /// Creates a new `[u16; N]` based register.
    pub fn new(value: [u16; N]) -> (r: RegU16Array<N>)
        ensures
            r@ == value@,
            r == Self::of_array(value),
    {
        RegU16Array { data: value }
    }

    /// Creates the register that holds the bytes of `string`, two per word,
    /// the first the most significant; text beyond `2 * N` bytes is cut off
    /// and missing bytes are zero.
    pub fn from_str(string: &str) -> (r: RegU16Array<N>)
        ensures
            r@ == text_words(string.spec_bytes(), N as nat),
    {
        let slice = string.as_bytes();
        let slice_len = slice.len();
        let mut data = [0u16; N];
        let mut idx: usize = 0;
        let mut slice_idx: usize = 0;
        while idx < N
            invariant
                slice@ == string.spec_bytes(),
                slice_len == slice@.len(),
                data@.len() == N,
                idx <= N,
                slice_idx == if 2 * idx <= slice_len {
                    2 * idx
                } else {
                    slice_len as int
                },
                forall|k: int|
                    0 <= k < idx ==> data@[k] == be_u16(
                        byte_or_zero(slice@, 2 * k),
                        byte_or_zero(slice@, 2 * k + 1),
                    ),
            decreases N - idx,
        {
            let hbyte = if slice_idx < slice_len {
                let i = slice_idx;
                slice_idx = slice_idx + 1;
                slice[i]
            } else {
                0u8
            };
            let lbyte = if slice_idx < slice_len {
                let i = slice_idx;
                slice_idx = slice_idx + 1;
                slice[i]
            } else {
                0u8
            };
            data[idx] = u16_from_be(hbyte, lbyte);
            idx = idx + 1;
        }
        assert(data@ =~= text_words(string.spec_bytes(), N as nat));
        RegU16Array { data }
    }

    /// The registers, in order.
    pub fn registers(&self) -> (r: &[u16])
        ensures
            r@ == self@,
    {
        self.data.as_slice()
    }

    /// The registers, in order, for writing.
    pub fn registers_mut(&mut self) -> (r: &mut [u16])
        ensures
            r@ == old(self)@,
            final(self)@ == final(r)@,
    {
        &mut self.data
    }
}

impl<const N: usize> Default for RegU16Array<N> {
    fn default() -> (r: RegU16Array<N>)
        ensures
            r@ == Seq::new(N as nat, |i: int| 0u16),
    {
        let r = RegU16Array { data: [0u16; N] };
        assert(r@ =~= Seq::new(N as nat, |i: int| 0u16));
        r
    }
}

impl<const N: usize> From<&str> for RegU16Array<N> {
    fn from(value: &str) -> (r: RegU16Array<N>)
        ensures
            r@ == text_words(value.spec_bytes(), N as nat),
    {
        let r = RegU16Array::from_str(value);
        proof {
            let c = Self::of_text(value.spec_bytes());
            assert(exists|x: RegU16Array<N>| x@ == text_words(value.spec_bytes(), N as nat)) by {
                assert(r@ == text_words(value.spec_bytes(), N as nat));
            }
            assert(c.data =~= r.data);
        }
        r
    }
}

impl<const N: usize> vstd::std_specs::convert::FromSpecImpl<&str> for RegU16Array<N> {
    open spec fn obeys_from_spec() -> bool {
        true
    }

    open spec fn from_spec(v: &str) -> RegU16Array<N> {
        RegU16Array::<N>::of_text(v.spec_bytes())
    }
}

impl<const N: usize> From<[u16; N]> for RegU16Array<N> {
    fn from(value: [u16; N]) -> (r: RegU16Array<N>)
        ensures
            r@ == value@,
    {
        RegU16Array::new(value)
    }
}

impl<const N: usize> vstd::std_specs::convert::FromSpecImpl<[u16; N]> for RegU16Array<N> {
    open spec fn obeys_from_spec() -> bool {
        true
    }

    open spec fn from_spec(v: [u16; N]) -> RegU16Array<N> {
        RegU16Array::<N>::of_array(v)
    }
}

impl<const N: usize> From<RegU16Array<N>> for [u16; N] {
    fn from(value: RegU16Array<N>) -> (r: [u16; N])
        ensures
            r@ == value@,
    {
        value.data
    }
}

impl<const N: usize> vstd::std_specs::convert::FromSpecImpl<RegU16Array<N>> for [u16; N] {
    open spec fn obeys_from_spec() -> bool {
        true
    }

    open spec fn from_spec(v: RegU16Array<N>) -> [u16; N] {
        v.words()
    }
}

impl<const N: usize> From<&RegU16Array<N>> for [u16; N] {
    fn from(value: &RegU16Array<N>) -> (r: [u16; N])
        ensures
            r@ == value@,
    {
        value.data
    }
}

impl<const N: usize> vstd::std_specs::convert::FromSpecImpl<&RegU16Array<N>> for [u16; N] {
    open spec fn obeys_from_spec() -> bool {
        true
    }

    open spec fn from_spec(v: &RegU16Array<N>) -> [u16; N] {
        v.words()
    }
}

impl<const N: usize> core::ops::Index<usize> for RegU16Array<N> {
    type Output = u16;

    /// Register `index`, which must be one of the `N`.
    fn index(&self, index: usize) -> (r: &u16)
        ensures
            *r == self@[index as int],
    {
        &self.data[index]
    }
}

impl<const N: usize> vstd::std_specs::core::IndexSpecImpl<usize> for RegU16Array<N> {
    open spec fn index_req(&self, index: &usize) -> bool {
        *index < N
    }
}

impl<'a, const N: usize> IntoIterator for &'a RegU16Array<N> {
    type Item = &'a u16;
    type IntoIter = core::slice::Iter<'a, u16>;

    fn into_iter(self) -> (r: Self::IntoIter)
        ensures
            r.remaining() == self@.as_ref(),
    {
        (&self.data).into_iter()
    }
}

impl<'a, const N: usize> IntoIterator for &'a mut RegU16Array<N> {
    type Item = &'a mut u16;
    type IntoIter = core::slice::IterMut<'a, u16>;

    fn into_iter(self) -> (r: Self::IntoIter)
        ensures
            iter_mut_words(r) == (*old(self))@,
    {
        registers_iter_mut(&mut self.data)
    }
}

impl<'a, const N: usize> IntoRegIter<'a> for &'a RegU16Array<N> {
    type IntoIter = core::slice::Iter<'a, u16>;

    /// The registers, in order.
    open spec fn reg_iter_words(&self) -> Seq<u16> {
        (*self)@
    }

    fn into_reg_iter(self) -> (r: Self::IntoIter)
        ensures
            r.remaining() == self@.as_ref(),
    {
        (&self.data).into_iter()
    }
}

impl<const N: usize> IntoRegIterMut for RegU16Array<N> {
    /// The registers, in order.
    open spec fn reg_iter_mut_words(&self) -> Seq<u16> {
        self@
    }

    fn into_reg_iter_mut(&mut self) -> (r: RegIterMut<'_>) {
        RegIterMut::new(&mut self.data)
    }
}

impl<const N: usize> SetRegisterValue<[u16; N]> for RegU16Array<N> {
    fn set_value(&mut self, value: [u16; N])
        ensures
            final(self)@ == value@,
    {
        self.data = value;
    }
}

impl<const N: usize> GetRegisterValue<[u16; N]> for RegU16Array<N> {
    fn get_value(&self) -> (r: [u16; N])
        ensures
            r@ == self@,
    {
        self.data
    }
}

impl<const N: usize> RegisterData for RegU16Array<N> {
    open spec fn spec_span(&self) -> nat {
        N as nat
    }

    fn register_span(&self) -> (r: usize) {
        N
    }
}

impl<const N: usize> ReadRegisterData for RegU16Array<N> {
    fn read(&self, offset: usize, buf: &mut [u16]) -> (r: RegisterResult<usize>)
        ensures
            r matches Ok(n) ==> final(buf)@.take(n as int) == self@.subrange(
                offset as int,
                offset + n,
            ),
    {
        read_registers(self.data.as_slice(), offset, buf)
    }
}

impl<const N: usize> WriteRegisterData for RegU16Array<N> {
    fn write(&mut self, offset: usize, buf: &[u16]) -> (r: RegisterResult<usize>)
        ensures
            match r {
                Ok(n) => final(self)@ == old(self)@.take(offset as int) + buf@.take(n as int) + old(
                    self,
                )@.skip(offset + n),
                Err(_) => final(self)@ == old(self)@,
            },
    {
        write_registers(&mut self.data, offset, buf)
    }
}

/// Text is packed two bytes per register, the first byte the most
/// significant: register `i` holds bytes `2 * i` and `2 * i + 1` of the
/// text, a byte past the end of the text counting as zero.
pub proof fn lemma_text_layout(bytes: Seq<u8>, n: nat)
    ensures
        text_words(bytes, n).len() == n,
        forall|i: int|
            0 <= i < n && 2 * i + 1 < bytes.len() ==> #[trigger] text_words(bytes, n)[i] == bytes[2
                * i] * 256 + bytes[2 * i + 1],
        forall|i: int|
            0 <= i < n && 2 * i + 1 == bytes.len() ==> #[trigger] text_words(bytes, n)[i] == bytes[2
                * i] * 256,
        forall|i: int| 0 <= i < n && 2 * i >= bytes.len() ==> #[trigger] text_words(bytes, n)[i] == 0,
{
}

} // verus!
