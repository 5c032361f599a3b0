use vstd::prelude::*;
use vstd::std_specs::iter::IteratorSpec;

/// Registers over atomics.
pub mod atomic;

/// Values as register words.
pub mod words;

mod reg_bool;
pub use reg_bool::{RegBool, reg_bool_words, reg_bool_value, lemma_bool_roundtrip};

mod reg_u8;
pub use reg_u8::{RegU8, reg_u8_words, reg_u8_value, lemma_u8_roundtrip};

mod reg_u16;
pub use reg_u16::{RegU16, reg_u16_words, reg_u16_value, lemma_u16_roundtrip};

mod reg_u32;
pub use reg_u32::{
    RegU32, RegU32Iter, RegU32IterMut, reg_u32_words, reg_u32_value, lemma_u32_roundtrip,
};

mod reg_u64;
pub use reg_u64::{RegU64, reg_u64_words, reg_u64_value, lemma_u64_roundtrip};

mod reg_i8;
pub use reg_i8::{RegI8, reg_i8_words, reg_i8_value, lemma_i8_roundtrip};

mod reg_i16;
pub use reg_i16::{RegI16, reg_i16_words, reg_i16_value, lemma_i16_roundtrip};

mod reg_i32;
pub use reg_i32::{RegI32, reg_i32_words, reg_i32_value, lemma_i32_roundtrip};

mod reg_f32;
pub use reg_f32::{RegF32, lemma_f32_bits_roundtrip};

mod reg_f64;
pub use reg_f64::{RegF64, lemma_f64_bits_roundtrip};

mod reg_u16_array;
pub use reg_u16_array::{RegU16Array, byte_or_zero, text_words, lemma_text_layout};

mod reg_i64;
pub use reg_i64::{
    RegI64, RegI64Iter, RegI64IterMut, reg_i64_words, reg_i64_value, lemma_i64_roundtrip,
};

verus! {

/// Turning a reference into an immutable register iterator.
pub trait IntoRegIter<'a> {
    type IntoIter: Iterator<Item = &'a u16>;

    /// The registers the iterator hands out, in order.
    spec fn reg_iter_words(&self) -> Seq<u16>;

    fn into_reg_iter(self) -> (r: Self::IntoIter)
        ensures
            r.remaining() == self.reg_iter_words().as_ref(),
    ;
}

/// Turning a register into an iterator that hands out its registers for
/// writing, in order; what is written through it ends up in the register.
pub trait IntoRegIterMut {
    /// The registers the iterator hands out, in order.
    spec fn reg_iter_mut_words(&self) -> Seq<u16>;

    fn into_reg_iter_mut(&mut self) -> (r: RegIterMut<'_>)
        ensures
            r.rest()@ == old(self).reg_iter_mut_words(),
            final(self).reg_iter_mut_words() == final(r.rest())@,
    ;
}

/// Hands out registers for writing, one after another.
pub struct RegIterMut<'a> {
    words: &'a mut [u16],
}

impl<'a> RegIterMut<'a> {
    /// The registers not yet handed out.
    pub closed spec fn rest(&self) -> &'a mut [u16] {
        self.words
    }

    /// Once the iterator is advanced no more, the registers it has not
    /// handed out end as they are now.
    pub proof fn lemma_resolved(&self)
        requires
            has_resolved(*self),
        ensures
            final(self.rest())@ == self.rest()@,
    {
    }

    /// Starts at the first of `words`; what is written through the iterator
    /// ends up in `words`.
    pub fn new(words: &'a mut [u16]) -> (r: RegIterMut<'a>)
        ensures
            r.rest()@ == old(words)@,
            final(words)@ == final(r.rest())@,
    {
        RegIterMut { words }
    }

    /// The next register, for writing; `None` once all are handed out. The
    /// registers left to hand out end as the one handed out, as it ends,
    /// followed by those after it.
    pub fn next(&mut self) -> (r: Option<&'a mut u16>)
        ensures
            old(self).rest()@.len() == 0 ==> r is None && final(self).rest()@ == old(self).rest()@
                && final(old(self).rest())@ == final(final(self).rest())@,
            old(self).rest()@.len() > 0 ==> r is Some && *r->0 == old(self).rest()@[0]
                && final(self).rest()@ == old(self).rest()@.skip(1) && final(old(self).rest())@
                == seq![*final(r->0)] + final(final(self).rest())@,
    {
        let mut words: &'a mut [u16] = &mut [];
        core::mem::swap(&mut words, &mut self.words);
        if words.len() == 0 {
            self.words = words;
            None
        } else {
            let (head, tail) = words.split_at_mut(1);
            self.words = tail;
            head.first_mut()
        }
    }
}

/// The iterator over the elements of a mutable slice (`core::slice::IterMut`).
#[verifier::external_type_specification]
#[verifier::external_body]
#[verifier::reject_recursive_types(Elem)]
pub struct ExIterMut<'a, Elem: 'a>(core::slice::IterMut<'a, Elem>);

/// The registers that an iterator over a mutable slice of registers hands
/// out, in the order it hands them out, by the values they hold when the
/// iterator is made.
pub uninterp spec fn iter_mut_words(it: core::slice::IterMut<'_, u16>) -> Seq<u16>;

/// Calls `<[u16]>::iter_mut`: an iterator that hands out each register of
/// the slice for writing, from the first to the last, as std documents it.
/// What the registers hold once the iterator is done is not claimed:
/// writes through it are not tracked.
#[verifier::external_body]
pub(crate) fn registers_iter_mut<'a>(s: &'a mut [u16]) -> (r: core::slice::IterMut<'a, u16>)
    ensures
        iter_mut_words(r) == old(s)@,
{
    s.iter_mut()
}

/// Setting the registers from a value of type `T`.
pub trait SetRegisterValue<T> {
    fn set_value(&mut self, value: T);
}

/// Reading the value of type `T` that the registers hold.
pub trait GetRegisterValue<T> {
    fn get_value(&self) -> T;
}

/// The error of an access to the registers of a value.
#[derive(Debug, Clone, Copy, PartialEq, Eq, Structural)]
pub enum RegisterError {
    /// The offset lies beyond the last register.
    OutOfBounds { offset: usize },
}

/// The result of an access to the registers of a value.
pub type RegisterResult<T> = Result<T, RegisterError>;

/// The number of registers that `count` words from `offset` on can reach in
/// a value of `span` registers: as many as fit, at most those left.
pub open spec fn reachable(count: nat, span: nat, offset: nat) -> nat {
    if count <= span - offset {
        count
    } else {
        (span - offset) as nat
    }
}

/// A value that spans a number of registers.
pub trait RegisterData {
    /// The number of registers.
    spec fn spec_span(&self) -> nat;

    fn register_span(&self) -> (r: usize)
        ensures
            r == self.spec_span(),
    ;
}

/// Reading the registers of a value into a buffer.
pub trait ReadRegisterData: RegisterData {
    /// Reads the registers from `offset` on into the front of `buf`, as many
    /// as fit, and returns how many; an offset beyond the last register is
    /// refused and leaves `buf` as it was.
    fn read(&self, offset: usize, buf: &mut [u16]) -> (r: RegisterResult<usize>)
        ensures
            final(buf)@.len() == old(buf)@.len(),
            match r {
                Ok(n) => {
                    &&& offset < self.spec_span()
                    &&& n == reachable(old(buf)@.len(), self.spec_span(), offset as nat)
                    &&& final(buf)@.skip(n as int) == old(buf)@.skip(n as int)
                },
                Err(e) => {
                    &&& e == RegisterError::OutOfBounds { offset }
                    &&& offset >= self.spec_span()
                    &&& final(buf)@ == old(buf)@
                },
            },
    ;
}

/// Writing the registers of a value from a buffer.
pub trait WriteRegisterData: RegisterData {
    /// Writes the front of `buf` into the registers from `offset` on, as
    /// many as fit, and returns how many; an offset beyond the last register
    /// is refused.
    fn write(&mut self, offset: usize, buf: &[u16]) -> (r: RegisterResult<usize>)
        ensures
            final(self).spec_span() == old(self).spec_span(),
            match r {
                Ok(n) => {
                    &&& offset < old(self).spec_span()
                    &&& n == reachable(buf@.len(), old(self).spec_span(), offset as nat)
                },
                Err(e) => {
                    &&& e == RegisterError::OutOfBounds { offset }
                    &&& offset >= old(self).spec_span()
                },
            },
    ;
}

/// Reads `data` from `offset` on into the front of `buf`, as many registers
/// as fit.
pub(crate) fn read_registers(data: &[u16], offset: usize, buf: &mut [u16]) -> (r: RegisterResult<
    usize,
>)
    ensures
        final(buf)@.len() == old(buf)@.len(),
        match r {
            Ok(n) => {
                &&& offset < data@.len()
                &&& n == reachable(old(buf)@.len(), data@.len(), offset as nat)
                &&& final(buf)@.take(n as int) == data@.subrange(offset as int, offset + n)
                &&& final(buf)@.skip(n as int) == old(buf)@.skip(n as int)
            },
            Err(e) => {
                &&& e == RegisterError::OutOfBounds { offset }
                &&& offset >= data@.len()
                &&& final(buf)@ == old(buf)@
            },
        },
{
    if offset >= data.len() {
        return Err(RegisterError::OutOfBounds { offset });
    }
    let available = data.len() - offset;
    let to_read = if buf.len() < available {
        buf.len()
    } else {
        available
    };
    let end: usize = offset + to_read;
    let ghost start = buf@;
    let mut i: usize = 0;
    while i < to_read
        invariant
            i <= to_read,
            end == offset + to_read,
            to_read <= buf@.len(),
            offset + to_read <= data@.len(),
            buf@.len() == start.len(),
            forall|k: int| 0 <= k < i ==> buf@[k] == data@[offset + k],
            forall|k: int| i <= k < buf@.len() ==> buf@[k] == start[k],
        decreases to_read - i,
    {
        buf[i] = data[offset + i];
        i = i + 1;
    }
    assert(buf@.take(to_read as int) =~= data@.subrange(offset as int, offset + to_read));
    assert(buf@.skip(to_read as int) =~= start.skip(to_read as int));
    Ok(to_read)
}

/// Writes the front of `buf` into `data` from `offset` on, as many registers
/// as fit.
pub(crate) fn write_registers(data: &mut [u16], offset: usize, buf: &[u16]) -> (r: RegisterResult<
    usize,
>)
    ensures
        final(data)@.len() == old(data)@.len(),
        match r {
            Ok(n) => {
                &&& offset < old(data)@.len()
                &&& n == reachable(buf@.len(), old(data)@.len(), offset as nat)
                &&& final(data)@ == old(data)@.take(offset as int) + buf@.take(n as int) + old(
                    data,
                )@.skip(offset + n)
            },
            Err(e) => {
                &&& e == RegisterError::OutOfBounds { offset }
                &&& offset >= old(data)@.len()
                &&& final(data)@ == old(data)@
            },
        },
{
    if offset >= data.len() {
        return Err(RegisterError::OutOfBounds { offset });
    }
    let available = data.len() - offset;
    let to_write = if buf.len() < available {
        buf.len()
    } else {
        available
    };
    let end: usize = offset + to_write;
    let ghost start = data@;
    let mut i: usize = 0;
    while i < to_write
        invariant
            i <= to_write,
            end == offset + to_write,
            to_write <= buf@.len(),
            offset + to_write <= start.len(),
            data@.len() == start.len(),
            forall|k: int| 0 <= k < offset ==> data@[k] == start[k],
            forall|k: int| 0 <= k < i ==> data@[offset + k] == buf@[k],
            forall|k: int| offset + i <= k < data@.len() ==> data@[k] == start[k],
        decreases to_write - i,
    {
        data[offset + i] = buf[i];
        i = i + 1;
    }
    assert(data@ =~= start.take(offset as int) + buf@.take(to_write as int) + start.skip(
        offset + to_write,
    ));
    Ok(to_write)
}

/// Registers that a write puts in from `offset` on read back as written:
/// the registers after a write of the front `n` words of `buf` keep their
/// number, and from `offset` on they are those words.
pub proof fn lemma_read_after_write(before: Seq<u16>, offset: int, buf: Seq<u16>, n: int)
    requires
        0 <= offset,
        0 <= n <= buf.len(),
        offset + n <= before.len(),
    ensures
        ({
            let after = before.take(offset) + buf.take(n) + before.skip(offset + n);
            &&& after.len() == before.len()
            &&& after.subrange(offset, offset + n) == buf.take(n)
            &&& after.take(offset) == before.take(offset)
            &&& after.skip(offset + n) == before.skip(offset + n)
        }),
{
    let after = before.take(offset) + buf.take(n) + before.skip(offset + n);
    assert(after.subrange(offset, offset + n) =~= buf.take(n));
    assert(after.take(offset) =~= before.take(offset));
    assert(after.skip(offset + n) =~= before.skip(offset + n));
}

/// Read-only register, enforced by the type system.
#[derive(Debug, Clone, Default)]
pub struct RO<T> {
    data: T,
}

impl<T> RO<T> {
    /// The register that is wrapped.
    pub closed spec fn inner(&self) -> T {
        self.data
    }

    pub fn new(value: T) -> (r: RO<T>)
        ensures
            r.inner() == value,
    {
        RO { data: value }
    }

    pub fn get(&self) -> (r: &T)
        ensures
            *r == self.inner(),
    {
        &self.data
    }

    pub fn get_mut(&mut self) -> (r: &mut T)
        ensures
            *r == old(self).inner(),
            final(self).inner() == *final(r),
    {
        &mut self.data
    }
}

impl<'a, T> IntoRegIter<'a> for &'a RO<T> where &'a T: IntoRegIter<'a> {
    type IntoIter = <&'a T as IntoRegIter<'a>>::IntoIter;

    /// The registers of the wrapped register.
    open spec fn reg_iter_words(&self) -> Seq<u16> {
        (&self.inner()).reg_iter_words()
    }

    fn into_reg_iter(self) -> (r: Self::IntoIter) {
        (&self.data).into_reg_iter()
    }
}

/// Readable and writable register.
#[derive(Debug, Clone, Default)]
pub struct RW<T> {
    data: T,
}

impl<T> RW<T> {
    /// The register that is wrapped.
    pub closed spec fn inner(&self) -> T {
        self.data
    }

    pub fn new(value: T) -> (r: RW<T>)
        ensures
            r.inner() == value,
    {
        RW { data: value }
    }

    pub fn get(&self) -> (r: &T)
        ensures
            *r == self.inner(),
    {
        &self.data
    }

    pub fn get_mut(&mut self) -> (r: &mut T)
        ensures
            *r == old(self).inner(),
            final(self).inner() == *final(r),
    {
        &mut self.data
    }
}

impl<'a, T> IntoRegIter<'a> for &'a RW<T> where &'a T: IntoRegIter<'a> {
    type IntoIter = <&'a T as IntoRegIter<'a>>::IntoIter;

    /// The registers of the wrapped register.
    open spec fn reg_iter_words(&self) -> Seq<u16> {
        (&self.inner()).reg_iter_words()
    }

    fn into_reg_iter(self) -> (r: Self::IntoIter) {
        (&self.data).into_reg_iter()
    }
}

impl<T: IntoRegIterMut> IntoRegIterMut for RW<T> {
    /// The registers of the wrapped register.
    open spec fn reg_iter_mut_words(&self) -> Seq<u16> {
        self.inner().reg_iter_mut_words()
    }

    fn into_reg_iter_mut(&mut self) -> (r: RegIterMut<'_>) {
        self.data.into_reg_iter_mut()
    }
}

/// The registers a read-write register hands out, for reading and for
/// writing, are those of the register it wraps (so also, after a write
/// through `get_mut`, those of the register written).
pub proof fn lemma_rw_registers<'a, T: IntoRegIterMut>(rw: &'a RW<T>)
    where
        &'a T: IntoRegIter<'a>,
    ensures
        rw.reg_iter_words() == (&rw.inner()).reg_iter_words(),
        (*rw).reg_iter_mut_words() == rw.inner().reg_iter_mut_words(),
{
}

/// The registers a read-only register hands out are those of the register
/// it wraps.
pub proof fn lemma_ro_registers<'a, T>(ro: &'a RO<T>)
    where
        &'a T: IntoRegIter<'a>,
    ensures
        ro.reg_iter_words() == (&ro.inner()).reg_iter_words(),
{
}

/// How values are laid out in registers, most significant word first: a
/// `bool` is one word, 0xFFFF for true and 0 for false; a `u8` or `u16` is
/// one word holding the value; a `u32` is two words and a `u64` four, whose
/// base-65536 digits, most significant first, are the value; signed values
/// take the same words as the unsigned value of their two's complement bit
/// pattern (the value, plus 2^8, 2^16, 2^32 or 2^64 when it is negative).
pub proof fn lemma_register_layout(
    b: bool,
    v8: u8,
    v16: u16,
    v32: u32,
    v64: u64,
    s8: i8,
    s16: i16,
    s32: i32,
    s64: i64,
)
    ensures
        reg_bool_words(b) == seq![if b { 0xFFFFu16 } else { 0u16 }],
        reg_u8_words(v8).len() == 1 && reg_u8_words(v8)[0] == v8,
        reg_u16_words(v16).len() == 1 && reg_u16_words(v16)[0] == v16,
        ({
            let w = reg_u32_words(v32);
            w.len() == 2 && w[0] * 0x1_0000 + w[1] == v32
        }),
        ({
            let w = reg_u64_words(v64);
            w.len() == 4 && ((w[0] * 0x1_0000 + w[1]) * 0x1_0000 + w[2]) * 0x1_0000 + w[3] == v64
        }),
        reg_i8_words(s8).len() == 1 && reg_i8_words(s8)[0] == if s8 < 0 {
            s8 + 0x100
        } else {
            s8 as int
        },
        reg_i16_words(s16).len() == 1 && reg_i16_words(s16)[0] == if s16 < 0 {
            s16 + 0x1_0000
        } else {
            s16 as int
        },
        ({
            let w = reg_i32_words(s32);
            w.len() == 2 && w[0] * 0x1_0000 + w[1] == if s32 < 0 {
                s32 + 0x1_0000_0000
            } else {
                s32 as int
            }
        }),
        ({
            let w = reg_i64_words(s64);
            w.len() == 4 && ((w[0] * 0x1_0000 + w[1]) * 0x1_0000 + w[2]) * 0x1_0000 + w[3] == if s64
                < 0 {
                s64 + 0x1_0000_0000_0000_0000
            } else {
                s64 as int
            }
        }),
{
}

} // verus!
