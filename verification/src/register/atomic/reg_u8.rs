use vstd::prelude::*;
use core::sync::atomic::{AtomicU8, Ordering};
use crate::register::{
    RegisterData, ReadRegisterData, RegisterResult, RegisterError, reachable, read_registers,
};

verus! {

/// A `u8` register that other threads may change at any time.
pub struct AtomicRegU8 {
    value: AtomicU8,
}

impl AtomicRegU8 {
    pub fn new(value: u8) -> AtomicRegU8 {
        AtomicRegU8 { value: AtomicU8::new(value) }
    }
}

/// A `u8` register over an atomic that someone else owns.
pub struct AtomicRegU8Ref<'a> {
    value: &'a AtomicU8,
}

impl<'a> AtomicRegU8Ref<'a> {
    /// The atomic that the register reads.
    pub closed spec fn atomic(&self) -> AtomicU8 {
        *self.value
    }

    pub fn new(value: &'a AtomicU8) -> (r: AtomicRegU8Ref<'a>)
        ensures
            r.atomic() == *value,
    {
        AtomicRegU8Ref { value }
    }
}

/// The value the atomic holds now, read with acquire ordering.
fn load_acquire(value: &AtomicU8) -> u8 {
    value.load(Ordering::Acquire)
}

/// Reads the one register of an atomic `u8` into `buf`: whatever the atomic
/// holds at the moment of the read, as a word below `0x100`.
fn read_atomic(value: &AtomicU8, offset: usize, buf: &mut [u16]) -> (r: RegisterResult<usize>)
    ensures
        final(buf)@.len() == old(buf)@.len(),
        match r {
            Ok(n) => {
                &&& offset < 1
                &&& n == reachable(old(buf)@.len(), 1, offset as nat)
                &&& n == 1 ==> final(buf)@[0] < 0x100
                &&& final(buf)@.skip(n as int) == old(buf)@.skip(n as int)
            },
            Err(e) => {
                &&& e == RegisterError::OutOfBounds { offset }
                &&& offset >= 1
                &&& final(buf)@ == old(buf)@
            },
        },
{
    let data = [load_acquire(value) as u16];
    let r = read_registers(data.as_slice(), offset, buf);
    proof {
        match r {
            Ok(n) => {
                if n == 1 {
                    assert(buf@.take(1)[0] == data@[0]);
                }
            },
            Err(_) => {},
        }
    }
    r
}

impl RegisterData for AtomicRegU8 {
    open spec fn spec_span(&self) -> nat {
        1
    }

    fn register_span(&self) -> (r: usize) {
        1
    }
}

impl<'a> RegisterData for AtomicRegU8Ref<'a> {
    open spec fn spec_span(&self) -> nat {
        1
    }

    fn register_span(&self) -> (r: usize) {
        1
    }
}

impl ReadRegisterData for AtomicRegU8 {
    fn read(&self, offset: usize, buf: &mut [u16]) -> (r: RegisterResult<usize>)
        ensures
            r matches Ok(n) ==> (n == 1 ==> final(buf)@[0] < 0x100),
    {
        let reff = AtomicRegU8Ref::new(&self.value);
        reff.read(offset, buf)
    }
}

impl<'a> ReadRegisterData for AtomicRegU8Ref<'a> {
    fn read(&self, offset: usize, buf: &mut [u16]) -> (r: RegisterResult<usize>)
        ensures
            r matches Ok(n) ==> (n == 1 ==> final(buf)@[0] < 0x100),
    {
        read_atomic(self.value, offset, buf)
    }
}

} // verus!
