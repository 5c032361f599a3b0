use core::sync::atomic::{AtomicU8, Ordering};
use modbus_stack::register::atomic::{AtomicRegU8, AtomicRegU8Ref};
use modbus_stack::register::{
    IntoRegIterMut, RegIterMut,
    GetRegisterValue, ReadRegisterData, RegBool, RegF32, RegF64, RegI16, RegI32, RegI64, RegI8,
    RegU16, RegU16Array, RegU32, RegU32Iter, RegI64Iter, RegU64, RegU8, RegisterData,
    RegisterError, SetRegisterValue, WriteRegisterData, RO, RW,
};

#[test]
fn words_are_most_significant_first() {
    assert_eq!(RegU32::new(0x1122_3344).registers(), &[0x1122, 0x3344]);
    assert_eq!(RegU64::new(0x0123_4567_89AB_CDEF).registers(), &[0x0123, 0x4567, 0x89AB, 0xCDEF]);
    assert_eq!(RegI32::new(-2).registers(), &[0xFFFF, 0xFFFE]);
    assert_eq!(RegI64::new(-2).registers(), &[0xFFFF, 0xFFFF, 0xFFFF, 0xFFFE]);
    assert_eq!(RegI16::new(-1).registers(), &[0xFFFF]);
    assert_eq!(RegI8::new(-1).registers(), &[0x00FF]);
    assert_eq!(RegU8::new(0xAB).registers(), &[0x00AB]);
    assert_eq!(RegBool::new(true).registers(), &[0xFFFF]);
    assert_eq!(RegBool::new(false).registers(), &[0x0000]);
    assert_eq!(RegF32::from_bits(0x4228_0000).registers(), &[0x4228, 0x0000]);
    assert_eq!(RegF64::from_bits(0x4045_0000_0000_0000).registers(), &[0x4045, 0, 0, 0]);
}

#[test]
fn values_read_back_as_set() {
    for v in [i32::MIN, -1, 0, 1, i32::MAX] {
        assert_eq!(i32::from(RegI32::new(v)), v);
    }
    for v in [i64::MIN, -1, 0, 1, i64::MAX] {
        assert_eq!(i64::from(RegI64::new(v)), v);
    }
    for v in [i16::MIN, -1, 0, 1, i16::MAX] {
        assert_eq!(i16::from(RegI16::new(v)), v);
    }
    for v in [i8::MIN, -1, 0, 1, i8::MAX] {
        assert_eq!(i8::from(RegI8::new(v)), v);
    }
    for v in [0u64, 1, u64::MAX, 0x8000_0000_0000_0000] {
        assert_eq!(u64::from(&RegU64::new(v)), v);
    }
    assert_eq!(u32::from(RegU32::from(&0xDEAD_BEEFu32)), 0xDEAD_BEEF);
    assert_eq!(u8::from(&RegU8::from(7u8)), 7);
    assert!(bool::from(RegBool::from(&true)));
}

#[test]
fn words_read_back_as_written() {
    let mut reg = RegI32::new(0);
    reg.registers_mut().copy_from_slice(&[0x8000, 0x0000]);
    assert_eq!(i32::from(&reg), i32::MIN);

    let mut reg = RegU8::new(0);
    reg.registers_mut()[0] = 0x1234;
    // Only the low byte counts.
    assert_eq!(u8::from(&reg), 0x34);

    let mut reg = RegBool::new(false);
    reg.registers_mut()[0] = 0x0001;
    assert!(bool::from(&reg));
}

#[test]
fn get_and_set_value() {
    let mut reg = RegU16::default();
    assert_eq!(GetRegisterValue::<u16>::get_value(&reg), 0);
    reg.set_value(0xCAFE);
    assert_eq!(GetRegisterValue::<u16>::get_value(&reg), 0xCAFE);

    let mut reg = RegI64::new(0);
    reg.set_value(-5i64);
    assert_eq!(GetRegisterValue::<i64>::get_value(&reg), -5);

    let mut reg = RegU16Array::<2>::new([1, 2]);
    reg.set_value([3, 4]);
    assert_eq!(GetRegisterValue::<[u16; 2]>::get_value(&reg), [3, 4]);
}

#[test]
fn index_iterators() {
    let reg = RegU32::new(0x1122_3344);
    let mut iter = RegU32Iter::new(&reg);
    assert_eq!(iter.next(), Some(&0x1122));
    assert_eq!(iter.next(), Some(&0x3344));
    assert_eq!(iter.next(), None);
    assert_eq!(iter.next(), None);

    let reg = RegI64::new(1);
    let mut iter = RegI64Iter::new(&reg);
    assert_eq!(iter.next(), Some(&0));
    assert_eq!(iter.next(), Some(&0));
    assert_eq!(iter.next(), Some(&0));
    assert_eq!(iter.next(), Some(&1));
    assert_eq!(iter.next(), None);
}

#[test]
fn text_registers() {
    let reg = RegU16Array::<3>::from_str("ABC");
    assert_eq!(reg.registers(), &[0x4142, 0x4300, 0x0000]);
    let reg = RegU16Array::<2>::from("ABCDEF");
    assert_eq!(reg.registers(), &[0x4142, 0x4344]);
    let reg = RegU16Array::<0>::from_str("AB");
    assert_eq!(reg.registers(), &[] as &[u16]);
    let array: [u16; 2] = RegU16Array::<2>::default().into();
    assert_eq!(array, [0, 0]);
    let reg = RegU16Array::<2>::new([7, 9]);
    assert_eq!(reg[0], 7);
    assert_eq!(reg[1], 9);
}

#[test]
fn read_register_data() {
    let reg = RegU16Array::<3>::new([1, 2, 3]);
    assert_eq!(reg.register_span(), 3);
    let mut buf = [0u16; 2];
    assert_eq!(reg.read(1, &mut buf), Ok(2));
    assert_eq!(buf, [2, 3]);
    let mut buf = [9u16; 4];
    assert_eq!(reg.read(2, &mut buf), Ok(1));
    assert_eq!(buf, [3, 9, 9, 9]);
    assert_eq!(reg.read(3, &mut buf), Err(RegisterError::OutOfBounds { offset: 3 }));
    assert_eq!(buf, [3, 9, 9, 9]);

    let reg = RegF32::from_bits(0x1234_5678);
    let mut buf = [0u16; 1];
    assert_eq!(reg.read(1, &mut buf), Ok(1));
    assert_eq!(buf, [0x5678]);
}

#[test]
fn write_register_data() {
    let mut reg = RegU16Array::<3>::new([1, 2, 3]);
    assert_eq!(reg.write(1, &[7, 8, 9]), Ok(2));
    assert_eq!(reg.registers(), &[1, 7, 8]);
    assert_eq!(reg.write(3, &[1]), Err(RegisterError::OutOfBounds { offset: 3 }));
    assert_eq!(reg.registers(), &[1, 7, 8]);

    let mut reg = RegF64::from_bits(0);
    assert_eq!(reg.write(0, &[0x4045]), Ok(1));
    assert_eq!(reg.to_bits(), 0x4045_0000_0000_0000);
}

#[test]
fn atomic_register() {
    let reg = AtomicRegU8::new(0x42);
    assert_eq!(reg.register_span(), 1);
    let mut buf = [0u16; 2];
    assert_eq!(reg.read(0, &mut buf), Ok(1));
    assert_eq!(buf, [0x0042, 0]);
    assert_eq!(reg.read(1, &mut buf), Err(RegisterError::OutOfBounds { offset: 1 }));

    let atomic = AtomicU8::new(7);
    let reff = AtomicRegU8Ref::new(&atomic);
    atomic.store(9, Ordering::Release);
    let mut buf = [0u16; 1];
    assert_eq!(reff.read(0, &mut buf), Ok(1));
    assert_eq!(buf, [9]);
}

#[test]
fn read_only_and_read_write_wrappers() {
    let reg = RO::new(RegU16::new(5));
    assert_eq!(u16::from(reg.get()), 5);
    let mut reg = RW::new(RegU16::new(5));
    reg.get_mut().set_value(6u16);
    assert_eq!(u16::from(reg.get()), 6);
}

#[test]
fn registers_read_back_as_written() {
    let mut reg = RegU16Array::<4>::new([1, 2, 3, 4]);
    assert_eq!(reg.write(2, &[0xAAAA, 0xBBBB, 0xCCCC]), Ok(2));
    let mut buf = [0u16; 2];
    assert_eq!(reg.read(2, &mut buf), Ok(2));
    assert_eq!(buf, [0xAAAA, 0xBBBB]);
    assert_eq!(reg.registers(), &[1, 2, 0xAAAA, 0xBBBB]);
}

#[test]
fn mutable_iteration_writes_the_registers() {
    let mut reg = RegI64::new(0x1122_3344_5566_7788);
    {
        let mut iter = reg.reg_iter_mut();
        while let Some(reff) = iter.next() {
            *reff = 0xFFFF;
        }
        assert!(iter.next().is_none());
    }
    assert_eq!(i64::from(&reg), -1);

    let mut reg = RW::new(RegU32::new(0));
    {
        let mut iter = reg.into_reg_iter_mut();
        *iter.next().unwrap() = 0x1234;
        *iter.next().unwrap() = 0x5678;
        assert!(iter.next().is_none());
    }
    assert_eq!(u32::from(reg.get()), 0x1234_5678);

    let mut words = [1u16, 2, 3];
    {
        let mut iter = RegIterMut::new(&mut words);
        let first = iter.next().unwrap();
        *first = 9;
    }
    assert_eq!(words, [9, 2, 3]);
}

#[test]
fn mutable_iteration_hands_out_the_registers_in_order() {
    let mut reg = RegU32::new(0x11223344);
    let seen: Vec<u16> = (&mut reg).into_iter().map(|w| *w).collect();
    assert_eq!(seen, vec![0x1122, 0x3344]);
    for (i, word) in (&mut reg).into_iter().enumerate() {
        *word = 0xA000 + i as u16;
    }
    assert_eq!(reg.get_value(), 0xA000A001u32);

    let mut flag = RegBool::new(true);
    let words: Vec<u16> = (&mut flag).into_iter().map(|w| *w).collect();
    assert_eq!(words, vec![0xFFFF]);
}
