use core::mem::size_of;
use modbus_stack::register::{
    IntoRegIter, RegBool, RegF32, RegF64, RegI16, RegI32, RegI64, RegI8, RegU16, RegU32, RegU64,
    RegU8, RO, RW,
};

#[test]
fn mod_reg_iter_001() {
    let reg0 = RegBool::new(true);
    let reg1 = RegU8::new(0x12);
    let reg2 = RegU16::new(0xADAC);
    let reg3 = RegU32::new(0x11223344);
    let reg4 = RegU64::new(0x0123456789ABCDEF);

    let iter0 = reg0.into_reg_iter();
    let iter1 = reg1.into_reg_iter();
    let iter2 = reg2.into_reg_iter();
    let iter3 = reg3.into_reg_iter();
    let iter4 = reg4.into_reg_iter();

    let mut iter = iter0.chain(iter1).chain(iter2).chain(iter3).chain(iter4); 
    assert_eq!(Some(&0xFFFF), iter.next());
    assert_eq!(Some(&0x0012), iter.next());
    assert_eq!(Some(&0xADAC), iter.next());
    assert_eq!(Some(&0x1122), iter.next());
    assert_eq!(Some(&0x3344), iter.next());
    assert_eq!(Some(&0x0123), iter.next());
    assert_eq!(Some(&0x4567), iter.next());
    assert_eq!(Some(&0x89AB), iter.next());
    assert_eq!(Some(&0xCDEF), iter.next());
    assert_eq!(None, iter.next());
}

#[test]
fn reg_iter_ro_register_001() {
    let reg0 = RegBool::new(true);
    let reg0 = RO::new(reg0);

    let reg1 = RegU8::new(0x12);
    let reg1 = RO::new(reg1);

    let reg2 = RegU16::new(0xADAC);
    let reg2 = RO::new(reg2);

    let reg3 = RegU32::new(0x11223344);
    let reg3 = RO::new(reg3);

    let reg4 = RegU64::new(0x0123456789ABCDEF);
    let reg4 = RO::new(reg4);

    let iter0 = reg0.into_reg_iter();
    let iter1 = reg1.into_reg_iter();
    let iter2 = reg2.into_reg_iter();
    let iter3 = reg3.into_reg_iter();
    let iter4 = reg4.into_reg_iter();

    let mut iter = iter0.chain(iter1).chain(iter2).chain(iter3).chain(iter4); 
    assert_eq!(Some(&0xFFFF), iter.next());
    assert_eq!(Some(&0x0012), iter.next());
    assert_eq!(Some(&0xADAC), iter.next());
    assert_eq!(Some(&0x1122), iter.next());
    assert_eq!(Some(&0x3344), iter.next());
    assert_eq!(Some(&0x0123), iter.next());
    assert_eq!(Some(&0x4567), iter.next());
    assert_eq!(Some(&0x89AB), iter.next());
    assert_eq!(Some(&0xCDEF), iter.next());
    assert_eq!(None, iter.next());
}

#[test]
fn reg_iter_rw_register_001() {
    let reg0 = RegBool::new(true);
    let reg0 = RW::new(reg0);

    let reg1 = RegU8::new(0x12);
    let reg1 = RW::new(reg1);

    let reg2 = RegU16::new(0xADAC);
    let reg2 = RW::new(reg2);

    let reg3 = RegU32::new(0x11223344);
    let reg3 = RW::new(reg3);

    let reg4 = RegU64::new(0x0123456789ABCDEF);
    let reg4 = RW::new(reg4);

    let iter0 = reg0.into_reg_iter();
    let iter1 = reg1.into_reg_iter();
    let iter2 = reg2.into_reg_iter();
    let iter3 = reg3.into_reg_iter();
    let iter4 = reg4.into_reg_iter();

    let mut iter = iter0.chain(iter1).chain(iter2).chain(iter3).chain(iter4); 
    assert_eq!(Some(&0xFFFF), iter.next());
    assert_eq!(Some(&0x0012), iter.next());
    assert_eq!(Some(&0xADAC), iter.next());
    assert_eq!(Some(&0x1122), iter.next());
    assert_eq!(Some(&0x3344), iter.next());
    assert_eq!(Some(&0x0123), iter.next());
    assert_eq!(Some(&0x4567), iter.next());
    assert_eq!(Some(&0x89AB), iter.next());
    assert_eq!(Some(&0xCDEF), iter.next());
    assert_eq!(None, iter.next());
}

#[test]
fn size_of_ro_001() {
    assert_eq!(size_of::<RO<RegBool>>(), size_of::<RegBool>());
    assert_eq!(size_of::<RO<RegU8>>(), size_of::<RegU8>());
    assert_eq!(size_of::<RO<RegU16>>(), size_of::<RegU16>());
    assert_eq!(size_of::<RO<RegU32>>(), size_of::<RegU32>());
    assert_eq!(size_of::<RO<RegU64>>(), size_of::<RegU64>());
    assert_eq!(size_of::<RO<RegI8>>(), size_of::<RegI8>());
    assert_eq!(size_of::<RO<RegI16>>(), size_of::<RegI16>());
    assert_eq!(size_of::<RO<RegI32>>(), size_of::<RegI32>());
    assert_eq!(size_of::<RO<RegI64>>(), size_of::<RegI64>());
    assert_eq!(size_of::<RO<RegF32>>(), size_of::<RegF32>());
    assert_eq!(size_of::<RO<RegF64>>(), size_of::<RegF64>());
}
