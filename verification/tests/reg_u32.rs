use modbus_stack::register::{RegU32, RegU32IterMut};

// Hands out the next register of the first iterator that still has one.
fn next_of<'a>(iters: &mut [RegU32IterMut<'a>]) -> Option<&'a mut u16> {
    for iter in iters.iter_mut() {
        if let Some(reff) = iter.next() {
            return Some(reff);
        }
    }
    None
}

#[test]
fn reg_u32_reg_iter_001() {
    let reg0 = RegU32::new(0x11223344);
    let reg1 = RegU32::new(0xAABBCCDD);

    let iter0 = reg0.reg_iter();
    let iter1 = reg1.reg_iter();

    let mut iter = iter0.chain(iter1);
    assert_eq!(Some(&0x1122), iter.next());
    assert_eq!(Some(&0x3344), iter.next());
    assert_eq!(Some(&0xAABB), iter.next());
    assert_eq!(Some(&0xCCDD), iter.next());
    assert_eq!(None, iter.next());
}

#[test]
fn reg_u32_reg_iter_mut_001() {
    let mut reg0 = RegU32::new(0x11223344);
    let mut reg1 = RegU32::new(0x55667788);
    let mut reg2 = RegU32::new(0x99AABBCC);
    let mut reg3 = RegU32::new(0xDDEEFF00);

    let iter0 = reg0.reg_iter();
    let iter1 = reg1.reg_iter();
    let iter2 = reg2.reg_iter();
    let iter3 = reg3.reg_iter();

    // check values equal initialization
    let mut iter = iter0.chain(iter1).chain(iter2).chain(iter3);
    assert_eq!(Some(&0x1122), iter.next());
    assert_eq!(Some(&0x3344), iter.next());
    assert_eq!(Some(&0x5566), iter.next());
    assert_eq!(Some(&0x7788), iter.next());
    assert_eq!(Some(&0x99AA), iter.next());
    assert_eq!(Some(&0xBBCC), iter.next());
    assert_eq!(Some(&0xDDEE), iter.next());
    assert_eq!(Some(&0xFF00), iter.next());
    assert_eq!(None, iter.next());

    // Change values
    let iter0 = reg0.reg_iter_mut();
    let iter1 = reg1.reg_iter_mut();
    let iter2 = reg2.reg_iter_mut();
    let iter3 = reg3.reg_iter_mut();
    
    let mut iters = [iter0, iter1, iter2, iter3];
    if let Some(reff) = next_of(&mut iters) {
        *reff = 0x00FF;
    }

    if let Some(reff) = next_of(&mut iters) {
        *reff = 0xEEDD;
    }

    if let Some(reff) = next_of(&mut iters) {
        *reff = 0xCCBB;
    }

    if let Some(reff) = next_of(&mut iters) {
        *reff = 0xAA99;
    }

    if let Some(reff) = next_of(&mut iters) {
        *reff = 0x8877;
    }

    if let Some(reff) = next_of(&mut iters) {
        *reff = 0x6655;
    }

    if let Some(reff) = next_of(&mut iters) {
        *reff = 0x4433;
    }

    if let Some(reff) = next_of(&mut iters) {
        *reff = 0x2211;
    }

    // check for change
    let iter0 = reg0.reg_iter();
    let iter1 = reg1.reg_iter();
    let iter2 = reg2.reg_iter();
    let iter3 = reg3.reg_iter();
    
    let mut iter = iter0.chain(iter1).chain(iter2).chain(iter3);
    assert_eq!(Some(&0x00FF), iter.next());
    assert_eq!(Some(&0xEEDD), iter.next());
    assert_eq!(Some(&0xCCBB), iter.next());
    assert_eq!(Some(&0xAA99), iter.next());
    assert_eq!(Some(&0x8877), iter.next());
    assert_eq!(Some(&0x6655), iter.next());
    assert_eq!(Some(&0x4433), iter.next());
    assert_eq!(Some(&0x2211), iter.next());
    assert_eq!(None, iter.next());
}

#[test]
fn reg_u32_from_to_u32_001() {
    let reg = RegU32::new(0x11223344);
    let value = u32::from(reg);
    assert_eq!(value, 0x11223344);
}
