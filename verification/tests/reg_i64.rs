use modbus_stack::register::{RegI64, RegI64IterMut};

// Hands out the next register of the first iterator that still has one.
fn next_of<'a>(iters: &mut [RegI64IterMut<'a>]) -> Option<&'a mut u16> {
    for iter in iters.iter_mut() {
        if let Some(reff) = iter.next() {
            return Some(reff);
        }
    }
    None
}

#[test]
fn reg_i64_reg_iter_001() {
    let reg0 = RegI64::new(-1);
    let reg1 = RegI64::new(-2);

    let iter0 = reg0.reg_iter();
    let iter1 = reg1.reg_iter();

    let mut iter = iter0.chain(iter1);
    assert_eq!(Some(&0xFFFF), iter.next());
    assert_eq!(Some(&0xFFFF), iter.next());
    assert_eq!(Some(&0xFFFF), iter.next());
    assert_eq!(Some(&0xFFFF), iter.next());
    assert_eq!(Some(&0xFFFF), iter.next());
    assert_eq!(Some(&0xFFFF), iter.next());
    assert_eq!(Some(&0xFFFF), iter.next());
    assert_eq!(Some(&0xFFFE), iter.next());
    assert_eq!(None, iter.next());
}

#[test]
fn reg_i64_reg_iter_mut_001() {
    let mut reg0 = RegI64::new(-1);
    let mut reg1 = RegI64::new(-2);

    let iter0 = reg0.reg_iter();
    let iter1 = reg1.reg_iter();

    // check values equal initialization
    let mut iter = iter0.chain(iter1);
    assert_eq!(Some(&0xFFFF), iter.next());
    assert_eq!(Some(&0xFFFF), iter.next());
    assert_eq!(Some(&0xFFFF), iter.next());
    assert_eq!(Some(&0xFFFF), iter.next());
    assert_eq!(Some(&0xFFFF), iter.next());
    assert_eq!(Some(&0xFFFF), iter.next());
    assert_eq!(Some(&0xFFFF), iter.next());
    assert_eq!(Some(&0xFFFE), iter.next());
    assert_eq!(None, iter.next());

    // Change values
    let iter0 = reg0.reg_iter_mut();
    let iter1 = reg1.reg_iter_mut();
    
    let mut iters = [iter0, iter1];
    if let Some(reff) = next_of(&mut iters) {
        *reff = 0x00FF;
    }

    if let Some(reff) = next_of(&mut iters) {
        *reff = 0xEEDD;
    }

    if let Some(reff) = next_of(&mut iters) {
        *reff = 0xCCBB;
    }

    if let Some(reff) = next_of(&mut iters) {
        *reff = 0xAA99;
    }

    if let Some(reff) = next_of(&mut iters) {
        *reff = 0x8877;
    }

    if let Some(reff) = next_of(&mut iters) {
        *reff = 0x6655;
    }

    if let Some(reff) = next_of(&mut iters) {
        *reff = 0x4433;
    }

    if let Some(reff) = next_of(&mut iters) {
        *reff = 0x2211;
    }

    // check for change
    let iter0 = reg0.reg_iter();
    let iter1 = reg1.reg_iter();
    
    let mut iter = iter0.chain(iter1);
    assert_eq!(Some(&0x00FF), iter.next());
    assert_eq!(Some(&0xEEDD), iter.next());
    assert_eq!(Some(&0xCCBB), iter.next());
    assert_eq!(Some(&0xAA99), iter.next());
    assert_eq!(Some(&0x8877), iter.next());
    assert_eq!(Some(&0x6655), iter.next());
    assert_eq!(Some(&0x4433), iter.next());
    assert_eq!(Some(&0x2211), iter.next());
    assert_eq!(None, iter.next());
}

#[test]
fn reg_iter_mut_002() {
    let mut reg0 = RegI64::new(0x1122_3344_5566_7788);

    // check values equal initialization
    let mut iter = reg0.reg_iter();
    assert_eq!(Some(&0x1122), iter.next());
    assert_eq!(Some(&0x3344), iter.next());
    assert_eq!(Some(&0x5566), iter.next());
    assert_eq!(Some(&0x7788), iter.next());
    assert_eq!(None, iter.next());

    // change values
    let mut iter = reg0.reg_iter_mut();
    if let Some(reff) = iter.next() {
        *reff = 0xFFFF;
    }

    if let Some(reff) = iter.next() {
        *reff = 0xFFFF;
    }

    if let Some(reff) = iter.next() {
        *reff = 0xFFFF;
    }

    if let Some(reff) = iter.next() {
        *reff = 0xFFFF;
    }

    // check values equal initialization
    let mut iter = reg0.reg_iter();
    assert_eq!(Some(&0xFFFF), iter.next());
    assert_eq!(Some(&0xFFFF), iter.next());
    assert_eq!(Some(&0xFFFF), iter.next());
    assert_eq!(Some(&0xFFFF), iter.next());
    assert_eq!(None, iter.next());

    // check conversion
    let value = i64::from(reg0);
    assert_eq!(value, -1);
}

#[test]
fn from_to_i64_001() {
    let reg = RegI64::new(-1);
    let value = i64::from(reg);
    assert_eq!(value, -1);
}
