use modbus_stack::register::{IntoRegIter, IntoRegIterMut, RegIterMut, RegU8};

// Hands out the next register of the first iterator that still has one.
fn next_of<'a>(iters: &mut [RegIterMut<'a>]) -> Option<&'a mut u16> {
    for iter in iters.iter_mut() {
        if let Some(reff) = iter.next() {
            return Some(reff);
        }
    }
    None
}

#[test]
fn reg_u8_reg_iter_001() {
    let reg0 = RegU8::new(0x00);
    let reg1 = RegU8::new(0x01);
    let reg2 = RegU8::new(0x02);
    let reg3 = RegU8::new(0x03);

    let iter0 = reg0.into_reg_iter();
    let iter1 = reg1.into_reg_iter();
    let iter2 = reg2.into_reg_iter();
    let iter3 = reg3.into_reg_iter();

    let mut iter = iter0.chain(iter1).chain(iter2).chain(iter3);
    assert_eq!(Some(&0), iter.next());
    assert_eq!(Some(&1), iter.next());
    assert_eq!(Some(&2), iter.next());
    assert_eq!(Some(&3), iter.next());
    assert_eq!(None, iter.next());
}

#[test]
fn reg_u8_reg_iter_mut_001() {
    let mut reg0 = RegU8::new(0x00);
    let mut reg1 = RegU8::new(0x01);
    let mut reg2 = RegU8::new(0x02);
    let mut reg3 = RegU8::new(0x03);

    let iter0 = reg0.into_reg_iter();
    let iter1 = reg1.into_reg_iter();
    let iter2 = reg2.into_reg_iter();
    let iter3 = reg3.into_reg_iter();

    // check values equal initialization
    let mut iter = iter0.chain(iter1).chain(iter2).chain(iter3);
    assert_eq!(Some(&0), iter.next());
    assert_eq!(Some(&1), iter.next());
    assert_eq!(Some(&2), iter.next());
    assert_eq!(Some(&3), iter.next());
    assert_eq!(None, iter.next());

    // Change values
    let iter0 = reg0.into_reg_iter_mut();
    let iter1 = reg1.into_reg_iter_mut();
    let iter2 = reg2.into_reg_iter_mut();
    let iter3 = reg3.into_reg_iter_mut();
    
    let mut iters = [iter0, iter1, iter2, iter3];
    if let Some(reff) = next_of(&mut iters) {
        *reff = 42;
    }

    if let Some(reff) = next_of(&mut iters) {
        *reff = 1337;
    }

    if let Some(reff) = next_of(&mut iters) {
        *reff = 65525;
    }

    if let Some(reff) = next_of(&mut iters) {
        *reff = 1;
    }

    // check for change
    let iter0 = reg0.into_reg_iter();
    let iter1 = reg1.into_reg_iter();
    let iter2 = reg2.into_reg_iter();
    let iter3 = reg3.into_reg_iter();
    
    let mut iter = iter0.chain(iter1).chain(iter2).chain(iter3);
    assert_eq!(Some(&42), iter.next());
    assert_eq!(Some(&1337), iter.next());
    assert_eq!(Some(&65525), iter.next());
    assert_eq!(Some(&1), iter.next());
    assert_eq!(None, iter.next());
}

#[test]
fn reg_u8_from_to_u8_001() {
    let reg = RegU8::new(42);
    let value = u8::from(reg);
    assert_eq!(value, 42);
}
