use modbus_stack::register::{IntoRegIter, IntoRegIterMut, RegF64};

#[test]
fn reg_f64_reg_iter_001() {
    let reg0 = RegF64::from_bits(0.0f64.to_bits());
    let mut iter = reg0.into_reg_iter();
    assert_eq!(Some(&0x0000), iter.next());
    assert_eq!(Some(&0x0000), iter.next());
    assert_eq!(Some(&0x0000), iter.next());
    assert_eq!(Some(&0x0000), iter.next());
    assert_eq!(None, iter.next());
}

#[test]
fn reg_f64_reg_iter_mut_001() {
    let mut reg0 = RegF64::from_bits(0.0f64.to_bits());

    // check values equal initialization
    let mut iter = reg0.into_reg_iter();
    assert_eq!(Some(&0x0000), iter.next());
    assert_eq!(Some(&0x0000), iter.next());
    assert_eq!(Some(&0x0000), iter.next());
    assert_eq!(Some(&0x0000), iter.next());

    let data = {
        let data = 42.0f64.to_be_bytes();
        let data = [
            ((data[0] as u16) << 8) | (data[1] as u16),
            ((data[2] as u16) << 8) | (data[3] as u16),
            ((data[4] as u16) << 8) | (data[5] as u16),
            ((data[6] as u16) << 8) | (data[7] as u16),
        ];
        data
    };

    // change values
    let mut iter = reg0.into_reg_iter_mut();
    if let Some(reff) = iter.next() {
        *reff = data[0];
    }

    if let Some(reff) = iter.next() {
        *reff = data[1];
    }

    if let Some(reff) = iter.next() {
        *reff = data[2];
    }

    if let Some(reff) = iter.next() {
        *reff = data[3];
    }

    // check for change
    let value = f64::from_bits(reg0.to_bits());
    assert_eq!(value, 42.0f64);
}

#[test]
fn from_to_f64_001() {
    let reg = RegF64::from_bits(42.0f64.to_bits());
    let value = f64::from_bits(reg.to_bits());
    assert_eq!(value, 42.0);
}
