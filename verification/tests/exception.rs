use modbus_stack::ExceptionCode;

#[test]
fn test_from_001() {
    let exception = ExceptionCode::IllegalFunction;
    let value = u8::from(exception);
    let new_exception = ExceptionCode::from(value);
    assert_eq!(exception, new_exception);
}

#[test]
fn test_from_002() {
    let exception = ExceptionCode::IllegalDataAddress;
    let value = u8::from(exception);
    let new_exception = ExceptionCode::from(value);
    assert_eq!(exception, new_exception);
}

#[test]
fn test_from_003() {
    let exception = ExceptionCode::IllegalDataValue;
    let value = u8::from(exception);
    let new_exception = ExceptionCode::from(value);
    assert_eq!(exception, new_exception);
}

#[test]
fn test_from_004() {
    let exception = ExceptionCode::SlaveDeviceFailure;
    let value = u8::from(exception);
    let new_exception = ExceptionCode::from(value);
    assert_eq!(exception, new_exception);
}

#[test]
fn test_from_005() {
    let exception = ExceptionCode::Acknowledge;
    let value = u8::from(exception);
    let new_exception = ExceptionCode::from(value);
    assert_eq!(exception, new_exception);
}

#[test]
fn test_from_006() {
    let exception = ExceptionCode::SlaveDeviceBusy;
    let value = u8::from(exception);
    let new_exception = ExceptionCode::from(value);
    assert_eq!(exception, new_exception);
}

#[test]
fn test_from_007() {
    let exception = ExceptionCode::MemoryParityError;
    let value = u8::from(exception);
    let new_exception = ExceptionCode::from(value);
    assert_eq!(exception, new_exception);
}

#[test]
fn test_from_008() {
    let exception = ExceptionCode::GatewayPathUnavailable;
    let value = u8::from(exception);
    let new_exception = ExceptionCode::from(value);
    assert_eq!(exception, new_exception);
}

#[test]
fn test_from_009() {
    let exception = ExceptionCode::GatewayTargetFailedToRespond;
    let value = u8::from(exception);
    let new_exception = ExceptionCode::from(value);
    assert_eq!(exception, new_exception);
}

#[test]
fn test_from_010() {
    for v in 0x0C..0xFF {
        let exception = ExceptionCode::Unknown(v);
        let value = u8::from(exception);
        let new_exception = ExceptionCode::from(value);
        assert_eq!(exception, new_exception);
    }
}
