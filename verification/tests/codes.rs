use modbus_stack::{FunctionCode, FunctionKind};

#[test]
fn function_kind_001() {
    let code = FunctionCode::ReadCoils;
    let normal = FunctionKind::new_normal(code);
    let exception = FunctionKind::new_exception(code);

    let normal_value = u8::from(normal);
    let exeception_value = u8::from(exception);

    assert_eq!(normal_value, u8::from(code));
    assert_eq!(exeception_value, u8::from(code) | 0x80);
    assert!(exeception_value > normal_value);
    assert!(exeception_value - normal_value == 0x80);
}

#[test]
fn function_kind_002() {
    let code = FunctionCode::ReadDiscreteInputs;
    let normal = FunctionKind::new_normal(code);
    let exception = FunctionKind::new_exception(code);

    let normal_value = u8::from(normal);
    let exeception_value = u8::from(exception);

    assert_eq!(normal_value, u8::from(code));
    assert_eq!(exeception_value, u8::from(code) | 0x80);
    assert!(exeception_value > normal_value);
    assert!(exeception_value - normal_value == 0x80);
}

#[test]
fn function_kind_003() {
    let code = FunctionCode::ReadHoldingRegisters;
    let normal = FunctionKind::new_normal(code);
    let exception = FunctionKind::new_exception(code);

    let normal_value = u8::from(normal);
    let exeception_value = u8::from(exception);

    assert_eq!(normal_value, u8::from(code));
    assert_eq!(exeception_value, u8::from(code) | 0x80);
    assert!(exeception_value > normal_value);
    assert!(exeception_value - normal_value == 0x80);
}

#[test]
fn function_kind_004() {
    let code = FunctionCode::ReadInputRegisters;
    let normal = FunctionKind::new_normal(code);
    let exception = FunctionKind::new_exception(code);

    let normal_value = u8::from(normal);
    let exeception_value = u8::from(exception);

    assert_eq!(normal_value, u8::from(code));
    assert_eq!(exeception_value, u8::from(code) | 0x80);
    assert!(exeception_value > normal_value);
    assert!(exeception_value - normal_value == 0x80);
}

#[test]
fn function_kind_005() {
    let code = FunctionCode::WriteSingleCoil;
    let normal = FunctionKind::new_normal(code);
    let exception = FunctionKind::new_exception(code);

    let normal_value = u8::from(normal);
    let exeception_value = u8::from(exception);

    assert_eq!(normal_value, u8::from(code));
    assert_eq!(exeception_value, u8::from(code) | 0x80);
    assert!(exeception_value > normal_value);
    assert!(exeception_value - normal_value == 0x80);
}

#[test]
fn function_kind_006() {
    let code = FunctionCode::WriteSingleRegister;
    let normal = FunctionKind::new_normal(code);
    let exception = FunctionKind::new_exception(code);

    let normal_value = u8::from(normal);
    let exeception_value = u8::from(exception);

    assert_eq!(normal_value, u8::from(code));
    assert_eq!(exeception_value, u8::from(code) | 0x80);
    assert!(exeception_value > normal_value);
    assert!(exeception_value - normal_value == 0x80);
}

#[test]
fn function_kind_007() {
    let code = FunctionCode::ReadExceptionStatus;
    let normal = FunctionKind::new_normal(code);
    let exception = FunctionKind::new_exception(code);

    let normal_value = u8::from(normal);
    let exeception_value = u8::from(exception);

    assert_eq!(normal_value, u8::from(code));
    assert_eq!(exeception_value, u8::from(code) | 0x80);
    assert!(exeception_value > normal_value);
    assert!(exeception_value - normal_value == 0x80);
}

#[test]
fn function_kind_008() {
    let code = FunctionCode::Diagnostic;
    let normal = FunctionKind::new_normal(code);
    let exception = FunctionKind::new_exception(code);

    let normal_value = u8::from(normal);
    let exeception_value = u8::from(exception);

    assert_eq!(normal_value, u8::from(code));
    assert_eq!(exeception_value, u8::from(code) | 0x80);
    assert!(exeception_value > normal_value);
    assert!(exeception_value - normal_value == 0x80);
}

#[test]
fn function_kind_009() {
    let code = FunctionCode::GetComEventCounter;
    let normal = FunctionKind::new_normal(code);
    let exception = FunctionKind::new_exception(code);

    let normal_value = u8::from(normal);
    let exeception_value = u8::from(exception);

    assert_eq!(normal_value, u8::from(code));
    assert_eq!(exeception_value, u8::from(code) | 0x80);
    assert!(exeception_value > normal_value);
    assert!(exeception_value - normal_value == 0x80);
}

#[test]
fn function_kind_010() {
    let code = FunctionCode::GetComEventLog;
    let normal = FunctionKind::new_normal(code);
    let exception = FunctionKind::new_exception(code);

    let normal_value = u8::from(normal);
    let exeception_value = u8::from(exception);

    assert_eq!(normal_value, u8::from(code));
    assert_eq!(exeception_value, u8::from(code) | 0x80);
    assert!(exeception_value > normal_value);
    assert!(exeception_value - normal_value == 0x80);
}

#[test]
fn function_kind_011() {
    let code = FunctionCode::WriteMultipleCoils;
    let normal = FunctionKind::new_normal(code);
    let exception = FunctionKind::new_exception(code);

    let normal_value = u8::from(normal);
    let exeception_value = u8::from(exception);

    assert_eq!(normal_value, u8::from(code));
    assert_eq!(exeception_value, u8::from(code) | 0x80);
    assert!(exeception_value > normal_value);
    assert!(exeception_value - normal_value == 0x80);
}

#[test]
fn function_kind_012() {
    let code = FunctionCode::WriteMultipleRegisters;
    let normal = FunctionKind::new_normal(code);
    let exception = FunctionKind::new_exception(code);

    let normal_value = u8::from(normal);
    let exeception_value = u8::from(exception);

    assert_eq!(normal_value, u8::from(code));
    assert_eq!(exeception_value, u8::from(code) | 0x80);
    assert!(exeception_value > normal_value);
    assert!(exeception_value - normal_value == 0x80);
}

#[test]
fn function_kind_013() {
    let code = FunctionCode::ReportServerId;
    let normal = FunctionKind::new_normal(code);
    let exception = FunctionKind::new_exception(code);

    let normal_value = u8::from(normal);
    let exeception_value = u8::from(exception);

    assert_eq!(normal_value, u8::from(code));
    assert_eq!(exeception_value, u8::from(code) | 0x80);
    assert!(exeception_value > normal_value);
    assert!(exeception_value - normal_value == 0x80);
}

#[test]
fn function_kind_014() {
    let code = FunctionCode::ReadFileRecord;
    let normal = FunctionKind::new_normal(code);
    let exception = FunctionKind::new_exception(code);

    let normal_value = u8::from(normal);
    let exeception_value = u8::from(exception);

    assert_eq!(normal_value, u8::from(code));
    assert_eq!(exeception_value, u8::from(code) | 0x80);
    assert!(exeception_value > normal_value);
    assert!(exeception_value - normal_value == 0x80);
}

#[test]
fn function_kind_015() {
    let code = FunctionCode::WriteFileRecord;
    let normal = FunctionKind::new_normal(code);
    let exception = FunctionKind::new_exception(code);

    let normal_value = u8::from(normal);
    let exeception_value = u8::from(exception);

    assert_eq!(normal_value, u8::from(code));
    assert_eq!(exeception_value, u8::from(code) | 0x80);
    assert!(exeception_value > normal_value);
    assert!(exeception_value - normal_value == 0x80);
}

#[test]
fn function_kind_016() {
    let code = FunctionCode::MaskWriteRegister;
    let normal = FunctionKind::new_normal(code);
    let exception = FunctionKind::new_exception(code);

    let normal_value = u8::from(normal);
    let exeception_value = u8::from(exception);

    assert_eq!(normal_value, u8::from(code));
    assert_eq!(exeception_value, u8::from(code) | 0x80);
    assert!(exeception_value > normal_value);
    assert!(exeception_value - normal_value == 0x80);
}

#[test]
fn function_kind_017() {
    let code = FunctionCode::ReadWriteMultipleRegisters;
    let normal = FunctionKind::new_normal(code);
    let exception = FunctionKind::new_exception(code);

    let normal_value = u8::from(normal);
    let exeception_value = u8::from(exception);

    assert_eq!(normal_value, u8::from(code));
    assert_eq!(exeception_value, u8::from(code) | 0x80);
    assert!(exeception_value > normal_value);
    assert!(exeception_value - normal_value == 0x80);
}

#[test]
fn function_kind_018() {
    let code = FunctionCode::ReadFifoQueue;
    let normal = FunctionKind::new_normal(code);
    let exception = FunctionKind::new_exception(code);

    let normal_value = u8::from(normal);
    let exeception_value = u8::from(exception);

    assert_eq!(normal_value, u8::from(code));
    assert_eq!(exeception_value, u8::from(code) | 0x80);
    assert!(exeception_value > normal_value);
    assert!(exeception_value - normal_value == 0x80);
}

#[test]
fn function_kind_019() {
    let code = FunctionCode::Unknown(43);
    let normal = FunctionKind::new_normal(code);
    let exception = FunctionKind::new_exception(code);

    let normal_value = u8::from(normal);
    let exeception_value = u8::from(exception);

    assert_eq!(normal_value, u8::from(code));
    assert_eq!(exeception_value, u8::from(code) | 0x80);
    assert!(exeception_value > normal_value);
    assert!(exeception_value - normal_value == 0x80);
}
