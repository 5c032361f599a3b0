use modbus_stack::constants::MODBUS_RTU_FRAME_DATA_LENGTH;
use modbus_stack::rtu::ModbusRtuFrame;
use modbus_stack::server::response::ReadHoldingRegistersResponseBuilder;
use modbus_stack::PduData;

fn rtu_frame<'a>(data: &'a mut [u8; MODBUS_RTU_FRAME_DATA_LENGTH], pdu_length: usize) -> ModbusRtuFrame<'a> {
    data[0] = 0x11;
    data[1] = 0x03;
    ModbusRtuFrame::new_unchecked(data, pdu_length + 3)
}

#[test]
fn builder_writes_requested_registers() {
    let mut frame_buffer = [0u8; MODBUS_RTU_FRAME_DATA_LENGTH];
    let mut frame = rtu_frame(&mut frame_buffer, 6);
    let registers = [0x1234u16, 0xABCD, 0x5555];
    let mut builder = ReadHoldingRegistersResponseBuilder::new(&mut frame, &registers, 2);
    assert_eq!(builder.encode(), Ok(6));
    assert_eq!(frame.pdu_data(), &[0x03, 0x04, 0x12, 0x34, 0xAB, 0xCD]);
}

#[test]
fn builder_writes_at_most_the_given_registers() {
    let mut frame_buffer = [0u8; MODBUS_RTU_FRAME_DATA_LENGTH];
    let mut frame = rtu_frame(&mut frame_buffer, 6);
    let registers = [0x0102u16];
    let mut builder = ReadHoldingRegistersResponseBuilder::new(&mut frame, &registers, 5);
    assert_eq!(builder.encode(), Ok(4));
    assert_eq!(frame.pdu_data(), &[0x03, 0x02, 0x01, 0x02, 0x00, 0x00]);
}

#[test]
fn builder_fails_without_room() {
    let mut frame_buffer = [0u8; MODBUS_RTU_FRAME_DATA_LENGTH];
    let mut frame = rtu_frame(&mut frame_buffer, 5);
    let registers = [0x1234u16, 0xABCD];
    let mut builder = ReadHoldingRegistersResponseBuilder::new(&mut frame, &registers, 2);
    assert_eq!(builder.encode(), Err(()));
    // The first register and the high byte of the second fit; no byte count.
    assert_eq!(frame.pdu_data(), &[0x03, 0x00, 0x12, 0x34, 0xAB]);
}

#[test]
fn builder_without_registers_writes_byte_count_zero() {
    let mut frame_buffer = [0u8; MODBUS_RTU_FRAME_DATA_LENGTH];
    let mut frame = rtu_frame(&mut frame_buffer, 2);
    let registers: [u16; 0] = [];
    let mut builder = ReadHoldingRegistersResponseBuilder::new(&mut frame, &registers, 3);
    assert_eq!(builder.encode(), Ok(2));
    assert_eq!(frame.pdu_data(), &[0x03, 0x00]);
}
