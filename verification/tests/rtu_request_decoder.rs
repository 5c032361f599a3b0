use modbus_stack::constants::MODBUS_RTU_FRAME_DATA_LENGTH;
use modbus_stack::rtu::{ModbusRtuFrameRequestDecoder, ModbusRtuFrameRequestDecoderResult};

#[test]
fn rtu_frame_decoder_read_coils_001() {
    let mut buffer = [0u8; MODBUS_RTU_FRAME_DATA_LENGTH];
    let mut decoder = ModbusRtuFrameRequestDecoder::new(&mut buffer);

    let _ = decoder.push_data(0x04); 
    let _ = decoder.push_data(0x01);
    let _ = decoder.push_data(0x00);
    let _ = decoder.push_data(0x0A);
    let _ = decoder.push_data(0x00);
    let _ = decoder.push_data(0x0D);
    let _ = decoder.push_data(0xDD);
    match decoder.push_data(0x98) {
        ModbusRtuFrameRequestDecoderResult::Success(_frame) => {
            assert!(true);
        },
        _ => assert!(false)
    }
}

#[test]
fn rtu_frame_decoder_read_holding_registers_001() {
    let mut buffer = [0u8; MODBUS_RTU_FRAME_DATA_LENGTH];
    let mut decoder = ModbusRtuFrameRequestDecoder::new(&mut buffer);

    let _ = decoder.push_data(0x01); 
    let _ = decoder.push_data(0x03);
    let _ = decoder.push_data(0x00);
    let _ = decoder.push_data(0x00);
    let _ = decoder.push_data(0x00);
    let _ = decoder.push_data(0x02);
    let _ = decoder.push_data(0xC4);
    match decoder.push_data(0x0B) {
        ModbusRtuFrameRequestDecoderResult::Success(_frame) => {
            assert!(true);
        },
        _ => assert!(false)
    }

    let _ = decoder.push_data(0x01); 
    let _ = decoder.push_data(0x03);
    let _ = decoder.push_data(0x00);
    let _ = decoder.push_data(0x00);
    let _ = decoder.push_data(0x00);
    let _ = decoder.push_data(0x02);
    let _ = decoder.push_data(0xC4);
    match decoder.push_data(0x0B) {
        ModbusRtuFrameRequestDecoderResult::Success(_frame) => {
            assert!(true);
        },
        _ => assert!(false)
    }
}
