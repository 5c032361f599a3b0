use modbus_stack::constants::MODBUS_RTU_FRAME_DATA_LENGTH;
use modbus_stack::decode::request::read_holding_registers::{DecoderError, RequestDecoder};
use modbus_stack::decode::request::write_multiple_registers::{Request as WriteMultipleRequest, RequestError as WriteMultipleError};
use modbus_stack::decode::request::write_single_register::{Request as WriteSingleRequest, RequestError as WriteSingleError};
use modbus_stack::decode::response::read_holding_registers::{
    ReadHoldingRegistersResponseDecoder, ReadHoldingRegistersResponseDecoderError,
};
use modbus_stack::decode::response::read_input_registers::{
    ReadInputRegistersResponseDecoder, ReadInputRegistersResponseDecoderError,
};
use modbus_stack::decode::response::write_single_register::{
    WriteSingleRegisterReponseDecoder, WriteSingleRegisterReponseDecoderError,
};
use modbus_stack::rtu::ModbusRtuFrame;
use modbus_stack::server::request::{WriteSingleRegisterRequest, WriteSingleRegisterRequestError};
use modbus_stack::{FunctionCode, FunctionKind, PduData};

// Slave address, the PDU, and two checksum bytes (the decoders do not look at them).
fn rtu_frame<'a>(data: &'a mut [u8; MODBUS_RTU_FRAME_DATA_LENGTH], pdu: &[u8]) -> ModbusRtuFrame<'a> {
    data[0] = 0x11;
    data[1..1 + pdu.len()].copy_from_slice(pdu);
    ModbusRtuFrame::new_unchecked(data, pdu.len() + 3)
}

#[test]
fn rtu_frame_pdu_lies_between_address_and_checksum() {
    let mut buffer = [0u8; MODBUS_RTU_FRAME_DATA_LENGTH];
    let frame = rtu_frame(&mut buffer, &[0x03, 0x00, 0x6B, 0x00, 0x03]);
    assert_eq!(frame.pdu_data(), &[0x03, 0x00, 0x6B, 0x00, 0x03]);
    assert_eq!(frame.function_code(), FunctionKind::Normal(FunctionCode::ReadHoldingRegisters));
    assert_eq!(frame.length(), None);
}

#[test]
fn read_holding_registers_request_decodes() {
    let mut buffer = [0u8; MODBUS_RTU_FRAME_DATA_LENGTH];
    let frame = rtu_frame(&mut buffer, &[0x03, 0x00, 0x6B, 0x00, 0x03]);
    let request = RequestDecoder::new(&frame).unwrap();
    assert_eq!(request.function_code(), FunctionKind::Normal(FunctionCode::ReadHoldingRegisters));
    assert_eq!(request.starting_address(), 0x006B);
    assert_eq!(request.quantity_of_registers(), 3);
}

#[test]
fn read_holding_registers_request_errors() {
    assert_eq!(RequestDecoder::new(&rtu_frame(&mut [0u8; MODBUS_RTU_FRAME_DATA_LENGTH], &[0x03, 0x00, 0x6B, 0x00])).err(), Some(DecoderError::NotEnoughData));
    assert_eq!(RequestDecoder::new(&rtu_frame(&mut [0u8; MODBUS_RTU_FRAME_DATA_LENGTH], &[0x04, 0x00, 0x6B, 0x00, 0x03])).err(), Some(DecoderError::InvalidFunctionCode));
    assert_eq!(RequestDecoder::new(&rtu_frame(&mut [0u8; MODBUS_RTU_FRAME_DATA_LENGTH], &[0x03, 0x00, 0x6B, 0x00, 0x00])).err(), Some(DecoderError::InvalidQuantityOfRegisters));
    assert_eq!(RequestDecoder::new(&rtu_frame(&mut [0u8; MODBUS_RTU_FRAME_DATA_LENGTH], &[0x03, 0x00, 0x6B, 0x00, 0x7E])).err(), Some(DecoderError::InvalidQuantityOfRegisters));
    assert!(RequestDecoder::new(&rtu_frame(&mut [0u8; MODBUS_RTU_FRAME_DATA_LENGTH], &[0x03, 0x00, 0x6B, 0x00, 0x7D])).is_ok());
}

#[test]
fn write_single_register_request_decodes() {
    let mut buffer = [0u8; MODBUS_RTU_FRAME_DATA_LENGTH];
    let frame = rtu_frame(&mut buffer, &[0x06, 0x00, 0x01, 0x00, 0x03]);
    let request = WriteSingleRequest::new(&frame).unwrap();
    assert_eq!(request.function_code(), FunctionKind::Normal(FunctionCode::WriteSingleRegister));
    assert_eq!(request.register_address(), 0x0001);
    assert_eq!(request.register_value(), 0x0003);
}

#[test]
fn write_single_register_request_errors() {
    assert_eq!(WriteSingleRequest::new(&rtu_frame(&mut [0u8; MODBUS_RTU_FRAME_DATA_LENGTH], &[0x06, 0x00, 0x01, 0x00])).err(), Some(WriteSingleError::NotEnoughData));
    assert_eq!(WriteSingleRequest::new(&rtu_frame(&mut [0u8; MODBUS_RTU_FRAME_DATA_LENGTH], &[0x05, 0x00, 0x01, 0x00, 0x03])).err(), Some(WriteSingleError::InvalidFunctionCode));
}

#[test]
fn write_multiple_registers_request_decodes() {
    let mut buffer = [0u8; MODBUS_RTU_FRAME_DATA_LENGTH];
    let frame = rtu_frame(&mut buffer, &[0x10, 0x00, 0x01, 0x00, 0x02, 0x04, 0x00, 0x0A, 0x01, 0x02]);
    let request = WriteMultipleRequest::new(&frame).unwrap();
    assert_eq!(request.function_code(), FunctionKind::Normal(FunctionCode::WriteMultipleRegisters));
    assert_eq!(request.starting_address(), 0x0001);
    assert_eq!(request.quantity_of_registers(), 2);
    assert_eq!(request.byte_count(), 4);

    let mut values = request.register_values();
    assert_eq!(values.size_hint(), (2, Some(2)));
    let mut copy = values.duplicate();
    assert_eq!(values.next(), Some(0x000A));
    assert_eq!(values.next(), Some(0x0102));
    assert_eq!(values.next(), None);
    assert_eq!(copy.next(), Some(0x000A));

    let mut dest = [0xFFFFu16; 3];
    assert_eq!(request.write_to(&mut dest), 2);
    assert_eq!(dest, [0x000A, 0x0102, 0xFFFF]);

    let mut short = [0u16; 1];
    assert_eq!(request.write_to(&mut short), 1);
    assert_eq!(short, [0x000A]);

    let mut values = request.into_iter();
    assert_eq!(values.next(), Some(0x000A));
    assert_eq!(values.size_hint(), (1, Some(1)));
}

#[test]
fn write_multiple_registers_request_errors() {
    assert_eq!(WriteMultipleRequest::new(&rtu_frame(&mut [0u8; MODBUS_RTU_FRAME_DATA_LENGTH], &[0x10, 0x00, 0x01, 0x00, 0x02])).err(), Some(WriteMultipleError::NotEnoughData));
    assert_eq!(WriteMultipleRequest::new(&rtu_frame(&mut [0u8; MODBUS_RTU_FRAME_DATA_LENGTH], &[0x06, 0x00, 0x01, 0x00, 0x01, 0x02, 0x00, 0x0A])).err(), Some(WriteMultipleError::InvalidFunctionCode));
    assert_eq!(WriteMultipleRequest::new(&rtu_frame(&mut [0u8; MODBUS_RTU_FRAME_DATA_LENGTH], &[0x10, 0x00, 0x01, 0x00, 0x00, 0x00])).err(), Some(WriteMultipleError::InvalidQuantityOfRegisters));
    assert_eq!(WriteMultipleRequest::new(&rtu_frame(&mut [0u8; MODBUS_RTU_FRAME_DATA_LENGTH], &[0x10, 0x00, 0x01, 0x00, 0x7C, 0x02, 0x00, 0x0A])).err(), Some(WriteMultipleError::InvalidQuantityOfRegisters));
    assert_eq!(WriteMultipleRequest::new(&rtu_frame(&mut [0u8; MODBUS_RTU_FRAME_DATA_LENGTH], &[0x10, 0x00, 0x01, 0x00, 0x02, 0x04, 0x00, 0x0A])).err(), Some(WriteMultipleError::NotEnoughData));
    assert_eq!(WriteMultipleRequest::new(&rtu_frame(&mut [0u8; MODBUS_RTU_FRAME_DATA_LENGTH], &[0x10, 0x00, 0x01, 0x00, 0x02, 0x02, 0x00, 0x0A])).err(), Some(WriteMultipleError::InvalidByteCount));
    // A byte count that announces more bytes than there are, however large.
    assert_eq!(WriteMultipleRequest::new(&rtu_frame(&mut [0u8; MODBUS_RTU_FRAME_DATA_LENGTH], &[0x10, 0x00, 0x01, 0x00, 0x02, 0xFA, 0x00, 0x0A])).err(), Some(WriteMultipleError::NotEnoughData));
}

#[test]
fn read_holding_registers_response_decodes() {
    // The second byte is taken as the number of registers.
    let mut buffer = [0u8; MODBUS_RTU_FRAME_DATA_LENGTH];
    let frame = rtu_frame(&mut buffer, &[0x03, 0x01, 0x12, 0x34]);
    let response = ReadHoldingRegistersResponseDecoder::new(&frame).unwrap();
    assert_eq!(response.function_code(), FunctionKind::Normal(FunctionCode::ReadHoldingRegisters));
    assert_eq!(response.byte_count(), 2);
}

#[test]
fn read_holding_registers_response_errors() {
    assert_eq!(ReadHoldingRegistersResponseDecoder::new(&rtu_frame(&mut [0u8; MODBUS_RTU_FRAME_DATA_LENGTH], &[0x03, 0x01, 0x12])).err(), Some(ReadHoldingRegistersResponseDecoderError::NotEnoughData));
    assert_eq!(ReadHoldingRegistersResponseDecoder::new(&rtu_frame(&mut [0u8; MODBUS_RTU_FRAME_DATA_LENGTH], &[0x04, 0x01, 0x12, 0x34])).err(), Some(ReadHoldingRegistersResponseDecoderError::InvalidFunctionCode));
    assert_eq!(ReadHoldingRegistersResponseDecoder::new(&rtu_frame(&mut [0u8; MODBUS_RTU_FRAME_DATA_LENGTH], &[0x03, 0x02, 0x12, 0x34])).err(), Some(ReadHoldingRegistersResponseDecoderError::NotEnoughData));
    assert_eq!(ReadHoldingRegistersResponseDecoder::new(&rtu_frame(&mut [0u8; MODBUS_RTU_FRAME_DATA_LENGTH], &[0x03, 0x00, 0x12, 0x34])).err(), Some(ReadHoldingRegistersResponseDecoderError::InvalidQuanitityOfRegisters));
}

#[test]
fn read_input_registers_response_decodes() {
    let mut buffer = [0u8; MODBUS_RTU_FRAME_DATA_LENGTH];
    let frame = rtu_frame(&mut buffer, &[0x04, 0x04, 0x00, 0x0A, 0xBE, 0xEF]);
    let response = ReadInputRegistersResponseDecoder::new(&frame).unwrap();
    assert_eq!(response.function_code(), FunctionKind::Normal(FunctionCode::ReadInputRegisters));
    assert_eq!(response.byte_count(), 4);
    assert_eq!(response.quantity_of_registers(), 2);
    let mut values = response.into_iter();
    assert_eq!(values.next(), Some(0x000A));
    assert_eq!(values.next(), Some(0xBEEF));
    assert_eq!(values.next(), None);
}

#[test]
fn read_input_registers_response_errors() {
    assert_eq!(ReadInputRegistersResponseDecoder::new(&rtu_frame(&mut [0u8; MODBUS_RTU_FRAME_DATA_LENGTH], &[0x04, 0x02, 0x00])).err(), Some(ReadInputRegistersResponseDecoderError::NotEnoughData));
    assert_eq!(ReadInputRegistersResponseDecoder::new(&rtu_frame(&mut [0u8; MODBUS_RTU_FRAME_DATA_LENGTH], &[0x03, 0x02, 0x00, 0x0A])).err(), Some(ReadInputRegistersResponseDecoderError::InvalidFunctionCode));
    assert_eq!(ReadInputRegistersResponseDecoder::new(&rtu_frame(&mut [0u8; MODBUS_RTU_FRAME_DATA_LENGTH], &[0x04, 0x04, 0x00, 0x0A])).err(), Some(ReadInputRegistersResponseDecoderError::NotEnoughData));
    assert_eq!(ReadInputRegistersResponseDecoder::new(&rtu_frame(&mut [0u8; MODBUS_RTU_FRAME_DATA_LENGTH], &[0x04, 0x01, 0x00, 0x0A])).err(), Some(ReadInputRegistersResponseDecoderError::InvalidQuanitityOfRegisters));
}

#[test]
fn write_single_register_response_decodes() {
    let mut buffer = [0u8; MODBUS_RTU_FRAME_DATA_LENGTH];
    let frame = rtu_frame(&mut buffer, &[0x06, 0x00, 0x01, 0x00, 0x03]);
    let response = WriteSingleRegisterReponseDecoder::new(&frame).unwrap();
    assert_eq!(response.register_address(), 0x0001);
    assert_eq!(response.register_value(), 0x0003);
}

#[test]
fn write_single_register_response_errors() {
    assert_eq!(WriteSingleRegisterReponseDecoder::new(&rtu_frame(&mut [0u8; MODBUS_RTU_FRAME_DATA_LENGTH], &[0x06, 0x00, 0x01, 0x00])).err(), Some(WriteSingleRegisterReponseDecoderError::NotEnoughData));
    assert_eq!(WriteSingleRegisterReponseDecoder::new(&rtu_frame(&mut [0u8; MODBUS_RTU_FRAME_DATA_LENGTH], &[0x86, 0x00, 0x01, 0x00, 0x03])).err(), Some(WriteSingleRegisterReponseDecoderError::InvalidFunctionCode));
}

#[test]
fn server_write_single_register_request() {
    let mut buffer = [0u8; MODBUS_RTU_FRAME_DATA_LENGTH];
    let frame = rtu_frame(&mut buffer, &[0x06, 0x12, 0x34, 0xAB, 0xCD]);
    let request = WriteSingleRegisterRequest::new(&frame).unwrap();
    assert_eq!(request.function_code(), FunctionKind::Normal(FunctionCode::WriteSingleRegister));
    assert_eq!(request.register_address(), 0x1234);
    assert_eq!(request.register_value(), 0xABCD);
    assert_eq!(WriteSingleRegisterRequest::new(&rtu_frame(&mut [0u8; MODBUS_RTU_FRAME_DATA_LENGTH], &[0x06, 0x12, 0x34, 0xAB])).err(), Some(WriteSingleRegisterRequestError::NotEnoughData));
    assert_eq!(WriteSingleRegisterRequest::new(&rtu_frame(&mut [0u8; MODBUS_RTU_FRAME_DATA_LENGTH], &[0x03, 0x12, 0x34, 0xAB, 0xCD])).err(), Some(WriteSingleRegisterRequestError::InvalidFunctionCode));
}
