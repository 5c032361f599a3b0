use modbus_stack::tcp::{Decoder, DecodeResult, Frame, MbapHeader, MbapHeaderMut, FRAME_SIZE, MBAP_HEADER_SIZE};
use modbus_stack::{AduData, FunctionCode, FunctionKind, PduData};

#[test]
fn frame_sizes() {
    assert_eq!(FRAME_SIZE, 260);
    assert_eq!(MBAP_HEADER_SIZE, 7);
}

#[test]
fn decoded_frame_hands_out_adu_and_pdu() {
    let mut decoder = Decoder::new();
    let mut frame = Frame::new_unchecked();
    let received = [0x00, 0x01, 0x00, 0x00, 0x00, 0x06, 0x11, 0x03, 0x00, 0x6B, 0x00, 0x03];
    let mut result = DecodeResult::Pending;
    for byte in received {
        assert!(decoder.can_accept(1));
        result = decoder.push_data(&mut frame, 1, byte);
    }
    assert_eq!(result, DecodeResult::Done);
    assert_eq!(frame.adu_length(), 12);
    assert_eq!(frame.adu_data(), &received);
    assert_eq!(frame.pdu_data(), &[0x03, 0x00, 0x6B, 0x00, 0x03]);
    assert_eq!(frame.function_code(), FunctionKind::Normal(FunctionCode::ReadHoldingRegisters));
    assert_eq!(frame.length(), Some(6));
}

#[test]
fn mbap_setters_write_the_header() {
    let mut frame = Frame::new_unchecked();
    {
        let mut header = frame.mbap_mut();
        header.set_transaction_id(0xBEEF);
        header.set_unit_id(0x42);
        assert_eq!(header.transaction_id(), 0xBEEF);
        assert_eq!(header.unit_id(), 0x42);
    }
    assert_eq!(frame.mbap().transaction_id(), 0xBEEF);
    assert_eq!(frame.mbap().unit_id(), 0x42);
    assert_eq!(frame.mbap().protocol_id(), 0x0000);
    // A fresh frame announces the most a frame of this size can hold.
    assert_eq!(frame.mbap().length(), 254);
}

#[test]
fn length_one_is_refused_before_overrun() {
    // A length field of one announces no bytes after the unit identifier;
    // the decoder then keeps collecting until the buffer is full.
    let mut decoder = Decoder::new();
    let mut frame = Frame::new_unchecked();
    for byte in [0x00, 0x01, 0x00, 0x00, 0x00, 0x01, 0x11] {
        assert_eq!(decoder.push_data(&mut frame, 1, byte), DecodeResult::Pending);
    }
    let mut taken = 0;
    while decoder.can_accept(1) {
        assert_eq!(decoder.push_data(&mut frame, 1, 0x00), DecodeResult::Pending);
        taken += 1;
    }
    assert_eq!(taken, FRAME_SIZE - MBAP_HEADER_SIZE);
    // A byte for another frame starts over.
    assert!(decoder.can_accept(2));
}
