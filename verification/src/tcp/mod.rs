mod frame;
pub use frame::{Frame, Mbap, MbapMut, MbapHeader, MbapHeaderMut, FRAME_SIZE, MBAP_HEADER_SIZE, mbap_transaction_id, mbap_protocol_id, mbap_length, mbap_unit_id, lemma_mbap_set_ids, lemma_tcp_frame_pdu};

mod decoder;
pub use decoder::{
    Decoder, DecodeError, DecodeResult, DecoderState, header_state, tcp_state_ok,
    tcp_state_has_room, tcp_step, tcp_effective_state, tcp_feed, is_tcp_adu,
    lemma_tcp_decodes_header, lemma_tcp_decodes_whole_adu, lemma_tcp_error_persists,
    lemma_tcp_header_fields,
};

mod encoder;
pub use encoder::{EncodeError, EncodeExceptionError, ReadHoldingRegistersEnconder};
