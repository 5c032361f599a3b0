mod crc;
pub use crc::{
    rtu_crc, check_rtu_crc, crc16, crc_matches, crc_shift, crc_shift_n, crc_update,
    lemma_crc_check_accepts_own_checksum, lemma_crc_residue, lemma_crc_check_values, crc_eight_shifts,
};

mod frame;
pub use frame::{ModbusRtuFrame, lemma_rtu_frame_pdu};

mod layout;
pub use layout::{
    ModbusRtuFrameDecoderDirection, RtuLayoutTable, RtuFrameLayout, RtuOutcome, direction_table,
    request_layout, response_layout, basic_request_pdu_length, rtu_layout, is_frame_layout,
    at_least_one, rtu_frame_length, rtu_step, rtu_step_unsupported, rtu_feed, is_rtu_frame,
    rtu_frame_crc_ok, lemma_rtu_decodes_whole_frame, lemma_rtu_idle_takes_slave_address,
    lemma_request_frame_lengths, lemma_response_frame_lengths, lemma_basic_request_frame_lengths,
    lemma_eight_byte_requests_decode, one_or_more, lemma_rtu_frame_crc_ok,
};

mod decoder;
pub use decoder::{
    ModbusRtuFrameDecoder, ModbusRtuFrameDecoderResult, outcome_of, written_buffer, rtu_feed_buffer,
};
pub use decoder::request::{
    ModbusRtuFrameRequestDecoder, ModbusRtuFrameRequestDecoderResult, request_outcome_of,
    lemma_reset_runs_as_new,
};
