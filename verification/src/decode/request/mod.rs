pub mod read_holding_registers;
pub use read_holding_registers::{RequestDecoder, DecoderError};

pub mod write_single_register;

pub mod write_multiple_registers;
