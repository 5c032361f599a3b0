mod read_holding_registers;
pub use read_holding_registers::{
    ReadHoldingRegistersResponseBuilder, response_register_count, fitting_registers,
    has_half_register, written_end,
};
