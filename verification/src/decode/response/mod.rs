pub mod read_holding_registers;

pub mod read_input_registers;

pub mod write_single_register;
