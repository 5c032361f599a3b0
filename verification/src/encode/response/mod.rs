pub mod read_holding_registers;

pub mod write_multiple_registers;

pub mod write_single_register;
