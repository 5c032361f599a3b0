use vstd::prelude::*;

verus! {

/// Size of the buffer that holds one Modbus/RTU frame
/// (slave address, PDU of at most 253 bytes, and the two CRC bytes).
pub const MODBUS_RTU_FRAME_DATA_LENGTH: usize = 256;

} // verus!
