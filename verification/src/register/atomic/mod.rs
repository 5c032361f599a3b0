mod reg_u8;
pub use reg_u8::{AtomicRegU8, AtomicRegU8Ref};
