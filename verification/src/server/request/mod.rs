mod write_single_register;
pub use write_single_register::{
    WriteSingleRegisterRequest, WriteSingleRegisterRequestError, write_single_register_request_check,
};
