/// Decoders for request PDUs.
pub mod request;

/// Decoders for response PDUs.
pub mod response;
