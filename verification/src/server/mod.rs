/// Requests as a server receives them.
pub mod request;

/// Responses as a server builds them.
pub mod response;
