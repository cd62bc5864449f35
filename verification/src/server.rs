//! The boundary between the federation engine and the HTTP server around it.

pub mod error;
pub mod server_request;
pub mod server_response;
pub mod utils;
