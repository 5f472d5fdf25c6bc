//! The request model and the client configuration.

pub mod client;
pub mod response;
