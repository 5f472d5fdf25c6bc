//! The shapes of the one-time password endpoints.

pub mod in_app_token;
pub mod request;
pub mod verify;
