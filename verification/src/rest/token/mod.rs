//! Sending, checking and generating one-time passwords.

pub mod in_app_token;
pub mod request;
pub mod token;
pub mod verify;

pub use in_app_token::InAppToken;
pub use request::RequestToken;
pub use token::Token;
pub use verify::VerifyToken;
