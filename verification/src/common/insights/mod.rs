//! The shapes of the account insight endpoints.

pub mod history;
pub mod search;
pub mod status;
