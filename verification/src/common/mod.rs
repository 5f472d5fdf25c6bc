//! Values shared by every resource client: errors, pagination and the
//! request and response shapes of each endpoint.

pub mod errors;
pub mod insights;
pub mod page_token;
pub mod pagination;
pub mod switch;
pub mod token;
