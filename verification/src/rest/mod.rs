//! One client per resource family, and the root client that holds them all.

pub mod insights;
pub mod switch;
pub mod termii;
pub mod token;
