//! Balance, history, number lookup and number status.

pub mod balance;
pub mod history;
pub mod insights;
pub mod search;
pub mod status;

pub use balance::Balance;
pub use history::History;
pub use insights::Insights;
pub use search::Search;
pub use status::Status;
