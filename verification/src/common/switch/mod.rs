//! The shapes of the messaging, sender ID, phonebook and template endpoints.

pub mod campaign;
pub mod messaging;
pub mod number;
pub mod sender_id;
pub mod templates;
