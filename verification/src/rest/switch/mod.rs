//! Messaging, sender IDs, phonebooks and templates.

pub mod campaign;
pub mod messaging;
pub mod number;
pub mod sender_id;
pub mod switch;
pub mod templates;

pub use campaign::Campaign;
pub use messaging::Messaging;
pub use number::Number;
pub use sender_id::SenderID;
pub use switch::Switch;
pub use templates::Templates;
