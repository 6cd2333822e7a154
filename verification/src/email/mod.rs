//! The report as an email: its text, and the message that carries it.

pub mod error;
pub mod json;
pub mod payload;
pub mod sender;
pub mod template;

pub use error::EmailError;
pub use payload::EmailPayload;
pub use sender::Sender;
pub use template::render;
