pub mod document;
pub mod enhance;
pub mod laws;
pub mod loader;

pub use document::Node;
pub use enhance::enhance_error_message;
pub use loader::{load_from_toml, ConfigError};
