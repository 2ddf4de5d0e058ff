//! Foundational shared types used across every layer.

pub mod domain;
pub mod error;
pub mod transcript;

pub use error::VeilError;
pub use transcript::Transcript;
