//! Small helpers that are not tied to the relay itself.

pub mod decimal;
pub mod version;
