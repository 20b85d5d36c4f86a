//! The type checker's interface: its error values.
pub mod error;
