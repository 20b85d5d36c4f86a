//! Conversion of Descend types and functions to MLIR.
pub mod types;

pub use types::ToMlir;
