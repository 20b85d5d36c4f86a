//! Code generation back ends.
pub mod mlir;
