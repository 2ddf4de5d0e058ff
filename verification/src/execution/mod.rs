//! Execution primitives — isolated, deterministic bytecode execution.

pub mod vm;

pub use vm::MicroVM;
