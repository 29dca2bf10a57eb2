//! Naive recursive Fibonacci numbers at two integer widths, and the greeting
//! message handed to a host's `alert`.
pub mod fibonacci;
pub mod greeting;

pub use fibonacci::{fib_wasm, fibonacci, MAX_INDEX_U32, MAX_INDEX_U64};
pub use greeting::greeting;
