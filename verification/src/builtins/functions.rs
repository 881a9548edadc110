//! The built-in functions and the operator protocol.

pub mod print;
pub mod math_op;
pub mod compare;
