//! The object model and the native types built on it.

pub mod structure;
pub mod outcome;
pub mod semantics;
pub mod types;
pub mod statics;
pub mod globals;
pub mod function_utils;
pub mod functions;
