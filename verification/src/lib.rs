//! A tree-walking runtime for a small Python-like language: values, classes
//! with flattened method tables, native call dispatch, operator fallback,
//! frames, and the statement evaluator, with their contracts.

pub mod text;
pub mod names;
pub mod parser;
pub mod builtins;
pub mod pyarena;
pub mod evaluator;
pub mod preprocessor;
