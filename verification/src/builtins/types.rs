//! The native types: their payloads and the natives that implement them.

pub mod object;
pub mod pynone;
pub mod pyint;
pub mod pyfloat;
pub mod pybool;
pub mod range;
pub mod str;
