//! Values, classes, instances, exceptions and the magic-method table.

pub mod native;
pub mod magic_methods;
pub mod pyexception;
pub mod attrs;
pub mod pyobject;
pub mod pyinstance;
pub mod pyclass;
