//! Values that may be absent and operations that may fail, as closed sum
//! types with safe and checked extraction, and exact integer division as the
//! operation that exercises them.
pub mod division;
pub mod fallible;
pub mod optional;
