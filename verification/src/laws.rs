//! What the operations are for: laws that relate the arguments of a call to what comes of it.
//!
//! A law speaks of every pair of arguments and result that a function's contract admits. It
//! says what must hold of them in numbers, bytes and fields.

pub mod attributes;
pub mod calls;
pub mod commands;
pub mod errors;
pub mod limits;
pub mod records;
