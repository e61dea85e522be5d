//! A counter kept in an account's eight-byte buffer: the wire formats of the
//! counter state and of the instructions, and the state transitions that
//! create and increment it.

pub mod codec;
pub mod error;
pub mod instruction;
pub mod processor;
