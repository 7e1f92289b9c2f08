//! What each operation does, stated of its arguments and results alone.
//!
//! A law here takes the arguments and the result of a call, and says what holds between them in
//! plain numbers and fields. Laws about runs of several steps stand with the types that take them.

pub mod cpuid;
pub mod launch;
pub mod memory;
