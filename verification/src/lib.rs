//! A stack-based bytecode virtual machine.
//!
//! A program is a flat stream of one-byte opcodes, each followed at once by
//! its little-endian immediate where it has one. The machine executes it one
//! instruction per step against an operand stack, a return stack and a
//! byte-addressed linear memory, and reads constants from an immutable data
//! region. Every step is specified by a pure function on the machine's
//! mathematical view; a fault leaves the machine as it was.

pub mod endian;
pub mod instruction;
pub mod machine;
