//! An interpreter for the MOS 6502 processor: registers, status flags, a flat
//! 64 KiB memory bus, the addressing unit, the instruction handlers and the
//! fetch/decode/execute loop, each with a contract over an abstract model of
//! the processor.

pub mod status_bit;
pub mod addressing_mode;
pub mod bitwise_operation;
pub mod memory;
pub mod cpu_model;
pub mod operation_codes;
pub mod semantics;
pub mod cpu_functions;
pub mod cpu_instructions;
pub mod laws;
