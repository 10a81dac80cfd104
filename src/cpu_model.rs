use crate::memory::{Memory, MEMORY_SIZE};
use vstd::prelude::*;

verus! {

/// The first address of the hardware stack page.
pub const STACK: u16 = 0x0100;

/// The stack pointer after a reset.
pub const STACK_RESET: u8 = 0xfd;

/// The architectural state of the processor: registers, status byte, program
/// counter, stack pointer and the memory it owns.
pub struct CPU {
    pub register_a: u8,
    pub register_x: u8,
    pub register_y: u8,
    pub status: u8,
    pub program_counter: u16,
    pub stack_pointer: u8,
    pub memory: Memory,
}

/// The abstract value of a `CPU`: what its contracts speak of.
pub struct CpuState {
    pub a: u8,
    pub x: u8,
    pub y: u8,
    pub p: u8,
    pub pc: u16,
    pub s: u8,
    pub mem: Seq<u8>,
}

impl CpuState {
    /// The memory covers the whole 16-bit address space.
    pub open spec fn wf(self) -> bool {
        self.mem.len() == MEMORY_SIZE
    }

    /// The byte at `address`.
    pub open spec fn read(self, address: u16) -> u8 {
        self.mem[address as int]
    }
}

impl View for CPU {
    type V = CpuState;

    open spec fn view(&self) -> CpuState {
        CpuState {
            a: self.register_a,
            x: self.register_x,
            y: self.register_y,
            p: self.status,
            pc: self.program_counter,
            s: self.stack_pointer,
            mem: self.memory@,
        }
    }
}

impl CPU {
    /// The memory covers the whole 16-bit address space.
    pub open spec fn wf(&self) -> bool {
        self.memory.wf()
    }
}

} // verus!
