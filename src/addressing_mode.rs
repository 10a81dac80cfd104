use vstd::prelude::*;

verus! {

/// How an instruction derives its operand from the bytes that follow the opcode.
#[allow(non_camel_case_types)]
#[derive(Debug, Clone, Copy, PartialEq, Eq, Structural)]
pub enum AddressingMode {
    Accumulator,
    Immediate,
    Implied,
    ZeroPage,
    ZeroPage_X,
    ZeroPage_Y,
    Absolute,
    Absolute_X,
    Absolute_Y,
    Indirect,
    Indirect_X,
    Indirect_Y,
    Relative,
    NoneAddressing,
}

impl AddressingMode {
    /// Whether the mode yields an effective address (or, for Immediate, the
    /// address of the operand byte itself).
    pub open spec fn has_address(self) -> bool {
        !(self is Accumulator || self is Implied || self is NoneAddressing)
    }

    /// The number of operand bytes that follow the opcode in this mode.
    pub open spec fn operand_bytes(self) -> u8 {
        match self {
            AddressingMode::Accumulator | AddressingMode::Implied
            | AddressingMode::NoneAddressing => 0,
            AddressingMode::Absolute | AddressingMode::Absolute_X | AddressingMode::Absolute_Y
            | AddressingMode::Indirect => 2,
            _ => 1,
        }
    }
}

} // verus!
