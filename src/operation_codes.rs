use crate::addressing_mode::AddressingMode;
use crate::semantics::mode_fits;
use vstd::prelude::*;

verus! {

/// The mnemonics that the interpreter implements.
#[derive(Debug, Clone, Copy, PartialEq, Eq, Structural)]
pub enum OperationName {
    AddWithCarry,
    ArithmeticShiftLeft,
    BitTest,
    BranchIfCarryClear,
    BranchIfCarrySet,
    BranchIfEqual,
    BranchIfMinus,
    BranchIfNotEqual,
    BranchIfOverflowClear,
    BranchIfOverflowSet,
    BranchIfPositive,
    ClearCarryFlag,
    ClearDecimalMode,
    ClearInterruptDisable,
    ClearOverflowFlag,
    Compare,
    CompareX,
    CompareY,
    DecrementMemory,
    DecrementXRegister,
    DecrementYRegister,
    ExclusiveOR,
    ForceInterrupt,
    IncrementMemory,
    IncrementXRegister,
    IncrementYRegister,
    Jump,
    JumpToSubroutine,
    LoadAccumulator,
    LoadXRegister,
    LoadYRegister,
    LogicalAND,
    LogicalInclusiveOR,
    LogicalShiftRight,
    NoOperation,
    PullAccumulator,
    PullProcessorStatus,
    PushAccumulator,
    PushProcessorStatus,
    ReturnFromInterrupt,
    ReturnFromSubroutine,
    RotateLeft,
    RotateRight,
    SetCarryFlag,
    SetDecimalFlag,
    SetInterruptDisable,
    StoreAccumulator,
    StoreXRegister,
    StoreYRegister,
    SubstractWithCarry,
    TransferAccumulatorToX,
    TransferAccumulatorToY,
    TransferStackPointerToX,
    TransferXToAccumulator,
    TransferXToStackPointer,
    TransferYToAccumulator,
}

/// One encoding of an instruction: its opcode byte, its length in bytes
/// (opcode included), its base cycle count and its addressing mode.
#[derive(Debug, Clone, Copy, PartialEq, Eq, Structural)]
pub struct Operation {
    pub operation_code: u8,
    pub len: u8,
    pub cycles: u8,
    pub addressing_mode: AddressingMode,
}

impl Operation {
    fn new(operation_code: u8, len: u8, cycles: u8, addressing_mode: AddressingMode) -> (r: Self)
        ensures
            r == (Operation { operation_code, len, cycles, addressing_mode }),
    {
        Operation { operation_code, len, cycles, addressing_mode }
    }
}

/// The opcode table: the mnemonic and encoding of each documented opcode byte.
pub open spec fn opcode_table(code: u8) -> Option<(OperationName, Operation)> {
    match code {
        0x00 => Some((OperationName::ForceInterrupt, Operation { operation_code: 0x00, len: 1, cycles: 7, addressing_mode: AddressingMode::NoneAddressing })),
        0x01 => Some((OperationName::LogicalInclusiveOR, Operation { operation_code: 0x01, len: 2, cycles: 6, addressing_mode: AddressingMode::Indirect_X })),
        0x05 => Some((OperationName::LogicalInclusiveOR, Operation { operation_code: 0x05, len: 2, cycles: 3, addressing_mode: AddressingMode::ZeroPage })),
        0x06 => Some((OperationName::ArithmeticShiftLeft, Operation { operation_code: 0x06, len: 2, cycles: 5, addressing_mode: AddressingMode::ZeroPage })),
        0x08 => Some((OperationName::PushProcessorStatus, Operation { operation_code: 0x08, len: 1, cycles: 3, addressing_mode: AddressingMode::Implied })),
        0x09 => Some((OperationName::LogicalInclusiveOR, Operation { operation_code: 0x09, len: 2, cycles: 2, addressing_mode: AddressingMode::Immediate })),
        0x0a => Some((OperationName::ArithmeticShiftLeft, Operation { operation_code: 0x0a, len: 1, cycles: 2, addressing_mode: AddressingMode::Accumulator })),
        0x0d => Some((OperationName::LogicalInclusiveOR, Operation { operation_code: 0x0d, len: 3, cycles: 4, addressing_mode: AddressingMode::Absolute })),
        0x0e => Some((OperationName::ArithmeticShiftLeft, Operation { operation_code: 0x0e, len: 3, cycles: 6, addressing_mode: AddressingMode::Absolute })),
        0x10 => Some((OperationName::BranchIfPositive, Operation { operation_code: 0x10, len: 2, cycles: 2, addressing_mode: AddressingMode::Relative })),
        0x11 => Some((OperationName::LogicalInclusiveOR, Operation { operation_code: 0x11, len: 2, cycles: 5, addressing_mode: AddressingMode::Indirect_Y })),
        0x15 => Some((OperationName::LogicalInclusiveOR, Operation { operation_code: 0x15, len: 2, cycles: 4, addressing_mode: AddressingMode::ZeroPage_X })),
        0x16 => Some((OperationName::ArithmeticShiftLeft, Operation { operation_code: 0x16, len: 2, cycles: 6, addressing_mode: AddressingMode::ZeroPage_X })),
        0x18 => Some((OperationName::ClearCarryFlag, Operation { operation_code: 0x18, len: 1, cycles: 2, addressing_mode: AddressingMode::Implied })),
        0x19 => Some((OperationName::LogicalInclusiveOR, Operation { operation_code: 0x19, len: 3, cycles: 4, addressing_mode: AddressingMode::Absolute_Y })),
        0x1d => Some((OperationName::LogicalInclusiveOR, Operation { operation_code: 0x1d, len: 3, cycles: 4, addressing_mode: AddressingMode::Absolute_X })),
        0x1e => Some((OperationName::ArithmeticShiftLeft, Operation { operation_code: 0x1e, len: 3, cycles: 7, addressing_mode: AddressingMode::Absolute_X })),
        0x20 => Some((OperationName::JumpToSubroutine, Operation { operation_code: 0x20, len: 3, cycles: 6, addressing_mode: AddressingMode::Absolute })),
        0x21 => Some((OperationName::LogicalAND, Operation { operation_code: 0x21, len: 2, cycles: 6, addressing_mode: AddressingMode::Indirect_X })),
        0x24 => Some((OperationName::BitTest, Operation { operation_code: 0x24, len: 2, cycles: 3, addressing_mode: AddressingMode::ZeroPage })),
        0x25 => Some((OperationName::LogicalAND, Operation { operation_code: 0x25, len: 2, cycles: 3, addressing_mode: AddressingMode::ZeroPage })),
        0x26 => Some((OperationName::RotateLeft, Operation { operation_code: 0x26, len: 2, cycles: 5, addressing_mode: AddressingMode::ZeroPage })),
        0x28 => Some((OperationName::PullProcessorStatus, Operation { operation_code: 0x28, len: 1, cycles: 4, addressing_mode: AddressingMode::Implied })),
        0x29 => Some((OperationName::LogicalAND, Operation { operation_code: 0x29, len: 2, cycles: 2, addressing_mode: AddressingMode::Immediate })),
        0x2a => Some((OperationName::RotateLeft, Operation { operation_code: 0x2a, len: 1, cycles: 2, addressing_mode: AddressingMode::Accumulator })),
        0x2c => Some((OperationName::BitTest, Operation { operation_code: 0x2c, len: 3, cycles: 4, addressing_mode: AddressingMode::Absolute })),
        0x2d => Some((OperationName::LogicalAND, Operation { operation_code: 0x2d, len: 3, cycles: 4, addressing_mode: AddressingMode::Absolute })),
        0x2e => Some((OperationName::RotateLeft, Operation { operation_code: 0x2e, len: 3, cycles: 6, addressing_mode: AddressingMode::Absolute })),
        0x30 => Some((OperationName::BranchIfMinus, Operation { operation_code: 0x30, len: 2, cycles: 2, addressing_mode: AddressingMode::Relative })),
        0x31 => Some((OperationName::LogicalAND, Operation { operation_code: 0x31, len: 2, cycles: 5, addressing_mode: AddressingMode::Indirect_Y })),
        0x35 => Some((OperationName::LogicalAND, Operation { operation_code: 0x35, len: 2, cycles: 4, addressing_mode: AddressingMode::ZeroPage_X })),
        0x36 => Some((OperationName::RotateLeft, Operation { operation_code: 0x36, len: 2, cycles: 6, addressing_mode: AddressingMode::ZeroPage_X })),
        0x38 => Some((OperationName::SetCarryFlag, Operation { operation_code: 0x38, len: 1, cycles: 2, addressing_mode: AddressingMode::Implied })),
        0x39 => Some((OperationName::LogicalAND, Operation { operation_code: 0x39, len: 3, cycles: 4, addressing_mode: AddressingMode::Absolute_Y })),
        0x3d => Some((OperationName::LogicalAND, Operation { operation_code: 0x3d, len: 3, cycles: 4, addressing_mode: AddressingMode::Absolute_X })),
        0x3e => Some((OperationName::RotateLeft, Operation { operation_code: 0x3e, len: 3, cycles: 7, addressing_mode: AddressingMode::Absolute_X })),
        0x40 => Some((OperationName::ReturnFromInterrupt, Operation { operation_code: 0x40, len: 1, cycles: 6, addressing_mode: AddressingMode::Implied })),
        0x41 => Some((OperationName::ExclusiveOR, Operation { operation_code: 0x41, len: 2, cycles: 6, addressing_mode: AddressingMode::Indirect_X })),
        0x45 => Some((OperationName::ExclusiveOR, Operation { operation_code: 0x45, len: 2, cycles: 3, addressing_mode: AddressingMode::ZeroPage })),
        0x46 => Some((OperationName::LogicalShiftRight, Operation { operation_code: 0x46, len: 2, cycles: 5, addressing_mode: AddressingMode::ZeroPage })),
        0x48 => Some((OperationName::PushAccumulator, Operation { operation_code: 0x48, len: 1, cycles: 3, addressing_mode: AddressingMode::Implied })),
        0x49 => Some((OperationName::ExclusiveOR, Operation { operation_code: 0x49, len: 2, cycles: 2, addressing_mode: AddressingMode::Immediate })),
        0x4a => Some((OperationName::LogicalShiftRight, Operation { operation_code: 0x4a, len: 1, cycles: 2, addressing_mode: AddressingMode::Accumulator })),
        0x4c => Some((OperationName::Jump, Operation { operation_code: 0x4c, len: 3, cycles: 3, addressing_mode: AddressingMode::Absolute })),
        0x4d => Some((OperationName::ExclusiveOR, Operation { operation_code: 0x4d, len: 3, cycles: 4, addressing_mode: AddressingMode::Absolute })),
        0x4e => Some((OperationName::LogicalShiftRight, Operation { operation_code: 0x4e, len: 3, cycles: 6, addressing_mode: AddressingMode::Absolute })),
        0x50 => Some((OperationName::BranchIfOverflowClear, Operation { operation_code: 0x50, len: 2, cycles: 2, addressing_mode: AddressingMode::Relative })),
        0x51 => Some((OperationName::ExclusiveOR, Operation { operation_code: 0x51, len: 2, cycles: 5, addressing_mode: AddressingMode::Indirect_Y })),
        0x55 => Some((OperationName::ExclusiveOR, Operation { operation_code: 0x55, len: 2, cycles: 4, addressing_mode: AddressingMode::ZeroPage_X })),
        0x56 => Some((OperationName::LogicalShiftRight, Operation { operation_code: 0x56, len: 2, cycles: 6, addressing_mode: AddressingMode::ZeroPage_X })),
        0x58 => Some((OperationName::ClearInterruptDisable, Operation { operation_code: 0x58, len: 1, cycles: 2, addressing_mode: AddressingMode::Implied })),
        0x59 => Some((OperationName::ExclusiveOR, Operation { operation_code: 0x59, len: 3, cycles: 4, addressing_mode: AddressingMode::Absolute_Y })),
        0x5d => Some((OperationName::ExclusiveOR, Operation { operation_code: 0x5d, len: 3, cycles: 4, addressing_mode: AddressingMode::Absolute_X })),
        0x5e => Some((OperationName::LogicalShiftRight, Operation { operation_code: 0x5e, len: 3, cycles: 7, addressing_mode: AddressingMode::Absolute_X })),
        0x60 => Some((OperationName::ReturnFromSubroutine, Operation { operation_code: 0x60, len: 1, cycles: 6, addressing_mode: AddressingMode::Implied })),
        0x61 => Some((OperationName::AddWithCarry, Operation { operation_code: 0x61, len: 2, cycles: 6, addressing_mode: AddressingMode::Indirect_X })),
        0x65 => Some((OperationName::AddWithCarry, Operation { operation_code: 0x65, len: 2, cycles: 3, addressing_mode: AddressingMode::ZeroPage })),
        0x66 => Some((OperationName::RotateRight, Operation { operation_code: 0x66, len: 2, cycles: 5, addressing_mode: AddressingMode::ZeroPage })),
        0x68 => Some((OperationName::PullAccumulator, Operation { operation_code: 0x68, len: 1, cycles: 4, addressing_mode: AddressingMode::Implied })),
        0x69 => Some((OperationName::AddWithCarry, Operation { operation_code: 0x69, len: 2, cycles: 2, addressing_mode: AddressingMode::Immediate })),
        0x6a => Some((OperationName::RotateRight, Operation { operation_code: 0x6a, len: 1, cycles: 2, addressing_mode: AddressingMode::Accumulator })),
        0x6c => Some((OperationName::Jump, Operation { operation_code: 0x6c, len: 3, cycles: 5, addressing_mode: AddressingMode::Indirect })),
        0x6d => Some((OperationName::AddWithCarry, Operation { operation_code: 0x6d, len: 3, cycles: 4, addressing_mode: AddressingMode::Absolute })),
        0x6e => Some((OperationName::RotateRight, Operation { operation_code: 0x6e, len: 3, cycles: 6, addressing_mode: AddressingMode::Absolute })),
        0x70 => Some((OperationName::BranchIfOverflowSet, Operation { operation_code: 0x70, len: 2, cycles: 2, addressing_mode: AddressingMode::Relative })),
        0x71 => Some((OperationName::AddWithCarry, Operation { operation_code: 0x71, len: 2, cycles: 5, addressing_mode: AddressingMode::Indirect_Y })),
        0x75 => Some((OperationName::AddWithCarry, Operation { operation_code: 0x75, len: 2, cycles: 4, addressing_mode: AddressingMode::ZeroPage_X })),
        0x76 => Some((OperationName::RotateRight, Operation { operation_code: 0x76, len: 2, cycles: 6, addressing_mode: AddressingMode::ZeroPage_X })),
        0x78 => Some((OperationName::SetInterruptDisable, Operation { operation_code: 0x78, len: 1, cycles: 2, addressing_mode: AddressingMode::Implied })),
        0x79 => Some((OperationName::AddWithCarry, Operation { operation_code: 0x79, len: 3, cycles: 4, addressing_mode: AddressingMode::Absolute_Y })),
        0x7d => Some((OperationName::AddWithCarry, Operation { operation_code: 0x7d, len: 3, cycles: 4, addressing_mode: AddressingMode::Absolute_X })),
        0x7e => Some((OperationName::RotateRight, Operation { operation_code: 0x7e, len: 3, cycles: 7, addressing_mode: AddressingMode::Absolute_X })),
        0x81 => Some((OperationName::StoreAccumulator, Operation { operation_code: 0x81, len: 2, cycles: 6, addressing_mode: AddressingMode::Indirect_X })),
        0x84 => Some((OperationName::StoreYRegister, Operation { operation_code: 0x84, len: 2, cycles: 3, addressing_mode: AddressingMode::ZeroPage })),
        0x85 => Some((OperationName::StoreAccumulator, Operation { operation_code: 0x85, len: 2, cycles: 3, addressing_mode: AddressingMode::ZeroPage })),
        0x86 => Some((OperationName::StoreXRegister, Operation { operation_code: 0x86, len: 2, cycles: 3, addressing_mode: AddressingMode::ZeroPage })),
        0x88 => Some((OperationName::DecrementYRegister, Operation { operation_code: 0x88, len: 1, cycles: 2, addressing_mode: AddressingMode::NoneAddressing })),
        0x8a => Some((OperationName::TransferXToAccumulator, Operation { operation_code: 0x8a, len: 1, cycles: 2, addressing_mode: AddressingMode::NoneAddressing })),
        0x8c => Some((OperationName::StoreYRegister, Operation { operation_code: 0x8c, len: 3, cycles: 4, addressing_mode: AddressingMode::Absolute })),
        0x8d => Some((OperationName::StoreAccumulator, Operation { operation_code: 0x8d, len: 3, cycles: 4, addressing_mode: AddressingMode::Absolute })),
        0x8e => Some((OperationName::StoreXRegister, Operation { operation_code: 0x8e, len: 3, cycles: 4, addressing_mode: AddressingMode::Absolute })),
        0x90 => Some((OperationName::BranchIfCarryClear, Operation { operation_code: 0x90, len: 2, cycles: 2, addressing_mode: AddressingMode::Relative })),
        0x91 => Some((OperationName::StoreAccumulator, Operation { operation_code: 0x91, len: 2, cycles: 6, addressing_mode: AddressingMode::Indirect_Y })),
        0x94 => Some((OperationName::StoreYRegister, Operation { operation_code: 0x94, len: 2, cycles: 4, addressing_mode: AddressingMode::ZeroPage_X })),
        0x95 => Some((OperationName::StoreAccumulator, Operation { operation_code: 0x95, len: 2, cycles: 4, addressing_mode: AddressingMode::ZeroPage_X })),
        0x96 => Some((OperationName::StoreXRegister, Operation { operation_code: 0x96, len: 2, cycles: 4, addressing_mode: AddressingMode::ZeroPage_Y })),
        0x98 => Some((OperationName::TransferYToAccumulator, Operation { operation_code: 0x98, len: 1, cycles: 2, addressing_mode: AddressingMode::NoneAddressing })),
        0x99 => Some((OperationName::StoreAccumulator, Operation { operation_code: 0x99, len: 3, cycles: 5, addressing_mode: AddressingMode::Absolute_Y })),
        0x9a => Some((OperationName::TransferXToStackPointer, Operation { operation_code: 0x9a, len: 1, cycles: 2, addressing_mode: AddressingMode::NoneAddressing })),
        0x9d => Some((OperationName::StoreAccumulator, Operation { operation_code: 0x9d, len: 3, cycles: 5, addressing_mode: AddressingMode::Absolute_X })),
        0xa0 => Some((OperationName::LoadYRegister, Operation { operation_code: 0xa0, len: 2, cycles: 2, addressing_mode: AddressingMode::Immediate })),
        0xa1 => Some((OperationName::LoadAccumulator, Operation { operation_code: 0xa1, len: 2, cycles: 6, addressing_mode: AddressingMode::Indirect_X })),
        0xa2 => Some((OperationName::LoadXRegister, Operation { operation_code: 0xa2, len: 2, cycles: 2, addressing_mode: AddressingMode::Immediate })),
        0xa4 => Some((OperationName::LoadYRegister, Operation { operation_code: 0xa4, len: 2, cycles: 3, addressing_mode: AddressingMode::ZeroPage })),
        0xa5 => Some((OperationName::LoadAccumulator, Operation { operation_code: 0xa5, len: 2, cycles: 3, addressing_mode: AddressingMode::ZeroPage })),
        0xa6 => Some((OperationName::LoadXRegister, Operation { operation_code: 0xa6, len: 2, cycles: 3, addressing_mode: AddressingMode::ZeroPage })),
        0xa8 => Some((OperationName::TransferAccumulatorToY, Operation { operation_code: 0xa8, len: 1, cycles: 2, addressing_mode: AddressingMode::NoneAddressing })),
        0xa9 => Some((OperationName::LoadAccumulator, Operation { operation_code: 0xa9, len: 2, cycles: 2, addressing_mode: AddressingMode::Immediate })),
        0xaa => Some((OperationName::TransferAccumulatorToX, Operation { operation_code: 0xaa, len: 1, cycles: 2, addressing_mode: AddressingMode::NoneAddressing })),
        0xac => Some((OperationName::LoadYRegister, Operation { operation_code: 0xac, len: 3, cycles: 4, addressing_mode: AddressingMode::Absolute })),
        0xad => Some((OperationName::LoadAccumulator, Operation { operation_code: 0xad, len: 3, cycles: 4, addressing_mode: AddressingMode::Absolute })),
        0xae => Some((OperationName::LoadXRegister, Operation { operation_code: 0xae, len: 3, cycles: 4, addressing_mode: AddressingMode::Absolute })),
        0xb0 => Some((OperationName::BranchIfCarrySet, Operation { operation_code: 0xb0, len: 2, cycles: 2, addressing_mode: AddressingMode::Relative })),
        0xb1 => Some((OperationName::LoadAccumulator, Operation { operation_code: 0xb1, len: 2, cycles: 5, addressing_mode: AddressingMode::Indirect_Y })),
        0xb4 => Some((OperationName::LoadYRegister, Operation { operation_code: 0xb4, len: 2, cycles: 4, addressing_mode: AddressingMode::ZeroPage_X })),
        0xb5 => Some((OperationName::LoadAccumulator, Operation { operation_code: 0xb5, len: 2, cycles: 4, addressing_mode: AddressingMode::ZeroPage_X })),
        0xb6 => Some((OperationName::LoadXRegister, Operation { operation_code: 0xb6, len: 2, cycles: 4, addressing_mode: AddressingMode::ZeroPage_Y })),
        0xb8 => Some((OperationName::ClearOverflowFlag, Operation { operation_code: 0xb8, len: 1, cycles: 2, addressing_mode: AddressingMode::Implied })),
        0xb9 => Some((OperationName::LoadAccumulator, Operation { operation_code: 0xb9, len: 3, cycles: 4, addressing_mode: AddressingMode::Absolute_Y })),
        0xba => Some((OperationName::TransferStackPointerToX, Operation { operation_code: 0xba, len: 1, cycles: 2, addressing_mode: AddressingMode::NoneAddressing })),
        0xbc => Some((OperationName::LoadYRegister, Operation { operation_code: 0xbc, len: 3, cycles: 4, addressing_mode: AddressingMode::Absolute_X })),
        0xbd => Some((OperationName::LoadAccumulator, Operation { operation_code: 0xbd, len: 3, cycles: 4, addressing_mode: AddressingMode::Absolute_X })),
        0xbe => Some((OperationName::LoadXRegister, Operation { operation_code: 0xbe, len: 3, cycles: 4, addressing_mode: AddressingMode::Absolute_Y })),
        0xc0 => Some((OperationName::CompareY, Operation { operation_code: 0xc0, len: 2, cycles: 2, addressing_mode: AddressingMode::Immediate })),
        0xc1 => Some((OperationName::Compare, Operation { operation_code: 0xc1, len: 2, cycles: 6, addressing_mode: AddressingMode::Indirect_X })),
        0xc4 => Some((OperationName::CompareY, Operation { operation_code: 0xc4, len: 2, cycles: 3, addressing_mode: AddressingMode::ZeroPage })),
        0xc5 => Some((OperationName::Compare, Operation { operation_code: 0xc5, len: 2, cycles: 3, addressing_mode: AddressingMode::ZeroPage })),
        0xc6 => Some((OperationName::DecrementMemory, Operation { operation_code: 0xc6, len: 2, cycles: 5, addressing_mode: AddressingMode::ZeroPage })),
        0xc8 => Some((OperationName::IncrementYRegister, Operation { operation_code: 0xc8, len: 1, cycles: 2, addressing_mode: AddressingMode::NoneAddressing })),
        0xc9 => Some((OperationName::Compare, Operation { operation_code: 0xc9, len: 2, cycles: 2, addressing_mode: AddressingMode::Immediate })),
        0xca => Some((OperationName::DecrementXRegister, Operation { operation_code: 0xca, len: 1, cycles: 2, addressing_mode: AddressingMode::NoneAddressing })),
        0xcc => Some((OperationName::CompareY, Operation { operation_code: 0xcc, len: 3, cycles: 4, addressing_mode: AddressingMode::Absolute })),
        0xcd => Some((OperationName::Compare, Operation { operation_code: 0xcd, len: 3, cycles: 4, addressing_mode: AddressingMode::Absolute })),
        0xce => Some((OperationName::DecrementMemory, Operation { operation_code: 0xce, len: 3, cycles: 6, addressing_mode: AddressingMode::Absolute })),
        0xd0 => Some((OperationName::BranchIfNotEqual, Operation { operation_code: 0xd0, len: 2, cycles: 2, addressing_mode: AddressingMode::Relative })),
        0xd1 => Some((OperationName::Compare, Operation { operation_code: 0xd1, len: 2, cycles: 5, addressing_mode: AddressingMode::Indirect_Y })),
        0xd5 => Some((OperationName::Compare, Operation { operation_code: 0xd5, len: 2, cycles: 4, addressing_mode: AddressingMode::ZeroPage_X })),
        0xd6 => Some((OperationName::DecrementMemory, Operation { operation_code: 0xd6, len: 2, cycles: 6, addressing_mode: AddressingMode::ZeroPage_X })),
        0xd8 => Some((OperationName::ClearDecimalMode, Operation { operation_code: 0xd8, len: 1, cycles: 2, addressing_mode: AddressingMode::Implied })),
        0xd9 => Some((OperationName::Compare, Operation { operation_code: 0xd9, len: 3, cycles: 4, addressing_mode: AddressingMode::Absolute_Y })),
        0xdd => Some((OperationName::Compare, Operation { operation_code: 0xdd, len: 3, cycles: 4, addressing_mode: AddressingMode::Absolute_X })),
        0xde => Some((OperationName::DecrementMemory, Operation { operation_code: 0xde, len: 3, cycles: 7, addressing_mode: AddressingMode::Absolute_X })),
        0xe0 => Some((OperationName::CompareX, Operation { operation_code: 0xe0, len: 2, cycles: 2, addressing_mode: AddressingMode::Immediate })),
        0xe1 => Some((OperationName::SubstractWithCarry, Operation { operation_code: 0xe1, len: 2, cycles: 6, addressing_mode: AddressingMode::Indirect_X })),
        0xe4 => Some((OperationName::CompareX, Operation { operation_code: 0xe4, len: 2, cycles: 3, addressing_mode: AddressingMode::ZeroPage })),
        0xe5 => Some((OperationName::SubstractWithCarry, Operation { operation_code: 0xe5, len: 2, cycles: 3, addressing_mode: AddressingMode::ZeroPage })),
        0xe6 => Some((OperationName::IncrementMemory, Operation { operation_code: 0xe6, len: 2, cycles: 5, addressing_mode: AddressingMode::ZeroPage })),
        0xe8 => Some((OperationName::IncrementXRegister, Operation { operation_code: 0xe8, len: 1, cycles: 2, addressing_mode: AddressingMode::NoneAddressing })),
        0xe9 => Some((OperationName::SubstractWithCarry, Operation { operation_code: 0xe9, len: 2, cycles: 2, addressing_mode: AddressingMode::Immediate })),
        0xea => Some((OperationName::NoOperation, Operation { operation_code: 0xea, len: 1, cycles: 2, addressing_mode: AddressingMode::Implied })),
        0xec => Some((OperationName::CompareX, Operation { operation_code: 0xec, len: 3, cycles: 4, addressing_mode: AddressingMode::Absolute })),
        0xed => Some((OperationName::SubstractWithCarry, Operation { operation_code: 0xed, len: 3, cycles: 4, addressing_mode: AddressingMode::Absolute })),
        0xee => Some((OperationName::IncrementMemory, Operation { operation_code: 0xee, len: 3, cycles: 6, addressing_mode: AddressingMode::Absolute })),
        0xf0 => Some((OperationName::BranchIfEqual, Operation { operation_code: 0xf0, len: 2, cycles: 2, addressing_mode: AddressingMode::Relative })),
        0xf1 => Some((OperationName::SubstractWithCarry, Operation { operation_code: 0xf1, len: 2, cycles: 5, addressing_mode: AddressingMode::Indirect_Y })),
        0xf5 => Some((OperationName::SubstractWithCarry, Operation { operation_code: 0xf5, len: 2, cycles: 4, addressing_mode: AddressingMode::ZeroPage_X })),
        0xf6 => Some((OperationName::IncrementMemory, Operation { operation_code: 0xf6, len: 2, cycles: 6, addressing_mode: AddressingMode::ZeroPage_X })),
        0xf8 => Some((OperationName::SetDecimalFlag, Operation { operation_code: 0xf8, len: 1, cycles: 2, addressing_mode: AddressingMode::Implied })),
        0xf9 => Some((OperationName::SubstractWithCarry, Operation { operation_code: 0xf9, len: 3, cycles: 4, addressing_mode: AddressingMode::Absolute_Y })),
        0xfd => Some((OperationName::SubstractWithCarry, Operation { operation_code: 0xfd, len: 3, cycles: 4, addressing_mode: AddressingMode::Absolute_X })),
        0xfe => Some((OperationName::IncrementMemory, Operation { operation_code: 0xfe, len: 3, cycles: 7, addressing_mode: AddressingMode::Absolute_X })),
        _ => None,
    }
}

/// Looks `code` up in the opcode table. An entry's mode fits its mnemonic, and
/// its length is the opcode byte plus the mode's operand bytes.
#[verifier::rlimit(100)]
pub fn decode(code: u8) -> (r: Option<(OperationName, Operation)>)
    ensures
        r == opcode_table(code),
        r matches Some((name, op)) ==> {
            &&& op.operation_code == code
            &&& mode_fits(name, op.addressing_mode)
            &&& op.len == 1 + op.addressing_mode.operand_bytes()
        },
{
    match code {
        0x00 => Some((OperationName::ForceInterrupt, Operation::new(0x00, 1, 7, AddressingMode::NoneAddressing))),
        0x01 => Some((OperationName::LogicalInclusiveOR, Operation::new(0x01, 2, 6, AddressingMode::Indirect_X))),
        0x05 => Some((OperationName::LogicalInclusiveOR, Operation::new(0x05, 2, 3, AddressingMode::ZeroPage))),
        0x06 => Some((OperationName::ArithmeticShiftLeft, Operation::new(0x06, 2, 5, AddressingMode::ZeroPage))),
        0x08 => Some((OperationName::PushProcessorStatus, Operation::new(0x08, 1, 3, AddressingMode::Implied))),
        0x09 => Some((OperationName::LogicalInclusiveOR, Operation::new(0x09, 2, 2, AddressingMode::Immediate))),
        0x0a => Some((OperationName::ArithmeticShiftLeft, Operation::new(0x0a, 1, 2, AddressingMode::Accumulator))),
        0x0d => Some((OperationName::LogicalInclusiveOR, Operation::new(0x0d, 3, 4, AddressingMode::Absolute))),
        0x0e => Some((OperationName::ArithmeticShiftLeft, Operation::new(0x0e, 3, 6, AddressingMode::Absolute))),
        0x10 => Some((OperationName::BranchIfPositive, Operation::new(0x10, 2, 2, AddressingMode::Relative))),
        0x11 => Some((OperationName::LogicalInclusiveOR, Operation::new(0x11, 2, 5, AddressingMode::Indirect_Y))),
        0x15 => Some((OperationName::LogicalInclusiveOR, Operation::new(0x15, 2, 4, AddressingMode::ZeroPage_X))),
        0x16 => Some((OperationName::ArithmeticShiftLeft, Operation::new(0x16, 2, 6, AddressingMode::ZeroPage_X))),
        0x18 => Some((OperationName::ClearCarryFlag, Operation::new(0x18, 1, 2, AddressingMode::Implied))),
        0x19 => Some((OperationName::LogicalInclusiveOR, Operation::new(0x19, 3, 4, AddressingMode::Absolute_Y))),
        0x1d => Some((OperationName::LogicalInclusiveOR, Operation::new(0x1d, 3, 4, AddressingMode::Absolute_X))),
        0x1e => Some((OperationName::ArithmeticShiftLeft, Operation::new(0x1e, 3, 7, AddressingMode::Absolute_X))),
        0x20 => Some((OperationName::JumpToSubroutine, Operation::new(0x20, 3, 6, AddressingMode::Absolute))),
        0x21 => Some((OperationName::LogicalAND, Operation::new(0x21, 2, 6, AddressingMode::Indirect_X))),
        0x24 => Some((OperationName::BitTest, Operation::new(0x24, 2, 3, AddressingMode::ZeroPage))),
        0x25 => Some((OperationName::LogicalAND, Operation::new(0x25, 2, 3, AddressingMode::ZeroPage))),
        0x26 => Some((OperationName::RotateLeft, Operation::new(0x26, 2, 5, AddressingMode::ZeroPage))),
        0x28 => Some((OperationName::PullProcessorStatus, Operation::new(0x28, 1, 4, AddressingMode::Implied))),
        0x29 => Some((OperationName::LogicalAND, Operation::new(0x29, 2, 2, AddressingMode::Immediate))),
        0x2a => Some((OperationName::RotateLeft, Operation::new(0x2a, 1, 2, AddressingMode::Accumulator))),
        0x2c => Some((OperationName::BitTest, Operation::new(0x2c, 3, 4, AddressingMode::Absolute))),
        0x2d => Some((OperationName::LogicalAND, Operation::new(0x2d, 3, 4, AddressingMode::Absolute))),
        0x2e => Some((OperationName::RotateLeft, Operation::new(0x2e, 3, 6, AddressingMode::Absolute))),
        0x30 => Some((OperationName::BranchIfMinus, Operation::new(0x30, 2, 2, AddressingMode::Relative))),
        0x31 => Some((OperationName::LogicalAND, Operation::new(0x31, 2, 5, AddressingMode::Indirect_Y))),
        0x35 => Some((OperationName::LogicalAND, Operation::new(0x35, 2, 4, AddressingMode::ZeroPage_X))),
        0x36 => Some((OperationName::RotateLeft, Operation::new(0x36, 2, 6, AddressingMode::ZeroPage_X))),
        0x38 => Some((OperationName::SetCarryFlag, Operation::new(0x38, 1, 2, AddressingMode::Implied))),
        0x39 => Some((OperationName::LogicalAND, Operation::new(0x39, 3, 4, AddressingMode::Absolute_Y))),
        0x3d => Some((OperationName::LogicalAND, Operation::new(0x3d, 3, 4, AddressingMode::Absolute_X))),
        0x3e => Some((OperationName::RotateLeft, Operation::new(0x3e, 3, 7, AddressingMode::Absolute_X))),
        0x40 => Some((OperationName::ReturnFromInterrupt, Operation::new(0x40, 1, 6, AddressingMode::Implied))),
        0x41 => Some((OperationName::ExclusiveOR, Operation::new(0x41, 2, 6, AddressingMode::Indirect_X))),
        0x45 => Some((OperationName::ExclusiveOR, Operation::new(0x45, 2, 3, AddressingMode::ZeroPage))),
        0x46 => Some((OperationName::LogicalShiftRight, Operation::new(0x46, 2, 5, AddressingMode::ZeroPage))),
        0x48 => Some((OperationName::PushAccumulator, Operation::new(0x48, 1, 3, AddressingMode::Implied))),
        0x49 => Some((OperationName::ExclusiveOR, Operation::new(0x49, 2, 2, AddressingMode::Immediate))),
        0x4a => Some((OperationName::LogicalShiftRight, Operation::new(0x4a, 1, 2, AddressingMode::Accumulator))),
        0x4c => Some((OperationName::Jump, Operation::new(0x4c, 3, 3, AddressingMode::Absolute))),
        0x4d => Some((OperationName::ExclusiveOR, Operation::new(0x4d, 3, 4, AddressingMode::Absolute))),
        0x4e => Some((OperationName::LogicalShiftRight, Operation::new(0x4e, 3, 6, AddressingMode::Absolute))),
        0x50 => Some((OperationName::BranchIfOverflowClear, Operation::new(0x50, 2, 2, AddressingMode::Relative))),
        0x51 => Some((OperationName::ExclusiveOR, Operation::new(0x51, 2, 5, AddressingMode::Indirect_Y))),
        0x55 => Some((OperationName::ExclusiveOR, Operation::new(0x55, 2, 4, AddressingMode::ZeroPage_X))),
        0x56 => Some((OperationName::LogicalShiftRight, Operation::new(0x56, 2, 6, AddressingMode::ZeroPage_X))),
        0x58 => Some((OperationName::ClearInterruptDisable, Operation::new(0x58, 1, 2, AddressingMode::Implied))),
        0x59 => Some((OperationName::ExclusiveOR, Operation::new(0x59, 3, 4, AddressingMode::Absolute_Y))),
        0x5d => Some((OperationName::ExclusiveOR, Operation::new(0x5d, 3, 4, AddressingMode::Absolute_X))),
        0x5e => Some((OperationName::LogicalShiftRight, Operation::new(0x5e, 3, 7, AddressingMode::Absolute_X))),
        0x60 => Some((OperationName::ReturnFromSubroutine, Operation::new(0x60, 1, 6, AddressingMode::Implied))),
        0x61 => Some((OperationName::AddWithCarry, Operation::new(0x61, 2, 6, AddressingMode::Indirect_X))),
        0x65 => Some((OperationName::AddWithCarry, Operation::new(0x65, 2, 3, AddressingMode::ZeroPage))),
        0x66 => Some((OperationName::RotateRight, Operation::new(0x66, 2, 5, AddressingMode::ZeroPage))),
        0x68 => Some((OperationName::PullAccumulator, Operation::new(0x68, 1, 4, AddressingMode::Implied))),
        0x69 => Some((OperationName::AddWithCarry, Operation::new(0x69, 2, 2, AddressingMode::Immediate))),
        0x6a => Some((OperationName::RotateRight, Operation::new(0x6a, 1, 2, AddressingMode::Accumulator))),
        0x6c => Some((OperationName::Jump, Operation::new(0x6c, 3, 5, AddressingMode::Indirect))),
        0x6d => Some((OperationName::AddWithCarry, Operation::new(0x6d, 3, 4, AddressingMode::Absolute))),
        0x6e => Some((OperationName::RotateRight, Operation::new(0x6e, 3, 6, AddressingMode::Absolute))),
        0x70 => Some((OperationName::BranchIfOverflowSet, Operation::new(0x70, 2, 2, AddressingMode::Relative))),
        0x71 => Some((OperationName::AddWithCarry, Operation::new(0x71, 2, 5, AddressingMode::Indirect_Y))),
        0x75 => Some((OperationName::AddWithCarry, Operation::new(0x75, 2, 4, AddressingMode::ZeroPage_X))),
        0x76 => Some((OperationName::RotateRight, Operation::new(0x76, 2, 6, AddressingMode::ZeroPage_X))),
        0x78 => Some((OperationName::SetInterruptDisable, Operation::new(0x78, 1, 2, AddressingMode::Implied))),
        0x79 => Some((OperationName::AddWithCarry, Operation::new(0x79, 3, 4, AddressingMode::Absolute_Y))),
        0x7d => Some((OperationName::AddWithCarry, Operation::new(0x7d, 3, 4, AddressingMode::Absolute_X))),
        0x7e => Some((OperationName::RotateRight, Operation::new(0x7e, 3, 7, AddressingMode::Absolute_X))),
        0x81 => Some((OperationName::StoreAccumulator, Operation::new(0x81, 2, 6, AddressingMode::Indirect_X))),
        0x84 => Some((OperationName::StoreYRegister, Operation::new(0x84, 2, 3, AddressingMode::ZeroPage))),
        0x85 => Some((OperationName::StoreAccumulator, Operation::new(0x85, 2, 3, AddressingMode::ZeroPage))),
        0x86 => Some((OperationName::StoreXRegister, Operation::new(0x86, 2, 3, AddressingMode::ZeroPage))),
        0x88 => Some((OperationName::DecrementYRegister, Operation::new(0x88, 1, 2, AddressingMode::NoneAddressing))),
        0x8a => Some((OperationName::TransferXToAccumulator, Operation::new(0x8a, 1, 2, AddressingMode::NoneAddressing))),
        0x8c => Some((OperationName::StoreYRegister, Operation::new(0x8c, 3, 4, AddressingMode::Absolute))),
        0x8d => Some((OperationName::StoreAccumulator, Operation::new(0x8d, 3, 4, AddressingMode::Absolute))),
        0x8e => Some((OperationName::StoreXRegister, Operation::new(0x8e, 3, 4, AddressingMode::Absolute))),
        0x90 => Some((OperationName::BranchIfCarryClear, Operation::new(0x90, 2, 2, AddressingMode::Relative))),
        0x91 => Some((OperationName::StoreAccumulator, Operation::new(0x91, 2, 6, AddressingMode::Indirect_Y))),
        0x94 => Some((OperationName::StoreYRegister, Operation::new(0x94, 2, 4, AddressingMode::ZeroPage_X))),
        0x95 => Some((OperationName::StoreAccumulator, Operation::new(0x95, 2, 4, AddressingMode::ZeroPage_X))),
        0x96 => Some((OperationName::StoreXRegister, Operation::new(0x96, 2, 4, AddressingMode::ZeroPage_Y))),
        0x98 => Some((OperationName::TransferYToAccumulator, Operation::new(0x98, 1, 2, AddressingMode::NoneAddressing))),
        0x99 => Some((OperationName::StoreAccumulator, Operation::new(0x99, 3, 5, AddressingMode::Absolute_Y))),
        0x9a => Some((OperationName::TransferXToStackPointer, Operation::new(0x9a, 1, 2, AddressingMode::NoneAddressing))),
        0x9d => Some((OperationName::StoreAccumulator, Operation::new(0x9d, 3, 5, AddressingMode::Absolute_X))),
        0xa0 => Some((OperationName::LoadYRegister, Operation::new(0xa0, 2, 2, AddressingMode::Immediate))),
        0xa1 => Some((OperationName::LoadAccumulator, Operation::new(0xa1, 2, 6, AddressingMode::Indirect_X))),
        0xa2 => Some((OperationName::LoadXRegister, Operation::new(0xa2, 2, 2, AddressingMode::Immediate))),
        0xa4 => Some((OperationName::LoadYRegister, Operation::new(0xa4, 2, 3, AddressingMode::ZeroPage))),
        0xa5 => Some((OperationName::LoadAccumulator, Operation::new(0xa5, 2, 3, AddressingMode::ZeroPage))),
        0xa6 => Some((OperationName::LoadXRegister, Operation::new(0xa6, 2, 3, AddressingMode::ZeroPage))),
        0xa8 => Some((OperationName::TransferAccumulatorToY, Operation::new(0xa8, 1, 2, AddressingMode::NoneAddressing))),
        0xa9 => Some((OperationName::LoadAccumulator, Operation::new(0xa9, 2, 2, AddressingMode::Immediate))),
        0xaa => Some((OperationName::TransferAccumulatorToX, Operation::new(0xaa, 1, 2, AddressingMode::NoneAddressing))),
        0xac => Some((OperationName::LoadYRegister, Operation::new(0xac, 3, 4, AddressingMode::Absolute))),
        0xad => Some((OperationName::LoadAccumulator, Operation::new(0xad, 3, 4, AddressingMode::Absolute))),
        0xae => Some((OperationName::LoadXRegister, Operation::new(0xae, 3, 4, AddressingMode::Absolute))),
        0xb0 => Some((OperationName::BranchIfCarrySet, Operation::new(0xb0, 2, 2, AddressingMode::Relative))),
        0xb1 => Some((OperationName::LoadAccumulator, Operation::new(0xb1, 2, 5, AddressingMode::Indirect_Y))),
        0xb4 => Some((OperationName::LoadYRegister, Operation::new(0xb4, 2, 4, AddressingMode::ZeroPage_X))),
        0xb5 => Some((OperationName::LoadAccumulator, Operation::new(0xb5, 2, 4, AddressingMode::ZeroPage_X))),
        0xb6 => Some((OperationName::LoadXRegister, Operation::new(0xb6, 2, 4, AddressingMode::ZeroPage_Y))),
        0xb8 => Some((OperationName::ClearOverflowFlag, Operation::new(0xb8, 1, 2, AddressingMode::Implied))),
        0xb9 => Some((OperationName::LoadAccumulator, Operation::new(0xb9, 3, 4, AddressingMode::Absolute_Y))),
        0xba => Some((OperationName::TransferStackPointerToX, Operation::new(0xba, 1, 2, AddressingMode::NoneAddressing))),
        0xbc => Some((OperationName::LoadYRegister, Operation::new(0xbc, 3, 4, AddressingMode::Absolute_X))),
        0xbd => Some((OperationName::LoadAccumulator, Operation::new(0xbd, 3, 4, AddressingMode::Absolute_X))),
        0xbe => Some((OperationName::LoadXRegister, Operation::new(0xbe, 3, 4, AddressingMode::Absolute_Y))),
        0xc0 => Some((OperationName::CompareY, Operation::new(0xc0, 2, 2, AddressingMode::Immediate))),
        0xc1 => Some((OperationName::Compare, Operation::new(0xc1, 2, 6, AddressingMode::Indirect_X))),
        0xc4 => Some((OperationName::CompareY, Operation::new(0xc4, 2, 3, AddressingMode::ZeroPage))),
        0xc5 => Some((OperationName::Compare, Operation::new(0xc5, 2, 3, AddressingMode::ZeroPage))),
        0xc6 => Some((OperationName::DecrementMemory, Operation::new(0xc6, 2, 5, AddressingMode::ZeroPage))),
        0xc8 => Some((OperationName::IncrementYRegister, Operation::new(0xc8, 1, 2, AddressingMode::NoneAddressing))),
        0xc9 => Some((OperationName::Compare, Operation::new(0xc9, 2, 2, AddressingMode::Immediate))),
        0xca => Some((OperationName::DecrementXRegister, Operation::new(0xca, 1, 2, AddressingMode::NoneAddressing))),
        0xcc => Some((OperationName::CompareY, Operation::new(0xcc, 3, 4, AddressingMode::Absolute))),
        0xcd => Some((OperationName::Compare, Operation::new(0xcd, 3, 4, AddressingMode::Absolute))),
        0xce => Some((OperationName::DecrementMemory, Operation::new(0xce, 3, 6, AddressingMode::Absolute))),
        0xd0 => Some((OperationName::BranchIfNotEqual, Operation::new(0xd0, 2, 2, AddressingMode::Relative))),
        0xd1 => Some((OperationName::Compare, Operation::new(0xd1, 2, 5, AddressingMode::Indirect_Y))),
        0xd5 => Some((OperationName::Compare, Operation::new(0xd5, 2, 4, AddressingMode::ZeroPage_X))),
        0xd6 => Some((OperationName::DecrementMemory, Operation::new(0xd6, 2, 6, AddressingMode::ZeroPage_X))),
        0xd8 => Some((OperationName::ClearDecimalMode, Operation::new(0xd8, 1, 2, AddressingMode::Implied))),
        0xd9 => Some((OperationName::Compare, Operation::new(0xd9, 3, 4, AddressingMode::Absolute_Y))),
        0xdd => Some((OperationName::Compare, Operation::new(0xdd, 3, 4, AddressingMode::Absolute_X))),
        0xde => Some((OperationName::DecrementMemory, Operation::new(0xde, 3, 7, AddressingMode::Absolute_X))),
        0xe0 => Some((OperationName::CompareX, Operation::new(0xe0, 2, 2, AddressingMode::Immediate))),
        0xe1 => Some((OperationName::SubstractWithCarry, Operation::new(0xe1, 2, 6, AddressingMode::Indirect_X))),
        0xe4 => Some((OperationName::CompareX, Operation::new(0xe4, 2, 3, AddressingMode::ZeroPage))),
        0xe5 => Some((OperationName::SubstractWithCarry, Operation::new(0xe5, 2, 3, AddressingMode::ZeroPage))),
        0xe6 => Some((OperationName::IncrementMemory, Operation::new(0xe6, 2, 5, AddressingMode::ZeroPage))),
        0xe8 => Some((OperationName::IncrementXRegister, Operation::new(0xe8, 1, 2, AddressingMode::NoneAddressing))),
        0xe9 => Some((OperationName::SubstractWithCarry, Operation::new(0xe9, 2, 2, AddressingMode::Immediate))),
        0xea => Some((OperationName::NoOperation, Operation::new(0xea, 1, 2, AddressingMode::Implied))),
        0xec => Some((OperationName::CompareX, Operation::new(0xec, 3, 4, AddressingMode::Absolute))),
        0xed => Some((OperationName::SubstractWithCarry, Operation::new(0xed, 3, 4, AddressingMode::Absolute))),
        0xee => Some((OperationName::IncrementMemory, Operation::new(0xee, 3, 6, AddressingMode::Absolute))),
        0xf0 => Some((OperationName::BranchIfEqual, Operation::new(0xf0, 2, 2, AddressingMode::Relative))),
        0xf1 => Some((OperationName::SubstractWithCarry, Operation::new(0xf1, 2, 5, AddressingMode::Indirect_Y))),
        0xf5 => Some((OperationName::SubstractWithCarry, Operation::new(0xf5, 2, 4, AddressingMode::ZeroPage_X))),
        0xf6 => Some((OperationName::IncrementMemory, Operation::new(0xf6, 2, 6, AddressingMode::ZeroPage_X))),
        0xf8 => Some((OperationName::SetDecimalFlag, Operation::new(0xf8, 1, 2, AddressingMode::Implied))),
        0xf9 => Some((OperationName::SubstractWithCarry, Operation::new(0xf9, 3, 4, AddressingMode::Absolute_Y))),
        0xfd => Some((OperationName::SubstractWithCarry, Operation::new(0xfd, 3, 4, AddressingMode::Absolute_X))),
        0xfe => Some((OperationName::IncrementMemory, Operation::new(0xfe, 3, 7, AddressingMode::Absolute_X))),
        _ => None,
    }
}

/// A mnemonic with every encoding of it in the opcode table.
pub struct OperationCodes {
    pub operation_name: OperationName,
    pub operations: Vec<Operation>,
}

impl OperationCodes {
    fn new(operation_name: OperationName, operations: Vec<Operation>) -> (r: Self)
        ensures
            r.operation_name == operation_name,
            r.operations@ == operations@,
    {
        OperationCodes { operation_name, operations }
    }

    /// The encodings of `operation_name`, in increasing opcode order: exactly
    /// the opcode table's entries for that mnemonic.
    pub fn for_name(operation_name: OperationName) -> (r: Self)
        ensures
            r.operation_name == operation_name,
            forall|i: int|
                0 <= i < r.operations@.len() ==> opcode_table(#[trigger] r.operations@[i].operation_code)
                    == Some((operation_name, r.operations@[i])),
            forall|i: int, j: int|
                0 <= i < j < r.operations@.len() ==> r.operations@[i].operation_code
                    < r.operations@[j].operation_code,
            forall|code: u8|
                #[trigger] opcode_table(code) matches Some((name, op)) ==> (name == operation_name
                    ==> r.operations@.contains(op)),
    {
        let mut operations: Vec<Operation> = Vec::new();
        let mut code: u16 = 0;
        while code < 256
            invariant
                code <= 256,
                forall|i: int|
                    0 <= i < operations@.len() ==> opcode_table(#[trigger] operations@[i].operation_code)
                        == Some((operation_name, operations@[i])),
                forall|i: int| 0 <= i < operations@.len() ==> #[trigger] operations@[i].operation_code < code,
                forall|i: int, j: int|
                    0 <= i < j < operations@.len() ==> operations@[i].operation_code
                        < operations@[j].operation_code,
                forall|c: u8|
                    c < code ==> (#[trigger] opcode_table(c) matches Some((name, op)) ==> (name
                        == operation_name ==> operations@.contains(op))),
            decreases 256 - code,
        {
            let ghost before = operations@;
            if let Some((name, op)) = decode(code as u8) {
                if name == operation_name {
                    operations.push(op);
                    assert(operations@[operations@.len() - 1] == op);
                }
            }
            proof {
                assert forall|c: u8|
                    c <= code implies (#[trigger] opcode_table(c) matches Some((name, op)) ==> (name
                        == operation_name ==> operations@.contains(op))) by {
                    if c < code {
                        if let Some((name, op)) = opcode_table(c) {
                            if name == operation_name {
                                let k = choose|k: int| 0 <= k < before.len() && before[k] == op;
                                assert(operations@[k] == op);
                            }
                        }
                    }
                }
            }
            code = code + 1;
        }
        OperationCodes::new(operation_name, operations)
    }
}

} // verus!
