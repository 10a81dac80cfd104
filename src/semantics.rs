//! The meaning of each instruction, as functions on the abstract state.
//!
//! Each function describes what the handler of one mnemonic does, given the
//! state in which the program counter addresses the first operand byte. It
//! does not include the dispatch loop's advance past the operand bytes.
use crate::addressing_mode::AddressingMode;
use crate::cpu_model::{CpuState, STACK};
use crate::memory::{next_address, word_at};
use crate::operation_codes::OperationName;
use crate::status_bit::{bit_set, flag, with_flag, with_zero_negative, StatusBit};
use vstd::prelude::*;

verus! {

/// The signed value of an 8-bit two's-complement offset.
pub open spec fn signed8(b: u8) -> int {
    if b < 128 {
        b as int
    } else {
        b as int - 256
    }
}

/// The address after `a` within the same 256-byte page.
pub open spec fn same_page_next(a: u16) -> u16 {
    ((a as int / 256) * 256 + (a as int % 256 + 1) % 256) as u16
}

/// The little-endian word held by the zero-page cells `z` and `z + 1 (mod 256)`.
pub open spec fn zero_page_word(s: CpuState, z: u8) -> int {
    s.read(z as u16) as int + 256 * s.read(((z as int + 1) % 256) as u16) as int
}

/// The effective address of the operand in `mode`, with the program counter at
/// the first operand byte. Modes without an address yield the program counter.
pub open spec fn operand_address(s: CpuState, mode: AddressingMode) -> u16 {
    let b1 = s.read(s.pc);
    match mode {
        AddressingMode::Immediate => s.pc,
        AddressingMode::ZeroPage => b1 as u16,
        AddressingMode::ZeroPage_X => ((b1 as int + s.x as int) % 256) as u16,
        AddressingMode::ZeroPage_Y => ((b1 as int + s.y as int) % 256) as u16,
        AddressingMode::Absolute => word_at(s.mem, s.pc),
        AddressingMode::Absolute_X => ((word_at(s.mem, s.pc) as int + s.x as int) % 0x10000) as u16,
        AddressingMode::Absolute_Y => ((word_at(s.mem, s.pc) as int + s.y as int) % 0x10000) as u16,
        AddressingMode::Indirect => {
            let ptr = word_at(s.mem, s.pc);
            (s.read(ptr) as int + 256 * s.read(same_page_next(ptr)) as int) as u16
        },
        AddressingMode::Indirect_X => zero_page_word(s, ((b1 as int + s.x as int) % 256) as u8) as u16,
        AddressingMode::Indirect_Y => ((zero_page_word(s, b1) + s.y as int) % 0x10000) as u16,
        AddressingMode::Relative => ((s.pc as int + 1 + signed8(b1)) % 0x10000) as u16,
        _ => s.pc,
    }
}

/// The byte that an instruction reads in `mode`.
pub open spec fn operand(s: CpuState, mode: AddressingMode) -> u8 {
    s.read(operand_address(s, mode))
}

/// The value a shift or rotate works on: A in Accumulator mode, else the operand.
pub open spec fn shift_operand(s: CpuState, mode: AddressingMode) -> u8 {
    if mode is Accumulator {
        s.a
    } else {
        operand(s, mode)
    }
}

/// `s` with `v` written where a shift or rotate puts its result.
pub open spec fn with_shift_result(s: CpuState, mode: AddressingMode, v: u8) -> CpuState {
    if mode is Accumulator {
        CpuState { a: v, ..s }
    } else {
        CpuState { mem: s.mem.update(operand_address(s, mode) as int, v), ..s }
    }
}

/// `s` with its status byte's Z and N taken from `r`.
pub open spec fn set_zero_negative(s: CpuState, r: u8) -> CpuState {
    CpuState { p: with_zero_negative(s.p, r), ..s }
}

/// `s` with `bit` of its status byte set to `v`.
pub open spec fn set_flag(s: CpuState, bit: StatusBit, v: bool) -> CpuState {
    CpuState { p: with_flag(s.p, bit, v), ..s }
}

/// The address of stack slot `sp`.
pub open spec fn stack_address(sp: u8) -> u16 {
    (STACK as int + sp as int) as u16
}

/// `v` written at the stack slot, then the stack pointer decremented (mod 256).
pub open spec fn push(s: CpuState, v: u8) -> CpuState {
    CpuState {
        mem: s.mem.update(stack_address(s.s) as int, v),
        s: ((s.s as int + 255) % 256) as u8,
        ..s
    }
}

/// The stack pointer incremented (mod 256).
pub open spec fn pull_pointer(s: CpuState) -> u8 {
    ((s.s as int + 1) % 256) as u8
}

/// The byte that a pull reads: the stack slot after the incremented pointer.
pub open spec fn pulled(s: CpuState) -> u8 {
    s.read(stack_address(pull_pointer(s)))
}

/// The stack pointer incremented, as a pull leaves it.
pub open spec fn pull(s: CpuState) -> CpuState {
    CpuState { s: pull_pointer(s), ..s }
}

/// ADC of the operand value `m`: A + M + C into A; C on a carry out of bit 7;
/// V when A and M have the same sign and the result's sign differs (that is,
/// when `(A ^ r) & (M ^ r) & 0x80` is nonzero); Z and N from the result.
pub open spec fn add_value(s: CpuState, m: u8) -> CpuState {
    let c: int = if flag(s.p, StatusBit::Carry) { 1 } else { 0 };
    let sum = s.a as int + m as int + c;
    let r = (sum % 256) as u8;
    let overflow = (s.a >= 0x80) == (m >= 0x80) && (r >= 0x80) != (s.a >= 0x80);
    let p = with_flag(with_flag(s.p, StatusBit::Overflow, overflow), StatusBit::Carry, sum > 0xff);
    CpuState { a: r, p: with_zero_negative(p, r), ..s }
}

/// CMP, CPX or CPY of register value `r` with the operand in `mode`.
pub open spec fn compare_value(s: CpuState, mode: AddressingMode, r: u8) -> CpuState {
    let m = operand(s, mode);
    let p = with_flag(s.p, StatusBit::Carry, r >= m);
    let p = with_flag(p, StatusBit::Zero, r == m);
    let p = with_flag(p, StatusBit::Negative, (r as int - m as int) % 256 >= 0x80);
    CpuState { p, ..s }
}

/// The byte one above `v` (mod 256).
pub open spec fn inc8(v: u8) -> u8 {
    ((v as int + 1) % 256) as u8
}

/// The byte one below `v` (mod 256).
pub open spec fn dec8(v: u8) -> u8 {
    ((v as int + 255) % 256) as u8
}

/// `s` with the byte at the operand address replaced by `v`, and Z, N from `v`.
pub open spec fn write_operand(s: CpuState, mode: AddressingMode, v: u8) -> CpuState {
    set_zero_negative(CpuState { mem: s.mem.update(operand_address(s, mode) as int, v), ..s }, v)
}

/// The C flag as 0 or 1.
pub open spec fn carry_in(s: CpuState) -> int {
    if flag(s.p, StatusBit::Carry) {
        1
    } else {
        0
    }
}

/// A shift or rotate that leaves `r` and sets C to `carry`.
pub open spec fn shift_result(s: CpuState, mode: AddressingMode, r: u8, carry: bool) -> CpuState {
    let t = with_shift_result(s, mode, r);
    CpuState { p: with_flag(with_zero_negative(t.p, r), StatusBit::Carry, carry), ..t }
}

/// ASL: C from bit 7, value shifted left.
pub open spec fn asl(s: CpuState, mode: AddressingMode) -> CpuState {
    let v = shift_operand(s, mode);
    shift_result(s, mode, ((v as int * 2) % 256) as u8, v >= 0x80)
}

/// LSR: C from bit 0, value shifted right.
pub open spec fn lsr(s: CpuState, mode: AddressingMode) -> CpuState {
    let v = shift_operand(s, mode);
    shift_result(s, mode, (v as int / 2) as u8, v % 2 == 1)
}

/// ROL: C from bit 7, value shifted left with the old C in bit 0.
pub open spec fn rol(s: CpuState, mode: AddressingMode) -> CpuState {
    let v = shift_operand(s, mode);
    shift_result(s, mode, ((v as int * 2 + carry_in(s)) % 256) as u8, v >= 0x80)
}

/// ROR: C from bit 0, value shifted right with the old C in bit 7.
pub open spec fn ror(s: CpuState, mode: AddressingMode) -> CpuState {
    let v = shift_operand(s, mode);
    shift_result(s, mode, (v as int / 2 + 128 * carry_in(s)) as u8, v % 2 == 1)
}

/// BIT: Z from A AND M, V from bit 6 of M, N from bit 7 of M.
pub open spec fn bit_test(s: CpuState, mode: AddressingMode) -> CpuState {
    let m = operand(s, mode);
    let p = with_flag(s.p, StatusBit::Zero, s.a & m == 0);
    let p = with_flag(p, StatusBit::Overflow, bit_set(m, 6));
    let p = with_flag(p, StatusBit::Negative, bit_set(m, 7));
    CpuState { p, ..s }
}

/// A branch: to the operand address if `condition` holds, else nothing.
pub open spec fn branch(s: CpuState, mode: AddressingMode, condition: bool) -> CpuState {
    if condition {
        CpuState { pc: operand_address(s, mode), ..s }
    } else {
        s
    }
}

/// JSR: push the high, then the low byte of the address of the instruction's
/// last byte, then jump.
pub open spec fn jsr(s: CpuState, mode: AddressingMode) -> CpuState {
    let target = operand_address(s, mode);
    let ret = next_address(s.pc);
    let s1 = push(push(s, (ret / 256) as u8), (ret % 256) as u8);
    CpuState { pc: target, ..s1 }
}

/// RTS: pull the low, then the high byte; continue one past that address.
pub open spec fn rts(s: CpuState) -> CpuState {
    let s1 = pull(s);
    let lo = s1.read(stack_address(s1.s));
    let s2 = pull(s1);
    let hi = s2.read(stack_address(s2.s));
    CpuState { pc: ((hi as int * 256 + lo as int + 1) % 0x10000) as u16, ..s2 }
}

/// RTI: pull the status byte, then the low and high bytes of the program counter.
pub open spec fn rti(s: CpuState) -> CpuState {
    let s1 = pull(s);
    let status = s1.read(stack_address(s1.s));
    let s2 = pull(s1);
    let lo = s2.read(stack_address(s2.s));
    let s3 = pull(s2);
    let hi = s3.read(stack_address(s3.s));
    CpuState { p: status, pc: (hi as int * 256 + lo as int) as u16, ..s3 }
}

/// What the handler of `name` does in `mode`.
pub open spec fn execute(s: CpuState, name: OperationName, mode: AddressingMode) -> CpuState {
    match name {
        OperationName::AddWithCarry => add_value(s, operand(s, mode)),
        OperationName::SubstractWithCarry => add_value(s, !operand(s, mode)),
        OperationName::ArithmeticShiftLeft => asl(s, mode),
        OperationName::LogicalShiftRight => lsr(s, mode),
        OperationName::RotateLeft => rol(s, mode),
        OperationName::RotateRight => ror(s, mode),
        OperationName::BitTest => bit_test(s, mode),
        OperationName::BranchIfCarryClear => branch(s, mode, !flag(s.p, StatusBit::Carry)),
        OperationName::BranchIfCarrySet => branch(s, mode, flag(s.p, StatusBit::Carry)),
        OperationName::BranchIfEqual => branch(s, mode, flag(s.p, StatusBit::Zero)),
        OperationName::BranchIfNotEqual => branch(s, mode, !flag(s.p, StatusBit::Zero)),
        OperationName::BranchIfMinus => branch(s, mode, flag(s.p, StatusBit::Negative)),
        OperationName::BranchIfPositive => branch(s, mode, !flag(s.p, StatusBit::Negative)),
        OperationName::BranchIfOverflowSet => branch(s, mode, flag(s.p, StatusBit::Overflow)),
        OperationName::BranchIfOverflowClear => branch(s, mode, !flag(s.p, StatusBit::Overflow)),
        OperationName::ClearCarryFlag => set_flag(s, StatusBit::Carry, false),
        OperationName::ClearDecimalMode => set_flag(s, StatusBit::Decimal, false),
        OperationName::ClearInterruptDisable => set_flag(s, StatusBit::Interrupt, false),
        OperationName::ClearOverflowFlag => set_flag(s, StatusBit::Overflow, false),
        OperationName::SetCarryFlag => set_flag(s, StatusBit::Carry, true),
        OperationName::SetDecimalFlag => set_flag(s, StatusBit::Decimal, true),
        OperationName::SetInterruptDisable => set_flag(s, StatusBit::Interrupt, true),
        OperationName::Compare => compare_value(s, mode, s.a),
        OperationName::CompareX => compare_value(s, mode, s.x),
        OperationName::CompareY => compare_value(s, mode, s.y),
        OperationName::IncrementMemory => write_operand(s, mode, inc8(operand(s, mode))),
        OperationName::DecrementMemory => write_operand(s, mode, dec8(operand(s, mode))),
        OperationName::IncrementXRegister => set_zero_negative(CpuState { x: inc8(s.x), ..s }, inc8(s.x)),
        OperationName::IncrementYRegister => set_zero_negative(CpuState { y: inc8(s.y), ..s }, inc8(s.y)),
        OperationName::DecrementXRegister => set_zero_negative(CpuState { x: dec8(s.x), ..s }, dec8(s.x)),
        OperationName::DecrementYRegister => set_zero_negative(CpuState { y: dec8(s.y), ..s }, dec8(s.y)),
        OperationName::LogicalAND => set_zero_negative(CpuState { a: s.a & operand(s, mode), ..s }, s.a & operand(s, mode)),
        OperationName::LogicalInclusiveOR => set_zero_negative(CpuState { a: s.a | operand(s, mode), ..s }, s.a | operand(s, mode)),
        OperationName::ExclusiveOR => set_zero_negative(CpuState { a: s.a ^ operand(s, mode), ..s }, s.a ^ operand(s, mode)),
        OperationName::LoadAccumulator => set_zero_negative(CpuState { a: operand(s, mode), ..s }, operand(s, mode)),
        OperationName::LoadXRegister => set_zero_negative(CpuState { x: operand(s, mode), ..s }, operand(s, mode)),
        OperationName::LoadYRegister => set_zero_negative(CpuState { y: operand(s, mode), ..s }, operand(s, mode)),
        OperationName::StoreAccumulator => CpuState { mem: s.mem.update(operand_address(s, mode) as int, s.a), ..s },
        OperationName::StoreXRegister => CpuState { mem: s.mem.update(operand_address(s, mode) as int, s.x), ..s },
        OperationName::StoreYRegister => CpuState { mem: s.mem.update(operand_address(s, mode) as int, s.y), ..s },
        OperationName::TransferAccumulatorToX => set_zero_negative(CpuState { x: s.a, ..s }, s.a),
        OperationName::TransferAccumulatorToY => set_zero_negative(CpuState { y: s.a, ..s }, s.a),
        OperationName::TransferXToAccumulator => set_zero_negative(CpuState { a: s.x, ..s }, s.x),
        OperationName::TransferYToAccumulator => set_zero_negative(CpuState { a: s.y, ..s }, s.y),
        OperationName::TransferStackPointerToX => set_zero_negative(CpuState { x: s.s, ..s }, s.s),
        OperationName::TransferXToStackPointer => CpuState { s: s.x, ..s },
        OperationName::Jump => CpuState { pc: operand_address(s, mode), ..s },
        OperationName::JumpToSubroutine => jsr(s, mode),
        OperationName::ReturnFromSubroutine => rts(s),
        OperationName::ReturnFromInterrupt => rti(s),
        OperationName::PushAccumulator => push(s, s.a),
        OperationName::PushProcessorStatus => push(s, s.p),
        OperationName::PullAccumulator => {
            let v = pulled(s);
            set_zero_negative(CpuState { a: v, ..pull(s) }, v)
        },
        OperationName::PullProcessorStatus => CpuState { p: pulled(s), ..pull(s) },
        OperationName::ForceInterrupt | OperationName::NoOperation => s,
    }
}

/// Whether the handler of `name` can act in `mode`: instructions that read or
/// write an operand need a mode with an address; shifts and rotates also take
/// the accumulator.
pub open spec fn mode_fits(name: OperationName, mode: AddressingMode) -> bool {
    match name {
        OperationName::ArithmeticShiftLeft | OperationName::LogicalShiftRight
        | OperationName::RotateLeft | OperationName::RotateRight => mode.has_address() || mode is Accumulator,
        OperationName::AddWithCarry | OperationName::SubstractWithCarry | OperationName::BitTest
        | OperationName::BranchIfCarryClear | OperationName::BranchIfCarrySet
        | OperationName::BranchIfEqual | OperationName::BranchIfNotEqual
        | OperationName::BranchIfMinus | OperationName::BranchIfPositive
        | OperationName::BranchIfOverflowSet | OperationName::BranchIfOverflowClear
        | OperationName::Compare | OperationName::CompareX | OperationName::CompareY
        | OperationName::IncrementMemory | OperationName::DecrementMemory
        | OperationName::LogicalAND | OperationName::LogicalInclusiveOR | OperationName::ExclusiveOR
        | OperationName::LoadAccumulator | OperationName::LoadXRegister | OperationName::LoadYRegister
        | OperationName::StoreAccumulator | OperationName::StoreXRegister | OperationName::StoreYRegister
        | OperationName::Jump | OperationName::JumpToSubroutine => mode.has_address(),
        _ => true,
    }
}

} // verus!
