//! The instruction handlers. Each takes the processor and an addressing mode,
//! and does to the processor what `semantics::execute` says of its mnemonic.
use crate::addressing_mode::AddressingMode;
use crate::bitwise_operation::BitwiseOperation;
use crate::cpu_model::{CpuState, CPU, STACK};
use crate::operation_codes::OperationName;
use crate::semantics;
use crate::semantics::{
    add_value, compare_value, execute, mode_fits, operand, operand_address, pull, pulled, push, same_page_next,
    set_zero_negative, shift_operand, shift_result, zero_page_word,
};
use crate::status_bit::{flag, lemma_bit_ops};
use crate::status_bit::StatusBit;
use vstd::prelude::*;

verus! {

/// Sets Z iff `result` is zero and N iff bit 7 of `result` is set.
pub fn update_zero_and_negative_flags(cpu: &mut CPU, result: u8)
    requires
        old(cpu).wf(),
    ensures
        final(cpu).wf(),
        final(cpu)@ == set_zero_negative(old(cpu)@, result),
{
    update_status_bit(cpu, StatusBit::Zero, BitwiseOperation::from_bool(result == 0));
    update_status_bit(cpu, StatusBit::Negative, BitwiseOperation::from_bool(result >= 0x80));
}

/// The little-endian word held by the zero-page cells `z` and `z + 1 (mod 256)`.
fn read_zero_page_word(cpu: &CPU, z: u8) -> (r: u16)
    requires
        cpu.wf(),
    ensures
        r == zero_page_word(cpu@, z),
{
    let lo = cpu.memory.read_u8(z as u16);
    let hi = cpu.memory.read_u8(z.wrapping_add(1) as u16);
    hi as u16 * 256 + lo as u16
}

/// The word at `base`, with its high byte taken from the same page as `base`.
fn read_page_wrapped_word(cpu: &CPU, base: u16) -> (r: u16)
    requires
        cpu.wf(),
    ensures
        r == cpu@.read(base) as int + 256 * cpu@.read(same_page_next(base)) as int,
{
    let lo = cpu.memory.read_u8(base);
    // The high byte comes from the same page: 0x10FF reads 0x1000, not 0x1100.
    let hi_address = if base % 256 == 0xFF {
        base - 0xFF
    } else {
        base + 1
    };
    assert(hi_address == same_page_next(base));
    let hi = cpu.memory.read_u8(hi_address);
    hi as u16 * 256 + lo as u16
}

/// The branch target: one past the offset byte at `pc`, plus the signed offset.
fn relative_target(cpu: &CPU) -> (r: u16)
    requires
        cpu.wf(),
    ensures
        r == operand_address(cpu@, AddressingMode::Relative),
{
    let pc = cpu.program_counter;
    let offset = cpu.memory.read_u8(pc);
    let next = pc.wrapping_add(1);
    if offset < 128 {
        next.wrapping_add(offset as u16)
    } else {
        next.wrapping_sub(256 - offset as u16)
    }
}

/// The effective address of the current instruction's operand in `mode`; for
/// Immediate, the address of the operand byte itself. The program counter
/// addresses the first operand byte and is left as it is.
#[verifier::spinoff_prover]
#[verifier::rlimit(50)]
pub fn get_operand_address(cpu: &CPU, mode: &AddressingMode) -> (r: u16)
    requires
        cpu.wf(),
        mode.has_address(),
    ensures
        r == operand_address(cpu@, *mode),
{
    let pc = cpu.program_counter;
    match mode {
        AddressingMode::ZeroPage => cpu.memory.read_u8(pc) as u16,
        AddressingMode::ZeroPage_X => cpu.memory.read_u8(pc).wrapping_add(cpu.register_x) as u16,
        AddressingMode::ZeroPage_Y => cpu.memory.read_u8(pc).wrapping_add(cpu.register_y) as u16,
        AddressingMode::Absolute => cpu.memory.read_u16(pc),
        AddressingMode::Absolute_X => cpu.memory.read_u16(pc).wrapping_add(cpu.register_x as u16),
        AddressingMode::Absolute_Y => cpu.memory.read_u16(pc).wrapping_add(cpu.register_y as u16),
        AddressingMode::Indirect => {
            let base = cpu.memory.read_u16(pc);
            read_page_wrapped_word(cpu, base)
        },
        AddressingMode::Indirect_X => {
            let ptr: u8 = cpu.memory.read_u8(pc).wrapping_add(cpu.register_x);
            read_zero_page_word(cpu, ptr)
        },
        AddressingMode::Indirect_Y => {
            let base: u8 = cpu.memory.read_u8(pc);
            read_zero_page_word(cpu, base).wrapping_add(cpu.register_y as u16)
        },
        AddressingMode::Relative => relative_target(cpu),
        _ => pc,
    }
}

/// Applies `op` to the status bit `position`.
pub fn update_status_bit(cpu: &mut CPU, position: StatusBit, op: BitwiseOperation)
    requires
        old(cpu).wf(),
    ensures
        final(cpu).wf(),
        final(cpu)@ == (CpuState { p: op.apply(old(cpu).status, position.spec_position()), ..old(cpu)@ }),
{
    let k = position.position();
    proof {
        lemma_bit_ops(cpu.status, k);
    }
    match op {
        BitwiseOperation::SetBit => {
            cpu.status = cpu.status | (1u8 << k);
        },
        BitwiseOperation::UnsetBit => {
            cpu.status = cpu.status & !(1u8 << k);
        },
        BitwiseOperation::FlipBit => {
            cpu.status = cpu.status ^ (1u8 << k);
        },
    }
}

/// The byte at the operand address of `mode`.
fn read_operand(cpu: &CPU, mode: &AddressingMode) -> (r: u8)
    requires
        cpu.wf(),
        mode.has_address(),
    ensures
        r == operand(cpu@, *mode),
{
    let address = get_operand_address(cpu, mode);
    cpu.memory.read_u8(address)
}

/// LDA: loads the operand into A; Z, N from the value.
pub fn load_accumulator(cpu: &mut CPU, mode: &AddressingMode)
    requires
        old(cpu).wf(),
        mode.has_address(),
    ensures
        final(cpu).wf(),
        final(cpu)@ == execute(old(cpu)@, OperationName::LoadAccumulator, *mode),
{
    let value = read_operand(cpu, mode);
    cpu.register_a = value;
    update_zero_and_negative_flags(cpu, value);
}

/// LDX: loads the operand into X; Z, N from the value.
pub fn load_x_register(cpu: &mut CPU, mode: &AddressingMode)
    requires
        old(cpu).wf(),
        mode.has_address(),
    ensures
        final(cpu).wf(),
        final(cpu)@ == execute(old(cpu)@, OperationName::LoadXRegister, *mode),
{
    let value = read_operand(cpu, mode);
    cpu.register_x = value;
    update_zero_and_negative_flags(cpu, value);
}

/// LDY: loads the operand into Y; Z, N from the value.
pub fn load_y_register(cpu: &mut CPU, mode: &AddressingMode)
    requires
        old(cpu).wf(),
        mode.has_address(),
    ensures
        final(cpu).wf(),
        final(cpu)@ == execute(old(cpu)@, OperationName::LoadYRegister, *mode),
{
    let value = read_operand(cpu, mode);
    cpu.register_y = value;
    update_zero_and_negative_flags(cpu, value);
}

/// Whether `bit` is set in the status byte.
pub fn flag_is_set(cpu: &CPU, bit: StatusBit) -> (r: bool)
    ensures
        r == flag(cpu.status, bit),
{
    proof {
        lemma_bit_ops(cpu.status, bit.spec_position());
    }
    (cpu.status >> bit.position()) & 1 == 1
}

/// Stores `value` at the operand address of `mode`.
fn write_operand_byte(cpu: &mut CPU, mode: &AddressingMode, value: u8)
    requires
        old(cpu).wf(),
        mode.has_address(),
    ensures
        final(cpu).wf(),
        final(cpu)@ == (CpuState {
            mem: old(cpu)@.mem.update(operand_address(old(cpu)@, *mode) as int, value),
            ..old(cpu)@
        }),
{
    let address = get_operand_address(cpu, mode);
    cpu.memory.write_u8(address, value);
}

/// Sets C iff `value_to_compare` >= M, Z iff they are equal, N from bit 7 of
/// their difference (mod 256), where M is the operand in `mode`.
pub fn compare(cpu: &mut CPU, mode: &AddressingMode, value_to_compare: u8)
    requires
        old(cpu).wf(),
        mode.has_address(),
    ensures
        final(cpu).wf(),
        final(cpu)@ == compare_value(old(cpu)@, *mode, value_to_compare),
{
    let value = read_operand(cpu, mode);
    update_status_bit(cpu, StatusBit::Carry, BitwiseOperation::from_bool(value_to_compare >= value));
    update_status_bit(cpu, StatusBit::Zero, BitwiseOperation::from_bool(value_to_compare == value));
    let result = value_to_compare.wrapping_sub(value);
    update_status_bit(cpu, StatusBit::Negative, BitwiseOperation::from_bool(result >= 0x80));
}

/// A + `value_to_add` + C into A, with C set on a carry out of bit 7, V on a
/// signed overflow, and Z, N from the result.
pub fn adding_with_carry(cpu: &mut CPU, value_to_add: u8)
    requires
        old(cpu).wf(),
    ensures
        final(cpu).wf(),
        final(cpu)@ == add_value(old(cpu)@, value_to_add),
{
    let carry: u16 = if flag_is_set(cpu, StatusBit::Carry) {
        1
    } else {
        0
    };
    let sum: u16 = cpu.register_a as u16 + value_to_add as u16 + carry;
    let result: u8 = (sum % 256) as u8;
    let overflow: u8 = (cpu.register_a ^ result) & (value_to_add ^ result) & 0x80;
    let a = cpu.register_a;
    assert((overflow != 0) == ((a >= 0x80) == (value_to_add >= 0x80) && (result >= 0x80) != (a >= 0x80)))
        by (bit_vector)
        requires
            overflow == (a ^ result) & (value_to_add ^ result) & 0x80,
    ;
    cpu.register_a = result;
    update_status_bit(cpu, StatusBit::Overflow, BitwiseOperation::from_bool(overflow != 0));
    update_status_bit(cpu, StatusBit::Carry, BitwiseOperation::from_bool(sum > 0xff));
    update_zero_and_negative_flags(cpu, result);
}

/// Writes `value` at the stack slot, then decrements the stack pointer (mod 256).
fn push_byte(cpu: &mut CPU, value: u8)
    requires
        old(cpu).wf(),
    ensures
        final(cpu).wf(),
        final(cpu)@ == push(old(cpu)@, value),
{
    cpu.memory.write_u8(STACK + cpu.stack_pointer as u16, value);
    cpu.stack_pointer = cpu.stack_pointer.wrapping_sub(1);
}

/// Increments the stack pointer (mod 256), then reads the stack slot.
fn pull_byte(cpu: &mut CPU) -> (r: u8)
    requires
        old(cpu).wf(),
    ensures
        final(cpu).wf(),
        final(cpu)@ == pull(old(cpu)@),
        r == pulled(old(cpu)@),
{
    cpu.stack_pointer = cpu.stack_pointer.wrapping_add(1);
    cpu.memory.read_u8(STACK + cpu.stack_pointer as u16)
}

/// The value a shift or rotate works on: A in Accumulator mode, else the operand.
fn read_shift_operand(cpu: &CPU, mode: &AddressingMode) -> (r: u8)
    requires
        cpu.wf(),
        mode.has_address() || *mode is Accumulator,
    ensures
        r == shift_operand(cpu@, *mode),
{
    if let AddressingMode::Accumulator = mode {
        cpu.register_a
    } else {
        read_operand(cpu, mode)
    }
}

/// Puts the result of a shift or rotate back where it came from, sets Z and N
/// from it and C to `carry`.
fn finish_shift(cpu: &mut CPU, mode: &AddressingMode, result: u8, carry: bool)
    requires
        old(cpu).wf(),
        mode.has_address() || *mode is Accumulator,
    ensures
        final(cpu).wf(),
        final(cpu)@ == shift_result(old(cpu)@, *mode, result, carry),
{
    if let AddressingMode::Accumulator = mode {
        cpu.register_a = result;
    } else {
        write_operand_byte(cpu, mode, result);
    }
    update_zero_and_negative_flags(cpu, result);
    update_status_bit(cpu, StatusBit::Carry, BitwiseOperation::from_bool(carry));
}

/// Moves the program counter to the operand address if `condition` holds.
pub fn branch(cpu: &mut CPU, mode: &AddressingMode, condition: bool)
    requires
        old(cpu).wf(),
        mode.has_address(),
    ensures
        final(cpu).wf(),
        final(cpu)@ == semantics::branch(old(cpu)@, *mode, condition),
{
    if condition {
        let target_address = get_operand_address(cpu, mode);
        cpu.program_counter = target_address;
    }
}

/// INC: adds one (mod 256) to the operand's memory cell; Z, N from the result.
pub fn increment_memory(cpu: &mut CPU, mode: &AddressingMode)
    requires
        old(cpu).wf(),
        mode.has_address(),
    ensures
        final(cpu).wf(),
        final(cpu)@ == execute(old(cpu)@, OperationName::IncrementMemory, *mode),
{
    let value = read_operand(cpu, mode).wrapping_add(1);
    write_operand_byte(cpu, mode, value);
    update_zero_and_negative_flags(cpu, value);
}

/// DEC: subtracts one (mod 256) from the operand's memory cell; Z, N from the result.
pub fn decrement_memory(cpu: &mut CPU, mode: &AddressingMode)
    requires
        old(cpu).wf(),
        mode.has_address(),
    ensures
        final(cpu).wf(),
        final(cpu)@ == execute(old(cpu)@, OperationName::DecrementMemory, *mode),
{
    let value = read_operand(cpu, mode).wrapping_sub(1);
    write_operand_byte(cpu, mode, value);
    update_zero_and_negative_flags(cpu, value);
}

/// INX: X + 1 (mod 256); Z, N from the result.
pub fn increment_x_register(cpu: &mut CPU, mode: &AddressingMode)
    requires
        old(cpu).wf(),
    ensures
        final(cpu).wf(),
        final(cpu)@ == execute(old(cpu)@, OperationName::IncrementXRegister, *mode),
{
    cpu.register_x = cpu.register_x.wrapping_add(1);
    update_zero_and_negative_flags(cpu, cpu.register_x);
}

/// INY: Y + 1 (mod 256); Z, N from the result.
pub fn increment_y_register(cpu: &mut CPU, mode: &AddressingMode)
    requires
        old(cpu).wf(),
    ensures
        final(cpu).wf(),
        final(cpu)@ == execute(old(cpu)@, OperationName::IncrementYRegister, *mode),
{
    cpu.register_y = cpu.register_y.wrapping_add(1);
    update_zero_and_negative_flags(cpu, cpu.register_y);
}

/// DEX: X - 1 (mod 256); Z, N from the result.
pub fn decrement_x_register(cpu: &mut CPU, mode: &AddressingMode)
    requires
        old(cpu).wf(),
    ensures
        final(cpu).wf(),
        final(cpu)@ == execute(old(cpu)@, OperationName::DecrementXRegister, *mode),
{
    cpu.register_x = cpu.register_x.wrapping_sub(1);
    update_zero_and_negative_flags(cpu, cpu.register_x);
}

/// DEY: Y - 1 (mod 256); Z, N from the result.
pub fn decrement_y_register(cpu: &mut CPU, mode: &AddressingMode)
    requires
        old(cpu).wf(),
    ensures
        final(cpu).wf(),
        final(cpu)@ == execute(old(cpu)@, OperationName::DecrementYRegister, *mode),
{
    cpu.register_y = cpu.register_y.wrapping_sub(1);
    update_zero_and_negative_flags(cpu, cpu.register_y);
}

/// TAX: X from A; Z, N from the value.
pub fn transfer_accumulator_to_x(cpu: &mut CPU, mode: &AddressingMode)
    requires
        old(cpu).wf(),
    ensures
        final(cpu).wf(),
        final(cpu)@ == execute(old(cpu)@, OperationName::TransferAccumulatorToX, *mode),
{
    cpu.register_x = cpu.register_a;
    update_zero_and_negative_flags(cpu, cpu.register_x);
}

/// TAY: Y from A; Z, N from the value.
pub fn transfer_accumulator_to_y(cpu: &mut CPU, mode: &AddressingMode)
    requires
        old(cpu).wf(),
    ensures
        final(cpu).wf(),
        final(cpu)@ == execute(old(cpu)@, OperationName::TransferAccumulatorToY, *mode),
{
    cpu.register_y = cpu.register_a;
    update_zero_and_negative_flags(cpu, cpu.register_y);
}

/// TXA: A from X; Z, N from the value.
pub fn transfer_x_to_accumulator(cpu: &mut CPU, mode: &AddressingMode)
    requires
        old(cpu).wf(),
    ensures
        final(cpu).wf(),
        final(cpu)@ == execute(old(cpu)@, OperationName::TransferXToAccumulator, *mode),
{
    cpu.register_a = cpu.register_x;
    update_zero_and_negative_flags(cpu, cpu.register_a);
}

/// TYA: A from Y; Z, N from the value.
pub fn transfer_y_to_accumulator(cpu: &mut CPU, mode: &AddressingMode)
    requires
        old(cpu).wf(),
    ensures
        final(cpu).wf(),
        final(cpu)@ == execute(old(cpu)@, OperationName::TransferYToAccumulator, *mode),
{
    cpu.register_a = cpu.register_y;
    update_zero_and_negative_flags(cpu, cpu.register_a);
}

/// TSX: X from S; Z, N from the value.
pub fn transfer_stack_pointer_to_x(cpu: &mut CPU, mode: &AddressingMode)
    requires
        old(cpu).wf(),
    ensures
        final(cpu).wf(),
        final(cpu)@ == execute(old(cpu)@, OperationName::TransferStackPointerToX, *mode),
{
    cpu.register_x = cpu.stack_pointer;
    update_zero_and_negative_flags(cpu, cpu.register_x);
}

/// TXS: S from X; no flag changes.
pub fn transfer_x_to_stack_pointer(cpu: &mut CPU, mode: &AddressingMode)
    requires
        old(cpu).wf(),
    ensures
        final(cpu).wf(),
        final(cpu)@ == execute(old(cpu)@, OperationName::TransferXToStackPointer, *mode),
{
    cpu.stack_pointer = cpu.register_x;
}

/// STA: writes A at the operand address.
pub fn store_accumulator(cpu: &mut CPU, mode: &AddressingMode)
    requires
        old(cpu).wf(),
        mode.has_address(),
    ensures
        final(cpu).wf(),
        final(cpu)@ == execute(old(cpu)@, OperationName::StoreAccumulator, *mode),
{
    write_operand_byte(cpu, mode, cpu.register_a);
}

/// STX: writes X at the operand address.
pub fn store_x_register(cpu: &mut CPU, mode: &AddressingMode)
    requires
        old(cpu).wf(),
        mode.has_address(),
    ensures
        final(cpu).wf(),
        final(cpu)@ == execute(old(cpu)@, OperationName::StoreXRegister, *mode),
{
    write_operand_byte(cpu, mode, cpu.register_x);
}

/// STY: writes Y at the operand address.
pub fn store_y_register(cpu: &mut CPU, mode: &AddressingMode)
    requires
        old(cpu).wf(),
        mode.has_address(),
    ensures
        final(cpu).wf(),
        final(cpu)@ == execute(old(cpu)@, OperationName::StoreYRegister, *mode),
{
    write_operand_byte(cpu, mode, cpu.register_y);
}

/// CMP: compares A with the operand.
pub fn compare_a(cpu: &mut CPU, mode: &AddressingMode)
    requires
        old(cpu).wf(),
        mode.has_address(),
    ensures
        final(cpu).wf(),
        final(cpu)@ == execute(old(cpu)@, OperationName::Compare, *mode),
{
    compare(cpu, mode, cpu.register_a);
}

/// CPX: compares X with the operand.
pub fn compare_x(cpu: &mut CPU, mode: &AddressingMode)
    requires
        old(cpu).wf(),
        mode.has_address(),
    ensures
        final(cpu).wf(),
        final(cpu)@ == execute(old(cpu)@, OperationName::CompareX, *mode),
{
    compare(cpu, mode, cpu.register_x);
}

/// CPY: compares Y with the operand.
pub fn compare_y(cpu: &mut CPU, mode: &AddressingMode)
    requires
        old(cpu).wf(),
        mode.has_address(),
    ensures
        final(cpu).wf(),
        final(cpu)@ == execute(old(cpu)@, OperationName::CompareY, *mode),
{
    compare(cpu, mode, cpu.register_y);
}

/// ADC: adds the operand and C to A.
pub fn add_with_carry(cpu: &mut CPU, mode: &AddressingMode)
    requires
        old(cpu).wf(),
        mode.has_address(),
    ensures
        final(cpu).wf(),
        final(cpu)@ == execute(old(cpu)@, OperationName::AddWithCarry, *mode),
{
    let value = read_operand(cpu, mode);
    adding_with_carry(cpu, value);
}

/// SBC: adds the bitwise NOT of the operand and C to A, so C is set when no borrow occurred.
pub fn substract_with_carry(cpu: &mut CPU, mode: &AddressingMode)
    requires
        old(cpu).wf(),
        mode.has_address(),
    ensures
        final(cpu).wf(),
        final(cpu)@ == execute(old(cpu)@, OperationName::SubstractWithCarry, *mode),
{
    let value = read_operand(cpu, mode);
    adding_with_carry(cpu, !value);
}

/// AND: A AND operand into A; Z, N from the result.
pub fn logical_and(cpu: &mut CPU, mode: &AddressingMode)
    requires
        old(cpu).wf(),
        mode.has_address(),
    ensures
        final(cpu).wf(),
        final(cpu)@ == execute(old(cpu)@, OperationName::LogicalAND, *mode),
{
    let value = read_operand(cpu, mode);
    cpu.register_a = cpu.register_a & value;
    update_zero_and_negative_flags(cpu, cpu.register_a);
}

/// ORA: A OR operand into A; Z, N from the result.
pub fn logical_inclusive_or(cpu: &mut CPU, mode: &AddressingMode)
    requires
        old(cpu).wf(),
        mode.has_address(),
    ensures
        final(cpu).wf(),
        final(cpu)@ == execute(old(cpu)@, OperationName::LogicalInclusiveOR, *mode),
{
    let value = read_operand(cpu, mode);
    cpu.register_a = cpu.register_a | value;
    update_zero_and_negative_flags(cpu, cpu.register_a);
}

/// EOR: A XOR operand into A; Z, N from the result.
pub fn exclusive_or(cpu: &mut CPU, mode: &AddressingMode)
    requires
        old(cpu).wf(),
        mode.has_address(),
    ensures
        final(cpu).wf(),
        final(cpu)@ == execute(old(cpu)@, OperationName::ExclusiveOR, *mode),
{
    let value = read_operand(cpu, mode);
    cpu.register_a = cpu.register_a ^ value;
    update_zero_and_negative_flags(cpu, cpu.register_a);
}

/// BIT: Z from A AND operand, V from its bit 6, N from its bit 7; A is kept.
pub fn bit_test(cpu: &mut CPU, mode: &AddressingMode)
    requires
        old(cpu).wf(),
        mode.has_address(),
    ensures
        final(cpu).wf(),
        final(cpu)@ == execute(old(cpu)@, OperationName::BitTest, *mode),
{
    let value = read_operand(cpu, mode);
    proof {
        lemma_bit_ops(value, 6);
        lemma_bit_ops(value, 7);
    }
    let result = cpu.register_a & value;
    update_status_bit(cpu, StatusBit::Zero, BitwiseOperation::from_bool(result == 0));
    update_status_bit(cpu, StatusBit::Overflow, BitwiseOperation::from_bool((value >> 6u8) & 1 == 1));
    update_status_bit(cpu, StatusBit::Negative, BitwiseOperation::from_bool((value >> 7u8) & 1 == 1));
}

/// ASL: shifts A or the operand cell left; C from the old bit 7.
pub fn arithmetic_shift_left(cpu: &mut CPU, mode: &AddressingMode)
    requires
        old(cpu).wf(),
        mode.has_address() || *mode is Accumulator,
    ensures
        final(cpu).wf(),
        final(cpu)@ == execute(old(cpu)@, OperationName::ArithmeticShiftLeft, *mode),
{
    let value = read_shift_operand(cpu, mode);
    finish_shift(cpu, mode, value.wrapping_mul(2), value >= 0x80);
}

/// LSR: shifts A or the operand cell right; C from the old bit 0.
pub fn logical_shift_right(cpu: &mut CPU, mode: &AddressingMode)
    requires
        old(cpu).wf(),
        mode.has_address() || *mode is Accumulator,
    ensures
        final(cpu).wf(),
        final(cpu)@ == execute(old(cpu)@, OperationName::LogicalShiftRight, *mode),
{
    let value = read_shift_operand(cpu, mode);
    finish_shift(cpu, mode, value / 2, value % 2 == 1);
}

/// ROL: rotates A or the operand cell left through C.
pub fn rotate_left(cpu: &mut CPU, mode: &AddressingMode)
    requires
        old(cpu).wf(),
        mode.has_address() || *mode is Accumulator,
    ensures
        final(cpu).wf(),
        final(cpu)@ == execute(old(cpu)@, OperationName::RotateLeft, *mode),
{
    let value = read_shift_operand(cpu, mode);
    let carry_in: u8 = if flag_is_set(cpu, StatusBit::Carry) {
        1
    } else {
        0
    };
    let result: u8 = (value % 128) * 2 + carry_in;
    assert(result as int == (value as int * 2 + carry_in as int) % 256) by (nonlinear_arith)
        requires
            result == (value % 128) * 2 + carry_in,
            carry_in <= 1,
    ;
    finish_shift(cpu, mode, result, value >= 0x80);
}

/// ROR: rotates A or the operand cell right through C.
pub fn rotate_right(cpu: &mut CPU, mode: &AddressingMode)
    requires
        old(cpu).wf(),
        mode.has_address() || *mode is Accumulator,
    ensures
        final(cpu).wf(),
        final(cpu)@ == execute(old(cpu)@, OperationName::RotateRight, *mode),
{
    let value = read_shift_operand(cpu, mode);
    let carry_in: u8 = if flag_is_set(cpu, StatusBit::Carry) {
        128
    } else {
        0
    };
    finish_shift(cpu, mode, value / 2 + carry_in, value % 2 == 1);
}

/// BCC: branches when C is clear.
pub fn branch_if_carry_clear(cpu: &mut CPU, mode: &AddressingMode)
    requires
        old(cpu).wf(),
        mode.has_address(),
    ensures
        final(cpu).wf(),
        final(cpu)@ == execute(old(cpu)@, OperationName::BranchIfCarryClear, *mode),
{
    let condition = !flag_is_set(cpu, StatusBit::Carry);
    branch(cpu, mode, condition);
}

/// BCS: branches when C is set.
pub fn branch_if_carry_set(cpu: &mut CPU, mode: &AddressingMode)
    requires
        old(cpu).wf(),
        mode.has_address(),
    ensures
        final(cpu).wf(),
        final(cpu)@ == execute(old(cpu)@, OperationName::BranchIfCarrySet, *mode),
{
    let condition = flag_is_set(cpu, StatusBit::Carry);
    branch(cpu, mode, condition);
}

/// BEQ: branches when Z is set.
pub fn branch_if_equal(cpu: &mut CPU, mode: &AddressingMode)
    requires
        old(cpu).wf(),
        mode.has_address(),
    ensures
        final(cpu).wf(),
        final(cpu)@ == execute(old(cpu)@, OperationName::BranchIfEqual, *mode),
{
    let condition = flag_is_set(cpu, StatusBit::Zero);
    branch(cpu, mode, condition);
}

/// BMI: branches when N is set.
pub fn branch_if_minus(cpu: &mut CPU, mode: &AddressingMode)
    requires
        old(cpu).wf(),
        mode.has_address(),
    ensures
        final(cpu).wf(),
        final(cpu)@ == execute(old(cpu)@, OperationName::BranchIfMinus, *mode),
{
    let condition = flag_is_set(cpu, StatusBit::Negative);
    branch(cpu, mode, condition);
}

/// BNE: branches when Z is clear.
pub fn branch_if_not_equal(cpu: &mut CPU, mode: &AddressingMode)
    requires
        old(cpu).wf(),
        mode.has_address(),
    ensures
        final(cpu).wf(),
        final(cpu)@ == execute(old(cpu)@, OperationName::BranchIfNotEqual, *mode),
{
    let condition = !flag_is_set(cpu, StatusBit::Zero);
    branch(cpu, mode, condition);
}

/// BPL: branches when N is clear.
pub fn branch_if_positive(cpu: &mut CPU, mode: &AddressingMode)
    requires
        old(cpu).wf(),
        mode.has_address(),
    ensures
        final(cpu).wf(),
        final(cpu)@ == execute(old(cpu)@, OperationName::BranchIfPositive, *mode),
{
    let condition = !flag_is_set(cpu, StatusBit::Negative);
    branch(cpu, mode, condition);
}

/// BVC: branches when V is clear.
pub fn branch_if_overflow_clear(cpu: &mut CPU, mode: &AddressingMode)
    requires
        old(cpu).wf(),
        mode.has_address(),
    ensures
        final(cpu).wf(),
        final(cpu)@ == execute(old(cpu)@, OperationName::BranchIfOverflowClear, *mode),
{
    let condition = !flag_is_set(cpu, StatusBit::Overflow);
    branch(cpu, mode, condition);
}

/// BVS: branches when V is set.
pub fn branch_if_overflow_set(cpu: &mut CPU, mode: &AddressingMode)
    requires
        old(cpu).wf(),
        mode.has_address(),
    ensures
        final(cpu).wf(),
        final(cpu)@ == execute(old(cpu)@, OperationName::BranchIfOverflowSet, *mode),
{
    let condition = flag_is_set(cpu, StatusBit::Overflow);
    branch(cpu, mode, condition);
}

/// JMP: continues at the operand address.
pub fn jump(cpu: &mut CPU, mode: &AddressingMode)
    requires
        old(cpu).wf(),
        mode.has_address(),
    ensures
        final(cpu).wf(),
        final(cpu)@ == execute(old(cpu)@, OperationName::Jump, *mode),
{
    let address = get_operand_address(cpu, mode);
    cpu.program_counter = address;
}

/// JSR: pushes the address of the instruction's last byte (high byte first), then jumps.
pub fn jump_to_subroutine(cpu: &mut CPU, mode: &AddressingMode)
    requires
        old(cpu).wf(),
        mode.has_address(),
    ensures
        final(cpu).wf(),
        final(cpu)@ == execute(old(cpu)@, OperationName::JumpToSubroutine, *mode),
{
    let address = get_operand_address(cpu, mode);
    let return_address: u16 = cpu.program_counter.wrapping_add(1);
    push_byte(cpu, (return_address / 256) as u8);
    push_byte(cpu, (return_address % 256) as u8);
    cpu.program_counter = address;
}

/// RTS: pulls the return address (low byte first) and continues one past it.
pub fn return_from_subroutine(cpu: &mut CPU, mode: &AddressingMode)
    requires
        old(cpu).wf(),
    ensures
        final(cpu).wf(),
        final(cpu)@ == execute(old(cpu)@, OperationName::ReturnFromSubroutine, *mode),
{
    let lo = pull_byte(cpu);
    let hi = pull_byte(cpu);
    cpu.program_counter = (hi as u16 * 256 + lo as u16).wrapping_add(1);
}

/// RTI: pulls the status byte, then the program counter (low byte first).
pub fn return_from_interrupt(cpu: &mut CPU, mode: &AddressingMode)
    requires
        old(cpu).wf(),
    ensures
        final(cpu).wf(),
        final(cpu)@ == execute(old(cpu)@, OperationName::ReturnFromInterrupt, *mode),
{
    let status = pull_byte(cpu);
    let lo = pull_byte(cpu);
    let hi = pull_byte(cpu);
    cpu.program_counter = hi as u16 * 256 + lo as u16;
    cpu.status = status;
}

/// PHA: pushes A.
pub fn push_accumulator(cpu: &mut CPU, mode: &AddressingMode)
    requires
        old(cpu).wf(),
    ensures
        final(cpu).wf(),
        final(cpu)@ == execute(old(cpu)@, OperationName::PushAccumulator, *mode),
{
    push_byte(cpu, cpu.register_a);
}

/// PHP: pushes the status byte.
pub fn push_processor_status(cpu: &mut CPU, mode: &AddressingMode)
    requires
        old(cpu).wf(),
    ensures
        final(cpu).wf(),
        final(cpu)@ == execute(old(cpu)@, OperationName::PushProcessorStatus, *mode),
{
    push_byte(cpu, cpu.status);
}

/// PLA: pulls A; Z, N from the value.
pub fn pull_accumulator(cpu: &mut CPU, mode: &AddressingMode)
    requires
        old(cpu).wf(),
    ensures
        final(cpu).wf(),
        final(cpu)@ == execute(old(cpu)@, OperationName::PullAccumulator, *mode),
{
    let value = pull_byte(cpu);
    cpu.register_a = value;
    update_zero_and_negative_flags(cpu, value);
}

/// PLP: pulls the status byte.
pub fn pull_processor_status(cpu: &mut CPU, mode: &AddressingMode)
    requires
        old(cpu).wf(),
    ensures
        final(cpu).wf(),
        final(cpu)@ == execute(old(cpu)@, OperationName::PullProcessorStatus, *mode),
{
    let value = pull_byte(cpu);
    cpu.status = value;
}

/// CLC: clears C.
pub fn clear_carry_flag(cpu: &mut CPU, mode: &AddressingMode)
    requires
        old(cpu).wf(),
    ensures
        final(cpu).wf(),
        final(cpu)@ == execute(old(cpu)@, OperationName::ClearCarryFlag, *mode),
{
    update_status_bit(cpu, StatusBit::Carry, BitwiseOperation::UnsetBit);
}

/// CLD: clears D.
pub fn clear_decimal_mode(cpu: &mut CPU, mode: &AddressingMode)
    requires
        old(cpu).wf(),
    ensures
        final(cpu).wf(),
        final(cpu)@ == execute(old(cpu)@, OperationName::ClearDecimalMode, *mode),
{
    update_status_bit(cpu, StatusBit::Decimal, BitwiseOperation::UnsetBit);
}

/// CLI: clears I.
pub fn clear_interrupt_disable(cpu: &mut CPU, mode: &AddressingMode)
    requires
        old(cpu).wf(),
    ensures
        final(cpu).wf(),
        final(cpu)@ == execute(old(cpu)@, OperationName::ClearInterruptDisable, *mode),
{
    update_status_bit(cpu, StatusBit::Interrupt, BitwiseOperation::UnsetBit);
}

/// CLV: clears V.
pub fn clear_overflow_flag(cpu: &mut CPU, mode: &AddressingMode)
    requires
        old(cpu).wf(),
    ensures
        final(cpu).wf(),
        final(cpu)@ == execute(old(cpu)@, OperationName::ClearOverflowFlag, *mode),
{
    update_status_bit(cpu, StatusBit::Overflow, BitwiseOperation::UnsetBit);
}

/// SEC: sets C.
pub fn set_carry_flag(cpu: &mut CPU, mode: &AddressingMode)
    requires
        old(cpu).wf(),
    ensures
        final(cpu).wf(),
        final(cpu)@ == execute(old(cpu)@, OperationName::SetCarryFlag, *mode),
{
    update_status_bit(cpu, StatusBit::Carry, BitwiseOperation::SetBit);
}

/// SED: sets D (decimal arithmetic is not honoured).
pub fn set_decimal_flag(cpu: &mut CPU, mode: &AddressingMode)
    requires
        old(cpu).wf(),
    ensures
        final(cpu).wf(),
        final(cpu)@ == execute(old(cpu)@, OperationName::SetDecimalFlag, *mode),
{
    update_status_bit(cpu, StatusBit::Decimal, BitwiseOperation::SetBit);
}

/// SEI: sets I.
pub fn set_interrupt_disable(cpu: &mut CPU, mode: &AddressingMode)
    requires
        old(cpu).wf(),
    ensures
        final(cpu).wf(),
        final(cpu)@ == execute(old(cpu)@, OperationName::SetInterruptDisable, *mode),
{
    update_status_bit(cpu, StatusBit::Interrupt, BitwiseOperation::SetBit);
}

/// BRK: does nothing here; the dispatch loop stops on it.
pub fn force_interruptions(cpu: &mut CPU, mode: &AddressingMode)
    requires
        old(cpu).wf(),
    ensures
        final(cpu).wf(),
        final(cpu)@ == execute(old(cpu)@, OperationName::ForceInterrupt, *mode),
{
}

/// NOP: does nothing.
pub fn no_operation(cpu: &mut CPU, mode: &AddressingMode)
    requires
        old(cpu).wf(),
    ensures
        final(cpu).wf(),
        final(cpu)@ == execute(old(cpu)@, OperationName::NoOperation, *mode),
{
}

/// Runs the handler of `name` in `mode`.
pub fn execute_instruction(cpu: &mut CPU, name: OperationName, mode: &AddressingMode)
    requires
        old(cpu).wf(),
        mode_fits(name, *mode),
    ensures
        final(cpu).wf(),
        final(cpu)@ == execute(old(cpu)@, name, *mode),
{
    match name {
        OperationName::LoadAccumulator
        | OperationName::LoadXRegister
        | OperationName::LoadYRegister
        | OperationName::StoreAccumulator
        | OperationName::StoreXRegister
        | OperationName::StoreYRegister
        | OperationName::TransferAccumulatorToX
        | OperationName::TransferAccumulatorToY
        | OperationName::TransferXToAccumulator
        | OperationName::TransferYToAccumulator
        | OperationName::TransferStackPointerToX
        | OperationName::TransferXToStackPointer => execute_load_store(cpu, name, mode),
        OperationName::AddWithCarry
        | OperationName::SubstractWithCarry
        | OperationName::LogicalAND
        | OperationName::LogicalInclusiveOR
        | OperationName::ExclusiveOR
        | OperationName::BitTest
        | OperationName::Compare
        | OperationName::CompareX
        | OperationName::CompareY
        | OperationName::IncrementMemory
        | OperationName::DecrementMemory
        | OperationName::IncrementXRegister
        | OperationName::IncrementYRegister
        | OperationName::DecrementXRegister
        | OperationName::DecrementYRegister => execute_arithmetic_logic(cpu, name, mode),
        OperationName::ArithmeticShiftLeft
        | OperationName::LogicalShiftRight
        | OperationName::RotateLeft
        | OperationName::RotateRight => execute_shift(cpu, name, mode),
        OperationName::BranchIfCarryClear
        | OperationName::BranchIfCarrySet
        | OperationName::BranchIfEqual
        | OperationName::BranchIfMinus
        | OperationName::BranchIfNotEqual
        | OperationName::BranchIfPositive
        | OperationName::BranchIfOverflowClear
        | OperationName::BranchIfOverflowSet
        | OperationName::Jump
        | OperationName::JumpToSubroutine
        | OperationName::ReturnFromSubroutine
        | OperationName::ReturnFromInterrupt => execute_control(cpu, name, mode),
        OperationName::PushAccumulator
        | OperationName::PushProcessorStatus
        | OperationName::PullAccumulator
        | OperationName::PullProcessorStatus
        | OperationName::ClearCarryFlag
        | OperationName::ClearDecimalMode
        | OperationName::ClearInterruptDisable
        | OperationName::ClearOverflowFlag
        | OperationName::SetCarryFlag
        | OperationName::SetDecimalFlag
        | OperationName::SetInterruptDisable
        | OperationName::ForceInterrupt
        | OperationName::NoOperation => execute_stack_flags(cpu, name, mode),
    }
}

/// Runs the handler of `name` in `mode`, for loads, stores and register transfers.
fn execute_load_store(cpu: &mut CPU, name: OperationName, mode: &AddressingMode)
    requires
        old(cpu).wf(),
        mode_fits(name, *mode),
        matches!(name, OperationName::LoadAccumulator
            | OperationName::LoadXRegister
            | OperationName::LoadYRegister
            | OperationName::StoreAccumulator
            | OperationName::StoreXRegister
            | OperationName::StoreYRegister
            | OperationName::TransferAccumulatorToX
            | OperationName::TransferAccumulatorToY
            | OperationName::TransferXToAccumulator
            | OperationName::TransferYToAccumulator
            | OperationName::TransferStackPointerToX
            | OperationName::TransferXToStackPointer),
    ensures
        final(cpu).wf(),
        final(cpu)@ == execute(old(cpu)@, name, *mode),
{
    match name {
        OperationName::LoadAccumulator => load_accumulator(cpu, mode),
        OperationName::LoadXRegister => load_x_register(cpu, mode),
        OperationName::LoadYRegister => load_y_register(cpu, mode),
        OperationName::StoreAccumulator => store_accumulator(cpu, mode),
        OperationName::StoreXRegister => store_x_register(cpu, mode),
        OperationName::StoreYRegister => store_y_register(cpu, mode),
        OperationName::TransferAccumulatorToX => transfer_accumulator_to_x(cpu, mode),
        OperationName::TransferAccumulatorToY => transfer_accumulator_to_y(cpu, mode),
        OperationName::TransferXToAccumulator => transfer_x_to_accumulator(cpu, mode),
        OperationName::TransferYToAccumulator => transfer_y_to_accumulator(cpu, mode),
        OperationName::TransferStackPointerToX => transfer_stack_pointer_to_x(cpu, mode),
        OperationName::TransferXToStackPointer => transfer_x_to_stack_pointer(cpu, mode),
        // Other mnemonics are excluded by the precondition.
        _ => {},
    }
}

/// Runs the handler of `name` in `mode`, for arithmetic, logic, compares, increments and decrements.
fn execute_arithmetic_logic(cpu: &mut CPU, name: OperationName, mode: &AddressingMode)
    requires
        old(cpu).wf(),
        mode_fits(name, *mode),
        matches!(name, OperationName::AddWithCarry
            | OperationName::SubstractWithCarry
            | OperationName::LogicalAND
            | OperationName::LogicalInclusiveOR
            | OperationName::ExclusiveOR
            | OperationName::BitTest
            | OperationName::Compare
            | OperationName::CompareX
            | OperationName::CompareY
            | OperationName::IncrementMemory
            | OperationName::DecrementMemory
            | OperationName::IncrementXRegister
            | OperationName::IncrementYRegister
            | OperationName::DecrementXRegister
            | OperationName::DecrementYRegister),
    ensures
        final(cpu).wf(),
        final(cpu)@ == execute(old(cpu)@, name, *mode),
{
    match name {
        OperationName::AddWithCarry => add_with_carry(cpu, mode),
        OperationName::SubstractWithCarry => substract_with_carry(cpu, mode),
        OperationName::LogicalAND => logical_and(cpu, mode),
        OperationName::LogicalInclusiveOR => logical_inclusive_or(cpu, mode),
        OperationName::ExclusiveOR => exclusive_or(cpu, mode),
        OperationName::BitTest => bit_test(cpu, mode),
        OperationName::Compare => compare_a(cpu, mode),
        OperationName::CompareX => compare_x(cpu, mode),
        OperationName::CompareY => compare_y(cpu, mode),
        OperationName::IncrementMemory => increment_memory(cpu, mode),
        OperationName::DecrementMemory => decrement_memory(cpu, mode),
        OperationName::IncrementXRegister => increment_x_register(cpu, mode),
        OperationName::IncrementYRegister => increment_y_register(cpu, mode),
        OperationName::DecrementXRegister => decrement_x_register(cpu, mode),
        OperationName::DecrementYRegister => decrement_y_register(cpu, mode),
        // Other mnemonics are excluded by the precondition.
        _ => {},
    }
}

/// Runs the handler of `name` in `mode`, for shifts and rotates.
fn execute_shift(cpu: &mut CPU, name: OperationName, mode: &AddressingMode)
    requires
        old(cpu).wf(),
        mode_fits(name, *mode),
        matches!(name, OperationName::ArithmeticShiftLeft
            | OperationName::LogicalShiftRight
            | OperationName::RotateLeft
            | OperationName::RotateRight),
    ensures
        final(cpu).wf(),
        final(cpu)@ == execute(old(cpu)@, name, *mode),
{
    match name {
        OperationName::ArithmeticShiftLeft => arithmetic_shift_left(cpu, mode),
        OperationName::LogicalShiftRight => logical_shift_right(cpu, mode),
        OperationName::RotateLeft => rotate_left(cpu, mode),
        OperationName::RotateRight => rotate_right(cpu, mode),
        // Other mnemonics are excluded by the precondition.
        _ => {},
    }
}

/// Runs the handler of `name` in `mode`, for branches, jumps and returns.
fn execute_control(cpu: &mut CPU, name: OperationName, mode: &AddressingMode)
    requires
        old(cpu).wf(),
        mode_fits(name, *mode),
        matches!(name, OperationName::BranchIfCarryClear
            | OperationName::BranchIfCarrySet
            | OperationName::BranchIfEqual
            | OperationName::BranchIfMinus
            | OperationName::BranchIfNotEqual
            | OperationName::BranchIfPositive
            | OperationName::BranchIfOverflowClear
            | OperationName::BranchIfOverflowSet
            | OperationName::Jump
            | OperationName::JumpToSubroutine
            | OperationName::ReturnFromSubroutine
            | OperationName::ReturnFromInterrupt),
    ensures
        final(cpu).wf(),
        final(cpu)@ == execute(old(cpu)@, name, *mode),
{
    match name {
        OperationName::BranchIfCarryClear => branch_if_carry_clear(cpu, mode),
        OperationName::BranchIfCarrySet => branch_if_carry_set(cpu, mode),
        OperationName::BranchIfEqual => branch_if_equal(cpu, mode),
        OperationName::BranchIfMinus => branch_if_minus(cpu, mode),
        OperationName::BranchIfNotEqual => branch_if_not_equal(cpu, mode),
        OperationName::BranchIfPositive => branch_if_positive(cpu, mode),
        OperationName::BranchIfOverflowClear => branch_if_overflow_clear(cpu, mode),
        OperationName::BranchIfOverflowSet => branch_if_overflow_set(cpu, mode),
        OperationName::Jump => jump(cpu, mode),
        OperationName::JumpToSubroutine => jump_to_subroutine(cpu, mode),
        OperationName::ReturnFromSubroutine => return_from_subroutine(cpu, mode),
        OperationName::ReturnFromInterrupt => return_from_interrupt(cpu, mode),
        // Other mnemonics are excluded by the precondition.
        _ => {},
    }
}

/// Runs the handler of `name` in `mode`, for stack and status-flag operations, BRK and NOP.
fn execute_stack_flags(cpu: &mut CPU, name: OperationName, mode: &AddressingMode)
    requires
        old(cpu).wf(),
        mode_fits(name, *mode),
        matches!(name, OperationName::PushAccumulator
            | OperationName::PushProcessorStatus
            | OperationName::PullAccumulator
            | OperationName::PullProcessorStatus
            | OperationName::ClearCarryFlag
            | OperationName::ClearDecimalMode
            | OperationName::ClearInterruptDisable
            | OperationName::ClearOverflowFlag
            | OperationName::SetCarryFlag
            | OperationName::SetDecimalFlag
            | OperationName::SetInterruptDisable
            | OperationName::ForceInterrupt
            | OperationName::NoOperation),
    ensures
        final(cpu).wf(),
        final(cpu)@ == execute(old(cpu)@, name, *mode),
{
    match name {
        OperationName::PushAccumulator => push_accumulator(cpu, mode),
        OperationName::PushProcessorStatus => push_processor_status(cpu, mode),
        OperationName::PullAccumulator => pull_accumulator(cpu, mode),
        OperationName::PullProcessorStatus => pull_processor_status(cpu, mode),
        OperationName::ClearCarryFlag => clear_carry_flag(cpu, mode),
        OperationName::ClearDecimalMode => clear_decimal_mode(cpu, mode),
        OperationName::ClearInterruptDisable => clear_interrupt_disable(cpu, mode),
        OperationName::ClearOverflowFlag => clear_overflow_flag(cpu, mode),
        OperationName::SetCarryFlag => set_carry_flag(cpu, mode),
        OperationName::SetDecimalFlag => set_decimal_flag(cpu, mode),
        OperationName::SetInterruptDisable => set_interrupt_disable(cpu, mode),
        OperationName::ForceInterrupt => force_interruptions(cpu, mode),
        OperationName::NoOperation => no_operation(cpu, mode),
        // Other mnemonics are excluded by the precondition.
        _ => {},
    }
}

} // verus!
