//! Laws that hold of the instruction semantics for every state.
use crate::addressing_mode::AddressingMode;
use crate::cpu_model::CpuState;
use crate::operation_codes::OperationName;
use crate::semantics::{
    add_value, execute, mode_fits, operand, operand_address, set_flag, shift_operand,
};
use crate::status_bit::{flag, lemma_with_bit, with_flag, with_zero_negative, StatusBit};
use vstd::prelude::*;

verus! {

/// The 8-bit result that `name` writes into A, X or Y, read from the state
/// `after` the instruction, if it writes one.
pub open spec fn register_result(name: OperationName, mode: AddressingMode, after: CpuState) -> Option<u8> {
    match name {
        OperationName::LoadAccumulator | OperationName::TransferXToAccumulator
        | OperationName::TransferYToAccumulator | OperationName::AddWithCarry
        | OperationName::SubstractWithCarry | OperationName::LogicalAND
        | OperationName::LogicalInclusiveOR | OperationName::ExclusiveOR
        | OperationName::PullAccumulator => Some(after.a),
        OperationName::ArithmeticShiftLeft | OperationName::LogicalShiftRight
        | OperationName::RotateLeft | OperationName::RotateRight => if mode is Accumulator {
            Some(after.a)
        } else {
            None
        },
        OperationName::LoadXRegister | OperationName::TransferAccumulatorToX
        | OperationName::TransferStackPointerToX | OperationName::IncrementXRegister
        | OperationName::DecrementXRegister => Some(after.x),
        OperationName::LoadYRegister | OperationName::TransferAccumulatorToY
        | OperationName::IncrementYRegister | OperationName::DecrementYRegister => Some(after.y),
        _ => None,
    }
}

/// Z and N as `with_zero_negative` leaves them, also once C is set on top.
proof fn lemma_zero_negative_flags()
    ensures
        forall|p: u8, r: u8|
            flag(#[trigger] with_zero_negative(p, r), StatusBit::Zero) == (r == 0)
                && flag(with_zero_negative(p, r), StatusBit::Negative) == (r >= 0x80),
        forall|p: u8, r: u8, c: bool|
            flag(#[trigger] with_flag(with_zero_negative(p, r), StatusBit::Carry, c), StatusBit::Zero) == (r == 0)
                && flag(with_flag(with_zero_negative(p, r), StatusBit::Carry, c), StatusBit::Negative) == (r >= 0x80),
{
    assert forall|p: u8, r: u8|
        flag(#[trigger] with_zero_negative(p, r), StatusBit::Zero) == (r == 0)
            && flag(with_zero_negative(p, r), StatusBit::Negative) == (r >= 0x80) by {
        lemma_with_bit(p, 1, r == 0);
        lemma_with_bit(with_flag(p, StatusBit::Zero, r == 0), 7, r >= 0x80);
    }
    assert forall|p: u8, r: u8, c: bool|
        flag(#[trigger] with_flag(with_zero_negative(p, r), StatusBit::Carry, c), StatusBit::Zero) == (r == 0)
            && flag(with_flag(with_zero_negative(p, r), StatusBit::Carry, c), StatusBit::Negative) == (r >= 0x80) by {
        lemma_with_bit(p, 1, r == 0);
        lemma_with_bit(with_flag(p, StatusBit::Zero, r == 0), 7, r >= 0x80);
        lemma_with_bit(with_zero_negative(p, r), 0, c);
    }
}

/// Every 8-bit result that a load, transfer, arithmetic, logical, shift,
/// rotate, pull, increment or decrement writes into A, X or Y leaves Z set iff
/// the result is zero and N set iff the result is at least 0x80.
#[verifier::spinoff_prover]
#[verifier::rlimit(100)]
pub proof fn lemma_zero_negative_follow_result(s: CpuState, name: OperationName, mode: AddressingMode)
    requires
        s.wf(),
        mode_fits(name, mode),
    ensures
        register_result(name, mode, execute(s, name, mode)) matches Some(r) ==> {
            &&& flag(execute(s, name, mode).p, StatusBit::Zero) == (r == 0)
            &&& flag(execute(s, name, mode).p, StatusBit::Negative) == (r >= 0x80)
        },
{
    lemma_zero_negative_flags();
}

/// Pushing A and pulling it straight back restores A and the stack pointer;
/// likewise for the status byte.
pub proof fn lemma_push_then_pull(s: CpuState, push_mode: AddressingMode, pull_mode: AddressingMode)
    requires
        s.wf(),
    ensures
        ({
            let pulled = execute(execute(s, OperationName::PushAccumulator, push_mode), OperationName::PullAccumulator, pull_mode);
            pulled.a == s.a && pulled.s == s.s
        }),
        ({
            let pulled = execute(
                execute(s, OperationName::PushProcessorStatus, push_mode),
                OperationName::PullProcessorStatus,
                pull_mode,
            );
            pulled.p == s.p && pulled.s == s.s
        }),
{
}

/// An instruction that only reads memory (LDA, LDX, LDY, AND, EOR, ORA, BIT,
/// CMP, CPX, CPY) leaves every memory cell as it was, in every addressing mode.
pub proof fn lemma_reads_keep_memory(s: CpuState, name: OperationName, mode: AddressingMode)
    requires
        s.wf(),
        matches!(name, OperationName::LoadAccumulator | OperationName::LoadXRegister
            | OperationName::LoadYRegister | OperationName::LogicalAND | OperationName::ExclusiveOR
            | OperationName::LogicalInclusiveOR | OperationName::BitTest | OperationName::Compare
            | OperationName::CompareX | OperationName::CompareY),
    ensures
        execute(s, name, mode).mem == s.mem,
{
}

/// TXS changes neither Z nor N (nor any other status bit).
pub proof fn lemma_txs_keeps_flags(s: CpuState, mode: AddressingMode)
    ensures
        execute(s, OperationName::TransferXToStackPointer, mode).p == s.p,
        flag(execute(s, OperationName::TransferXToStackPointer, mode).p, StatusBit::Zero) == flag(s.p, StatusBit::Zero),
        flag(execute(s, OperationName::TransferXToStackPointer, mode).p, StatusBit::Negative) == flag(s.p, StatusBit::Negative),
{
}

/// ROL followed by ROR on the same cell (or on A) restores the byte, the rest
/// of memory, A and the carry. The cell is the same when ROL did not rewrite
/// the bytes that its address is computed from.
#[verifier::spinoff_prover]
#[verifier::rlimit(100)]
pub proof fn lemma_rotate_left_then_right(s: CpuState, mode: AddressingMode)
    requires
        s.wf(),
        mode.has_address() || mode is Accumulator,
        operand_address(execute(s, OperationName::RotateLeft, mode), mode) == operand_address(s, mode),
    ensures
        ({
            let back = execute(execute(s, OperationName::RotateLeft, mode), OperationName::RotateRight, mode);
            &&& back.a == s.a
            &&& back.mem == s.mem
            &&& shift_operand(back, mode) == shift_operand(s, mode)
            &&& flag(back.p, StatusBit::Carry) == flag(s.p, StatusBit::Carry)
        }),
{
    let v = shift_operand(s, mode);
    let c: int = if flag(s.p, StatusBit::Carry) { 1 } else { 0 };
    let r = ((v as int * 2 + c) % 256) as u8;
    let left = execute(s, OperationName::RotateLeft, mode);
    lemma_with_bit(with_zero_negative(left.p, r), 0, v >= 0x80);
    lemma_with_bit(with_zero_negative(s.p, r), 0, v >= 0x80);
    assert(r as int / 2 + 128 * (if v >= 0x80 { 1int } else { 0 }) == v as int);
    assert((r % 2 == 1) == (c == 1));
    let back = execute(left, OperationName::RotateRight, mode);
    lemma_with_bit(with_zero_negative(back.p, v), 0, c == 1);
    let w = (r as int / 2 + 128 * (if v >= 0x80 { 1int } else { 0 })) as u8;
    lemma_with_bit(with_zero_negative(left.p, w), 0, r % 2 == 1);
    if !(mode is Accumulator) {
        assert(back.mem =~= s.mem);
    }
}

/// The operand address depends only on the program counter, X, Y and memory.
proof fn lemma_operand_address_frame(s: CpuState, t: CpuState, mode: AddressingMode)
    requires
        s.pc == t.pc,
        s.x == t.x,
        s.y == t.y,
        s.mem == t.mem,
    ensures
        operand_address(s, mode) == operand_address(t, mode),
{
}

/// With C set, ADC of an operand, then CLC, then SBC of the same operand
/// gives A back.
#[verifier::spinoff_prover]
#[verifier::rlimit(100)]
pub proof fn lemma_add_then_subtract(s: CpuState, mode: AddressingMode, clear_mode: AddressingMode)
    requires
        s.wf(),
        mode.has_address(),
        flag(s.p, StatusBit::Carry),
    ensures
        execute(
            execute(execute(s, OperationName::AddWithCarry, mode), OperationName::ClearCarryFlag, clear_mode),
            OperationName::SubstractWithCarry,
            mode,
        ).a == s.a,
{
    let m = operand(s, mode);
    let added = execute(s, OperationName::AddWithCarry, mode);
    let cleared = execute(added, OperationName::ClearCarryFlag, clear_mode);
    let back = execute(cleared, OperationName::SubstractWithCarry, mode);
    assert(added == add_value(s, m)) by {
        }
    assert(cleared == set_flag(added, StatusBit::Carry, false)) by {
        }
    assert(back == add_value(cleared, !operand(cleared, mode))) by {
        }
    lemma_operand_address_frame(s, cleared, mode);
    lemma_with_bit(added.p, 0, false);
    assert(!m == 255 - m) by (bit_vector);
    let a1 = (s.a as int + m as int + 1) % 256;
    assert(added.a as int == a1);
    assert((a1 + (255 - m as int)) % 256 == s.a as int);
}

} // verus!
