use mos6502::addressing_mode::AddressingMode;
use mos6502::bitwise_operation::BitwiseOperation;
use mos6502::cpu_functions::{
    add_with_carry, arithmetic_shift_left, bit_test, branch_if_carry_clear, branch_if_carry_set,
    branch_if_equal, branch_if_minus, branch_if_not_equal, branch_if_overflow_clear,
    branch_if_overflow_set, branch_if_positive, clear_carry_flag, compare, decrement_memory,
    decrement_x_register, decrement_y_register, exclusive_or, get_operand_address,
    increment_memory, increment_x_register, increment_y_register, jump, jump_to_subroutine,
    load_accumulator, load_x_register, load_y_register, logical_and, logical_inclusive_or,
    logical_shift_right, return_from_interrupt, return_from_subroutine, rotate_left, rotate_right,
    store_accumulator, store_x_register, store_y_register, substract_with_carry,
    transfer_accumulator_to_x, transfer_accumulator_to_y, transfer_stack_pointer_to_x,
    transfer_x_to_accumulator, transfer_x_to_stack_pointer, transfer_y_to_accumulator,
    update_status_bit,
};
use mos6502::cpu_model::{CPU, STACK_RESET};
use mos6502::memory::Memory;
use mos6502::status_bit::StatusBit;

// Helper function to create a new CPU instance
const TEST_BASE_REGISTER_A: u8 = 0x05;
const TEST_BASE_REGISTER_X: u8 = 0x0A;
const TEST_BASE_REGISTER_Y: u8 = 0x0F;
const TEST_BASE_PROGRAM_COUNTER: u16 = 0x2000;
const TEST_BASE_STATUS: u8 = 0x00;
const SAFE_MEMORY_ADDRESS: u16 = 0x0200;
fn create_test_cpu() -> CPU {
    CPU {
        register_a: TEST_BASE_REGISTER_A,
        register_x: TEST_BASE_REGISTER_X,
        register_y: TEST_BASE_REGISTER_Y,
        status: TEST_BASE_STATUS,
        program_counter: TEST_BASE_PROGRAM_COUNTER,
        stack_pointer: STACK_RESET,
        memory: Memory::new(),
    }
}
fn get_bit(current_byte: u8, status_bit: StatusBit) -> u8 {
    (current_byte >> status_bit.position()) & 1
}
#[test]
fn test_immediate() {
    let mut cpu: CPU = create_test_cpu();

    let mode: AddressingMode = AddressingMode::Immediate;

    assert_eq!(
        get_operand_address(&mut cpu, &mode),
        cpu.program_counter
    );
}

#[test]
fn test_zero_page() {
    let mut cpu: CPU = create_test_cpu();

    let data: u16 = 0x80;
    cpu.memory.write_u16(cpu.program_counter, data);
    let mode: AddressingMode = AddressingMode::ZeroPage;

    assert_eq!(get_operand_address(&mut cpu, &mode), data);
}

#[test]
fn test_zero_page_x() {
    let mut cpu: CPU = create_test_cpu();

    let data: u16 = 0x80;
    cpu.memory.write_u16(cpu.program_counter, data);
    let mode: AddressingMode = AddressingMode::ZeroPage_X;

    assert_eq!(
        get_operand_address(&mut cpu, &mode),
        data + cpu.register_x as u16
    );
}

#[test]
fn test_zero_page_y() {
    let mut cpu: CPU = create_test_cpu();

    let data: u16 = 0x80;
    cpu.memory.write_u16(cpu.program_counter, data);

    let mode = AddressingMode::ZeroPage_Y;
    assert_eq!(
        get_operand_address(&mut cpu, &mode),
        data + cpu.register_y as u16
    );
}

#[test]
fn test_get_operand_address_relative_positive() {
    let mut cpu: CPU = create_test_cpu();
    cpu.program_counter = 0x2000;
    cpu.memory.memory[cpu.program_counter as usize] = 0x05;
    let mode: AddressingMode = AddressingMode::Relative;
    assert_eq!(get_operand_address(&mut cpu, &mode), 0x2006);
}

#[test]
fn test_get_operand_address_relative_negative() {
    let mut cpu: CPU = create_test_cpu();
    cpu.program_counter = 0x2000;
    cpu.memory.memory[cpu.program_counter as usize] = 0xFB;
    let mode: AddressingMode = AddressingMode::Relative;
    assert_eq!(get_operand_address(&mut cpu, &mode), 0x1FFC);
}

#[test]
fn test_get_operand_address_absolute() {
    let mut cpu: CPU = create_test_cpu();

    let data: u16 = 0xC000;
    cpu.memory.write_u16(cpu.program_counter, data);
    let mode = AddressingMode::Absolute;

    assert_eq!(get_operand_address(&mut cpu, &mode), data);
}

#[test]
fn test_get_operand_address_absolute_x() {
    let mut cpu: CPU = create_test_cpu();

    let data = 0xC000;
    cpu.memory.write_u16(cpu.program_counter, data);
    let mode = AddressingMode::Absolute_X;

    assert_eq!(
        get_operand_address(&mut cpu, &mode),
        data + cpu.register_x as u16
    );
}

#[test]
fn test_get_operand_address_absolute_y() {
    let mut cpu: CPU = create_test_cpu();

    let data = 0xC000;
    cpu.memory.write_u16(cpu.program_counter, data);
    let mode = AddressingMode::Absolute_Y;

    assert_eq!(
        get_operand_address(&mut cpu, &mode),
        data + cpu.register_y as u16
    );
}

#[test]
fn test_get_operand_address_indirect_x() {
    let mut cpu: CPU = create_test_cpu();

    let base: u8 = 0x20;
    let ptr: u8 = base.wrapping_add(cpu.register_x);
    cpu.memory.memory[cpu.program_counter as usize] = base;
    cpu.memory.memory[ptr as usize] = 0x34;
    cpu.memory.memory[ptr.wrapping_add(1) as usize] = 0x12;

    let mode = AddressingMode::Indirect_X;
    assert_eq!(get_operand_address(&mut cpu, &mode), 0x1234);
}

#[test]
fn test_get_operand_address_indirect_y() {
    let mut cpu: CPU = create_test_cpu();

    let base: u8 = 0x40;
    cpu.memory.memory[cpu.program_counter as usize] = base;
    cpu.memory.memory[base as usize] = 0x78;
    cpu.memory.memory[base.wrapping_add(1) as usize] = 0x56;

    let mode = AddressingMode::Indirect_Y;
    assert_eq!(
        get_operand_address(&mut cpu, &mode),
        0x5678 + cpu.register_y as u16
    );
}


// Tests for the functions themselves

#[test]
fn test_increment_memory() {
    let mut cpu: CPU = create_test_cpu();
    let mode: AddressingMode = AddressingMode::Immediate;
    const AMOUNT: u8 = 20;
    for _ in 0..AMOUNT {
        increment_memory(&mut cpu, &mode);
    }
    // INC acts on the operand's memory cell (here the immediate byte), not on A.
    assert_eq!(
        cpu.memory.memory[TEST_BASE_PROGRAM_COUNTER as usize],
        0u8.wrapping_add(AMOUNT)
    );
    assert_eq!(cpu.register_a, TEST_BASE_REGISTER_A);
}

#[test]
fn test_increment_x_register() {
    let mut cpu: CPU = create_test_cpu();
    let mode: AddressingMode = AddressingMode::Immediate;
    const AMOUNT: u8 = 20;
    for _ in 0..AMOUNT {
        increment_x_register(&mut cpu, &mode);
    }
    assert_eq!(cpu.register_x, TEST_BASE_REGISTER_X.wrapping_add(AMOUNT));
}

#[test]
fn test_increment_y_register() {
    let mut cpu: CPU = create_test_cpu();
    let mode: AddressingMode = AddressingMode::Immediate;
    const AMOUNT: u8 = 20;
    for _ in 0..AMOUNT {
        increment_y_register(&mut cpu, &mode);
    }
    assert_eq!(cpu.register_y, TEST_BASE_REGISTER_Y.wrapping_add(AMOUNT));
}

#[test]
fn test_jump_absolute_normal() {
    let mut cpu = CPU::new();
    cpu.program_counter = 0x1000;
    cpu.memory.memory[0x1000] = 0x34;
    cpu.memory.memory[0x1001] = 0x12;

    jump(&mut cpu, &AddressingMode::Absolute);

    assert_eq!(cpu.program_counter, 0x1234);
}

#[test]
fn test_jump_absolute_max_address() {
    let mut cpu = CPU::new();
    cpu.program_counter = 0x2000;
    cpu.memory.memory[0x2000] = 0xFF;
    cpu.memory.memory[0x2001] = 0xFF;

    jump(&mut cpu, &AddressingMode::Absolute);

    assert_eq!(cpu.program_counter, 0xFFFF);
}

#[test]
fn test_jump_indirect_normal() {
    let mut cpu = CPU::new();
    cpu.program_counter = 0x3000;
    cpu.memory.memory[0x3000] = 0x50;
    cpu.memory.memory[0x3001] = 0x40;
    cpu.memory.memory[0x4050] = 0x78;
    cpu.memory.memory[0x4051] = 0x56;

    jump(&mut cpu, &AddressingMode::Indirect);

    assert_eq!(cpu.program_counter, 0x5678);
}

#[test]
fn test_jump_indirect_page_boundary_bug() {
    let mut cpu = CPU::new();
    cpu.program_counter = 0x4000;
    cpu.memory.memory[0x4000] = 0xFF;
    cpu.memory.memory[0x4001] = 0x01;
    cpu.memory.memory[0x01FF] = 0xCD;
    cpu.memory.memory[0x0200] = 0xAB;
    cpu.memory.memory[0x0100] = 0xEF;

    jump(&mut cpu, &AddressingMode::Indirect);

    assert_eq!(cpu.program_counter, 0xEFCD);
}

#[test]
fn test_jump_to_subroutine_normal() {
    let mut cpu = CPU::new();
    cpu.program_counter = 0x1001;
    cpu.stack_pointer = 0xFF;
    cpu.memory.memory[0x1001] = 0x34;
    cpu.memory.memory[0x1002] = 0x12;

    jump_to_subroutine(&mut cpu, &AddressingMode::Absolute);

    assert_eq!(cpu.program_counter, 0x1234);
    assert_eq!(cpu.stack_pointer, 0xFD);
    assert_eq!(cpu.memory.memory[0x01FF], 0x10);
    assert_eq!(cpu.memory.memory[0x01FE], 0x02);
}

#[test]
fn test_jump_to_subroutine_stack_wrap() {
    let mut cpu = CPU::new();
    cpu.program_counter = 0x2000;
    cpu.stack_pointer = 0x01;
    cpu.memory.memory[0x2000] = 0x56;
    cpu.memory.memory[0x2001] = 0x34;

    jump_to_subroutine(&mut cpu, &AddressingMode::Absolute);

    assert_eq!(cpu.program_counter, 0x3456);
    assert_eq!(cpu.stack_pointer, 0xFF);
    assert_eq!(cpu.memory.memory[0x0101], 0x20);
    assert_eq!(cpu.memory.memory[0x0100], 0x01);
}

#[test]
fn test_jump_to_subroutine_target_zero() {
    let mut cpu = CPU::new();
    cpu.program_counter = 0x3000;
    cpu.stack_pointer = 0xFF;
    cpu.memory.memory[0x3000] = 0x00;
    cpu.memory.memory[0x3001] = 0x00;

    jump_to_subroutine(&mut cpu, &AddressingMode::Absolute);

    assert_eq!(cpu.program_counter, 0x0000);
    assert_eq!(cpu.stack_pointer, 0xFD);
    assert_eq!(cpu.memory.memory[0x01FF], 0x30);
    assert_eq!(cpu.memory.memory[0x01FE], 0x01);
}

#[test]
fn test_jump_to_subroutine_target_max() {
    let mut cpu = CPU::new();
    cpu.program_counter = 0x4000;
    cpu.stack_pointer = 0xFF;
    cpu.memory.memory[0x4000] = 0xFF;
    cpu.memory.memory[0x4001] = 0xFF;

    jump_to_subroutine(&mut cpu, &AddressingMode::Absolute);

    assert_eq!(cpu.program_counter, 0xFFFF);
    assert_eq!(cpu.stack_pointer, 0xFD);
    assert_eq!(cpu.memory.memory[0x01FF], 0x40);
    assert_eq!(cpu.memory.memory[0x01FE], 0x01);
}

#[test]
fn test_decrement_memory() {
    let mut cpu: CPU = create_test_cpu();
    let mode: AddressingMode = AddressingMode::Immediate;
    const AMOUNT: u8 = 20;
    for _ in 0..AMOUNT {
        decrement_memory(&mut cpu, &mode);
    }
    // DEC acts on the operand's memory cell (here the immediate byte), not on A.
    assert_eq!(
        cpu.memory.memory[TEST_BASE_PROGRAM_COUNTER as usize],
        0u8.wrapping_sub(AMOUNT)
    );
    assert_eq!(cpu.register_a, TEST_BASE_REGISTER_A);
}

#[test]
fn test_decrement_x_register() {
    let mut cpu: CPU = create_test_cpu();
    let mode: AddressingMode = AddressingMode::Immediate;
    const AMOUNT: u8 = 20;
    for _ in 0..AMOUNT {
        decrement_x_register(&mut cpu, &mode);
    }
    assert_eq!(cpu.register_x, TEST_BASE_REGISTER_X.wrapping_sub(AMOUNT));
}

#[test]
fn test_decrement_y_register() {
    let mut cpu: CPU = create_test_cpu();
    let mode: AddressingMode = AddressingMode::Immediate;
    const AMOUNT: u8 = 20;
    for _ in 0..AMOUNT {
        decrement_y_register(&mut cpu, &mode);
    }
    assert_eq!(cpu.register_y, TEST_BASE_REGISTER_Y.wrapping_sub(AMOUNT));
}

#[test]
fn test_load_accumulator() {
    let mut cpu: CPU = create_test_cpu();
    cpu.memory
        .write_u16(TEST_BASE_PROGRAM_COUNTER, SAFE_MEMORY_ADDRESS);

    let data_to_load: u8 = 0xff;
    cpu.memory.memory[SAFE_MEMORY_ADDRESS as usize] = data_to_load;

    load_accumulator(&mut cpu, &AddressingMode::Absolute);
    assert_eq!(cpu.register_a, data_to_load);

    load_x_register(&mut cpu, &AddressingMode::Absolute);
    assert_eq!(cpu.register_x, data_to_load);

    load_y_register(&mut cpu, &AddressingMode::Absolute);
    assert_eq!(cpu.register_y, data_to_load);
}

#[test]
fn test_transfer_accumulator_to_x() {
    let mut cpu: CPU = create_test_cpu();
    transfer_accumulator_to_x(&mut cpu, &AddressingMode::NoneAddressing);
    assert_eq!(cpu.register_x, TEST_BASE_REGISTER_A);
}

#[test]
fn test_transfer_accumulator_to_y() {
    let mut cpu: CPU = create_test_cpu();
    transfer_accumulator_to_y(&mut cpu, &AddressingMode::NoneAddressing);
    assert_eq!(cpu.register_y, TEST_BASE_REGISTER_A);
}

#[test]
fn test_transfer_x_to_accumulator() {
    let mut cpu: CPU = create_test_cpu();
    transfer_x_to_accumulator(&mut cpu, &AddressingMode::NoneAddressing);
    assert_eq!(cpu.register_a, TEST_BASE_REGISTER_X);
}

#[test]
fn test_transfer_y_to_accumulator() {
    let mut cpu: CPU = create_test_cpu();
    transfer_y_to_accumulator(&mut cpu, &AddressingMode::NoneAddressing);
    assert_eq!(cpu.register_a, TEST_BASE_REGISTER_Y);
}

#[test]
fn test_transfer_stack_pointer_to_x() {
    let mut cpu: CPU = create_test_cpu();
    transfer_stack_pointer_to_x(&mut cpu, &AddressingMode::NoneAddressing);
    assert_eq!(cpu.register_x, STACK_RESET);
}

#[test]
fn test_transfer_x_to_stack_pointer() {
    let mut cpu: CPU = create_test_cpu();
    transfer_x_to_stack_pointer(&mut cpu, &AddressingMode::NoneAddressing);
    assert_eq!(cpu.stack_pointer, TEST_BASE_REGISTER_X);
}

#[test]
fn test_return_from_subroutine() {
    let mut cpu = CPU::new();

    let return_addr = 0xABCD;
    cpu.stack_pointer = 0xFD;
    cpu.memory.memory[0x01FE] = ((return_addr - 1) & 0xFF) as u8;
    cpu.memory.memory[0x01FF] = ((return_addr - 1) >> 8) as u8;

    return_from_subroutine(&mut cpu, &AddressingMode::Implied);

    assert_eq!(
        cpu.program_counter, return_addr,
        "RTS should set PC to return address"
    );
    assert_eq!(
        cpu.stack_pointer, 0xFF,
        "RTS should increment SP by 2 from initial value"
    );
}

#[test]
fn test_return_from_interrupt() {
    let mut cpu = CPU::new();

    cpu.stack_pointer = 0xFC;
    cpu.memory.memory[0x01FD] = 0x55;
    cpu.memory.memory[0x01FE] = 0xCD;
    cpu.memory.memory[0x01FF] = 0xAB;

    return_from_interrupt(&mut cpu, &AddressingMode::Implied);

    assert_eq!(
        cpu.program_counter, 0xABCD,
        "RTI should set PC to popped address"
    );
    assert_eq!(cpu.status, 0x55, "RTI should restore status register");
    assert_eq!(
        cpu.stack_pointer, 0xFF,
        "RTI should increment SP by 3 from initial value"
    );
}

#[test]
fn test_store_accumulator() {
    let mut cpu: CPU = create_test_cpu();
    cpu.memory
        .write_u16(TEST_BASE_PROGRAM_COUNTER, SAFE_MEMORY_ADDRESS);
    store_accumulator(&mut cpu, &AddressingMode::Absolute);
    let value_stored = cpu.memory.memory[SAFE_MEMORY_ADDRESS as usize];
    assert_eq!(value_stored, TEST_BASE_REGISTER_A);
}

#[test]
fn test_store_x_register() {
    let mut cpu: CPU = create_test_cpu();
    cpu.memory
        .write_u16(TEST_BASE_PROGRAM_COUNTER, SAFE_MEMORY_ADDRESS);
    store_x_register(&mut cpu, &AddressingMode::Absolute);
    let value_stored = cpu.memory.memory[SAFE_MEMORY_ADDRESS as usize];
    assert_eq!(value_stored, TEST_BASE_REGISTER_X);
}

#[test]
fn test_store_y_register() {
    let mut cpu: CPU = create_test_cpu();
    cpu.memory
        .write_u16(TEST_BASE_PROGRAM_COUNTER, SAFE_MEMORY_ADDRESS);
    store_y_register(&mut cpu, &AddressingMode::Absolute);
    let value_stored = cpu.memory.memory[SAFE_MEMORY_ADDRESS as usize];
    assert_eq!(value_stored, TEST_BASE_REGISTER_Y);
}

#[test]
fn test_compare_equal() {
    let mut cpu: CPU = create_test_cpu();
    cpu.memory.memory[TEST_BASE_PROGRAM_COUNTER as usize] = 0x40;
    compare(&mut cpu, &AddressingMode::Immediate, 0x40);
    let status: u8 = cpu.status;
    assert_eq!(status, 0x03);
}
#[test]
fn test_compare_lesser() {
    let mut cpu: CPU = create_test_cpu();
    cpu.memory.memory[TEST_BASE_PROGRAM_COUNTER as usize] = 0xff;
    compare(&mut cpu, &AddressingMode::Immediate, 0x01);
    let status: u8 = cpu.status;
    assert_eq!(status, 0x00);
}

#[test]
fn test_compare_greater() {
    let mut cpu: CPU = create_test_cpu();
    cpu.memory.memory[TEST_BASE_PROGRAM_COUNTER as usize] = 0x80;
    compare(&mut cpu, &AddressingMode::Immediate, 0x7f);
    let status: u8 = cpu.status;
    assert_eq!(status, 0x80);
}
type AddOrSubstractWithCarryTests = (u8, u8, bool, u8, u8, u8, u8, u8);
fn generate_tests_add_with_carry() -> Vec<AddOrSubstractWithCarryTests> {
    // accum_init, memory, carry_initial,
    // C, Z, N, V
    let lst: Vec<AddOrSubstractWithCarryTests> = vec![
        (0x60, 0x70, false, 0xd0, 0, 0, 1, 1),
        (0x7F, 0x01, false, 0x80, 0, 0, 1, 1),
        (0x80, 0xFF, false, 0x7F, 1, 0, 0, 1),
        // Sign change positive to negative with overflow (0x7F + 0x01 = 0x80)
        (0x7F, 0x01, false, 0x80, 0, 0, 1, 1),
        // Sign change negative to positive with overflow and carry (0x80 + 0xFF = 0x7F with carry)
        (0x80, 0xFF, false, 0x7F, 1, 0, 0, 1),
        // Carry generation without overflow (0xFF + 0x01 = 0x00 with carry)
        (0xFF, 0x01, false, 0x00, 1, 1, 0, 0),
        // Complex case with carry-in (0x80 + 0x80 + 1 = 0x01 with carry)
        (0x80, 0x80, true, 0x01, 1, 0, 0, 1),
        // Zero result with carry-in (0xFF + 0x00 + 1 = 0x00 with carry)
        (0xFF, 0x00, true, 0x00, 1, 1, 0, 0),
        (0x80, 0x80, true, 0x01, 1, 0, 0, 1),
    ];
    lst
}

fn generate_tests_substract_with_carry() -> Vec<AddOrSubstractWithCarryTests> {
    // accum_init, memory, carry_initial,
    // C, Z, N, V
    let lst: Vec<AddOrSubstractWithCarryTests> = vec![
        (0x05, 0x01, false, 0x03, 1, 0, 0, 0),
        (0x00, 0x01, true, 0xff, 0, 0, 1, 0),
        (0x7f, 0xff, true, 0x80, 0, 0, 1, 1),
        (0x40, 0xc0, true, 0x80, 0, 0, 1, 1),
        (0x50, 0x60, true, 0xf0, 0, 0, 1, 0),
        // Sign change negative to positive with overflow (0x80 - 0x01 = 0x7F)
        (0x80, 0x01, true, 0x7F, 1, 0, 0, 1),
        // Borrow generation (0x00 - 0x01 = 0xFF with borrow)
        (0x00, 0x01, true, 0xFF, 0, 0, 1, 0),
        // Sign change positive to negative with overflow (0x7F - 0xFF = 0x80)
        (0x7F, 0xFF, true, 0x80, 0, 0, 1, 1),
        // Zero result (0x01 - 0x01 = 0x00 without borrow)
        (0x01, 0x01, true, 0x00, 1, 1, 0, 0),
        // Borrow-in affects result (0x00 - 0x00 with borrow-in = 0xFF)
        (0x00, 0x00, false, 0xFF, 0, 0, 1, 0),
        (0x80, 0x7F, false, 0x00, 1, 1, 0, 1),
    ];
    lst
}

// --- Tests for branch_if_carry_clear ---

#[test]
fn test_branch_if_carry_clear_taken() {
    let mut cpu: CPU = create_test_cpu();
    cpu.status = 0x00;
    cpu.program_counter = 0x1000;
    cpu.memory.memory[cpu.program_counter as usize] = 5;
    branch_if_carry_clear(&mut cpu, &AddressingMode::Relative);
    assert_eq!(
        cpu.program_counter,
        0x1000u16.wrapping_add(1).wrapping_add(5)
    );
}

#[test]
fn test_branch_if_carry_clear_not_taken() {
    let mut cpu: CPU = create_test_cpu();
    cpu.status = 0x01;
    cpu.program_counter = 0x1000;
    cpu.memory.memory[cpu.program_counter as usize] = 5;
    branch_if_carry_clear(&mut cpu, &AddressingMode::Relative);
    assert_eq!(cpu.program_counter, 0x1000);
}

// --- Tests for branch_if_carry_set ---

#[test]
fn test_branch_if_carry_set_taken() {
    let mut cpu: CPU = create_test_cpu();
    cpu.status = 0x01;
    cpu.program_counter = 0x1000;
    cpu.memory.memory[cpu.program_counter as usize] = 5;
    branch_if_carry_set(&mut cpu, &AddressingMode::Relative);
    assert_eq!(
        cpu.program_counter,
        0x1000u16.wrapping_add(1).wrapping_add(5)
    );
}

#[test]
fn test_branch_if_carry_set_not_taken() {
    let mut cpu: CPU = create_test_cpu();
    cpu.status = 0x00;
    cpu.program_counter = 0x1000;
    cpu.memory.memory[cpu.program_counter as usize] = 5;
    branch_if_carry_set(&mut cpu, &AddressingMode::Relative);
    assert_eq!(cpu.program_counter, 0x1000);
}

// --- Tests for branch_if_equal ---

#[test]
fn test_branch_if_equal_taken() {
    let mut cpu: CPU = create_test_cpu();
    cpu.status = 0x02;
    cpu.program_counter = 0x1000;
    cpu.memory.memory[cpu.program_counter as usize] = 5;
    branch_if_equal(&mut cpu, &AddressingMode::Relative);
    assert_eq!(
        cpu.program_counter,
        0x1000u16.wrapping_add(1).wrapping_add(5)
    );
}

#[test]
fn test_branch_if_equal_not_taken() {
    let mut cpu: CPU = create_test_cpu();
    cpu.status = 0x00;
    cpu.program_counter = 0x1000;
    cpu.memory.memory[cpu.program_counter as usize] = 5;
    branch_if_equal(&mut cpu, &AddressingMode::Relative);
    assert_eq!(cpu.program_counter, 0x1000);
}

// --- Tests for branch_if_minus ---

#[test]
fn test_branch_if_minus_taken() {
    let mut cpu: CPU = create_test_cpu();
    cpu.status = 0x80;
    cpu.program_counter = 0x1000;
    cpu.memory.memory[cpu.program_counter as usize] = 5;
    branch_if_minus(&mut cpu, &AddressingMode::Relative);
    assert_eq!(
        cpu.program_counter,
        0x1000u16.wrapping_add(1).wrapping_add(5)
    );
}

#[test]
fn test_branch_if_minus_not_taken() {
    let mut cpu: CPU = create_test_cpu();
    cpu.status = 0x00;
    cpu.program_counter = 0x1000;
    cpu.memory.memory[cpu.program_counter as usize] = 5;
    branch_if_minus(&mut cpu, &AddressingMode::Relative);
    assert_eq!(cpu.program_counter, 0x1000);
}

// --- Tests for branch_if_not_equal ---

#[test]
fn test_branch_if_not_equal_taken() {
    let mut cpu: CPU = create_test_cpu();
    cpu.status = 0x00;
    cpu.program_counter = 0x1000;
    cpu.memory.memory[cpu.program_counter as usize] = 5;
    branch_if_not_equal(&mut cpu, &AddressingMode::Relative);
    assert_eq!(
        cpu.program_counter,
        0x1000u16.wrapping_add(1).wrapping_add(5)
    );
}

#[test]
fn test_branch_if_not_equal_not_taken() {
    let mut cpu: CPU = create_test_cpu();
    cpu.status = 0x02;
    cpu.program_counter = 0x1000;
    cpu.memory.memory[cpu.program_counter as usize] = 5;
    branch_if_not_equal(&mut cpu, &AddressingMode::Relative);
    assert_eq!(cpu.program_counter, 0x1000);
}

// --- Tests for branch_if_positive ---

#[test]
fn test_branch_if_positive_taken() {
    let mut cpu: CPU = create_test_cpu();
    cpu.status = 0x00;
    cpu.program_counter = 0x1000;
    cpu.memory.memory[cpu.program_counter as usize] = 5;
    branch_if_positive(&mut cpu, &AddressingMode::Relative);
    assert_eq!(
        cpu.program_counter,
        0x1000u16.wrapping_add(1).wrapping_add(5)
    );
}

#[test]
fn test_branch_if_positive_not_taken() {
    let mut cpu: CPU = create_test_cpu();
    cpu.status = 0x80;
    cpu.program_counter = 0x1000;
    cpu.memory.memory[cpu.program_counter as usize] = 5;
    branch_if_positive(&mut cpu, &AddressingMode::Relative);
    assert_eq!(cpu.program_counter, 0x1000);
}

// --- Tests for branch_if_overflow_clear ---

#[test]
fn test_branch_if_overflow_clear_taken() {
    let mut cpu: CPU = create_test_cpu();
    cpu.status = 0x00;
    cpu.program_counter = 0x1000;
    cpu.memory.memory[cpu.program_counter as usize] = 5;
    branch_if_overflow_clear(&mut cpu, &AddressingMode::Relative);
    assert_eq!(
        cpu.program_counter,
        0x1000u16.wrapping_add(1).wrapping_add(5)
    );
}

#[test]
fn test_branch_if_overflow_clear_not_taken() {
    let mut cpu: CPU = create_test_cpu();
    cpu.status = 0x40;
    cpu.program_counter = 0x1000;
    cpu.memory.memory[cpu.program_counter as usize] = 5;
    branch_if_overflow_clear(&mut cpu, &AddressingMode::Relative);
    assert_eq!(cpu.program_counter, 0x1000);
}

// --- Tests for branch_if_overflow_set ---

#[test]
fn test_branch_if_overflow_set_taken() {
    let mut cpu: CPU = create_test_cpu();
    cpu.status = 0x40;
    cpu.program_counter = 0x1000;
    cpu.memory.memory[cpu.program_counter as usize] = 5;
    branch_if_overflow_set(&mut cpu, &AddressingMode::Relative);
    assert_eq!(
        cpu.program_counter,
        0x1000u16.wrapping_add(1).wrapping_add(5)
    );
}

#[test]
fn test_branch_if_overflow_set_not_taken() {
    let mut cpu: CPU = create_test_cpu();
    cpu.status = 0x00;
    cpu.program_counter = 0x1000;
    cpu.memory.memory[cpu.program_counter as usize] = 5;
    branch_if_overflow_set(&mut cpu, &AddressingMode::Relative);
    assert_eq!(cpu.program_counter, 0x1000);
}

#[test]
fn testing_add_with_carry() {
    for testing_parameters in generate_tests_add_with_carry() {
        let mut cpu: CPU = create_test_cpu();
        cpu.register_a = testing_parameters.0;
        cpu.memory.memory[TEST_BASE_PROGRAM_COUNTER as usize] = testing_parameters.1;
        if testing_parameters.2 {
            update_status_bit(&mut cpu, StatusBit::Carry, BitwiseOperation::SetBit);
        } else {
            update_status_bit(&mut cpu, StatusBit::Carry, BitwiseOperation::UnsetBit);
        }
        add_with_carry(&mut cpu, &AddressingMode::Immediate);
        // Summing 0x60 + 0x50
        assert_eq!(cpu.register_a, testing_parameters.3);
        assert_eq!(get_bit(cpu.status, StatusBit::Carry), testing_parameters.4);
        assert_eq!(get_bit(cpu.status, StatusBit::Zero), testing_parameters.5);
        assert_eq!(
            get_bit(cpu.status, StatusBit::Negative),
            testing_parameters.6
        );
        assert_eq!(
            get_bit(cpu.status, StatusBit::Overflow),
            testing_parameters.7
        );
    }
}

#[test]
fn testing_substract_with_carry() {
    for testing_parameters in generate_tests_substract_with_carry() {
        let mut cpu: CPU = create_test_cpu();
        cpu.register_a = testing_parameters.0;
        cpu.memory.memory[TEST_BASE_PROGRAM_COUNTER as usize] = testing_parameters.1;
        if testing_parameters.2 {
            update_status_bit(&mut cpu, StatusBit::Carry, BitwiseOperation::SetBit);
        } else {
            update_status_bit(&mut cpu, StatusBit::Carry, BitwiseOperation::UnsetBit);
        }
        substract_with_carry(&mut cpu, &AddressingMode::Immediate);
        // Summing 0x60 + 0x50
        assert_eq!(cpu.register_a, testing_parameters.3);
        assert_eq!(get_bit(cpu.status, StatusBit::Carry), testing_parameters.4);
        assert_eq!(get_bit(cpu.status, StatusBit::Zero), testing_parameters.5);
        assert_eq!(
            get_bit(cpu.status, StatusBit::Negative),
            testing_parameters.6
        );
        assert_eq!(
            get_bit(cpu.status, StatusBit::Overflow),
            testing_parameters.7
        );
    }
}

#[test]
fn test_arithmetic_shift_left() {
    let mut cpu = create_test_cpu();
    cpu.memory.memory[cpu.program_counter as usize] = 0b0100_0001;
    arithmetic_shift_left(&mut cpu, &AddressingMode::Immediate);
    assert_eq!(cpu.memory.memory[cpu.program_counter as usize], 0b1000_0010);
    assert!(cpu.status & StatusBit::Carry.position() == 0);
    assert!(cpu.status & StatusBit::Negative.position() == 0);
    assert!(cpu.status & StatusBit::Zero.position() == 0);
}

#[test]
fn test_bit_test() {
    let mut cpu = create_test_cpu();

    cpu.register_a = 0b0000_0101;
    cpu.memory.memory[cpu.program_counter as usize] = 0b1100_0000;
    let mode = AddressingMode::Immediate;

    bit_test(&mut cpu, &mode);
    assert_eq!(get_bit(cpu.status, StatusBit::Zero), 1);
    assert_eq!(get_bit(cpu.status, StatusBit::Overflow), 1);
    assert_eq!(get_bit(cpu.status, StatusBit::Negative), 1);
}

#[test]
fn test_clear_carry_flag() {
    let mut cpu = create_test_cpu();
    cpu.status = 0b0000_0001;
    clear_carry_flag(&mut cpu, &AddressingMode::NoneAddressing);
    assert_eq!(cpu.status, 0b0000_0000);
}

#[test]
fn test_exclusive_or() {
    let mut cpu = create_test_cpu();
    cpu.register_a = 0b1010_1010;
    cpu.memory.memory[cpu.program_counter as usize] = 0b1100_1100;
    exclusive_or(&mut cpu, &AddressingMode::Immediate);
    assert_eq!(cpu.register_a, 0b0110_0110);
}

#[test]
fn test_logical_and() {
    let mut cpu = create_test_cpu();
    cpu.register_a = 0b1010_1010;
    cpu.memory.memory[cpu.program_counter as usize] = 0b1100_1100;
    logical_and(&mut cpu, &AddressingMode::Immediate);
    assert_eq!(cpu.register_a, 0b1000_1000);
}

#[test]
fn test_logical_inclusive_or() {
    let mut cpu = create_test_cpu();
    cpu.register_a = 0b1010_1010;
    cpu.memory.memory[cpu.program_counter as usize] = 0b1100_1100;
    logical_inclusive_or(&mut cpu, &AddressingMode::Immediate);
    assert_eq!(cpu.register_a, 0b1110_1110);
}

#[test]
fn test_logical_shift_right() {
    let mut cpu = create_test_cpu();
    cpu.memory.memory[cpu.program_counter as usize] = 0b1000_0001;
    logical_shift_right(&mut cpu, &AddressingMode::Immediate);
    assert_eq!(cpu.memory.memory[cpu.program_counter as usize], 0b0100_0000);
    assert_eq!(get_bit(cpu.status, StatusBit::Carry), 1);
    assert_eq!(get_bit(cpu.status, StatusBit::Zero), 0);
    assert_eq!(get_bit(cpu.status, StatusBit::Negative), 0);
}

#[test]
fn test_rotate_left() {
    let mut cpu = create_test_cpu();
    cpu.memory.memory[cpu.program_counter as usize] = 0b1000_0001;
    rotate_left(&mut cpu, &AddressingMode::Immediate);
    // Bit 7 goes to C; the old C (clear) comes in at bit 0.
    assert_eq!(cpu.memory.memory[cpu.program_counter as usize], 0b0000_0010);
    assert_eq!(get_bit(cpu.status, StatusBit::Carry), 1);
}

#[test]
fn test_rotate_right() {
    let mut cpu = create_test_cpu();
    cpu.memory.memory[cpu.program_counter as usize] = 0b1000_0001;
    rotate_right(&mut cpu, &AddressingMode::Immediate);
    // Bit 0 goes to C; the old C (clear) comes in at bit 7.
    assert_eq!(cpu.memory.memory[cpu.program_counter as usize], 0b0100_0000);
    assert_eq!(get_bit(cpu.status, StatusBit::Carry), 1);
}
