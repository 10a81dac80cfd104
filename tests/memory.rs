use mos6502::memory::Memory;

#[test]
fn test_write_u16_correct_positions() {
    let mut memory: Memory = Memory::new();

    let address: u16 = 0x0000;
    let value: u16 = 0x04D2;
    let left: u8 = 0x04;
    let right: u8 = 0xD2;

    memory.write_u16(address, value);

    assert_eq!(left, memory.memory[address as usize + 1]);
    assert_eq!(right, memory.memory[address as usize]);
}

#[test]
fn test_read_write_u16() {
    let mut memory: Memory = Memory::new();

    let address: u16 = 0x0000;
    let value: u16 = 0x04D2;

    memory.write_u16(address, value);

    assert_eq!(value, memory.read_u16(address));
}

#[test]
fn memory_has_every_sixteen_bit_address() {
    let memory = Memory::new();
    assert_eq!(memory.memory.len(), 0x10000);
    assert_eq!(memory.read_u8(0xFFFF), 0);
}

#[test]
fn word_at_last_address_wraps_to_zero() {
    let mut memory = Memory::new();
    memory.write_u16(0xFFFF, 0xBEEF);
    assert_eq!(memory.memory[0xFFFF], 0xEF);
    assert_eq!(memory.memory[0x0000], 0xBE);
    assert_eq!(memory.read_u16(0xFFFF), 0xBEEF);
}

#[test]
fn word_round_trip_at_several_addresses() {
    let mut memory = Memory::new();
    for (address, value) in [(0x1234u16, 0xABCDu16), (0x00FF, 0x0001), (0x8000, 0xFFFF)] {
        memory.write_u16(address, value);
        assert_eq!(memory.read_u16(address), value);
    }
}

#[test]
fn load_places_program_and_reset_vector() {
    let mut memory = Memory::new();
    memory.load(vec![0xA9, 0x05, 0x00]);
    assert_eq!(memory.memory[0x8000], 0xA9);
    assert_eq!(memory.memory[0x8001], 0x05);
    assert_eq!(memory.memory[0x8002], 0x00);
    assert_eq!(memory.read_u16(0xFFFC), 0x8000);
}

#[test]
fn load_at_other_base() {
    let mut memory = Memory::new();
    memory.load_at(&vec![0xEA, 0xEA], 0x0600);
    assert_eq!(memory.memory[0x0600], 0xEA);
    assert_eq!(memory.memory[0x0601], 0xEA);
    assert_eq!(memory.memory[0x0602], 0x00);
    assert_eq!(memory.read_u16(0xFFFC), 0x0600);
}
