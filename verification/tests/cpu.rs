use gb_cpu::cpu::Cpu;
use gb_cpu::errors::CpuError;
use gb_cpu::instructions::{FollowUp, Instruction, Operand};
use gb_cpu::memory::Address;
use gb_cpu::registers::{Register16, Register8};

#[test]
fn test_write_slice_to_memory() {
    let mut cpu = Cpu::default();

    // Prepare data to write
    let data: [u8; 3] = [0xAB, 0xCD, 0xEF];

    // Choose an address to write to
    let target_address = Address(0x100);

    // Perform the write operation
    cpu.mem.write(target_address, data.as_slice()).unwrap();

    // Verify that memory has been updated correctly
    assert_eq!(cpu.mem.read_byte(Address(0x100)).unwrap(), 0xAB);
    assert_eq!(cpu.mem.read_byte(Address(0x101)).unwrap(), 0xCD);
    assert_eq!(cpu.mem.read_byte(Address(0x102)).unwrap(), 0xEF);

    // Surrounding memory has not been altered
    assert_eq!(cpu.mem.read_byte(Address(0x0FF)).unwrap(), 0x00);
    assert_eq!(cpu.mem.read_byte(Address(0x103)).unwrap(), 0x00);
}

#[test]
fn test_read_memory() {
    let mut cpu = Cpu::default();

    // Setup memory with some test data
    cpu.mem.write_byte(Address(0x100), 0xAA).unwrap();
    cpu.mem.write_byte(Address(0x101), 0xBB).unwrap();

    let buf = cpu.mem.read(Address(0x100), 2).unwrap();
    assert_eq!(buf, [0xAA, 0xBB]);
}

#[test]
fn test_write_register8_from_address() {
    let mut cpu = Cpu::default();
    cpu.mem.write_byte(Address(0x100), 0x69).unwrap();

    let byte = cpu.mem.read_byte(Address(0x100)).unwrap();
    cpu.registers.write(Register8::B, byte);
    assert_eq!(cpu.registers.fetch(Register8::B), 0x69);
}

#[test]
fn test_decode_ld_r_r() {
    let cpu = Cpu::default();

    let instr = cpu.decode(0x41).unwrap();

    assert_eq!(
        instr,
        Instruction::load(
            Operand::Reg8(Register8::C),
            Operand::Reg8(Register8::B),
            None
        )
    );

    let instr = cpu.decode(0x40).unwrap();

    assert_eq!(instr, Instruction::nop());
}

#[test]
fn test_decode_ld_hl_r() {
    let cpu = Cpu::default();

    let instr = cpu.decode(0x70).unwrap();

    assert_eq!(
        instr,
        Instruction::load(
            Operand::Reg8(Register8::B),
            Operand::Reg16(Register16::HL),
            None
        )
    );
}

#[test]
fn test_decode_ld_r_hl() {
    let cpu = Cpu::default();

    let instr = cpu.decode(0x46).unwrap();

    assert_eq!(
        instr,
        Instruction::load(
            Operand::Reg16(Register16::HL),
            Operand::Reg8(Register8::B),
            None
        )
    );
}

#[test]
fn test_decode_ld_r_d8() {
    let mut cpu = Cpu::default();
    cpu.registers.write(Register16::PC, 0x101);

    cpu.mem.write_byte(Address(0x101), 0x69).unwrap();

    // LD B, d8
    let instr = cpu.decode(0x06).unwrap();

    assert_eq!(
        instr,
        Instruction::load(Operand::Immediate8, Operand::Reg8(Register8::B), None)
    );

    assert_eq!(
        0x69,
        cpu.fetch_byte_from_operand(Operand::Immediate8).unwrap()
    );
    assert_eq!(cpu.registers.fetch(Register16::PC), 0x102);
}

#[test]
fn test_indirect_load_decoding() {
    let cpu = Cpu::default();

    // Decode the LD (BC), A instruction
    let instr = cpu.decode(0x02).unwrap();

    assert_eq!(
        instr,
        Instruction::load(
            Operand::Reg8(Register8::A),
            Operand::Reg16(Register16::BC),
            None
        )
    );

    // Decode the LD A, (HL+) instruction
    let instr = cpu.decode(0x2A).unwrap();

    assert_eq!(
        instr,
        Instruction::load(
            Operand::Reg16(Register16::HL),
            Operand::Reg8(Register8::A),
            Some(FollowUp::Inc)
        )
    );
}

#[test]
fn test_decod_16bit_inc() {
    let cpu = Cpu::default();

    // Decode the INC BC instruction
    let instr = cpu.decode(0x03).unwrap();

    assert_eq!(instr, Instruction::inc(Operand::Reg16(Register16::BC)));
}

#[test]
fn test_fetch_byte_loadoperand_reg8() {
    let mut cpu = Cpu::default();
    cpu.registers.write(Register8::B, 0xAB);

    let byte = cpu
        .fetch_byte_from_operand(Operand::Reg8(Register8::B))
        .unwrap();

    assert_eq!(byte, 0xAB);
}

#[test]
fn test_fetch_byte_loadoperand_reg16() {
    let mut cpu = Cpu::default();
    cpu.registers.write(Register16::BC, 0xABCD);
    cpu.mem.write_byte(Address(0xABCD), 0xFE).unwrap();

    let byte = cpu
        .fetch_byte_from_operand(Operand::Reg16(Register16::BC))
        .unwrap();
    assert_eq!(byte, 0xFE);
}

#[test]
fn test_fetch_byte_loadoperand_im8() {
    let mut cpu = Cpu::default();
    cpu.registers.write(Register16::PC, 0x100);

    cpu.mem.write_byte(Address(0x100), 0x69).unwrap();

    let byte = cpu.fetch_byte_from_operand(Operand::Immediate8).unwrap();

    assert_eq!(byte, 0x69);
    assert_eq!(cpu.registers.fetch(Register16::PC), 0x101);
}

#[test]
fn test_fetch_byte_loadoperand_im16() {
    let mut cpu = Cpu::default();
    cpu.registers.write(Register16::PC, 0x100);

    cpu.mem.write_byte(Address(0x100), 0x69).unwrap();
    cpu.mem.write_byte(Address(0x101), 0x42).unwrap();
    cpu.mem.write_byte(Address(0x4269), 0xBC).unwrap();

    // Fetching a byte from a 16-bit-immediate operand is a contract
    // violation: it fails and leaves the program counter untouched.
    let result = cpu.fetch_byte_from_operand(Operand::Immediate16);

    assert!(matches!(result, Err(CpuError::FetchError)));
    assert_eq!(cpu.registers.fetch(Register16::PC), 0x100);
}

#[test]
fn test_fetch_word_loadoperand_reg16() {
    let mut cpu = Cpu::default();
    cpu.registers.write(Register16::BC, 0x1000);

    let word = cpu
        .fetch_word_from_operand(Operand::Reg16(Register16::BC))
        .unwrap();

    assert_eq!(word, 0x1000);
}

#[test]
fn test_fetch_word_loadoperand_im16() {
    let mut cpu = Cpu::default();
    cpu.registers.write(Register16::PC, 0x100);

    cpu.mem.write_byte(Address(0x100), 0x69).unwrap();
    cpu.mem.write_byte(Address(0x101), 0x42).unwrap();

    let word = cpu.fetch_word_from_operand(Operand::Immediate16).unwrap();

    assert_eq!(word, 0x4269);
    assert_eq!(cpu.registers.fetch(Register16::PC), 0x102);
}
