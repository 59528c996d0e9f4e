use rusty_nes::cpu::{Cpu, InstructionType, AddressMode, AluInstruction};
use rusty_nes::instructions::{
    run_adc, run_beq, run_lda, run_rti, run_sbc, run_sei, CpuRegisters, Operand, Status,
};
use rusty_nes::memory::MemoryMap;
use rusty_nes::nes::Nes;

fn cleared_status() -> Status {
    Status {
        carry: false,
        zero: false,
        it_disable: false,
        decimal: false,
        brk: false,
        ignored: false,
        overflow: false,
        negative: false,
    }
}

fn fresh_registers() -> CpuRegisters {
    CpuRegisters { a: 0, x: 0, y: 0, pc: 0, p: cleared_status(), s: 0 }
}

/// A minimal mapper-0 image: 32KB program, 8KB graphics, with the
/// reset vector pointing at 0x8000 and `program` placed there.
fn test_rom(program: &[u8]) -> Vec<u8> {
    let mut bytes = vec![0u8; 16 + 0x8000 + 0x2000];
    bytes[0] = b'N';
    bytes[1] = b'E';
    bytes[2] = b'S';
    bytes[3] = 0x1A;
    bytes[4] = 2; // two 16KB program banks
    bytes[5] = 1; // one 8KB graphics bank
    for (i, b) in program.iter().enumerate() {
        bytes[16 + i] = *b;
    }
    // Reset vector: 0x8000.
    bytes[16 + 0x7FFC] = 0x00;
    bytes[16 + 0x7FFD] = 0x80;
    bytes
}

fn loaded_nes(program: &[u8]) -> Nes {
    let mut nes = Nes::new();
    nes.load_rom(&test_rom(program)).unwrap();
    nes
}

#[test]
fn test_sei() {
    let mut reg = CpuRegisters { a: 0, x: 0, y: 0, p: cleared_status(), s: 0, pc: 0 };
    reg.p.carry = true;
    run_sei(&mut reg, Operand::Implied);
    assert!(reg.p.it_disable);
    assert!(reg.p.carry);
    assert!(!reg.p.zero);
}

#[test]
fn cpu_test_sei() {
    let mut reg = CpuRegisters { a: 0, x: 0, y: 0, p: cleared_status(), s: 0, pc: 0 };
    reg.p.carry = true;
    run_sei(&mut reg, Operand::Implied);
    assert!(reg.p.it_disable);
    assert!(reg.p.carry);
    assert!(!reg.p.zero);
}

#[test]
fn lda_flag_outcomes() {
    let mut nes = loaded_nes(&[]);
    let mut reg = fresh_registers();
    // LDA 0x00 sets Zero and clears Negative.
    run_lda(&mut reg, &mut nes.mem, Operand::Value(0x00));
    assert!(reg.p.zero);
    assert!(!reg.p.negative);
    // LDA 0x80 clears Zero and sets Negative.
    run_lda(&mut reg, &mut nes.mem, Operand::Value(0x80));
    assert!(!reg.p.zero);
    assert!(reg.p.negative);
    assert_eq!(reg.a, 0x80);
}

#[test]
fn adc_flag_outcomes() {
    let mut nes = loaded_nes(&[]);
    // 0x50 + 0x50 = 0xA0: negative, signed overflow, no carry.
    let mut reg = fresh_registers();
    reg.a = 0x50;
    run_adc(&mut reg, &mut nes.mem, Operand::Value(0x50));
    assert_eq!(reg.a, 0xA0);
    assert!(!reg.p.carry);
    assert!(!reg.p.zero);
    assert!(reg.p.negative);
    assert!(reg.p.overflow);
    // 0xFF + 0x01 = 0x00 with carry out, no signed overflow.
    let mut reg = fresh_registers();
    reg.a = 0xFF;
    run_adc(&mut reg, &mut nes.mem, Operand::Value(0x01));
    assert_eq!(reg.a, 0x00);
    assert!(reg.p.carry);
    assert!(reg.p.zero);
    assert!(!reg.p.overflow);
}

#[test]
fn adc_sbc_round_trip() {
    let mut nes = loaded_nes(&[]);
    for a in [0u8, 1, 0x42, 0x7F, 0x80, 0xFE, 0xFF] {
        for b in [0u8, 1, 0x3C, 0x80, 0xFF] {
            let mut reg = fresh_registers();
            reg.a = a;
            run_adc(&mut reg, &mut nes.mem, Operand::Value(b));
            reg.p.carry = true;
            run_sbc(&mut reg, &mut nes.mem, Operand::Value(b));
            assert_eq!(reg.a, a);
        }
    }
}

#[test]
fn branch_cycle_accounting() {
    // Not taken: 0 extra cycles.
    let mut reg = fresh_registers();
    reg.pc = 0x8010;
    let c = run_beq(&mut reg, Operand::Address(0x8020));
    assert_eq!(c, 0);
    assert_eq!(reg.pc, 0x8010);
    // Taken within the page: 1 extra cycle.
    let mut reg = fresh_registers();
    reg.pc = 0x8010;
    reg.p.zero = true;
    let c = run_beq(&mut reg, Operand::Address(0x8020));
    assert_eq!(c, 1);
    assert_eq!(reg.pc, 0x8020);
    // Taken across a page boundary: 2 extra cycles.
    let mut reg = fresh_registers();
    reg.pc = 0x80F0;
    reg.p.zero = true;
    let c = run_beq(&mut reg, Operand::Address(0x8110));
    assert_eq!(c, 2);
    assert_eq!(reg.pc, 0x8110);
}

#[test]
fn brk_rti_round_trip() {
    let mut nes = loaded_nes(&[]);
    let mut cpu = Cpu::new();
    cpu.registers.pc = 0x8123; // just past a BRK opcode at 0x8122
    cpu.registers.p = cleared_status();
    cpu.registers.p.carry = true;
    cpu.registers.p.negative = true;
    cpu.registers.s = 0xFD;
    let before = cpu.registers;
    let c = cpu.enter_interrupt(&mut nes.mem, rusty_nes::cpu::InteruptSource::Brk);
    assert_eq!(c, 6);
    assert!(cpu.registers.p.it_disable);
    run_rti(&mut cpu.registers, &mut nes.mem, Operand::Implied);
    // PC lands at the BRK opcode's address + 2.
    assert_eq!(cpu.registers.pc, 0x8122 + 2);
    assert_eq!(cpu.registers.s, before.s);
    assert_eq!(cpu.registers.p.carry, before.p.carry);
    assert_eq!(cpu.registers.p.negative, before.p.negative);
    assert_eq!(cpu.registers.p.zero, before.p.zero);
    assert_eq!(cpu.registers.p.it_disable, before.p.it_disable);
    // The reserved bit is forced on by RTI.
    assert!(cpu.registers.p.ignored);
}

#[test]
fn decode_table_spot_checks() {
    assert_eq!(
        InstructionType::decode(0xA9),
        Some(InstructionType::Alu(AluInstruction::Lda, AddressMode::Imm))
    );
    assert_eq!(InstructionType::decode(0x02), None);
    assert_eq!(InstructionType::decode(0xEA), Some(InstructionType::Nop(AddressMode::Implied)));
}

#[test]
fn headless_functional_run_halts_with_success_sentinel() {
    // LDA #0; STA $6000; JMP self. The repeated-PC heuristic fires
    // on the self-jump; the success sentinel at 0x6000 must read 0.
    let program = [0xA9, 0x00, 0x8D, 0x00, 0x60, 0x4C, 0x05, 0x80];
    let mut nes = loaded_nes(&program);
    nes.mem.write_byte(0x6000, 0xFF).unwrap();
    let mut halted = false;
    for _ in 0..1000 {
        let (_cycles, done) = nes.step().unwrap();
        if done {
            halted = true;
            break;
        }
    }
    assert!(halted);
    assert_eq!(nes.mem.read_byte(0x6000), 0);
}

#[test]
fn unknown_opcode_is_fatal() {
    // Opcode 0x02 has no decode entry.
    let program = [0x02];
    let mut nes = loaded_nes(&program);
    let r = nes.step();
    assert_eq!(r, Err(rusty_nes::errors::EmuError::UnknownOpcode(0x02)));
}

#[test]
fn read_word_is_little_endian() {
    let buf = [0x34u8, 0x12u8];
    assert_eq!(rusty_nes::memory_utils::read_word_from_buffer(&buf, 0), 0x1234);
    let mut nes = loaded_nes(&[]);
    nes.mem.write_byte(0x0010, 0xCD).unwrap();
    nes.mem.write_byte(0x0011, 0xAB).unwrap();
    assert_eq!(nes.mem.read_word(0x0010), 0xABCD);
    let mut mem = MemoryMap::new();
    assert!(mem.load_rom(&test_rom(&[])).is_ok());
}
