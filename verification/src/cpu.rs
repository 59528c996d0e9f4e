use vstd::prelude::*;

use crate::errors::EmuError;
use crate::instructions::{
    adc_effect, lemma_status_bits_roundtrip, mem_same_but_ram, n_flag, operand_cycles,
    operand_read_rel, operand_value, page_cross, run_adc, run_and, run_asl, run_bcc, run_bcs,
    run_beq, run_bit, run_bmi, run_bne, run_bpl, run_bvc, run_bvs, run_clc, run_cld, run_cli,
    run_clv, run_cmp, run_cpx, run_cpy, run_dec, run_dex, run_dey, run_eor, run_inc, run_inx,
    run_iny, run_jmp, run_jsr, run_lda, run_ldx, run_ldy, run_lsr, run_ora, run_pha, run_php,
    run_pla, run_plp, run_rol, run_ror, run_rti, run_rts, run_sbc, run_sec, run_sed, run_sei,
    run_sta, run_stx, run_sty, run_tax, run_tay, run_tsx, run_txa, run_txs, run_tya, pop_stack,
    push_stack, spec_page_cross, spec_status_from_bits, status_bits, wdec16, wdec8, winc16, winc8,
    winc_exec, wdec_exec, wsub8, CpuRegisters, Operand, Status,
};
use crate::memory::{bus_read_post, bus_read_rel, bus_read_val, bus_write_rel, MemoryMap};
use crate::memory_utils::word_from_bytes;

verus! {

/// The control-group instructions.
#[derive(Clone, Copy, Debug, PartialEq, Eq, Structural)]
pub enum ControlInstruction {
    Bcc,
    Bcs,
    Beq,
    Bit,
    Bmi,
    Bne,
    Bpl,
    Brk,
    Bvc,
    Bvs,
    Clc,
    Cld,
    Cli,
    Clv,
    Cpx,
    Cpy,
    Dey,
    Inx,
    Iny,
    Jmp,
    Jsr,
    Ldy,
    Pha,
    Php,
    Pla,
    Plp,
    Rti,
    Rts,
    Sec,
    Sed,
    Sei,
    Sty,
    Tay,
    Tya,
}

/// The arithmetic/logic-group instructions.
#[derive(Clone, Copy, Debug, PartialEq, Eq, Structural)]
pub enum AluInstruction {
    Ora,
    And,
    Eor,
    Adc,
    Sta,
    Lda,
    Cmp,
    Sbc,
}

/// The read-modify-write-group instructions.
#[derive(Clone, Copy, Debug, PartialEq, Eq, Structural)]
pub enum RmwInstruction {
    Asl,
    Dec,
    Dex,
    Inc,
    Ldx,
    Lsr,
    Rol,
    Ror,
    Stx,
    Tax,
    Tsx,
    Txs,
    Txa,
}

/// The thirteen addressing modes.
#[derive(Clone, Copy, Debug, PartialEq, Eq, Structural)]
pub enum AddressMode {
    Implied,
    Acc,
    Abs,
    AbsX,
    AbsY,
    Imm,
    Ind,
    IndX,
    IndY,
    Rel,
    Zpg,
    ZpgX,
    ZpgY,
}

/// A decoded instruction: its handler group, the concrete
/// instruction, and its addressing mode.
#[derive(Clone, Copy, Debug, PartialEq, Eq, Structural)]
pub enum InstructionType {
    Control(ControlInstruction, AddressMode),
    Alu(AluInstruction, AddressMode),
    Rmw(RmwInstruction, AddressMode),
    Nop(AddressMode),
}

/// The fixed 256-entry decode table; opcodes without an entry are
/// unimplemented and fatal to execute.
pub open spec fn spec_decode(op: u8) -> Option<InstructionType> {
    if op == 0x00 {
        Some(InstructionType::Control(ControlInstruction::Brk, AddressMode::Implied))
    } else if op == 0x01 {
        Some(InstructionType::Alu(AluInstruction::Ora, AddressMode::IndX))
    } else if op == 0x05 {
        Some(InstructionType::Alu(AluInstruction::Ora, AddressMode::Zpg))
    } else if op == 0x06 {
        Some(InstructionType::Rmw(RmwInstruction::Asl, AddressMode::Zpg))
    } else if op == 0x08 {
        Some(InstructionType::Control(ControlInstruction::Php, AddressMode::Implied))
    } else if op == 0x09 {
        Some(InstructionType::Alu(AluInstruction::Ora, AddressMode::Imm))
    } else if op == 0x0A {
        Some(InstructionType::Rmw(RmwInstruction::Asl, AddressMode::Acc))
    } else if op == 0x0D {
        Some(InstructionType::Alu(AluInstruction::Ora, AddressMode::Abs))
    } else if op == 0x0E {
        Some(InstructionType::Rmw(RmwInstruction::Asl, AddressMode::Abs))
    } else if op == 0x10 {
        Some(InstructionType::Control(ControlInstruction::Bpl, AddressMode::Rel))
    } else if op == 0x11 {
        Some(InstructionType::Alu(AluInstruction::Ora, AddressMode::IndY))
    } else if op == 0x15 {
        Some(InstructionType::Alu(AluInstruction::Ora, AddressMode::ZpgX))
    } else if op == 0x16 {
        Some(InstructionType::Rmw(RmwInstruction::Asl, AddressMode::ZpgX))
    } else if op == 0x18 {
        Some(InstructionType::Control(ControlInstruction::Clc, AddressMode::Implied))
    } else if op == 0x19 {
        Some(InstructionType::Alu(AluInstruction::Ora, AddressMode::AbsY))
    } else if op == 0x1A {
        Some(InstructionType::Nop(AddressMode::Implied))
    } else if op == 0x1D {
        Some(InstructionType::Alu(AluInstruction::Ora, AddressMode::AbsX))
    } else if op == 0x1E {
        Some(InstructionType::Rmw(RmwInstruction::Asl, AddressMode::AbsX))
    } else if op == 0x20 {
        Some(InstructionType::Control(ControlInstruction::Jsr, AddressMode::Abs))
    } else if op == 0x21 {
        Some(InstructionType::Alu(AluInstruction::And, AddressMode::IndX))
    } else if op == 0x24 {
        Some(InstructionType::Control(ControlInstruction::Bit, AddressMode::Zpg))
    } else if op == 0x25 {
        Some(InstructionType::Alu(AluInstruction::And, AddressMode::Zpg))
    } else if op == 0x26 {
        Some(InstructionType::Rmw(RmwInstruction::Rol, AddressMode::Zpg))
    } else if op == 0x28 {
        Some(InstructionType::Control(ControlInstruction::Plp, AddressMode::Implied))
    } else if op == 0x29 {
        Some(InstructionType::Alu(AluInstruction::And, AddressMode::Imm))
    } else if op == 0x2A {
        Some(InstructionType::Rmw(RmwInstruction::Rol, AddressMode::Acc))
    } else if op == 0x2C {
        Some(InstructionType::Control(ControlInstruction::Bit, AddressMode::Abs))
    } else if op == 0x2D {
        Some(InstructionType::Alu(AluInstruction::And, AddressMode::Abs))
    } else if op == 0x2E {
        Some(InstructionType::Rmw(RmwInstruction::Rol, AddressMode::Abs))
    } else if op == 0x30 {
        Some(InstructionType::Control(ControlInstruction::Bmi, AddressMode::Rel))
    } else if op == 0x31 {
        Some(InstructionType::Alu(AluInstruction::And, AddressMode::IndY))
    } else if op == 0x35 {
        Some(InstructionType::Alu(AluInstruction::And, AddressMode::ZpgX))
    } else if op == 0x36 {
        Some(InstructionType::Rmw(RmwInstruction::Rol, AddressMode::ZpgX))
    } else if op == 0x38 {
        Some(InstructionType::Control(ControlInstruction::Sec, AddressMode::Implied))
    } else if op == 0x39 {
        Some(InstructionType::Alu(AluInstruction::And, AddressMode::AbsY))
    } else if op == 0x3A {
        Some(InstructionType::Nop(AddressMode::Implied))
    } else if op == 0x3D {
        Some(InstructionType::Alu(AluInstruction::And, AddressMode::AbsX))
    } else if op == 0x3E {
        Some(InstructionType::Rmw(RmwInstruction::Rol, AddressMode::AbsX))
    } else if op == 0x40 {
        Some(InstructionType::Control(ControlInstruction::Rti, AddressMode::Implied))
    } else if op == 0x41 {
        Some(InstructionType::Alu(AluInstruction::Eor, AddressMode::IndX))
    } else if op == 0x45 {
        Some(InstructionType::Alu(AluInstruction::Eor, AddressMode::Zpg))
    } else if op == 0x46 {
        Some(InstructionType::Rmw(RmwInstruction::Lsr, AddressMode::Zpg))
    } else if op == 0x48 {
        Some(InstructionType::Control(ControlInstruction::Pha, AddressMode::Implied))
    } else if op == 0x49 {
        Some(InstructionType::Alu(AluInstruction::Eor, AddressMode::Imm))
    } else if op == 0x4A {
        Some(InstructionType::Rmw(RmwInstruction::Lsr, AddressMode::Acc))
    } else if op == 0x4C {
        Some(InstructionType::Control(ControlInstruction::Jmp, AddressMode::Abs))
    } else if op == 0x4D {
        Some(InstructionType::Alu(AluInstruction::Eor, AddressMode::Abs))
    } else if op == 0x4E {
        Some(InstructionType::Rmw(RmwInstruction::Lsr, AddressMode::Abs))
    } else if op == 0x50 {
        Some(InstructionType::Control(ControlInstruction::Bvc, AddressMode::Rel))
    } else if op == 0x51 {
        Some(InstructionType::Alu(AluInstruction::Eor, AddressMode::IndY))
    } else if op == 0x55 {
        Some(InstructionType::Alu(AluInstruction::Eor, AddressMode::ZpgX))
    } else if op == 0x56 {
        Some(InstructionType::Rmw(RmwInstruction::Lsr, AddressMode::ZpgX))
    } else if op == 0x58 {
        Some(InstructionType::Control(ControlInstruction::Cli, AddressMode::Implied))
    } else if op == 0x59 {
        Some(InstructionType::Alu(AluInstruction::Eor, AddressMode::AbsY))
    } else if op == 0x5A {
        Some(InstructionType::Nop(AddressMode::Implied))
    } else if op == 0x5D {
        Some(InstructionType::Alu(AluInstruction::Eor, AddressMode::AbsX))
    } else if op == 0x5E {
        Some(InstructionType::Rmw(RmwInstruction::Lsr, AddressMode::AbsX))
    } else if op == 0x60 {
        Some(InstructionType::Control(ControlInstruction::Rts, AddressMode::Implied))
    } else if op == 0x61 {
        Some(InstructionType::Alu(AluInstruction::Adc, AddressMode::IndX))
    } else if op == 0x65 {
        Some(InstructionType::Alu(AluInstruction::Adc, AddressMode::Zpg))
    } else if op == 0x66 {
        Some(InstructionType::Rmw(RmwInstruction::Ror, AddressMode::Zpg))
    } else if op == 0x68 {
        Some(InstructionType::Control(ControlInstruction::Pla, AddressMode::Implied))
    } else if op == 0x69 {
        Some(InstructionType::Alu(AluInstruction::Adc, AddressMode::Imm))
    } else if op == 0x6A {
        Some(InstructionType::Rmw(RmwInstruction::Ror, AddressMode::Acc))
    } else if op == 0x6C {
        Some(InstructionType::Control(ControlInstruction::Jmp, AddressMode::Ind))
    } else if op == 0x6D {
        Some(InstructionType::Alu(AluInstruction::Adc, AddressMode::Abs))
    } else if op == 0x6E {
        Some(InstructionType::Rmw(RmwInstruction::Ror, AddressMode::Abs))
    } else if op == 0x70 {
        Some(InstructionType::Control(ControlInstruction::Bvs, AddressMode::Rel))
    } else if op == 0x71 {
        Some(InstructionType::Alu(AluInstruction::Adc, AddressMode::IndY))
    } else if op == 0x75 {
        Some(InstructionType::Alu(AluInstruction::Adc, AddressMode::ZpgX))
    } else if op == 0x76 {
        Some(InstructionType::Rmw(RmwInstruction::Ror, AddressMode::ZpgX))
    } else if op == 0x78 {
        Some(InstructionType::Control(ControlInstruction::Sei, AddressMode::Implied))
    } else if op == 0x79 {
        Some(InstructionType::Alu(AluInstruction::Adc, AddressMode::AbsY))
    } else if op == 0x7A {
        Some(InstructionType::Nop(AddressMode::Implied))
    } else if op == 0x7D {
        Some(InstructionType::Alu(AluInstruction::Adc, AddressMode::AbsX))
    } else if op == 0x7E {
        Some(InstructionType::Rmw(RmwInstruction::Ror, AddressMode::AbsX))
    } else if op == 0x81 {
        Some(InstructionType::Alu(AluInstruction::Sta, AddressMode::IndX))
    } else if op == 0x84 {
        Some(InstructionType::Control(ControlInstruction::Sty, AddressMode::Zpg))
    } else if op == 0x85 {
        Some(InstructionType::Alu(AluInstruction::Sta, AddressMode::Zpg))
    } else if op == 0x86 {
        Some(InstructionType::Rmw(RmwInstruction::Stx, AddressMode::Zpg))
    } else if op == 0x88 {
        Some(InstructionType::Control(ControlInstruction::Dey, AddressMode::Implied))
    } else if op == 0x8A {
        Some(InstructionType::Rmw(RmwInstruction::Txa, AddressMode::Implied))
    } else if op == 0x8C {
        Some(InstructionType::Control(ControlInstruction::Sty, AddressMode::Abs))
    } else if op == 0x8D {
        Some(InstructionType::Alu(AluInstruction::Sta, AddressMode::Abs))
    } else if op == 0x8E {
        Some(InstructionType::Rmw(RmwInstruction::Stx, AddressMode::Abs))
    } else if op == 0x90 {
        Some(InstructionType::Control(ControlInstruction::Bcc, AddressMode::Rel))
    } else if op == 0x91 {
        Some(InstructionType::Alu(AluInstruction::Sta, AddressMode::IndY))
    } else if op == 0x94 {
        Some(InstructionType::Control(ControlInstruction::Sty, AddressMode::ZpgX))
    } else if op == 0x95 {
        Some(InstructionType::Alu(AluInstruction::Sta, AddressMode::ZpgX))
    } else if op == 0x96 {
        Some(InstructionType::Rmw(RmwInstruction::Stx, AddressMode::ZpgY))
    } else if op == 0x98 {
        Some(InstructionType::Control(ControlInstruction::Tya, AddressMode::Implied))
    } else if op == 0x99 {
        Some(InstructionType::Alu(AluInstruction::Sta, AddressMode::AbsY))
    } else if op == 0x9A {
        Some(InstructionType::Rmw(RmwInstruction::Txs, AddressMode::Implied))
    } else if op == 0x9D {
        Some(InstructionType::Alu(AluInstruction::Sta, AddressMode::AbsX))
    } else if op == 0xA0 {
        Some(InstructionType::Control(ControlInstruction::Ldy, AddressMode::Imm))
    } else if op == 0xA1 {
        Some(InstructionType::Alu(AluInstruction::Lda, AddressMode::IndX))
    } else if op == 0xA2 {
        Some(InstructionType::Rmw(RmwInstruction::Ldx, AddressMode::Imm))
    } else if op == 0xA4 {
        Some(InstructionType::Control(ControlInstruction::Ldy, AddressMode::Zpg))
    } else if op == 0xA5 {
        Some(InstructionType::Alu(AluInstruction::Lda, AddressMode::Zpg))
    } else if op == 0xA6 {
        Some(InstructionType::Rmw(RmwInstruction::Ldx, AddressMode::Zpg))
    } else if op == 0xA8 {
        Some(InstructionType::Control(ControlInstruction::Tay, AddressMode::Implied))
    } else if op == 0xA9 {
        Some(InstructionType::Alu(AluInstruction::Lda, AddressMode::Imm))
    } else if op == 0xAA {
        Some(InstructionType::Rmw(RmwInstruction::Tax, AddressMode::Implied))
    } else if op == 0xAC {
        Some(InstructionType::Control(ControlInstruction::Ldy, AddressMode::Abs))
    } else if op == 0xAD {
        Some(InstructionType::Alu(AluInstruction::Lda, AddressMode::Abs))
    } else if op == 0xAE {
        Some(InstructionType::Rmw(RmwInstruction::Ldx, AddressMode::Abs))
    } else if op == 0xB0 {
        Some(InstructionType::Control(ControlInstruction::Bcs, AddressMode::Rel))
    } else if op == 0xB1 {
        Some(InstructionType::Alu(AluInstruction::Lda, AddressMode::IndY))
    } else if op == 0xB4 {
        Some(InstructionType::Control(ControlInstruction::Ldy, AddressMode::ZpgX))
    } else if op == 0xB5 {
        Some(InstructionType::Alu(AluInstruction::Lda, AddressMode::ZpgX))
    } else if op == 0xB6 {
        Some(InstructionType::Rmw(RmwInstruction::Ldx, AddressMode::ZpgY))
    } else if op == 0xB8 {
        Some(InstructionType::Control(ControlInstruction::Clv, AddressMode::Implied))
    } else if op == 0xB9 {
        Some(InstructionType::Alu(AluInstruction::Lda, AddressMode::AbsY))
    } else if op == 0xBA {
        Some(InstructionType::Rmw(RmwInstruction::Tsx, AddressMode::Implied))
    } else if op == 0xBC {
        Some(InstructionType::Control(ControlInstruction::Ldy, AddressMode::AbsX))
    } else if op == 0xBD {
        Some(InstructionType::Alu(AluInstruction::Lda, AddressMode::AbsX))
    } else if op == 0xBE {
        Some(InstructionType::Rmw(RmwInstruction::Ldx, AddressMode::AbsY))
    } else if op == 0xC0 {
        Some(InstructionType::Control(ControlInstruction::Cpy, AddressMode::Imm))
    } else if op == 0xC1 {
        Some(InstructionType::Alu(AluInstruction::Cmp, AddressMode::IndX))
    } else if op == 0xC4 {
        Some(InstructionType::Control(ControlInstruction::Cpy, AddressMode::Zpg))
    } else if op == 0xC5 {
        Some(InstructionType::Alu(AluInstruction::Cmp, AddressMode::Zpg))
    } else if op == 0xC6 {
        Some(InstructionType::Rmw(RmwInstruction::Dec, AddressMode::Zpg))
    } else if op == 0xC8 {
        Some(InstructionType::Control(ControlInstruction::Iny, AddressMode::Implied))
    } else if op == 0xC9 {
        Some(InstructionType::Alu(AluInstruction::Cmp, AddressMode::Imm))
    } else if op == 0xCA {
        Some(InstructionType::Rmw(RmwInstruction::Dex, AddressMode::Implied))
    } else if op == 0xCC {
        Some(InstructionType::Control(ControlInstruction::Cpy, AddressMode::Abs))
    } else if op == 0xCD {
        Some(InstructionType::Alu(AluInstruction::Cmp, AddressMode::Abs))
    } else if op == 0xCE {
        Some(InstructionType::Rmw(RmwInstruction::Dec, AddressMode::Abs))
    } else if op == 0xD0 {
        Some(InstructionType::Control(ControlInstruction::Bne, AddressMode::Rel))
    } else if op == 0xD1 {
        Some(InstructionType::Alu(AluInstruction::Cmp, AddressMode::IndY))
    } else if op == 0xD5 {
        Some(InstructionType::Alu(AluInstruction::Cmp, AddressMode::ZpgX))
    } else if op == 0xD6 {
        Some(InstructionType::Rmw(RmwInstruction::Dec, AddressMode::ZpgX))
    } else if op == 0xD8 {
        Some(InstructionType::Control(ControlInstruction::Cld, AddressMode::Implied))
    } else if op == 0xD9 {
        Some(InstructionType::Alu(AluInstruction::Cmp, AddressMode::AbsY))
    } else if op == 0xDA {
        Some(InstructionType::Nop(AddressMode::Implied))
    } else if op == 0xDD {
        Some(InstructionType::Alu(AluInstruction::Cmp, AddressMode::AbsX))
    } else if op == 0xDE {
        Some(InstructionType::Rmw(RmwInstruction::Dec, AddressMode::AbsX))
    } else if op == 0xE0 {
        Some(InstructionType::Control(ControlInstruction::Cpx, AddressMode::Imm))
    } else if op == 0xE1 {
        Some(InstructionType::Alu(AluInstruction::Sbc, AddressMode::IndX))
    } else if op == 0xE4 {
        Some(InstructionType::Control(ControlInstruction::Cpx, AddressMode::Zpg))
    } else if op == 0xE5 {
        Some(InstructionType::Alu(AluInstruction::Sbc, AddressMode::Zpg))
    } else if op == 0xE6 {
        Some(InstructionType::Rmw(RmwInstruction::Inc, AddressMode::Zpg))
    } else if op == 0xE8 {
        Some(InstructionType::Control(ControlInstruction::Inx, AddressMode::Implied))
    } else if op == 0xE9 {
        Some(InstructionType::Alu(AluInstruction::Sbc, AddressMode::Imm))
    } else if op == 0xEA {
        Some(InstructionType::Nop(AddressMode::Implied))
    } else if op == 0xEC {
        Some(InstructionType::Control(ControlInstruction::Cpx, AddressMode::Abs))
    } else if op == 0xED {
        Some(InstructionType::Alu(AluInstruction::Sbc, AddressMode::Abs))
    } else if op == 0xEE {
        Some(InstructionType::Rmw(RmwInstruction::Inc, AddressMode::Abs))
    } else if op == 0xF0 {
        Some(InstructionType::Control(ControlInstruction::Beq, AddressMode::Rel))
    } else if op == 0xF1 {
        Some(InstructionType::Alu(AluInstruction::Sbc, AddressMode::IndY))
    } else if op == 0xF5 {
        Some(InstructionType::Alu(AluInstruction::Sbc, AddressMode::ZpgX))
    } else if op == 0xF6 {
        Some(InstructionType::Rmw(RmwInstruction::Inc, AddressMode::ZpgX))
    } else if op == 0xF8 {
        Some(InstructionType::Control(ControlInstruction::Sed, AddressMode::Implied))
    } else if op == 0xF9 {
        Some(InstructionType::Alu(AluInstruction::Sbc, AddressMode::AbsY))
    } else if op == 0xFA {
        Some(InstructionType::Nop(AddressMode::Implied))
    } else if op == 0xFD {
        Some(InstructionType::Alu(AluInstruction::Sbc, AddressMode::AbsX))
    } else if op == 0xFE {
        Some(InstructionType::Rmw(RmwInstruction::Inc, AddressMode::AbsX))
    } else {
        None
    }
}

impl InstructionType {
    /// Looks an opcode up in the fixed decode table.
    pub fn decode(op: u8) -> (r: Option<InstructionType>)
        ensures
            r == spec_decode(op),
    {
        match op {
        0x00 => Some(InstructionType::Control(ControlInstruction::Brk, AddressMode::Implied)),
        0x01 => Some(InstructionType::Alu(AluInstruction::Ora, AddressMode::IndX)),
        0x05 => Some(InstructionType::Alu(AluInstruction::Ora, AddressMode::Zpg)),
        0x06 => Some(InstructionType::Rmw(RmwInstruction::Asl, AddressMode::Zpg)),
        0x08 => Some(InstructionType::Control(ControlInstruction::Php, AddressMode::Implied)),
        0x09 => Some(InstructionType::Alu(AluInstruction::Ora, AddressMode::Imm)),
        0x0A => Some(InstructionType::Rmw(RmwInstruction::Asl, AddressMode::Acc)),
        0x0D => Some(InstructionType::Alu(AluInstruction::Ora, AddressMode::Abs)),
        0x0E => Some(InstructionType::Rmw(RmwInstruction::Asl, AddressMode::Abs)),
        0x10 => Some(InstructionType::Control(ControlInstruction::Bpl, AddressMode::Rel)),
        0x11 => Some(InstructionType::Alu(AluInstruction::Ora, AddressMode::IndY)),
        0x15 => Some(InstructionType::Alu(AluInstruction::Ora, AddressMode::ZpgX)),
        0x16 => Some(InstructionType::Rmw(RmwInstruction::Asl, AddressMode::ZpgX)),
        0x18 => Some(InstructionType::Control(ControlInstruction::Clc, AddressMode::Implied)),
        0x19 => Some(InstructionType::Alu(AluInstruction::Ora, AddressMode::AbsY)),
        0x1A => Some(InstructionType::Nop(AddressMode::Implied)),
        0x1D => Some(InstructionType::Alu(AluInstruction::Ora, AddressMode::AbsX)),
        0x1E => Some(InstructionType::Rmw(RmwInstruction::Asl, AddressMode::AbsX)),
        0x20 => Some(InstructionType::Control(ControlInstruction::Jsr, AddressMode::Abs)),
        0x21 => Some(InstructionType::Alu(AluInstruction::And, AddressMode::IndX)),
        0x24 => Some(InstructionType::Control(ControlInstruction::Bit, AddressMode::Zpg)),
        0x25 => Some(InstructionType::Alu(AluInstruction::And, AddressMode::Zpg)),
        0x26 => Some(InstructionType::Rmw(RmwInstruction::Rol, AddressMode::Zpg)),
        0x28 => Some(InstructionType::Control(ControlInstruction::Plp, AddressMode::Implied)),
        0x29 => Some(InstructionType::Alu(AluInstruction::And, AddressMode::Imm)),
        0x2A => Some(InstructionType::Rmw(RmwInstruction::Rol, AddressMode::Acc)),
        0x2C => Some(InstructionType::Control(ControlInstruction::Bit, AddressMode::Abs)),
        0x2D => Some(InstructionType::Alu(AluInstruction::And, AddressMode::Abs)),
        0x2E => Some(InstructionType::Rmw(RmwInstruction::Rol, AddressMode::Abs)),
        0x30 => Some(InstructionType::Control(ControlInstruction::Bmi, AddressMode::Rel)),
        0x31 => Some(InstructionType::Alu(AluInstruction::And, AddressMode::IndY)),
        0x35 => Some(InstructionType::Alu(AluInstruction::And, AddressMode::ZpgX)),
        0x36 => Some(InstructionType::Rmw(RmwInstruction::Rol, AddressMode::ZpgX)),
        0x38 => Some(InstructionType::Control(ControlInstruction::Sec, AddressMode::Implied)),
        0x39 => Some(InstructionType::Alu(AluInstruction::And, AddressMode::AbsY)),
        0x3A => Some(InstructionType::Nop(AddressMode::Implied)),
        0x3D => Some(InstructionType::Alu(AluInstruction::And, AddressMode::AbsX)),
        0x3E => Some(InstructionType::Rmw(RmwInstruction::Rol, AddressMode::AbsX)),
        0x40 => Some(InstructionType::Control(ControlInstruction::Rti, AddressMode::Implied)),
        0x41 => Some(InstructionType::Alu(AluInstruction::Eor, AddressMode::IndX)),
        0x45 => Some(InstructionType::Alu(AluInstruction::Eor, AddressMode::Zpg)),
        0x46 => Some(InstructionType::Rmw(RmwInstruction::Lsr, AddressMode::Zpg)),
        0x48 => Some(InstructionType::Control(ControlInstruction::Pha, AddressMode::Implied)),
        0x49 => Some(InstructionType::Alu(AluInstruction::Eor, AddressMode::Imm)),
        0x4A => Some(InstructionType::Rmw(RmwInstruction::Lsr, AddressMode::Acc)),
        0x4C => Some(InstructionType::Control(ControlInstruction::Jmp, AddressMode::Abs)),
        0x4D => Some(InstructionType::Alu(AluInstruction::Eor, AddressMode::Abs)),
        0x4E => Some(InstructionType::Rmw(RmwInstruction::Lsr, AddressMode::Abs)),
        0x50 => Some(InstructionType::Control(ControlInstruction::Bvc, AddressMode::Rel)),
        0x51 => Some(InstructionType::Alu(AluInstruction::Eor, AddressMode::IndY)),
        0x55 => Some(InstructionType::Alu(AluInstruction::Eor, AddressMode::ZpgX)),
        0x56 => Some(InstructionType::Rmw(RmwInstruction::Lsr, AddressMode::ZpgX)),
        0x58 => Some(InstructionType::Control(ControlInstruction::Cli, AddressMode::Implied)),
        0x59 => Some(InstructionType::Alu(AluInstruction::Eor, AddressMode::AbsY)),
        0x5A => Some(InstructionType::Nop(AddressMode::Implied)),
        0x5D => Some(InstructionType::Alu(AluInstruction::Eor, AddressMode::AbsX)),
        0x5E => Some(InstructionType::Rmw(RmwInstruction::Lsr, AddressMode::AbsX)),
        0x60 => Some(InstructionType::Control(ControlInstruction::Rts, AddressMode::Implied)),
        0x61 => Some(InstructionType::Alu(AluInstruction::Adc, AddressMode::IndX)),
        0x65 => Some(InstructionType::Alu(AluInstruction::Adc, AddressMode::Zpg)),
        0x66 => Some(InstructionType::Rmw(RmwInstruction::Ror, AddressMode::Zpg)),
        0x68 => Some(InstructionType::Control(ControlInstruction::Pla, AddressMode::Implied)),
        0x69 => Some(InstructionType::Alu(AluInstruction::Adc, AddressMode::Imm)),
        0x6A => Some(InstructionType::Rmw(RmwInstruction::Ror, AddressMode::Acc)),
        0x6C => Some(InstructionType::Control(ControlInstruction::Jmp, AddressMode::Ind)),
        0x6D => Some(InstructionType::Alu(AluInstruction::Adc, AddressMode::Abs)),
        0x6E => Some(InstructionType::Rmw(RmwInstruction::Ror, AddressMode::Abs)),
        0x70 => Some(InstructionType::Control(ControlInstruction::Bvs, AddressMode::Rel)),
        0x71 => Some(InstructionType::Alu(AluInstruction::Adc, AddressMode::IndY)),
        0x75 => Some(InstructionType::Alu(AluInstruction::Adc, AddressMode::ZpgX)),
        0x76 => Some(InstructionType::Rmw(RmwInstruction::Ror, AddressMode::ZpgX)),
        0x78 => Some(InstructionType::Control(ControlInstruction::Sei, AddressMode::Implied)),
        0x79 => Some(InstructionType::Alu(AluInstruction::Adc, AddressMode::AbsY)),
        0x7A => Some(InstructionType::Nop(AddressMode::Implied)),
        0x7D => Some(InstructionType::Alu(AluInstruction::Adc, AddressMode::AbsX)),
        0x7E => Some(InstructionType::Rmw(RmwInstruction::Ror, AddressMode::AbsX)),
        0x81 => Some(InstructionType::Alu(AluInstruction::Sta, AddressMode::IndX)),
        0x84 => Some(InstructionType::Control(ControlInstruction::Sty, AddressMode::Zpg)),
        0x85 => Some(InstructionType::Alu(AluInstruction::Sta, AddressMode::Zpg)),
        0x86 => Some(InstructionType::Rmw(RmwInstruction::Stx, AddressMode::Zpg)),
        0x88 => Some(InstructionType::Control(ControlInstruction::Dey, AddressMode::Implied)),
        0x8A => Some(InstructionType::Rmw(RmwInstruction::Txa, AddressMode::Implied)),
        0x8C => Some(InstructionType::Control(ControlInstruction::Sty, AddressMode::Abs)),
        0x8D => Some(InstructionType::Alu(AluInstruction::Sta, AddressMode::Abs)),
        0x8E => Some(InstructionType::Rmw(RmwInstruction::Stx, AddressMode::Abs)),
        0x90 => Some(InstructionType::Control(ControlInstruction::Bcc, AddressMode::Rel)),
        0x91 => Some(InstructionType::Alu(AluInstruction::Sta, AddressMode::IndY)),
        0x94 => Some(InstructionType::Control(ControlInstruction::Sty, AddressMode::ZpgX)),
        0x95 => Some(InstructionType::Alu(AluInstruction::Sta, AddressMode::ZpgX)),
        0x96 => Some(InstructionType::Rmw(RmwInstruction::Stx, AddressMode::ZpgY)),
        0x98 => Some(InstructionType::Control(ControlInstruction::Tya, AddressMode::Implied)),
        0x99 => Some(InstructionType::Alu(AluInstruction::Sta, AddressMode::AbsY)),
        0x9A => Some(InstructionType::Rmw(RmwInstruction::Txs, AddressMode::Implied)),
        0x9D => Some(InstructionType::Alu(AluInstruction::Sta, AddressMode::AbsX)),
        0xA0 => Some(InstructionType::Control(ControlInstruction::Ldy, AddressMode::Imm)),
        0xA1 => Some(InstructionType::Alu(AluInstruction::Lda, AddressMode::IndX)),
        0xA2 => Some(InstructionType::Rmw(RmwInstruction::Ldx, AddressMode::Imm)),
        0xA4 => Some(InstructionType::Control(ControlInstruction::Ldy, AddressMode::Zpg)),
        0xA5 => Some(InstructionType::Alu(AluInstruction::Lda, AddressMode::Zpg)),
        0xA6 => Some(InstructionType::Rmw(RmwInstruction::Ldx, AddressMode::Zpg)),
        0xA8 => Some(InstructionType::Control(ControlInstruction::Tay, AddressMode::Implied)),
        0xA9 => Some(InstructionType::Alu(AluInstruction::Lda, AddressMode::Imm)),
        0xAA => Some(InstructionType::Rmw(RmwInstruction::Tax, AddressMode::Implied)),
        0xAC => Some(InstructionType::Control(ControlInstruction::Ldy, AddressMode::Abs)),
        0xAD => Some(InstructionType::Alu(AluInstruction::Lda, AddressMode::Abs)),
        0xAE => Some(InstructionType::Rmw(RmwInstruction::Ldx, AddressMode::Abs)),
        0xB0 => Some(InstructionType::Control(ControlInstruction::Bcs, AddressMode::Rel)),
        0xB1 => Some(InstructionType::Alu(AluInstruction::Lda, AddressMode::IndY)),
        0xB4 => Some(InstructionType::Control(ControlInstruction::Ldy, AddressMode::ZpgX)),
        0xB5 => Some(InstructionType::Alu(AluInstruction::Lda, AddressMode::ZpgX)),
        0xB6 => Some(InstructionType::Rmw(RmwInstruction::Ldx, AddressMode::ZpgY)),
        0xB8 => Some(InstructionType::Control(ControlInstruction::Clv, AddressMode::Implied)),
        0xB9 => Some(InstructionType::Alu(AluInstruction::Lda, AddressMode::AbsY)),
        0xBA => Some(InstructionType::Rmw(RmwInstruction::Tsx, AddressMode::Implied)),
        0xBC => Some(InstructionType::Control(ControlInstruction::Ldy, AddressMode::AbsX)),
        0xBD => Some(InstructionType::Alu(AluInstruction::Lda, AddressMode::AbsX)),
        0xBE => Some(InstructionType::Rmw(RmwInstruction::Ldx, AddressMode::AbsY)),
        0xC0 => Some(InstructionType::Control(ControlInstruction::Cpy, AddressMode::Imm)),
        0xC1 => Some(InstructionType::Alu(AluInstruction::Cmp, AddressMode::IndX)),
        0xC4 => Some(InstructionType::Control(ControlInstruction::Cpy, AddressMode::Zpg)),
        0xC5 => Some(InstructionType::Alu(AluInstruction::Cmp, AddressMode::Zpg)),
        0xC6 => Some(InstructionType::Rmw(RmwInstruction::Dec, AddressMode::Zpg)),
        0xC8 => Some(InstructionType::Control(ControlInstruction::Iny, AddressMode::Implied)),
        0xC9 => Some(InstructionType::Alu(AluInstruction::Cmp, AddressMode::Imm)),
        0xCA => Some(InstructionType::Rmw(RmwInstruction::Dex, AddressMode::Implied)),
        0xCC => Some(InstructionType::Control(ControlInstruction::Cpy, AddressMode::Abs)),
        0xCD => Some(InstructionType::Alu(AluInstruction::Cmp, AddressMode::Abs)),
        0xCE => Some(InstructionType::Rmw(RmwInstruction::Dec, AddressMode::Abs)),
        0xD0 => Some(InstructionType::Control(ControlInstruction::Bne, AddressMode::Rel)),
        0xD1 => Some(InstructionType::Alu(AluInstruction::Cmp, AddressMode::IndY)),
        0xD5 => Some(InstructionType::Alu(AluInstruction::Cmp, AddressMode::ZpgX)),
        0xD6 => Some(InstructionType::Rmw(RmwInstruction::Dec, AddressMode::ZpgX)),
        0xD8 => Some(InstructionType::Control(ControlInstruction::Cld, AddressMode::Implied)),
        0xD9 => Some(InstructionType::Alu(AluInstruction::Cmp, AddressMode::AbsY)),
        0xDA => Some(InstructionType::Nop(AddressMode::Implied)),
        0xDD => Some(InstructionType::Alu(AluInstruction::Cmp, AddressMode::AbsX)),
        0xDE => Some(InstructionType::Rmw(RmwInstruction::Dec, AddressMode::AbsX)),
        0xE0 => Some(InstructionType::Control(ControlInstruction::Cpx, AddressMode::Imm)),
        0xE1 => Some(InstructionType::Alu(AluInstruction::Sbc, AddressMode::IndX)),
        0xE4 => Some(InstructionType::Control(ControlInstruction::Cpx, AddressMode::Zpg)),
        0xE5 => Some(InstructionType::Alu(AluInstruction::Sbc, AddressMode::Zpg)),
        0xE6 => Some(InstructionType::Rmw(RmwInstruction::Inc, AddressMode::Zpg)),
        0xE8 => Some(InstructionType::Control(ControlInstruction::Inx, AddressMode::Implied)),
        0xE9 => Some(InstructionType::Alu(AluInstruction::Sbc, AddressMode::Imm)),
        0xEA => Some(InstructionType::Nop(AddressMode::Implied)),
        0xEC => Some(InstructionType::Control(ControlInstruction::Cpx, AddressMode::Abs)),
        0xED => Some(InstructionType::Alu(AluInstruction::Sbc, AddressMode::Abs)),
        0xEE => Some(InstructionType::Rmw(RmwInstruction::Inc, AddressMode::Abs)),
        0xF0 => Some(InstructionType::Control(ControlInstruction::Beq, AddressMode::Rel)),
        0xF1 => Some(InstructionType::Alu(AluInstruction::Sbc, AddressMode::IndY)),
        0xF5 => Some(InstructionType::Alu(AluInstruction::Sbc, AddressMode::ZpgX)),
        0xF6 => Some(InstructionType::Rmw(RmwInstruction::Inc, AddressMode::ZpgX)),
        0xF8 => Some(InstructionType::Control(ControlInstruction::Sed, AddressMode::Implied)),
        0xF9 => Some(InstructionType::Alu(AluInstruction::Sbc, AddressMode::AbsY)),
        0xFA => Some(InstructionType::Nop(AddressMode::Implied)),
        0xFD => Some(InstructionType::Alu(AluInstruction::Sbc, AddressMode::AbsX)),
        0xFE => Some(InstructionType::Rmw(RmwInstruction::Inc, AddressMode::AbsX)),
            _ => None,
        }
    }
}

/// Whether a mode resolves to a memory address.
pub open spec fn mode_yields_address(mode: AddressMode) -> bool {
    !(mode is Implied || mode is Acc || mode is Imm)
}

/// Whether a mode resolves to no operand.
pub open spec fn mode_yields_none(mode: AddressMode) -> bool {
    mode is Implied || mode is Acc
}

/// The operand kinds each control instruction accepts.
pub open spec fn control_mode_ok(inst: ControlInstruction, mode: AddressMode) -> bool {
    match inst {
        ControlInstruction::Bcc | ControlInstruction::Bcs | ControlInstruction::Beq
            | ControlInstruction::Bmi | ControlInstruction::Bne | ControlInstruction::Bpl
            | ControlInstruction::Bvc | ControlInstruction::Bvs | ControlInstruction::Jmp
            | ControlInstruction::Jsr | ControlInstruction::Sty | ControlInstruction::Bit
            => mode_yields_address(mode),
        ControlInstruction::Cpx | ControlInstruction::Cpy | ControlInstruction::Ldy
            => !mode_yields_none(mode),
        _ => mode_yields_none(mode),
    }
}

/// The operand kinds each control instruction accepts, at the
/// resolved-operand level.
pub open spec fn control_op_ok(inst: ControlInstruction, op: Operand) -> bool {
    match inst {
        ControlInstruction::Bcc | ControlInstruction::Bcs | ControlInstruction::Beq
            | ControlInstruction::Bmi | ControlInstruction::Bne | ControlInstruction::Bpl
            | ControlInstruction::Bvc | ControlInstruction::Bvs | ControlInstruction::Jmp
            | ControlInstruction::Jsr | ControlInstruction::Sty | ControlInstruction::Bit
            => op is Address,
        ControlInstruction::Cpx | ControlInstruction::Cpy | ControlInstruction::Ldy => !(
        op is Implied),
        _ => op is Implied,
    }
}

/// The operand kinds each RMW instruction accepts, at the
/// resolved-operand level.
pub open spec fn rmw_op_ok(inst: RmwInstruction, op: Operand) -> bool {
    match inst {
        RmwInstruction::Asl | RmwInstruction::Lsr | RmwInstruction::Rol | RmwInstruction::Ror => !(
        op is Value),
        RmwInstruction::Dec | RmwInstruction::Inc | RmwInstruction::Stx => op is Address,
        RmwInstruction::Ldx => !(op is Implied),
        _ => op is Implied,
    }
}

/// The operand kinds each ALU instruction accepts.
pub open spec fn alu_mode_ok(inst: AluInstruction, mode: AddressMode) -> bool {
    match inst {
        AluInstruction::Sta => mode_yields_address(mode),
        _ => !mode_yields_none(mode),
    }
}

/// The operand kinds each RMW instruction accepts.
pub open spec fn rmw_mode_ok(inst: RmwInstruction, mode: AddressMode) -> bool {
    match inst {
        RmwInstruction::Asl | RmwInstruction::Lsr | RmwInstruction::Rol | RmwInstruction::Ror
            => !(mode is Imm),
        RmwInstruction::Dec | RmwInstruction::Inc | RmwInstruction::Stx
            => mode_yields_address(mode),
        RmwInstruction::Ldx => !mode_yields_none(mode),
        _ => mode_yields_none(mode),
    }
}

/// Every entry of the decode table pairs its instruction with a mode
/// the handler accepts: an operand/addressing-mode mismatch cannot
/// be decoded, so that class of fault is impossible.
#[verifier::rlimit(100)]
#[verifier::spinoff_prover]
pub proof fn lemma_decode_modes(op: u8)
    ensures
        spec_decode(op) matches Some(InstructionType::Control(i, m)) ==> control_mode_ok(i, m),
        spec_decode(op) matches Some(InstructionType::Alu(i, m)) ==> alu_mode_ok(i, m),
        spec_decode(op) matches Some(InstructionType::Rmw(i, m)) ==> rmw_mode_ok(i, m),
{
}


/// A register-only outcome: the bus untouched and the given cycle
/// count returned.
pub open spec fn reg_only(
    pre_m: MemoryMap,
    post_m: MemoryMap,
    res: Result<u32, EmuError>,
    c: u32,
) -> bool {
    post_m == pre_m && res == Ok::<u32, EmuError>(c)
}

/// A taken/not-taken branch outcome.
pub open spec fn branch_rel(
    cond: bool,
    op: Operand,
    pre_r: CpuRegisters,
    pre_m: MemoryMap,
    post_r: CpuRegisters,
    post_m: MemoryMap,
    res: Result<u32, EmuError>,
) -> bool {
    post_m == pre_m && (op matches Operand::Address(addr) ==> res == Ok::<u32, EmuError>(
        if cond {
            if spec_page_cross(pre_r.pc, addr) {
                2u32
            } else {
                1u32
            }
        } else {
            0u32
        },
    ) && post_r == (CpuRegisters {
        pc: if cond {
            addr
        } else {
            pre_r.pc
        },
        ..pre_r
    }))
}

/// A flag set or clear.
pub open spec fn flag_rel(
    pre_m: MemoryMap,
    post_m: MemoryMap,
    pre_r: CpuRegisters,
    post_r: CpuRegisters,
    new_p: Status,
    res: Result<u32, EmuError>,
) -> bool {
    reg_only(pre_m, post_m, res, 0) && post_r == (CpuRegisters { p: new_p, ..pre_r })
}

/// A load of value `v` into a register with the zero/negative flags.
pub open spec fn loaded_flags(pre_p: Status, v: u8) -> Status {
    Status { zero: v == 0, negative: n_flag(v), ..pre_p }
}

/// A store handler's outcome: the value written through the bus with
/// one base cycle plus the write's hidden cost.
pub open spec fn store_rel(
    op: Operand,
    v: u8,
    pre_r: CpuRegisters,
    pre_m: MemoryMap,
    post_r: CpuRegisters,
    post_m: MemoryMap,
    res: Result<u32, EmuError>,
) -> bool {
    post_r == pre_r && (op matches Operand::Address(addr) ==> (res matches Ok(n) ==> n >= 1
        && bus_write_rel(&pre_m, &post_m, addr, v, Ok((n - 1) as u32))) && (res matches Err(e)
        ==> bus_write_rel(&pre_m, &post_m, addr, v, Err(e))))
}

/// A shift or rotate's result byte and carry-out.
pub open spec fn shift_result(inst: RmwInstruction, v: u8, cin: bool) -> (u8, bool) {
    match inst {
        RmwInstruction::Asl => (((v << 1) as u8), v & 0x80 != 0),
        RmwInstruction::Rol => ((((v << 1) | (if cin {
            1u8
        } else {
            0u8
        })) as u8), v & 0x80 != 0),
        RmwInstruction::Ror => ((((v >> 1) | (if cin {
            0x80u8
        } else {
            0u8
        })) as u8), v & 0x01 == 1),
        RmwInstruction::Lsr => (((v >> 1) as u8), v & 0x01 == 1),
        _ => (v, cin),
    }
}

/// A read-modify-write outcome at a memory operand: flags from the
/// result, the result written back through the same address after
/// the read's side effects.
pub open spec fn rmw_mem_rel(
    addr: u16,
    res8: u8,
    flags: Status,
    pre_r: CpuRegisters,
    pre_m: MemoryMap,
    post_r: CpuRegisters,
    post_m: MemoryMap,
    res: Result<u32, EmuError>,
) -> bool {
    post_r == (CpuRegisters { p: flags, ..pre_r }) && (res matches Ok(n) ==> 3 <= n <= 516
        && bus_write_rel(&bus_read_post(&pre_m, addr), &post_m, addr, res8, Ok((n - 3) as u32))) && (
    res matches Err(e) ==> bus_write_rel(&bus_read_post(&pre_m, addr), &post_m, addr, res8, Err(e)))
}

/// The shared interrupt entry's outcome (BRK and NMI): the return
/// address and flag byte pushed, interrupt-disable set, the program
/// counter loaded from the handler vector.
pub open spec fn interrupt_rel(
    is_brk: bool,
    pre_r: CpuRegisters,
    pre_m: MemoryMap,
    post_r: CpuRegisters,
    post_m: MemoryMap,
) -> bool {
    let ret: u16 = if is_brk {
        winc16(pre_r.pc)
    } else {
        pre_r.pc
    };
    let pushed: u8 = if is_brk {
        status_bits(pre_r.p) | 0x30
    } else {
        status_bits(pre_r.p) | 0x20
    };
    let vector: u16 = if is_brk {
        0xFFFE
    } else {
        0xFFFA
    };
    post_m.ram@ == pre_m.ram@.update(0x100 + pre_r.s, ((ret & 0xFF00) >> 8) as u8).update(
        0x100 + wdec8(pre_r.s),
        (ret & 0x00FF) as u8,
    ).update(0x100 + wdec8(wdec8(pre_r.s)), pushed) && mem_same_but_ram(&pre_m, &post_m) && post_r
        == (CpuRegisters {
        pc: word_from_bytes(bus_read_val(&pre_m, vector), bus_read_val(&pre_m, (vector + 1) as u16)),
        s: wdec8(wdec8(wdec8(pre_r.s))),
        p: Status { it_disable: true, ..pre_r.p },
        ..pre_r
    })
}

/// Each control-group instruction's exact outcome over the resolved
/// operand, mirroring the handlers' contracts.
#[verifier::opaque]
pub open spec fn control_rel(
    inst: ControlInstruction,
    op: Operand,
    pre_r: CpuRegisters,
    pre_m: MemoryMap,
    post_r: CpuRegisters,
    post_m: MemoryMap,
    res: Result<u32, EmuError>,
) -> bool {
    match inst {
        ControlInstruction::Bcc => branch_rel(!pre_r.p.carry, op, pre_r, pre_m, post_r, post_m, res),
        ControlInstruction::Bcs => branch_rel(pre_r.p.carry, op, pre_r, pre_m, post_r, post_m, res),
        ControlInstruction::Beq => branch_rel(pre_r.p.zero, op, pre_r, pre_m, post_r, post_m, res),
        ControlInstruction::Bmi => branch_rel(
            pre_r.p.negative,
            op,
            pre_r,
            pre_m,
            post_r,
            post_m,
            res,
        ),
        ControlInstruction::Bne => branch_rel(!pre_r.p.zero, op, pre_r, pre_m, post_r, post_m, res),
        ControlInstruction::Bpl => branch_rel(
            !pre_r.p.negative,
            op,
            pre_r,
            pre_m,
            post_r,
            post_m,
            res,
        ),
        ControlInstruction::Bvc => branch_rel(
            !pre_r.p.overflow,
            op,
            pre_r,
            pre_m,
            post_r,
            post_m,
            res,
        ),
        ControlInstruction::Bvs => branch_rel(
            pre_r.p.overflow,
            op,
            pre_r,
            pre_m,
            post_r,
            post_m,
            res,
        ),
        ControlInstruction::Bit => operand_read_rel(&pre_m, &post_m, op) && res == Ok::<
            u32,
            EmuError,
        >(1) && ({
            let v = operand_value(&pre_m, op);
            post_r == (CpuRegisters {
                p: Status {
                    zero: (v & pre_r.a) == 0,
                    negative: v & 0x80 != 0,
                    overflow: v & 0x40 != 0,
                    ..pre_r.p
                },
                ..pre_r
            })
        }),
        ControlInstruction::Brk => res == Ok::<u32, EmuError>(6) && interrupt_rel(
            true,
            pre_r,
            pre_m,
            post_r,
            post_m,
        ),
        ControlInstruction::Clc => flag_rel(
            pre_m,
            post_m,
            pre_r,
            post_r,
            Status { carry: false, ..pre_r.p },
            res,
        ),
        ControlInstruction::Cld => flag_rel(
            pre_m,
            post_m,
            pre_r,
            post_r,
            Status { decimal: false, ..pre_r.p },
            res,
        ),
        ControlInstruction::Cli => flag_rel(
            pre_m,
            post_m,
            pre_r,
            post_r,
            Status { it_disable: false, ..pre_r.p },
            res,
        ),
        ControlInstruction::Clv => flag_rel(
            pre_m,
            post_m,
            pre_r,
            post_r,
            Status { overflow: false, ..pre_r.p },
            res,
        ),
        ControlInstruction::Sec => flag_rel(
            pre_m,
            post_m,
            pre_r,
            post_r,
            Status { carry: true, ..pre_r.p },
            res,
        ),
        ControlInstruction::Sed => flag_rel(
            pre_m,
            post_m,
            pre_r,
            post_r,
            Status { decimal: true, ..pre_r.p },
            res,
        ),
        ControlInstruction::Sei => flag_rel(
            pre_m,
            post_m,
            pre_r,
            post_r,
            Status { it_disable: true, ..pre_r.p },
            res,
        ),
        ControlInstruction::Cpx => operand_read_rel(&pre_m, &post_m, op) && res == Ok::<
            u32,
            EmuError,
        >(operand_cycles(op)) && ({
            let v = operand_value(&pre_m, op);
            let d = wsub8(pre_r.x, v);
            post_r == (CpuRegisters {
                p: Status {
                    zero: d == 0,
                    negative: n_flag(d),
                    carry: v <= pre_r.x,
                    ..pre_r.p
                },
                ..pre_r
            })
        }),
        ControlInstruction::Cpy => operand_read_rel(&pre_m, &post_m, op) && res == Ok::<
            u32,
            EmuError,
        >(operand_cycles(op)) && ({
            let v = operand_value(&pre_m, op);
            let d = wsub8(pre_r.y, v);
            post_r == (CpuRegisters {
                p: Status {
                    zero: d == 0,
                    negative: n_flag(d),
                    carry: v <= pre_r.y,
                    ..pre_r.p
                },
                ..pre_r
            })
        }),
        ControlInstruction::Ldy => operand_read_rel(&pre_m, &post_m, op) && res == Ok::<
            u32,
            EmuError,
        >(operand_cycles(op)) && ({
            let v = operand_value(&pre_m, op);
            post_r == (CpuRegisters { y: v, p: loaded_flags(pre_r.p, v), ..pre_r })
        }),
        ControlInstruction::Dey => reg_only(pre_m, post_m, res, 0) && post_r == (CpuRegisters {
            y: wdec8(pre_r.y),
            p: loaded_flags(pre_r.p, wdec8(pre_r.y)),
            ..pre_r
        }),
        ControlInstruction::Inx => reg_only(pre_m, post_m, res, 0) && post_r == (CpuRegisters {
            x: winc8(pre_r.x),
            p: loaded_flags(pre_r.p, winc8(pre_r.x)),
            ..pre_r
        }),
        ControlInstruction::Iny => reg_only(pre_m, post_m, res, 0) && post_r == (CpuRegisters {
            y: winc8(pre_r.y),
            p: loaded_flags(pre_r.p, winc8(pre_r.y)),
            ..pre_r
        }),
        ControlInstruction::Tay => reg_only(pre_m, post_m, res, 0) && post_r == (CpuRegisters {
            y: pre_r.a,
            p: loaded_flags(pre_r.p, pre_r.a),
            ..pre_r
        }),
        ControlInstruction::Tya => reg_only(pre_m, post_m, res, 0) && post_r == (CpuRegisters {
            a: pre_r.y,
            p: loaded_flags(pre_r.p, pre_r.y),
            ..pre_r
        }),
        ControlInstruction::Jmp => reg_only(pre_m, post_m, res, 0) && (op matches Operand::Address(
            addr,
        ) ==> post_r == (CpuRegisters { pc: addr, ..pre_r })),
        ControlInstruction::Jsr => res == Ok::<u32, EmuError>(3) && mem_same_but_ram(&pre_m, &post_m)
            && (op matches Operand::Address(addr) ==> ({
            let ret = wdec16(pre_r.pc);
            post_m.ram@ == pre_m.ram@.update(0x100 + pre_r.s, ((ret & 0xFF00) >> 8) as u8).update(
                0x100 + wdec8(pre_r.s),
                (ret & 0x00FF) as u8,
            ) && post_r == (CpuRegisters { pc: addr, s: wdec8(wdec8(pre_r.s)), ..pre_r })
        })),
        ControlInstruction::Rts => res == Ok::<u32, EmuError>(5) && post_m.ram@ == pre_m.ram@
            && mem_same_but_ram(&pre_m, &post_m) && ({
            let lo = pre_m.ram@[0x100 + winc8(pre_r.s)];
            let hi = pre_m.ram@[0x100 + winc8(winc8(pre_r.s))];
            post_r == (CpuRegisters {
                pc: winc16(word_from_bytes(lo, hi)),
                s: winc8(winc8(pre_r.s)),
                ..pre_r
            })
        }),
        ControlInstruction::Pha => res == Ok::<u32, EmuError>(2) && mem_same_but_ram(&pre_m, &post_m)
            && post_m.ram@ == pre_m.ram@.update(0x100 + pre_r.s, pre_r.a) && post_r
            == (CpuRegisters { s: wdec8(pre_r.s), ..pre_r }),
        ControlInstruction::Php => res == Ok::<u32, EmuError>(2) && mem_same_but_ram(&pre_m, &post_m)
            && post_m.ram@ == pre_m.ram@.update(0x100 + pre_r.s, status_bits(pre_r.p) | 0x30)
            && post_r == (CpuRegisters { s: wdec8(pre_r.s), ..pre_r }),
        ControlInstruction::Pla => res == Ok::<u32, EmuError>(3) && post_m.ram@ == pre_m.ram@
            && mem_same_but_ram(&pre_m, &post_m) && ({
            let v = pre_m.ram@[0x100 + winc8(pre_r.s)];
            post_r == (CpuRegisters {
                a: v,
                s: winc8(pre_r.s),
                p: loaded_flags(pre_r.p, v),
                ..pre_r
            })
        }),
        ControlInstruction::Plp => res == Ok::<u32, EmuError>(3) && post_m.ram@ == pre_m.ram@
            && mem_same_but_ram(&pre_m, &post_m) && post_r == (CpuRegisters {
            s: winc8(pre_r.s),
            p: spec_status_from_bits(pre_m.ram@[0x100 + winc8(pre_r.s)]),
            ..pre_r
        }),
        ControlInstruction::Rti => res == Ok::<u32, EmuError>(5) && post_m.ram@ == pre_m.ram@
            && mem_same_but_ram(&pre_m, &post_m) && ({
            let flags = spec_status_from_bits(pre_m.ram@[0x100 + winc8(pre_r.s)]);
            let lo = pre_m.ram@[0x100 + winc8(winc8(pre_r.s))];
            let hi = pre_m.ram@[0x100 + winc8(winc8(winc8(pre_r.s)))];
            post_r == (CpuRegisters {
                pc: word_from_bytes(lo, hi),
                s: winc8(winc8(winc8(pre_r.s))),
                p: Status { brk: pre_r.p.brk, ignored: true, ..flags },
                ..pre_r
            })
        }),
        ControlInstruction::Sty => store_rel(op, pre_r.y, pre_r, pre_m, post_r, post_m, res),
    }
}

/// Each ALU-group instruction's exact outcome over the resolved
/// operand.
#[verifier::opaque]
pub open spec fn alu_rel(
    inst: AluInstruction,
    op: Operand,
    pre_r: CpuRegisters,
    pre_m: MemoryMap,
    post_r: CpuRegisters,
    post_m: MemoryMap,
    res: Result<u32, EmuError>,
) -> bool {
    match inst {
        AluInstruction::Ora => operand_read_rel(&pre_m, &post_m, op) && res == Ok::<u32, EmuError>(
            operand_cycles(op),
        ) && ({
            let v = operand_value(&pre_m, op);
            post_r == (CpuRegisters {
                a: pre_r.a | v,
                p: loaded_flags(pre_r.p, pre_r.a | v),
                ..pre_r
            })
        }),
        AluInstruction::And => operand_read_rel(&pre_m, &post_m, op) && res == Ok::<u32, EmuError>(
            operand_cycles(op),
        ) && ({
            let v = operand_value(&pre_m, op);
            post_r == (CpuRegisters {
                a: pre_r.a & v,
                p: loaded_flags(pre_r.p, pre_r.a & v),
                ..pre_r
            })
        }),
        AluInstruction::Eor => operand_read_rel(&pre_m, &post_m, op) && res == Ok::<u32, EmuError>(
            operand_cycles(op),
        ) && ({
            let v = operand_value(&pre_m, op);
            post_r == (CpuRegisters {
                a: pre_r.a ^ v,
                p: loaded_flags(pre_r.p, pre_r.a ^ v),
                ..pre_r
            })
        }),
        AluInstruction::Adc => operand_read_rel(&pre_m, &post_m, op) && res == Ok::<u32, EmuError>(
            operand_cycles(op),
        ) && post_r == adc_effect(pre_r, operand_value(&pre_m, op)),
        AluInstruction::Sbc => operand_read_rel(&pre_m, &post_m, op) && res == Ok::<u32, EmuError>(
            operand_cycles(op),
        ) && post_r == adc_effect(pre_r, !operand_value(&pre_m, op)),
        AluInstruction::Lda => operand_read_rel(&pre_m, &post_m, op) && res == Ok::<u32, EmuError>(
            operand_cycles(op),
        ) && ({
            let v = operand_value(&pre_m, op);
            post_r == (CpuRegisters { a: v, p: loaded_flags(pre_r.p, v), ..pre_r })
        }),
        AluInstruction::Cmp => operand_read_rel(&pre_m, &post_m, op) && res == Ok::<u32, EmuError>(
            operand_cycles(op),
        ) && ({
            let v = operand_value(&pre_m, op);
            let d = wsub8(pre_r.a, v);
            post_r == (CpuRegisters {
                p: Status {
                    zero: d == 0,
                    negative: n_flag(d),
                    carry: v <= pre_r.a,
                    ..pre_r.p
                },
                ..pre_r
            })
        }),
        AluInstruction::Sta => store_rel(op, pre_r.a, pre_r, pre_m, post_r, post_m, res),
    }
}

/// Each RMW-group instruction's exact outcome over the resolved
/// operand.
#[verifier::opaque]
pub open spec fn rmw_rel(
    inst: RmwInstruction,
    op: Operand,
    pre_r: CpuRegisters,
    pre_m: MemoryMap,
    post_r: CpuRegisters,
    post_m: MemoryMap,
    res: Result<u32, EmuError>,
) -> bool {
    match inst {
        RmwInstruction::Asl | RmwInstruction::Rol | RmwInstruction::Ror | RmwInstruction::Lsr => {
            if op is Implied {
                let sr = shift_result(inst, pre_r.a, pre_r.p.carry);
                post_m == pre_m && res == Ok::<u32, EmuError>(1) && post_r == (CpuRegisters {
                    a: sr.0,
                    p: Status {
                        zero: sr.0 == 0,
                        carry: sr.1,
                        negative: if inst is Lsr {
                            false
                        } else {
                            n_flag(sr.0)
                        },
                        ..pre_r.p
                    },
                    ..pre_r
                })
            } else {
                op matches Operand::Address(addr) ==> ({
                    let v = bus_read_val(&pre_m, addr);
                    let sr = shift_result(inst, v, pre_r.p.carry);
                    rmw_mem_rel(
                        addr,
                        sr.0,
                        Status {
                            zero: sr.0 == 0,
                            carry: sr.1,
                            negative: if inst is Lsr {
                                false
                            } else {
                                n_flag(sr.0)
                            },
                            ..pre_r.p
                        },
                        pre_r,
                        pre_m,
                        post_r,
                        post_m,
                        res,
                    )
                })
            }
        },
        RmwInstruction::Inc => op matches Operand::Address(addr) ==> ({
            let v = winc8(bus_read_val(&pre_m, addr));
            rmw_mem_rel(
                addr,
                v,
                loaded_flags(pre_r.p, v),
                pre_r,
                pre_m,
                post_r,
                post_m,
                res,
            )
        }),
        RmwInstruction::Dec => op matches Operand::Address(addr) ==> ({
            let v = wdec8(bus_read_val(&pre_m, addr));
            rmw_mem_rel(
                addr,
                v,
                loaded_flags(pre_r.p, v),
                pre_r,
                pre_m,
                post_r,
                post_m,
                res,
            )
        }),
        RmwInstruction::Ldx => operand_read_rel(&pre_m, &post_m, op) && res == Ok::<u32, EmuError>(
            operand_cycles(op),
        ) && ({
            let v = operand_value(&pre_m, op);
            post_r == (CpuRegisters { x: v, p: loaded_flags(pre_r.p, v), ..pre_r })
        }),
        RmwInstruction::Stx => store_rel(op, pre_r.x, pre_r, pre_m, post_r, post_m, res),
        RmwInstruction::Tax => reg_only(pre_m, post_m, res, 0) && post_r == (CpuRegisters {
            x: pre_r.a,
            p: loaded_flags(pre_r.p, pre_r.a),
            ..pre_r
        }),
        RmwInstruction::Tsx => reg_only(pre_m, post_m, res, 0) && post_r == (CpuRegisters {
            x: pre_r.s,
            p: loaded_flags(pre_r.p, pre_r.s),
            ..pre_r
        }),
        RmwInstruction::Txa => reg_only(pre_m, post_m, res, 0) && post_r == (CpuRegisters {
            a: pre_r.x,
            p: loaded_flags(pre_r.p, pre_r.x),
            ..pre_r
        }),
        RmwInstruction::Txs => reg_only(pre_m, post_m, res, 0) && post_r == (CpuRegisters {
            s: pre_r.x,
            ..pre_r
        }),
        RmwInstruction::Dex => reg_only(pre_m, post_m, res, 0) && post_r == (CpuRegisters {
            x: wdec8(pre_r.x),
            p: loaded_flags(pre_r.p, wdec8(pre_r.x)),
            ..pre_r
        }),
    }
}

/// The page-cross marker a group applies: stores and read-modify-
/// write memory forms take the extra cycle unconditionally.
pub open spec fn forced_cross(d: InstructionType, cross: PageCrossCycle) -> PageCrossCycle {
    let forces = match d {
        InstructionType::Alu(i, _) => i is Sta,
        InstructionType::Rmw(i, _) => i is Asl || i is Dec || i is Inc || i is Lsr || i is Rol
            || i is Ror,
        _ => false,
    };
    if forces && cross is NoPageCross {
        PageCrossCycle::PageCross
    } else {
        cross
    }
}

/// One decoded instruction's outcome from operand resolution through
/// execution: the dispatcher's result is the operand's cycle share
/// plus the instruction's own cycles plus the page-cross extra.
#[verifier::opaque]
pub open spec fn group_step_rel(
    d: InstructionType,
    pre_r: CpuRegisters,
    pre_m: MemoryMap,
    post_r: CpuRegisters,
    post_m: MemoryMap,
    res: Result<u32, EmuError>,
) -> bool {
    let mo = match d {
        InstructionType::Control(_, mo) => mo,
        InstructionType::Alu(_, mo) => mo,
        InstructionType::Rmw(_, mo) => mo,
        InstructionType::Nop(mo) => mo,
    };
    let op = spec_operand(&pre_m, pre_r, mo);
    let m1 = spec_operand_post_mem(&pre_m, pre_r, mo);
    let r1 = CpuRegisters { pc: wadd16(pre_r.pc, mode_bytes(mo)), ..pre_r };
    let extra: u32 = if forced_cross(d, spec_operand_cross(&pre_m, pre_r, mo)) is PageCross {
        1u32
    } else {
        0u32
    };
    match d {
        InstructionType::Control(i, _) => (res matches Ok(n) ==> n >= mode_cycles(mo) + extra
            && control_rel(
            i,
            op,
            r1,
            m1,
            post_r,
            post_m,
            Ok((n - mode_cycles(mo) - extra) as u32),
        )) && (res matches Err(e) ==> control_rel(i, op, r1, m1, post_r, post_m, Err(e))),
        InstructionType::Alu(i, _) => (res matches Ok(n) ==> n >= mode_cycles(mo) + extra
            && alu_rel(i, op, r1, m1, post_r, post_m, Ok((n - mode_cycles(mo) - extra) as u32)))
            && (res matches Err(e) ==> alu_rel(i, op, r1, m1, post_r, post_m, Err(e))),
        InstructionType::Rmw(i, _) => (res matches Ok(n) ==> n >= mode_cycles(mo) + extra
            && rmw_rel(i, op, r1, m1, post_r, post_m, Ok((n - mode_cycles(mo) - extra) as u32)))
            && (res matches Err(e) ==> rmw_rel(i, op, r1, m1, post_r, post_m, Err(e))),
        InstructionType::Nop(_) => res == Ok::<u32, EmuError>((mode_cycles(mo) + 1) as u32)
            && post_m == m1 && post_r == r1,
    }
}

/// The extra cycle bookkeeping for indexed addressing.
#[derive(Clone, Copy, Debug, PartialEq, Eq, Structural)]
pub enum PageCrossCycle {
    NA,
    NoPageCross,
    PageCross,
}

/// What entered the interrupt sequence.
#[derive(Clone, Copy, Debug, PartialEq, Eq, Structural)]
pub enum InteruptSource {
    Irq,
    Brk,
    Nmi,
}

/// The repeated-program-counter halt heuristic for headless runs.
#[derive(Clone, Copy, Debug, PartialEq, Eq, Structural)]
pub struct LoopDetection {
    pub last_pc: u16,
    pub repeats: usize,
}

/// The 6502-family CPU: the register file, the halt heuristic, and
/// the last sampled level of the PPU's NMI line.
pub struct Cpu {
    pub registers: CpuRegisters,
    pub loop_detection: LoopDetection,
    pub last_nmi_level: bool,
}

/// Whether the sampled NMI line shows a rising edge: high now,
/// low at the previous sample.
pub open spec fn spec_nmi_edge(cpu: &Cpu, m: &MemoryMap) -> bool {
    (m.ppu.reg.ppuctrl.nmi && m.ppu.reg.ppustatus.vblank) && !cpu.last_nmi_level
}

/// 16-bit wrapping addition.
pub open spec fn wadd16(a: u16, b: u16) -> u16 {
    (((a + b) as int) % 0x10000) as u16
}

/// 16-bit wrapping addition.
pub fn wadd16_exec(a: u16, b: u16) -> (r: u16)
    ensures
        r == wadd16(a, b),
{
    (((a as u32) + (b as u32)) % 0x10000) as u16
}

impl Cpu {
    /// The power-on state: cleared registers, the stack pointer at
    /// the top of the stack page, only the reserved flag set.
    pub fn new() -> (r: Self)
        ensures
            r.registers == (CpuRegisters {
                a: 0,
                x: 0,
                y: 0,
                pc: 0,
                p: Status {
                    carry: false,
                    zero: false,
                    it_disable: false,
                    decimal: false,
                    brk: false,
                    ignored: true,
                    overflow: false,
                    negative: false,
                },
                s: 0xFF,
            }),
            r.loop_detection == (LoopDetection { last_pc: 0, repeats: 0 }),
            !r.last_nmi_level,
    {
        Cpu {
            registers: CpuRegisters {
                a: 0,
                x: 0,
                y: 0,
                pc: 0,
                p: Status {
                    carry: false,
                    zero: false,
                    it_disable: false,
                    decimal: false,
                    brk: false,
                    ignored: true,
                    overflow: false,
                    negative: false,
                },
                s: 0xFF,
            },
            loop_detection: LoopDetection { last_pc: 0, repeats: 0 },
            last_nmi_level: false,
        }
    }

    /// Loads the program counter from the reset vector at 0xFFFC.
    pub fn initialize(&mut self, mem: &mut MemoryMap)
        requires
            old(mem).wf(),
            old(mem).loaded(),
        ensures
            final(mem).wf(),
            final(mem).loaded(),
            final(mem).ram@ == old(mem).ram@,
            final(mem).apu_reg@ == old(mem).apu_reg@,
            final(mem).apu_test_reg@ == old(mem).apu_test_reg@,
            final(mem).ppu == old(mem).ppu,
            final(mem).inputs == old(mem).inputs,
            final(mem).cartridge == old(mem).cartridge,
            *final(self) == (Cpu {
                registers: CpuRegisters {
                    pc: word_from_bytes(
                        bus_read_val(old(mem), 0xFFFC),
                        bus_read_val(old(mem), 0xFFFD),
                    ),
                    ..old(self).registers
                },
                ..*old(self)
            }),
    {
        self.registers.pc = mem.read_word(0xFFFC);
    }

    /// Reads the byte under the program counter and advances it.
    fn read_byte_pc(&mut self, mem: &mut MemoryMap) -> (r: u8)
        requires
            old(mem).wf(),
            old(mem).loaded(),
        ensures
            final(mem).wf(),
            final(mem).loaded(),
            r == bus_read_val(old(mem), old(self).registers.pc),
            bus_read_rel(old(mem), final(mem), old(self).registers.pc),
            *final(self) == (Cpu {
                registers: CpuRegisters {
                    pc: winc16(old(self).registers.pc),
                    ..old(self).registers
                },
                ..*old(self)
            }),
    {
        let ret = mem.read_byte(self.registers.pc);
        self.registers.pc = if self.registers.pc == 0xFFFF {
            0
        } else {
            self.registers.pc + 1
        };
        ret
    }

    /// Reads the little-endian word under the program counter and
    /// advances it by two.
    fn read_word_pc(&mut self, mem: &mut MemoryMap) -> (r: u16)
        requires
            old(mem).wf(),
            old(mem).loaded(),
        ensures
            final(mem).wf(),
            final(mem).loaded(),
            ({
                let pc = old(self).registers.pc;
                let mid = bus_read_post(old(mem), pc);
                r == word_from_bytes(
                    bus_read_val(old(mem), pc),
                    bus_read_val(&mid, wadd16(pc, 1)),
                ) && *final(mem) == bus_read_post(&mid, wadd16(pc, 1))
            }),
            final(self).registers == (CpuRegisters {
                pc: wadd16(old(self).registers.pc, 2),
                ..old(self).registers
            }),
            final(self).loop_detection == old(self).loop_detection,
            final(self).last_nmi_level == old(self).last_nmi_level,
    {
        let ret = mem.read_word(self.registers.pc);
        self.registers.pc = wadd16_exec(self.registers.pc, 2);
        ret
    }

    /// Reads one byte off the bus.
    fn read_byte(&mut self, mem: &mut MemoryMap, addr: u16) -> (r: u8)
        requires
            old(mem).wf(),
            old(mem).loaded(),
        ensures
            final(mem).wf(),
            final(mem).loaded(),
            r == bus_read_val(old(mem), addr),
            bus_read_rel(old(mem), final(mem), addr),
            *final(self) == *old(self),
    {
        mem.read_byte(addr)
    }

    /// Enters the shared interrupt sequence: pushes the return
    /// address (the incremented program counter plus one for BRK,
    /// unmodified otherwise) high byte first, pushes the flag byte
    /// with the reserved bit forced (and the break bit forced for
    /// BRK only), sets interrupt-disable, and loads the program
    /// counter from the handler vector (0xFFFA for NMI, 0xFFFE
    /// otherwise).
    pub fn enter_interrupt(&mut self, mem: &mut MemoryMap, source: InteruptSource) -> (cycles: u32)
        requires
            old(mem).wf(),
            old(mem).loaded(),
        ensures
            final(mem).wf(),
            final(mem).loaded(),
            mem_same_but_ram(old(mem), final(mem)),
            ({
                let reg = old(self).registers;
                let ret: u16 = if source is Brk {
                    winc16(reg.pc)
                } else {
                    reg.pc
                };
                let pushed: u8 = if source is Brk {
                    status_bits(reg.p) | 0x30
                } else {
                    status_bits(reg.p) | 0x20
                };
                let vector: u16 = if source is Nmi {
                    0xFFFA
                } else {
                    0xFFFE
                };
                final(mem).ram@ == old(mem).ram@.update(
                    0x100 + reg.s,
                    ((ret & 0xFF00) >> 8) as u8,
                ).update(0x100 + wdec8(reg.s), (ret & 0x00FF) as u8).update(
                    0x100 + wdec8(wdec8(reg.s)),
                    pushed,
                ) && *final(self) == (Cpu {
                    registers: CpuRegisters {
                        pc: word_from_bytes(
                            bus_read_val(old(mem), vector),
                            bus_read_val(old(mem), (vector + 1) as u16),
                        ),
                        s: wdec8(wdec8(wdec8(reg.s))),
                        p: Status { it_disable: true, ..reg.p },
                        ..reg
                    },
                    ..*old(self)
                })
            }),
            cycles == 6,
    {
        let return_addr: u16 = match source {
            InteruptSource::Brk => {
                if self.registers.pc == 0xFFFF {
                    0
                } else {
                    self.registers.pc + 1
                }
            },
            _ => self.registers.pc,
        };
        push_stack(&mut self.registers, mem, ((return_addr & 0xFF00) >> 8) as u8);
        push_stack(&mut self.registers, mem, (return_addr & 0x00FF) as u8);

        let p_bits = match source {
            InteruptSource::Brk => self.registers.p.to_bits() | 0x30,
            _ => self.registers.p.to_bits() | 0x20,
        };
        push_stack(&mut self.registers, mem, p_bits);

        let vector: u16 = match source {
            InteruptSource::Nmi => 0xFFFA,
            _ => 0xFFFE,
        };
        let irq_addr = mem.read_word(vector);

        self.registers.p.it_disable = true;
        self.registers.pc = irq_addr;
        6
    }
}

/// Law: BRK immediately followed by RTI returns. With the program
/// counter just past the BRK opcode, the interrupt entry pushes the
/// counter plus one and the flag byte with the break/reserved bits
/// forced; popping them back with RTI restores the program counter
/// to the BRK opcode's address plus two and every flag except the
/// break and reserved bits, which RTI does not reproduce from the
/// pre-BRK state (the reserved bit is forced on, the break bit
/// keeps the handler's value).
pub proof fn lemma_brk_rti_round_trip(
    r0: CpuRegisters,
    ram0: Seq<u8>,
    r1: CpuRegisters,
    ram1: Seq<u8>,
    r2: CpuRegisters,
    vector_pc: u16,
)
    requires
        ram0.len() == 0x800,
        // The BRK entry's effect on RAM and the registers:
        ram1 == ram0.update(0x100 + r0.s, ((winc16(r0.pc) & 0xFF00) >> 8) as u8).update(
            0x100 + wdec8(r0.s),
            (winc16(r0.pc) & 0x00FF) as u8,
        ).update(0x100 + wdec8(wdec8(r0.s)), status_bits(r0.p) | 0x30),
        r1 == (CpuRegisters {
            pc: vector_pc,
            s: wdec8(wdec8(wdec8(r0.s))),
            p: Status { it_disable: true, ..r0.p },
            ..r0
        }),
        // RTI's effect from there:
        r2 == (CpuRegisters {
            pc: word_from_bytes(
                ram1[0x100 + winc8(winc8(r1.s))],
                ram1[0x100 + winc8(winc8(winc8(r1.s)))],
            ),
            s: winc8(winc8(winc8(r1.s))),
            p: Status {
                brk: r1.p.brk,
                ignored: true,
                ..spec_status_from_bits(ram1[0x100 + winc8(r1.s)])
            },
            ..r1
        }),
    ensures
        r2.pc == winc16(r0.pc),
        r2.s == r0.s,
        r2.a == r0.a && r2.x == r0.x && r2.y == r0.y,
        r2.p == (Status { brk: r0.p.brk, ignored: true, ..r0.p }),
{
    lemma_status_bits_roundtrip(r0.p);
    let w = winc16(r0.pc);
    assert(((((w & 0x00FF) as u8) as u16) | (((((w & 0xFF00) >> 8) as u8) as u16) << 8)) == w)
        by (bit_vector);
}


/// One `run_instruction` step's full contract, as a relation between
/// the machine before and after: the NMI-edge entry, the
/// fetch/decode/execute outcome, and the halt-heuristic evolution.
pub open spec fn cpu_step_rel(
    pre_cpu: Cpu,
    pre_m: MemoryMap,
    post_cpu: Cpu,
    post_m: MemoryMap,
    r: Result<(u64, bool), EmuError>,
) -> bool {
    post_m.wf() && post_m.loaded() && post_cpu.last_nmi_level == (pre_m.ppu.reg.ppuctrl.nmi
        && pre_m.ppu.reg.ppustatus.vblank) && (r matches Err(e) ==> e is UnknownOpcode
        || e is ChrWrite) && (spec_nmi_edge(&pre_cpu, &pre_m) ==> r == Ok::<
        (u64, bool),
        EmuError,
    >((7u64, false)) && interrupt_rel(
        false,
        pre_cpu.registers,
        pre_m,
        post_cpu.registers,
        post_m,
    ) && post_cpu.loop_detection == pre_cpu.loop_detection) && (!spec_nmi_edge(&pre_cpu, &pre_m)
        ==> ({
        let pc0 = pre_cpu.registers.pc;
        let opb = bus_read_val(&pre_m, pc0);
        let m1 = bus_read_post(&pre_m, pc0);
        let r1 = CpuRegisters { pc: winc16(pc0), ..pre_cpu.registers };
        match spec_decode(opb) {
            None => r == Err::<(u64, bool), EmuError>(EmuError::UnknownOpcode(opb)) && post_m == m1
                && post_cpu.registers == r1 && post_cpu.loop_detection == pre_cpu.loop_detection,
            Some(d) => (r matches Ok(n) ==> 2 <= n.0 <= 1001 && (exists|c: u32|
                group_step_rel(d, r1, m1, post_cpu.registers, post_m, Ok::<u32, EmuError>(c))
                    && n.0 == (if c == 0 {
                    2u64
                } else {
                    (c + 1) as u64
                }))) && (r matches Err(e) ==> e is ChrWrite && group_step_rel(
                d,
                r1,
                m1,
                post_cpu.registers,
                post_m,
                Err::<u32, EmuError>(e),
            ) && post_cpu.loop_detection == pre_cpu.loop_detection),
        }
    })) && (!spec_nmi_edge(&pre_cpu, &pre_m) && r is Ok ==> post_cpu.loop_detection.last_pc
        == post_cpu.registers.pc && post_cpu.loop_detection.repeats == (
    if post_cpu.registers.pc == pre_cpu.loop_detection.last_pc {
        if pre_cpu.loop_detection.repeats >= 3 {
            pre_cpu.loop_detection.repeats as int
        } else {
            pre_cpu.loop_detection.repeats + 1
        }
    } else {
        0int
    }) && (r matches Ok(n) ==> n.1 == (post_cpu.loop_detection.repeats >= 3)))
}

/// The operand kind each addressing mode resolves to.
pub open spec fn mode_operand_ok(mode: AddressMode, op: Operand) -> bool {
    match mode {
        AddressMode::Implied | AddressMode::Acc => op is Implied,
        AddressMode::Imm => op is Value,
        _ => op is Address,
    }
}

/// The operand byte count each mode fetches at the program counter.
pub open spec fn mode_bytes(mode: AddressMode) -> u16 {
    match mode {
        AddressMode::Implied | AddressMode::Acc => 0u16,
        AddressMode::Imm | AddressMode::Rel | AddressMode::Zpg | AddressMode::ZpgX
            | AddressMode::ZpgY | AddressMode::IndX | AddressMode::IndY => 1u16,
        AddressMode::Abs | AddressMode::AbsX | AddressMode::AbsY | AddressMode::Ind => 2u16,
    }
}

/// The little-endian word fetched at `pc` by two successive bus
/// reads.
pub open spec fn spec_abs_base(m: &MemoryMap, pc: u16) -> u16 {
    word_from_bytes(
        bus_read_val(m, pc),
        bus_read_val(&bus_read_post(m, pc), wadd16(pc, 1)),
    )
}

/// The zero-page pointer byte fetched at `pc`.
pub open spec fn spec_zp_ptr(m: &MemoryMap, pc: u16) -> u8 {
    bus_read_val(m, pc)
}

/// The base address the indirect-indexed mode fetches through its
/// zero-page pointer (both pointer bytes stay in page zero).
pub open spec fn spec_indy_base(m: &MemoryMap, reg: CpuRegisters) -> u16 {
    let m1 = bus_read_post(m, reg.pc);
    let z = spec_zp_ptr(m, reg.pc);
    word_from_bytes(
        bus_read_val(&m1, z as u16),
        bus_read_val(&bus_read_post(&m1, z as u16), winc8(z) as u16),
    )
}

/// The operand each addressing mode resolves to, from the bus state
/// and register file at the start of resolution. Reads chain through
/// `bus_read_post`, so the data-register side effects of pathological
/// fetches are accounted for.
#[verifier::opaque]
pub open spec fn spec_operand(m: &MemoryMap, reg: CpuRegisters, mode: AddressMode) -> Operand {
    let pc = reg.pc;
    match mode {
        AddressMode::Implied | AddressMode::Acc => Operand::Implied,
        AddressMode::Imm => Operand::Value(bus_read_val(m, pc)),
        AddressMode::Zpg => Operand::Address(bus_read_val(m, pc) as u16),
        AddressMode::ZpgX => Operand::Address((((bus_read_val(m, pc) + reg.x) % 256) as u16)),
        AddressMode::ZpgY => Operand::Address((((bus_read_val(m, pc) + reg.y) % 256) as u16)),
        AddressMode::Abs => Operand::Address(spec_abs_base(m, pc)),
        AddressMode::AbsX => Operand::Address(wadd16(spec_abs_base(m, pc), reg.x as u16)),
        AddressMode::AbsY => Operand::Address(wadd16(spec_abs_base(m, pc), reg.y as u16)),
        AddressMode::Ind => {
            // The pointer's low byte increments without carrying into
            // its high byte: the hardware page-wrap defect.
            let p = spec_abs_base(m, pc);
            let m2 = bus_read_post(&bus_read_post(m, pc), wadd16(pc, 1));
            let hi_loc = ((p & 0xFF00) | (winc8((p & 0x00FF) as u8) as u16)) as u16;
            Operand::Address(
                word_from_bytes(
                    bus_read_val(&m2, p),
                    bus_read_val(&bus_read_post(&m2, p), hi_loc),
                ),
            )
        },
        AddressMode::IndX => {
            let m1 = bus_read_post(m, pc);
            let loc = (((spec_zp_ptr(m, pc) + reg.x) % 256) as u8);
            Operand::Address(
                word_from_bytes(
                    bus_read_val(&m1, loc as u16),
                    bus_read_val(&bus_read_post(&m1, loc as u16), winc8(loc) as u16),
                ),
            )
        },
        AddressMode::IndY => Operand::Address(wadd16(spec_indy_base(m, reg), reg.y as u16)),
        AddressMode::Rel => {
            // The signed offset acts on the already-incremented
            // program counter.
            let off = bus_read_val(m, pc);
            let sext: u16 = if off < 0x80 {
                off as u16
            } else {
                (0xFF00u16 | (off as u16)) as u16
            };
            Operand::Address(wadd16(wadd16(pc, 1), sext))
        },
    }
}

/// The page-cross signal resolution reports: only the indexed
/// absolute and indirect-indexed modes signal, exactly when the
/// indexed address leaves the base address's 256-byte page.
#[verifier::opaque]
pub open spec fn spec_operand_cross(
    m: &MemoryMap,
    reg: CpuRegisters,
    mode: AddressMode,
) -> PageCrossCycle {
    match mode {
        AddressMode::AbsX => {
            let base = spec_abs_base(m, reg.pc);
            if spec_page_cross(base, wadd16(base, reg.x as u16)) {
                PageCrossCycle::PageCross
            } else {
                PageCrossCycle::NoPageCross
            }
        },
        AddressMode::AbsY => {
            let base = spec_abs_base(m, reg.pc);
            if spec_page_cross(base, wadd16(base, reg.y as u16)) {
                PageCrossCycle::PageCross
            } else {
                PageCrossCycle::NoPageCross
            }
        },
        AddressMode::IndY => {
            let base = spec_indy_base(m, reg);
            if spec_page_cross(base, wadd16(base, reg.y as u16)) {
                PageCrossCycle::PageCross
            } else {
                PageCrossCycle::NoPageCross
            }
        },
        _ => PageCrossCycle::NA,
    }
}

/// The bus after operand resolution: every fetch's side effects, in
/// fetch order.
#[verifier::opaque]
pub open spec fn spec_operand_post_mem(
    m: &MemoryMap,
    reg: CpuRegisters,
    mode: AddressMode,
) -> MemoryMap {
    let pc = reg.pc;
    match mode {
        AddressMode::Implied | AddressMode::Acc => *m,
        AddressMode::Imm | AddressMode::Rel | AddressMode::Zpg | AddressMode::ZpgX
            | AddressMode::ZpgY => bus_read_post(m, pc),
        AddressMode::Abs | AddressMode::AbsX | AddressMode::AbsY => bus_read_post(
            &bus_read_post(m, pc),
            wadd16(pc, 1),
        ),
        AddressMode::Ind => {
            let p = spec_abs_base(m, pc);
            let m2 = bus_read_post(&bus_read_post(m, pc), wadd16(pc, 1));
            let hi_loc = ((p & 0xFF00) | (winc8((p & 0x00FF) as u8) as u16)) as u16;
            bus_read_post(&bus_read_post(&m2, p), hi_loc)
        },
        AddressMode::IndX => {
            let m1 = bus_read_post(m, pc);
            let loc = (((spec_zp_ptr(m, pc) + reg.x) % 256) as u8);
            bus_read_post(&bus_read_post(&m1, loc as u16), winc8(loc) as u16)
        },
        AddressMode::IndY => {
            let m1 = bus_read_post(m, pc);
            let z = spec_zp_ptr(m, pc);
            bus_read_post(&bus_read_post(&m1, z as u16), winc8(z) as u16)
        },
    }
}

/// The operand byte count each mode fetches (the reported cycle
/// share of the operand).
pub open spec fn mode_cycles(mode: AddressMode) -> u8 {
    match mode {
        AddressMode::Implied | AddressMode::Acc => 0u8,
        AddressMode::Imm | AddressMode::Rel | AddressMode::Zpg => 1u8,
        AddressMode::Abs | AddressMode::AbsX | AddressMode::AbsY | AddressMode::ZpgX
            | AddressMode::ZpgY => 2u8,
        AddressMode::IndY => 3u8,
        AddressMode::Ind | AddressMode::IndX => 4u8,
    }
}

impl Cpu {
    /// Resolves one instruction's operand: fetches the operand bytes
    /// at the program counter, applies the mode's indexing (with the
    /// documented 8-bit zero-page wraparound and the indirect mode's
    /// page-wrap defect), and reports the page-cross cycle signal of
    /// the indexed absolute and indirect-indexed modes.
    #[verifier::rlimit(100)]
    #[verifier::spinoff_prover]
    pub fn parse_operand(&mut self, mem: &mut MemoryMap, mode: AddressMode) -> (r: (
        Operand,
        u8,
        PageCrossCycle,
    ))
        requires
            old(mem).wf(),
            old(mem).loaded(),
        ensures
            final(mem).wf(),
            final(mem).loaded(),
            mode_operand_ok(mode, r.0),
            r.0 == spec_operand(old(mem), old(self).registers, mode),
            r.1 == mode_cycles(mode),
            r.2 == spec_operand_cross(old(mem), old(self).registers, mode),
            *final(mem) == spec_operand_post_mem(old(mem), old(self).registers, mode),
            final(self).loop_detection == old(self).loop_detection,
            final(self).last_nmi_level == old(self).last_nmi_level,
            final(self).registers == (CpuRegisters {
                pc: wadd16(old(self).registers.pc, mode_bytes(mode)),
                ..old(self).registers
            }),
    {
        match mode {
            AddressMode::Implied => {
                let r0 = (Operand::Implied, 0, PageCrossCycle::NA);
                proof {
                    assert(r0.0 == spec_operand(old(mem), old(self).registers, mode) && r0.2
                        == spec_operand_cross(old(mem), old(self).registers, mode) && *mem
                        == spec_operand_post_mem(old(mem), old(self).registers, mode)) by {
                        reveal(spec_operand);
                        reveal(spec_operand_cross);
                        reveal(spec_operand_post_mem);
                    };
                }
                r0
            },
            AddressMode::Acc => {
                let r0 = (Operand::Implied, 0, PageCrossCycle::NA);
                proof {
                    assert(r0.0 == spec_operand(old(mem), old(self).registers, mode) && r0.2
                        == spec_operand_cross(old(mem), old(self).registers, mode) && *mem
                        == spec_operand_post_mem(old(mem), old(self).registers, mode)) by {
                        reveal(spec_operand);
                        reveal(spec_operand_cross);
                        reveal(spec_operand_post_mem);
                    };
                }
                r0
            },
            AddressMode::Abs => {
                let a = self.read_word_pc(mem);
                let r0 = (Operand::Address(a), 2, PageCrossCycle::NA);
                proof {
                    assert(r0.0 == spec_operand(old(mem), old(self).registers, mode) && r0.2
                        == spec_operand_cross(old(mem), old(self).registers, mode) && *mem
                        == spec_operand_post_mem(old(mem), old(self).registers, mode)) by {
                        reveal(spec_operand);
                        reveal(spec_operand_cross);
                        reveal(spec_operand_post_mem);
                    };
                }
                r0
            },
            AddressMode::AbsX => {
                let base = self.read_word_pc(mem);
                let addr = wadd16_exec(base, self.registers.x as u16);
                let page_cross = if base & 0xFF00 != addr & 0xFF00 {
                    PageCrossCycle::PageCross
                } else {
                    PageCrossCycle::NoPageCross
                };
                let r0 = (Operand::Address(addr), 2, page_cross);
                proof {
                    assert(r0.0 == spec_operand(old(mem), old(self).registers, mode) && r0.2
                        == spec_operand_cross(old(mem), old(self).registers, mode) && *mem
                        == spec_operand_post_mem(old(mem), old(self).registers, mode)) by {
                        reveal(spec_operand);
                        reveal(spec_operand_cross);
                        reveal(spec_operand_post_mem);
                    };
                }
                r0
            },
            AddressMode::AbsY => {
                let base = self.read_word_pc(mem);
                let addr = wadd16_exec(base, self.registers.y as u16);
                let page_cross = if base & 0xFF00 != addr & 0xFF00 {
                    PageCrossCycle::PageCross
                } else {
                    PageCrossCycle::NoPageCross
                };
                let r0 = (Operand::Address(addr), 2, page_cross);
                proof {
                    assert(r0.0 == spec_operand(old(mem), old(self).registers, mode) && r0.2
                        == spec_operand_cross(old(mem), old(self).registers, mode) && *mem
                        == spec_operand_post_mem(old(mem), old(self).registers, mode)) by {
                        reveal(spec_operand);
                        reveal(spec_operand_cross);
                        reveal(spec_operand_post_mem);
                    };
                }
                r0
            },
            AddressMode::Imm => {
                let v = self.read_byte_pc(mem);
                let r0 = (Operand::Value(v), 1, PageCrossCycle::NA);
                proof {
                    assert(r0.0 == spec_operand(old(mem), old(self).registers, mode) && r0.2
                        == spec_operand_cross(old(mem), old(self).registers, mode) && *mem
                        == spec_operand_post_mem(old(mem), old(self).registers, mode)) by {
                        reveal(spec_operand);
                        reveal(spec_operand_cross);
                        reveal(spec_operand_post_mem);
                    };
                }
                r0
            },
            AddressMode::Ind => {
                let addr_location = self.read_word_pc(mem);
                // The pointer's low byte increments without carrying
                // into the high byte, as on the original hardware.
                let lo_byte = self.read_byte(mem, addr_location);
                let hi_byte_loc = (addr_location & 0xFF00) | (winc_exec(
                    (addr_location & 0x00FF) as u8,
                ) as u16);
                let hi_byte = self.read_byte(mem, hi_byte_loc);
                let addr = (lo_byte as u16) | ((hi_byte as u16) << 8);
                let r0 = (Operand::Address(addr), 4, PageCrossCycle::NA);
                proof {
                    assert(r0.0 == spec_operand(old(mem), old(self).registers, mode) && r0.2
                        == spec_operand_cross(old(mem), old(self).registers, mode) && *mem
                        == spec_operand_post_mem(old(mem), old(self).registers, mode)) by {
                        reveal(spec_operand);
                        reveal(spec_operand_cross);
                        reveal(spec_operand_post_mem);
                    };
                }
                r0
            },
            AddressMode::IndX => {
                let ll_addr = self.read_byte_pc(mem);
                let addr_location = ((ll_addr as u16 + self.registers.x as u16) % 256) as u8;
                let lo = self.read_byte(mem, addr_location as u16);
                let hi = self.read_byte(mem, winc_exec(addr_location) as u16);
                let addr = (lo as u16) | ((hi as u16) << 8);
                let r0 = (Operand::Address(addr), 4, PageCrossCycle::NA);
                proof {
                    assert(r0.0 == spec_operand(old(mem), old(self).registers, mode) && r0.2
                        == spec_operand_cross(old(mem), old(self).registers, mode) && *mem
                        == spec_operand_post_mem(old(mem), old(self).registers, mode)) by {
                        reveal(spec_operand);
                        reveal(spec_operand_cross);
                        reveal(spec_operand_post_mem);
                    };
                }
                r0
            },
            AddressMode::IndY => {
                let ll_addr = self.read_byte_pc(mem);
                let lo = self.read_byte(mem, ll_addr as u16);
                let hi = self.read_byte(mem, winc_exec(ll_addr) as u16);
                let addr = (lo as u16) | ((hi as u16) << 8);
                let res = wadd16_exec(addr, self.registers.y as u16);
                let page_cross = if addr & 0xFF00 != res & 0xFF00 {
                    PageCrossCycle::PageCross
                } else {
                    PageCrossCycle::NoPageCross
                };
                let r0 = (Operand::Address(res), 3, page_cross);
                proof {
                    assert(r0.0 == spec_operand(old(mem), old(self).registers, mode) && r0.2
                        == spec_operand_cross(old(mem), old(self).registers, mode) && *mem
                        == spec_operand_post_mem(old(mem), old(self).registers, mode)) by {
                        reveal(spec_operand);
                        reveal(spec_operand_cross);
                        reveal(spec_operand_post_mem);
                    };
                }
                r0
            },
            AddressMode::Rel => {
                // The signed offset acts on the already-incremented
                // program counter.
                let off = self.read_byte_pc(mem);
                let sext: u16 = if off < 0x80 {
                    off as u16
                } else {
                    0xFF00u16 | (off as u16)
                };
                let res = wadd16_exec(self.registers.pc, sext);
                let r0 = (Operand::Address(res), 1, PageCrossCycle::NA);
                proof {
                    assert(r0.0 == spec_operand(old(mem), old(self).registers, mode) && r0.2
                        == spec_operand_cross(old(mem), old(self).registers, mode) && *mem
                        == spec_operand_post_mem(old(mem), old(self).registers, mode)) by {
                        reveal(spec_operand);
                        reveal(spec_operand_cross);
                        reveal(spec_operand_post_mem);
                    };
                }
                r0
            },
            AddressMode::Zpg => {
                let a = self.read_byte_pc(mem);
                let r0 = (Operand::Address(a as u16), 1, PageCrossCycle::NA);
                proof {
                    assert(r0.0 == spec_operand(old(mem), old(self).registers, mode) && r0.2
                        == spec_operand_cross(old(mem), old(self).registers, mode) && *mem
                        == spec_operand_post_mem(old(mem), old(self).registers, mode)) by {
                        reveal(spec_operand);
                        reveal(spec_operand_cross);
                        reveal(spec_operand_post_mem);
                    };
                }
                r0
            },
            AddressMode::ZpgX => {
                let a = self.read_byte_pc(mem);
                let a = ((a as u16 + self.registers.x as u16) % 256) as u8;
                let r0 = (Operand::Address(a as u16), 2, PageCrossCycle::NA);
                proof {
                    assert(r0.0 == spec_operand(old(mem), old(self).registers, mode) && r0.2
                        == spec_operand_cross(old(mem), old(self).registers, mode) && *mem
                        == spec_operand_post_mem(old(mem), old(self).registers, mode)) by {
                        reveal(spec_operand);
                        reveal(spec_operand_cross);
                        reveal(spec_operand_post_mem);
                    };
                }
                r0
            },
            AddressMode::ZpgY => {
                let a = self.read_byte_pc(mem);
                let a = ((a as u16 + self.registers.y as u16) % 256) as u8;
                let r0 = (Operand::Address(a as u16), 2, PageCrossCycle::NA);
                proof {
                    assert(r0.0 == spec_operand(old(mem), old(self).registers, mode) && r0.2
                        == spec_operand_cross(old(mem), old(self).registers, mode) && *mem
                        == spec_operand_post_mem(old(mem), old(self).registers, mode)) by {
                        reveal(spec_operand);
                        reveal(spec_operand_cross);
                        reveal(spec_operand_post_mem);
                    };
                }
                r0
            },
        }
    }

    /// Dispatches one control-group instruction.
    /// Executes one already-resolved control-group instruction.
    #[verifier::rlimit(100)]
    #[verifier::spinoff_prover]
    fn control_exec(
        &mut self,
        mem: &mut MemoryMap,
        inst: ControlInstruction,
        operand: Operand,
    ) -> (r: Result<u32, EmuError>)
        requires
            old(mem).wf(),
            old(mem).loaded(),
            control_op_ok(inst, operand),
        ensures
            final(mem).wf(),
            final(mem).loaded(),
            final(self).last_nmi_level == old(self).last_nmi_level,
            final(self).loop_detection == old(self).loop_detection,
            r matches Ok(n) ==> n <= 600,
            r matches Err(e) ==> e is ChrWrite,
            control_rel(
                inst,
                operand,
                old(self).registers,
                *old(mem),
                final(self).registers,
                *final(mem),
                r,
            ),
    {
        let ghost operand_g = operand;
        let ghost pre_rg = old(self).registers;
        let ghost pre_mg = *old(mem);
        let inst_cycles: u32 = match inst {
            ControlInstruction::Bcc => {
                let c = run_bcc(&mut self.registers, operand);
                proof {
                    assert(control_rel(inst, operand_g, pre_rg, pre_mg, self.registers, *mem, Ok::<u32, EmuError>(c))) by {
                        reveal(control_rel);
                    };
                }
                c
            },
            ControlInstruction::Bcs => {
                let c = run_bcs(&mut self.registers, operand);
                proof {
                    assert(control_rel(inst, operand_g, pre_rg, pre_mg, self.registers, *mem, Ok::<u32, EmuError>(c))) by {
                        reveal(control_rel);
                    };
                }
                c
            },
            ControlInstruction::Beq => {
                let c = run_beq(&mut self.registers, operand);
                proof {
                    assert(control_rel(inst, operand_g, pre_rg, pre_mg, self.registers, *mem, Ok::<u32, EmuError>(c))) by {
                        reveal(control_rel);
                    };
                }
                c
            },
            ControlInstruction::Bit => {
                let c = run_bit(&mut self.registers, mem, operand);
                proof {
                    assert(control_rel(inst, operand_g, pre_rg, pre_mg, self.registers, *mem, Ok::<u32, EmuError>(c))) by {
                        reveal(control_rel);
                    };
                }
                c
            },
            ControlInstruction::Bmi => {
                let c = run_bmi(&mut self.registers, operand);
                proof {
                    assert(control_rel(inst, operand_g, pre_rg, pre_mg, self.registers, *mem, Ok::<u32, EmuError>(c))) by {
                        reveal(control_rel);
                    };
                }
                c
            },
            ControlInstruction::Bne => {
                let c = run_bne(&mut self.registers, operand);
                proof {
                    assert(control_rel(inst, operand_g, pre_rg, pre_mg, self.registers, *mem, Ok::<u32, EmuError>(c))) by {
                        reveal(control_rel);
                    };
                }
                c
            },
            ControlInstruction::Bpl => {
                let c = run_bpl(&mut self.registers, operand);
                proof {
                    assert(control_rel(inst, operand_g, pre_rg, pre_mg, self.registers, *mem, Ok::<u32, EmuError>(c))) by {
                        reveal(control_rel);
                    };
                }
                c
            },
            ControlInstruction::Brk => {
                let c = self.enter_interrupt(mem, InteruptSource::Brk);
                proof {
                    assert(control_rel(inst, operand_g, pre_rg, pre_mg, self.registers, *mem, Ok::<u32, EmuError>(c))) by {
                        reveal(control_rel);
                    };
                }
                c
            },
            ControlInstruction::Bvc => {
                let c = run_bvc(&mut self.registers, operand);
                proof {
                    assert(control_rel(inst, operand_g, pre_rg, pre_mg, self.registers, *mem, Ok::<u32, EmuError>(c))) by {
                        reveal(control_rel);
                    };
                }
                c
            },
            ControlInstruction::Bvs => {
                let c = run_bvs(&mut self.registers, operand);
                proof {
                    assert(control_rel(inst, operand_g, pre_rg, pre_mg, self.registers, *mem, Ok::<u32, EmuError>(c))) by {
                        reveal(control_rel);
                    };
                }
                c
            },
            ControlInstruction::Clc => {
                let c = run_clc(&mut self.registers, operand);
                proof {
                    assert(control_rel(inst, operand_g, pre_rg, pre_mg, self.registers, *mem, Ok::<u32, EmuError>(c))) by {
                        reveal(control_rel);
                    };
                }
                c
            },
            ControlInstruction::Cld => {
                let c = run_cld(&mut self.registers, operand);
                proof {
                    assert(control_rel(inst, operand_g, pre_rg, pre_mg, self.registers, *mem, Ok::<u32, EmuError>(c))) by {
                        reveal(control_rel);
                    };
                }
                c
            },
            ControlInstruction::Cli => {
                let c = run_cli(&mut self.registers, operand);
                proof {
                    assert(control_rel(inst, operand_g, pre_rg, pre_mg, self.registers, *mem, Ok::<u32, EmuError>(c))) by {
                        reveal(control_rel);
                    };
                }
                c
            },
            ControlInstruction::Clv => {
                let c = run_clv(&mut self.registers, operand);
                proof {
                    assert(control_rel(inst, operand_g, pre_rg, pre_mg, self.registers, *mem, Ok::<u32, EmuError>(c))) by {
                        reveal(control_rel);
                    };
                }
                c
            },
            ControlInstruction::Cpx => {
                let c = run_cpx(&mut self.registers, mem, operand);
                proof {
                    assert(control_rel(inst, operand_g, pre_rg, pre_mg, self.registers, *mem, Ok::<u32, EmuError>(c))) by {
                        reveal(control_rel);
                    };
                }
                c
            },
            ControlInstruction::Cpy => {
                let c = run_cpy(&mut self.registers, mem, operand);
                proof {
                    assert(control_rel(inst, operand_g, pre_rg, pre_mg, self.registers, *mem, Ok::<u32, EmuError>(c))) by {
                        reveal(control_rel);
                    };
                }
                c
            },
            ControlInstruction::Dey => {
                let c = run_dey(&mut self.registers, operand);
                proof {
                    assert(control_rel(inst, operand_g, pre_rg, pre_mg, self.registers, *mem, Ok::<u32, EmuError>(c))) by {
                        reveal(control_rel);
                    };
                }
                c
            },
            ControlInstruction::Inx => {
                let c = run_inx(&mut self.registers, operand);
                proof {
                    assert(control_rel(inst, operand_g, pre_rg, pre_mg, self.registers, *mem, Ok::<u32, EmuError>(c))) by {
                        reveal(control_rel);
                    };
                }
                c
            },
            ControlInstruction::Iny => {
                let c = run_iny(&mut self.registers, operand);
                proof {
                    assert(control_rel(inst, operand_g, pre_rg, pre_mg, self.registers, *mem, Ok::<u32, EmuError>(c))) by {
                        reveal(control_rel);
                    };
                }
                c
            },
            ControlInstruction::Jmp => {
                let c = run_jmp(&mut self.registers, operand);
                proof {
                    assert(control_rel(inst, operand_g, pre_rg, pre_mg, self.registers, *mem, Ok::<u32, EmuError>(c))) by {
                        reveal(control_rel);
                    };
                }
                c
            },
            ControlInstruction::Jsr => {
                let c = run_jsr(&mut self.registers, mem, operand);
                proof {
                    assert(control_rel(inst, operand_g, pre_rg, pre_mg, self.registers, *mem, Ok::<u32, EmuError>(c))) by {
                        reveal(control_rel);
                    };
                }
                c
            },
            ControlInstruction::Ldy => {
                let c = run_ldy(&mut self.registers, mem, operand);
                proof {
                    assert(control_rel(inst, operand_g, pre_rg, pre_mg, self.registers, *mem, Ok::<u32, EmuError>(c))) by {
                        reveal(control_rel);
                    };
                }
                c
            },
            ControlInstruction::Pha => {
                let c = run_pha(&mut self.registers, mem, operand);
                proof {
                    assert(control_rel(inst, operand_g, pre_rg, pre_mg, self.registers, *mem, Ok::<u32, EmuError>(c))) by {
                        reveal(control_rel);
                    };
                }
                c
            },
            ControlInstruction::Php => {
                let c = run_php(&mut self.registers, mem, operand);
                proof {
                    assert(control_rel(inst, operand_g, pre_rg, pre_mg, self.registers, *mem, Ok::<u32, EmuError>(c))) by {
                        reveal(control_rel);
                    };
                }
                c
            },
            ControlInstruction::Pla => {
                let c = run_pla(&mut self.registers, mem, operand);
                proof {
                    assert(control_rel(inst, operand_g, pre_rg, pre_mg, self.registers, *mem, Ok::<u32, EmuError>(c))) by {
                        reveal(control_rel);
                    };
                }
                c
            },
            ControlInstruction::Plp => {
                let c = run_plp(&mut self.registers, mem, operand);
                proof {
                    assert(control_rel(inst, operand_g, pre_rg, pre_mg, self.registers, *mem, Ok::<u32, EmuError>(c))) by {
                        reveal(control_rel);
                    };
                }
                c
            },
            ControlInstruction::Rti => {
                let c = run_rti(&mut self.registers, mem, operand);
                proof {
                    assert(control_rel(inst, operand_g, pre_rg, pre_mg, self.registers, *mem, Ok::<u32, EmuError>(c))) by {
                        reveal(control_rel);
                    };
                }
                c
            },
            ControlInstruction::Rts => {
                let c = run_rts(&mut self.registers, mem, operand);
                proof {
                    assert(control_rel(inst, operand_g, pre_rg, pre_mg, self.registers, *mem, Ok::<u32, EmuError>(c))) by {
                        reveal(control_rel);
                    };
                }
                c
            },
            ControlInstruction::Sec => {
                let c = run_sec(&mut self.registers, operand);
                proof {
                    assert(control_rel(inst, operand_g, pre_rg, pre_mg, self.registers, *mem, Ok::<u32, EmuError>(c))) by {
                        reveal(control_rel);
                    };
                }
                c
            },
            ControlInstruction::Sed => {
                let c = run_sed(&mut self.registers, operand);
                proof {
                    assert(control_rel(inst, operand_g, pre_rg, pre_mg, self.registers, *mem, Ok::<u32, EmuError>(c))) by {
                        reveal(control_rel);
                    };
                }
                c
            },
            ControlInstruction::Sei => {
                let c = run_sei(&mut self.registers, operand);
                proof {
                    assert(control_rel(inst, operand_g, pre_rg, pre_mg, self.registers, *mem, Ok::<u32, EmuError>(c))) by {
                        reveal(control_rel);
                    };
                }
                c
            },
            ControlInstruction::Sty => {
                let c = match run_sty(&mut self.registers, mem, operand) {
                    Ok(c) => c,
                    Err(e) => {
                        proof {
                            assert(control_rel(inst, operand_g, pre_rg, pre_mg, self.registers, *mem, Err::<u32, EmuError>(e))) by {
                                reveal(control_rel);
                            };
                        }
                        return Err(e);
                    },
                };
                proof {
                    assert(control_rel(inst, operand_g, pre_rg, pre_mg, self.registers, *mem, Ok::<u32, EmuError>(c))) by {
                        reveal(control_rel);
                    };
                }
                c
            },
            ControlInstruction::Tay => {
                let c = run_tay(&mut self.registers, operand);
                proof {
                    assert(control_rel(inst, operand_g, pre_rg, pre_mg, self.registers, *mem, Ok::<u32, EmuError>(c))) by {
                        reveal(control_rel);
                    };
                }
                c
            },
            ControlInstruction::Tya => {
                let c = run_tya(&mut self.registers, operand);
                proof {
                    assert(control_rel(inst, operand_g, pre_rg, pre_mg, self.registers, *mem, Ok::<u32, EmuError>(c))) by {
                        reveal(control_rel);
                    };
                }
                c
            },
        };
        proof {
            assert(control_rel(inst, operand_g, pre_rg, pre_mg, self.registers, *mem, Ok::<
                u32,
                EmuError,
            >(inst_cycles))) by {
                reveal(control_rel);
            };
        }
        Ok(inst_cycles)
    }

    #[verifier::rlimit(100)]
    #[verifier::spinoff_prover]
    pub fn run_control_instruction(
        &mut self,
        mem: &mut MemoryMap,
        inst: ControlInstruction,
        mode: AddressMode,
    ) -> (r: Result<u32, EmuError>)
        requires
            old(mem).wf(),
            old(mem).loaded(),
            control_mode_ok(inst, mode),
        ensures
            final(mem).wf(),
            final(mem).loaded(),
            r matches Ok(n) ==> n <= 1000,
            r matches Err(e) ==> e is ChrWrite,
            final(self).last_nmi_level == old(self).last_nmi_level,
            final(self).loop_detection == old(self).loop_detection,
            group_step_rel(
                InstructionType::Control(inst, mode),
                old(self).registers,
                *old(mem),
                final(self).registers,
                *final(mem),
                r,
            ),
    {
        let (operand, op_cycles, pg_cross) = self.parse_operand(mem, mode);
        let inst_cycles: u32 = match self.control_exec(mem, inst, operand) {
            Ok(c) => c,
            Err(e) => {
                proof {
                    assert(group_step_rel(
                        InstructionType::Control(inst, mode),
                        old(self).registers,
                        *old(mem),
                        self.registers,
                        *mem,
                        Err::<u32, EmuError>(e),
                    )) by {
                        reveal(group_step_rel);
                    };
                }
                return Err(e);
            },
        };
        let extra: u32 = if matches!(pg_cross, PageCrossCycle::PageCross) {
            1
        } else {
            0
        };
        proof {
            assert(group_step_rel(
                InstructionType::Control(inst, mode),
                old(self).registers,
                *old(mem),
                self.registers,
                *mem,
                Ok::<u32, EmuError>((op_cycles as u32 + inst_cycles + extra) as u32),
            )) by {
                reveal(group_step_rel);
            };
        }
        Ok(op_cycles as u32 + inst_cycles + extra)
    }


    /// Dispatches one ALU-group instruction. Stores take the
    /// page-cross cycle unconditionally.
    #[verifier::rlimit(100)]
    #[verifier::spinoff_prover]
    pub fn run_alu_instruction(
        &mut self,
        mem: &mut MemoryMap,
        inst: AluInstruction,
        mode: AddressMode,
    ) -> (r: Result<u32, EmuError>)
        requires
            old(mem).wf(),
            old(mem).loaded(),
            alu_mode_ok(inst, mode),
        ensures
            final(mem).wf(),
            final(mem).loaded(),
            r matches Ok(n) ==> n <= 1000,
            r matches Err(e) ==> e is ChrWrite,
            final(self).last_nmi_level == old(self).last_nmi_level,
            final(self).loop_detection == old(self).loop_detection,
            group_step_rel(
                InstructionType::Alu(inst, mode),
                old(self).registers,
                *old(mem),
                final(self).registers,
                *final(mem),
                r,
            ),
    {
        let (operand, op_cycles, pg_cross) = self.parse_operand(mem, mode);
        let ghost opg = spec_operand(old(mem), old(self).registers, mode);
        let ghost m1g = spec_operand_post_mem(old(mem), old(self).registers, mode);
        let ghost r1g = CpuRegisters {
            pc: wadd16(old(self).registers.pc, mode_bytes(mode)),
            ..old(self).registers
        };
        let mut pg_cross = pg_cross;
        let inst_cycles: u32 = match inst {
            AluInstruction::Adc => {
                let c = run_adc(&mut self.registers, mem, operand);
                proof {
                    assert(alu_rel(inst, opg, r1g, m1g, self.registers, *mem, Ok::<u32, EmuError>(c))) by {
                        reveal(alu_rel);
                    };
                }
                c
            },
            AluInstruction::And => {
                let c = run_and(&mut self.registers, mem, operand);
                proof {
                    assert(alu_rel(inst, opg, r1g, m1g, self.registers, *mem, Ok::<u32, EmuError>(c))) by {
                        reveal(alu_rel);
                    };
                }
                c
            },
            AluInstruction::Cmp => {
                let c = run_cmp(&mut self.registers, mem, operand);
                proof {
                    assert(alu_rel(inst, opg, r1g, m1g, self.registers, *mem, Ok::<u32, EmuError>(c))) by {
                        reveal(alu_rel);
                    };
                }
                c
            },
            AluInstruction::Eor => {
                let c = run_eor(&mut self.registers, mem, operand);
                proof {
                    assert(alu_rel(inst, opg, r1g, m1g, self.registers, *mem, Ok::<u32, EmuError>(c))) by {
                        reveal(alu_rel);
                    };
                }
                c
            },
            AluInstruction::Lda => {
                let c = run_lda(&mut self.registers, mem, operand);
                proof {
                    assert(alu_rel(inst, opg, r1g, m1g, self.registers, *mem, Ok::<u32, EmuError>(c))) by {
                        reveal(alu_rel);
                    };
                }
                c
            },
            AluInstruction::Ora => {
                let c = run_ora(&mut self.registers, mem, operand);
                proof {
                    assert(alu_rel(inst, opg, r1g, m1g, self.registers, *mem, Ok::<u32, EmuError>(c))) by {
                        reveal(alu_rel);
                    };
                }
                c
            },
            AluInstruction::Sbc => {
                let c = run_sbc(&mut self.registers, mem, operand);
                proof {
                    assert(alu_rel(inst, opg, r1g, m1g, self.registers, *mem, Ok::<u32, EmuError>(c))) by {
                        reveal(alu_rel);
                    };
                }
                c
            },
            AluInstruction::Sta => {
                if matches!(pg_cross, PageCrossCycle::NoPageCross) {
                    pg_cross = PageCrossCycle::PageCross;
                }
                let c = match run_sta(&mut self.registers, mem, operand) {
                    Ok(c) => c,
                    Err(e) => {
                        proof {
                            assert(alu_rel(inst, opg, r1g, m1g, self.registers, *mem, Err::<u32, EmuError>(e))) by {
                                reveal(alu_rel);
                            };
                            assert(group_step_rel(
                                InstructionType::Alu(inst, mode),
                                old(self).registers,
                                *old(mem),
                                self.registers,
                                *mem,
                                Err::<u32, EmuError>(e),
                            )) by {
                                reveal(group_step_rel);
                            };
                        }
                        return Err(e);
                    },
                };
                proof {
                    assert(alu_rel(inst, opg, r1g, m1g, self.registers, *mem, Ok::<u32, EmuError>(c))) by {
                        reveal(alu_rel);
                    };
                }
                c
            },
        };
        let extra: u32 = if matches!(pg_cross, PageCrossCycle::PageCross) {
            1
        } else {
            0
        };
        proof {
            assert(group_step_rel(
                InstructionType::Alu(inst, mode),
                old(self).registers,
                *old(mem),
                self.registers,
                *mem,
                Ok::<u32, EmuError>((op_cycles as u32 + inst_cycles + extra) as u32),
            )) by {
                reveal(group_step_rel);
            };
        }
        Ok(op_cycles as u32 + inst_cycles + extra)
    }

    /// Dispatches one RMW-group instruction. Read-modify-write forms
    /// take the page-cross cycle unconditionally.
    /// Executes one already-resolved RMW-group instruction.
    #[verifier::rlimit(100)]
    #[verifier::spinoff_prover]
    fn rmw_exec(
        &mut self,
        mem: &mut MemoryMap,
        inst: RmwInstruction,
        operand: Operand,
    ) -> (r: Result<u32, EmuError>)
        requires
            old(mem).wf(),
            old(mem).loaded(),
            rmw_op_ok(inst, operand),
        ensures
            final(mem).wf(),
            final(mem).loaded(),
            final(self).last_nmi_level == old(self).last_nmi_level,
            final(self).loop_detection == old(self).loop_detection,
            r matches Ok(n) ==> n <= 600,
            r matches Err(e) ==> e is ChrWrite,
            rmw_rel(
                inst,
                operand,
                old(self).registers,
                *old(mem),
                final(self).registers,
                *final(mem),
                r,
            ),
    {
        let ghost operand_g = operand;
        let ghost pre_rg = old(self).registers;
        let ghost pre_mg = *old(mem);
        let inst_cycles: u32 = match inst {
            RmwInstruction::Asl => {
                let c = match run_asl(&mut self.registers, mem, operand) {
                    Ok(c) => c,
                    Err(e) => {
                        proof {
                            assert(rmw_rel(inst, operand_g, pre_rg, pre_mg, self.registers, *mem, Err::<u32, EmuError>(e))) by {
                                reveal(rmw_rel);
                            };
                        }
                        return Err(e);
                    },
                };
                proof {
                    assert(rmw_rel(inst, operand_g, pre_rg, pre_mg, self.registers, *mem, Ok::<u32, EmuError>(c))) by {
                        reveal(rmw_rel);
                    };
                }
                c
            },
            RmwInstruction::Dec => {
                let c = match run_dec(&mut self.registers, mem, operand) {
                    Ok(c) => c,
                    Err(e) => {
                        proof {
                            assert(rmw_rel(inst, operand_g, pre_rg, pre_mg, self.registers, *mem, Err::<u32, EmuError>(e))) by {
                                reveal(rmw_rel);
                            };
                        }
                        return Err(e);
                    },
                };
                proof {
                    assert(rmw_rel(inst, operand_g, pre_rg, pre_mg, self.registers, *mem, Ok::<u32, EmuError>(c))) by {
                        reveal(rmw_rel);
                    };
                }
                c
            },
            RmwInstruction::Dex => {
                let c = run_dex(&mut self.registers, operand);
                proof {
                    assert(rmw_rel(inst, operand_g, pre_rg, pre_mg, self.registers, *mem, Ok::<u32, EmuError>(c))) by {
                        reveal(rmw_rel);
                    };
                }
                c
            },
            RmwInstruction::Inc => {
                let c = match run_inc(&mut self.registers, mem, operand) {
                    Ok(c) => c,
                    Err(e) => {
                        proof {
                            assert(rmw_rel(inst, operand_g, pre_rg, pre_mg, self.registers, *mem, Err::<u32, EmuError>(e))) by {
                                reveal(rmw_rel);
                            };
                        }
                        return Err(e);
                    },
                };
                proof {
                    assert(rmw_rel(inst, operand_g, pre_rg, pre_mg, self.registers, *mem, Ok::<u32, EmuError>(c))) by {
                        reveal(rmw_rel);
                    };
                }
                c
            },
            RmwInstruction::Ldx => {
                let c = run_ldx(&mut self.registers, mem, operand);
                proof {
                    assert(rmw_rel(inst, operand_g, pre_rg, pre_mg, self.registers, *mem, Ok::<u32, EmuError>(c))) by {
                        reveal(rmw_rel);
                    };
                }
                c
            },
            RmwInstruction::Lsr => {
                let c = match run_lsr(&mut self.registers, mem, operand) {
                    Ok(c) => c,
                    Err(e) => {
                        proof {
                            assert(rmw_rel(inst, operand_g, pre_rg, pre_mg, self.registers, *mem, Err::<u32, EmuError>(e))) by {
                                reveal(rmw_rel);
                            };
                        }
                        return Err(e);
                    },
                };
                proof {
                    assert(rmw_rel(inst, operand_g, pre_rg, pre_mg, self.registers, *mem, Ok::<u32, EmuError>(c))) by {
                        reveal(rmw_rel);
                    };
                }
                c
            },
            RmwInstruction::Rol => {
                let c = match run_rol(&mut self.registers, mem, operand) {
                    Ok(c) => c,
                    Err(e) => {
                        proof {
                            assert(rmw_rel(inst, operand_g, pre_rg, pre_mg, self.registers, *mem, Err::<u32, EmuError>(e))) by {
                                reveal(rmw_rel);
                            };
                        }
                        return Err(e);
                    },
                };
                proof {
                    assert(rmw_rel(inst, operand_g, pre_rg, pre_mg, self.registers, *mem, Ok::<u32, EmuError>(c))) by {
                        reveal(rmw_rel);
                    };
                }
                c
            },
            RmwInstruction::Ror => {
                let c = match run_ror(&mut self.registers, mem, operand) {
                    Ok(c) => c,
                    Err(e) => {
                        proof {
                            assert(rmw_rel(inst, operand_g, pre_rg, pre_mg, self.registers, *mem, Err::<u32, EmuError>(e))) by {
                                reveal(rmw_rel);
                            };
                        }
                        return Err(e);
                    },
                };
                proof {
                    assert(rmw_rel(inst, operand_g, pre_rg, pre_mg, self.registers, *mem, Ok::<u32, EmuError>(c))) by {
                        reveal(rmw_rel);
                    };
                }
                c
            },
            RmwInstruction::Stx => {
                let c = match run_stx(&mut self.registers, mem, operand) {
                    Ok(c) => c,
                    Err(e) => {
                        proof {
                            assert(rmw_rel(inst, operand_g, pre_rg, pre_mg, self.registers, *mem, Err::<u32, EmuError>(e))) by {
                                reveal(rmw_rel);
                            };
                        }
                        return Err(e);
                    },
                };
                proof {
                    assert(rmw_rel(inst, operand_g, pre_rg, pre_mg, self.registers, *mem, Ok::<u32, EmuError>(c))) by {
                        reveal(rmw_rel);
                    };
                }
                c
            },
            RmwInstruction::Tax => {
                let c = run_tax(&mut self.registers, operand);
                proof {
                    assert(rmw_rel(inst, operand_g, pre_rg, pre_mg, self.registers, *mem, Ok::<u32, EmuError>(c))) by {
                        reveal(rmw_rel);
                    };
                }
                c
            },
            RmwInstruction::Tsx => {
                let c = run_tsx(&mut self.registers, operand);
                proof {
                    assert(rmw_rel(inst, operand_g, pre_rg, pre_mg, self.registers, *mem, Ok::<u32, EmuError>(c))) by {
                        reveal(rmw_rel);
                    };
                }
                c
            },
            RmwInstruction::Txa => {
                let c = run_txa(&mut self.registers, operand);
                proof {
                    assert(rmw_rel(inst, operand_g, pre_rg, pre_mg, self.registers, *mem, Ok::<u32, EmuError>(c))) by {
                        reveal(rmw_rel);
                    };
                }
                c
            },
            RmwInstruction::Txs => {
                let c = run_txs(&mut self.registers, operand);
                proof {
                    assert(rmw_rel(inst, operand_g, pre_rg, pre_mg, self.registers, *mem, Ok::<u32, EmuError>(c))) by {
                        reveal(rmw_rel);
                    };
                }
                c
            },
        };
        proof {
            assert(rmw_rel(inst, operand_g, pre_rg, pre_mg, self.registers, *mem, Ok::<
                u32,
                EmuError,
            >(inst_cycles))) by {
                reveal(rmw_rel);
            };
        }
        Ok(inst_cycles)
    }

    #[verifier::rlimit(100)]
    #[verifier::spinoff_prover]
    pub fn run_rmw_instruction(
        &mut self,
        mem: &mut MemoryMap,
        inst: RmwInstruction,
        mode: AddressMode,
    ) -> (r: Result<u32, EmuError>)
        requires
            old(mem).wf(),
            old(mem).loaded(),
            rmw_mode_ok(inst, mode),
        ensures
            final(mem).wf(),
            final(mem).loaded(),
            r matches Ok(n) ==> n <= 1000,
            r matches Err(e) ==> e is ChrWrite,
            final(self).last_nmi_level == old(self).last_nmi_level,
            final(self).loop_detection == old(self).loop_detection,
            group_step_rel(
                InstructionType::Rmw(inst, mode),
                old(self).registers,
                *old(mem),
                final(self).registers,
                *final(mem),
                r,
            ),
    {
        let (operand, op_cycles, pg_cross) = self.parse_operand(mem, mode);
        let mut pg_cross = pg_cross;
        // Read-modify-write memory forms pay the page-cross cycle
        // unconditionally.
        if matches!(
            inst,
            RmwInstruction::Asl | RmwInstruction::Dec | RmwInstruction::Inc | RmwInstruction::Lsr
                | RmwInstruction::Rol | RmwInstruction::Ror,
        ) && matches!(pg_cross, PageCrossCycle::NoPageCross) {
            pg_cross = PageCrossCycle::PageCross;
        }
        let inst_cycles: u32 = match self.rmw_exec(mem, inst, operand) {
            Ok(c) => c,
            Err(e) => {
                proof {
                    assert(group_step_rel(
                        InstructionType::Rmw(inst, mode),
                        old(self).registers,
                        *old(mem),
                        self.registers,
                        *mem,
                        Err::<u32, EmuError>(e),
                    )) by {
                        reveal(group_step_rel);
                    };
                }
                return Err(e);
            },
        };
        let extra: u32 = if matches!(pg_cross, PageCrossCycle::PageCross) {
            1
        } else {
            0
        };
        proof {
            assert(group_step_rel(
                InstructionType::Rmw(inst, mode),
                old(self).registers,
                *old(mem),
                self.registers,
                *mem,
                Ok::<u32, EmuError>((op_cycles as u32 + inst_cycles + extra) as u32),
            )) by {
                reveal(group_step_rel);
            };
        }
        Ok(op_cycles as u32 + inst_cycles + extra)
    }


    /// An unofficial NOP: resolves (and discards) its operand.
    pub fn run_nop_instruction(&mut self, mem: &mut MemoryMap, mode: AddressMode) -> (r: u32)
        requires
            old(mem).wf(),
            old(mem).loaded(),
        ensures
            final(mem).wf(),
            final(mem).loaded(),
            r <= 5,
            final(self).last_nmi_level == old(self).last_nmi_level,
            final(self).loop_detection == old(self).loop_detection,
            group_step_rel(
                InstructionType::Nop(mode),
                old(self).registers,
                *old(mem),
                final(self).registers,
                *final(mem),
                Ok(r),
            ),
    {
        let (_, cycles, _) = self.parse_operand(mem, mode);
        proof {
            assert(group_step_rel(
                InstructionType::Nop(mode),
                old(self).registers,
                *old(mem),
                self.registers,
                *mem,
                Ok::<u32, EmuError>((cycles as u32 + 1) as u32),
            )) by {
                reveal(group_step_rel);
                reveal(spec_operand);
                reveal(spec_operand_post_mem);
            };
        }
        cycles as u32 + 1
    }

    /// Runs one instruction (or the NMI entry): samples the NMI line
    /// for a rising edge first; otherwise fetches, decodes, resolves
    /// the operand and executes. Returns the consumed CPU cycle
    /// count (at least 2) and the repeated-program-counter halt
    /// signal. Fails only on an opcode without a decode-table entry
    /// or a write into ROM-backed graphics storage.
    #[verifier::rlimit(100)]
    #[verifier::spinoff_prover]
    pub fn run_instruction(&mut self, mem: &mut MemoryMap) -> (r: Result<(u64, bool), EmuError>)
        requires
            old(mem).wf(),
            old(mem).loaded(),
        ensures
            final(mem).wf(),
            final(mem).loaded(),
            final(self).last_nmi_level == (old(mem).ppu.reg.ppuctrl.nmi
                && old(mem).ppu.reg.ppustatus.vblank),
            r matches Err(e) ==> e is UnknownOpcode || e is ChrWrite,
            cpu_step_rel(*old(self), *old(mem), *final(self), *final(mem), r),
            // A rising edge of the NMI line pre-empts the fetch: the
            // full interrupt entry runs at fixed cost.
            spec_nmi_edge(old(self), old(mem)) ==> r == Ok::<(u64, bool), EmuError>((7u64, false))
                && interrupt_rel(
                false,
                old(self).registers,
                *old(mem),
                final(self).registers,
                *final(mem),
            ) && final(self).loop_detection == old(self).loop_detection,
            // Otherwise one opcode is fetched at the program counter
            // and decoded; execution fails exactly on an opcode the
            // table does not cover (or a graphics-ROM write inside
            // the instruction).
            !spec_nmi_edge(old(self), old(mem)) ==> ({
                let pc0 = old(self).registers.pc;
                let opb = bus_read_val(old(mem), pc0);
                let m1 = bus_read_post(old(mem), pc0);
                let r1 = CpuRegisters { pc: winc16(pc0), ..old(self).registers };
                match spec_decode(opb) {
                    None => r == Err::<(u64, bool), EmuError>(EmuError::UnknownOpcode(opb))
                        && *final(mem) == m1 && final(self).registers == r1 && final(self).loop_detection == old(self).loop_detection,
                    Some(d) => (r matches Ok(n) ==> 2 <= n.0 <= 1001 && (exists|c: u32|
                        group_step_rel(
                            d,
                            r1,
                            m1,
                            final(self).registers,
                            *final(mem),
                            Ok::<u32, EmuError>(c),
                        ) && n.0 == (if c == 0 {
                            2u64
                        } else {
                            (c + 1) as u64
                        }))) && (r matches Err(e) ==> e is ChrWrite && group_step_rel(
                        d,
                        r1,
                        m1,
                        final(self).registers,
                        *final(mem),
                        Err::<u32, EmuError>(e),
                    ) && final(self).loop_detection == old(self).loop_detection),
                }
            }),
            // The repeated-program-counter halt heuristic: the count
            // grows (saturating at its threshold) exactly while the
            // program counter repeats, and the flag reports three or
            // more repeats.
            !spec_nmi_edge(old(self), old(mem)) && r is Ok ==> final(self).loop_detection.last_pc
                == final(self).registers.pc && final(self).loop_detection.repeats == (if final(self).registers.pc == old(self).loop_detection.last_pc {
                if old(self).loop_detection.repeats >= 3 {
                    old(self).loop_detection.repeats as int
                } else {
                    old(self).loop_detection.repeats + 1
                }
            } else {
                0int
            }) && (r matches Ok(n) ==> n.1 == (final(self).loop_detection.repeats >= 3)),
    {
        let nmi_level = mem.nmi_requested();
        let last_nmi_level = self.last_nmi_level;
        self.last_nmi_level = nmi_level;
        if nmi_level && !last_nmi_level {
            let c = self.enter_interrupt(mem, InteruptSource::Nmi);
            return Ok((1 + c as u64, false));
        }

        let instruction = self.read_byte_pc(mem);
        let decoded = match InstructionType::decode(instruction) {
            Some(d) => d,
            None => {
                return Err(EmuError::UnknownOpcode(instruction));
            },
        };
        proof {
            lemma_decode_modes(instruction);
        }
        let ghost r1g = CpuRegisters {
            pc: winc16(old(self).registers.pc),
            ..old(self).registers
        };
        let ghost m1g = bus_read_post(old(mem), old(self).registers.pc);
        let cycles: u32 = match decoded {
            InstructionType::Control(inst, mode) => {
                match self.run_control_instruction(mem, inst, mode) {
                    Ok(c) => c,
                    Err(e) => {
                        return Err(e);
                    },
                }
            },
            InstructionType::Alu(inst, mode) => {
                match self.run_alu_instruction(mem, inst, mode) {
                    Ok(c) => c,
                    Err(e) => {
                        return Err(e);
                    },
                }
            },
            InstructionType::Rmw(inst, mode) => {
                match self.run_rmw_instruction(mem, inst, mode) {
                    Ok(c) => c,
                    Err(e) => {
                        return Err(e);
                    },
                }
            },
            InstructionType::Nop(mode) => self.run_nop_instruction(mem, mode),
        };
        if self.registers.pc == self.loop_detection.last_pc {
            // Saturating at the detection threshold keeps the signal
            // identical without unbounded growth.
            if self.loop_detection.repeats < 3 {
                self.loop_detection.repeats = self.loop_detection.repeats + 1;
            }
        } else {
            self.loop_detection.repeats = 0;
        }
        let loop_detected = self.loop_detection.repeats >= 3;
        self.loop_detection.last_pc = self.registers.pc;

        proof {
            assert(group_step_rel(decoded, r1g, m1g, self.registers, *mem, Ok::<u32, EmuError>(
                cycles,
            )));
        }
        let mut cycles = cycles + 1;
        if cycles < 2 {
            cycles = 2;
        }
        Ok((cycles as u64, loop_detected))
    }
}

} // verus!
