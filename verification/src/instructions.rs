use vstd::prelude::*;

use crate::errors::EmuError;
use crate::memory::{bus_read_post, bus_read_rel, bus_read_val, bus_write_rel, MemoryMap};
use crate::memory_utils::word_from_bytes;

verus! {

/// The processor status flags, each at its documented bit position;
/// the reserved bit is carried so that pushes and pops reproduce it.
#[derive(Clone, Copy, Debug, PartialEq, Eq, Structural)]
pub struct Status {
    pub carry: bool,
    pub zero: bool,
    pub it_disable: bool,
    pub decimal: bool,
    pub brk: bool,
    pub ignored: bool,
    pub overflow: bool,
    pub negative: bool,
}

/// The flags packed into their byte: carry in bit 0 through negative
/// in bit 7.
pub open spec fn status_bits(s: Status) -> u8 {
    (if s.carry { 0x01u8 } else { 0u8 }) | (if s.zero { 0x02u8 } else { 0u8 }) | (if s.it_disable {
        0x04u8
    } else {
        0u8
    }) | (if s.decimal { 0x08u8 } else { 0u8 }) | (if s.brk { 0x10u8 } else { 0u8 }) | (
    if s.ignored { 0x20u8 } else { 0u8 }) | (if s.overflow { 0x40u8 } else { 0u8 }) | (
    if s.negative { 0x80u8 } else { 0u8 })
}

/// The flags unpacked from their byte.
pub open spec fn spec_status_from_bits(b: u8) -> Status {
    Status {
        carry: b & 0x01 != 0,
        zero: b & 0x02 != 0,
        it_disable: b & 0x04 != 0,
        decimal: b & 0x08 != 0,
        brk: b & 0x10 != 0,
        ignored: b & 0x20 != 0,
        overflow: b & 0x40 != 0,
        negative: b & 0x80 != 0,
    }
}

/// Packing and unpacking the flag byte are inverse, and forcing the
/// break/reserved bits on the way touches no other flag.
pub proof fn lemma_status_bits_roundtrip(s: Status)
    ensures
        spec_status_from_bits(status_bits(s)) == s,
        spec_status_from_bits(status_bits(s) | 0x30) == (Status {
            brk: true,
            ignored: true,
            ..s
        }),
{
    let c: u8 = if s.carry { 0x01 } else { 0 };
    let z: u8 = if s.zero { 0x02 } else { 0 };
    let i: u8 = if s.it_disable { 0x04 } else { 0 };
    let d: u8 = if s.decimal { 0x08 } else { 0 };
    let b: u8 = if s.brk { 0x10 } else { 0 };
    let u: u8 = if s.ignored { 0x20 } else { 0 };
    let v: u8 = if s.overflow { 0x40 } else { 0 };
    let n: u8 = if s.negative { 0x80 } else { 0 };
    let packed = c | z | i | d | b | u | v | n;
    assert((packed & 0x01 != 0) == (c == 0x01) && (packed & 0x02 != 0) == (z == 0x02) && (packed
        & 0x04 != 0) == (i == 0x04) && (packed & 0x08 != 0) == (d == 0x08) && (packed & 0x10 != 0)
        == (b == 0x10) && (packed & 0x20 != 0) == (u == 0x20) && (packed & 0x40 != 0) == (v == 0x40)
        && (packed & 0x80 != 0) == (n == 0x80) && ((packed | 0x30) & 0x01 != 0) == (c == 0x01) && ((
    packed | 0x30) & 0x02 != 0) == (z == 0x02) && ((packed | 0x30) & 0x04 != 0) == (i == 0x04) && ((
    packed | 0x30) & 0x08 != 0) == (d == 0x08) && ((packed | 0x30) & 0x10 != 0) && ((packed | 0x30)
        & 0x20 != 0) && ((packed | 0x30) & 0x40 != 0) == (v == 0x40) && ((packed | 0x30) & 0x80
        != 0) == (n == 0x80)) by (bit_vector)
        requires
            (c == 0 || c == 0x01) && (z == 0 || z == 0x02) && (i == 0 || i == 0x04) && (d == 0 || d
                == 0x08) && (b == 0 || b == 0x10) && (u == 0 || u == 0x20) && (v == 0 || v == 0x40)
                && (n == 0 || n == 0x80) && packed == (c | z | i | d | b | u | v | n),
    ;
}

impl Status {
    /// The flag byte as pushed by interrupts and PHP.
    pub fn to_bits(&self) -> (r: u8)
        ensures
            r == status_bits(*self),
    {
        (if self.carry { 0x01u8 } else { 0u8 }) | (if self.zero { 0x02u8 } else { 0u8 }) | (
        if self.it_disable { 0x04u8 } else { 0u8 }) | (if self.decimal { 0x08u8 } else { 0u8 }) | (
        if self.brk { 0x10u8 } else { 0u8 }) | (if self.ignored { 0x20u8 } else { 0u8 }) | (
        if self.overflow { 0x40u8 } else { 0u8 }) | (if self.negative { 0x80u8 } else { 0u8 })
    }

    /// The flags as popped by PLP.
    pub fn from_bits(b: u8) -> (r: Status)
        ensures
            r == spec_status_from_bits(b),
    {
        Status {
            carry: b & 0x01 != 0,
            zero: b & 0x02 != 0,
            it_disable: b & 0x04 != 0,
            decimal: b & 0x08 != 0,
            brk: b & 0x10 != 0,
            ignored: b & 0x20 != 0,
            overflow: b & 0x40 != 0,
            negative: b & 0x80 != 0,
        }
    }
}

/// The CPU register file.
#[derive(Clone, Copy, Debug, PartialEq, Eq, Structural)]
pub struct CpuRegisters {
    pub a: u8,
    pub x: u8,
    pub y: u8,
    pub pc: u16,
    pub p: Status,
    pub s: u8,
}

/// An instruction's resolved operand: a memory address, an immediate
/// value, or none (implied and accumulator forms).
#[derive(Clone, Copy, Debug, PartialEq, Eq, Structural)]
pub enum Operand {
    Address(u16),
    Value(u8),
    Implied,
}

/// Whether the negative flag sees the result's top bit.
pub open spec fn n_flag(v: u8) -> bool {
    v & 0x80 != 0
}

/// Whether two addresses lie in different 256-byte pages.
pub open spec fn spec_page_cross(a: u16, b: u16) -> bool {
    a & 0xFF00 != b & 0xFF00
}

pub fn page_cross(addr1: u16, addr2: u16) -> (r: bool)
    ensures
        r == spec_page_cross(addr1, addr2),
{
    addr1 & 0xFF00 != addr2 & 0xFF00
}

/// 8-bit wrapping successor.
pub open spec fn winc8(v: u8) -> u8 {
    if v == 0xFF {
        0u8
    } else {
        (v + 1) as u8
    }
}

/// 8-bit wrapping predecessor.
pub open spec fn wdec8(v: u8) -> u8 {
    if v == 0 {
        0xFFu8
    } else {
        (v - 1) as u8
    }
}

/// 8-bit wrapping difference.
pub open spec fn wsub8(a: u8, b: u8) -> u8 {
    if a >= b {
        (a - b) as u8
    } else {
        ((a + 256) - b) as u8
    }
}

/// 16-bit wrapping successor.
pub open spec fn winc16(v: u16) -> u16 {
    if v == 0xFFFF {
        0u16
    } else {
        (v + 1) as u16
    }
}

/// 16-bit wrapping predecessor.
pub open spec fn wdec16(v: u16) -> u16 {
    if v == 0 {
        0xFFFFu16
    } else {
        (v - 1) as u16
    }
}

/// The value an operand reads: the immediate itself, or the byte the
/// bus serves at the address.
pub open spec fn operand_value(m: &MemoryMap, op: Operand) -> u8 {
    match op {
        Operand::Value(v) => v,
        Operand::Address(a) => bus_read_val(m, a),
        Operand::Implied => 0u8,
    }
}

/// The extra cycle an operand fetch from memory costs.
pub open spec fn operand_cycles(op: Operand) -> u32 {
    match op {
        Operand::Address(_) => 1u32,
        _ => 0u32,
    }
}

/// How resolving an operand's value changes the bus.
pub open spec fn operand_read_rel(pre: &MemoryMap, post: &MemoryMap, op: Operand) -> bool {
    match op {
        Operand::Address(a) => bus_read_rel(pre, post, a),
        _ => *post == *pre,
    }
}

/// Truncation and sign-bit facts the arithmetic contracts rest on.
pub proof fn lemma_byte_arith()
    by (bit_vector)
    ensures
        forall|x: u16| #[trigger] (x & 0x00FF) == x % 256,
        forall|b: u8| (#[trigger] (b & 0x80) != 0) <==> b >= 128,
{
}

/// 8-bit wrapping successor.
pub fn winc_exec(v: u8) -> (r: u8)
    ensures
        r == winc8(v),
{
    if v == 0xFF {
        0
    } else {
        v + 1
    }
}

/// 8-bit wrapping predecessor.
pub fn wdec_exec(v: u8) -> (r: u8)
    ensures
        r == wdec8(v),
{
    if v == 0 {
        0xFF
    } else {
        v - 1
    }
}

/// BCC: branch when carry is clear. Takes no extra cycle when not taken, one when taken, and
/// one more when the target lies on a different 256-byte page than
/// the next sequential instruction.
pub fn run_bcc(reg: &mut CpuRegisters, operand: Operand) -> (cycles: u32)
    requires
        operand is Address,
    ensures
        operand matches Operand::Address(addr) ==> ({
            let taken = !old(reg).p.carry;
            cycles == (if taken {
                if spec_page_cross(old(reg).pc, addr) {
                    2u32
                } else {
                    1u32
                }
            } else {
                0u32
            }) && *final(reg) == (CpuRegisters {
                pc: if taken {
                    addr
                } else {
                    old(reg).pc
                },
                ..*old(reg)
            })
        }),
{
    let addr = match operand {
        Operand::Address(a) => a,
        _ => unreached(),
    };
    let orig_pc = reg.pc;
    if !reg.p.carry {
        reg.pc = addr;
        if page_cross(orig_pc, reg.pc) {
            2
        } else {
            1
        }
    } else {
        0
    }
}

/// BCS: branch when carry is set. Takes no extra cycle when not taken, one when taken, and
/// one more when the target lies on a different 256-byte page than
/// the next sequential instruction.
pub fn run_bcs(reg: &mut CpuRegisters, operand: Operand) -> (cycles: u32)
    requires
        operand is Address,
    ensures
        operand matches Operand::Address(addr) ==> ({
            let taken = old(reg).p.carry;
            cycles == (if taken {
                if spec_page_cross(old(reg).pc, addr) {
                    2u32
                } else {
                    1u32
                }
            } else {
                0u32
            }) && *final(reg) == (CpuRegisters {
                pc: if taken {
                    addr
                } else {
                    old(reg).pc
                },
                ..*old(reg)
            })
        }),
{
    let addr = match operand {
        Operand::Address(a) => a,
        _ => unreached(),
    };
    let orig_pc = reg.pc;
    if reg.p.carry {
        reg.pc = addr;
        if page_cross(orig_pc, reg.pc) {
            2
        } else {
            1
        }
    } else {
        0
    }
}

/// BEQ: branch when the zero flag is set. Takes no extra cycle when not taken, one when taken, and
/// one more when the target lies on a different 256-byte page than
/// the next sequential instruction.
pub fn run_beq(reg: &mut CpuRegisters, operand: Operand) -> (cycles: u32)
    requires
        operand is Address,
    ensures
        operand matches Operand::Address(addr) ==> ({
            let taken = old(reg).p.zero;
            cycles == (if taken {
                if spec_page_cross(old(reg).pc, addr) {
                    2u32
                } else {
                    1u32
                }
            } else {
                0u32
            }) && *final(reg) == (CpuRegisters {
                pc: if taken {
                    addr
                } else {
                    old(reg).pc
                },
                ..*old(reg)
            })
        }),
{
    let addr = match operand {
        Operand::Address(a) => a,
        _ => unreached(),
    };
    let orig_pc = reg.pc;
    if reg.p.zero {
        reg.pc = addr;
        if page_cross(orig_pc, reg.pc) {
            2
        } else {
            1
        }
    } else {
        0
    }
}

/// BMI: branch when the negative flag is set. Takes no extra cycle when not taken, one when taken, and
/// one more when the target lies on a different 256-byte page than
/// the next sequential instruction.
pub fn run_bmi(reg: &mut CpuRegisters, operand: Operand) -> (cycles: u32)
    requires
        operand is Address,
    ensures
        operand matches Operand::Address(addr) ==> ({
            let taken = old(reg).p.negative;
            cycles == (if taken {
                if spec_page_cross(old(reg).pc, addr) {
                    2u32
                } else {
                    1u32
                }
            } else {
                0u32
            }) && *final(reg) == (CpuRegisters {
                pc: if taken {
                    addr
                } else {
                    old(reg).pc
                },
                ..*old(reg)
            })
        }),
{
    let addr = match operand {
        Operand::Address(a) => a,
        _ => unreached(),
    };
    let orig_pc = reg.pc;
    if reg.p.negative {
        reg.pc = addr;
        if page_cross(orig_pc, reg.pc) {
            2
        } else {
            1
        }
    } else {
        0
    }
}

/// BNE: branch when the zero flag is clear. Takes no extra cycle when not taken, one when taken, and
/// one more when the target lies on a different 256-byte page than
/// the next sequential instruction.
pub fn run_bne(reg: &mut CpuRegisters, operand: Operand) -> (cycles: u32)
    requires
        operand is Address,
    ensures
        operand matches Operand::Address(addr) ==> ({
            let taken = !old(reg).p.zero;
            cycles == (if taken {
                if spec_page_cross(old(reg).pc, addr) {
                    2u32
                } else {
                    1u32
                }
            } else {
                0u32
            }) && *final(reg) == (CpuRegisters {
                pc: if taken {
                    addr
                } else {
                    old(reg).pc
                },
                ..*old(reg)
            })
        }),
{
    let addr = match operand {
        Operand::Address(a) => a,
        _ => unreached(),
    };
    let orig_pc = reg.pc;
    if !reg.p.zero {
        reg.pc = addr;
        if page_cross(orig_pc, reg.pc) {
            2
        } else {
            1
        }
    } else {
        0
    }
}

/// BPL: branch when the negative flag is clear. Takes no extra cycle when not taken, one when taken, and
/// one more when the target lies on a different 256-byte page than
/// the next sequential instruction.
pub fn run_bpl(reg: &mut CpuRegisters, operand: Operand) -> (cycles: u32)
    requires
        operand is Address,
    ensures
        operand matches Operand::Address(addr) ==> ({
            let taken = !old(reg).p.negative;
            cycles == (if taken {
                if spec_page_cross(old(reg).pc, addr) {
                    2u32
                } else {
                    1u32
                }
            } else {
                0u32
            }) && *final(reg) == (CpuRegisters {
                pc: if taken {
                    addr
                } else {
                    old(reg).pc
                },
                ..*old(reg)
            })
        }),
{
    let addr = match operand {
        Operand::Address(a) => a,
        _ => unreached(),
    };
    let orig_pc = reg.pc;
    if !reg.p.negative {
        reg.pc = addr;
        if page_cross(orig_pc, reg.pc) {
            2
        } else {
            1
        }
    } else {
        0
    }
}

/// BVC: branch when the overflow flag is clear. Takes no extra cycle when not taken, one when taken, and
/// one more when the target lies on a different 256-byte page than
/// the next sequential instruction.
pub fn run_bvc(reg: &mut CpuRegisters, operand: Operand) -> (cycles: u32)
    requires
        operand is Address,
    ensures
        operand matches Operand::Address(addr) ==> ({
            let taken = !old(reg).p.overflow;
            cycles == (if taken {
                if spec_page_cross(old(reg).pc, addr) {
                    2u32
                } else {
                    1u32
                }
            } else {
                0u32
            }) && *final(reg) == (CpuRegisters {
                pc: if taken {
                    addr
                } else {
                    old(reg).pc
                },
                ..*old(reg)
            })
        }),
{
    let addr = match operand {
        Operand::Address(a) => a,
        _ => unreached(),
    };
    let orig_pc = reg.pc;
    if !reg.p.overflow {
        reg.pc = addr;
        if page_cross(orig_pc, reg.pc) {
            2
        } else {
            1
        }
    } else {
        0
    }
}

/// BVS: branch when the overflow flag is set. Takes no extra cycle when not taken, one when taken, and
/// one more when the target lies on a different 256-byte page than
/// the next sequential instruction.
pub fn run_bvs(reg: &mut CpuRegisters, operand: Operand) -> (cycles: u32)
    requires
        operand is Address,
    ensures
        operand matches Operand::Address(addr) ==> ({
            let taken = old(reg).p.overflow;
            cycles == (if taken {
                if spec_page_cross(old(reg).pc, addr) {
                    2u32
                } else {
                    1u32
                }
            } else {
                0u32
            }) && *final(reg) == (CpuRegisters {
                pc: if taken {
                    addr
                } else {
                    old(reg).pc
                },
                ..*old(reg)
            })
        }),
{
    let addr = match operand {
        Operand::Address(a) => a,
        _ => unreached(),
    };
    let orig_pc = reg.pc;
    if reg.p.overflow {
        reg.pc = addr;
        if page_cross(orig_pc, reg.pc) {
            2
        } else {
            1
        }
    } else {
        0
    }
}

/// CLC: clears the carry flag. No other flag or register moves.
pub fn run_clc(reg: &mut CpuRegisters, operand: Operand) -> (cycles: u32)
    requires
        operand is Implied,
    ensures
        *final(reg) == (CpuRegisters {
            p: Status { carry: false, ..old(reg).p },
            ..*old(reg)
        }),
        cycles == 0,
{
    reg.p.carry = false;
    0
}

/// CLD: clears the decimal flag. No other flag or register moves.
pub fn run_cld(reg: &mut CpuRegisters, operand: Operand) -> (cycles: u32)
    requires
        operand is Implied,
    ensures
        *final(reg) == (CpuRegisters {
            p: Status { decimal: false, ..old(reg).p },
            ..*old(reg)
        }),
        cycles == 0,
{
    reg.p.decimal = false;
    0
}

/// CLI: clears the interrupt-disable flag. No other flag or register moves.
pub fn run_cli(reg: &mut CpuRegisters, operand: Operand) -> (cycles: u32)
    requires
        operand is Implied,
    ensures
        *final(reg) == (CpuRegisters {
            p: Status { it_disable: false, ..old(reg).p },
            ..*old(reg)
        }),
        cycles == 0,
{
    reg.p.it_disable = false;
    0
}

/// CLV: clears the overflow flag. No other flag or register moves.
pub fn run_clv(reg: &mut CpuRegisters, operand: Operand) -> (cycles: u32)
    requires
        operand is Implied,
    ensures
        *final(reg) == (CpuRegisters {
            p: Status { overflow: false, ..old(reg).p },
            ..*old(reg)
        }),
        cycles == 0,
{
    reg.p.overflow = false;
    0
}

/// SEC: sets the carry flag. No other flag or register moves.
pub fn run_sec(reg: &mut CpuRegisters, operand: Operand) -> (cycles: u32)
    requires
        operand is Implied,
    ensures
        *final(reg) == (CpuRegisters {
            p: Status { carry: true, ..old(reg).p },
            ..*old(reg)
        }),
        cycles == 0,
{
    reg.p.carry = true;
    0
}

/// SED: sets the decimal flag. No other flag or register moves.
pub fn run_sed(reg: &mut CpuRegisters, operand: Operand) -> (cycles: u32)
    requires
        operand is Implied,
    ensures
        *final(reg) == (CpuRegisters {
            p: Status { decimal: true, ..old(reg).p },
            ..*old(reg)
        }),
        cycles == 0,
{
    reg.p.decimal = true;
    0
}

/// SEI: sets the interrupt-disable flag. No other flag or register moves.
pub fn run_sei(reg: &mut CpuRegisters, operand: Operand) -> (cycles: u32)
    requires
        operand is Implied,
    ensures
        *final(reg) == (CpuRegisters {
            p: Status { it_disable: true, ..old(reg).p },
            ..*old(reg)
        }),
        cycles == 0,
{
    reg.p.it_disable = true;
    0
}

/// TAY: copies the accumulator to Y. The zero and negative flags follow the result.
pub fn run_tay(reg: &mut CpuRegisters, operand: Operand) -> (cycles: u32)
    requires
        operand is Implied,
    ensures
        *final(reg) == (CpuRegisters {
            y: old(reg).a,
            p: Status {
                zero: old(reg).a == 0,
                negative: n_flag(old(reg).a),
                ..old(reg).p
            },
            ..*old(reg)
        }),
        cycles == 0,
{
    let val = reg.a;
    reg.y = val;
    reg.p.zero = val == 0;
    reg.p.negative = val & 0x80 != 0;
    0
}

/// TYA: copies Y to the accumulator. The zero and negative flags follow the result.
pub fn run_tya(reg: &mut CpuRegisters, operand: Operand) -> (cycles: u32)
    requires
        operand is Implied,
    ensures
        *final(reg) == (CpuRegisters {
            a: old(reg).y,
            p: Status {
                zero: old(reg).y == 0,
                negative: n_flag(old(reg).y),
                ..old(reg).p
            },
            ..*old(reg)
        }),
        cycles == 0,
{
    let val = reg.y;
    reg.a = val;
    reg.p.zero = val == 0;
    reg.p.negative = val & 0x80 != 0;
    0
}

/// TAX: copies the accumulator to X. The zero and negative flags follow the result.
pub fn run_tax(reg: &mut CpuRegisters, operand: Operand) -> (cycles: u32)
    requires
        operand is Implied,
    ensures
        *final(reg) == (CpuRegisters {
            x: old(reg).a,
            p: Status {
                zero: old(reg).a == 0,
                negative: n_flag(old(reg).a),
                ..old(reg).p
            },
            ..*old(reg)
        }),
        cycles == 0,
{
    let val = reg.a;
    reg.x = val;
    reg.p.zero = val == 0;
    reg.p.negative = val & 0x80 != 0;
    0
}

/// TSX: copies the stack pointer to X. The zero and negative flags follow the result.
pub fn run_tsx(reg: &mut CpuRegisters, operand: Operand) -> (cycles: u32)
    requires
        operand is Implied,
    ensures
        *final(reg) == (CpuRegisters {
            x: old(reg).s,
            p: Status {
                zero: old(reg).s == 0,
                negative: n_flag(old(reg).s),
                ..old(reg).p
            },
            ..*old(reg)
        }),
        cycles == 0,
{
    let val = reg.s;
    reg.x = val;
    reg.p.zero = val == 0;
    reg.p.negative = val & 0x80 != 0;
    0
}

/// TXA: copies X to the accumulator. The zero and negative flags follow the result.
pub fn run_txa(reg: &mut CpuRegisters, operand: Operand) -> (cycles: u32)
    requires
        operand is Implied,
    ensures
        *final(reg) == (CpuRegisters {
            a: old(reg).x,
            p: Status {
                zero: old(reg).x == 0,
                negative: n_flag(old(reg).x),
                ..old(reg).p
            },
            ..*old(reg)
        }),
        cycles == 0,
{
    let val = reg.x;
    reg.a = val;
    reg.p.zero = val == 0;
    reg.p.negative = val & 0x80 != 0;
    0
}

/// TXS: copies X to the stack pointer, touching no flag.
pub fn run_txs(reg: &mut CpuRegisters, operand: Operand) -> (cycles: u32)
    requires
        operand is Implied,
    ensures
        *final(reg) == (CpuRegisters { s: old(reg).x, ..*old(reg) }),
        cycles == 0,
{
    reg.s = reg.x;
    0
}

/// DEX: decrements X with 8-bit wraparound. The zero and negative flags follow the result.
pub fn run_dex(reg: &mut CpuRegisters, operand: Operand) -> (cycles: u32)
    requires
        operand is Implied,
    ensures
        *final(reg) == (CpuRegisters {
            x: wdec8(old(reg).x),
            p: Status {
                zero: wdec8(old(reg).x) == 0,
                negative: n_flag(wdec8(old(reg).x)),
                ..old(reg).p
            },
            ..*old(reg)
        }),
        cycles == 0,
{
    let val = wdec_exec(reg.x);
    reg.x = val;
    reg.p.zero = val == 0;
    reg.p.negative = val & 0x80 != 0;
    0
}

/// DEY: decrements Y with 8-bit wraparound. The zero and negative flags follow the result.
pub fn run_dey(reg: &mut CpuRegisters, operand: Operand) -> (cycles: u32)
    requires
        operand is Implied,
    ensures
        *final(reg) == (CpuRegisters {
            y: wdec8(old(reg).y),
            p: Status {
                zero: wdec8(old(reg).y) == 0,
                negative: n_flag(wdec8(old(reg).y)),
                ..old(reg).p
            },
            ..*old(reg)
        }),
        cycles == 0,
{
    let val = wdec_exec(reg.y);
    reg.y = val;
    reg.p.zero = val == 0;
    reg.p.negative = val & 0x80 != 0;
    0
}

/// INX: increments X with 8-bit wraparound. The zero and negative flags follow the result.
pub fn run_inx(reg: &mut CpuRegisters, operand: Operand) -> (cycles: u32)
    requires
        operand is Implied,
    ensures
        *final(reg) == (CpuRegisters {
            x: winc8(old(reg).x),
            p: Status {
                zero: winc8(old(reg).x) == 0,
                negative: n_flag(winc8(old(reg).x)),
                ..old(reg).p
            },
            ..*old(reg)
        }),
        cycles == 0,
{
    let val = winc_exec(reg.x);
    reg.x = val;
    reg.p.zero = val == 0;
    reg.p.negative = val & 0x80 != 0;
    0
}

/// INY: increments Y with 8-bit wraparound. The zero and negative flags follow the result.
pub fn run_iny(reg: &mut CpuRegisters, operand: Operand) -> (cycles: u32)
    requires
        operand is Implied,
    ensures
        *final(reg) == (CpuRegisters {
            y: winc8(old(reg).y),
            p: Status {
                zero: winc8(old(reg).y) == 0,
                negative: n_flag(winc8(old(reg).y)),
                ..old(reg).p
            },
            ..*old(reg)
        }),
        cycles == 0,
{
    let val = winc_exec(reg.y);
    reg.y = val;
    reg.p.zero = val == 0;
    reg.p.negative = val & 0x80 != 0;
    0
}


/// LDA: loads the accumulator; the zero and negative flags follow the value.
pub fn run_lda(reg: &mut CpuRegisters, mem: &mut MemoryMap, operand: Operand) -> (cycles: u32)
    requires
        !(operand is Implied),
        old(mem).wf(),
        old(mem).loaded(),
    ensures
        final(mem).wf(),
        final(mem).loaded(),
        operand_read_rel(old(mem), final(mem), operand),
        ({
            let v = operand_value(old(mem), operand);
            *final(reg) == (CpuRegisters {
                a: v,
                p: Status { zero: v == 0, negative: n_flag(v), ..old(reg).p },
                ..*old(reg)
            })
        }),
        cycles == operand_cycles(operand),
{
    let (val, cycles): (u8, u32) = match operand {
        Operand::Address(addr) => (mem.read_byte(addr), 1),
        Operand::Value(v) => (v, 0),
        Operand::Implied => unreached(),
    };
    reg.a = val;
    reg.p.zero = val == 0;
    reg.p.negative = val & 0x80 != 0;
    cycles
}

/// LDX: loads the X register; the zero and negative flags follow the value.
pub fn run_ldx(reg: &mut CpuRegisters, mem: &mut MemoryMap, operand: Operand) -> (cycles: u32)
    requires
        !(operand is Implied),
        old(mem).wf(),
        old(mem).loaded(),
    ensures
        final(mem).wf(),
        final(mem).loaded(),
        operand_read_rel(old(mem), final(mem), operand),
        ({
            let v = operand_value(old(mem), operand);
            *final(reg) == (CpuRegisters {
                x: v,
                p: Status { zero: v == 0, negative: n_flag(v), ..old(reg).p },
                ..*old(reg)
            })
        }),
        cycles == operand_cycles(operand),
{
    let (val, cycles): (u8, u32) = match operand {
        Operand::Address(addr) => (mem.read_byte(addr), 1),
        Operand::Value(v) => (v, 0),
        Operand::Implied => unreached(),
    };
    reg.x = val;
    reg.p.zero = val == 0;
    reg.p.negative = val & 0x80 != 0;
    cycles
}

/// LDY: loads the Y register; the zero and negative flags follow the value.
pub fn run_ldy(reg: &mut CpuRegisters, mem: &mut MemoryMap, operand: Operand) -> (cycles: u32)
    requires
        !(operand is Implied),
        old(mem).wf(),
        old(mem).loaded(),
    ensures
        final(mem).wf(),
        final(mem).loaded(),
        operand_read_rel(old(mem), final(mem), operand),
        ({
            let v = operand_value(old(mem), operand);
            *final(reg) == (CpuRegisters {
                y: v,
                p: Status { zero: v == 0, negative: n_flag(v), ..old(reg).p },
                ..*old(reg)
            })
        }),
        cycles == operand_cycles(operand),
{
    let (val, cycles): (u8, u32) = match operand {
        Operand::Address(addr) => (mem.read_byte(addr), 1),
        Operand::Value(v) => (v, 0),
        Operand::Implied => unreached(),
    };
    reg.y = val;
    reg.p.zero = val == 0;
    reg.p.negative = val & 0x80 != 0;
    cycles
}

/// ORA: bitwise OR into the accumulator; the zero and negative flags follow the result.
pub fn run_ora(reg: &mut CpuRegisters, mem: &mut MemoryMap, operand: Operand) -> (cycles: u32)
    requires
        !(operand is Implied),
        old(mem).wf(),
        old(mem).loaded(),
    ensures
        final(mem).wf(),
        final(mem).loaded(),
        operand_read_rel(old(mem), final(mem), operand),
        ({
            let v = operand_value(old(mem), operand);
            let res = old(reg).a | v;
            *final(reg) == (CpuRegisters {
                a: res,
                p: Status { zero: res == 0, negative: n_flag(res), ..old(reg).p },
                ..*old(reg)
            })
        }),
        cycles == operand_cycles(operand),
{
    let (val, cycles): (u8, u32) = match operand {
        Operand::Address(addr) => (mem.read_byte(addr), 1),
        Operand::Value(v) => (v, 0),
        Operand::Implied => unreached(),
    };
    reg.a = reg.a | val;
    reg.p.zero = reg.a == 0;
    reg.p.negative = reg.a & 0x80 != 0;
    cycles
}

/// EOR: bitwise exclusive OR into the accumulator; the zero and negative flags follow the result.
pub fn run_eor(reg: &mut CpuRegisters, mem: &mut MemoryMap, operand: Operand) -> (cycles: u32)
    requires
        !(operand is Implied),
        old(mem).wf(),
        old(mem).loaded(),
    ensures
        final(mem).wf(),
        final(mem).loaded(),
        operand_read_rel(old(mem), final(mem), operand),
        ({
            let v = operand_value(old(mem), operand);
            let res = old(reg).a ^ v;
            *final(reg) == (CpuRegisters {
                a: res,
                p: Status { zero: res == 0, negative: n_flag(res), ..old(reg).p },
                ..*old(reg)
            })
        }),
        cycles == operand_cycles(operand),
{
    let (val, cycles): (u8, u32) = match operand {
        Operand::Address(addr) => (mem.read_byte(addr), 1),
        Operand::Value(v) => (v, 0),
        Operand::Implied => unreached(),
    };
    reg.a = reg.a ^ val;
    reg.p.zero = reg.a == 0;
    reg.p.negative = reg.a & 0x80 != 0;
    cycles
}

/// AND: bitwise AND into the accumulator; the zero and negative flags follow the result.
pub fn run_and(reg: &mut CpuRegisters, mem: &mut MemoryMap, operand: Operand) -> (cycles: u32)
    requires
        !(operand is Implied),
        old(mem).wf(),
        old(mem).loaded(),
    ensures
        final(mem).wf(),
        final(mem).loaded(),
        operand_read_rel(old(mem), final(mem), operand),
        ({
            let v = operand_value(old(mem), operand);
            let res = old(reg).a & v;
            *final(reg) == (CpuRegisters {
                a: res,
                p: Status { zero: res == 0, negative: n_flag(res), ..old(reg).p },
                ..*old(reg)
            })
        }),
        cycles == operand_cycles(operand),
{
    let (val, cycles): (u8, u32) = match operand {
        Operand::Address(addr) => (mem.read_byte(addr), 1),
        Operand::Value(v) => (v, 0),
        Operand::Implied => unreached(),
    };
    reg.a = reg.a & val;
    reg.p.zero = reg.a == 0;
    reg.p.negative = reg.a & 0x80 != 0;
    cycles
}

/// CMP: compares the accumulator with the operand: computes the wrapping difference only to set the zero,
/// negative and carry flags; no register stores the result.
pub fn run_cmp(reg: &mut CpuRegisters, mem: &mut MemoryMap, operand: Operand) -> (cycles: u32)
    requires
        !(operand is Implied),
        old(mem).wf(),
        old(mem).loaded(),
    ensures
        final(mem).wf(),
        final(mem).loaded(),
        operand_read_rel(old(mem), final(mem), operand),
        ({
            let v = operand_value(old(mem), operand);
            let res = wsub8(old(reg).a, v);
            *final(reg) == (CpuRegisters {
                p: Status {
                    zero: res == 0,
                    negative: n_flag(res),
                    carry: v <= old(reg).a,
                    ..old(reg).p
                },
                ..*old(reg)
            })
        }),
        cycles == operand_cycles(operand),
{
    let (val, cycles): (u8, u32) = match operand {
        Operand::Address(addr) => (mem.read_byte(addr), 1),
        Operand::Value(v) => (v, 0),
        Operand::Implied => unreached(),
    };
    let result: u8 = if reg.a >= val {
        reg.a - val
    } else {
        ((reg.a as u16 + 256) - val as u16) as u8
    };
    reg.p.zero = result == 0;
    reg.p.negative = result & 0x80 != 0;
    reg.p.carry = val <= reg.a;
    cycles
}

/// CPX: compares X with the operand: computes the wrapping difference only to set the zero,
/// negative and carry flags; no register stores the result.
pub fn run_cpx(reg: &mut CpuRegisters, mem: &mut MemoryMap, operand: Operand) -> (cycles: u32)
    requires
        !(operand is Implied),
        old(mem).wf(),
        old(mem).loaded(),
    ensures
        final(mem).wf(),
        final(mem).loaded(),
        operand_read_rel(old(mem), final(mem), operand),
        ({
            let v = operand_value(old(mem), operand);
            let res = wsub8(old(reg).x, v);
            *final(reg) == (CpuRegisters {
                p: Status {
                    zero: res == 0,
                    negative: n_flag(res),
                    carry: v <= old(reg).x,
                    ..old(reg).p
                },
                ..*old(reg)
            })
        }),
        cycles == operand_cycles(operand),
{
    let (val, cycles): (u8, u32) = match operand {
        Operand::Address(addr) => (mem.read_byte(addr), 1),
        Operand::Value(v) => (v, 0),
        Operand::Implied => unreached(),
    };
    let result: u8 = if reg.x >= val {
        reg.x - val
    } else {
        ((reg.x as u16 + 256) - val as u16) as u8
    };
    reg.p.zero = result == 0;
    reg.p.negative = result & 0x80 != 0;
    reg.p.carry = val <= reg.x;
    cycles
}

/// CPY: compares Y with the operand: computes the wrapping difference only to set the zero,
/// negative and carry flags; no register stores the result.
pub fn run_cpy(reg: &mut CpuRegisters, mem: &mut MemoryMap, operand: Operand) -> (cycles: u32)
    requires
        !(operand is Implied),
        old(mem).wf(),
        old(mem).loaded(),
    ensures
        final(mem).wf(),
        final(mem).loaded(),
        operand_read_rel(old(mem), final(mem), operand),
        ({
            let v = operand_value(old(mem), operand);
            let res = wsub8(old(reg).y, v);
            *final(reg) == (CpuRegisters {
                p: Status {
                    zero: res == 0,
                    negative: n_flag(res),
                    carry: v <= old(reg).y,
                    ..old(reg).p
                },
                ..*old(reg)
            })
        }),
        cycles == operand_cycles(operand),
{
    let (val, cycles): (u8, u32) = match operand {
        Operand::Address(addr) => (mem.read_byte(addr), 1),
        Operand::Value(v) => (v, 0),
        Operand::Implied => unreached(),
    };
    let result: u8 = if reg.y >= val {
        reg.y - val
    } else {
        ((reg.y as u16 + 256) - val as u16) as u8
    };
    reg.p.zero = result == 0;
    reg.p.negative = result & 0x80 != 0;
    reg.p.carry = val <= reg.y;
    cycles
}

/// The accumulator, flag and carry outcome of an add-with-carry:
/// unsigned 8-bit addition with carry in and out, overflow from the
/// signed view.
pub open spec fn adc_effect(pre: CpuRegisters, v: u8) -> CpuRegisters {
    let cin: int = if pre.p.carry {
        1
    } else {
        0
    };
    let sum: int = pre.a + v + cin;
    let res: u8 = (sum % 256) as u8;
    CpuRegisters {
        a: res,
        p: Status {
            zero: res == 0,
            negative: sum % 256 >= 128,
            carry: sum > 255,
            overflow: ((!(pre.a ^ v)) & (pre.a ^ res) & 0x80) != 0,
            ..pre.p
        },
        ..pre
    }
}

/// ADC: adds the operand and the carry into the accumulator.
pub fn run_adc(reg: &mut CpuRegisters, mem: &mut MemoryMap, operand: Operand) -> (cycles: u32)
    requires
        !(operand is Implied),
        old(mem).wf(),
        old(mem).loaded(),
    ensures
        final(mem).wf(),
        final(mem).loaded(),
        operand_read_rel(old(mem), final(mem), operand),
        *final(reg) == adc_effect(*old(reg), operand_value(old(mem), operand)),
        cycles == operand_cycles(operand),
{
    let (val, cycles): (u8, u32) = match operand {
        Operand::Address(addr) => (mem.read_byte(addr), 1),
        Operand::Value(v) => (v, 0),
        Operand::Implied => unreached(),
    };
    let mut result: u16 = reg.a as u16 + val as u16;
    if reg.p.carry {
        result = result + 1;
    }
    let truncated_result: u8 = (result & 0x00FF) as u8;
    let overflow: bool = (!(reg.a ^ val)) & (reg.a ^ truncated_result) & 0x80 != 0;
    proof {
        lemma_byte_arith();
    }
    reg.a = truncated_result;
    reg.p.zero = truncated_result == 0;
    reg.p.negative = truncated_result & 0x80 != 0;
    reg.p.carry = result > 0xFF;
    reg.p.overflow = overflow;
    cycles
}

/// SBC: subtract-with-carry, implemented as add-with-carry of the
/// operand's bitwise complement, so carry and overflow derive
/// identically.
pub fn run_sbc(reg: &mut CpuRegisters, mem: &mut MemoryMap, operand: Operand) -> (cycles: u32)
    requires
        !(operand is Implied),
        old(mem).wf(),
        old(mem).loaded(),
    ensures
        final(mem).wf(),
        final(mem).loaded(),
        operand_read_rel(old(mem), final(mem), operand),
        *final(reg) == adc_effect(*old(reg), !operand_value(old(mem), operand)),
        cycles == operand_cycles(operand),
{
    let (val, cycles): (u8, u32) = match operand {
        Operand::Address(addr) => (mem.read_byte(addr), 1),
        Operand::Value(v) => (v, 0),
        Operand::Implied => unreached(),
    };
    cycles + run_adc(reg, mem, Operand::Value(!val))
}

/// BIT: tests memory against the accumulator, copying the operand's
/// top two bits into the negative and overflow flags.
pub fn run_bit(reg: &mut CpuRegisters, mem: &mut MemoryMap, operand: Operand) -> (cycles: u32)
    requires
        operand is Address,
        old(mem).wf(),
        old(mem).loaded(),
    ensures
        final(mem).wf(),
        final(mem).loaded(),
        operand_read_rel(old(mem), final(mem), operand),
        ({
            let v = operand_value(old(mem), operand);
            *final(reg) == (CpuRegisters {
                p: Status {
                    zero: (v & old(reg).a) == 0,
                    negative: v & 0x80 != 0,
                    overflow: v & 0x40 != 0,
                    ..old(reg).p
                },
                ..*old(reg)
            })
        }),
        cycles == 1,
{
    let addr = match operand {
        Operand::Address(a) => a,
        _ => unreached(),
    };
    let val = mem.read_byte(addr);
    reg.p.zero = (val & reg.a) == 0;
    reg.p.negative = val & 0x80 != 0;
    reg.p.overflow = val & 0x40 != 0;
    1
}

/// JMP: loads the program counter with the operand address.
pub fn run_jmp(reg: &mut CpuRegisters, operand: Operand) -> (cycles: u32)
    requires
        operand is Address,
    ensures
        operand matches Operand::Address(addr) ==> *final(reg) == (CpuRegisters {
            pc: addr,
            ..*old(reg)
        }),
        cycles == 0,
{
    let addr = match operand {
        Operand::Address(a) => a,
        _ => unreached(),
    };
    reg.pc = addr;
    0
}

/// STA: stores the accumulator at the operand address; no flag moves. Fails only when the
/// write lands in ROM-backed pattern space through the PPU.
pub fn run_sta(reg: &mut CpuRegisters, mem: &mut MemoryMap, operand: Operand) -> (r: Result<
    u32,
    EmuError,
>)
    requires
        operand is Address,
        old(mem).wf(),
        old(mem).loaded(),
    ensures
        final(mem).wf(),
        final(mem).loaded(),
        *final(reg) == *old(reg),
        r matches Ok(n) ==> 1 <= n <= 514,
        r matches Err(e) ==> e is ChrWrite,
        operand matches Operand::Address(addr) ==> (r matches Ok(n) ==> n >= 1 && bus_write_rel(
            old(mem),
            final(mem),
            addr,
            old(reg).a,
            Ok((n - 1) as u32),
        )) && (r matches Err(e) ==> bus_write_rel(
            old(mem),
            final(mem),
            addr,
            old(reg).a,
            Err(e),
        )),
{
    let addr = match operand {
        Operand::Address(a) => a,
        _ => unreached(),
    };
    match mem.write_byte(addr, reg.a) {
        Ok(hidden) => Ok(1 + hidden),
        Err(e) => Err(e),
    }
}

/// STX: stores the X register at the operand address; no flag moves. Fails only when the
/// write lands in ROM-backed pattern space through the PPU.
pub fn run_stx(reg: &mut CpuRegisters, mem: &mut MemoryMap, operand: Operand) -> (r: Result<
    u32,
    EmuError,
>)
    requires
        operand is Address,
        old(mem).wf(),
        old(mem).loaded(),
    ensures
        final(mem).wf(),
        final(mem).loaded(),
        *final(reg) == *old(reg),
        r matches Ok(n) ==> 1 <= n <= 514,
        r matches Err(e) ==> e is ChrWrite,
        operand matches Operand::Address(addr) ==> (r matches Ok(n) ==> n >= 1 && bus_write_rel(
            old(mem),
            final(mem),
            addr,
            old(reg).x,
            Ok((n - 1) as u32),
        )) && (r matches Err(e) ==> bus_write_rel(
            old(mem),
            final(mem),
            addr,
            old(reg).x,
            Err(e),
        )),
{
    let addr = match operand {
        Operand::Address(a) => a,
        _ => unreached(),
    };
    match mem.write_byte(addr, reg.x) {
        Ok(hidden) => Ok(1 + hidden),
        Err(e) => Err(e),
    }
}

/// STY: stores the Y register at the operand address; no flag moves. Fails only when the
/// write lands in ROM-backed pattern space through the PPU.
pub fn run_sty(reg: &mut CpuRegisters, mem: &mut MemoryMap, operand: Operand) -> (r: Result<
    u32,
    EmuError,
>)
    requires
        operand is Address,
        old(mem).wf(),
        old(mem).loaded(),
    ensures
        final(mem).wf(),
        final(mem).loaded(),
        *final(reg) == *old(reg),
        r matches Ok(n) ==> 1 <= n <= 514,
        r matches Err(e) ==> e is ChrWrite,
        operand matches Operand::Address(addr) ==> (r matches Ok(n) ==> n >= 1 && bus_write_rel(
            old(mem),
            final(mem),
            addr,
            old(reg).y,
            Ok((n - 1) as u32),
        )) && (r matches Err(e) ==> bus_write_rel(
            old(mem),
            final(mem),
            addr,
            old(reg).y,
            Err(e),
        )),
{
    let addr = match operand {
        Operand::Address(a) => a,
        _ => unreached(),
    };
    match mem.write_byte(addr, reg.y) {
        Ok(hidden) => Ok(1 + hidden),
        Err(e) => Err(e),
    }
}

/// ASL: arithmetic shift left of the accumulator or a memory operand; the carry takes the bit shifted out. A memory form reads, shifts and writes back through the
/// same address.
pub fn run_asl(reg: &mut CpuRegisters, mem: &mut MemoryMap, operand: Operand) -> (r: Result<
    u32,
    EmuError,
>)
    requires
        !(operand is Value),
        old(mem).wf(),
        old(mem).loaded(),
    ensures
        final(mem).wf(),
        final(mem).loaded(),
        r matches Ok(n) ==> 1 <= n <= 516,
        r matches Err(e) ==> e is ChrWrite,
        operand is Implied ==> ({
            let v = old(reg).a;
            let cin = old(reg).p.carry;
            let res: u8 = (v << 1) as u8;
            r == Ok::<u32, EmuError>(1) && *final(mem) == *old(mem) && *final(reg)
                == (CpuRegisters {
                a: res,
                p: Status {
                    zero: res == 0,
                    carry: v & 0x80 != 0,
                    negative: n_flag(res),
                    ..old(reg).p
                },
                ..*old(reg)
            })
        }),
        operand matches Operand::Address(addr) ==> ({
            let v = bus_read_val(old(mem), addr);
            let cin = old(reg).p.carry;
            let res: u8 = (v << 1) as u8;
            *final(reg) == (CpuRegisters {
                p: Status {
                    zero: res == 0,
                    carry: v & 0x80 != 0,
                    negative: n_flag(res),
                    ..old(reg).p
                },
                ..*old(reg)
            }) && (r matches Ok(n) ==> n >= 3 && bus_write_rel(
                &bus_read_post(old(mem), addr),
                final(mem),
                addr,
                res,
                Ok((n - 3) as u32),
            )) && (r matches Err(e) ==> bus_write_rel(
                &bus_read_post(old(mem), addr),
                final(mem),
                addr,
                res,
                Err(e),
            ))
        }),
{
    match operand {
        Operand::Value(_) => unreached(),
        Operand::Implied => {
            let val = reg.a;
            let carry_in = reg.p.carry;
            let carry = val & 0x80 != 0;
            let result: u8 = val << 1;
            reg.a = result;
            reg.p.zero = result == 0;
            reg.p.carry = carry;
            reg.p.negative = result & 0x80 != 0;
            Ok(1)
        },
        Operand::Address(addr) => {
            let val = mem.read_byte(addr);
            let carry_in = reg.p.carry;
            let carry = val & 0x80 != 0;
            let result: u8 = val << 1;
            reg.p.zero = result == 0;
            reg.p.carry = carry;
            reg.p.negative = result & 0x80 != 0;
            match mem.write_byte(addr, result) {
                Ok(hidden) => Ok(3 + hidden),
                Err(e) => Err(e),
            }
        },
    }
}

/// ROL: rotate left through the carry of the accumulator or a memory operand. A memory form reads, shifts and writes back through the
/// same address.
pub fn run_rol(reg: &mut CpuRegisters, mem: &mut MemoryMap, operand: Operand) -> (r: Result<
    u32,
    EmuError,
>)
    requires
        !(operand is Value),
        old(mem).wf(),
        old(mem).loaded(),
    ensures
        final(mem).wf(),
        final(mem).loaded(),
        r matches Ok(n) ==> 1 <= n <= 516,
        r matches Err(e) ==> e is ChrWrite,
        operand is Implied ==> ({
            let v = old(reg).a;
            let cin = old(reg).p.carry;
            let res: u8 = ((v << 1) | (if cin { 1u8 } else { 0u8 })) as u8;
            r == Ok::<u32, EmuError>(1) && *final(mem) == *old(mem) && *final(reg)
                == (CpuRegisters {
                a: res,
                p: Status {
                    zero: res == 0,
                    carry: v & 0x80 != 0,
                    negative: n_flag(res),
                    ..old(reg).p
                },
                ..*old(reg)
            })
        }),
        operand matches Operand::Address(addr) ==> ({
            let v = bus_read_val(old(mem), addr);
            let cin = old(reg).p.carry;
            let res: u8 = ((v << 1) | (if cin { 1u8 } else { 0u8 })) as u8;
            *final(reg) == (CpuRegisters {
                p: Status {
                    zero: res == 0,
                    carry: v & 0x80 != 0,
                    negative: n_flag(res),
                    ..old(reg).p
                },
                ..*old(reg)
            }) && (r matches Ok(n) ==> n >= 3 && bus_write_rel(
                &bus_read_post(old(mem), addr),
                final(mem),
                addr,
                res,
                Ok((n - 3) as u32),
            )) && (r matches Err(e) ==> bus_write_rel(
                &bus_read_post(old(mem), addr),
                final(mem),
                addr,
                res,
                Err(e),
            ))
        }),
{
    match operand {
        Operand::Value(_) => unreached(),
        Operand::Implied => {
            let val = reg.a;
            let carry_in = reg.p.carry;
            let carry = val & 0x80 != 0;
            let result: u8 = (val << 1) | (if carry_in { 1u8 } else { 0u8 });
            reg.a = result;
            reg.p.zero = result == 0;
            reg.p.carry = carry;
            reg.p.negative = result & 0x80 != 0;
            Ok(1)
        },
        Operand::Address(addr) => {
            let val = mem.read_byte(addr);
            let carry_in = reg.p.carry;
            let carry = val & 0x80 != 0;
            let result: u8 = (val << 1) | (if carry_in { 1u8 } else { 0u8 });
            reg.p.zero = result == 0;
            reg.p.carry = carry;
            reg.p.negative = result & 0x80 != 0;
            match mem.write_byte(addr, result) {
                Ok(hidden) => Ok(3 + hidden),
                Err(e) => Err(e),
            }
        },
    }
}

/// ROR: rotate right through the carry of the accumulator or a memory operand. A memory form reads, shifts and writes back through the
/// same address.
pub fn run_ror(reg: &mut CpuRegisters, mem: &mut MemoryMap, operand: Operand) -> (r: Result<
    u32,
    EmuError,
>)
    requires
        !(operand is Value),
        old(mem).wf(),
        old(mem).loaded(),
    ensures
        final(mem).wf(),
        final(mem).loaded(),
        r matches Ok(n) ==> 1 <= n <= 516,
        r matches Err(e) ==> e is ChrWrite,
        operand is Implied ==> ({
            let v = old(reg).a;
            let cin = old(reg).p.carry;
            let res: u8 = ((v >> 1) | (if cin { 0x80u8 } else { 0u8 })) as u8;
            r == Ok::<u32, EmuError>(1) && *final(mem) == *old(mem) && *final(reg)
                == (CpuRegisters {
                a: res,
                p: Status {
                    zero: res == 0,
                    carry: v & 0x01 == 1,
                    negative: n_flag(res),
                    ..old(reg).p
                },
                ..*old(reg)
            })
        }),
        operand matches Operand::Address(addr) ==> ({
            let v = bus_read_val(old(mem), addr);
            let cin = old(reg).p.carry;
            let res: u8 = ((v >> 1) | (if cin { 0x80u8 } else { 0u8 })) as u8;
            *final(reg) == (CpuRegisters {
                p: Status {
                    zero: res == 0,
                    carry: v & 0x01 == 1,
                    negative: n_flag(res),
                    ..old(reg).p
                },
                ..*old(reg)
            }) && (r matches Ok(n) ==> n >= 3 && bus_write_rel(
                &bus_read_post(old(mem), addr),
                final(mem),
                addr,
                res,
                Ok((n - 3) as u32),
            )) && (r matches Err(e) ==> bus_write_rel(
                &bus_read_post(old(mem), addr),
                final(mem),
                addr,
                res,
                Err(e),
            ))
        }),
{
    match operand {
        Operand::Value(_) => unreached(),
        Operand::Implied => {
            let val = reg.a;
            let carry_in = reg.p.carry;
            let carry = val & 0x01 == 1;
            let result: u8 = (val >> 1) | (if carry_in { 0x80u8 } else { 0u8 });
            reg.a = result;
            reg.p.zero = result == 0;
            reg.p.carry = carry;
            reg.p.negative = result & 0x80 != 0;
            Ok(1)
        },
        Operand::Address(addr) => {
            let val = mem.read_byte(addr);
            let carry_in = reg.p.carry;
            let carry = val & 0x01 == 1;
            let result: u8 = (val >> 1) | (if carry_in { 0x80u8 } else { 0u8 });
            reg.p.zero = result == 0;
            reg.p.carry = carry;
            reg.p.negative = result & 0x80 != 0;
            match mem.write_byte(addr, result) {
                Ok(hidden) => Ok(3 + hidden),
                Err(e) => Err(e),
            }
        },
    }
}

/// LSR: logical shift right of the accumulator or a memory operand; the negative flag clears. A memory form reads, shifts and writes back through the
/// same address.
pub fn run_lsr(reg: &mut CpuRegisters, mem: &mut MemoryMap, operand: Operand) -> (r: Result<
    u32,
    EmuError,
>)
    requires
        !(operand is Value),
        old(mem).wf(),
        old(mem).loaded(),
    ensures
        final(mem).wf(),
        final(mem).loaded(),
        r matches Ok(n) ==> 1 <= n <= 516,
        r matches Err(e) ==> e is ChrWrite,
        operand is Implied ==> ({
            let v = old(reg).a;
            let cin = old(reg).p.carry;
            let res: u8 = (v >> 1) as u8;
            r == Ok::<u32, EmuError>(1) && *final(mem) == *old(mem) && *final(reg)
                == (CpuRegisters {
                a: res,
                p: Status {
                    zero: res == 0,
                    carry: v & 0x01 == 1,
                    negative: false,
                    ..old(reg).p
                },
                ..*old(reg)
            })
        }),
        operand matches Operand::Address(addr) ==> ({
            let v = bus_read_val(old(mem), addr);
            let cin = old(reg).p.carry;
            let res: u8 = (v >> 1) as u8;
            *final(reg) == (CpuRegisters {
                p: Status {
                    zero: res == 0,
                    carry: v & 0x01 == 1,
                    negative: false,
                    ..old(reg).p
                },
                ..*old(reg)
            }) && (r matches Ok(n) ==> n >= 3 && bus_write_rel(
                &bus_read_post(old(mem), addr),
                final(mem),
                addr,
                res,
                Ok((n - 3) as u32),
            )) && (r matches Err(e) ==> bus_write_rel(
                &bus_read_post(old(mem), addr),
                final(mem),
                addr,
                res,
                Err(e),
            ))
        }),
{
    match operand {
        Operand::Value(_) => unreached(),
        Operand::Implied => {
            let val = reg.a;
            let carry_in = reg.p.carry;
            let carry = val & 0x01 == 1;
            let result: u8 = val >> 1;
            reg.a = result;
            reg.p.zero = result == 0;
            reg.p.carry = carry;
            reg.p.negative = false;
            Ok(1)
        },
        Operand::Address(addr) => {
            let val = mem.read_byte(addr);
            let carry_in = reg.p.carry;
            let carry = val & 0x01 == 1;
            let result: u8 = val >> 1;
            reg.p.zero = result == 0;
            reg.p.carry = carry;
            reg.p.negative = false;
            match mem.write_byte(addr, result) {
                Ok(hidden) => Ok(3 + hidden),
                Err(e) => Err(e),
            }
        },
    }
}

/// INC: increments a memory byte with 8-bit wraparound; the zero and negative flags follow the result, written
/// back through the same address.
pub fn run_inc(reg: &mut CpuRegisters, mem: &mut MemoryMap, operand: Operand) -> (r: Result<
    u32,
    EmuError,
>)
    requires
        operand is Address,
        old(mem).wf(),
        old(mem).loaded(),
    ensures
        final(mem).wf(),
        final(mem).loaded(),
        r matches Ok(n) ==> 3 <= n <= 516,
        r matches Err(e) ==> e is ChrWrite,
        operand matches Operand::Address(addr) ==> ({
            let v = bus_read_val(old(mem), addr);
            let res: u8 = winc8(v);
            *final(reg) == (CpuRegisters {
                p: Status { zero: res == 0, negative: n_flag(res), ..old(reg).p },
                ..*old(reg)
            }) && (r matches Ok(n) ==> n >= 3 && bus_write_rel(
                &bus_read_post(old(mem), addr),
                final(mem),
                addr,
                res,
                Ok((n - 3) as u32),
            )) && (r matches Err(e) ==> bus_write_rel(
                &bus_read_post(old(mem), addr),
                final(mem),
                addr,
                res,
                Err(e),
            ))
        }),
{
    let addr = match operand {
        Operand::Address(a) => a,
        _ => unreached(),
    };
    let val = mem.read_byte(addr);
    let result = winc_exec(val);
    reg.p.zero = result == 0;
    reg.p.negative = result & 0x80 != 0;
    match mem.write_byte(addr, result) {
        Ok(hidden) => Ok(3 + hidden),
        Err(e) => Err(e),
    }
}

/// DEC: decrements a memory byte with 8-bit wraparound; the zero and negative flags follow the result, written
/// back through the same address.
pub fn run_dec(reg: &mut CpuRegisters, mem: &mut MemoryMap, operand: Operand) -> (r: Result<
    u32,
    EmuError,
>)
    requires
        operand is Address,
        old(mem).wf(),
        old(mem).loaded(),
    ensures
        final(mem).wf(),
        final(mem).loaded(),
        r matches Ok(n) ==> 3 <= n <= 516,
        r matches Err(e) ==> e is ChrWrite,
        operand matches Operand::Address(addr) ==> ({
            let v = bus_read_val(old(mem), addr);
            let res: u8 = wdec8(v);
            *final(reg) == (CpuRegisters {
                p: Status { zero: res == 0, negative: n_flag(res), ..old(reg).p },
                ..*old(reg)
            }) && (r matches Ok(n) ==> n >= 3 && bus_write_rel(
                &bus_read_post(old(mem), addr),
                final(mem),
                addr,
                res,
                Ok((n - 3) as u32),
            )) && (r matches Err(e) ==> bus_write_rel(
                &bus_read_post(old(mem), addr),
                final(mem),
                addr,
                res,
                Err(e),
            ))
        }),
{
    let addr = match operand {
        Operand::Address(a) => a,
        _ => unreached(),
    };
    let val = mem.read_byte(addr);
    let result = wdec_exec(val);
    reg.p.zero = result == 0;
    reg.p.negative = result & 0x80 != 0;
    match mem.write_byte(addr, result) {
        Ok(hidden) => Ok(3 + hidden),
        Err(e) => Err(e),
    }
}


/// Everything on the bus but RAM, unchanged.
pub open spec fn mem_same_but_ram(pre: &MemoryMap, post: &MemoryMap) -> bool {
    post.apu_reg@ == pre.apu_reg@ && post.apu_test_reg@ == pre.apu_test_reg@ && post.ppu == pre.ppu
        && post.inputs == pre.inputs && post.cartridge == pre.cartridge
}

/// Pushes one byte at the stack page slot under the stack pointer,
/// then decrements the pointer with 8-bit wraparound.
pub fn push_stack(reg: &mut CpuRegisters, mem: &mut MemoryMap, val: u8)
    requires
        old(mem).wf(),
        old(mem).loaded(),
    ensures
        final(mem).wf(),
        final(mem).loaded(),
        final(mem).ram@ == old(mem).ram@.update(0x100 + old(reg).s, val),
        mem_same_but_ram(old(mem), final(mem)),
        *final(reg) == (CpuRegisters { s: wdec8(old(reg).s), ..*old(reg) }),
{
    let addr = reg.s as u16 + 0x100;
    match mem.write_byte(addr, val) {
        Ok(_) => (),
        Err(_) => unreached(),
    }
    reg.s = wdec_exec(reg.s);
}

/// Increments the stack pointer with 8-bit wraparound, then pops the
/// byte at the stack page slot under it.
pub fn pop_stack(reg: &mut CpuRegisters, mem: &mut MemoryMap) -> (r: u8)
    requires
        old(mem).wf(),
        old(mem).loaded(),
    ensures
        final(mem).wf(),
        final(mem).loaded(),
        final(mem).ram@ == old(mem).ram@,
        mem_same_but_ram(old(mem), final(mem)),
        *final(reg) == (CpuRegisters { s: winc8(old(reg).s), ..*old(reg) }),
        r == old(mem).ram@[0x100 + winc8(old(reg).s)],
{
    reg.s = winc_exec(reg.s);
    mem.read_byte(reg.s as u16 + 0x100)
}

/// JSR: pushes the address of the last byte of the instruction (the
/// incremented program counter minus one), high byte first, then
/// jumps to the operand address.
pub fn run_jsr(reg: &mut CpuRegisters, mem: &mut MemoryMap, operand: Operand) -> (cycles: u32)
    requires
        operand is Address,
        old(mem).wf(),
        old(mem).loaded(),
    ensures
        final(mem).wf(),
        final(mem).loaded(),
        mem_same_but_ram(old(mem), final(mem)),
        operand matches Operand::Address(addr) ==> ({
            let ret = wdec16(old(reg).pc);
            final(mem).ram@ == old(mem).ram@.update(
                0x100 + old(reg).s,
                ((ret & 0xFF00) >> 8) as u8,
            ).update(0x100 + wdec8(old(reg).s), (ret & 0x00FF) as u8) && *final(reg)
                == (CpuRegisters { pc: addr, s: wdec8(wdec8(old(reg).s)), ..*old(reg) })
        }),
        cycles == 3,
{
    let addr = match operand {
        Operand::Address(a) => a,
        _ => unreached(),
    };
    let return_addr = if reg.pc == 0 {
        0xFFFFu16
    } else {
        reg.pc - 1
    };
    push_stack(reg, mem, ((return_addr & 0xFF00) >> 8) as u8);
    push_stack(reg, mem, (return_addr & 0x00FF) as u8);
    reg.pc = addr;
    3
}

/// RTS: pops the return address, low byte first, and resumes one
/// past it.
pub fn run_rts(reg: &mut CpuRegisters, mem: &mut MemoryMap, operand: Operand) -> (cycles: u32)
    requires
        operand is Implied,
        old(mem).wf(),
        old(mem).loaded(),
    ensures
        final(mem).wf(),
        final(mem).loaded(),
        final(mem).ram@ == old(mem).ram@,
        mem_same_but_ram(old(mem), final(mem)),
        ({
            let lo = old(mem).ram@[0x100 + winc8(old(reg).s)];
            let hi = old(mem).ram@[0x100 + winc8(winc8(old(reg).s))];
            *final(reg) == (CpuRegisters {
                pc: winc16(word_from_bytes(lo, hi)),
                s: winc8(winc8(old(reg).s)),
                ..*old(reg)
            })
        }),
        cycles == 5,
{
    let bl = pop_stack(reg, mem) as u16;
    let bh = pop_stack(reg, mem) as u16;
    let return_addr = (bh << 8) | bl;
    proof {
        let lo = bl as u8;
        let hi = bh as u8;
        assert(word_from_bytes(lo, hi) == ((hi as u16) << 8) | (lo as u16)) by (bit_vector);
    }
    reg.pc = if return_addr == 0xFFFF {
        0
    } else {
        return_addr + 1
    };
    5
}

/// PHA: pushes the accumulator.
pub fn run_pha(reg: &mut CpuRegisters, mem: &mut MemoryMap, operand: Operand) -> (cycles: u32)
    requires
        operand is Implied,
        old(mem).wf(),
        old(mem).loaded(),
    ensures
        final(mem).wf(),
        final(mem).loaded(),
        mem_same_but_ram(old(mem), final(mem)),
        final(mem).ram@ == old(mem).ram@.update(0x100 + old(reg).s, old(reg).a),
        *final(reg) == (CpuRegisters { s: wdec8(old(reg).s), ..*old(reg) }),
        cycles == 2,
{
    push_stack(reg, mem, reg.a);
    2
}

/// PHP: pushes the flag byte with the break and reserved bits forced.
pub fn run_php(reg: &mut CpuRegisters, mem: &mut MemoryMap, operand: Operand) -> (cycles: u32)
    requires
        operand is Implied,
        old(mem).wf(),
        old(mem).loaded(),
    ensures
        final(mem).wf(),
        final(mem).loaded(),
        mem_same_but_ram(old(mem), final(mem)),
        final(mem).ram@ == old(mem).ram@.update(
            0x100 + old(reg).s,
            status_bits(old(reg).p) | 0x30,
        ),
        *final(reg) == (CpuRegisters { s: wdec8(old(reg).s), ..*old(reg) }),
        cycles == 2,
{
    let bits = reg.p.to_bits() | 0x30;
    push_stack(reg, mem, bits);
    2
}

/// PLA: pops into the accumulator; the zero and negative flags
/// follow the value.
pub fn run_pla(reg: &mut CpuRegisters, mem: &mut MemoryMap, operand: Operand) -> (cycles: u32)
    requires
        operand is Implied,
        old(mem).wf(),
        old(mem).loaded(),
    ensures
        final(mem).wf(),
        final(mem).loaded(),
        final(mem).ram@ == old(mem).ram@,
        mem_same_but_ram(old(mem), final(mem)),
        ({
            let v = old(mem).ram@[0x100 + winc8(old(reg).s)];
            *final(reg) == (CpuRegisters {
                a: v,
                s: winc8(old(reg).s),
                p: Status { zero: v == 0, negative: n_flag(v), ..old(reg).p },
                ..*old(reg)
            })
        }),
        cycles == 3,
{
    let v = pop_stack(reg, mem);
    reg.a = v;
    reg.p.zero = v == 0;
    reg.p.negative = v & 0x80 != 0;
    3
}

/// PLP: pops the full flag byte verbatim.
pub fn run_plp(reg: &mut CpuRegisters, mem: &mut MemoryMap, operand: Operand) -> (cycles: u32)
    requires
        operand is Implied,
        old(mem).wf(),
        old(mem).loaded(),
    ensures
        final(mem).wf(),
        final(mem).loaded(),
        final(mem).ram@ == old(mem).ram@,
        mem_same_but_ram(old(mem), final(mem)),
        *final(reg) == (CpuRegisters {
            s: winc8(old(reg).s),
            p: spec_status_from_bits(old(mem).ram@[0x100 + winc8(old(reg).s)]),
            ..*old(reg)
        }),
        cycles == 3,
{
    let v = pop_stack(reg, mem);
    reg.p = Status::from_bits(v);
    3
}

/// RTI: pops the flags (restoring every flag except the break bit,
/// and always forcing the reserved bit), then pops the return
/// address verbatim, with no adjustment.
pub fn run_rti(reg: &mut CpuRegisters, mem: &mut MemoryMap, operand: Operand) -> (cycles: u32)
    requires
        operand is Implied,
        old(mem).wf(),
        old(mem).loaded(),
    ensures
        final(mem).wf(),
        final(mem).loaded(),
        final(mem).ram@ == old(mem).ram@,
        mem_same_but_ram(old(mem), final(mem)),
        ({
            let flags = spec_status_from_bits(old(mem).ram@[0x100 + winc8(old(reg).s)]);
            let lo = old(mem).ram@[0x100 + winc8(winc8(old(reg).s))];
            let hi = old(mem).ram@[0x100 + winc8(winc8(winc8(old(reg).s)))];
            *final(reg) == (CpuRegisters {
                pc: word_from_bytes(lo, hi),
                s: winc8(winc8(winc8(old(reg).s))),
                p: Status { brk: old(reg).p.brk, ignored: true, ..flags },
                ..*old(reg)
            })
        }),
        cycles == 5,
{
    let flags = Status::from_bits(pop_stack(reg, mem));
    reg.p.negative = flags.negative;
    reg.p.overflow = flags.overflow;
    reg.p.decimal = flags.decimal;
    reg.p.it_disable = flags.it_disable;
    reg.p.zero = flags.zero;
    reg.p.carry = flags.carry;
    reg.p.ignored = true;
    let pc = pop_stack(reg, mem) as u16;
    let hi = pop_stack(reg, mem) as u16;
    let pc = pc | (hi << 8);
    reg.pc = pc;
    5
}

/// Law: add then subtract round-trips. Adding `b` to `a` with the
/// carry clear and then subtracting `b` from the sum with the carry
/// set returns the accumulator to exactly `a`, for every `a` and
/// `b`; the zero and negative flags afterwards follow `a` itself.
pub proof fn lemma_adc_sbc_complementary(r0: CpuRegisters, b: u8)
    requires
        !r0.p.carry,
    ensures
        ({
            let r1 = adc_effect(r0, b);
            let r2 = adc_effect(CpuRegisters { p: Status { carry: true, ..r1.p }, ..r1 }, !b);
            r2.a == r0.a && r2.p.zero == (r0.a == 0) && r2.p.negative == (r0.a >= 128)
        }),
{
    let r1 = adc_effect(r0, b);
    let sum1: int = r0.a + b;
    assert(r1.a == sum1 % 256);
    let r1b = CpuRegisters { p: Status { carry: true, ..r1.p }, ..r1 };
    assert(!b == (255 - b) as u8) by (bit_vector);
    let nb = !b;
    let sum2: int = r1.a + nb + 1;
    let r2 = adc_effect(r1b, nb);
    assert(r2.a == sum2 % 256);
    assert((sum1 % 256 + (255 - b) + 1) % 256 == r0.a) by {
        let m = sum1 % 256;
        assert(m == if sum1 < 256 {
            sum1
        } else {
            sum1 - 256
        });
    }
}


} // verus!
