use vstd::prelude::*;

use crate::errors::{EmuError, RomError};
use crate::memory_utils::word_from_bytes;

verus! {

/// How nametable addresses fold onto the PPU's two physical buffers.
#[derive(Clone, Copy, Debug, PartialEq, Eq, Structural)]
pub enum Mirroring {
    OneScreen,
    UpperBank,
    Vertical,
    Horizontal,
}

/// A cartridge's capability set: program reads and writes, graphics
/// reads and writes, and the active nametable mirroring mode.
///
/// The spec functions give each implementation's byte-level view; the
/// method contracts are stated over them, so a bus wired to any
/// implementation knows exactly what every access returns or changes.
pub trait Cartridge: Sized {
    /// Structural invariant (storage sizes).
    spec fn wf(&self) -> bool;

    /// The byte CPU-space address `address` reads (0 outside the
    /// mapped ranges, standing for the open bus).
    spec fn prg_byte(&self, address: u16) -> u8;

    /// The byte graphics-space address `address` (< 0x2000) reads.
    spec fn chr_byte(&self, address: u16) -> u8;

    /// Whether graphics storage accepts writes (RAM rather than ROM).
    spec fn chr_writable(&self) -> bool;

    /// The active mirroring mode.
    spec fn mirroring_spec(&self) -> Mirroring;

    /// How a program-space write changes the cartridge.
    spec fn prg_write_rel(&self, post: Self, address: u16, val: u8) -> bool;

    /// How a graphics-space write changes the cartridge.
    spec fn chr_write_rel(&self, post: Self, address: u16, val: u8) -> bool;

    fn read_byte(&self, address: u16) -> (r: u8)
        requires
            self.wf(),
        ensures
            r == self.prg_byte(address),
    ;

    fn read_word(&self, address: u16) -> (r: u16)
        requires
            self.wf(),
            address < 0xFFFF,
        ensures
            r == word_from_bytes(self.prg_byte(address), self.prg_byte((address + 1) as u16)),
    ;

    fn write_byte(&mut self, address: u16, val: u8)
        requires
            old(self).wf(),
        ensures
            final(self).wf(),
            final(self).mirroring_spec() == old(self).mirroring_spec() || address >= 0x8000,
            old(self).prg_write_rel(*final(self), address, val),
    ;

    fn read_chr(&self, address: u16) -> (r: u8)
        requires
            self.wf(),
            address < 0x2000,
        ensures
            r == self.chr_byte(address),
    ;

    fn write_byte_chr(&mut self, address: u16, val: u8) -> (r: Result<(), EmuError>)
        requires
            old(self).wf(),
            address < 0x2000,
        ensures
            final(self).wf(),
            r is Ok <==> old(self).chr_writable(),
            r is Ok ==> old(self).chr_write_rel(*final(self), address, val),
            r is Err ==> *final(self) == *old(self) && r == Err::<(), EmuError>(EmuError::ChrWrite),
    ;

    fn get_nt_mirroring(&self) -> (m: Mirroring)
        requires
            self.wf(),
        ensures
            m == self.mirroring_spec(),
    ;
}

/// Mapper 0 (NROM): a fixed 32KB program window (a 16KB image is
/// mirrored into both halves), fixed 8KB graphics ROM, and an 8KB
/// battery-backed RAM window at 0x6000.
pub struct CartridgeMapper0 {
    pub prg_rom: Vec<u8>,
    pub chr_rom: Vec<u8>,
    pub ram: Vec<u8>,
    pub mirrored: bool,
    pub nt_mirroring: Mirroring,
}

/// The byte mapper 0 serves for a program-space read.
pub open spec fn m0_prg_byte(c: &CartridgeMapper0, address: u16) -> u8 {
    if address < 0x6000 {
        0u8
    } else if address < 0x8000 {
        c.ram@[address - 0x6000]
    } else if c.mirrored {
        c.prg_rom@[(address - 0x8000) % 0x4000]
    } else {
        c.prg_rom@[address - 0x8000]
    }
}

/// How a program-space write changes mapper 0: RAM and (nominally
/// writable) ROM stores land at the mapped offset, anything below the
/// RAM window is ignored.
pub open spec fn m0_prg_write_rel(
    pre: &CartridgeMapper0,
    post: &CartridgeMapper0,
    address: u16,
    val: u8,
) -> bool {
    post.chr_rom@ == pre.chr_rom@ && post.mirrored == pre.mirrored && post.nt_mirroring
        == pre.nt_mirroring && if address < 0x6000 {
        post.ram@ == pre.ram@ && post.prg_rom@ == pre.prg_rom@
    } else if address < 0x8000 {
        post.ram@ == pre.ram@.update(address - 0x6000, val) && post.prg_rom@ == pre.prg_rom@
    } else {
        let offset: int = if pre.mirrored {
            (address - 0x8000) % 0x4000
        } else {
            address - 0x8000
        };
        post.ram@ == pre.ram@ && post.prg_rom@ == pre.prg_rom@.update(offset, val)
    }
}

impl CartridgeMapper0 {
    /// Builds the cartridge from a 16KB or 32KB program image and an
    /// 8KB graphics image.
    pub fn new(data: &[u8], chr_data: &[u8], nt_mirroring: Mirroring) -> (r: Self)
        requires
            data@.len() == 0x4000 || data@.len() == 0x8000,
            chr_data@.len() == 0x2000,
        ensures
            r.wf(),
            r.mirrored == (data@.len() == 0x4000),
            r.prg_rom@.subrange(0, data@.len() as int) == data@,
            r.chr_rom@ == chr_data@,
            r.ram@ == Seq::new(0x2000, |i: int| 0u8),
            r.nt_mirroring == nt_mirroring,
    {
        let mirrored = data.len() == 0x4000;
        let mut prg_rom: Vec<u8> = Vec::new();
        prg_rom.extend_from_slice(data);
        prg_rom.resize(0x8000, 0);
        let mut chr_rom: Vec<u8> = Vec::new();
        chr_rom.extend_from_slice(chr_data);
        let ram: Vec<u8> = vec![0u8; 0x2000];
        proof {
            assert(prg_rom@.subrange(0, data@.len() as int) =~= data@);
            assert(ram@ =~= Seq::new(0x2000, |i: int| 0u8));
        }
        Self { prg_rom, chr_rom, ram, mirrored, nt_mirroring }
    }

    /// Maps a program-space address to its backing buffer and offset.
    pub fn map_address(&self, address: u16) -> (r: (&[u8], usize))
        requires
            self.wf(),
            address >= 0x6000,
        ensures
            r.1 < r.0@.len(),
            r.0@[r.1 as int] == m0_prg_byte(self, address),
            address < 0x8000 ==> r.0@ == self.ram@ && r.1 == address - 0x6000,
            address >= 0x8000 ==> r.0@ == self.prg_rom@ && r.1 == if self.mirrored {
                (address - 0x8000) % 0x4000
            } else {
                (address - 0x8000) as int
            },
    {
        if address < 0x8000 {
            (self.ram.as_slice(), (address - 0x6000) as usize)
        } else {
            let offset = (address - 0x8000) as usize;
            let offset = if self.mirrored {
                offset % 0x4000
            } else {
                offset
            };
            (self.prg_rom.as_slice(), offset)
        }
    }
}

impl Cartridge for CartridgeMapper0 {
    open spec fn wf(&self) -> bool {
        self.prg_rom@.len() == 0x8000 && self.chr_rom@.len() == 0x2000 && self.ram@.len() == 0x2000
    }

    open spec fn prg_byte(&self, address: u16) -> u8 {
        m0_prg_byte(self, address)
    }

    open spec fn chr_byte(&self, address: u16) -> u8 {
        self.chr_rom@[address as int]
    }

    open spec fn chr_writable(&self) -> bool {
        false
    }

    open spec fn mirroring_spec(&self) -> Mirroring {
        self.nt_mirroring
    }

    open spec fn prg_write_rel(&self, post: Self, address: u16, val: u8) -> bool {
        m0_prg_write_rel(self, &post, address, val)
    }

    open spec fn chr_write_rel(&self, post: Self, address: u16, val: u8) -> bool {
        false
    }

    fn read_byte(&self, address: u16) -> (r: u8) {
        if address < 0x6000 {
            return 0;
        }
        let (buf, offset) = self.map_address(address);
        buf[offset]
    }

    fn read_word(&self, address: u16) -> (r: u16) {
        let lo = self.read_byte(address);
        let hi = self.read_byte(address + 1);
        (lo as u16) | ((hi as u16) << 8)
    }

    fn write_byte(&mut self, address: u16, val: u8) {
        if address < 0x6000 {
            // Below the RAM window: open bus, the write is lost.
        } else if address < 0x8000 {
            let idx = (address - 0x6000) as usize;
            self.ram[idx] = val;
        } else {
            let offset = (address - 0x8000) as usize;
            let offset = if self.mirrored {
                offset % 0x4000
            } else {
                offset
            };
            self.prg_rom[offset] = val;
        }
    }

    fn read_chr(&self, address: u16) -> (r: u8) {
        self.chr_rom[address as usize]
    }

    fn write_byte_chr(&mut self, address: u16, val: u8) -> (r: Result<(), EmuError>) {
        Err(EmuError::ChrWrite)
    }

    fn get_nt_mirroring(&self) -> (m: Mirroring) {
        self.nt_mirroring
    }
}

/// Which 16KB program window mapper 1 swaps in 16KB mode.
#[derive(Clone, Copy, Debug, PartialEq, Eq, Structural)]
pub enum PRGSwap {
    Swap8000,
    SwapC000,
}

/// Mapper 1's program-window arrangement.
#[derive(Clone, Copy, Debug, PartialEq, Eq, Structural)]
pub enum PRGSize {
    Size32k,
    Size16k(PRGSwap),
}

/// Mapper 1's graphics-window arrangement.
#[derive(Clone, Copy, Debug, PartialEq, Eq, Structural)]
pub enum CHRSize {
    Size8k,
    Size4k,
}

/// Mapper 1's decoded control register.
#[derive(Clone, Copy, Debug, PartialEq, Eq, Structural)]
pub struct ConfigReg {
    pub mirroring: Mirroring,
    pub prg_swapping: PRGSize,
    pub chr_swapping: CHRSize,
}

/// The control register decoded from a committed 5-bit value.
pub open spec fn spec_config_reg(reg: u8) -> ConfigReg {
    ConfigReg {
        mirroring: if reg & 0x03 == 0 {
            Mirroring::OneScreen
        } else if reg & 0x03 == 1 {
            Mirroring::UpperBank
        } else if reg & 0x03 == 2 {
            Mirroring::Vertical
        } else {
            Mirroring::Horizontal
        },
        prg_swapping: if (reg & 0x08) >> 3 == 0 {
            PRGSize::Size32k
        } else if (reg & 0x04) >> 2 == 0 {
            PRGSize::Size16k(PRGSwap::SwapC000)
        } else {
            PRGSize::Size16k(PRGSwap::Swap8000)
        },
        chr_swapping: if (reg & 0x10) >> 4 == 0 {
            CHRSize::Size8k
        } else {
            CHRSize::Size4k
        },
    }
}

impl ConfigReg {
    /// Decodes a committed 5-bit value: bits 0-1 mirroring, bit 2
    /// fixed-half selection, bit 3 window size, bit 4 graphics size.
    pub fn new(reg: u8) -> (r: Self)
        ensures
            r == spec_config_reg(reg),
    {
        Self {
            mirroring: if reg & 0x03 == 0 {
                Mirroring::OneScreen
            } else if reg & 0x03 == 1 {
                Mirroring::UpperBank
            } else if reg & 0x03 == 2 {
                Mirroring::Vertical
            } else {
                Mirroring::Horizontal
            },
            prg_swapping: if (reg & 0x08) >> 3 == 0 {
                PRGSize::Size32k
            } else if (reg & 0x04) >> 2 == 0 {
                PRGSize::Size16k(PRGSwap::SwapC000)
            } else {
                PRGSize::Size16k(PRGSwap::Swap8000)
            },
            chr_swapping: if (reg & 0x10) >> 4 == 0 {
                CHRSize::Size8k
            } else {
                CHRSize::Size4k
            },
        }
    }
}

/// Mapper 1's decoded program-bank register.
#[derive(Clone, Copy, Debug, PartialEq, Eq, Structural)]
pub struct PRGReg {
    pub bank: u8,
    pub wram_enable: bool,
}

/// The program-bank register decoded from a committed 5-bit value.
pub open spec fn spec_prg_reg(reg: u8) -> PRGReg {
    PRGReg { bank: reg & 0x0F, wram_enable: reg & 0x10 != 0 }
}

impl PRGReg {
    /// Decodes a committed 5-bit value: bits 0-3 the bank, bit 4 the
    /// RAM-enable line.
    pub fn new(reg: u8) -> (r: Self)
        ensures
            r == spec_prg_reg(reg),
    {
        Self { bank: reg & 0x0F, wram_enable: reg & 0x10 != 0 }
    }
}

/// Mapper 1's graphics storage: writable RAM when the header declares
/// no graphics ROM, read-only ROM otherwise.
pub enum MMC1Chr {
    Ram(Vec<u8>),
    Rom(Vec<u8>),
}

/// Mapper 1 (MMC1): 16KB program banks behind a serial 5-bit
/// configuration protocol, banked graphics storage, dynamic mirroring.
pub struct CartridgeMapper1 {
    pub prg_ram: Vec<u8>,
    pub prg_rom: Vec<u8>,
    pub chr: MMC1Chr,
    pub shift_register: u8,
    pub control_register: ConfigReg,
    pub chr_bank0_register: u8,
    pub chr_bank1_register: u8,
    pub pgr_bank_register: PRGReg,
}

/// The bytes behind mapper 1's graphics window, RAM or ROM alike.
pub open spec fn m1_chr_store(c: &CartridgeMapper1) -> Seq<u8> {
    match c.chr {
        MMC1Chr::Ram(v) => v@,
        MMC1Chr::Rom(v) => v@,
    }
}

/// Whether mapper 1's graphics storage is RAM.
pub open spec fn m1_chr_is_ram(c: &CartridgeMapper1) -> bool {
    c.chr is Ram
}

/// The number of 16KB program banks present.
pub open spec fn m1_prg_banks(c: &CartridgeMapper1) -> int {
    c.prg_rom@.len() as int / 0x4000
}

/// The bank index serving the 0x8000-0xBFFF window. Bank indices are
/// always taken modulo the number of physical banks present.
pub open spec fn m1_low_bank(c: &CartridgeMapper1) -> int {
    match c.control_register.prg_swapping {
        PRGSize::Size32k => ((c.pgr_bank_register.bank & 0x0E) as int) % m1_prg_banks(c),
        PRGSize::Size16k(PRGSwap::Swap8000) => (c.pgr_bank_register.bank as int) % m1_prg_banks(c),
        PRGSize::Size16k(PRGSwap::SwapC000) => 0,
    }
}

/// The bank index serving the 0xC000-0xFFFF window.
pub open spec fn m1_high_bank(c: &CartridgeMapper1) -> int {
    match c.control_register.prg_swapping {
        PRGSize::Size32k => (((c.pgr_bank_register.bank & 0x0E) as int) % m1_prg_banks(c) + 1)
            % m1_prg_banks(c),
        PRGSize::Size16k(PRGSwap::Swap8000) => m1_prg_banks(c) - 1,
        PRGSize::Size16k(PRGSwap::SwapC000) => (c.pgr_bank_register.bank as int) % m1_prg_banks(c),
    }
}

/// The byte mapper 1 serves for a program-space read.
pub open spec fn m1_prg_byte(c: &CartridgeMapper1, address: u16) -> u8 {
    if address < 0x6000 {
        0u8
    } else if address < 0x8000 {
        c.prg_ram@[address - 0x6000]
    } else if address < 0xC000 {
        c.prg_rom@[m1_low_bank(c) * 0x4000 + (address - 0x8000)]
    } else {
        c.prg_rom@[m1_high_bank(c) * 0x4000 + (address - 0xC000)]
    }
}

/// The flat offset into graphics storage that window address
/// `address` selects under the current banking configuration.
pub open spec fn m1_chr_offset(c: &CartridgeMapper1, address: u16) -> int {
    let store_len = m1_chr_store(c).len() as int;
    match c.control_register.chr_swapping {
        CHRSize::Size8k => ((c.chr_bank0_register >> 1) as int % (store_len / 0x2000)) * 0x2000
            + address,
        CHRSize::Size4k => if address < 0x1000 {
            (c.chr_bank0_register as int % (store_len / 0x1000)) * 0x1000 + address
        } else {
            (c.chr_bank1_register as int % (store_len / 0x1000)) * 0x1000 + (address - 0x1000)
        },
    }
}

/// All of mapper 1's state but the shift register, unchanged.
pub open spec fn m1_same_but_shift(pre: &CartridgeMapper1, post: &CartridgeMapper1) -> bool {
    post.prg_ram@ == pre.prg_ram@ && post.prg_rom@ == pre.prg_rom@ && m1_chr_store(post)
        == m1_chr_store(pre) && m1_chr_is_ram(post) == m1_chr_is_ram(pre) && post.control_register
        == pre.control_register && post.chr_bank0_register == pre.chr_bank0_register
        && post.chr_bank1_register == pre.chr_bank1_register && post.pgr_bank_register
        == pre.pgr_bank_register
}

/// How a program-space write changes mapper 1. Writes below 0x6000
/// are lost; 0x6000-0x7FFF stores into the work RAM; writes at 0x8000
/// and above drive the serial protocol: a set top bit resets the
/// shift register without committing, otherwise one bit enters the
/// register, and the fifth bit in a row commits the accumulated value
/// into the register selected by the address of the fifth write.
pub open spec fn m1_prg_write_rel(
    pre: &CartridgeMapper1,
    post: &CartridgeMapper1,
    address: u16,
    val: u8,
) -> bool {
    if address < 0x6000 {
        m1_same_but_shift(pre, post) && post.shift_register == pre.shift_register
    } else if address < 0x8000 {
        post.prg_ram@ == pre.prg_ram@.update(address - 0x6000, val) && post.prg_rom@
            == pre.prg_rom@ && m1_chr_store(post) == m1_chr_store(pre) && m1_chr_is_ram(post)
            == m1_chr_is_ram(pre) && post.control_register == pre.control_register
            && post.chr_bank0_register == pre.chr_bank0_register && post.chr_bank1_register
            == pre.chr_bank1_register && post.pgr_bank_register == pre.pgr_bank_register
            && post.shift_register == pre.shift_register
    } else if val & 0x80 != 0 {
        m1_same_but_shift(pre, post) && post.shift_register == 0x10
    } else {
        let done = pre.shift_register & 0x01 != 0;
        let sr2 = (pre.shift_register >> 1) | ((val & 0x01) << 4);
        if !done {
            m1_same_but_shift(pre, post) && post.shift_register == sr2
        } else {
            post.shift_register == 0x10 && post.prg_ram@ == pre.prg_ram@ && post.prg_rom@
                == pre.prg_rom@ && m1_chr_store(post) == m1_chr_store(pre) && m1_chr_is_ram(post)
                == m1_chr_is_ram(pre) && if address < 0xA000 {
                post.control_register == spec_config_reg(sr2) && post.chr_bank0_register
                    == pre.chr_bank0_register && post.chr_bank1_register == pre.chr_bank1_register
                    && post.pgr_bank_register == pre.pgr_bank_register
            } else if address < 0xC000 {
                post.control_register == pre.control_register && post.chr_bank0_register == sr2
                    && post.chr_bank1_register == pre.chr_bank1_register && post.pgr_bank_register
                    == pre.pgr_bank_register
            } else if address < 0xE000 {
                post.control_register == pre.control_register && post.chr_bank0_register
                    == pre.chr_bank0_register && post.chr_bank1_register == sr2
                    && post.pgr_bank_register == pre.pgr_bank_register
            } else {
                post.control_register == pre.control_register && post.chr_bank0_register
                    == pre.chr_bank0_register && post.chr_bank1_register == pre.chr_bank1_register
                    && post.pgr_bank_register == spec_prg_reg(sr2)
            }
        }
    }
}

impl CartridgeMapper1 {
    /// Builds the cartridge from its program image and graphics image;
    /// an empty graphics image means 8KB of graphics RAM.
    pub fn new(prg: Vec<u8>, chr: Vec<u8>, nt_mirroring: Mirroring) -> (r: Self)
        requires
            prg@.len() >= 0x4000,
            prg@.len() % 0x4000 == 0,
            chr@.len() % 0x2000 == 0,
        ensures
            r.wf(),
            r.prg_rom@ == prg@,
            r.prg_ram@ == Seq::new(0x2000, |i: int| 0u8),
            chr@.len() == 0 ==> m1_chr_is_ram(&r) && m1_chr_store(&r) == Seq::new(
                0x2000,
                |i: int| 0u8,
            ),
            chr@.len() > 0 ==> !m1_chr_is_ram(&r) && m1_chr_store(&r) == chr@,
            r.shift_register == 0x10,
            r.control_register == (ConfigReg {
                mirroring: nt_mirroring,
                prg_swapping: PRGSize::Size16k(PRGSwap::Swap8000),
                chr_swapping: CHRSize::Size8k,
            }),
            r.chr_bank0_register == 0,
            r.chr_bank1_register == 0,
            r.pgr_bank_register == (PRGReg { bank: 0, wram_enable: true }),
    {
        let chr_storage = if chr.len() > 0 {
            MMC1Chr::Rom(chr)
        } else {
            let ram: Vec<u8> = vec![0u8; 0x2000];
            proof {
                assert(ram@ =~= Seq::new(0x2000, |i: int| 0u8));
            }
            MMC1Chr::Ram(ram)
        };
        let prg_ram: Vec<u8> = vec![0u8; 0x2000];
        proof {
            assert(prg_ram@ =~= Seq::new(0x2000, |i: int| 0u8));
        }
        Self {
            prg_ram,
            prg_rom: prg,
            chr: chr_storage,
            shift_register: 0x10,
            control_register: ConfigReg {
                mirroring: nt_mirroring,
                prg_swapping: PRGSize::Size16k(PRGSwap::Swap8000),
                chr_swapping: CHRSize::Size8k,
            },
            chr_bank0_register: 0,
            chr_bank1_register: 0,
            pgr_bank_register: PRGReg { bank: 0, wram_enable: true },
        }
    }
}

impl Cartridge for CartridgeMapper1 {
    open spec fn wf(&self) -> bool {
        self.prg_ram@.len() == 0x2000 && self.prg_rom@.len() >= 0x4000 && self.prg_rom@.len()
            % 0x4000 == 0 && m1_chr_store(self).len() >= 0x2000 && m1_chr_store(self).len() % 0x2000
            == 0 && m1_chr_store(self).len() % 0x1000 == 0
    }

    open spec fn prg_byte(&self, address: u16) -> u8 {
        m1_prg_byte(self, address)
    }

    open spec fn chr_byte(&self, address: u16) -> u8 {
        m1_chr_store(self)[m1_chr_offset(self, address)]
    }

    open spec fn chr_writable(&self) -> bool {
        m1_chr_is_ram(self)
    }

    open spec fn mirroring_spec(&self) -> Mirroring {
        self.control_register.mirroring
    }

    open spec fn prg_write_rel(&self, post: Self, address: u16, val: u8) -> bool {
        m1_prg_write_rel(self, &post, address, val)
    }

    open spec fn chr_write_rel(&self, post: Self, address: u16, val: u8) -> bool {
        m1_chr_is_ram(&post) && m1_chr_store(&post) == m1_chr_store(self).update(
            m1_chr_offset(self, address),
            val,
        ) && post.prg_ram@ == self.prg_ram@ && post.prg_rom@ == self.prg_rom@
            && post.shift_register == self.shift_register && post.control_register
            == self.control_register && post.chr_bank0_register == self.chr_bank0_register
            && post.chr_bank1_register == self.chr_bank1_register && post.pgr_bank_register
            == self.pgr_bank_register
    }

    fn read_byte(&self, address: u16) -> (r: u8) {
        if address < 0x6000 {
            0
        } else if address < 0x8000 {
            self.prg_ram[(address - 0x6000) as usize]
        } else {
            let nbanks = self.prg_rom.len() / 0x4000;
            if address < 0xC000 {
                let bank = self.low_bank(nbanks);
                self.prg_rom[bank * 0x4000 + (address - 0x8000) as usize]
            } else {
                let bank = self.high_bank(nbanks);
                self.prg_rom[bank * 0x4000 + (address - 0xC000) as usize]
            }
        }
    }

    fn read_word(&self, address: u16) -> (r: u16) {
        let lo = self.read_byte(address);
        let hi = self.read_byte(address + 1);
        (lo as u16) | ((hi as u16) << 8)
    }

    fn write_byte(&mut self, address: u16, val: u8) {
        if address < 0x6000 {
            // Below the RAM window: open bus, the write is lost.
        } else if address < 0x8000 {
            let idx = (address - 0x6000) as usize;
            self.prg_ram[idx] = val;
        } else if val & 0x80 != 0 {
            self.shift_register = 0x10;
        } else {
            let done = (self.shift_register & 0x01) != 0;
            let sr2 = (self.shift_register >> 1) | ((val & 0x01) << 4);
            if !done {
                self.shift_register = sr2;
            } else {
                if address < 0xA000 {
                    self.control_register = ConfigReg::new(sr2);
                } else if address < 0xC000 {
                    self.chr_bank0_register = sr2;
                } else if address < 0xE000 {
                    self.chr_bank1_register = sr2;
                } else {
                    self.pgr_bank_register = PRGReg::new(sr2);
                }
                self.shift_register = 0x10;
            }
        }
    }

    fn read_chr(&self, address: u16) -> (r: u8) {
        let offset = self.chr_offset(address);
        match &self.chr {
            MMC1Chr::Ram(v) => v[offset],
            MMC1Chr::Rom(v) => v[offset],
        }
    }

    fn write_byte_chr(&mut self, address: u16, val: u8) -> (r: Result<(), EmuError>) {
        let offset = self.chr_offset(address);
        match &mut self.chr {
            MMC1Chr::Ram(v) => {
                v[offset] = val;
                Ok(())
            },
            MMC1Chr::Rom(_) => Err(EmuError::ChrWrite),
        }
    }

    fn get_nt_mirroring(&self) -> (m: Mirroring) {
        self.control_register.mirroring
    }
}

impl CartridgeMapper1 {
    /// The bank behind the low program window, as an index below
    /// `nbanks`.
    fn low_bank(&self, nbanks: usize) -> (r: usize)
        requires
            self.wf(),
            nbanks == self.prg_rom@.len() / 0x4000,
        ensures
            r == m1_low_bank(self),
            r < nbanks,
    {
        match self.control_register.prg_swapping {
            PRGSize::Size32k => ((self.pgr_bank_register.bank & 0x0E) as usize) % nbanks,
            PRGSize::Size16k(PRGSwap::Swap8000) => (self.pgr_bank_register.bank as usize) % nbanks,
            PRGSize::Size16k(PRGSwap::SwapC000) => 0,
        }
    }

    /// The bank behind the high program window, as an index below
    /// `nbanks`.
    fn high_bank(&self, nbanks: usize) -> (r: usize)
        requires
            self.wf(),
            nbanks == self.prg_rom@.len() / 0x4000,
        ensures
            r == m1_high_bank(self),
            r < nbanks,
    {
        match self.control_register.prg_swapping {
            PRGSize::Size32k => (((self.pgr_bank_register.bank & 0x0E) as usize) % nbanks + 1)
                % nbanks,
            PRGSize::Size16k(PRGSwap::Swap8000) => nbanks - 1,
            PRGSize::Size16k(PRGSwap::SwapC000) => (self.pgr_bank_register.bank as usize) % nbanks,
        }
    }

    /// The flat graphics-storage offset for a window address, applying
    /// the configured 4KB or 8KB banking.
    fn chr_offset(&self, address: u16) -> (r: usize)
        requires
            self.wf(),
            address < 0x2000,
        ensures
            r == m1_chr_offset(self, address),
            r < m1_chr_store(self).len(),
    {
        let store_len = match &self.chr {
            MMC1Chr::Ram(v) => v.len(),
            MMC1Chr::Rom(v) => v.len(),
        };
        match self.control_register.chr_swapping {
            CHRSize::Size8k => {
                let n8 = store_len / 0x2000;
                let bank = ((self.chr_bank0_register >> 1) as usize) % n8;
                bank * 0x2000 + address as usize
            },
            CHRSize::Size4k => {
                let n4 = store_len / 0x1000;
                if address < 0x1000 {
                    let bank = (self.chr_bank0_register as usize) % n4;
                    bank * 0x1000 + address as usize
                } else {
                    let bank = (self.chr_bank1_register as usize) % n4;
                    bank * 0x1000 + (address - 0x1000) as usize
                }
            },
        }
    }
}


/// The cartridge slot: one of the covered mappers, with every method
/// contract dispatching to the precise per-mapper relation.
pub enum AnyCartridge {
    Nrom(CartridgeMapper0),
    Mmc1(CartridgeMapper1),
}

impl Cartridge for AnyCartridge {
    open spec fn wf(&self) -> bool {
        match self {
            AnyCartridge::Nrom(c) => c.wf(),
            AnyCartridge::Mmc1(c) => c.wf(),
        }
    }

    open spec fn prg_byte(&self, address: u16) -> u8 {
        match self {
            AnyCartridge::Nrom(c) => c.prg_byte(address),
            AnyCartridge::Mmc1(c) => c.prg_byte(address),
        }
    }

    open spec fn chr_byte(&self, address: u16) -> u8 {
        match self {
            AnyCartridge::Nrom(c) => c.chr_byte(address),
            AnyCartridge::Mmc1(c) => c.chr_byte(address),
        }
    }

    open spec fn chr_writable(&self) -> bool {
        match self {
            AnyCartridge::Nrom(c) => c.chr_writable(),
            AnyCartridge::Mmc1(c) => c.chr_writable(),
        }
    }

    open spec fn mirroring_spec(&self) -> Mirroring {
        match self {
            AnyCartridge::Nrom(c) => c.mirroring_spec(),
            AnyCartridge::Mmc1(c) => c.mirroring_spec(),
        }
    }

    open spec fn prg_write_rel(&self, post: Self, address: u16, val: u8) -> bool {
        match self {
            AnyCartridge::Nrom(c) => match post {
                AnyCartridge::Nrom(d) => c.prg_write_rel(d, address, val),
                AnyCartridge::Mmc1(_) => false,
            },
            AnyCartridge::Mmc1(c) => match post {
                AnyCartridge::Mmc1(d) => c.prg_write_rel(d, address, val),
                AnyCartridge::Nrom(_) => false,
            },
        }
    }

    open spec fn chr_write_rel(&self, post: Self, address: u16, val: u8) -> bool {
        match self {
            AnyCartridge::Nrom(c) => match post {
                AnyCartridge::Nrom(d) => c.chr_write_rel(d, address, val),
                AnyCartridge::Mmc1(_) => false,
            },
            AnyCartridge::Mmc1(c) => match post {
                AnyCartridge::Mmc1(d) => c.chr_write_rel(d, address, val),
                AnyCartridge::Nrom(_) => false,
            },
        }
    }

    fn read_byte(&self, address: u16) -> (r: u8) {
        match self {
            AnyCartridge::Nrom(c) => c.read_byte(address),
            AnyCartridge::Mmc1(c) => c.read_byte(address),
        }
    }

    fn read_word(&self, address: u16) -> (r: u16) {
        match self {
            AnyCartridge::Nrom(c) => c.read_word(address),
            AnyCartridge::Mmc1(c) => c.read_word(address),
        }
    }

    fn write_byte(&mut self, address: u16, val: u8) {
        match self {
            AnyCartridge::Nrom(c) => c.write_byte(address, val),
            AnyCartridge::Mmc1(c) => c.write_byte(address, val),
        }
    }

    fn read_chr(&self, address: u16) -> (r: u8) {
        match self {
            AnyCartridge::Nrom(c) => c.read_chr(address),
            AnyCartridge::Mmc1(c) => c.read_chr(address),
        }
    }

    fn write_byte_chr(&mut self, address: u16, val: u8) -> (r: Result<(), EmuError>) {
        match self {
            AnyCartridge::Nrom(c) => c.write_byte_chr(address, val),
            AnyCartridge::Mmc1(c) => c.write_byte_chr(address, val),
        }
    }

    fn get_nt_mirroring(&self) -> (m: Mirroring) {
        match self {
            AnyCartridge::Nrom(c) => c.get_nt_mirroring(),
            AnyCartridge::Mmc1(c) => c.get_nt_mirroring(),
        }
    }
}

/// Whether the image starts with the fixed iNES magic.
pub open spec fn rom_magic_ok(bytes: Seq<u8>) -> bool {
    bytes.len() >= 16 && bytes[0] == 0x4Eu8 && bytes[1] == 0x45u8 && bytes[2] == 0x53u8 && bytes[3]
        == 0x1Au8
}

/// The program image size the header promises.
pub open spec fn rom_prg_size(bytes: Seq<u8>) -> int {
    bytes[4] * 16384
}

/// The graphics image size the header promises (0: graphics RAM).
pub open spec fn rom_chr_size(bytes: Seq<u8>) -> int {
    bytes[5] * 8192
}

/// The mapper number assembled from both header nibbles.
pub open spec fn rom_mapper(bytes: Seq<u8>) -> u8 {
    ((bytes[6] & 0xF0u8) >> 4) | (bytes[7] & 0xF0u8)
}

/// The header-declared nametable mirroring.
pub open spec fn rom_mirroring(bytes: Seq<u8>) -> Mirroring {
    if bytes[6] & 0x01u8 == 0 {
        Mirroring::Horizontal
    } else {
        Mirroring::Vertical
    }
}

/// Whether the image holds all the data its header promises.
pub open spec fn rom_fits(bytes: Seq<u8>) -> bool {
    16 + rom_prg_size(bytes) + rom_chr_size(bytes) <= bytes.len()
}


/// Whether an image parses into a cartridge: good magic, all
/// promised data present, a covered mapper, and sizes that mapper
/// can hold.
pub open spec fn rom_parses(bytes: Seq<u8>) -> bool {
    rom_magic_ok(bytes) && rom_fits(bytes) && {
        let prg = rom_prg_size(bytes);
        let chr = rom_chr_size(bytes);
        let mapper = rom_mapper(bytes);
        if mapper == 0 {
            (prg == 0x4000 || prg == 0x8000) && chr == 0x2000
        } else if mapper == 1 {
            prg > 0
        } else {
            false
        }
    }
}

/// The cartridge a well-formed image parses into.
pub open spec fn parsed_cart_ok(bytes: Seq<u8>, c: AnyCartridge) -> bool {
    let prg = rom_prg_size(bytes);
    let chr = rom_chr_size(bytes);
    let mapper = rom_mapper(bytes);
    if mapper == 0 {
        c matches AnyCartridge::Nrom(m) && m.mirrored == (prg == 0x4000) && m.prg_rom@.subrange(
            0,
            prg,
        ) == bytes.subrange(16, 16 + prg) && m.chr_rom@ == bytes.subrange(16 + prg, 16 + prg + chr)
            && m.nt_mirroring == rom_mirroring(bytes)
    } else {
        c matches AnyCartridge::Mmc1(m) && m.prg_rom@ == bytes.subrange(16, 16 + prg) && (chr == 0
            ==> m1_chr_is_ram(&m)) && (chr > 0 ==> !m1_chr_is_ram(&m) && m1_chr_store(&m)
            == bytes.subrange(16 + prg, 16 + prg + chr)) && m.shift_register == 0x10
            && m.control_register.mirroring == rom_mirroring(bytes)
    }
}

/// Parses a 16-byte iNES header and builds the cartridge it
/// describes. Returns an error, before any execution can begin, for
/// a truncated image, a bad magic, a mapper outside the two covered,
/// or an image size the named mapper cannot hold.
pub fn load_rom(bytes: &[u8]) -> (r: Result<AnyCartridge, RomError>)
    ensures
        r is Ok <==> rom_parses(bytes@),
        r matches Ok(c) ==> c.wf() && parsed_cart_ok(bytes@, c),
        bytes@.len() < 16 ==> r == Err::<AnyCartridge, RomError>(RomError::Truncated),
        bytes@.len() >= 16 && !rom_magic_ok(bytes@) ==> r == Err::<AnyCartridge, RomError>(
            RomError::BadMagic,
        ),
        rom_magic_ok(bytes@) && !rom_fits(bytes@) ==> r == Err::<AnyCartridge, RomError>(
            RomError::Truncated,
        ),
        rom_magic_ok(bytes@) && rom_fits(bytes@) ==> {
            let prg = rom_prg_size(bytes@);
            let chr = rom_chr_size(bytes@);
            let mapper = rom_mapper(bytes@);
            if mapper == 0 {
                if prg != 0x4000 && prg != 0x8000 {
                    r == Err::<AnyCartridge, RomError>(RomError::BadPrgSize)
                } else if chr != 0x2000 {
                    r == Err::<AnyCartridge, RomError>(RomError::BadChrSize)
                } else {
                    r matches Ok(AnyCartridge::Nrom(c)) && c.wf() && c.mirrored == (prg == 0x4000)
                        && c.prg_rom@.subrange(0, prg) == bytes@.subrange(16, 16 + prg)
                        && c.chr_rom@ == bytes@.subrange(16 + prg, 16 + prg + chr)
                        && c.nt_mirroring == rom_mirroring(bytes@)
                }
            } else if mapper == 1 {
                if prg == 0 {
                    r == Err::<AnyCartridge, RomError>(RomError::BadPrgSize)
                } else {
                    r matches Ok(AnyCartridge::Mmc1(c)) && c.wf() && c.prg_rom@ == bytes@.subrange(
                        16,
                        16 + prg,
                    ) && (chr == 0 ==> m1_chr_is_ram(&c)) && (chr > 0 ==> !m1_chr_is_ram(&c)
                        && m1_chr_store(&c) == bytes@.subrange(16 + prg, 16 + prg + chr))
                        && c.shift_register == 0x10 && c.control_register.mirroring
                        == rom_mirroring(bytes@)
                }
            } else {
                r == Err::<AnyCartridge, RomError>(RomError::UnsupportedMapper(mapper))
            }
        },
{
    if bytes.len() < 16 {
        return Err(RomError::Truncated);
    }
    if !(bytes[0] == 0x4E && bytes[1] == 0x45 && bytes[2] == 0x53 && bytes[3] == 0x1A) {
        return Err(RomError::BadMagic);
    }

    let prg_rom_size = (bytes[4] as usize) * 16384;
    let chr_rom_size = (bytes[5] as usize) * 8192;

    let flags6 = bytes[6];
    let flags7 = bytes[7];

    let cartridge_type = ((flags6 & 0xF0) >> 4) | (flags7 & 0xF0);
    let nt_mirroring = if flags6 & 0x01 == 0 {
        Mirroring::Horizontal
    } else {
        Mirroring::Vertical
    };

    if 16 + prg_rom_size + chr_rom_size > bytes.len() {
        return Err(RomError::Truncated);
    }

    let prg_addr: usize = 16;
    let prg_data = &bytes[prg_addr..prg_addr + prg_rom_size];
    let chr_addr = prg_addr + prg_rom_size;
    let chr_data = &bytes[chr_addr..chr_addr + chr_rom_size];

    if cartridge_type == 0 {
        if prg_rom_size != 0x4000 && prg_rom_size != 0x8000 {
            return Err(RomError::BadPrgSize);
        }
        if chr_rom_size != 0x2000 {
            return Err(RomError::BadChrSize);
        }
        Ok(AnyCartridge::Nrom(CartridgeMapper0::new(prg_data, chr_data, nt_mirroring)))
    } else if cartridge_type == 1 {
        if prg_rom_size == 0 {
            return Err(RomError::BadPrgSize);
        }
        let mut prg: Vec<u8> = Vec::new();
        prg.extend_from_slice(prg_data);
        let mut chr: Vec<u8> = Vec::new();
        chr.extend_from_slice(chr_data);
        proof {
            assert(prg@ =~= prg_data@);
            assert(chr@ =~= chr_data@);
        }
        Ok(AnyCartridge::Mmc1(CartridgeMapper1::new(prg, chr, nt_mirroring)))
    } else {
        Err(RomError::UnsupportedMapper(cartridge_type))
    }
}

/// Law: five consecutive serial writes to the control range
/// 0x8000-0x9FFF, each with the top bit clear, starting from a reset
/// shift register, set the control register to the decoding of
/// `(b4<<4)|(b3<<3)|(b2<<2)|(b1<<1)|b0`, where `b0..b4` are the low
/// bits of the five values in write order; the shift register is
/// reset again afterwards and no other configuration register moves.
pub proof fn lemma_mmc1_control_sequence(
    c0: CartridgeMapper1,
    c1: CartridgeMapper1,
    c2: CartridgeMapper1,
    c3: CartridgeMapper1,
    c4: CartridgeMapper1,
    c5: CartridgeMapper1,
    a1: u16,
    a2: u16,
    a3: u16,
    a4: u16,
    a5: u16,
    v1: u8,
    v2: u8,
    v3: u8,
    v4: u8,
    v5: u8,
)
    requires
        c0.shift_register == 0x10,
        0x8000 <= a1 < 0xA000,
        0x8000 <= a2 < 0xA000,
        0x8000 <= a3 < 0xA000,
        0x8000 <= a4 < 0xA000,
        0x8000 <= a5 < 0xA000,
        v1 & 0x80 == 0,
        v2 & 0x80 == 0,
        v3 & 0x80 == 0,
        v4 & 0x80 == 0,
        v5 & 0x80 == 0,
        m1_prg_write_rel(&c0, &c1, a1, v1),
        m1_prg_write_rel(&c1, &c2, a2, v2),
        m1_prg_write_rel(&c2, &c3, a3, v3),
        m1_prg_write_rel(&c3, &c4, a4, v4),
        m1_prg_write_rel(&c4, &c5, a5, v5),
    ensures
        c5.control_register == spec_config_reg(
            (((v5 & 0x01) << 4) | ((v4 & 0x01) << 3) | ((v3 & 0x01) << 2) | ((v2 & 0x01) << 1) | (
            v1 & 0x01)) as u8,
        ),
        c5.shift_register == 0x10,
        c5.chr_bank0_register == c0.chr_bank0_register,
        c5.chr_bank1_register == c0.chr_bank1_register,
        c5.pgr_bank_register == c0.pgr_bank_register,
        c5.prg_ram@ == c0.prg_ram@,
        c5.prg_rom@ == c0.prg_rom@,
{
    let s1 = (0x10u8 >> 1) | ((v1 & 0x01) << 4);
    assert(0x10u8 & 0x01 == 0 && ((0x10u8 >> 1) | ((v1 & 0x01) << 4)) & 0x01 == 0) by (bit_vector);
    let s2 = (s1 >> 1) | ((v2 & 0x01) << 4);
    assert((((0x10u8 >> 1) | ((v1 & 0x01) << 4)) >> 1 | ((v2 & 0x01) << 4)) & 0x01 == 0)
        by (bit_vector);
    let s3 = (s2 >> 1) | ((v3 & 0x01) << 4);
    assert(((((0x10u8 >> 1) | ((v1 & 0x01) << 4)) >> 1 | ((v2 & 0x01) << 4)) >> 1 | ((v3 & 0x01)
        << 4)) & 0x01 == 0) by (bit_vector);
    let s4 = (s3 >> 1) | ((v4 & 0x01) << 4);
    assert((((((0x10u8 >> 1) | ((v1 & 0x01) << 4)) >> 1 | ((v2 & 0x01) << 4)) >> 1 | ((v3 & 0x01)
        << 4)) >> 1 | ((v4 & 0x01) << 4)) & 0x01 == 1) by (bit_vector);
    let s5 = (s4 >> 1) | ((v5 & 0x01) << 4);
    assert(((((((0x10u8 >> 1) | ((v1 & 0x01) << 4)) >> 1 | ((v2 & 0x01) << 4)) >> 1 | ((v3 & 0x01)
        << 4)) >> 1 | ((v4 & 0x01) << 4)) >> 1 | ((v5 & 0x01) << 4)) == (((v5 & 0x01) << 4) | ((v4
        & 0x01) << 3) | ((v3 & 0x01) << 2) | ((v2 & 0x01) << 1) | (v1 & 0x01))) by (bit_vector);
    assert(c1.shift_register == s1);
    assert(c2.shift_register == s2);
    assert(c3.shift_register == s3);
    assert(c4.shift_register == s4);
    assert(c5.control_register == spec_config_reg(s5));
}

/// Law: a serial write with the top bit set discards the shift
/// register's progress without committing anything: the shift
/// register returns to its reset value and every configuration
/// register keeps its value.
pub proof fn lemma_mmc1_reset_discards(
    pre: CartridgeMapper1,
    post: CartridgeMapper1,
    address: u16,
    val: u8,
)
    requires
        0x8000 <= address,
        val & 0x80 != 0,
        m1_prg_write_rel(&pre, &post, address, val),
    ensures
        post.shift_register == 0x10,
        post.control_register == pre.control_register,
        post.chr_bank0_register == pre.chr_bank0_register,
        post.chr_bank1_register == pre.chr_bank1_register,
        post.pgr_bank_register == pre.pgr_bank_register,
        post.prg_ram@ == pre.prg_ram@,
        post.prg_rom@ == pre.prg_rom@,
{
}

} // verus!
