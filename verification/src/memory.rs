use vstd::prelude::*;

use crate::cartridge::{rom_parses, parsed_cart_ok, AnyCartridge, Cartridge};
use crate::errors::{EmuError, RomError};
use crate::input::{port_read_post, port_read_val, strobe_port, InputBus};
use crate::memory_utils::word_from_bytes;
use crate::ppu::{
    ppu_reg_read_post, ppu_reg_read_rel, ppu_reg_read_result, ppu_reg_write_rel, Ppu,
};

verus! {

/// A bus address decoded to its target region, with the mirrored
/// offset inside it.
#[derive(Clone, Copy, Debug, PartialEq, Eq, Structural)]
pub enum Address {
    Ram(usize),
    Ppu(usize),
    Apu(usize),
    ApuTest(usize),
    Cartridge,
}

/// The flat 16-bit address space decoded: 2KB RAM mirrored four
/// times through 0x1FFF, the eight PPU registers mirrored through
/// 0x3FFF, the APU/IO window at 0x4000-0x4017, the APU test window
/// at 0x4018-0x401F, and the cartridge above.
pub open spec fn spec_map_address(address: u16) -> Address {
    if address < 0x2000 {
        Address::Ram((address % 0x800) as usize)
    } else if address < 0x4000 {
        Address::Ppu((address % 8) as usize)
    } else if address < 0x4018 {
        Address::Apu((address - 0x4000) as usize)
    } else if address < 0x4020 {
        Address::ApuTest((address - 0x4018) as usize)
    } else {
        Address::Cartridge
    }
}

/// The memory bus: RAM, the stub APU register windows, and the
/// components register accesses are delegated to.
pub struct MemoryMap {
    pub ram: Vec<u8>,
    pub apu_reg: Vec<u8>,
    pub apu_test_reg: Vec<u8>,
    pub ppu: Ppu,
    pub inputs: InputBus,
    pub cartridge: Option<AnyCartridge>,
}

impl MemoryMap {
    /// Structural invariant: storage sizes and component invariants.
    pub open spec fn wf(&self) -> bool {
        self.ram@.len() == 0x800 && self.apu_reg@.len() == 0x18 && self.apu_test_reg@.len() == 8
            && self.ppu.wf() && (self.cartridge matches Some(c) ==> c.wf())
    }

    /// Whether a cartridge has been loaded; execution needs one.
    pub open spec fn loaded(&self) -> bool {
        self.cartridge is Some
    }

    /// The loaded cartridge.
    pub open spec fn cart(&self) -> AnyCartridge {
        self.cartridge->0
    }

    /// An empty bus: zeroed storage and no cartridge.
    pub fn new() -> (r: Self)
        ensures
            r.wf(),
            !r.loaded(),
            r.ram@ == Seq::new(0x800, |i: int| 0u8),
            r.apu_reg@ == Seq::new(0x18, |i: int| 0u8),
            r.apu_test_reg@ == Seq::new(8, |i: int| 0u8),
    {
        let ram: Vec<u8> = vec![0u8; 0x800];
        let apu_reg: Vec<u8> = vec![0u8; 0x18];
        let apu_test_reg: Vec<u8> = vec![0u8; 8];
        proof {
            assert(ram@ =~= Seq::new(0x800, |i: int| 0u8));
            assert(apu_reg@ =~= Seq::new(0x18, |i: int| 0u8));
            assert(apu_test_reg@ =~= Seq::new(8, |i: int| 0u8));
        }
        MemoryMap { ram, apu_reg, apu_test_reg, ppu: Ppu::new(), inputs: InputBus::new(), cartridge: None }
    }

    /// Decodes a bus address.
    pub fn map_address(&self, address: u16) -> (r: Address)
        ensures
            r == spec_map_address(address),
            r matches Address::Ram(o) ==> o < 0x800,
            r matches Address::Ppu(o) ==> o < 8,
            r matches Address::Apu(o) ==> o < 0x18,
            r matches Address::ApuTest(o) ==> o < 8,
    {
        if address < 0x2000 {
            Address::Ram((address % 0x800) as usize)
        } else if address < 0x4000 {
            Address::Ppu((address % 8) as usize)
        } else if address < 0x4018 {
            Address::Apu((address - 0x4000) as usize)
        } else if address < 0x4020 {
            Address::ApuTest((address - 0x4018) as usize)
        } else {
            Address::Cartridge
        }
    }
}

/// The byte a bus read at `address` returns: RAM through its
/// mirrors, the PPU registers' read view (palette-space data reads
/// immediate, others one-read stale), the controller bits at
/// 0x4016/0x4017 (the rest of the APU window reads as open bus 0),
/// the APU test stubs, and the cartridge's program view.
pub open spec fn bus_read_val(m: &MemoryMap, address: u16) -> u8 {
    match spec_map_address(address) {
        Address::Ram(o) => m.ram@[o as int],
        Address::Ppu(o) => ppu_reg_read_result(&m.ppu, &m.cart(), o as u16),
        Address::Apu(o) => if o == 0x16 {
            port_read_val(m.inputs.controller1)
        } else if o == 0x17 {
            port_read_val(m.inputs.controller2)
        } else {
            0u8
        },
        Address::ApuTest(o) => m.apu_test_reg@[o as int],
        Address::Cartridge => m.cart().prg_byte(address),
    }
}

/// The machine after a bus read at `address`: unchanged, except the
/// PPU's documented read side effects in the register window and the
/// controller shift in the 0x4016/0x4017 slots. Reads are
/// deterministic, so the post-state is a function of the pre-state.
pub open spec fn bus_read_post(pre: &MemoryMap, address: u16) -> MemoryMap {
    match spec_map_address(address) {
        Address::Ppu(o) => MemoryMap {
            ppu: ppu_reg_read_post(&pre.ppu, &pre.cart(), o as u16),
            ..*pre
        },
        Address::Apu(o) => if o == 0x16 {
            MemoryMap {
                inputs: InputBus {
                    controller1: port_read_post(pre.inputs.controller1),
                    controller2: pre.inputs.controller2,
                },
                ..*pre
            }
        } else if o == 0x17 {
            MemoryMap {
                inputs: InputBus {
                    controller1: pre.inputs.controller1,
                    controller2: port_read_post(pre.inputs.controller2),
                },
                ..*pre
            }
        } else {
            *pre
        },
        _ => *pre,
    }
}

/// How a bus read at `address` changes the machine.
pub open spec fn bus_read_rel(pre: &MemoryMap, post: &MemoryMap, address: u16) -> bool {
    *post == bus_read_post(pre, address)
}

impl MemoryMap {
    /// Reads one byte off the bus.
    pub fn read_byte(&mut self, address: u16) -> (r: u8)
        requires
            old(self).wf(),
            old(self).loaded(),
        ensures
            final(self).wf(),
            final(self).loaded(),
            r == bus_read_val(old(self), address),
            bus_read_rel(old(self), final(self), address),
    {
        match self.map_address(address) {
            Address::Ram(offset) => self.ram[offset],
            Address::Ppu(offset) => {
                match &self.cartridge {
                    Some(c) => self.ppu.read_reg(c, offset as u16),
                    None => unreached(),
                }
            },
            Address::Apu(offset) => {
                if offset == 0x16 {
                    self.inputs.read_4016()
                } else if offset == 0x17 {
                    self.inputs.read_4017()
                } else {
                    // Open bus.
                    0
                }
            },
            Address::ApuTest(offset) => self.apu_test_reg[offset],
            Address::Cartridge => {
                match &self.cartridge {
                    Some(c) => c.read_byte(address),
                    None => unreached(),
                }
            },
        }
    }

    /// Reads a little-endian 16-bit word off the bus as two byte
    /// reads, the second at the successor address (wrapping at the
    /// top of the address space).
    pub fn read_word(&mut self, address: u16) -> (r: u16)
        requires
            old(self).wf(),
            old(self).loaded(),
        ensures
            final(self).wf(),
            final(self).loaded(),
            ({
                let hi_addr: u16 = if address == 0xFFFF {
                    0u16
                } else {
                    (address + 1) as u16
                };
                let mid = bus_read_post(old(self), address);
                r == word_from_bytes(
                    bus_read_val(old(self), address),
                    bus_read_val(&mid, hi_addr),
                ) && *final(self) == bus_read_post(&mid, hi_addr)
            }),
    {
        let lo = self.read_byte(address);
        let hi_addr: u16 = if address == 0xFFFF {
            0
        } else {
            address + 1
        };
        let hi = self.read_byte(hi_addr);
        (lo as u16) | ((hi as u16) << 8)
    }
}

/// How a bus write at `address` changes the machine and what it
/// returns. Only a data write into ROM-backed pattern space fails;
/// every other write returns its hidden cycle cost: 513 for the OAM
/// DMA trigger, 0 otherwise.
pub open spec fn bus_write_rel(
    pre: &MemoryMap,
    post: &MemoryMap,
    address: u16,
    val: u8,
    r: Result<u32, EmuError>,
) -> bool {
    match spec_map_address(address) {
        Address::Ram(o) => r == Ok::<u32, EmuError>(0) && post.ram@ == pre.ram@.update(
            o as int,
            val,
        ) && post.apu_reg@ == pre.apu_reg@ && post.apu_test_reg@ == pre.apu_test_reg@ && post.ppu
            == pre.ppu && post.inputs == pre.inputs && post.cartridge == pre.cartridge,
        Address::Ppu(o) => (r is Ok ==> r == Ok::<u32, EmuError>(0)) && (r is Err ==> r == Err::<
            u32,
            EmuError,
        >(EmuError::ChrWrite)) && post.ram@ == pre.ram@ && post.apu_reg@ == pre.apu_reg@
            && post.apu_test_reg@ == pre.apu_test_reg@ && post.inputs == pre.inputs
            && post.cartridge is Some && ppu_reg_write_rel(
            &pre.ppu,
            &pre.cart(),
            &post.ppu,
            &post.cart(),
            o as u16,
            val,
            r is Ok,
        ),
        Address::Apu(o) => if o == 0x14 {
            r == Ok::<u32, EmuError>(513) && post.ram@ == pre.ram@ && post.apu_reg@ == pre.apu_reg@
                && post.apu_test_reg@ == pre.apu_test_reg@ && post.cartridge == pre.cartridge && (
            val < 0x20 ==> post.inputs == pre.inputs && post.ppu.oam@.len() == 256 && (forall|i: int|
                0 <= i < 256 ==> post.ppu.oam@[#[trigger] ((pre.ppu.reg.oamaddr + i) % 256)]
                    == pre.ram@[((val as int) * 256 + i) % 0x800]) && post.ppu.reg == pre.ppu.reg
                && post.ppu.state == pre.ppu.state && post.ppu.read_buf == pre.ppu.read_buf
                && post.ppu.nametable1@ == pre.ppu.nametable1@ && post.ppu.nametable2@
                == pre.ppu.nametable2@ && post.ppu.pallette@ == pre.ppu.pallette@ && post.ppu.fb@
                == pre.ppu.fb@)
        } else if o == 0x16 {
            r == Ok::<u32, EmuError>(0) && post.ram@ == pre.ram@ && post.apu_reg@ == pre.apu_reg@
                && post.apu_test_reg@ == pre.apu_test_reg@ && post.ppu == pre.ppu && post.cartridge
                == pre.cartridge && post.inputs.controller1 == strobe_port(
                pre.inputs.controller1,
                val,
            ) && post.inputs.controller2 == strobe_port(pre.inputs.controller2, val)
        } else {
            r == Ok::<u32, EmuError>(0) && post.ram@ == pre.ram@ && post.apu_reg@
                == pre.apu_reg@.update(o as int, val) && post.apu_test_reg@ == pre.apu_test_reg@
                && post.ppu == pre.ppu && post.inputs == pre.inputs && post.cartridge
                == pre.cartridge
        },
        Address::ApuTest(o) => r == Ok::<u32, EmuError>(0) && post.ram@ == pre.ram@ && post.apu_reg@
            == pre.apu_reg@ && post.apu_test_reg@ == pre.apu_test_reg@.update(o as int, val)
            && post.ppu == pre.ppu && post.inputs == pre.inputs && post.cartridge == pre.cartridge,
        Address::Cartridge => r == Ok::<u32, EmuError>(0) && post.ram@ == pre.ram@ && post.apu_reg@
            == pre.apu_reg@ && post.apu_test_reg@ == pre.apu_test_reg@ && post.ppu == pre.ppu
            && post.inputs == pre.inputs && post.cartridge is Some && pre.cart().prg_write_rel(
            post.cart(),
            address,
            val,
        ),
    }
}

impl MemoryMap {
    /// Writes one byte onto the bus. Returns the write's hidden
    /// cycle cost: 513 for the OAM DMA trigger at 0x4014, else 0.
    pub fn write_byte(&mut self, address: u16, val: u8) -> (r: Result<u32, EmuError>)
        requires
            old(self).wf(),
            old(self).loaded(),
        ensures
            final(self).wf(),
            final(self).loaded(),
            bus_write_rel(old(self), final(self), address, val, r),
    {
        match self.map_address(address) {
            Address::Ram(offset) => {
                self.ram[offset] = val;
                Ok(0)
            },
            Address::Ppu(offset) => {
                match &mut self.cartridge {
                    Some(c) => {
                        match self.ppu.write_reg(c, offset as u16, val) {
                            Ok(()) => Ok(0),
                            Err(e) => Err(e),
                        }
                    },
                    None => unreached(),
                }
            },
            Address::Apu(offset) => {
                if offset == 0x14 {
                    self.oam_dma_from_page(val);
                    Ok(513)
                } else if offset == 0x16 {
                    self.inputs.write(val);
                    Ok(0)
                } else {
                    self.apu_reg[offset] = val;
                    Ok(0)
                }
            },
            Address::ApuTest(offset) => {
                self.apu_test_reg[offset] = val;
                Ok(0)
            },
            Address::Cartridge => {
                match &mut self.cartridge {
                    Some(c) => {
                        c.write_byte(address, val);
                        Ok(0)
                    },
                    None => unreached(),
                }
            },
        }
    }

    /// The OAM DMA transfer: reads the 256 bytes of CPU page `page`
    /// through the bus and hands them to the PPU's OAM, starting at
    /// the current OAM address and wrapping.
    fn oam_dma_from_page(&mut self, page: u8)
        requires
            old(self).wf(),
            old(self).loaded(),
        ensures
            final(self).wf(),
            final(self).loaded(),
            final(self).ram@ == old(self).ram@,
            final(self).apu_reg@ == old(self).apu_reg@,
            final(self).apu_test_reg@ == old(self).apu_test_reg@,
            final(self).cartridge == old(self).cartridge,
            page < 0x20 ==> final(self).inputs == old(self).inputs && final(self).ppu.oam@.len()
                == 256 && (forall|i: int|
                0 <= i < 256 ==> final(self).ppu.oam@[#[trigger] ((old(self).ppu.reg.oamaddr + i)
                    % 256)] == old(self).ram@[((page as int) * 256 + i) % 0x800]) && final(self).ppu.reg == old(self).ppu.reg && final(self).ppu.state == old(self).ppu.state && final(self).ppu.read_buf == old(self).ppu.read_buf && final(self).ppu.nametable1@ == old(self).ppu.nametable1@ && final(self).ppu.nametable2@ == old(self).ppu.nametable2@ && final(self).ppu.pallette@ == old(self).ppu.pallette@ && final(self).ppu.fb@ == old(self).ppu.fb@,
    {
        let start_addr = (page as u16) << 8;
        proof {
            let p = page;
            assert(((p as u16) << 8) == p * 256 && ((p as u16) << 8) <= 0xFF00) by (bit_vector);
        }
        let mut data: Vec<u8> = Vec::new();
        let mut i: u16 = 0;
        while i < 256
            invariant
                self.wf(),
                self.loaded(),
                i <= 256,
                start_addr == (page as int) * 256,
                start_addr <= 0xFF00,
                data@.len() == i,
                self.ram@ == old(self).ram@,
                self.apu_reg@ == old(self).apu_reg@,
                self.apu_test_reg@ == old(self).apu_test_reg@,
                self.cartridge == old(self).cartridge,
                page < 0x20 ==> self.ppu == old(self).ppu && self.inputs == old(self).inputs
                    && (forall|k: int|
                    0 <= k < i ==> data@[k] == old(self).ram@[((page as int) * 256 + k) % 0x800]),
            decreases 256 - i,
        {
            let b = self.read_byte(start_addr + i);
            data.push(b);
            i = i + 1;
        }
        self.ppu.oam_dma(&data);
    }

    /// Parses an iNES image and seats the cartridge it describes;
    /// the bus is ready to execute exactly when this succeeds.
    pub fn load_rom(&mut self, bytes: &[u8]) -> (r: Result<(), RomError>)
        requires
            old(self).wf(),
        ensures
            final(self).wf(),
            r is Ok <==> rom_parses(bytes@),
            r is Ok ==> final(self).loaded() && parsed_cart_ok(bytes@, final(self).cart()),
            r is Err ==> *final(self) == *old(self),
            final(self).ram@ == old(self).ram@,
            final(self).ppu == old(self).ppu,
            final(self).inputs == old(self).inputs,
    {
        match crate::cartridge::load_rom(bytes) {
            Ok(cart) => {
                self.cartridge = Some(cart);
                Ok(())
            },
            Err(e) => Err(e),
        }
    }

    /// The PPU's enabled-NMI line, which the CPU samples for edges.
    pub fn nmi_requested(&self) -> (r: bool)
        ensures
            r == (self.ppu.reg.ppuctrl.nmi && self.ppu.reg.ppustatus.vblank),
    {
        self.ppu.nmi_requested()
    }
}

} // verus!
