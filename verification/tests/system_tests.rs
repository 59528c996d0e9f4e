use rusty_nes::cartridge::{
    load_rom, AnyCartridge, Cartridge, CartridgeMapper0, CartridgeMapper1, ConfigReg,
    Mirroring, PRGReg, PRGSize, PRGSwap, CHRSize,
};
use rusty_nes::errors::{EmuError, RomError};
use rusty_nes::input::{Controller, ControllerState, InputBus, InputDevice};
use rusty_nes::nes::Nes;
use rusty_nes::ppu::Pipeline;

fn test_rom_with(mapper: u8, prg_banks: u8, chr_banks: u8) -> Vec<u8> {
    let prg = prg_banks as usize * 0x4000;
    let chr = chr_banks as usize * 0x2000;
    let mut bytes = vec![0u8; 16 + prg + chr];
    bytes[0] = b'N';
    bytes[1] = b'E';
    bytes[2] = b'S';
    bytes[3] = 0x1A;
    bytes[4] = prg_banks;
    bytes[5] = chr_banks;
    bytes[6] = (mapper & 0x0F) << 4;
    bytes[7] = mapper & 0xF0;
    if prg >= 0x4000 {
        // Reset vector: 0x8000.
        bytes[16 + prg - 4] = 0x00;
        bytes[16 + prg - 3] = 0x80;
    }
    bytes
}

fn loaded_nes(mapper: u8, prg_banks: u8, chr_banks: u8) -> Nes {
    let mut nes = Nes::new();
    nes.load_rom(&test_rom_with(mapper, prg_banks, chr_banks)).unwrap();
    nes
}

#[test]
fn rom_loading_errors() {
    assert_eq!(load_rom(&[0u8; 4]).err(), Some(RomError::Truncated));
    let mut bad_magic = test_rom_with(0, 2, 1);
    bad_magic[0] = b'X';
    assert_eq!(load_rom(&bad_magic).err(), Some(RomError::BadMagic));
    let mut short = test_rom_with(0, 2, 1);
    short.truncate(100);
    assert_eq!(load_rom(&short).err(), Some(RomError::Truncated));
    let unsupported = test_rom_with(4, 2, 1);
    assert_eq!(load_rom(&unsupported).err(), Some(RomError::UnsupportedMapper(4)));
    let bad_prg = test_rom_with(0, 3, 1);
    assert_eq!(load_rom(&bad_prg).err(), Some(RomError::BadPrgSize));
    let bad_chr = test_rom_with(0, 2, 2);
    assert_eq!(load_rom(&bad_chr).err(), Some(RomError::BadChrSize));
    assert!(load_rom(&test_rom_with(0, 2, 1)).is_ok());
    assert!(load_rom(&test_rom_with(1, 4, 0)).is_ok());
}

#[test]
fn ppu_address_register_and_data_access() {
    let mut nes = loaded_nes(0, 2, 1);
    // Two address writes 0x21 then 0x08 select VRAM address 0x2108.
    nes.mem.write_byte(0x2006, 0x21).unwrap();
    nes.mem.write_byte(0x2006, 0x08).unwrap();
    // A data write lands at 0x2108 and advances the address by 1.
    nes.mem.write_byte(0x2007, 0x5A).unwrap();
    nes.mem.write_byte(0x2007, 0x77).unwrap();
    // Reset the address and read back: the first data read is the
    // stale buffer, the next returns the byte at 0x2108.
    nes.mem.write_byte(0x2006, 0x21).unwrap();
    nes.mem.write_byte(0x2006, 0x08).unwrap();
    let _stale = nes.mem.read_byte(0x2007);
    assert_eq!(nes.mem.read_byte(0x2007), 0x5A);
    assert_eq!(nes.mem.read_byte(0x2007), 0x77);
}

#[test]
fn ppu_address_increment_step_32() {
    let mut nes = loaded_nes(0, 2, 1);
    // Control bit 2 selects the 32-byte increment.
    nes.mem.write_byte(0x2000, 0x04).unwrap();
    nes.mem.write_byte(0x2006, 0x21).unwrap();
    nes.mem.write_byte(0x2006, 0x00).unwrap();
    nes.mem.write_byte(0x2007, 0x11).unwrap(); // 0x2100
    nes.mem.write_byte(0x2007, 0x22).unwrap(); // 0x2120
    nes.mem.write_byte(0x2006, 0x21).unwrap();
    nes.mem.write_byte(0x2006, 0x20).unwrap();
    let _stale = nes.mem.read_byte(0x2007);
    assert_eq!(nes.mem.read_byte(0x2007), 0x22);
}

#[test]
fn palette_entry_0x10_mirrors_entry_0() {
    let mut nes = loaded_nes(0, 2, 1);
    nes.mem.write_byte(0x2006, 0x3F).unwrap();
    nes.mem.write_byte(0x2006, 0x10).unwrap();
    nes.mem.write_byte(0x2007, 0x2B).unwrap();
    assert_eq!(nes.mem.ppu.pallette[0x10], 0x2B);
    assert_eq!(nes.mem.ppu.pallette[0x00], 0x2B);
}

#[test]
fn chr_rom_write_is_fatal_misuse() {
    let mut nes = loaded_nes(0, 2, 1);
    // Point the VRAM address into pattern space and write.
    nes.mem.write_byte(0x2006, 0x00).unwrap();
    nes.mem.write_byte(0x2006, 0x10).unwrap();
    assert_eq!(nes.mem.write_byte(0x2007, 0x99), Err(EmuError::ChrWrite));
}

#[test]
fn oam_dma_copies_a_page_and_costs_513() {
    let mut nes = loaded_nes(0, 2, 1);
    for i in 0..256u16 {
        nes.mem.write_byte(0x0200 + i, i as u8).unwrap();
    }
    // Start mid-table to exercise the wraparound.
    nes.mem.write_byte(0x2003, 0xF0).unwrap();
    let cost = nes.mem.write_byte(0x4014, 0x02).unwrap();
    assert_eq!(cost, 513);
    for i in 0..256usize {
        assert_eq!(nes.mem.ppu.oam[(0xF0 + i) & 0xFF], i as u8);
    }
}

#[test]
fn mapper1_serial_control_write() {
    let mut nes = loaded_nes(1, 4, 0);
    // Shift in 0b01110 (vertical mirroring, 16KB swap at 0x8000,
    // 8KB graphics): bits enter low bit first.
    for bit in [0u8, 1, 1, 1, 0] {
        nes.mem.write_byte(0x8000, bit).unwrap();
    }
    match nes.mem.cartridge.as_ref().unwrap() {
        AnyCartridge::Mmc1(m) => {
            assert_eq!(m.control_register.mirroring, Mirroring::Vertical);
            assert_eq!(m.control_register.prg_swapping, PRGSize::Size16k(PRGSwap::Swap8000));
            assert_eq!(m.control_register.chr_swapping, CHRSize::Size8k);
            assert_eq!(m.shift_register, 0x10);
        },
        _ => panic!("expected mapper 1"),
    }
}

#[test]
fn mapper1_reset_bit_discards_progress() {
    let mut nes = loaded_nes(1, 4, 0);
    let before = match nes.mem.cartridge.as_ref().unwrap() {
        AnyCartridge::Mmc1(m) => m.control_register,
        _ => panic!("expected mapper 1"),
    };
    nes.mem.write_byte(0x8000, 0).unwrap();
    nes.mem.write_byte(0x8000, 1).unwrap();
    // A write with the top bit set resets the shift register without
    // committing anything.
    nes.mem.write_byte(0x8000, 0x80).unwrap();
    match nes.mem.cartridge.as_ref().unwrap() {
        AnyCartridge::Mmc1(m) => {
            assert_eq!(m.control_register, before);
            assert_eq!(m.shift_register, 0x10);
        },
        _ => panic!("expected mapper 1"),
    }
}

#[test]
fn controller_shift_protocol() {
    let mut bus = InputBus::new();
    let state = ControllerState {
        up: false,
        down: false,
        right: false,
        left: false,
        start: true,
        select: false,
        a: true,
        b: false,
    };
    bus.set_controller1_state(state);
    // Strobe high then low latches the buttons.
    bus.write(1);
    bus.write(0);
    // A=1, B=0, Select=0, Start=1, then the directions.
    let expected = [1u8, 0, 0, 1, 0, 0, 0, 0];
    for e in expected {
        assert_eq!(bus.read_4016(), e);
    }
    // A real controller returns 1 after its 8 buttons are exhausted.
    assert_eq!(bus.read_4016(), 1);
    assert_eq!(bus.read_4016(), 1);
    // An empty port 2 reads 0.
    assert_eq!(bus.read_4017(), 0);
}

#[test]
fn controller_direct_reads() {
    let mut c = Controller::default();
    c.set_state(ControllerState {
        up: true,
        down: false,
        right: false,
        left: false,
        start: false,
        select: false,
        a: false,
        b: false,
    });
    c.write(1);
    c.write(0);
    let mut bits = Vec::new();
    for _ in 0..8 {
        bits.push(c.read());
    }
    assert_eq!(bits, vec![0, 0, 0, 0, 1, 0, 0, 0]);
}

#[test]
fn vblank_begins_at_scanline_241() {
    let mut nes = loaded_nes(0, 2, 1);
    let cart = nes.mem.cartridge.as_ref().unwrap();
    // 241 scanlines of 341 dots reach (241, 1).
    let dots = 241u64 * 341 + 1;
    let complete = nes.mem.ppu.advance_cycles(cart, dots);
    assert!(complete);
    assert!(nes.mem.ppu.reg.ppustatus.vblank);
    // A status read reports and clears the flag.
    let status = nes.mem.read_byte(0x2002);
    assert_eq!(status & 0x80, 0x80);
    assert!(!nes.mem.ppu.reg.ppustatus.vblank);
}

#[test]
fn mapper0_prg_ram_round_trip() {
    let mut nes = loaded_nes(0, 2, 1);
    nes.mem.write_byte(0x6123, 0x77).unwrap();
    assert_eq!(nes.mem.read_byte(0x6123), 0x77);
    // RAM mirrors every 2KB below 0x2000.
    nes.mem.write_byte(0x0005, 0x31).unwrap();
    assert_eq!(nes.mem.read_byte(0x0805), 0x31);
    assert_eq!(nes.mem.read_byte(0x1005), 0x31);
    assert_eq!(nes.mem.read_byte(0x1805), 0x31);
}

#[test]
fn mapper1_chr_ram_round_trip() {
    let mut nes = loaded_nes(1, 4, 0);
    nes.mem.write_byte(0x2006, 0x00).unwrap();
    nes.mem.write_byte(0x2006, 0x40).unwrap();
    nes.mem.write_byte(0x2007, 0x66).unwrap();
    nes.mem.write_byte(0x2006, 0x00).unwrap();
    nes.mem.write_byte(0x2006, 0x40).unwrap();
    let _stale = nes.mem.read_byte(0x2007);
    assert_eq!(nes.mem.read_byte(0x2007), 0x66);
}

#[test]
fn mapper_constructors() {
    let prg = vec![0u8; 0x4000];
    let chr = vec![0u8; 0x2000];
    let m0 = CartridgeMapper0::new(&prg, &chr, Mirroring::Vertical);
    assert!(m0.mirrored);
    assert_eq!(m0.get_nt_mirroring(), Mirroring::Vertical);
    let m1 = CartridgeMapper1::new(vec![1u8; 0x8000], Vec::new(), Mirroring::Horizontal);
    assert_eq!(m1.shift_register, 0x10);
    assert_eq!(m1.read_byte(0x8000), 1);
    let cfg = ConfigReg::new(0x0E);
    assert_eq!(cfg.mirroring, Mirroring::Vertical);
    assert_eq!(cfg.prg_swapping, PRGSize::Size16k(PRGSwap::Swap8000));
    let prg_reg = PRGReg::new(0x13);
    assert_eq!(prg_reg.bank, 3);
    assert!(prg_reg.wram_enable);
}

#[test]
fn pipeline_shows_loaded_bits() {
    let mut p = Pipeline { at_hi: 0, at_lo: 0, pt_lo: 0, pt_hi: 0, at_latch_hi: 0, at_latch_lo: 0 };
    // Load a slice whose leftmost pattern bit pair is 0b11 after the
    // eight shifts that move it into the visible byte.
    p.transfer(0x80, 0x80, 0x03);
    for _ in 0..8 {
        p.shift();
    }
    let (pt, at) = p.read(0);
    assert_eq!(pt, 3);
    assert_eq!(at, 3);
}

#[test]
fn run_frame_returns_a_frame_buffer() {
    // NOP; JMP self keeps the CPU busy while the PPU counts dots.
    let mut bytes = test_rom_with(0, 2, 1);
    let program = [0xEA, 0x4C, 0x01, 0x80];
    for (i, b) in program.iter().enumerate() {
        bytes[16 + i] = *b;
    }
    let mut nes = Nes::new();
    nes.load_rom(&bytes).unwrap();
    let frame = nes.run_frame().unwrap();
    assert_eq!(frame.len(), 256 * 240 * 3);
}

#[test]
fn nametable_render_helpers() {
    let mut nes = loaded_nes(0, 2, 1);
    // Tile (1, 0) of the first nametable is entry 1.
    nes.mem.write_byte(0x2006, 0x20).unwrap();
    nes.mem.write_byte(0x2006, 0x01).unwrap();
    nes.mem.write_byte(0x2007, 0x42).unwrap();
    assert_eq!(nes.mem.ppu.read_nametable(Mirroring::Horizontal, 8, 0), 0x42);
    assert_eq!(nes.mem.ppu.read_nametable(Mirroring::Horizontal, 0, 0), 0);
    // An attribute byte covers a 32x32 block with 2-bit fields.
    nes.mem.write_byte(0x2006, 0x23).unwrap();
    nes.mem.write_byte(0x2006, 0xC0).unwrap();
    nes.mem.write_byte(0x2007, 0b1110_0100).unwrap();
    assert_eq!(nes.mem.ppu.read_attribute_table(Mirroring::Horizontal, 0, 0), 0);
    assert_eq!(nes.mem.ppu.read_attribute_table(Mirroring::Horizontal, 16, 0), 1);
    assert_eq!(nes.mem.ppu.read_attribute_table(Mirroring::Horizontal, 0, 16), 2);
    assert_eq!(nes.mem.ppu.read_attribute_table(Mirroring::Horizontal, 16, 16), 3);
}

#[test]
fn palette_data_reads_are_immediate() {
    let mut nes = loaded_nes(0, 2, 1);
    nes.mem.write_byte(0x2006, 0x3F).unwrap();
    nes.mem.write_byte(0x2006, 0x01).unwrap();
    nes.mem.write_byte(0x2007, 0x19).unwrap();
    nes.mem.write_byte(0x2006, 0x3F).unwrap();
    nes.mem.write_byte(0x2006, 0x01).unwrap();
    // A data read targeting palette space returns the byte at once,
    // with no stale-buffer indirection.
    assert_eq!(nes.mem.read_byte(0x2007), 0x19);
}

#[test]
fn disabled_rendering_shows_the_backdrop_color() {
    let mut nes = loaded_nes(0, 2, 1);
    // Set the backdrop entry, then park the working address outside
    // palette space so the disabled-rendering pixel shows entry 0.
    nes.mem.write_byte(0x2006, 0x3F).unwrap();
    nes.mem.write_byte(0x2006, 0x00).unwrap();
    nes.mem.write_byte(0x2007, 0x21).unwrap();
    nes.mem.write_byte(0x2006, 0x20).unwrap();
    nes.mem.write_byte(0x2006, 0x00).unwrap();
    let frame = nes.run_frame().unwrap();
    // System palette entry 0x21.
    let expected = rusty_nes::palette::system_palette(0x21);
    assert_eq!((frame[0], frame[1], frame[2]), expected);
    let last = frame.len() - 3;
    assert_eq!((frame[last], frame[last + 1], frame[last + 2]), expected);
}
