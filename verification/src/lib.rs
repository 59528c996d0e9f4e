//! A verified model of the Nintendo Entertainment System's hardware:
//! a 6502-family CPU, a scanline/cycle PPU, cartridge bank-switching
//! logic (mappers 0 and 1), the controller shift registers, and the
//! memory bus wiring them together.

pub mod cartridge;
pub mod cpu;
pub mod errors;
pub mod input;
pub mod instructions;
pub mod memory;
pub mod memory_utils;
pub mod nes;
pub mod palette;
pub mod ppu;
