use vstd::prelude::*;

verus! {

/// A fatal condition hit while emulating: every variant reflects either
/// a defective guest program or a cartridge misuse, never an expected
/// operating condition, so callers abort the session.
#[derive(Clone, Copy, Debug, PartialEq, Eq, Structural)]
pub enum EmuError {
    /// An opcode byte with no entry in the decode table.
    UnknownOpcode(u8),
    /// A write into graphics storage that the cartridge maps as ROM.
    ChrWrite,
    /// The frame loop's structural step bound ran out, which no real
    /// frame can reach.
    FrameTimeout,
}

/// A malformed cartridge image, detected at load time before any
/// execution begins.
#[derive(Clone, Copy, Debug, PartialEq, Eq, Structural)]
pub enum RomError {
    /// Fewer bytes than the header, or than the header promises.
    Truncated,
    /// The first four bytes are not the fixed magic.
    BadMagic,
    /// A mapper number this model does not cover.
    UnsupportedMapper(u8),
    /// A program-ROM size the named mapper cannot hold.
    BadPrgSize,
    /// A graphics-ROM size the named mapper cannot hold.
    BadChrSize,
}

impl RomError {
    /// A fixed description, for presentation layers that print errors.
    pub fn describe(&self) -> (r: &'static str)
    {
        match self {
            RomError::Truncated => "cartridge image is truncated",
            RomError::BadMagic => "cartridge image lacks the iNES magic",
            RomError::UnsupportedMapper(_) => "unsupported mapper number",
            RomError::BadPrgSize => "bad program ROM size",
            RomError::BadChrSize => "bad graphics ROM size",
        }
    }
}

} // verus!
