use vstd::prelude::*;

use crate::cartridge::{AnyCartridge, Cartridge, Mirroring};
use crate::errors::EmuError;
use crate::palette::spec_system_palette;

verus! {

/// The VRAM-address increment step the control register selects.
#[derive(Clone, Copy, Debug, PartialEq, Eq, Structural)]
pub enum VramInc {
    Inc1,
    Inc32,
}

/// The sprite height the control register selects.
#[derive(Clone, Copy, Debug, PartialEq, Eq, Structural)]
pub enum SpriteSize {
    Sprite8x8,
    Sprite8x16,
}

/// The decoded control register (0x2000).
#[derive(Clone, Copy, Debug, PartialEq, Eq, Structural)]
pub struct PpuCtrl {
    pub vram_inc: VramInc,
    pub sprite_pt_addr: u16,
    pub bg_pt_addr: u16,
    pub sprite_size: SpriteSize,
    pub ext_out: bool,
    pub nmi: bool,
}

/// The control register decoded from its byte: bit 2 the increment
/// step, bit 3 the sprite pattern half (8x8 only), bit 4 the
/// background pattern half, bit 5 the sprite height, bit 7 NMI enable.
pub open spec fn spec_ppu_ctrl(value: u8) -> PpuCtrl {
    PpuCtrl {
        vram_inc: if value & 0x04 == 0 {
            VramInc::Inc1
        } else {
            VramInc::Inc32
        },
        sprite_pt_addr: if value & 0x20 != 0 {
            0u16
        } else if value & 0x08 == 0 {
            0u16
        } else {
            0x1000u16
        },
        bg_pt_addr: if value & 0x10 == 0 {
            0u16
        } else {
            0x1000u16
        },
        sprite_size: if value & 0x20 == 0 {
            SpriteSize::Sprite8x8
        } else {
            SpriteSize::Sprite8x16
        },
        ext_out: value & 0x40 != 0,
        nmi: value & 0x80 != 0,
    }
}

impl PpuCtrl {
    pub fn from_byte(value: u8) -> (r: Self)
        ensures
            r == spec_ppu_ctrl(value),
    {
        PpuCtrl {
            vram_inc: if value & 0x04 == 0 {
                VramInc::Inc1
            } else {
                VramInc::Inc32
            },
            sprite_pt_addr: if value & 0x20 != 0 {
                0u16
            } else if value & 0x08 == 0 {
                0u16
            } else {
                0x1000u16
            },
            bg_pt_addr: if value & 0x10 == 0 {
                0u16
            } else {
                0x1000u16
            },
            sprite_size: if value & 0x20 == 0 {
                SpriteSize::Sprite8x8
            } else {
                SpriteSize::Sprite8x16
            },
            ext_out: value & 0x40 != 0,
            nmi: value & 0x80 != 0,
        }
    }
}

/// The decoded mask register (0x2001).
#[derive(Clone, Copy, Debug, PartialEq, Eq, Structural)]
pub struct PpuMask {
    pub grayscale: bool,
    pub show_left_bg: bool,
    pub show_left_sprite: bool,
    pub show_bg: bool,
    pub show_sprites: bool,
    pub emph_red: bool,
    pub emph_blue: bool,
    pub emph_green: bool,
}

/// The mask register decoded from its byte, one flag per bit.
pub open spec fn spec_ppu_mask(value: u8) -> PpuMask {
    PpuMask {
        grayscale: value & 0x01 != 0,
        show_left_bg: value & 0x02 != 0,
        show_left_sprite: value & 0x04 != 0,
        show_bg: value & 0x08 != 0,
        show_sprites: value & 0x10 != 0,
        emph_red: value & 0x20 != 0,
        emph_blue: value & 0x40 != 0,
        emph_green: value & 0x80 != 0,
    }
}

impl PpuMask {
    pub fn from_byte(value: u8) -> (r: Self)
        ensures
            r == spec_ppu_mask(value),
    {
        PpuMask {
            grayscale: value & 0x01 != 0,
            show_left_bg: value & 0x02 != 0,
            show_left_sprite: value & 0x04 != 0,
            show_bg: value & 0x08 != 0,
            show_sprites: value & 0x10 != 0,
            emph_red: value & 0x20 != 0,
            emph_blue: value & 0x40 != 0,
            emph_green: value & 0x80 != 0,
        }
    }
}

/// The status register's three live flags (0x2002).
#[derive(Clone, Copy, Debug, PartialEq, Eq, Structural)]
pub struct PpuStatus {
    pub sprite_overflow: bool,
    pub sprite_0_hit: bool,
    pub vblank: bool,
}

/// The byte a status read returns: overflow in bit 5, sprite-zero
/// hit in bit 6, vertical blank in bit 7.
pub open spec fn spec_status_byte(s: PpuStatus) -> u8 {
    (if s.sprite_overflow { 0x20u8 } else { 0u8 }) | (if s.sprite_0_hit { 0x40u8 } else { 0u8 })
        | (if s.vblank { 0x80u8 } else { 0u8 })
}

impl PpuStatus {
    pub fn to_byte(&self) -> (r: u8)
        ensures
            r == spec_status_byte(*self),
    {
        (if self.sprite_overflow { 0x20u8 } else { 0u8 }) | (if self.sprite_0_hit {
            0x40u8
        } else {
            0u8
        }) | (if self.vblank { 0x80u8 } else { 0u8 })
    }
}

/// A 15-bit composite scroll/VRAM address: coarse X in bits 0-4,
/// coarse Y in bits 5-9, the nametable selects in bits 10-11, and
/// fine Y in bits 12-14.
#[derive(Clone, Copy, Debug, PartialEq, Eq, Structural)]
pub struct VRamAddr {
    pub coarse_x: u8,
    pub coarse_y: u8,
    pub nt_x: bool,
    pub nt_y: bool,
    pub fine_y: u8,
}

impl VRamAddr {
    /// Field ranges: the composite never exceeds 15 significant bits.
    pub open spec fn wf(&self) -> bool {
        self.coarse_x < 32 && self.coarse_y < 32 && self.fine_y < 8
    }
}

/// The composite packed into a word.
pub open spec fn spec_vram_to_u16(v: VRamAddr) -> u16 {
    ((v.fine_y as u16) << 12) | (if v.nt_y { 0x800u16 } else { 0u16 }) | (if v.nt_x {
        0x400u16
    } else {
        0u16
    }) | ((v.coarse_y as u16) << 5) | (v.coarse_x as u16)
}

/// The composite unpacked from a word (bits 15 and up ignored).
pub open spec fn spec_vram_from_u16(v: u16) -> VRamAddr {
    VRamAddr {
        coarse_x: (v & 0x1F) as u8,
        coarse_y: ((v & 0x3E0) >> 5) as u8,
        nt_x: v & 0x400 != 0,
        nt_y: v & 0x800 != 0,
        fine_y: ((v & 0x7000) >> 12) as u8,
    }
}

/// Unpacked fields are always in range.
pub proof fn lemma_vram_from_u16_wf(v: u16)
    by (bit_vector)
    ensures
        (v & 0x1F) < 32,
        ((v & 0x3E0) >> 5) < 32,
        ((v & 0x7000) >> 12) < 8,
        spec_vram_to_u16(spec_vram_from_u16(v)) == v & 0x7FFF,
{
}

impl VRamAddr {
    pub fn to_u16(&self) -> (r: u16)
        requires
            self.wf(),
        ensures
            r == spec_vram_to_u16(*self),
    {
        ((self.fine_y as u16) << 12) | (if self.nt_y { 0x800u16 } else { 0u16 }) | (if self.nt_x {
            0x400u16
        } else {
            0u16
        }) | ((self.coarse_y as u16) << 5) | (self.coarse_x as u16)
    }

    pub fn from_u16(v: u16) -> (r: Self)
        ensures
            r == spec_vram_from_u16(v),
            r.wf(),
    {
        proof {
            lemma_vram_from_u16_wf(v);
        }
        VRamAddr {
            coarse_x: (v & 0x1F) as u8,
            coarse_y: ((v & 0x3E0) >> 5) as u8,
            nt_x: v & 0x400 != 0,
            nt_y: v & 0x800 != 0,
            fine_y: ((v & 0x7000) >> 12) as u8,
        }
    }
}

/// Bounds of the byte fields the scroll/address writes extract.
pub proof fn lemma_scroll_field_bounds()
    by (bit_vector)
    ensures
        forall|d: u8| #[trigger] (d >> 3) < 32,
        forall|d: u8| #[trigger] (d & 0x07) < 8,
        forall|d: u8| #[trigger] (d & 0x1F) < 32,
        forall|a: u8, b: u8| #[trigger] ((a & 0x07) | ((b & 0x03) << 3)) < 32,
        forall|d: u8| #[trigger] ((d & 0x70) >> 4) < 8,
        forall|a: u8, b: u8| #[trigger] ((a & 0x18) | ((b & 0xE0) >> 5)) < 32,
{
}

/// The internal scroll state: the live address `v`, the latch
/// target `t`, the fine-x offset, and the two-write toggle `w`.
#[derive(Clone, Copy, Debug, PartialEq, Eq, Structural)]
pub struct InternalRegisters {
    pub v: VRamAddr,
    pub t: VRamAddr,
    pub x: u8,
    pub w: bool,
}

/// Coarse X stepping: wraps past 31 and toggles the horizontal
/// nametable select.
pub open spec fn spec_inc_x(v: VRamAddr) -> VRamAddr {
    if v.coarse_x >= 31 {
        VRamAddr { coarse_x: 0, nt_x: !v.nt_x, ..v }
    } else {
        VRamAddr { coarse_x: (v.coarse_x + 1) as u8, ..v }
    }
}

/// Fine/coarse Y stepping: fine Y wraps into coarse Y; row 29 wraps
/// to 0 and toggles the vertical nametable select, row 31 wraps to 0
/// without toggling.
pub open spec fn spec_inc_y(v: VRamAddr) -> VRamAddr {
    if v.fine_y < 7 {
        VRamAddr { fine_y: (v.fine_y + 1) as u8, ..v }
    } else if v.coarse_y == 29 {
        VRamAddr { fine_y: 0, coarse_y: 0, nt_y: !v.nt_y, ..v }
    } else if v.coarse_y == 31 {
        VRamAddr { fine_y: 0, coarse_y: 0, ..v }
    } else {
        VRamAddr { fine_y: 0, coarse_y: (v.coarse_y + 1) as u8, ..v }
    }
}


/// Control-register writes hand the nametable selects to `t`.
pub open spec fn spec_write_nt(i: InternalRegisters, d: u8) -> InternalRegisters {
    InternalRegisters { t: VRamAddr { nt_x: d & 0x01 != 0, nt_y: d & 0x02 != 0, ..i.t }, ..i }
}

/// A scroll-register write's effect on the internal state.
pub open spec fn spec_write_scroll(i: InternalRegisters, d: u8) -> InternalRegisters {
    if !i.w {
        InternalRegisters { t: VRamAddr { coarse_x: d >> 3, ..i.t }, x: d & 0x07, w: true, ..i }
    } else {
        InternalRegisters { t: VRamAddr { coarse_y: d >> 3, fine_y: d & 0x07, ..i.t }, w: false, ..i }
    }
}

/// An address-register write's effect on the internal state.
pub open spec fn spec_write_addr(i: InternalRegisters, d: u8) -> InternalRegisters {
    if !i.w {
        InternalRegisters {
            t: VRamAddr {
                coarse_y: (i.t.coarse_y & 0x07) | (((d & 0x3F) & 0x03) << 3),
                nt_x: (d & 0x3F) & 0x04 != 0,
                nt_y: (d & 0x3F) & 0x08 != 0,
                fine_y: ((d & 0x3F) & 0x70) >> 4,
                ..i.t
            },
            w: true,
            ..i
        }
    } else {
        let t2 = VRamAddr {
            coarse_x: d & 0x1F,
            coarse_y: (i.t.coarse_y & 0x18) | ((d & 0xE0) >> 5),
            ..i.t
        };
        InternalRegisters { t: t2, v: t2, w: false, ..i }
    }
}

/// A data-register access's step of the live address.
pub open spec fn spec_inc_addr(i: InternalRegisters, inc: VramInc) -> InternalRegisters {
    InternalRegisters {
        v: spec_vram_from_u16(
            (spec_vram_to_u16(i.v) + if inc is Inc1 {
                1u16
            } else {
                32u16
            }) as u16,
        ),
        ..i
    }
}

/// The horizontal-position copy at cycle 258.
pub open spec fn spec_reset_x(i: InternalRegisters) -> InternalRegisters {
    InternalRegisters { v: VRamAddr { coarse_x: i.t.coarse_x, nt_x: i.t.nt_x, ..i.v }, ..i }
}

/// The vertical-position copy on the pre-render line.
pub open spec fn spec_reset_y(i: InternalRegisters) -> InternalRegisters {
    InternalRegisters {
        v: VRamAddr { coarse_y: i.t.coarse_y, fine_y: i.t.fine_y, nt_y: i.t.nt_y, ..i.v },
        ..i
    }
}

impl InternalRegisters {
    pub open spec fn wf(&self) -> bool {
        self.v.wf() && self.t.wf() && self.x < 8
    }

    /// Control-register writes hand the nametable selects to `t`.
    pub fn write_nt(&mut self, d: u8)
        ensures
            *final(self) == spec_write_nt(*old(self), d),
    {
        self.t.nt_x = d & 0x01 != 0;
        self.t.nt_y = d & 0x02 != 0;
    }

    /// A status read clears the two-write toggle.
    pub fn unlatch(&mut self)
        ensures
            *final(self) == (InternalRegisters { w: false, ..*old(self) }),
    {
        self.w = false
    }

    /// A scroll-register write: the first write sets coarse/fine X,
    /// the second coarse/fine Y, toggling the latch in between.
    pub fn write_scroll(&mut self, d: u8)
        requires
            old(self).wf(),
        ensures
            final(self).wf(),
            *final(self) == spec_write_scroll(*old(self), d),
    {
        proof {
            lemma_scroll_field_bounds();
        }
        if !self.w {
            self.t.coarse_x = d >> 3;
            self.x = d & 0x07;
            self.w = true;
        } else {
            self.t.coarse_y = d >> 3;
            self.t.fine_y = d & 0x07;
            self.w = false;
        }
    }

    /// An address-register write: the first write lands the high six
    /// bits in `t` (through the documented overlap with the scroll
    /// fields, clearing the top fine-Y bit), the second write lands
    /// the low byte and copies `t` into `v`.
    pub fn write_addr(&mut self, d: u8)
        requires
            old(self).wf(),
        ensures
            final(self).wf(),
            *final(self) == spec_write_addr(*old(self), d),
    {
        proof {
            lemma_scroll_field_bounds();
        }
        if !self.w {
            let d = d & 0x3F;
            self.t.coarse_y = (self.t.coarse_y & 0x07) | ((d & 0x03) << 3);
            self.t.nt_x = d & 0x04 != 0;
            self.t.nt_y = d & 0x08 != 0;
            self.t.fine_y = (d & 0x70) >> 4;
            self.w = true;
        } else {
            self.t.coarse_x = d & 0x1F;
            self.t.coarse_y = (self.t.coarse_y & 0x18) | ((d & 0xE0) >> 5);
            self.w = false;
            self.v = self.t;
        }
    }

    /// Coarse X stepping of the live address.
    pub fn inc_x(&mut self)
        requires
            old(self).wf(),
        ensures
            final(self).wf(),
            *final(self) == (InternalRegisters { v: spec_inc_x(old(self).v), ..*old(self) }),
    {
        if self.v.coarse_x >= 31 {
            self.v.coarse_x = 0;
            self.v.nt_x = !self.v.nt_x;
        } else {
            self.v.coarse_x = self.v.coarse_x + 1;
        }
    }

    /// Fine/coarse Y stepping of the live address.
    pub fn inc_y(&mut self)
        requires
            old(self).wf(),
        ensures
            final(self).wf(),
            *final(self) == (InternalRegisters { v: spec_inc_y(old(self).v), ..*old(self) }),
    {
        if self.v.fine_y < 7 {
            self.v.fine_y = self.v.fine_y + 1;
        } else {
            self.v.fine_y = 0;
            if self.v.coarse_y == 29 {
                self.v.nt_y = !self.v.nt_y;
                self.v.coarse_y = 0;
            } else if self.v.coarse_y == 31 {
                self.v.coarse_y = 0;
            } else {
                self.v.coarse_y = self.v.coarse_y + 1;
            }
        }
    }

    /// Copies the horizontal scroll position from the latch target.
    pub fn reset_x(&mut self)
        ensures
            *final(self) == spec_reset_x(*old(self)),
    {
        self.v.coarse_x = self.t.coarse_x;
        self.v.nt_x = self.t.nt_x;
    }

    /// Copies the full vertical scroll position from the latch target.
    pub fn reset_y(&mut self)
        ensures
            *final(self) == spec_reset_y(*old(self)),
    {
        self.v.coarse_y = self.t.coarse_y;
        self.v.fine_y = self.t.fine_y;
        self.v.nt_y = self.t.nt_y;
    }

    /// A data-register access advances the live address by the
    /// configured step.
    pub fn inc_addr(&mut self, inc: VramInc)
        requires
            old(self).wf(),
        ensures
            final(self).wf(),
            *final(self) == spec_inc_addr(*old(self), inc),
    {
        proof {
            let cx = self.v.coarse_x;
            let cy = self.v.coarse_y;
            let fy = self.v.fine_y;
            let bx: u16 = if self.v.nt_x {
                0x400
            } else {
                0
            };
            let by: u16 = if self.v.nt_y {
                0x800
            } else {
                0
            };
            assert((((fy as u16) << 12) | by | bx | ((cy as u16) << 5) | (cx as u16)) <= 0x7FFF)
                by (bit_vector)
                requires
                    cx < 32 && cy < 32 && fy < 8 && (bx == 0 || bx == 0x400) && (by == 0 || by
                        == 0x800),
            ;
        }
        let mut v16 = self.v.to_u16();
        v16 = v16 + match inc {
            VramInc::Inc1 => 1,
            VramInc::Inc32 => 32,
        };
        self.v = VRamAddr::from_u16(v16);
    }

    /// The live address as the 14-bit PPU memory address it selects.
    pub fn get_addr(&self) -> (r: u16)
        requires
            self.wf(),
        ensures
            r == spec_vram_to_u16(self.v) & 0x3FFF,
    {
        self.v.to_u16() & 0x3FFF
    }

    /// The nametable entry the live address points at.
    pub fn get_tile_addr(&self) -> (r: u16)
        requires
            self.wf(),
        ensures
            r == 0x2000u16 | (spec_vram_to_u16(self.v) & 0xFFF),
    {
        0x2000u16 | (self.v.to_u16() & 0xFFF)
    }

    /// The attribute-table entry covering the live address.
    pub fn get_attr_addr(&self) -> (r: u16)
        requires
            self.wf(),
        ensures
            r == ({
                let v = spec_vram_to_u16(self.v);
                0x23C0u16 | (v & 0x0C00) | ((v >> 4) & 0x38) | ((v >> 2) & 0x07)
            }),
    {
        let v = self.v.to_u16();
        0x23C0u16 | (v & 0x0C00) | ((v >> 4) & 0x38) | ((v >> 2) & 0x07)
    }
}

/// The background shifting pipeline: two 16-bit pattern shifters and
/// two 8-bit attribute shifters fed from one-bit latches.
#[derive(Clone, Copy, Debug, PartialEq, Eq, Structural)]
pub struct Pipeline {
    pub at_hi: u8,
    pub at_lo: u8,
    pub pt_lo: u16,
    pub pt_hi: u16,
    pub at_latch_hi: u8,
    pub at_latch_lo: u8,
}

/// The two-bit pattern value the pipeline shows at fine-x offset
/// `fine_x`.
pub open spec fn spec_pipeline_pt(p: Pipeline, fine_x: u8) -> u8 {
    let shift = (7 - fine_x) as u8;
    let mask = (1u8 << shift) as u8;
    ((((p.pt_hi & ((mask as u16) << 8)) >> ((shift + 8) - 1)) | ((p.pt_lo & ((mask as u16) << 8))
        >> (shift + 8))) & 0xFF) as u8
}

/// The two-bit attribute value the pipeline shows at fine-x offset
/// `fine_x`.
pub open spec fn spec_pipeline_at(p: Pipeline, fine_x: u8) -> u8 {
    let shift = (7 - fine_x) as u8;
    let mask = (1u8 << shift) as u8;
    let hi = p.at_hi & mask;
    let hi_shifted = if shift == 0 {
        (hi << 1) as u8
    } else {
        (hi >> ((shift - 1) as u8)) as u8
    };
    hi_shifted | ((p.at_lo & mask) >> shift)
}

/// A pipeline load: the pattern slice enters the low shifter bytes
/// and the attribute bit pair enters the latches.
pub open spec fn spec_transfer(p: Pipeline, pt_hi: u8, pt_lo: u8, at: u8) -> Pipeline {
    Pipeline {
        pt_hi: (pt_hi as u16) | (p.pt_hi & 0xFF00),
        pt_lo: (pt_lo as u16) | (p.pt_lo & 0xFF00),
        at_latch_hi: (at & 0x02) >> 1,
        at_latch_lo: at & 0x01,
        ..p
    }
}

/// One dot's shift of the pipeline.
pub open spec fn spec_shift(p: Pipeline) -> Pipeline {
    Pipeline {
        at_hi: (p.at_hi << 1) | p.at_latch_hi,
        at_lo: (p.at_lo << 1) | p.at_latch_lo,
        pt_hi: p.pt_hi << 1,
        pt_lo: p.pt_lo << 1,
        ..p
    }
}

impl Pipeline {
    /// Loads a fresh pattern slice into the low shifter bytes and the
    /// attribute bit pair into the latches.
    pub fn transfer(&mut self, pt_hi: u8, pt_lo: u8, at: u8)
        ensures
            *final(self) == spec_transfer(*old(self), pt_hi, pt_lo, at),
    {
        self.pt_hi = (pt_hi as u16) | (self.pt_hi & 0xFF00);
        self.pt_lo = (pt_lo as u16) | (self.pt_lo & 0xFF00);
        self.at_latch_hi = (at & 0x02) >> 1;
        self.at_latch_lo = at & 0x01;
    }

    /// The currently visible pattern/attribute bit pair, selected by
    /// the fine-x scroll offset.
    pub fn read(&self, fine_x: u8) -> (r: (u8, u8))
        requires
            fine_x < 8,
        ensures
            r.0 == spec_pipeline_pt(*self, fine_x),
            r.1 == spec_pipeline_at(*self, fine_x),
            r.0 < 4,
            r.1 < 4,
    {
        let shift: u8 = 7 - fine_x;
        let mask: u8 = 1u8 << shift;

        let mut pt: u16 = self.pt_hi & ((mask as u16) << 8);
        let mut at: u8 = self.at_hi & mask;

        pt = pt >> ((shift + 8) - 1);
        if shift == 0 {
            at = at << 1;
        } else {
            at = at >> (shift - 1);
        }

        pt = pt | ((self.pt_lo & ((mask as u16) << 8)) >> (shift + 8));
        at = at | ((self.at_lo & mask) >> shift);
        proof {
            let ph = self.pt_hi;
            let pl = self.pt_lo;
            let ah = self.at_hi;
            let al = self.at_lo;
            let sh: u8 = (7 - fine_x) as u8;
            assert(((((ph & (((1u8 << sh) as u16) << 8)) >> ((sh + 7) as u16)) | ((pl & (((1u8
                << sh) as u16) << 8)) >> ((sh + 8) as u16))) & 0xFF) < 4) by (bit_vector)
                requires
                    sh < 8,
            ;
            assert((((ph & (((1u8 << sh) as u16) << 8)) >> ((sh + 7) as u16)) | ((pl & (((1u8
                << sh) as u16) << 8)) >> ((sh + 8) as u16))) <= 0xFF && ((((ph & (((1u8 << sh)
                as u16) << 8)) >> ((sh + 7) as u16)) | ((pl & (((1u8 << sh) as u16) << 8)) >> ((sh
                + 8) as u16))) & 0xFF) == (((ph & (((1u8 << sh) as u16) << 8)) >> ((sh + 7) as u16))
                | ((pl & (((1u8 << sh) as u16) << 8)) >> ((sh + 8) as u16)))) by (bit_vector)
                requires
                    sh < 8,
            ;
            if sh == 0 {
                assert(((((ah & (1u8 << sh)) << 1) as u8) | ((al & (1u8 << sh)) >> sh)) < 4)
                    by (bit_vector)
                    requires
                        sh == 0,
                ;
            } else {
                assert((((ah & (1u8 << sh)) >> ((sh - 1) as u8)) | ((al & (1u8 << sh)) >> sh)) < 4)
                    by (bit_vector)
                    requires
                        1 <= sh < 8,
                ;
            }
        }
        (pt as u8, at)
    }

    /// One dot's shift: the pattern shifters move up a bit and the
    /// attribute shifters take a bit from their latches.
    pub fn shift(&mut self)
        ensures
            *final(self) == spec_shift(*old(self)),
    {
        self.at_hi = (self.at_hi << 1) | self.at_latch_hi;
        self.at_lo = (self.at_lo << 1) | self.at_latch_lo;
        self.pt_hi = self.pt_hi << 1;
        self.pt_lo = self.pt_lo << 1;
    }
}

/// A sprite's decoded attribute byte.
#[derive(Clone, Copy, Debug, PartialEq, Eq, Structural)]
pub struct SpriteAttributes {
    pub palette: u8,
    pub bg_priority: bool,
    pub flip_horz: bool,
    pub flip_vert: bool,
}

/// The attribute byte decoded: palette in bits 0-1, priority in bit
/// 5, horizontal flip in bit 6, vertical flip in bit 7.
pub open spec fn spec_sprite_attributes(val: u8) -> SpriteAttributes {
    SpriteAttributes {
        palette: val & 0x03,
        bg_priority: val & 0x20 != 0,
        flip_horz: val & 0x40 != 0,
        flip_vert: val & 0x80 != 0,
    }
}

impl SpriteAttributes {
    pub fn from_byte(val: u8) -> (r: Self)
        ensures
            r == spec_sprite_attributes(val),
            r.palette < 4,
    {
        proof {
            assert(val & 0x03 < 4) by (bit_vector);
        }
        SpriteAttributes {
            palette: val & 0x03,
            bg_priority: val & 0x20 != 0,
            flip_horz: val & 0x40 != 0,
            flip_vert: val & 0x80 != 0,
        }
    }
}

/// A PPU memory address decoded to its target region.
#[derive(Clone, Copy, Debug, PartialEq, Eq, Structural)]
pub enum PpuAddress {
    Chr(u16),
    Nametable(u16),
    Pallette(u16),
}

/// The region decode: pattern space below 0x2000, nametable space
/// through 0x3EFF (folded to a 4KB window), palette space above,
/// all after the 0x4000 mirror.
pub open spec fn spec_map_ppu_addr(addr: u16) -> PpuAddress {
    let a = addr % 0x4000;
    if a < 0x2000 {
        PpuAddress::Chr(a)
    } else if a < 0x3F00 {
        PpuAddress::Nametable((((a - 0x2000) as u16) % 0x1000) as u16)
    } else {
        PpuAddress::Pallette((((a - 0x3F00) as u16) % 0x20) as u16)
    }
}

pub fn map_ppu_addr(addr: u16) -> (r: PpuAddress)
    ensures
        r == spec_map_ppu_addr(addr),
        r matches PpuAddress::Chr(o) ==> o < 0x2000,
        r matches PpuAddress::Nametable(o) ==> o < 0x1000,
        r matches PpuAddress::Pallette(o) ==> o < 0x20,
{
    let a = addr % 0x4000;
    if a < 0x2000 {
        PpuAddress::Chr(a)
    } else if a < 0x3F00 {
        PpuAddress::Nametable((a - 0x2000) % 0x1000)
    } else {
        PpuAddress::Pallette((a - 0x3F00) % 0x20)
    }
}


/// The register file as the bus sees it.
#[derive(Clone, Copy, Debug, PartialEq, Eq, Structural)]
pub struct PpuRegisters {
    pub ppuctrl: PpuCtrl,
    pub ppumask: PpuMask,
    pub ppustatus: PpuStatus,
    pub oamaddr: u8,
    pub internal: InternalRegisters,
}

/// The frame-position state machine and the rendering scratch state.
#[derive(Clone, Copy, Debug, PartialEq, Eq, Structural)]
pub struct PpuState {
    pub frame: u32,
    pub scanline: usize,
    pub cycle: usize,
    pub pipeline: Pipeline,
    pub num_2oam: usize,
    pub sprite0_det: bool,
}

/// The picture processing unit: registers, the two nametables, OAM,
/// palette RAM, the per-frame state machine, and the output frame
/// buffer (256x240 RGB triples).
pub struct Ppu {
    pub reg: PpuRegisters,
    pub nametable1: Vec<u8>,
    pub nametable2: Vec<u8>,
    pub oam: Vec<u8>,
    pub pallette: Vec<u8>,
    pub state: PpuState,
    pub fb: Vec<u8>,
    pub secondary_oam: Vec<u8>,
    pub read_buf: u8,
}

impl Ppu {
    /// Structural invariant: storage sizes, the secondary-OAM bound,
    /// field ranges of the scroll state, the pattern-half addresses,
    /// and the frame-position ranges.
    pub open spec fn wf(&self) -> bool {
        self.nametable1@.len() == 0x400 && self.nametable2@.len() == 0x400 && self.oam@.len()
            == 256 && self.pallette@.len() == 0x20 && self.fb@.len() == 256 * 240 * 3
            && self.secondary_oam@.len() == 32 && self.state.num_2oam <= 8
            && self.reg.internal.wf() && (self.reg.ppuctrl.bg_pt_addr == 0
            || self.reg.ppuctrl.bg_pt_addr == 0x1000) && (self.reg.ppuctrl.sprite_pt_addr == 0
            || self.reg.ppuctrl.sprite_pt_addr == 0x1000) && self.state.scanline <= 261
            && self.state.cycle <= 340
    }

    /// A fresh PPU: all storage zeroed, all registers cleared.
    pub fn new() -> (r: Self)
        ensures
            r.wf(),
            r.reg.ppuctrl == spec_ppu_ctrl(0),
            r.reg.ppumask == spec_ppu_mask(0),
            r.reg.ppustatus == (PpuStatus {
                sprite_overflow: false,
                sprite_0_hit: false,
                vblank: false,
            }),
            r.reg.oamaddr == 0,
            r.reg.internal.v == (VRamAddr {
                coarse_x: 0,
                coarse_y: 0,
                nt_x: false,
                nt_y: false,
                fine_y: 0,
            }),
            r.reg.internal.t == r.reg.internal.v,
            r.reg.internal.x == 0,
            !r.reg.internal.w,
            r.state.frame == 0 && r.state.scanline == 0 && r.state.cycle == 0,
            r.state.num_2oam == 0,
            !r.state.sprite0_det,
            r.read_buf == 0,
            r.nametable1@ == Seq::new(0x400, |i: int| 0u8),
            r.nametable2@ == Seq::new(0x400, |i: int| 0u8),
            r.oam@ == Seq::new(256, |i: int| 0u8),
            r.pallette@ == Seq::new(0x20, |i: int| 0u8),
            r.fb@ == Seq::new(256 * 240 * 3, |i: int| 0u8),
            r.secondary_oam@ == Seq::new(32, |i: int| 0u8),
    {
        let nametable1: Vec<u8> = vec![0u8; 0x400];
        let nametable2: Vec<u8> = vec![0u8; 0x400];
        let oam: Vec<u8> = vec![0u8; 256];
        let pallette: Vec<u8> = vec![0u8; 0x20];
        let fb: Vec<u8> = vec![0u8; 256 * 240 * 3];
        let secondary_oam: Vec<u8> = vec![0u8; 32];
        proof {
            assert(nametable1@ =~= Seq::new(0x400, |i: int| 0u8));
            assert(nametable2@ =~= Seq::new(0x400, |i: int| 0u8));
            assert(oam@ =~= Seq::new(256, |i: int| 0u8));
            assert(pallette@ =~= Seq::new(0x20, |i: int| 0u8));
            assert(fb@ =~= Seq::new(256 * 240 * 3, |i: int| 0u8));
            assert(secondary_oam@ =~= Seq::new(32, |i: int| 0u8));
        }
        let zero = VRamAddr { coarse_x: 0, coarse_y: 0, nt_x: false, nt_y: false, fine_y: 0 };
        Ppu {
            reg: PpuRegisters {
                ppuctrl: PpuCtrl::from_byte(0),
                ppumask: PpuMask::from_byte(0),
                ppustatus: PpuStatus {
                    sprite_overflow: false,
                    sprite_0_hit: false,
                    vblank: false,
                },
                oamaddr: 0,
                internal: InternalRegisters { v: zero, t: zero, x: 0, w: false },
            },
            nametable1,
            nametable2,
            oam,
            pallette,
            state: PpuState {
                frame: 0,
                scanline: 0,
                cycle: 0,
                pipeline: Pipeline {
                    at_hi: 0,
                    at_lo: 0,
                    pt_lo: 0,
                    pt_hi: 0,
                    at_latch_hi: 0,
                    at_latch_lo: 0,
                },
                num_2oam: 0,
                sprite0_det: false,
            },
            fb,
            secondary_oam,
            read_buf: 0,
        }
    }
}

/// Whether a 4KB-window nametable offset is served by the first
/// physical buffer under mirroring mode `m`.
pub open spec fn nt_select1(m: Mirroring, offset: int) -> bool {
    match m {
        Mirroring::Horizontal => offset < 0x800,
        Mirroring::Vertical => offset % 0x800 < 0x400,
        Mirroring::OneScreen => true,
        Mirroring::UpperBank => false,
    }
}

/// The byte PPU memory address `addr` reads: pattern data from the
/// cartridge, a nametable byte under the active mirroring, or
/// palette RAM with entry 0x10 mirrored onto entry 0.
pub open spec fn ppu_mem_byte(p: &Ppu, cart: &AnyCartridge, addr: u16) -> u8 {
    match spec_map_ppu_addr(addr) {
        PpuAddress::Chr(o) => cart.chr_byte(o),
        PpuAddress::Nametable(o) => if nt_select1(cart.mirroring_spec(), o as int) {
            p.nametable1@[o as int % 0x400]
        } else {
            p.nametable2@[o as int % 0x400]
        },
        PpuAddress::Pallette(o) => if o == 0x10 {
            p.pallette@[0]
        } else {
            p.pallette@[o as int]
        },
    }
}

/// The PPU fields a VRAM write may not touch.
pub open spec fn ppu_same_except_vram(pre: &Ppu, post: &Ppu) -> bool {
    post.reg == pre.reg && post.state == pre.state && post.read_buf == pre.read_buf && post.oam@
        == pre.oam@ && post.fb@ == pre.fb@ && post.secondary_oam@ == pre.secondary_oam@
}

/// Whether a VRAM write at `addr` is accepted: pattern space only
/// takes writes when the cartridge backs it with RAM.
pub open spec fn vram_write_ok(cart: &AnyCartridge, addr: u16) -> bool {
    match spec_map_ppu_addr(addr) {
        PpuAddress::Chr(o) => cart.chr_writable(),
        PpuAddress::Nametable(o) => true,
        PpuAddress::Pallette(o) => true,
    }
}

/// How an accepted VRAM write changes the nametables, palette RAM
/// and the cartridge's graphics storage.
pub open spec fn ppu_vram_bytes_rel(
    pre: &Ppu,
    precart: &AnyCartridge,
    post: &Ppu,
    postcart: &AnyCartridge,
    addr: u16,
    val: u8,
) -> bool {
    match spec_map_ppu_addr(addr) {
        PpuAddress::Chr(o) => post.nametable1@ == pre.nametable1@ && post.nametable2@
            == pre.nametable2@ && post.pallette@ == pre.pallette@ && precart.chr_write_rel(
            *postcart,
            o,
            val,
        ),
        PpuAddress::Nametable(o) => *postcart == *precart && post.pallette@ == pre.pallette@
            && if nt_select1(precart.mirroring_spec(), o as int) {
            post.nametable1@ == pre.nametable1@.update(o as int % 0x400, val) && post.nametable2@
                == pre.nametable2@
        } else {
            post.nametable2@ == pre.nametable2@.update(o as int % 0x400, val) && post.nametable1@
                == pre.nametable1@
        },
        PpuAddress::Pallette(o) => *postcart == *precart && post.nametable1@ == pre.nametable1@
            && post.nametable2@ == pre.nametable2@ && post.pallette@ == if o == 0x10 {
            pre.pallette@.update(0x10, val).update(0, val)
        } else {
            pre.pallette@.update(o as int, val)
        },
    }
}

/// How a VRAM write changes the PPU and cartridge. `ok` is false
/// exactly when the write lands in ROM-backed pattern space, a fatal
/// misuse that changes nothing.
pub open spec fn ppu_vram_write_rel(
    pre: &Ppu,
    precart: &AnyCartridge,
    post: &Ppu,
    postcart: &AnyCartridge,
    addr: u16,
    val: u8,
    ok: bool,
) -> bool {
    ppu_same_except_vram(pre, post) && (ok <==> vram_write_ok(precart, addr)) && (ok
        ==> ppu_vram_bytes_rel(pre, precart, post, postcart, addr, val)) && (!ok ==> *post == *pre
        && *postcart == *precart)
}

impl Ppu {
    /// Reads one byte of PPU memory.
    pub fn read_ppu_byte(&self, cart: &AnyCartridge, addr: u16) -> (r: u8)
        requires
            self.wf(),
            cart.wf(),
        ensures
            r == ppu_mem_byte(self, cart, addr),
    {
        match map_ppu_addr(addr) {
            PpuAddress::Chr(offset) => cart.read_chr(offset),
            PpuAddress::Nametable(offset) => {
                let use_first = match cart.get_nt_mirroring() {
                    Mirroring::Horizontal => offset < 0x800,
                    Mirroring::Vertical => offset % 0x800 < 0x400,
                    Mirroring::OneScreen => true,
                    Mirroring::UpperBank => false,
                };
                let idx = (offset % 0x400) as usize;
                if use_first {
                    self.nametable1[idx]
                } else {
                    self.nametable2[idx]
                }
            },
            PpuAddress::Pallette(offset) => {
                if offset == 0x10 {
                    self.pallette[0]
                } else {
                    self.pallette[offset as usize]
                }
            },
        }
    }

    /// Writes one byte of PPU memory; a write into ROM-backed pattern
    /// space is rejected as fatal misuse and changes nothing.
    pub fn write_ppu_byte(&mut self, cart: &mut AnyCartridge, addr: u16, val: u8) -> (r: Result<
        (),
        EmuError,
    >)
        requires
            old(self).wf(),
            old(cart).wf(),
        ensures
            final(self).wf(),
            final(cart).wf(),
            final(cart).mirroring_spec() == old(cart).mirroring_spec(),
            ppu_vram_write_rel(old(self), old(cart), final(self), final(cart), addr, val, r is Ok),
            r is Err ==> r == Err::<(), EmuError>(EmuError::ChrWrite),
    {
        match map_ppu_addr(addr) {
            PpuAddress::Chr(offset) => cart.write_byte_chr(offset, val),
            PpuAddress::Nametable(offset) => {
                let use_first = match cart.get_nt_mirroring() {
                    Mirroring::Horizontal => offset < 0x800,
                    Mirroring::Vertical => offset % 0x800 < 0x400,
                    Mirroring::OneScreen => true,
                    Mirroring::UpperBank => false,
                };
                let idx = (offset % 0x400) as usize;
                if use_first {
                    self.nametable1[idx] = val;
                } else {
                    self.nametable2[idx] = val;
                }
                Ok(())
            },
            PpuAddress::Pallette(offset) => {
                let idx = offset as usize;
                self.pallette[idx] = val;
                if idx == 0x10 {
                    self.pallette[0] = val;
                }
                Ok(())
            },
        }
    }

    /// Hands a 256-byte page to OAM, starting at the current OAM
    /// address and wrapping at the end of the table.
    pub fn oam_dma(&mut self, data: &Vec<u8>)
        requires
            old(self).wf(),
            data@.len() == 256,
        ensures
            final(self).wf(),
            final(self).oam@.len() == 256,
            forall|i: int|
                0 <= i < 256 ==> final(self).oam@[#[trigger] ((old(self).reg.oamaddr + i) % 256)]
                    == data@[i],
            final(self).reg == old(self).reg,
            final(self).state == old(self).state,
            final(self).read_buf == old(self).read_buf,
            final(self).nametable1@ == old(self).nametable1@,
            final(self).nametable2@ == old(self).nametable2@,
            final(self).pallette@ == old(self).pallette@,
            final(self).fb@ == old(self).fb@,
            final(self).secondary_oam@ == old(self).secondary_oam@,
    {
        let base = self.reg.oamaddr as usize;
        let mut i: usize = 0;
        while i < 256
            invariant
                self.wf(),
                i <= 256,
                base == old(self).reg.oamaddr,
                data@.len() == 256,
                self.oam@.len() == 256,
                forall|k: int| 0 <= k < i ==> self.oam@[#[trigger] ((base + k) % 256)]
                    == data@[k],
                forall|k: int|
                    i <= k < 256 ==> self.oam@[#[trigger] ((base + k) % 256)] == old(self).oam@[(
                    base + k) % 256],
                self.reg == old(self).reg,
                self.state == old(self).state,
                self.read_buf == old(self).read_buf,
                self.nametable1@ == old(self).nametable1@,
                self.nametable2@ == old(self).nametable2@,
                self.pallette@ == old(self).pallette@,
                self.fb@ == old(self).fb@,
                self.secondary_oam@ == old(self).secondary_oam@,
            decreases 256 - i,
        {
            self.oam[(base + i) % 256] = data[i];
            proof {
                assert(forall|k: int, j: int|
                    0 <= k < 256 && 0 <= j < 256 && k != j ==> #[trigger] ((base + k) % 256)
                        != #[trigger] ((base + j) % 256));
            }
            i = i + 1;
        }
    }

    /// The nametable byte the live scroll address points at.
    pub fn fetch_nametable(&self, cart: &AnyCartridge) -> (r: u8)
        requires
            self.wf(),
            cart.wf(),
        ensures
            r == ppu_mem_byte(
                self,
                cart,
                0x2000u16 | (spec_vram_to_u16(self.reg.internal.v) & 0xFFF),
            ),
    {
        let addr = self.reg.internal.get_tile_addr();
        self.read_ppu_byte(cart, addr)
    }

    /// The two-bit attribute value covering the live scroll address.
    pub fn fetch_attribute_table(&self, cart: &AnyCartridge) -> (r: u8)
        requires
            self.wf(),
            cart.wf(),
        ensures
            r == spec_fetch_attr(self, cart),
            r < 4,
    {
        let addr = self.reg.internal.get_attr_addr();
        let attr_byte = self.read_ppu_byte(cart, addr);

        let sub_x = (self.reg.internal.v.coarse_x & 0x02) >> 1;
        let sub_y = (self.reg.internal.v.coarse_y & 0x02) >> 1;
        let shift: u8 = if sub_y == 0 {
            if sub_x == 0 {
                0
            } else {
                2
            }
        } else {
            if sub_x == 0 {
                4
            } else {
                6
            }
        };
        proof {
            let cx = self.reg.internal.v.coarse_x;
            let cy = self.reg.internal.v.coarse_y;
            assert(((cx & 0x02) >> 1) == 0 || ((cx & 0x02) >> 1) == 1) by (bit_vector);
            assert(((cy & 0x02) >> 1) == 0 || ((cy & 0x02) >> 1) == 1) by (bit_vector);
            assert(forall|a: u8, s: u8|
                s == 0 || s == 2 || s == 4 || s == 6 ==> #[trigger] ((a & (0x03u8 << s)) >> s)
                    < 4) by (bit_vector);
        }
        (attr_byte & (0x03u8 << shift)) >> shift
    }
}

/// The attribute fetch at scroll position `va`: the byte at the
/// attribute address, with the two-bit field for that position's
/// quadrant selected.
pub open spec fn spec_fetch_attr_at(p: &Ppu, cart: &AnyCartridge, va: VRamAddr) -> u8 {
    let v = spec_vram_to_u16(va);
    let addr = 0x23C0u16 | (v & 0x0C00) | ((v >> 4) & 0x38) | ((v >> 2) & 0x07);
    let attr_byte = ppu_mem_byte(p, cart, addr);
    let sub_x = (va.coarse_x & 0x02) >> 1;
    let sub_y = (va.coarse_y & 0x02) >> 1;
    let shift = if sub_y == 0 {
        if sub_x == 0 {
            0u8
        } else {
            2u8
        }
    } else {
        if sub_x == 0 {
            4u8
        } else {
            6u8
        }
    };
    (attr_byte & (0x03u8 << shift)) >> shift
}

/// The attribute fetch at the live scroll address.
pub open spec fn spec_fetch_attr(p: &Ppu, cart: &AnyCartridge) -> u8 {
    spec_fetch_attr_at(p, cart, p.reg.internal.v)
}

impl Ppu {
    /// The two pattern planes of one background tile row.
    pub fn lookup_chr_bg(&self, cart: &AnyCartridge, chr_id: u8, row: u8) -> (r: (u8, u8))
        requires
            self.wf(),
            cart.wf(),
            row < 8,
        ensures
            r == spec_lookup_chr_bg(self, cart, chr_id, row),
    {
        proof {
            let id = chr_id;
            assert(((id as u16) << 4) <= 0xFF0) by (bit_vector);
        }
        let chr_addr: u16 = self.reg.ppuctrl.bg_pt_addr + ((chr_id as u16) << 4) + (row as u16);
        let chr_lo = cart.read_chr(chr_addr);
        let chr_hi = cart.read_chr(chr_addr + 0x08);
        (chr_hi, chr_lo)
    }
}

/// The (high, low) pattern planes of background tile `chr_id`, row
/// `row`, from the configured background pattern half.
pub open spec fn spec_lookup_chr_bg(p: &Ppu, cart: &AnyCartridge, chr_id: u8, row: u8) -> (
    u8,
    u8,
) {
    let chr_addr = (p.reg.ppuctrl.bg_pt_addr + ((chr_id as u16) << 4) + (row as u16)) as u16;
    (cart.chr_byte((chr_addr + 8) as u16), cart.chr_byte(chr_addr))
}

/// The pattern address of sprite tile `chr_id`, row `row`: in 8x8
/// mode from the configured sprite pattern half; in 8x16 mode the
/// tile index's low bit picks the pattern half and the row picks the
/// tile pair's half.
pub open spec fn spec_sprite_chr_addr(p: &Ppu, chr_id: u8, row: u8) -> u16 {
    match p.reg.ppuctrl.sprite_size {
        SpriteSize::Sprite8x8 => (p.reg.ppuctrl.sprite_pt_addr + ((chr_id as u16) << 4) + (
        row as u16)) as u16,
        SpriteSize::Sprite8x16 => {
            let base: u16 = if chr_id & 0x01 == 0 {
                0
            } else {
                0x1000
            };
            let with_tile = (base + (((chr_id & 0xFE) as u16) << 4) + ((row % 8) as u16)) as u16;
            if row >= 8 {
                (with_tile + 16) as u16
            } else {
                with_tile
            }
        },
    }
}

/// The two-bit sprite pattern value at column `col` of that row.
pub open spec fn spec_lookup_chr_sprite(p: &Ppu, cart: &AnyCartridge, chr_id: u8, row: u8, col: u8) -> u8 {
    let chr_addr = spec_sprite_chr_addr(p, chr_id, row);
    let bit_num = (7 - (col % 8)) as u8;
    let chr_lo = (cart.chr_byte(chr_addr) & (1u8 << bit_num)) >> bit_num;
    let chr_hi = (cart.chr_byte((chr_addr + 8) as u16) & (1u8 << bit_num)) >> bit_num;
    ((chr_hi << 1) | chr_lo) as u8
}

impl Ppu {
    /// The two-bit sprite pattern value of sprite tile `chr_id` at
    /// `row`, `col`, honoring the configured sprite height.
    pub fn lookup_chr_sprite(&self, cart: &AnyCartridge, chr_id: u8, row: u8, col: u8) -> (r: u8)
        requires
            self.wf(),
            cart.wf(),
            self.reg.ppuctrl.sprite_size is Sprite8x8 ==> row < 8,
            self.reg.ppuctrl.sprite_size is Sprite8x16 ==> row < 16,
        ensures
            r == spec_lookup_chr_sprite(self, cart, chr_id, row, col),
            r < 4,
    {
        let chr_addr: u16 = match self.reg.ppuctrl.sprite_size {
            SpriteSize::Sprite8x8 => {
                proof {
                    let id = chr_id;
                    assert(((id as u16) << 4) <= 0xFF0) by (bit_vector);
                }
                self.reg.ppuctrl.sprite_pt_addr + ((chr_id as u16) << 4) + (row as u16)
            },
            SpriteSize::Sprite8x16 => {
                proof {
                    let id = chr_id;
                    assert((((id & 0xFE) as u16) << 4) <= 0xFE0) by (bit_vector);
                }
                let base: u16 = if chr_id & 0x01 == 0 {
                    0
                } else {
                    0x1000
                };
                let mut a = base + (((chr_id & 0xFE) as u16) << 4) + ((row % 8) as u16);
                if row >= 8 {
                    a = a + 16;
                }
                a
            },
        };
        let bit_num: u8 = 7 - (col % 8);
        let chr_lo = (cart.read_chr(chr_addr) & (1u8 << bit_num)) >> bit_num;
        let chr_hi = (cart.read_chr(chr_addr + 8) & (1u8 << bit_num)) >> bit_num;
        proof {
            let a = cart.chr_byte(chr_addr);
            let b = cart.chr_byte((chr_addr + 8) as u16);
            let bn = bit_num;
            assert(((((b & (1u8 << bn)) >> bn) << 1) | ((a & (1u8 << bn)) >> bn)) < 4)
                by (bit_vector)
                requires
                    bn < 8,
            ;
        }
        (chr_hi << 1) | chr_lo
    }

    /// The enabled-NMI line: high exactly while vertical blank is
    /// flagged and the control register has NMI generation on.
    pub fn nmi_requested(&self) -> (r: bool)
        ensures
            r == (self.reg.ppuctrl.nmi && self.reg.ppustatus.vblank),
    {
        self.reg.ppuctrl.nmi && self.reg.ppustatus.vblank
    }

    /// A copy of the finished 256x240 RGB frame.
    pub fn get_frame(&self) -> (r: Vec<u8>)
        requires
            self.wf(),
        ensures
            r@ == self.fb@,
    {
        let mut out: Vec<u8> = Vec::new();
        let mut i: usize = 0;
        while i < self.fb.len()
            invariant
                i <= self.fb@.len(),
                out@ == self.fb@.subrange(0, i as int),
            decreases self.fb@.len() - i,
        {
            out.push(self.fb[i]);
            i = i + 1;
        }
        proof {
            assert(out@ =~= self.fb@);
        }
        out
    }
}


/// The byte a register read (address folded to 0-7) returns: the
/// status byte at 2; the OAM byte under the OAM address at 4; at 7
/// the one-read-stale buffer, except that a read targeting palette
/// space is immediate; every other register is write-only and reads
/// as 0.
pub open spec fn ppu_reg_read_result(pre: &Ppu, cart: &AnyCartridge, reg: u16) -> u8 {
    if reg == 2 {
        spec_status_byte(pre.reg.ppustatus)
    } else if reg == 4 {
        pre.oam@[pre.reg.oamaddr as int]
    } else if reg == 7 {
        let a = (spec_vram_to_u16(pre.reg.internal.v) & 0x3FFF) as u16;
        if a >= 0x3F00 {
            ppu_mem_byte(pre, cart, a)
        } else {
            pre.read_buf
        }
    } else {
        0u8
    }
}

/// The PPU after a register read: a status read clears vblank and
/// the write latch; a data read refills the buffer from the live
/// address and steps that address by the configured increment; the
/// other registers leave everything in place.
pub open spec fn ppu_reg_read_post(pre: &Ppu, cart: &AnyCartridge, reg: u16) -> Ppu {
    if reg == 2 {
        Ppu {
            reg: PpuRegisters {
                ppustatus: PpuStatus { vblank: false, ..pre.reg.ppustatus },
                internal: InternalRegisters { w: false, ..pre.reg.internal },
                ..pre.reg
            },
            ..*pre
        }
    } else if reg == 7 {
        Ppu {
            read_buf: ppu_mem_byte(
                pre,
                cart,
                (spec_vram_to_u16(pre.reg.internal.v) & 0x3FFF) as u16,
            ),
            reg: PpuRegisters {
                internal: spec_inc_addr(pre.reg.internal, pre.reg.ppuctrl.vram_inc),
                ..pre.reg
            },
            ..*pre
        }
    } else {
        *pre
    }
}

/// How a register read changes the PPU and what it returns, as one
/// deterministic relation.
pub open spec fn ppu_reg_read_rel(
    pre: &Ppu,
    cart: &AnyCartridge,
    post: &Ppu,
    reg: u16,
    r: u8,
) -> bool {
    r == ppu_reg_read_result(pre, cart, reg) && *post == ppu_reg_read_post(pre, cart, reg)
}

/// How a register write (address folded to 0-7) changes the PPU and
/// the cartridge. `ok` is false exactly for a data write into
/// ROM-backed pattern space, which changes nothing.
pub open spec fn ppu_reg_write_rel(
    pre: &Ppu,
    precart: &AnyCartridge,
    post: &Ppu,
    postcart: &AnyCartridge,
    reg: u16,
    val: u8,
    ok: bool,
) -> bool {
    if reg == 0 {
        ok && *postcart == *precart && *post == (Ppu {
            reg: PpuRegisters {
                ppuctrl: spec_ppu_ctrl(val),
                internal: spec_write_nt(pre.reg.internal, val),
                ..pre.reg
            },
            ..*pre
        })
    } else if reg == 1 {
        ok && *postcart == *precart && *post == (Ppu {
            reg: PpuRegisters { ppumask: spec_ppu_mask(val), ..pre.reg },
            ..*pre
        })
    } else if reg == 2 {
        ok && *postcart == *precart && *post == *pre
    } else if reg == 3 {
        ok && *postcart == *precart && *post == (Ppu {
            reg: PpuRegisters { oamaddr: val, ..pre.reg },
            ..*pre
        })
    } else if reg == 4 {
        ok && *postcart == *precart && post.oam@ == pre.oam@.update(pre.reg.oamaddr as int, val)
            && post.reg == (PpuRegisters {
            oamaddr: ((pre.reg.oamaddr + 1) % 256) as u8,
            ..pre.reg
        }) && post.state == pre.state && post.read_buf == pre.read_buf && post.nametable1@
            == pre.nametable1@ && post.nametable2@ == pre.nametable2@ && post.pallette@
            == pre.pallette@ && post.fb@ == pre.fb@ && post.secondary_oam@ == pre.secondary_oam@
    } else if reg == 5 {
        ok && *postcart == *precart && *post == (Ppu {
            reg: PpuRegisters { internal: spec_write_scroll(pre.reg.internal, val), ..pre.reg },
            ..*pre
        })
    } else if reg == 6 {
        ok && *postcart == *precart && *post == (Ppu {
            reg: PpuRegisters { internal: spec_write_addr(pre.reg.internal, val), ..pre.reg },
            ..*pre
        })
    } else if reg == 7 {
        let a = (spec_vram_to_u16(pre.reg.internal.v) & 0x3FFF) as u16;
        (ok <==> vram_write_ok(precart, a)) && if ok {
            ppu_vram_bytes_rel(pre, precart, post, postcart, a, val) && post.reg == (PpuRegisters {
                internal: spec_inc_addr(pre.reg.internal, pre.reg.ppuctrl.vram_inc),
                ..pre.reg
            }) && post.state == pre.state && post.read_buf == pre.read_buf && post.oam@ == pre.oam@
                && post.fb@ == pre.fb@ && post.secondary_oam@ == pre.secondary_oam@
        } else {
            *post == *pre && *postcart == *precart
        }
    } else {
        false
    }
}

impl Ppu {
    /// Serves a CPU read of one of the eight bus-visible registers.
    pub fn read_reg(&mut self, cart: &AnyCartridge, addr: u16) -> (r: u8)
        requires
            old(self).wf(),
            cart.wf(),
            addr < 8,
        ensures
            final(self).wf(),
            ppu_reg_read_rel(old(self), cart, final(self), addr, r),
    {
        if addr == 2 {
            let ret = self.reg.ppustatus.to_byte();
            self.reg.ppustatus.vblank = false;
            self.reg.internal.unlatch();
            ret
        } else if addr == 4 {
            self.oam[self.reg.oamaddr as usize]
        } else if addr == 7 {
            let a = self.reg.internal.get_addr();
            let fetched = self.read_ppu_byte(cart, a);
            // Palette-space reads are immediate; everywhere else the
            // one-read-stale buffer is served.
            let ret = if a >= 0x3F00 {
                fetched
            } else {
                self.read_buf
            };
            self.read_buf = fetched;
            self.reg.internal.inc_addr(self.reg.ppuctrl.vram_inc);
            ret
        } else {
            // The remaining registers are write-only; they read as 0.
            0
        }
    }

    /// Serves a CPU write to one of the eight bus-visible registers.
    #[verifier::rlimit(100)]
    #[verifier::spinoff_prover]
    pub fn write_reg(&mut self, cart: &mut AnyCartridge, addr: u16, val: u8) -> (r: Result<
        (),
        EmuError,
    >)
        requires
            old(self).wf(),
            old(cart).wf(),
            addr < 8,
        ensures
            final(self).wf(),
            final(cart).wf(),
            final(cart).mirroring_spec() == old(cart).mirroring_spec(),
            ppu_reg_write_rel(old(self), old(cart), final(self), final(cart), addr, val, r is Ok),
            r is Err ==> r == Err::<(), EmuError>(EmuError::ChrWrite),
    {
        if addr == 0 {
            self.reg.internal.write_nt(val);
            self.reg.ppuctrl = PpuCtrl::from_byte(val);
            Ok(())
        } else if addr == 1 {
            self.reg.ppumask = PpuMask::from_byte(val);
            Ok(())
        } else if addr == 2 {
            // The status register takes no writes.
            Ok(())
        } else if addr == 3 {
            self.reg.oamaddr = val;
            Ok(())
        } else if addr == 4 {
            self.oam[self.reg.oamaddr as usize] = val;
            self.reg.oamaddr = ((self.reg.oamaddr as u16 + 1) % 256) as u8;
            Ok(())
        } else if addr == 5 {
            self.reg.internal.write_scroll(val);
            Ok(())
        } else if addr == 6 {
            self.reg.internal.write_addr(val);
            Ok(())
        } else {
            self.write_data_reg(cart, val)
        }
    }

    /// A data-register (0x2007) write: commits the byte at the live
    /// address and steps that address by the configured increment.
    #[verifier::rlimit(100)]
    #[verifier::spinoff_prover]
    fn write_data_reg(&mut self, cart: &mut AnyCartridge, val: u8) -> (r: Result<(), EmuError>)
        requires
            old(self).wf(),
            old(cart).wf(),
        ensures
            final(self).wf(),
            final(cart).wf(),
            final(cart).mirroring_spec() == old(cart).mirroring_spec(),
            ppu_reg_write_rel(old(self), old(cart), final(self), final(cart), 7, val, r is Ok),
            r is Err ==> r == Err::<(), EmuError>(EmuError::ChrWrite),
    {
        let a = self.reg.internal.get_addr();
        match self.write_ppu_byte(cart, a, val) {
            Ok(()) => {
                self.reg.internal.inc_addr(self.reg.ppuctrl.vram_inc);
                Ok(())
            },
            Err(e) => Err(e),
        }
    }

    /// The nametable byte under absolute pixel `(x, y)` of the
    /// two-screen arrangement selected by the mirroring mode.
    pub fn read_nametable(&self, mirroring: Mirroring, x: usize, y: usize) -> (r: u8)
        requires
            self.wf(),
            x < 512,
            y < 480,
        ensures
            r == spec_read_nametable(self, mirroring, x as int, y as int),
    {
        let tile_x = x / 8;
        let tile_y = y / 8;
        let use_first = match mirroring {
            Mirroring::Horizontal => tile_y < 30,
            Mirroring::Vertical => tile_x < 32,
            Mirroring::OneScreen => true,
            Mirroring::UpperBank => false,
        };
        let tile_id = (tile_y % 30) * 0x20 + (tile_x % 32);
        if use_first {
            self.nametable1[tile_id]
        } else {
            self.nametable2[tile_id]
        }
    }

    /// The two-bit attribute value under absolute pixel `(x, y)`.
    pub fn read_attribute_table(&self, mirroring: Mirroring, x: usize, y: usize) -> (r: u8)
        requires
            self.wf(),
            x < 512,
            y < 480,
        ensures
            r == spec_read_attribute_table(self, mirroring, x as int, y as int),
            r < 4,
    {
        let block_x = x / 16;
        let block_y = y / 16;
        let use_first = match mirroring {
            Mirroring::Horizontal => block_y < 15,
            Mirroring::Vertical => block_x < 16,
            Mirroring::OneScreen => true,
            Mirroring::UpperBank => false,
        };
        let block_y = block_y % 15;
        let block_x = block_x % 16;
        let chunk_y = block_y / 2;
        let chunk_x = block_x / 2;
        let attr_byte = if use_first {
            self.nametable1[960 + chunk_y * 8 + chunk_x]
        } else {
            self.nametable2[960 + chunk_y * 8 + chunk_x]
        };
        let sub_x = block_x - chunk_x * 2;
        let sub_y = block_y - chunk_y * 2;
        let shift: u8 = if sub_y == 0 {
            if sub_x == 0 {
                0
            } else {
                2
            }
        } else {
            if sub_x == 0 {
                4
            } else {
                6
            }
        };
        proof {
            assert(forall|a: u8, s: u8|
                s == 0 || s == 2 || s == 4 || s == 6 ==> #[trigger] ((a & (0x03u8 << s)) >> s)
                    < 4) by (bit_vector);
        }
        (attr_byte & (0x03u8 << shift)) >> shift
    }
}

/// The nametable byte under absolute pixel `(x, y)`.
pub open spec fn spec_read_nametable(p: &Ppu, mirroring: Mirroring, x: int, y: int) -> u8 {
    let tile_x = x / 8;
    let tile_y = y / 8;
    let use_first = match mirroring {
        Mirroring::Horizontal => tile_y < 30,
        Mirroring::Vertical => tile_x < 32,
        Mirroring::OneScreen => true,
        Mirroring::UpperBank => false,
    };
    let tile_id = (tile_y % 30) * 0x20 + (tile_x % 32);
    if use_first {
        p.nametable1@[tile_id]
    } else {
        p.nametable2@[tile_id]
    }
}

/// The two-bit attribute value under absolute pixel `(x, y)`.
pub open spec fn spec_read_attribute_table(p: &Ppu, mirroring: Mirroring, x: int, y: int) -> u8 {
    let block_x0 = x / 16;
    let block_y0 = y / 16;
    let use_first = match mirroring {
        Mirroring::Horizontal => block_y0 < 15,
        Mirroring::Vertical => block_x0 < 16,
        Mirroring::OneScreen => true,
        Mirroring::UpperBank => false,
    };
    let block_y = block_y0 % 15;
    let block_x = block_x0 % 16;
    let chunk_y = block_y / 2;
    let chunk_x = block_x / 2;
    let attr_byte = if use_first {
        p.nametable1@[960 + chunk_y * 8 + chunk_x]
    } else {
        p.nametable2@[960 + chunk_y * 8 + chunk_x]
    };
    let sub_x = block_x - chunk_x * 2;
    let sub_y = block_y - chunk_y * 2;
    let shift = if sub_y == 0 {
        if sub_x == 0 {
            0u8
        } else {
            2u8
        }
    } else {
        if sub_x == 0 {
            4u8
        } else {
            6u8
        }
    };
    (attr_byte & (0x03u8 << shift)) >> shift
}


/// Whether OAM sprite `s_id` covers scanline `y` at height `h`.
pub open spec fn sprite_match(oam: Seq<u8>, s_id: int, y: int, h: int) -> bool {
    let sy = oam[s_id * 4] + 1;
    sy <= y < sy + h
}

/// The OAM indices, in ascending order, of every sprite covering
/// scanline `y`, scanning from sprite `s` on.
pub open spec fn eval_ids(oam: Seq<u8>, y: int, h: int, s: int) -> Seq<int>
    decreases 64 - s,
{
    if s < 0 || s >= 64 {
        Seq::empty()
    } else if sprite_match(oam, s, y, h) {
        seq![s] + eval_ids(oam, y, h, s + 1)
    } else {
        eval_ids(oam, y, h, s + 1)
    }
}

/// The configured sprite height in pixels.
pub open spec fn spec_sprite_height(c: PpuCtrl) -> int {
    match c.sprite_size {
        SpriteSize::Sprite8x8 => 8,
        SpriteSize::Sprite8x16 => 16,
    }
}

/// The sprite-evaluation outcome: secondary OAM holds the first (up
/// to) eight line-covering sprites in OAM order, the remaining slots
/// are cleared, and the sprite-zero presence flag is recorded.
pub open spec fn sprite_eval_rel(pre: &Ppu, post: &Ppu) -> bool {
    let y = pre.state.scanline + 1;
    let h = spec_sprite_height(pre.reg.ppuctrl);
    let ids = eval_ids(pre.oam@, y as int, h, 0);
    let n: int = if ids.len() >= 8 {
        8
    } else {
        ids.len() as int
    };
    post.state.num_2oam == n && (forall|k: int|
        0 <= k < n ==> {
            let id = #[trigger] ids[k];
            post.secondary_oam@[4 * k] == pre.oam@[id * 4] && post.secondary_oam@[4 * k + 1]
                == pre.oam@[id * 4 + 1] && post.secondary_oam@[4 * k + 2] == pre.oam@[id * 4 + 2]
                && post.secondary_oam@[4 * k + 3] == pre.oam@[id * 4 + 3]
        }) && (forall|j: int| 4 * n <= j < 32 ==> post.secondary_oam@[j] == 0)
        && post.state.sprite0_det == sprite_match(pre.oam@, 0, y as int, h)
}

impl Ppu {
    /// Scans all 64 OAM entries against the next scanline, copying up
    /// to 8 matches, in OAM order, into secondary OAM, and records
    /// whether sprite 0 is among them.
    pub fn sprite_evaluation(&mut self)
        requires
            old(self).wf(),
        ensures
            final(self).wf(),
            sprite_eval_rel(old(self), final(self)),
            final(self).state == (PpuState {
                num_2oam: final(self).state.num_2oam,
                sprite0_det: final(self).state.sprite0_det,
                ..old(self).state
            }),
            final(self).reg == old(self).reg,
            final(self).read_buf == old(self).read_buf,
            final(self).oam@ == old(self).oam@,
            final(self).nametable1@ == old(self).nametable1@,
            final(self).nametable2@ == old(self).nametable2@,
            final(self).pallette@ == old(self).pallette@,
            final(self).fb@ == old(self).fb@,
    {
        let mut j: usize = 0;
        while j < 32
            invariant
                old(self).wf(),
                self.wf(),
                j <= 32,
                forall|k: int| 0 <= k < j ==> self.secondary_oam@[k] == 0,
                self.reg == old(self).reg,
                self.state == old(self).state,
                self.read_buf == old(self).read_buf,
                self.oam@ == old(self).oam@,
                self.nametable1@ == old(self).nametable1@,
                self.nametable2@ == old(self).nametable2@,
                self.pallette@ == old(self).pallette@,
                self.fb@ == old(self).fb@,
            decreases 32 - j,
        {
            self.secondary_oam[j] = 0;
            j = j + 1;
        }
        self.state.num_2oam = 0;
        self.state.sprite0_det = false;

        let y = self.state.scanline + 1;
        let sprite_height: usize = match self.reg.ppuctrl.sprite_size {
            SpriteSize::Sprite8x8 => 8,
            SpriteSize::Sprite8x16 => 16,
        };
        let ghost oam0 = old(self).oam@;
        let ghost hh = spec_sprite_height(old(self).reg.ppuctrl);
        let ghost full = eval_ids(oam0, y as int, hh, 0);
        let ghost mut chosen: Seq<int> = Seq::empty();
        proof {
            assert(full =~= chosen + eval_ids(oam0, y as int, hh, 0));
        }

        let mut s_id: usize = 0;
        let mut broke: bool = false;
        while s_id < 64 && !broke
            invariant
                old(self).wf(),
                self.wf(),
                s_id <= 64,
                y == old(self).state.scanline + 1,
                sprite_height == 8 || sprite_height == 16,
                hh == sprite_height,
                full == eval_ids(oam0, y as int, hh, 0),
                oam0 == old(self).oam@,
                chosen.len() == self.state.num_2oam,
                self.state.num_2oam <= 8,
                !broke ==> self.state.num_2oam < 8,
                !broke ==> full == chosen + eval_ids(oam0, y as int, hh, s_id as int),
                broke ==> self.state.num_2oam == 8 && full.len() >= 8 && s_id >= 1,
                forall|k: int| 0 <= k < chosen.len() ==> full[k] == chosen[k],
                forall|k: int|
                    0 <= k < chosen.len() ==> {
                        let id = #[trigger] chosen[k];
                        self.secondary_oam@[4 * k] == oam0[id * 4] && self.secondary_oam@[4 * k
                            + 1] == oam0[id * 4 + 1] && self.secondary_oam@[4 * k + 2] == oam0[id
                            * 4 + 2] && self.secondary_oam@[4 * k + 3] == oam0[id * 4 + 3]
                    },
                forall|j: int|
                    4 * self.state.num_2oam <= j < 32 ==> self.secondary_oam@[j] == 0,
                self.state.sprite0_det == (s_id >= 1 && sprite_match(oam0, 0, y as int, hh)),
                self.state == (PpuState {
                    num_2oam: self.state.num_2oam,
                    sprite0_det: self.state.sprite0_det,
                    ..old(self).state
                }),
                self.reg == old(self).reg,
                self.read_buf == old(self).read_buf,
                self.oam@ == old(self).oam@,
                self.nametable1@ == old(self).nametable1@,
                self.nametable2@ == old(self).nametable2@,
                self.pallette@ == old(self).pallette@,
                self.fb@ == old(self).fb@,
            decreases 64 - s_id,
        {
            let addr = s_id * 4;
            let sprite_y = self.oam[addr] as usize + 1;
            if sprite_y <= y && y < sprite_y + sprite_height {
                let c = self.state.num_2oam;
                self.secondary_oam[4 * c] = self.oam[addr];
                self.secondary_oam[4 * c + 1] = self.oam[addr + 1];
                self.secondary_oam[4 * c + 2] = self.oam[addr + 2];
                self.secondary_oam[4 * c + 3] = self.oam[addr + 3];
                if s_id == 0 {
                    self.state.sprite0_det = true;
                }
                self.state.num_2oam = c + 1;
                proof {
                    assert(eval_ids(oam0, y as int, hh, s_id as int) == seq![s_id as int]
                        + eval_ids(oam0, y as int, hh, s_id as int + 1));
                    chosen = chosen + seq![s_id as int];
                    assert(full =~= chosen + eval_ids(oam0, y as int, hh, s_id as int + 1));
                }
                if self.state.num_2oam >= 8 {
                    proof {
                        assert(full.len() >= 8);
                    }
                    broke = true;
                }
            } else {
                proof {
                    assert(eval_ids(oam0, y as int, hh, s_id as int) == eval_ids(
                        oam0,
                        y as int,
                        hh,
                        s_id as int + 1,
                    ));
                }
            }
            s_id = s_id + 1;
        }
        proof {
            if !broke {
                assert(eval_ids(oam0, y as int, hh, 64) =~= Seq::<int>::empty());
                assert(full =~= chosen);
            }
        }
    }
}

/// The first (highest-priority) opaque sprite pixel among the
/// secondary-OAM candidates at column `x` of scanline `y`, scanning
/// from slot `i` on: the slot index, the two-bit pattern value, and
/// the raw attribute byte.
pub open spec fn spec_sprite_scan(p: &Ppu, cart: &AnyCartridge, x: int, y: int, i: int) -> Option<
    (int, u8, u8),
>
    decreases p.state.num_2oam - i,
{
    if i < 0 || i >= p.state.num_2oam {
        None
    } else {
        let sx = p.secondary_oam@[4 * i + 3] as int;
        let sy = p.secondary_oam@[4 * i] as int + 1;
        let h = spec_sprite_height(p.reg.ppuctrl);
        if sx <= x < sx + 8 && sy <= y < sy + h {
            let attr = p.secondary_oam@[4 * i + 2];
            let a = spec_sprite_attributes(attr);
            let cx = if a.flip_horz {
                7 - (x - sx)
            } else {
                x - sx
            };
            let cy = if a.flip_vert {
                (h - 1) - (y - sy)
            } else {
                y - sy
            };
            let chr_val = spec_lookup_chr_sprite(
                p,
                cart,
                p.secondary_oam@[4 * i + 1],
                cy as u8,
                cx as u8,
            );
            if chr_val != 0 {
                Some((i, chr_val, attr))
            } else {
                spec_sprite_scan(p, cart, x, y, i + 1)
            }
        } else {
            spec_sprite_scan(p, cart, x, y, i + 1)
        }
    }
}

impl Ppu {
    /// The highest-priority opaque sprite pixel at column `x` of
    /// scanline `y`, if any: slot index, pattern value, attribute byte.
    /// A candidate whose vertical span no longer covers the line
    /// (possible after a mid-frame sprite-height change) is treated
    /// as transparent.
    pub fn sprite_pixel(&self, cart: &AnyCartridge, x: usize, y: usize) -> (r: Option<
        (usize, u8, u8),
    >)
        requires
            self.wf(),
            cart.wf(),
            x < 256,
            y < 240,
        ensures
            r is None ==> spec_sprite_scan(self, cart, x as int, y as int, 0) is None,
            r matches Some((i, v, a)) ==> spec_sprite_scan(self, cart, x as int, y as int, 0)
                == Some((i as int, v, a)) && i < self.state.num_2oam && v < 4,
    {
        let h: usize = match self.reg.ppuctrl.sprite_size {
            SpriteSize::Sprite8x8 => 8,
            SpriteSize::Sprite8x16 => 16,
        };
        let mut i: usize = 0;
        while i < self.state.num_2oam
            invariant
                self.wf(),
                cart.wf(),
                x < 256,
                y < 240,
                h == spec_sprite_height(self.reg.ppuctrl),
                i <= self.state.num_2oam,
                spec_sprite_scan(self, cart, x as int, y as int, 0) == spec_sprite_scan(
                    self,
                    cart,
                    x as int,
                    y as int,
                    i as int,
                ),
            decreases self.state.num_2oam - i,
        {
            let sx = self.secondary_oam[4 * i + 3] as usize;
            let sy = self.secondary_oam[4 * i] as usize + 1;
            if sx <= x && x < sx + 8 && sy <= y && y < sy + h {
                let chr_id = self.secondary_oam[4 * i + 1];
                let attr_byte = self.secondary_oam[4 * i + 2];
                let attr = SpriteAttributes::from_byte(attr_byte);
                let cx = if attr.flip_horz {
                    7 - (x - sx)
                } else {
                    x - sx
                };
                let cy = if attr.flip_vert {
                    (h - 1) - (y - sy)
                } else {
                    y - sy
                };
                let chr_val = self.lookup_chr_sprite(cart, chr_id, cy as u8, cx as u8);
                if chr_val != 0 {
                    return Some((i, chr_val, attr_byte));
                }
            }
            i = i + 1;
        }
        None
    }
}

/// Whether the background layer contributes at column `x`: shown at
/// all, and not masked off in the left eight columns.
pub open spec fn spec_bg_enable(p: &Ppu, x: int) -> bool {
    p.reg.ppumask.show_bg && !(x < 8 && !p.reg.ppumask.show_left_bg)
}

/// Whether the sprite layer contributes at column `x`.
pub open spec fn spec_sprite_enable(p: &Ppu, x: int) -> bool {
    p.reg.ppumask.show_sprites && !(x < 8 && !p.reg.ppumask.show_left_sprite)
}

/// The sprite pixel feeding composition at `(x, y)`: the scan result
/// on lines after the first, and the transparent default otherwise
/// (slot 0, value 0, a priority-behind-background attribute).
pub open spec fn spec_sprite_data(p: &Ppu, cart: &AnyCartridge, x: int, y: int) -> (int, u8, u8) {
    if y > 0 {
        match spec_sprite_scan(p, cart, x, y, 0) {
            Some(d) => d,
            None => (0, 0, 0x20),
        }
    } else {
        (0, 0, 0x20)
    }
}

/// The palette index the compositor picks at `(x, y)`: with both
/// layers disabled, the current palette read-through (or the
/// backdrop); otherwise background and sprite combined by the
/// priority rule, where a transparent background yields the sprite,
/// a transparent or background-priority sprite yields the background,
/// and two transparent layers yield the backdrop.
#[verifier::opaque]
pub open spec fn spec_color_id(p: &Ppu, cart: &AnyCartridge, x: int, y: int) -> u8 {
    let bg_val = spec_pipeline_pt(p.state.pipeline, p.reg.internal.x);
    let bg_palette = spec_pipeline_at(p.state.pipeline, p.reg.internal.x);
    let sd = spec_sprite_data(p, cart, x, y);
    let sprite_val = sd.1;
    let sprite_attr = spec_sprite_attributes(sd.2);
    let bg_enable = spec_bg_enable(p, x);
    let sprite_enable = spec_sprite_enable(p, x);
    if !p.reg.ppumask.show_bg && !p.reg.ppumask.show_sprites {
        let addr = spec_vram_to_u16(p.reg.internal.v) & 0x3FFF;
        if 0x3F00 <= addr <= 0x3FFF {
            p.pallette@[(addr - 0x3F00) % 0x20]
        } else {
            p.pallette@[0]
        }
    } else if sprite_enable {
        if bg_enable {
            if sprite_val == 0 && bg_val == 0 {
                p.pallette@[0]
            } else if bg_val == 0 {
                p.pallette@[0x10 + sprite_attr.palette * 4 + sprite_val]
            } else if sprite_val == 0 || sprite_attr.bg_priority {
                p.pallette@[4 * bg_palette + bg_val]
            } else {
                p.pallette@[0x10 + sprite_attr.palette * 4 + sprite_val]
            }
        } else {
            p.pallette@[0x10 + sprite_attr.palette * 4 + sprite_val]
        }
    } else {
        p.pallette@[4 * bg_palette + bg_val]
    }
}

/// Whether `(x, y)` sets the sprite-zero-hit flag: both layers
/// enabled, sprite 0 among the candidates and contributing an opaque
/// pixel over an opaque background pixel.
#[verifier::opaque]
pub open spec fn spec_sprite0_hit(p: &Ppu, cart: &AnyCartridge, x: int, y: int) -> bool {
    let bg_val = spec_pipeline_pt(p.state.pipeline, p.reg.internal.x);
    let sd = spec_sprite_data(p, cart, x, y);
    !(!p.reg.ppumask.show_bg && !p.reg.ppumask.show_sprites) && spec_sprite_enable(p, x)
        && spec_bg_enable(p, x) && p.state.sprite0_det && sd.0 == 0 && sd.1 != 0 && bg_val != 0
}

impl Ppu {
    /// Composites and writes the output pixel at `(x, y)`: the chosen
    /// palette index, grayscale-masked if configured, looked up in the
    /// fixed system color table; sets the sprite-zero-hit flag when
    /// the hit condition holds.
    #[verifier::rlimit(100)]
    #[verifier::spinoff_prover]
    pub fn render_pixel(&mut self, cart: &AnyCartridge, x: usize, y: usize)
        requires
            old(self).wf(),
            cart.wf(),
            x < 256,
            y < 240,
        ensures
            final(self).wf(),
            ({
                let cid = spec_color_id(old(self), cart, x as int, y as int);
                let cid2 = if old(self).reg.ppumask.grayscale {
                    cid & 0x30
                } else {
                    cid
                };
                let rgb = spec_system_palette((cid2 & 0x3F) as u8);
                let base = (y * 256 + x) * 3;
                final(self).fb@ == old(self).fb@.update(base as int, rgb.0).update(
                    base as int + 1,
                    rgb.1,
                ).update(base as int + 2, rgb.2)
            }),
            final(self).reg.ppustatus.sprite_0_hit == (old(self).reg.ppustatus.sprite_0_hit
                || spec_sprite0_hit(old(self), cart, x as int, y as int)),
            final(self).reg == (PpuRegisters {
                ppustatus: PpuStatus {
                    sprite_0_hit: final(self).reg.ppustatus.sprite_0_hit,
                    ..old(self).reg.ppustatus
                },
                ..old(self).reg
            }),
            final(self).state == old(self).state,
            final(self).read_buf == old(self).read_buf,
            final(self).oam@ == old(self).oam@,
            final(self).nametable1@ == old(self).nametable1@,
            final(self).nametable2@ == old(self).nametable2@,
            final(self).pallette@ == old(self).pallette@,
            final(self).secondary_oam@ == old(self).secondary_oam@,
    {
        proof {
            reveal(spec_color_id);
            reveal(spec_sprite0_hit);
        }
        let (bg_val, bg_palette) = self.state.pipeline.read(self.reg.internal.x);

        let sprite_data: (usize, u8, u8) = if y > 0 {
            match self.sprite_pixel(cart, x, y) {
                Some(d) => d,
                None => (0, 0, 0x20),
            }
        } else {
            (0, 0, 0x20)
        };
        let (sprite_id, sprite_val, sprite_attr_byte) = sprite_data;
        let sprite_attr = SpriteAttributes::from_byte(sprite_attr_byte);

        let bg_enable = self.reg.ppumask.show_bg && !(x < 8 && !self.reg.ppumask.show_left_bg);
        let sprite_enable = self.reg.ppumask.show_sprites && !(x < 8
            && !self.reg.ppumask.show_left_sprite);

        let mut color_id: u8 = if !self.reg.ppumask.show_bg && !self.reg.ppumask.show_sprites {
            let addr = self.reg.internal.get_addr();
            proof {
                let t = spec_vram_to_u16(self.reg.internal.v);
                assert(t & 0x3FFF <= 0x3FFF) by (bit_vector);
            }
            if 0x3F00 <= addr {
                self.pallette[((addr - 0x3F00) % 0x20) as usize]
            } else {
                self.pallette[0]
            }
        } else if sprite_enable {
            if bg_enable {
                let sprite0_hit = self.state.sprite0_det && sprite_id == 0 && sprite_val != 0
                    && bg_val != 0;
                if sprite0_hit {
                    self.reg.ppustatus.sprite_0_hit = true;
                }
                if sprite_val == 0 && bg_val == 0 {
                    self.pallette[0]
                } else if bg_val == 0 {
                    self.pallette[0x10 + (sprite_attr.palette as usize) * 4 + sprite_val as usize]
                } else if sprite_val == 0 || sprite_attr.bg_priority {
                    self.pallette[4 * (bg_palette as usize) + bg_val as usize]
                } else {
                    self.pallette[0x10 + (sprite_attr.palette as usize) * 4 + sprite_val as usize]
                }
            } else {
                self.pallette[0x10 + (sprite_attr.palette as usize) * 4 + sprite_val as usize]
            }
        } else {
            self.pallette[4 * (bg_palette as usize) + bg_val as usize]
        };

        if self.reg.ppumask.grayscale {
            color_id = color_id & 0x30;
        }

        proof {
            let c = color_id;
            assert((c & 0x3F) < 64 && (c & 0x30) & 0x3F == c & 0x30) by (bit_vector);
        }
        let color = crate::palette::system_palette(color_id & 0x3F);
        let base = (y * 256 + x) * 3;
        self.fb[base] = color.0;
        self.fb[base + 1] = color.1;
        self.fb[base + 2] = color.2;
    }
}


/// Whether `cycle` is one of the background fetch points: every
/// eighth dot of cycles 1-257, and the prefetch at 329.
pub open spec fn is_bg_fetch_cycle(cycle: int) -> bool {
    (1 <= cycle <= 257 && cycle % 8 == 1) || cycle == 329
}

/// The scroll-register updates a rendering dot performs before the
/// background fetch: the Y step at 257, the horizontal copy at 258,
/// and the vertical copy during 281-305 of the pre-render line.
pub open spec fn spec_dot_internal_pre(
    i: InternalRegisters,
    enable: bool,
    scanline: int,
    cycle: int,
) -> InternalRegisters {
    if !enable {
        i
    } else {
        let i1 = if cycle == 257 {
            InternalRegisters { v: spec_inc_y(i.v), ..i }
        } else {
            i
        };
        let i2 = if cycle == 258 {
            spec_reset_x(i1)
        } else {
            i1
        };
        if scanline == 261 && 281 <= cycle <= 305 {
            spec_reset_y(i2)
        } else {
            i2
        }
    }
}


/// The full scroll-register evolution of one rendering dot: the
/// pre-fetch updates, then the coarse-X step at each fetch point.
pub open spec fn spec_dot_internal(
    i: InternalRegisters,
    enable: bool,
    scanline: int,
    cycle: int,
) -> InternalRegisters {
    let i3 = spec_dot_internal_pre(i, enable, scanline, cycle);
    if enable && is_bg_fetch_cycle(cycle) {
        InternalRegisters { v: spec_inc_x(i3.v), ..i3 }
    } else {
        i3
    }
}

/// Whether the current dot runs sprite evaluation (dot 258 of a
/// visible line).
pub open spec fn spec_dot_is_sprite_eval(p: &Ppu) -> bool {
    p.state.cycle >= 1 && p.state.cycle - 1 == 257 && p.state.scanline <= 240
}

/// Whether the current dot writes a visible pixel.
pub open spec fn spec_dot_is_pixel(p: &Ppu) -> bool {
    p.state.cycle >= 1 && p.state.cycle - 1 < 256 && p.state.scanline < 240
}

/// PPU memory reads depend only on the nametables, palette RAM and
/// the cartridge.
pub proof fn lemma_mem_byte_frame(p1: Ppu, p2: Ppu, cart: &AnyCartridge, addr: u16)
    requires
        p1.nametable1@ == p2.nametable1@,
        p1.nametable2@ == p2.nametable2@,
        p1.pallette@ == p2.pallette@,
    ensures
        ppu_mem_byte(&p1, cart, addr) == ppu_mem_byte(&p2, cart, addr),
{
}

/// The attribute fetch depends only on the same storage.
pub proof fn lemma_fetch_attr_frame(p1: Ppu, p2: Ppu, cart: &AnyCartridge, va: VRamAddr)
    requires
        p1.nametable1@ == p2.nametable1@,
        p1.nametable2@ == p2.nametable2@,
        p1.pallette@ == p2.pallette@,
    ensures
        spec_fetch_attr_at(&p1, cart, va) == spec_fetch_attr_at(&p2, cart, va),
{
    let v = spec_vram_to_u16(va);
    let addr = 0x23C0u16 | (v & 0x0C00) | ((v >> 4) & 0x38) | ((v >> 2) & 0x07);
    lemma_mem_byte_frame(p1, p2, cart, addr);
}

/// The background plane fetch depends only on the cartridge and the
/// configured pattern half.
pub proof fn lemma_lookup_bg_frame(p1: Ppu, p2: Ppu, cart: &AnyCartridge, chr_id: u8, row: u8)
    requires
        p1.reg.ppuctrl == p2.reg.ppuctrl,
    ensures
        spec_lookup_chr_bg(&p1, cart, chr_id, row) == spec_lookup_chr_bg(&p2, cart, chr_id, row),
{
}

/// The pipeline after this dot's background fetch, if any.
#[verifier::opaque]
pub open spec fn spec_mid_pipeline(p: &Ppu, cart: &AnyCartridge) -> Pipeline {
    let enable = p.reg.ppumask.show_bg || p.reg.ppumask.show_sprites;
    let scanline = p.state.scanline as int;
    let cycle = p.state.cycle as int;
    let i3 = spec_dot_internal_pre(p.reg.internal, enable, scanline, cycle);
    if enable && is_bg_fetch_cycle(cycle) {
        let chr_id = ppu_mem_byte(p, cart, 0x2000u16 | (spec_vram_to_u16(i3.v) & 0xFFF));
        let planes = spec_lookup_chr_bg(p, cart, chr_id, i3.v.fine_y);
        let at = spec_fetch_attr_at(p, cart, i3.v);
        spec_transfer(p.state.pipeline, planes.0, planes.1, at)
    } else {
        p.state.pipeline
    }
}


/// The loaded pipeline at a fetch dot, from the fetched values.
pub proof fn lemma_mid_pipeline_fetch(
    pre: Ppu,
    cart: &AnyCartridge,
    i3: InternalRegisters,
    chr_id: u8,
    pt: (u8, u8),
    at: u8,
)
    requires
        pre.reg.ppumask.show_bg || pre.reg.ppumask.show_sprites,
        is_bg_fetch_cycle(pre.state.cycle as int),
        i3 == spec_dot_internal_pre(
            pre.reg.internal,
            true,
            pre.state.scanline as int,
            pre.state.cycle as int,
        ),
        chr_id == ppu_mem_byte(&pre, cart, 0x2000u16 | (spec_vram_to_u16(i3.v) & 0xFFF)),
        pt == spec_lookup_chr_bg(&pre, cart, chr_id, i3.v.fine_y),
        at == spec_fetch_attr_at(&pre, cart, i3.v),
    ensures
        spec_mid_pipeline(&pre, cart) == spec_transfer(pre.state.pipeline, pt.0, pt.1, at),
{
    reveal(spec_mid_pipeline);
}

/// Away from the fetch dots (or with rendering disabled) the
/// pipeline is not reloaded.
pub proof fn lemma_mid_pipeline_nofetch(pre: Ppu, cart: &AnyCartridge)
    requires
        !((pre.reg.ppumask.show_bg || pre.reg.ppumask.show_sprites) && is_bg_fetch_cycle(
            pre.state.cycle as int,
        )),
    ensures
        spec_mid_pipeline(&pre, cart) == pre.state.pipeline,
{
    reveal(spec_mid_pipeline);
}


impl Ppu {
    /// A rendering dot's scroll-register stepping and background
    /// fetch: the Y step at 257, the horizontal copy at 258, the
    /// vertical copy on the pre-render line, and the pattern/
    /// attribute load with the coarse-X step at each fetch point —
    /// all gated on rendering being enabled.
    #[verifier::rlimit(100)]
    #[verifier::spinoff_prover]
    fn run_scroll_and_fetch(&mut self, cart: &AnyCartridge)
        requires
            old(self).wf(),
            cart.wf(),
        ensures
            final(self).wf(),
            final(self).state.pipeline == spec_mid_pipeline(old(self), cart),
            final(self).reg.internal == spec_dot_internal(
                old(self).reg.internal,
                old(self).reg.ppumask.show_bg || old(self).reg.ppumask.show_sprites,
                old(self).state.scanline as int,
                old(self).state.cycle as int,
            ),
            final(self).state.scanline == old(self).state.scanline,
            final(self).state.cycle == old(self).state.cycle,
            final(self).state.frame == old(self).state.frame,
            final(self).state.num_2oam == old(self).state.num_2oam,
            final(self).state.sprite0_det == old(self).state.sprite0_det,
            final(self).reg.ppuctrl == old(self).reg.ppuctrl,
            final(self).reg.ppumask == old(self).reg.ppumask,
            final(self).reg.ppustatus == old(self).reg.ppustatus,
            final(self).reg.oamaddr == old(self).reg.oamaddr,
            final(self).read_buf == old(self).read_buf,
            final(self).oam == old(self).oam,
            final(self).nametable1 == old(self).nametable1,
            final(self).nametable2 == old(self).nametable2,
            final(self).pallette == old(self).pallette,
            final(self).fb == old(self).fb,
            final(self).secondary_oam == old(self).secondary_oam,
    {
        let cycle = self.state.cycle;
        let enable = self.reg.ppumask.show_bg || self.reg.ppumask.show_sprites;
        let mut fetched = false;
        if enable {
            if cycle == 257 {
                self.reg.internal.inc_y();
            }
            if cycle == 258 {
                self.reg.internal.reset_x();
            }
            if self.state.scanline == 261 && 281 <= cycle && cycle <= 305 {
                self.reg.internal.reset_y();
            }
            if ((1 <= cycle && cycle <= 257) && cycle % 8 == 1) || cycle == 329 {
                fetched = true;
                let ghost i3g = self.reg.internal;
                let chr_id = self.fetch_nametable(cart);
                let (pt_hi, pt_lo) = self.lookup_chr_bg(cart, chr_id, self.reg.internal.v.fine_y);
                let at = self.fetch_attribute_table(cart);
                proof {
                    lemma_mem_byte_frame(
                        *self,
                        *old(self),
                        cart,
                        0x2000u16 | (spec_vram_to_u16(self.reg.internal.v) & 0xFFF),
                    );
                    lemma_lookup_bg_frame(
                        *self,
                        *old(self),
                        cart,
                        chr_id,
                        self.reg.internal.v.fine_y,
                    );
                    lemma_fetch_attr_frame(*self, *old(self), cart, self.reg.internal.v);
                    lemma_mid_pipeline_fetch(*old(self), cart, i3g, chr_id, (pt_hi, pt_lo), at);
                }
                self.state.pipeline.transfer(pt_hi, pt_lo, at);
                self.reg.internal.inc_x();
            }
        }
        proof {
            if !fetched {
                lemma_mid_pipeline_nofetch(*old(self), cart);
            }
        }
    }

    /// One PPU dot at the current frame position: scroll-register
    /// stepping and a background fetch at the fixed points, one
    /// output pixel on visible dots, sprite evaluation at dot 258,
    /// and one shift of the pipeline; idle on scanlines 240-260.
    /// The frame-position counters themselves only move in
    /// `advance_cycles`.
    #[verifier::rlimit(100)]
    #[verifier::spinoff_prover]
    pub fn run_cycle(&mut self, cart: &AnyCartridge)
        requires
            old(self).wf(),
            cart.wf(),
        ensures
            final(self).wf(),
            final(self).state.scanline == old(self).state.scanline,
            final(self).state.cycle == old(self).state.cycle,
            final(self).state.frame == old(self).state.frame,
            240 <= old(self).state.scanline < 261 ==> *final(self) == *old(self),
            final(self).reg.ppuctrl == old(self).reg.ppuctrl,
            final(self).reg.ppumask == old(self).reg.ppumask,
            final(self).read_buf == old(self).read_buf,
            final(self).oam@ == old(self).oam@,
            final(self).nametable1@ == old(self).nametable1@,
            final(self).nametable2@ == old(self).nametable2@,
            final(self).pallette@ == old(self).pallette@,
            final(self).reg.ppustatus.vblank == old(self).reg.ppustatus.vblank,
            final(self).reg.ppustatus.sprite_overflow == old(self).reg.ppustatus.sprite_overflow,
            !(240 <= old(self).state.scanline < 261) ==> final(self).reg.internal
                == spec_dot_internal(
                old(self).reg.internal,
                old(self).reg.ppumask.show_bg || old(self).reg.ppumask.show_sprites,
                old(self).state.scanline as int,
                old(self).state.cycle as int,
            ),
            !(240 <= old(self).state.scanline < 261) ==> final(self).state.pipeline == (if old(self).state.cycle < 336 {
                spec_shift(spec_mid_pipeline(old(self), cart))
            } else {
                spec_mid_pipeline(old(self), cart)
            }),
            // A visible dot composites and writes one pixel: the
            // system-palette color of the priority rule's pick
            // (grayscale-masked), evaluated at the mid-dot state, and
            // the sprite-zero-hit flag takes the exact hit condition.
            !(240 <= old(self).state.scanline < 261) && spec_dot_is_pixel(old(self)) ==> ({
                let mid = Ppu {
                    reg: PpuRegisters {
                        internal: spec_dot_internal(
                            old(self).reg.internal,
                            old(self).reg.ppumask.show_bg || old(self).reg.ppumask.show_sprites,
                            old(self).state.scanline as int,
                            old(self).state.cycle as int,
                        ),
                        ..old(self).reg
                    },
                    state: PpuState { pipeline: spec_mid_pipeline(old(self), cart), ..old(self).state },
                    ..*old(self)
                };
                let x = old(self).state.cycle - 1;
                let y = old(self).state.scanline as int;
                let cid = spec_color_id(&mid, cart, x as int, y);
                let cid2 = if old(self).reg.ppumask.grayscale {
                    cid & 0x30
                } else {
                    cid
                };
                let rgb = spec_system_palette((cid2 & 0x3F) as u8);
                let base = (y * 256 + x) * 3;
                final(self).fb@ == old(self).fb@.update(base, rgb.0).update(base + 1, rgb.1).update(
                    base + 2,
                    rgb.2,
                ) && final(self).reg.ppustatus.sprite_0_hit == (old(self).reg.ppustatus.sprite_0_hit
                    || spec_sprite0_hit(&mid, cart, x as int, y)) && final(self).state.num_2oam
                    == old(self).state.num_2oam && final(self).state.sprite0_det == old(self).state.sprite0_det && final(self).secondary_oam@ == old(self).secondary_oam@
                    && final(self).reg.oamaddr == old(self).reg.oamaddr
            }),
            !(240 <= old(self).state.scanline < 261) && spec_dot_is_sprite_eval(old(self))
                ==> sprite_eval_rel(old(self), final(self)) && final(self).reg.oamaddr == 0
                && final(self).fb@ == old(self).fb@ && final(self).reg.ppustatus.sprite_0_hit
                == old(self).reg.ppustatus.sprite_0_hit,
            !(240 <= old(self).state.scanline < 261) && !spec_dot_is_pixel(old(self))
                && !spec_dot_is_sprite_eval(old(self)) ==> final(self).fb@ == old(self).fb@
                && final(self).secondary_oam@ == old(self).secondary_oam@ && final(self).state.num_2oam == old(self).state.num_2oam && final(self).state.sprite0_det == old(self).state.sprite0_det && final(self).reg.oamaddr == old(self).reg.oamaddr && final(self).reg.ppustatus.sprite_0_hit == old(self).reg.ppustatus.sprite_0_hit,
    {
        if self.state.scanline >= 240 && self.state.scanline < 261 {
            return ;
        }
        let cycle = self.state.cycle;

        self.run_scroll_and_fetch(cart);
        proof {
            assert(*self == (Ppu {
                reg: PpuRegisters {
                    internal: spec_dot_internal(
                        old(self).reg.internal,
                        old(self).reg.ppumask.show_bg || old(self).reg.ppumask.show_sprites,
                        old(self).state.scanline as int,
                        old(self).state.cycle as int,
                    ),
                    ..old(self).reg
                },
                state: PpuState {
                    pipeline: spec_mid_pipeline(old(self), cart),
                    ..old(self).state
                },
                ..*old(self)
            }));
        }
        if cycle != 0 {
            let x = cycle - 1;
            let y = self.state.scanline;
            if x < 256 && y < 240 {
                self.render_pixel(cart, x, y);
            } else if x == 257 && y <= 240 {
                self.sprite_evaluation();
                self.reg.oamaddr = 0;
            }
        }
        if cycle < 336 {
            self.state.pipeline.shift();
        }
    }
}

/// One step of the frame-position counters: the dot advances; the
/// line ends after dot 340 (one dot early at the end of the
/// pre-render line of odd frames); the frame ends after line 261.
pub open spec fn spec_tick(t: (u32, int, int)) -> (u32, int, int) {
    let c1 = t.2 + 1;
    if c1 == 341 || (t.1 == 261 && c1 == 340 && t.0 % 2 == 1) {
        if t.1 + 1 > 261 {
            (if t.0 == 0xFFFF_FFFFu32 {
                0u32
            } else {
                (t.0 + 1) as u32
            }, 0, 0)
        } else {
            (t.0, t.1 + 1, 0)
        }
    } else {
        (t.0, t.1, c1)
    }
}

/// The frame-position counters after `n` steps.
pub open spec fn spec_counters_after(t: (u32, int, int), n: nat) -> (u32, int, int)
    decreases n,
{
    if n == 0 {
        t
    } else {
        spec_tick(spec_counters_after(t, (n - 1) as nat))
    }
}

/// Whether one of the first `n` steps starts vertical blank (the
/// step taken from line 241, dot 0).
pub open spec fn spec_vblank_hit(t: (u32, int, int), n: nat) -> bool
    decreases n,
{
    if n == 0 {
        false
    } else {
        let prev = spec_counters_after(t, (n - 1) as nat);
        spec_vblank_hit(t, (n - 1) as nat) || (prev.1 == 241 && prev.2 == 0)
    }
}

/// The vertical-blank flag after `n` steps: set by the step from
/// (241, 0), cleared by the step from (261, 0), kept otherwise.
pub open spec fn spec_vblank_after(t: (u32, int, int), vb: bool, n: nat) -> bool
    decreases n,
{
    if n == 0 {
        vb
    } else {
        let prev = spec_counters_after(t, (n - 1) as nat);
        if prev.1 == 241 && prev.2 == 0 {
            true
        } else if prev.1 == 261 && prev.2 == 0 {
            false
        } else {
            spec_vblank_after(t, vb, (n - 1) as nat)
        }
    }
}

/// Whether `n` steps leave the sprite-zero-hit flag settled clear:
/// the step from (261, 0) clears it, a visible pixel dot may set it,
/// every other dot leaves it alone — so the flag is known false
/// exactly when, after the last pre-render clear, no visible pixel
/// dot has run.
pub open spec fn spec_s0_clear_settled(t: (u32, int, int), n: nat) -> bool
    decreases n,
{
    if n == 0 {
        false
    } else {
        let prev = spec_counters_after(t, (n - 1) as nat);
        let cur = spec_tick(prev);
        if prev.1 == 261 && prev.2 == 0 {
            true
        } else if cur.1 < 240 && 1 <= cur.2 <= 256 {
            false
        } else {
            spec_s0_clear_settled(t, (n - 1) as nat)
        }
    }
}

impl Ppu {
    /// Advances the PPU by `cycles` dots, running the per-dot state
    /// machine at each step. Returns whether vertical blank began
    /// during the run (the frame-complete signal). Vertical blank is
    /// flagged at the first dot of line 241 and cleared, together
    /// with the sprite-zero hit, at the first dot of the pre-render
    /// line.
    pub fn advance_cycles(&mut self, cart: &AnyCartridge, cycles: u64) -> (r: bool)
        requires
            old(self).wf(),
            cart.wf(),
        ensures
            final(self).wf(),
            ({
                let t0 = (
                    old(self).state.frame,
                    old(self).state.scanline as int,
                    old(self).state.cycle as int,
                );
                let tn = spec_counters_after(t0, cycles as nat);
                final(self).state.frame == tn.0 && final(self).state.scanline == tn.1 && final(self).state.cycle == tn.2 && r == spec_vblank_hit(t0, cycles as nat) && final(self).reg.ppustatus.vblank == spec_vblank_after(
                    t0,
                    old(self).reg.ppustatus.vblank,
                    cycles as nat,
                )
                // The pre-render clear: a run whose last (261, 1) dot
                // is not followed by any visible pixel dot ends with
                // the sprite-zero-hit flag clear.
                && (spec_s0_clear_settled(t0, cycles as nat)
                    ==> !final(self).reg.ppustatus.sprite_0_hit)
            }),
            final(self).reg.ppuctrl == old(self).reg.ppuctrl,
            final(self).reg.ppumask == old(self).reg.ppumask,
            final(self).read_buf == old(self).read_buf,
            final(self).oam@ == old(self).oam@,
            final(self).nametable1@ == old(self).nametable1@,
            final(self).nametable2@ == old(self).nametable2@,
            final(self).pallette@ == old(self).pallette@,
            final(self).fb@.len() == old(self).fb@.len(),
    {
        let mut frame_complete = false;
        let ghost t0 = (
            old(self).state.frame,
            old(self).state.scanline as int,
            old(self).state.cycle as int,
        );
        let mut i: u64 = 0;
        while i < cycles
            invariant
                self.wf(),
                cart.wf(),
                i <= cycles,
                t0 == (
                    old(self).state.frame,
                    old(self).state.scanline as int,
                    old(self).state.cycle as int,
                ),
                self.state.frame == spec_counters_after(t0, i as nat).0,
                self.state.scanline == spec_counters_after(t0, i as nat).1,
                self.state.cycle == spec_counters_after(t0, i as nat).2,
                frame_complete == spec_vblank_hit(t0, i as nat),
                self.reg.ppustatus.vblank == spec_vblank_after(
                    t0,
                    old(self).reg.ppustatus.vblank,
                    i as nat,
                ),
                spec_s0_clear_settled(t0, i as nat) ==> !self.reg.ppustatus.sprite_0_hit,
                self.reg.ppuctrl == old(self).reg.ppuctrl,
                self.reg.ppumask == old(self).reg.ppumask,
                self.read_buf == old(self).read_buf,
                self.oam@ == old(self).oam@,
                self.nametable1@ == old(self).nametable1@,
                self.nametable2@ == old(self).nametable2@,
                self.pallette@ == old(self).pallette@,
                self.fb@.len() == old(self).fb@.len(),
            decreases cycles - i,
        {
            self.state.cycle = self.state.cycle + 1;

            if self.state.scanline == 241 && self.state.cycle == 1 {
                self.reg.ppustatus.vblank = true;
                frame_complete = true;
            }
            if self.state.scanline == 261 && self.state.cycle == 1 {
                self.reg.ppustatus.vblank = false;
                self.reg.ppustatus.sprite_0_hit = false;
            }
            if self.state.cycle == 341 || (self.state.scanline == 261 && self.state.cycle == 340
                && self.state.frame % 2 == 1) {
                self.state.scanline = self.state.scanline + 1;
                self.state.cycle = 0;
            }
            if self.state.scanline > 261 {
                self.state.frame = if self.state.frame == 0xFFFF_FFFF {
                    0
                } else {
                    self.state.frame + 1
                };
                self.state.scanline = 0;
            }
            self.run_cycle(cart);
            proof {
                let prev = spec_counters_after(t0, i as nat);
                assert(spec_counters_after(t0, (i + 1) as nat) == spec_tick(prev));
                assert(spec_vblank_hit(t0, (i + 1) as nat) == (spec_vblank_hit(t0, i as nat) || (
                prev.1 == 241 && prev.2 == 0)));
                assert(spec_vblank_after(t0, old(self).reg.ppustatus.vblank, (i + 1) as nat) == (
                if prev.1 == 241 && prev.2 == 0 {
                    true
                } else if prev.1 == 261 && prev.2 == 0 {
                    false
                } else {
                    spec_vblank_after(t0, old(self).reg.ppustatus.vblank, i as nat)
                }));
                assert(spec_s0_clear_settled(t0, (i + 1) as nat) == ({
                    let cur = spec_tick(prev);
                    if prev.1 == 261 && prev.2 == 0 {
                        true
                    } else if cur.1 < 240 && 1 <= cur.2 <= 256 {
                        false
                    } else {
                        spec_s0_clear_settled(t0, i as nat)
                    }
                }));
            }
            i = i + 1;
        }
        frame_complete
    }
}

} // verus!
