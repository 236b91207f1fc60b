//! The picture processing unit: VRAM, the packed scroll/address registers,
//! the per-cycle rendering state machine, and the fixed 64-entry colour table.

use vstd::prelude::*;

verus! {

/// Base address of the first pattern table in VRAM.
pub const PATTERN_TABLE0: u16 = 0x0000;
/// Base address of the first name table in VRAM.
pub const NAME_TABLE0: u16 = 0x2000;
/// Base address of the first attribute table in VRAM.
pub const ATTR_TABLE0: u16 = 0x23C0;
/// Base address of the image palette in VRAM.
pub const IMAGE_PALETTE: u16 = 0x3F00;
/// Number of addressable VRAM bytes.
pub const V_RAM_SIZE: usize = 0x10000;

/// One RGBA colour as produced by the console's palette.
#[derive(Clone, Copy, Debug, PartialEq, Eq, Structural)]
pub struct NesColor {
    pub r: u8,
    pub g: u8,
    pub b: u8,
    pub a: u8,
}

/// The console's fixed 64-entry master palette, by palette index.
pub open spec fn spec_nes_color(idx: u8) -> NesColor {
    if idx == 0 { NesColor { r: 0x80, g: 0x80, b: 0x80, a: 0xFF } }
    else if idx == 1 { NesColor { r: 0x00, g: 0x3D, b: 0xA6, a: 0xFF } }
    else if idx == 2 { NesColor { r: 0x00, g: 0x12, b: 0xB0, a: 0xFF } }
    else if idx == 3 { NesColor { r: 0x44, g: 0x00, b: 0x96, a: 0xFF } }
    else if idx == 4 { NesColor { r: 0xA1, g: 0x00, b: 0x5E, a: 0xFF } }
    else if idx == 5 { NesColor { r: 0xC7, g: 0x00, b: 0x28, a: 0xFF } }
    else if idx == 6 { NesColor { r: 0xBA, g: 0x06, b: 0x00, a: 0xFF } }
    else if idx == 7 { NesColor { r: 0x8C, g: 0x17, b: 0x00, a: 0xFF } }
    else if idx == 8 { NesColor { r: 0x5C, g: 0x2F, b: 0x00, a: 0xFF } }
    else if idx == 9 { NesColor { r: 0x10, g: 0x45, b: 0x00, a: 0xFF } }
    else if idx == 10 { NesColor { r: 0x05, g: 0x4A, b: 0x00, a: 0xFF } }
    else if idx == 11 { NesColor { r: 0x00, g: 0x47, b: 0x2E, a: 0xFF } }
    else if idx == 12 { NesColor { r: 0x00, g: 0x41, b: 0x66, a: 0xFF } }
    else if idx == 13 { NesColor { r: 0x00, g: 0x00, b: 0x00, a: 0xFF } }
    else if idx == 14 { NesColor { r: 0x05, g: 0x05, b: 0x05, a: 0xFF } }
    else if idx == 15 { NesColor { r: 0x05, g: 0x05, b: 0x05, a: 0xFF } }
    else if idx == 16 { NesColor { r: 0xC7, g: 0xC7, b: 0xC7, a: 0xFF } }
    else if idx == 17 { NesColor { r: 0x00, g: 0x77, b: 0xFF, a: 0xFF } }
    else if idx == 18 { NesColor { r: 0x21, g: 0x55, b: 0xFF, a: 0xFF } }
    else if idx == 19 { NesColor { r: 0x82, g: 0x37, b: 0xFA, a: 0xFF } }
    else if idx == 20 { NesColor { r: 0xEB, g: 0x2F, b: 0xB5, a: 0xFF } }
    else if idx == 21 { NesColor { r: 0xFF, g: 0x29, b: 0x50, a: 0xFF } }
    else if idx == 22 { NesColor { r: 0xFF, g: 0x22, b: 0x00, a: 0xFF } }
    else if idx == 23 { NesColor { r: 0xD6, g: 0x32, b: 0x00, a: 0xFF } }
    else if idx == 24 { NesColor { r: 0xC4, g: 0x62, b: 0x00, a: 0xFF } }
    else if idx == 25 { NesColor { r: 0x35, g: 0x80, b: 0x00, a: 0xFF } }
    else if idx == 26 { NesColor { r: 0x05, g: 0x8F, b: 0x00, a: 0xFF } }
    else if idx == 27 { NesColor { r: 0x00, g: 0x8A, b: 0x55, a: 0xFF } }
    else if idx == 28 { NesColor { r: 0x00, g: 0x99, b: 0xCC, a: 0xFF } }
    else if idx == 29 { NesColor { r: 0x21, g: 0x21, b: 0x21, a: 0xFF } }
    else if idx == 30 { NesColor { r: 0x09, g: 0x09, b: 0x09, a: 0xFF } }
    else if idx == 31 { NesColor { r: 0x09, g: 0x09, b: 0x09, a: 0xFF } }
    else if idx == 32 { NesColor { r: 0xFF, g: 0xFF, b: 0xFF, a: 0xFF } }
    else if idx == 33 { NesColor { r: 0x0F, g: 0xD7, b: 0xFF, a: 0xFF } }
    else if idx == 34 { NesColor { r: 0x69, g: 0xA2, b: 0xFF, a: 0xFF } }
    else if idx == 35 { NesColor { r: 0xD4, g: 0x80, b: 0xFF, a: 0xFF } }
    else if idx == 36 { NesColor { r: 0xFF, g: 0x45, b: 0xF3, a: 0xFF } }
    else if idx == 37 { NesColor { r: 0xFF, g: 0x61, b: 0x8B, a: 0xFF } }
    else if idx == 38 { NesColor { r: 0xFF, g: 0x88, b: 0x33, a: 0xFF } }
    else if idx == 39 { NesColor { r: 0xFF, g: 0x9C, b: 0x12, a: 0xFF } }
    else if idx == 40 { NesColor { r: 0xFA, g: 0xBC, b: 0x20, a: 0xFF } }
    else if idx == 41 { NesColor { r: 0x9F, g: 0xE3, b: 0x0E, a: 0xFF } }
    else if idx == 42 { NesColor { r: 0x2B, g: 0xF0, b: 0x35, a: 0xFF } }
    else if idx == 43 { NesColor { r: 0x0C, g: 0xF0, b: 0xA4, a: 0xFF } }
    else if idx == 44 { NesColor { r: 0x05, g: 0xFB, b: 0xFF, a: 0xFF } }
    else if idx == 45 { NesColor { r: 0x5E, g: 0x5E, b: 0x5E, a: 0xFF } }
    else if idx == 46 { NesColor { r: 0x0D, g: 0x0D, b: 0x0D, a: 0xFF } }
    else if idx == 47 { NesColor { r: 0x0D, g: 0x0D, b: 0x0D, a: 0xFF } }
    else if idx == 48 { NesColor { r: 0xFF, g: 0xFF, b: 0xFF, a: 0xFF } }
    else if idx == 49 { NesColor { r: 0xA6, g: 0xFC, b: 0xFF, a: 0xFF } }
    else if idx == 50 { NesColor { r: 0xB3, g: 0xEC, b: 0xFF, a: 0xFF } }
    else if idx == 51 { NesColor { r: 0xDA, g: 0xAB, b: 0xEB, a: 0xFF } }
    else if idx == 52 { NesColor { r: 0xFF, g: 0xA8, b: 0xF9, a: 0xFF } }
    else if idx == 53 { NesColor { r: 0xFF, g: 0xAB, b: 0xB3, a: 0xFF } }
    else if idx == 54 { NesColor { r: 0xFF, g: 0xD2, b: 0xB0, a: 0xFF } }
    else if idx == 55 { NesColor { r: 0xFF, g: 0xEF, b: 0xA6, a: 0xFF } }
    else if idx == 56 { NesColor { r: 0xFF, g: 0xF7, b: 0x9C, a: 0xFF } }
    else if idx == 57 { NesColor { r: 0xD7, g: 0xE8, b: 0x95, a: 0xFF } }
    else if idx == 58 { NesColor { r: 0xA6, g: 0xED, b: 0xAF, a: 0xFF } }
    else if idx == 59 { NesColor { r: 0xA2, g: 0xF2, b: 0xDA, a: 0xFF } }
    else if idx == 60 { NesColor { r: 0x99, g: 0xFF, b: 0xFC, a: 0xFF } }
    else if idx == 61 { NesColor { r: 0xDD, g: 0xDD, b: 0xDD, a: 0xFF } }
    else if idx == 62 { NesColor { r: 0x11, g: 0x11, b: 0x11, a: 0xFF } }
    else { NesColor { r: 0x11, g: 0x11, b: 0x11, a: 0xFF } }
}

/// Looks up one entry of the fixed 64-entry master palette.
pub fn nes_color(idx: u8) -> (c: NesColor)
    requires
        idx < 64,
    ensures
        c == spec_nes_color(idx),
{
    if idx == 0 { NesColor { r: 0x80, g: 0x80, b: 0x80, a: 0xFF } }
    else if idx == 1 { NesColor { r: 0x00, g: 0x3D, b: 0xA6, a: 0xFF } }
    else if idx == 2 { NesColor { r: 0x00, g: 0x12, b: 0xB0, a: 0xFF } }
    else if idx == 3 { NesColor { r: 0x44, g: 0x00, b: 0x96, a: 0xFF } }
    else if idx == 4 { NesColor { r: 0xA1, g: 0x00, b: 0x5E, a: 0xFF } }
    else if idx == 5 { NesColor { r: 0xC7, g: 0x00, b: 0x28, a: 0xFF } }
    else if idx == 6 { NesColor { r: 0xBA, g: 0x06, b: 0x00, a: 0xFF } }
    else if idx == 7 { NesColor { r: 0x8C, g: 0x17, b: 0x00, a: 0xFF } }
    else if idx == 8 { NesColor { r: 0x5C, g: 0x2F, b: 0x00, a: 0xFF } }
    else if idx == 9 { NesColor { r: 0x10, g: 0x45, b: 0x00, a: 0xFF } }
    else if idx == 10 { NesColor { r: 0x05, g: 0x4A, b: 0x00, a: 0xFF } }
    else if idx == 11 { NesColor { r: 0x00, g: 0x47, b: 0x2E, a: 0xFF } }
    else if idx == 12 { NesColor { r: 0x00, g: 0x41, b: 0x66, a: 0xFF } }
    else if idx == 13 { NesColor { r: 0x00, g: 0x00, b: 0x00, a: 0xFF } }
    else if idx == 14 { NesColor { r: 0x05, g: 0x05, b: 0x05, a: 0xFF } }
    else if idx == 15 { NesColor { r: 0x05, g: 0x05, b: 0x05, a: 0xFF } }
    else if idx == 16 { NesColor { r: 0xC7, g: 0xC7, b: 0xC7, a: 0xFF } }
    else if idx == 17 { NesColor { r: 0x00, g: 0x77, b: 0xFF, a: 0xFF } }
    else if idx == 18 { NesColor { r: 0x21, g: 0x55, b: 0xFF, a: 0xFF } }
    else if idx == 19 { NesColor { r: 0x82, g: 0x37, b: 0xFA, a: 0xFF } }
    else if idx == 20 { NesColor { r: 0xEB, g: 0x2F, b: 0xB5, a: 0xFF } }
    else if idx == 21 { NesColor { r: 0xFF, g: 0x29, b: 0x50, a: 0xFF } }
    else if idx == 22 { NesColor { r: 0xFF, g: 0x22, b: 0x00, a: 0xFF } }
    else if idx == 23 { NesColor { r: 0xD6, g: 0x32, b: 0x00, a: 0xFF } }
    else if idx == 24 { NesColor { r: 0xC4, g: 0x62, b: 0x00, a: 0xFF } }
    else if idx == 25 { NesColor { r: 0x35, g: 0x80, b: 0x00, a: 0xFF } }
    else if idx == 26 { NesColor { r: 0x05, g: 0x8F, b: 0x00, a: 0xFF } }
    else if idx == 27 { NesColor { r: 0x00, g: 0x8A, b: 0x55, a: 0xFF } }
    else if idx == 28 { NesColor { r: 0x00, g: 0x99, b: 0xCC, a: 0xFF } }
    else if idx == 29 { NesColor { r: 0x21, g: 0x21, b: 0x21, a: 0xFF } }
    else if idx == 30 { NesColor { r: 0x09, g: 0x09, b: 0x09, a: 0xFF } }
    else if idx == 31 { NesColor { r: 0x09, g: 0x09, b: 0x09, a: 0xFF } }
    else if idx == 32 { NesColor { r: 0xFF, g: 0xFF, b: 0xFF, a: 0xFF } }
    else if idx == 33 { NesColor { r: 0x0F, g: 0xD7, b: 0xFF, a: 0xFF } }
    else if idx == 34 { NesColor { r: 0x69, g: 0xA2, b: 0xFF, a: 0xFF } }
    else if idx == 35 { NesColor { r: 0xD4, g: 0x80, b: 0xFF, a: 0xFF } }
    else if idx == 36 { NesColor { r: 0xFF, g: 0x45, b: 0xF3, a: 0xFF } }
    else if idx == 37 { NesColor { r: 0xFF, g: 0x61, b: 0x8B, a: 0xFF } }
    else if idx == 38 { NesColor { r: 0xFF, g: 0x88, b: 0x33, a: 0xFF } }
    else if idx == 39 { NesColor { r: 0xFF, g: 0x9C, b: 0x12, a: 0xFF } }
    else if idx == 40 { NesColor { r: 0xFA, g: 0xBC, b: 0x20, a: 0xFF } }
    else if idx == 41 { NesColor { r: 0x9F, g: 0xE3, b: 0x0E, a: 0xFF } }
    else if idx == 42 { NesColor { r: 0x2B, g: 0xF0, b: 0x35, a: 0xFF } }
    else if idx == 43 { NesColor { r: 0x0C, g: 0xF0, b: 0xA4, a: 0xFF } }
    else if idx == 44 { NesColor { r: 0x05, g: 0xFB, b: 0xFF, a: 0xFF } }
    else if idx == 45 { NesColor { r: 0x5E, g: 0x5E, b: 0x5E, a: 0xFF } }
    else if idx == 46 { NesColor { r: 0x0D, g: 0x0D, b: 0x0D, a: 0xFF } }
    else if idx == 47 { NesColor { r: 0x0D, g: 0x0D, b: 0x0D, a: 0xFF } }
    else if idx == 48 { NesColor { r: 0xFF, g: 0xFF, b: 0xFF, a: 0xFF } }
    else if idx == 49 { NesColor { r: 0xA6, g: 0xFC, b: 0xFF, a: 0xFF } }
    else if idx == 50 { NesColor { r: 0xB3, g: 0xEC, b: 0xFF, a: 0xFF } }
    else if idx == 51 { NesColor { r: 0xDA, g: 0xAB, b: 0xEB, a: 0xFF } }
    else if idx == 52 { NesColor { r: 0xFF, g: 0xA8, b: 0xF9, a: 0xFF } }
    else if idx == 53 { NesColor { r: 0xFF, g: 0xAB, b: 0xB3, a: 0xFF } }
    else if idx == 54 { NesColor { r: 0xFF, g: 0xD2, b: 0xB0, a: 0xFF } }
    else if idx == 55 { NesColor { r: 0xFF, g: 0xEF, b: 0xA6, a: 0xFF } }
    else if idx == 56 { NesColor { r: 0xFF, g: 0xF7, b: 0x9C, a: 0xFF } }
    else if idx == 57 { NesColor { r: 0xD7, g: 0xE8, b: 0x95, a: 0xFF } }
    else if idx == 58 { NesColor { r: 0xA6, g: 0xED, b: 0xAF, a: 0xFF } }
    else if idx == 59 { NesColor { r: 0xA2, g: 0xF2, b: 0xDA, a: 0xFF } }
    else if idx == 60 { NesColor { r: 0x99, g: 0xFF, b: 0xFC, a: 0xFF } }
    else if idx == 61 { NesColor { r: 0xDD, g: 0xDD, b: 0xDD, a: 0xFF } }
    else if idx == 62 { NesColor { r: 0x11, g: 0x11, b: 0x11, a: 0xFF } }
    else { NesColor { r: 0x11, g: 0x11, b: 0x11, a: 0xFF } }
}

/// PPU-visible memory: pattern tables, name tables, attribute tables and the
/// palette, as one flat byte store.
pub struct VRam(pub Vec<u8>);

impl VRam {
    /// The store covers every address a 16-bit bus can form.
    pub open spec fn wf(&self) -> bool {
        self.0@.len() == V_RAM_SIZE
    }

    pub fn new(memory: Vec<u8>) -> (v: VRam)
        requires
            memory@.len() == V_RAM_SIZE,
        ensures
            v.wf(),
            v.0 == memory,
    {
        VRam(memory)
    }

    pub fn get_value(&self, address: u16) -> (r: u8)
        requires
            self.wf(),
        ensures
            r == self.0@[address as int],
    {
        self.0[address as usize]
    }

    /// Looks up a master-palette entry; the colour table is fixed hardware,
    /// independent of the VRAM contents.
    pub fn get_color(&self, idx: u8) -> (c: NesColor)
        requires
            idx < 64,
        ensures
            c == spec_nes_color(idx),
    {
        nes_color(idx)
    }

    pub fn set(&mut self, address: u16, data: u8)
        requires
            old(self).wf(),
        ensures
            final(self).wf(),
            final(self).0@ == old(self).0@.update(address as int, data),
    {
        self.0[address as usize] = data;
    }
}

/// The packed 15-bit VRAM address register:
/// three bits of fine Y scroll, two bits of name-table select, five bits of
/// coarse Y scroll and five bits of coarse X scroll, lowest bits first.
#[derive(Clone, Copy, Debug, PartialEq, Eq, Structural)]
pub struct VRamAddressRegister(pub u16);

/// The packed value after replacing the fine-Y field (bits 12..14).
pub open spec fn spec_set_fine_y(v: u16, value: u8) -> int {
    v % 0x1000 + (value % 8) * 0x1000
}

/// The packed value after replacing the name-table field (bits 10..11).
pub open spec fn spec_set_name_table(v: u16, value: u8) -> int {
    v % 0x400 + (value % 4) * 0x400 + (v / 0x1000) * 0x1000
}

/// The packed value after replacing the coarse-Y field (bits 5..9).
pub open spec fn spec_set_coarse_y(v: u16, value: u8) -> int {
    v % 32 + (value % 32) * 32 + (v / 0x400) * 0x400
}

/// The packed value after replacing the coarse-X field (bits 0..4).
pub open spec fn spec_set_coarse_x(v: u16, value: u8) -> int {
    (v / 32) * 32 + (value % 32)
}

/// The packed value after replacing bits 8..13 and clearing bit 14.
pub open spec fn spec_set_upper_6bits(v: u16, value: u8) -> int {
    v % 0x100 + (value % 64) * 0x100
}

/// The packed value after replacing the low byte.
pub open spec fn spec_set_lower_8bits(v: u16, value: u8) -> int {
    (v / 0x100) * 0x100 + value
}

impl VRamAddressRegister {
    /// Only the low 15 bits are ever populated.
    pub open spec fn wf(&self) -> bool {
        self.0 < 0x8000
    }

    pub fn new() -> (r: VRamAddressRegister)
        ensures
            r.0 == 0,
            r.wf(),
    {
        VRamAddressRegister(0)
    }

    pub fn value(&self) -> (r: u16)
        ensures
            r == self.0,
    {
        self.0
    }

    /// The fine-Y field, bits 12..14.
    pub fn fine_y_scroll(&self) -> (r: u8)
        ensures
            r == self.0 / 0x1000 % 8,
    {
        ((self.0 / 0x1000) % 8) as u8
    }

    /// The name-table field, bits 10..11.
    pub fn name_table(&self) -> (r: u8)
        ensures
            r == self.0 / 0x400 % 4,
    {
        ((self.0 / 0x400) % 4) as u8
    }

    /// The coarse-Y field, bits 5..9.
    pub fn coarse_y_scroll(&self) -> (r: u8)
        ensures
            r == self.0 / 32 % 32,
    {
        ((self.0 / 32) % 32) as u8
    }

    /// The coarse-X field, bits 0..4.
    pub fn coarse_x_scroll(&self) -> (r: u8)
        ensures
            r == self.0 % 32,
    {
        (self.0 % 32) as u8
    }

    /// Replaces the fine-Y field. The value is masked to its three bits, so
    /// the register can never overflow by construction.
    pub fn set_fine_y_scroll(&mut self, value: u8)
        requires
            old(self).wf(),
        ensures
            final(self).wf(),
            final(self).0 == spec_set_fine_y(old(self).0, value),
    {
        self.0 = self.0 % 0x1000 + ((value % 8) as u16) * 0x1000;
    }

    /// Replaces the name-table field, masking the value to its two bits.
    pub fn set_name_table(&mut self, value: u8)
        requires
            old(self).wf(),
        ensures
            final(self).wf(),
            final(self).0 == spec_set_name_table(old(self).0, value),
    {
        self.0 = self.0 % 0x400 + ((value % 4) as u16) * 0x400 + (self.0 / 0x1000) * 0x1000;
    }

    /// Replaces the coarse-Y field, masking the value to its five bits.
    pub fn set_coarse_y_scroll(&mut self, value: u8)
        requires
            old(self).wf(),
        ensures
            final(self).wf(),
            final(self).0 == spec_set_coarse_y(old(self).0, value),
    {
        self.0 = self.0 % 32 + ((value % 32) as u16) * 32 + (self.0 / 0x400) * 0x400;
    }

    /// Replaces the coarse-X field, masking the value to its five bits.
    pub fn set_coarse_x_scroll(&mut self, value: u8)
        requires
            old(self).wf(),
        ensures
            final(self).wf(),
            final(self).0 == spec_set_coarse_x(old(self).0, value),
    {
        self.0 = (self.0 / 32) * 32 + ((value % 32) as u16);
    }

    /// Replaces bits 8..13 and clears bit 14, masking the value to six bits.
    pub fn set_upper_6bits(&mut self, value: u8)
        requires
            old(self).wf(),
        ensures
            final(self).wf(),
            final(self).0 == spec_set_upper_6bits(old(self).0, value),
    {
        self.0 = self.0 % 0x100 + ((value % 64) as u16) * 0x100;
    }

    /// Replaces the low byte.
    pub fn set_lower_8bits(&mut self, value: u8)
        requires
            old(self).wf(),
        ensures
            final(self).wf(),
            final(self).0 == spec_set_lower_8bits(old(self).0, value),
    {
        self.0 = (self.0 / 0x100) * 0x100 + (value as u16);
    }

    /// Replaces the whole register, masking the value to its fifteen bits.
    pub fn set_full_15bits(&mut self, value: u16)
        ensures
            final(self).wf(),
            final(self).0 == value % 0x8000,
    {
        self.0 = value % 0x8000;
    }

    /// Advances the address by one, as a write with horizontal increment does,
    /// wrapping within the fifteen bits.
    pub fn increment_x(&mut self)
        requires
            old(self).wf(),
        ensures
            final(self).wf(),
            final(self).0 == (old(self).0 + 1) % 0x8000,
    {
        if self.0 == 0x7FFF {
            self.0 = 0;
        } else {
            self.0 = self.0 + 1;
        }
    }

    /// Advances the address by one name-table row (32 bytes), as a write with
    /// vertical increment does, wrapping within the fifteen bits.
    pub fn increment_y(&mut self)
        requires
            old(self).wf(),
        ensures
            final(self).wf(),
            final(self).0 == (old(self).0 + 32) % 0x8000,
    {
        if self.0 >= 0x7FE0 {
            self.0 = self.0 - 0x7FE0;
        } else {
            self.0 = self.0 + 32;
        }
    }
}

/// The three-bit fine X scroll register.
#[derive(Clone, Copy, Debug, PartialEq, Eq, Structural)]
pub struct FineXScroll(pub u8);

impl FineXScroll {
    pub open spec fn wf(&self) -> bool {
        self.0 < 8
    }

    /// A fine X scroll register holding the given value, masked to three bits.
    pub fn new(value: u8) -> (r: FineXScroll)
        ensures
            r.wf(),
            r.0 == value % 8,
    {
        FineXScroll(value % 8)
    }

    /// Replaces the register, masking the value to its three bits.
    pub fn set_value(&mut self, value: u8)
        ensures
            final(self).wf(),
            final(self).0 == value % 8,
    {
        self.0 = value % 8;
    }
}

/// The single write-toggle bit shared by the two-step scroll and address
/// ports: false means the next write is the first of a pair.
#[derive(Clone, Copy, Debug, PartialEq, Eq, Structural)]
pub struct FirstOrSecondWriteToggle(pub bool);

impl FirstOrSecondWriteToggle {
    pub fn new() -> (r: FirstOrSecondWriteToggle)
        ensures
            !r.0,
    {
        FirstOrSecondWriteToggle(false)
    }

    pub fn set(&mut self, flag: bool)
        ensures
            final(self).0 == flag,
    {
        self.0 = flag;
    }

    pub fn toggle(&mut self)
        ensures
            final(self).0 == !old(self).0,
    {
        self.0 = !self.0;
    }

    pub fn is_true(&self) -> (r: bool)
        ensures
            r == self.0,
    {
        self.0
    }
}

/// One emitted picture element: screen coordinates and the RGBA colour the
/// PPU produced for them.
#[derive(Clone, Copy, Debug, PartialEq, Eq, Structural)]
pub struct Pixel {
    pub x: u16,
    pub y: u16,
    pub color: NesColor,
}

/// The picture processing unit's per-cycle state: the two 16-bit pattern
/// shift registers, the attribute latch, and the timing coordinate
/// (scanline, cycle).
///
/// Each pattern shift register emits from its most significant bit and moves
/// left one bit per rendered pixel; freshly fetched tile bytes enter at the
/// low byte and climb towards the front as pixels are emitted.
///
/// Scanline -1 is the pre-render line, 0..=239 are visible, 240 is
/// post-render and 241..=260 are vertical blanking. The pre-render line may
/// also be written as 261; stepping normalises it back to -1.
///
/// Known gaps: the scroll and address registers are fully maintained through
/// the CPU ports, but the renderer does not yet apply them — tile and
/// attribute fetches address VRAM by screen pixel coordinates, as for a zero
/// scroll. Vertical-blank signalling, and the interrupt it would raise, is
/// likewise not yet generated.
pub struct Ppu {
    pub tile_register_high: u16,
    pub tile_register_low: u16,
    pub attr_value_register: u8,
    pub scanline: i16,
    pub cycle: u16,
}

/// A 16-bit shift register after one shift: the whole register moves left
/// one bit, dropping its top bit.
pub open spec fn spec_shifted(r: u16) -> int {
    (r % 0x8000) * 2
}

/// VRAM address of the name-table entry covering pixel (x, y).
pub open spec fn spec_name_table_address(x: int, y: int) -> int {
    0x2000 + x / 8 + (y / 8) * 32
}

/// VRAM address of the high pattern byte for the tile covering pixel (x, y).
pub open spec fn spec_pattern_address_high(vram: Seq<u8>, x: int, y: int) -> int {
    vram[spec_name_table_address(x, y)] * 16 + y % 8
}

/// VRAM address of the low pattern byte for the tile covering pixel (x, y).
pub open spec fn spec_pattern_address_low(vram: Seq<u8>, x: int, y: int) -> int {
    spec_pattern_address_high(vram, x, y) + 8
}

/// VRAM address of the attribute byte covering pixel (x, y).
pub open spec fn spec_attr_address(x: int, y: int) -> int {
    0x23C0 + x / 32 + (y / 32) * 8
}

/// The two-bit palette number selected from the attribute byte by the 2x2
/// quadrant (16x16 pixels each) that pixel (x, y) falls in.
pub open spec fn spec_palette_num(attr: u8, x: int, y: int) -> int {
    if x / 16 % 2 == 0 {
        if y / 16 % 2 == 0 {
            (attr % 4) as int
        } else {
            (attr / 16 % 4) as int
        }
    } else {
        if y / 16 % 2 == 0 {
            (attr / 4 % 4) as int
        } else {
            (attr / 64 % 4) as int
        }
    }
}

/// The two-bit pattern value at the front of the shift registers: the high
/// register's most significant bit, weighted two, plus the low register's
/// most significant bit.
pub open spec fn spec_idx_in_palette(p: Ppu) -> int {
    (p.tile_register_high / 0x8000) * 2 + p.tile_register_low / 0x8000
}

/// VRAM address of the palette entry selected for pixel (x, y).
pub open spec fn spec_palette_address(p: Ppu, x: int, y: int) -> int {
    0x3F00 + spec_palette_num(p.attr_value_register, x, y) * 4 + spec_idx_in_palette(p)
}

/// The RGBA colour the PPU emits for pixel (x, y) in state `p`: the palette
/// byte selects an entry of the fixed 64-colour master palette.
pub open spec fn spec_color_value(p: Ppu, vram: Seq<u8>, x: int, y: int) -> NesColor {
    spec_nes_color((vram[spec_palette_address(p, x, y)] % 64) as u8)
}

/// Both shift registers after one shift.
pub open spec fn spec_shift(p: Ppu) -> Ppu {
    Ppu {
        tile_register_high: spec_shifted(p.tile_register_high) as u16,
        tile_register_low: spec_shifted(p.tile_register_low) as u16,
        ..p
    }
}

/// The shift registers after an eighth-cycle reload: each low byte takes the
/// pattern byte fetched for the tile covering pixel (x, y), while the high
/// byte keeps the bits still being emitted.
pub open spec fn spec_load_tile_registers(p: Ppu, vram: Seq<u8>, x: int, y: int) -> Ppu {
    Ppu {
        tile_register_high: ((p.tile_register_high / 0x100) * 0x100
            + vram[spec_pattern_address_high(vram, x, y)]) as u16,
        tile_register_low: ((p.tile_register_low / 0x100) * 0x100
            + vram[spec_pattern_address_low(vram, x, y)]) as u16,
        ..p
    }
}

/// The attribute latch after an eighth-cycle reload for pixel (x, y).
pub open spec fn spec_load_attr(p: Ppu, vram: Seq<u8>, x: int, y: int) -> Ppu {
    Ppu { attr_value_register: vram[spec_attr_address(x, y)], ..p }
}

/// The shift registers after the end-of-line prefetch: the line's first tile
/// lands in the high bytes, emitted first, and its second tile in the low
/// bytes below it.
pub open spec fn spec_prefetch(p: Ppu, vram: Seq<u8>, y: int) -> Ppu {
    Ppu {
        tile_register_high: (vram[spec_pattern_address_high(vram, 0, y)] * 0x100
            + vram[spec_pattern_address_high(vram, 8, y)]) as u16,
        tile_register_low: (vram[spec_pattern_address_low(vram, 0, y)] * 0x100
            + vram[spec_pattern_address_low(vram, 8, y)]) as u16,
        ..p
    }
}

/// The timing coordinate one PPU cycle later: 341 cycles per scanline, 262
/// scanlines per frame, the pre-render line written as -1.
pub open spec fn spec_advance(p: Ppu) -> Ppu {
    if p.cycle < 340 {
        Ppu { cycle: (p.cycle + 1) as u16, ..p }
    } else {
        Ppu {
            cycle: 0,
            scanline: if p.scanline >= 260 {
                (-1) as i16
            } else {
                (p.scanline + 1) as i16
            },
            ..p
        }
    }
}

/// A pixel is emitted exactly on cycles 1..=256 of the visible scanlines.
pub open spec fn spec_emits_pixel(p: Ppu) -> bool {
    0 <= p.scanline <= 239 && 1 <= p.cycle <= 256
}

/// One full PPU cycle from state `p` against the given VRAM contents: the
/// emitted pixel, if any, and the successor state.
pub open spec fn spec_ppu_step(p: Ppu, vram: Seq<u8>) -> (Ppu, Option<Pixel>) {
    if spec_emits_pixel(p) {
        let x = p.cycle - 1;
        let y = p.scanline as int;
        let px = Pixel {
            x: (p.cycle - 1) as u16,
            y: p.scanline as u16,
            color: spec_color_value(p, vram, x, y),
        };
        let shifted = spec_shift(p);
        let reloaded = if p.cycle % 8 == 0 {
            spec_load_attr(spec_load_tile_registers(shifted, vram, x, y), vram, x, y)
        } else {
            shifted
        };
        (spec_advance(reloaded), Some(px))
    } else if 0 <= p.scanline <= 239 && 321 <= p.cycle <= 336 {
        (spec_advance(spec_prefetch(p, vram, p.scanline as int)), None)
    } else {
        (spec_advance(p), None)
    }
}

impl Ppu {
    /// The timing coordinate stays on the frame: the pre-render line (written
    /// -1 or 261) through scanline 260, cycles 0..=340.
    pub open spec fn wf(&self) -> bool {
        -1 <= self.scanline <= 261 && self.cycle <= 340
    }

    /// A PPU at power-on: cleared registers, start of the pre-render line.
    pub fn new() -> (p: Ppu)
        ensures
            p.wf(),
            p.tile_register_high == 0,
            p.tile_register_low == 0,
            p.attr_value_register == 0,
            p.scanline == -1,
            p.cycle == 0,
    {
        Ppu {
            tile_register_high: 0,
            tile_register_low: 0,
            attr_value_register: 0,
            scanline: -1,
            cycle: 0,
        }
    }

    /// Places the PPU at an arbitrary point of the frame.
    pub fn set_timing(&mut self, scanline: i16, cycle: u16)
        requires
            -1 <= scanline <= 261,
            cycle <= 340,
        ensures
            final(self).wf(),
            final(self).scanline == scanline,
            final(self).cycle == cycle,
            final(self).tile_register_high == old(self).tile_register_high,
            final(self).tile_register_low == old(self).tile_register_low,
            final(self).attr_value_register == old(self).attr_value_register,
    {
        self.scanline = scanline;
        self.cycle = cycle;
    }

    /// High byte of the high pattern shift register.
    pub fn tile_register_high_upper_value(&self) -> (r: u8)
        ensures
            r == self.tile_register_high / 0x100,
    {
        (self.tile_register_high / 0x100) as u8
    }

    /// Low byte of the high pattern shift register.
    pub fn tile_register_high_lower_value(&self) -> (r: u8)
        ensures
            r == self.tile_register_high % 0x100,
    {
        (self.tile_register_high % 0x100) as u8
    }

    /// High byte of the low pattern shift register.
    pub fn tile_register_low_upper_value(&self) -> (r: u8)
        ensures
            r == self.tile_register_low / 0x100,
    {
        (self.tile_register_low / 0x100) as u8
    }

    /// Low byte of the low pattern shift register.
    pub fn tile_register_low_lower_value(&self) -> (r: u8)
        ensures
            r == self.tile_register_low % 0x100,
    {
        (self.tile_register_low % 0x100) as u8
    }

    /// Packs two bytes into the high pattern shift register.
    pub fn set_tile_register_high(&mut self, upper: u8, lower: u8)
        ensures
            final(self).tile_register_high == upper * 0x100 + lower,
            final(self).tile_register_low == old(self).tile_register_low,
            final(self).attr_value_register == old(self).attr_value_register,
            final(self).scanline == old(self).scanline,
            final(self).cycle == old(self).cycle,
    {
        self.tile_register_high = (upper as u16) * 0x100 + (lower as u16);
    }

    /// Packs two bytes into the low pattern shift register.
    pub fn set_tile_register_low(&mut self, upper: u8, lower: u8)
        ensures
            final(self).tile_register_low == upper * 0x100 + lower,
            final(self).tile_register_high == old(self).tile_register_high,
            final(self).attr_value_register == old(self).attr_value_register,
            final(self).scanline == old(self).scanline,
            final(self).cycle == old(self).cycle,
    {
        self.tile_register_low = (upper as u16) * 0x100 + (lower as u16);
    }

    /// Shifts both 16-bit pattern registers left one bit, dropping the top
    /// bits just emitted, as happens once per rendered pixel.
    pub fn shift_tile_registers(&mut self)
        ensures
            *final(self) == spec_shift(*old(self)),
    {
        self.tile_register_high = (self.tile_register_high % 0x8000) * 2;
        self.tile_register_low = (self.tile_register_low % 0x8000) * 2;
    }

    /// VRAM address of the name-table entry covering pixel (x, y).
    pub fn name_table_idx(&self, pixel_x: u16, pixel_y: u16) -> (r: u16)
        requires
            pixel_x < 256,
            pixel_y < 240,
        ensures
            0x2000 + r == spec_name_table_address(pixel_x as int, pixel_y as int),
    {
        pixel_x / 8 + (pixel_y / 8) * 32
    }

    /// VRAM address of the high pattern byte for the tile covering (x, y).
    pub fn pattern_table_idx_high(&self, v_ram: &VRam, pixel_x: u16, pixel_y: u16) -> (r: u16)
        requires
            v_ram.wf(),
            pixel_x < 256,
            pixel_y < 240,
        ensures
            r == spec_pattern_address_high(v_ram.0@, pixel_x as int, pixel_y as int),
    {
        let name_table_idx = self.name_table_idx(pixel_x, pixel_y);
        PATTERN_TABLE0 + (v_ram.get_value(NAME_TABLE0 + name_table_idx) as u16) * 16 + pixel_y % 8
    }

    /// VRAM address of the low pattern byte for the tile covering (x, y).
    pub fn pattern_table_idx_low(&self, v_ram: &VRam, pixel_x: u16, pixel_y: u16) -> (r: u16)
        requires
            v_ram.wf(),
            pixel_x < 256,
            pixel_y < 240,
        ensures
            r == spec_pattern_address_low(v_ram.0@, pixel_x as int, pixel_y as int),
    {
        self.pattern_table_idx_high(v_ram, pixel_x, pixel_y) + 8
    }

    /// The two-bit palette number for pixel (x, y), decoded from the latched
    /// attribute byte by 16x16-pixel quadrant.
    pub fn palette_num(&self, pixel_x: u16, pixel_y: u16) -> (r: u8)
        ensures
            r == spec_palette_num(self.attr_value_register, pixel_x as int, pixel_y as int),
    {
        if (pixel_x / 16) % 2 == 0 {
            if (pixel_y / 16) % 2 == 0 {
                self.attr_value_register % 4
            } else {
                (self.attr_value_register / 16) % 4
            }
        } else {
            if (pixel_y / 16) % 2 == 0 {
                (self.attr_value_register / 4) % 4
            } else {
                (self.attr_value_register / 64) % 4
            }
        }
    }

    /// The two-bit pattern value currently at the front of the shifters: the
    /// two registers' most significant bits.
    pub fn idx_in_palette(&self) -> (r: u8)
        ensures
            r == spec_idx_in_palette(*self),
    {
        ((self.tile_register_high / 0x8000) as u8) * 2 + (self.tile_register_low / 0x8000) as u8
    }

    /// The colour emitted for pixel (x, y) in the current state.
    pub fn color_value(&self, v_ram: &VRam, pixel_x: u16, pixel_y: u16) -> (c: NesColor)
        requires
            v_ram.wf(),
            pixel_x < 256,
            pixel_y < 240,
        ensures
            c == spec_color_value(*self, v_ram.0@, pixel_x as int, pixel_y as int),
    {
        let palette = self.palette_num(pixel_x, pixel_y) as u16;
        let color_idx = v_ram.get_value(
            IMAGE_PALETTE + palette * 4 + self.idx_in_palette() as u16,
        );
        v_ram.get_color(color_idx % 64)
    }

    /// Reloads both shift registers for the tile covering pixel (x, y): each
    /// low byte takes the freshly fetched pattern byte, while the high byte
    /// keeps the bits still being emitted.
    pub fn load_tile_registers(&mut self, v_ram: &VRam, pixel_x: u16, pixel_y: u16)
        requires
            v_ram.wf(),
            pixel_x < 256,
            pixel_y < 240,
        ensures
            *final(self) == spec_load_tile_registers(
                *old(self),
                v_ram.0@,
                pixel_x as int,
                pixel_y as int,
            ),
    {
        let pattern_table_idx_high = self.pattern_table_idx_high(v_ram, pixel_x, pixel_y);
        let pattern_table_idx_low = self.pattern_table_idx_low(v_ram, pixel_x, pixel_y);

        let high_upper = self.tile_register_high_upper_value();
        let low_upper = self.tile_register_low_upper_value();
        let high_lower = v_ram.get_value(pattern_table_idx_high);
        let low_lower = v_ram.get_value(pattern_table_idx_low);
        self.set_tile_register_high(high_upper, high_lower);
        self.set_tile_register_low(low_upper, low_lower);
    }

    /// Latches the attribute byte covering pixel (x, y).
    pub fn load_attr_value_register(&mut self, v_ram: &VRam, pixel_x: u16, pixel_y: u16)
        requires
            v_ram.wf(),
            pixel_x < 256,
            pixel_y < 240,
        ensures
            *final(self) == spec_load_attr(*old(self), v_ram.0@, pixel_x as int, pixel_y as int),
    {
        let attr_idx = pixel_x / 32 + (pixel_y / 32) * 8;
        self.attr_value_register = v_ram.get_value(ATTR_TABLE0 + attr_idx);
    }

    /// Fetches the first two tiles of the line into the shift registers, as
    /// the end-of-line prefetch does: the first tile into the high bytes,
    /// emitted first, the second into the low bytes below it.
    fn prefetch_tiles(&mut self, v_ram: &VRam, pixel_y: u16)
        requires
            v_ram.wf(),
            pixel_y < 240,
        ensures
            *final(self) == spec_prefetch(*old(self), v_ram.0@, pixel_y as int),
    {
        let high_upper = v_ram.get_value(self.pattern_table_idx_high(v_ram, 0, pixel_y));
        let high_lower = v_ram.get_value(self.pattern_table_idx_high(v_ram, 8, pixel_y));
        let low_upper = v_ram.get_value(self.pattern_table_idx_low(v_ram, 0, pixel_y));
        let low_lower = v_ram.get_value(self.pattern_table_idx_low(v_ram, 8, pixel_y));
        self.set_tile_register_high(high_upper, high_lower);
        self.set_tile_register_low(low_upper, low_lower);
    }

    /// Moves the timing coordinate one cycle forward.
    fn advance_timing(&mut self)
        requires
            old(self).wf(),
        ensures
            *final(self) == spec_advance(*old(self)),
            final(self).wf(),
    {
        if self.cycle < 340 {
            self.cycle = self.cycle + 1;
        } else {
            self.cycle = 0;
            if self.scanline >= 260 {
                self.scanline = -1;
            } else {
                self.scanline = self.scanline + 1;
            }
        }
    }

    /// Performs exactly one PPU cycle against the given VRAM: emits the pixel
    /// for (cycle-1, scanline) on visible cycles, maintains the shift
    /// registers and the attribute latch, and advances the timing coordinate.
    pub fn step(&mut self, v_ram: &VRam) -> (px: Option<Pixel>)
        requires
            old(self).wf(),
            v_ram.wf(),
        ensures
            final(self).wf(),
            (*final(self), px) == spec_ppu_step(*old(self), v_ram.0@),
            px is Some <==> spec_emits_pixel(*old(self)),
    {
        if 0 <= self.scanline && self.scanline <= 239 && 1 <= self.cycle && self.cycle <= 256 {
            let pixel_x = self.cycle - 1;
            let pixel_y = self.scanline as u16;
            let color = self.color_value(v_ram, pixel_x, pixel_y);
            self.shift_tile_registers();
            if self.cycle % 8 == 0 {
                self.load_tile_registers(v_ram, pixel_x, pixel_y);
                self.load_attr_value_register(v_ram, pixel_x, pixel_y);
            }
            let px = Pixel { x: pixel_x, y: pixel_y, color };
            self.advance_timing();
            Some(px)
        } else if 0 <= self.scanline && self.scanline <= 239 && 321 <= self.cycle
            && self.cycle <= 336 {
            let pixel_y = self.scanline as u16;
            self.prefetch_tiles(v_ram, pixel_y);
            self.advance_timing();
            None
        } else {
            self.advance_timing();
            None
        }
    }
}

} // verus!
