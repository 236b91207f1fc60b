//! An emulator core for a 1980s 8-bit home console: a 6502-family CPU
//! interpreter, a tile-based picture processing unit (PPU), and the port
//! registers that couple them, all specified and verified down to the byte.
//!
//! The crate holds only the digital logic. Reading cartridge files from disk
//! and presenting pixels on a screen are the caller's business; the core
//! consumes already-extracted PRG/CHR byte buffers and hands back RGBA pixels
//! and flat memory images.

pub mod cpu;
pub mod nes;
pub mod ppu;
pub mod tv;
