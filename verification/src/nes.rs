//! The console: loading an already-read cartridge image into CPU memory and
//! VRAM, and the scheduler that alternates one CPU instruction with three
//! PPU cycles.

use crate::cpu::Cpu;
use crate::cpu::CpuError;
use crate::cpu::CpuRam;
use crate::cpu::CpuView;
use crate::cpu::PrgRam;
use crate::cpu::PrgRamView;
use crate::cpu::RAM_SIZE;
use crate::cpu::spec_step;
use crate::ppu::Pixel;
use crate::ppu::Ppu;
use crate::ppu::VRam;
use crate::ppu::V_RAM_SIZE;
use crate::ppu::spec_ppu_step;
use vstd::prelude::*;

verus! {

/// Length of the cartridge header.
pub const I_NES_HEADER_SIZE: usize = 0x0010;
/// Header byte holding the count of 16 KiB PRG ROM banks.
pub const COUNT_OF_PRG_ROM_UNITS_INDEX: usize = 4;
/// Header byte holding the count of 8 KiB CHR ROM banks.
pub const COUNT_OF_CHR_ROM_UNITS_INDEX: usize = 5;
/// Size of one PRG ROM bank.
pub const SIZE_OF_PRG_ROM_UNIT: usize = 0x4000;
/// Size of one CHR ROM bank.
pub const SIZE_OF_CHR_ROM_UNIT: usize = 0x2000;
/// CPU address where the first PRG bank is mapped.
pub const PRG_ROM_LOWER_IDX: usize = 0x8000;
/// CPU address where the second (or mirrored) PRG bank is mapped.
pub const PRG_ROM_UPPER_IDX: usize = 0xC000;
/// Cartridge-format errors, reported to the caller at load time; none of
/// them is reachable after a successful load.
#[derive(Clone, Copy, Debug, PartialEq, Eq, Structural)]
pub enum LoadError {
    /// The image is shorter than its own header.
    HeaderTooShort,
    /// The header announces no PRG ROM bank at all.
    NoPrgRom,
    /// The announced CHR ROM does not fit into VRAM.
    ChrTooLarge,
    /// The image is shorter than the banks its header announces.
    DataTooShort,
}

/// The number of PRG ROM bytes the header announces.
pub open spec fn spec_prg_rom_size(data: Seq<u8>) -> int {
    data[COUNT_OF_PRG_ROM_UNITS_INDEX as int] * SIZE_OF_PRG_ROM_UNIT
}

/// The number of CHR ROM bytes the header announces.
pub open spec fn spec_chr_rom_size(data: Seq<u8>) -> int {
    data[COUNT_OF_CHR_ROM_UNITS_INDEX as int] * SIZE_OF_CHR_ROM_UNIT
}

/// The load-time check: the error a cartridge image is rejected with, or
/// `None` when it loads.
pub open spec fn spec_load_check(data: Seq<u8>) -> Option<LoadError> {
    if data.len() < I_NES_HEADER_SIZE {
        Some(LoadError::HeaderTooShort)
    } else if data[COUNT_OF_PRG_ROM_UNITS_INDEX as int] == 0 {
        Some(LoadError::NoPrgRom)
    } else if data[COUNT_OF_CHR_ROM_UNITS_INDEX as int] > 8 {
        Some(LoadError::ChrTooLarge)
    } else if data.len() < I_NES_HEADER_SIZE + spec_prg_rom_size(data) + spec_chr_rom_size(data) {
        Some(LoadError::DataTooShort)
    } else {
        None
    }
}

/// The PRG ROM bytes of a loadable image.
pub open spec fn spec_prg_rom(data: Seq<u8>) -> Seq<u8> {
    data.subrange(I_NES_HEADER_SIZE as int, I_NES_HEADER_SIZE + spec_prg_rom_size(data))
}

/// The CHR ROM bytes of a loadable image.
pub open spec fn spec_chr_rom(data: Seq<u8>) -> Seq<u8> {
    data.subrange(
        I_NES_HEADER_SIZE + spec_prg_rom_size(data),
        I_NES_HEADER_SIZE + spec_prg_rom_size(data) + spec_chr_rom_size(data),
    )
}

/// What a freshly loaded memory system holds: the first PRG bank at 0x8000,
/// the second bank — or, with a single bank, the first again — at 0xC000,
/// zeroes below the ROM, the CHR bytes at the bottom of VRAM with zeroes
/// above, and the PPU registers at power-on.
pub open spec fn spec_loaded(data: Seq<u8>, v: PrgRamView) -> bool {
    let prg = spec_prg_rom(data);
    let chr = spec_chr_rom(data);
    &&& v.mem.len() == RAM_SIZE
    &&& v.v_ram.len() == V_RAM_SIZE
    &&& forall|i: int|
        0 <= i < SIZE_OF_PRG_ROM_UNIT ==> v.mem[PRG_ROM_LOWER_IDX + i] == prg[i]
    &&& forall|i: int|
        0 <= i < SIZE_OF_PRG_ROM_UNIT ==> #[trigger] v.mem[PRG_ROM_UPPER_IDX + i] == (if prg.len()
            == SIZE_OF_PRG_ROM_UNIT {
            prg[i]
        } else {
            prg[SIZE_OF_PRG_ROM_UNIT + i]
        })
    &&& forall|i: int| 0 <= i < PRG_ROM_LOWER_IDX ==> v.mem[i] == 0
    &&& forall|i: int| 0 <= i < chr.len() ==> v.v_ram[i] == chr[i]
    &&& forall|i: int| chr.len() <= i < V_RAM_SIZE ==> v.v_ram[i] == 0
    &&& v.current == 0
    &&& v.temporary == 0
    &&& v.fine_x == 0
    &&& !v.toggle
}

/// A vector of `len` zero bytes.
pub fn zeroed_bytes(len: usize) -> (v: Vec<u8>)
    ensures
        v@.len() == len,
        forall|i: int| 0 <= i < len ==> v@[i] == 0,
{
    let mut v: Vec<u8> = Vec::new();
    let mut i: usize = 0;
    while i < len
        invariant
            i <= len,
            v@.len() == i,
            forall|j: int| 0 <= j < i ==> v@[j] == 0,
        decreases len - i,
    {
        v.push(0);
        i = i + 1;
    }
    v
}

/// Copies `count` bytes of `src`, starting at `src_start`, over `dst`
/// starting at `dst_start`; every other byte of `dst` keeps its value.
pub fn copy_bytes(dst: &mut Vec<u8>, dst_start: usize, src: &Vec<u8>, src_start: usize, count: usize)
    requires
        dst_start + count <= old(dst)@.len(),
        src_start + count <= src@.len(),
    ensures
        final(dst)@.len() == old(dst)@.len(),
        forall|i: int| 0 <= i < count ==> #[trigger] final(dst)@[dst_start + i] == src@[src_start + i],
        forall|i: int|
            0 <= i < old(dst)@.len() && !(dst_start <= i < dst_start + count) ==> final(dst)@[i]
                == old(dst)@[i],
{
    let src_len: usize = src.len();
    let dst_len: usize = dst.len();
    let mut i: usize = 0;
    while i < count
        invariant
            i <= count,
            src_len == src@.len(),
            dst_len == dst@.len(),
            dst_start + count <= dst@.len(),
            src_start + count <= src@.len(),
            dst@.len() == old(dst)@.len(),
            forall|j: int| 0 <= j < i ==> #[trigger] dst@[dst_start + j] == src@[src_start + j],
            forall|j: int|
                0 <= j < dst@.len() && !(dst_start <= j < dst_start + count) ==> dst@[j] == old(
                    dst,
                )@[j],
        decreases count - i,
    {
        let value = src[src_start + i];
        dst[dst_start + i] = value;
        i = i + 1;
    }
}

/// The emulated console: one CPU (owning the memory system) and one PPU.
pub struct Nes {
    pub cpu: Cpu,
    pub ppu: Ppu,
}

/// The pixels of one optional-pixel result, as a sequence.
pub open spec fn spec_opt_pixels(px: Option<Pixel>) -> Seq<Pixel> {
    match px {
        Some(p) => seq![p],
        None => Seq::empty(),
    }
}

/// Three PPU cycles against fixed VRAM contents: the final PPU state and the
/// emitted pixels in order.
pub open spec fn spec_ppu_cycles3(ppu: Ppu, v_ram: Seq<u8>) -> (Ppu, Seq<Pixel>) {
    let step1 = spec_ppu_step(ppu, v_ram);
    let step2 = spec_ppu_step(step1.0, v_ram);
    let step3 = spec_ppu_step(step2.0, v_ram);
    (step3.0, spec_opt_pixels(step1.1) + spec_opt_pixels(step2.1) + spec_opt_pixels(step3.1))
}

impl Nes {
    pub open spec fn wf(&self) -> bool {
        self.cpu.wf() && self.ppu.wf()
    }

    /// Builds the memory system from an already-read cartridge image: the
    /// 16-byte header announces the PRG and CHR bank counts, the banks
    /// follow. A single PRG bank is mirrored across both ROM windows.
    pub fn load_ram(i_nes_data: &Vec<u8>) -> (r: Result<PrgRam, LoadError>)
        ensures
            match r {
                Ok(ram) => spec_load_check(i_nes_data@) is None && ram.wf() && spec_loaded(
                    i_nes_data@,
                    ram@,
                ),
                Err(e) => spec_load_check(i_nes_data@) == Some(e),
            },
    {
        if i_nes_data.len() < I_NES_HEADER_SIZE {
            return Err(LoadError::HeaderTooShort);
        }
        let prg_rom_banks = i_nes_data[COUNT_OF_PRG_ROM_UNITS_INDEX];
        let chr_rom_banks = i_nes_data[COUNT_OF_CHR_ROM_UNITS_INDEX];
        if prg_rom_banks == 0 {
            return Err(LoadError::NoPrgRom);
        }
        if chr_rom_banks > 8 {
            return Err(LoadError::ChrTooLarge);
        }
        let prg_rom_size = (prg_rom_banks as usize) * SIZE_OF_PRG_ROM_UNIT;
        let chr_rom_size = (chr_rom_banks as usize) * SIZE_OF_CHR_ROM_UNIT;
        if i_nes_data.len() < I_NES_HEADER_SIZE + prg_rom_size + chr_rom_size {
            return Err(LoadError::DataTooShort);
        }

        let mut memory = zeroed_bytes(RAM_SIZE);
        copy_bytes(&mut memory, PRG_ROM_LOWER_IDX, i_nes_data, I_NES_HEADER_SIZE, SIZE_OF_PRG_ROM_UNIT);
        if prg_rom_banks == 1 {
            copy_bytes(
                &mut memory,
                PRG_ROM_UPPER_IDX,
                i_nes_data,
                I_NES_HEADER_SIZE,
                SIZE_OF_PRG_ROM_UNIT,
            );
        } else {
            copy_bytes(
                &mut memory,
                PRG_ROM_UPPER_IDX,
                i_nes_data,
                I_NES_HEADER_SIZE + SIZE_OF_PRG_ROM_UNIT,
                SIZE_OF_PRG_ROM_UNIT,
            );
        }

        let mut v_ram_memory = zeroed_bytes(V_RAM_SIZE);
        copy_bytes(&mut v_ram_memory, 0, i_nes_data, I_NES_HEADER_SIZE + prg_rom_size, chr_rom_size);
        proof {
            let chr = spec_chr_rom(i_nes_data@);
            assert forall|i: int| 0 <= i < chr.len() implies v_ram_memory@[i] == chr[i] by {
                assert(v_ram_memory@[0 + i] == i_nes_data@[I_NES_HEADER_SIZE + prg_rom_size + i]);
            }
        }

        Ok(PrgRam::new(CpuRam::new(memory), VRam::new(v_ram_memory)))
    }

    /// A console over an already-read cartridge image: memory loaded as
    /// `load_ram` says, the CPU at the mapped base of PRG ROM, the PPU at
    /// the start of the pre-render line.
    pub fn new(i_nes_data: &Vec<u8>) -> (r: Result<Nes, LoadError>)
        ensures
            match r {
                Ok(nes) => {
                    &&& spec_load_check(i_nes_data@) is None
                    &&& nes.wf()
                    &&& spec_loaded(i_nes_data@, nes.cpu@.prg_ram)
                    &&& nes.cpu@.a == 0
                    &&& nes.cpu@.x == 0
                    &&& nes.cpu@.y == 0
                    &&& nes.cpu@.pc == 0x8000
                    &&& nes.cpu@.sp == 0
                    &&& nes.cpu@.p == 0
                    &&& nes.ppu.scanline == -1
                    &&& nes.ppu.cycle == 0
                },
                Err(e) => spec_load_check(i_nes_data@) == Some(e),
            },
    {
        match Nes::load_ram(i_nes_data) {
            Ok(prg_ram) => {
                let cpu = Cpu::new(prg_ram);
                let ppu = Ppu::new();
                Ok(Nes { cpu, ppu })
            },
            Err(e) => Err(e),
        }
    }

    /// One scheduler round: exactly one CPU instruction, then three PPU
    /// cycles, whose pixels are returned in order. A CPU error halts the
    /// round before the PPU moves, leaving the whole console as it was.
    pub fn step(&mut self) -> (r: Result<Vec<Pixel>, CpuError>)
        requires
            old(self).wf(),
        ensures
            final(self).wf(),
            match r {
                Ok(pixels) => match spec_step(old(self).cpu@) {
                    Ok(c) => {
                        &&& final(self).cpu@ == c
                        &&& final(self).ppu == spec_ppu_cycles3(old(self).ppu, c.prg_ram.v_ram).0
                        &&& pixels@ == spec_ppu_cycles3(old(self).ppu, c.prg_ram.v_ram).1
                    },
                    Err(_) => false,
                },
                Err(e) => spec_step(old(self).cpu@) == Err::<CpuView, CpuError>(e)
                    && final(self).cpu@ == old(self).cpu@ && final(self).ppu == old(self).ppu,
            },
    {
        match self.cpu.step() {
            Err(e) => Err(e),
            Ok(()) => {
                let mut pixels: Vec<Pixel> = Vec::new();
                let ghost cpu_after = self.cpu@;
                match self.ppu.step(&self.cpu.prg_ram.v_ram) {
                    Some(px) => pixels.push(px),
                    None => {},
                }
                match self.ppu.step(&self.cpu.prg_ram.v_ram) {
                    Some(px) => pixels.push(px),
                    None => {},
                }
                match self.ppu.step(&self.cpu.prg_ram.v_ram) {
                    Some(px) => pixels.push(px),
                    None => {},
                }
                proof {
                    assert(pixels@ =~= spec_ppu_cycles3(old(self).ppu, cpu_after.prg_ram.v_ram).1);
                }
                Ok(pixels)
            },
        }
    }
}

/// With a single announced PRG bank, the loaded memory holds the same 16 KiB
/// in both ROM windows: byte for byte, 0x8000..0xC000 equals
/// 0xC000..0x10000.
pub proof fn lemma_single_bank_mirrored(data: Seq<u8>, v: PrgRamView)
    requires
        spec_load_check(data) is None,
        data[COUNT_OF_PRG_ROM_UNITS_INDEX as int] == 1,
        spec_loaded(data, v),
    ensures
        forall|i: int|
            0 <= i < SIZE_OF_PRG_ROM_UNIT ==> #[trigger] v.mem[PRG_ROM_LOWER_IDX + i] == v.mem[
                PRG_ROM_UPPER_IDX + i
            ],
{
    assert(spec_prg_rom(data).len() == SIZE_OF_PRG_ROM_UNIT);
}

} // verus!
