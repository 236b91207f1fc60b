//! The CPU: the register file, the 64 KiB address space with its intercepted
//! PPU ports, the instruction decoder, the operand resolver and the executor,
//! composed into a verified fetch-decode-resolve-execute step.

use crate::ppu::FineXScroll;
use crate::ppu::FirstOrSecondWriteToggle;
use crate::ppu::VRam;
use crate::ppu::VRamAddressRegister;
use crate::ppu::V_RAM_SIZE;
use crate::ppu::spec_set_coarse_x;
use crate::ppu::spec_set_coarse_y;
use crate::ppu::spec_set_fine_y;
use crate::ppu::spec_set_lower_8bits;
use crate::ppu::spec_set_name_table;
use crate::ppu::spec_set_upper_6bits;
use vstd::prelude::*;

verus! {

/// Number of addressable CPU memory bytes.
pub const RAM_SIZE: usize = 0x10000;

/// Port address: PPU control register; writes select the name table and the
/// VRAM increment direction.
pub const PPU_CONTROL_REGISTER1: u16 = 0x2000;
/// Port address: PPU status register; accesses reset the write toggle.
pub const PPU_STATUS_REGISTER: u16 = 0x2002;
/// Port address: the two-step scroll register.
pub const V_RAM_ADDRESS_REGISTER1: u16 = 0x2005;
/// Port address: the two-step VRAM address register.
pub const V_RAM_ADDRESS_REGISTER2: u16 = 0x2006;
/// Port address: VRAM data; accesses go to VRAM and advance the address.
pub const V_RAM_IO_REGISTER: u16 = 0x2007;

/// Status register bit masks.
pub const CARRY_FLAG: u8 = 0b00000001;
pub const ZERO_FLAG: u8 = 0b00000010;
pub const INTERRUPT_DISABLE: u8 = 0b00000100;
pub const DECIMAL_MODE: u8 = 0b00001000;
pub const BREAK_COMMAND: u8 = 0b00010000;
pub const OVERFLOW_FLAG: u8 = 0b01000000;
pub const NEGATIVE_FLAG: u8 = 0b10000000;

/// The seven CPU status flags.
#[derive(Clone, Copy, Debug, PartialEq, Eq, Structural)]
pub enum StatusFlag {
    CarryFlag,
    ZeroFlag,
    InterruptDisable,
    DecimalMode,
    BreakCommand,
    OverflowFlag,
    NegativeFlag,
}

/// The mask with exactly the given flag's bit set.
pub open spec fn spec_flag_mask(flag: StatusFlag) -> u8 {
    match flag {
        StatusFlag::CarryFlag => 0b00000001,
        StatusFlag::ZeroFlag => 0b00000010,
        StatusFlag::InterruptDisable => 0b00000100,
        StatusFlag::DecimalMode => 0b00001000,
        StatusFlag::BreakCommand => 0b00010000,
        StatusFlag::OverflowFlag => 0b01000000,
        StatusFlag::NegativeFlag => 0b10000000,
    }
}

/// The mask with every bit set except the given flag's.
pub open spec fn spec_flag_clear_mask(flag: StatusFlag) -> u8 {
    match flag {
        StatusFlag::CarryFlag => 0b11111110,
        StatusFlag::ZeroFlag => 0b11111101,
        StatusFlag::InterruptDisable => 0b11111011,
        StatusFlag::DecimalMode => 0b11110111,
        StatusFlag::BreakCommand => 0b11101111,
        StatusFlag::OverflowFlag => 0b10111111,
        StatusFlag::NegativeFlag => 0b01111111,
    }
}

/// Whether the zero flag is set in a status byte.
pub open spec fn spec_zero_flag(p: u8) -> bool {
    p & ZERO_FLAG == ZERO_FLAG
}

/// The status byte after storing the given truth of the zero flag.
pub open spec fn spec_with_zero(p: u8, zero: bool) -> u8 {
    if zero {
        p | ZERO_FLAG
    } else {
        p & 0b11111101
    }
}

/// Operation codes of the 6502 instruction set.
#[derive(Clone, Copy, Debug, PartialEq, Eq, Structural)]
pub enum OpCode {
    ADC,
    SBC,
    AND,
    ORA,
    EOR,
    ASL,
    LSR,
    ROL,
    ROR,
    BCC,
    BCS,
    BEQ,
    BNE,
    BVC,
    BVS,
    BPL,
    BMI,
    BIT,
    JMP,
    JSR,
    RTS,
    BRK,
    RTI,
    CMP,
    CPX,
    CPY,
    INC,
    DEC,
    INX,
    DEX,
    INY,
    DEY,
    CLC,
    SEC,
    CLI,
    SEI,
    CLD,
    SED,
    CLV,
    LDA,
    LDX,
    LDY,
    STA,
    STX,
    STY,
    TAX,
    TXA,
    TAY,
    TYA,
    TSX,
    TXS,
    PHA,
    PLA,
    PHP,
    PLP,
    NOP,
}

/// The 6502 addressing modes.
#[derive(Clone, Copy, Debug, PartialEq, Eq, Structural)]
pub enum AddressingMode {
    Accumulator,
    Immediate,
    Absolute,
    ZeroPage,
    IndexedZeroPage,
    IndexedAbsolute,
    Implied,
    Relative,
    IndexedIndirect,
    IndirectIndexed,
    AbsoluteIndirect,
}

/// The index register an instruction may add to its address.
#[derive(Clone, Copy, Debug, PartialEq, Eq, Structural)]
pub enum IndexRegister {
    X,
    Y,
}

/// A resolved operand: either an immediate byte or an effective address.
#[derive(Clone, Copy, Debug, PartialEq, Eq, Structural)]
pub enum Operand {
    Value(u8),
    Index(u16),
}

/// A copy of the register file, carried by every error for diagnostics.
#[derive(Clone, Copy, Debug, PartialEq, Eq, Structural)]
pub struct RegisterSnapshot {
    pub a: u8,
    pub x: u8,
    pub y: u8,
    pub pc: u16,
    pub sp: u8,
    pub p: u8,
}

/// Decode failure: the byte is not in the decode table.
#[derive(Clone, Copy, Debug, PartialEq, Eq, Structural)]
pub struct UnknownOpcode {
    pub byte: u8,
}

/// Resolution failure: the addressing mode (with the given index register)
/// is not supported.
#[derive(Clone, Copy, Debug, PartialEq, Eq, Structural)]
pub struct UnsupportedMode {
    pub addressing_mode: AddressingMode,
    pub index_register: Option<IndexRegister>,
}

/// Execution failure: the operand's shape does not fit the operation.
#[derive(Clone, Copy, Debug, PartialEq, Eq, Structural)]
pub struct OperandMismatch {
    pub op_code: OpCode,
}

/// A fatal error from one CPU step, with the failing address and a register
/// snapshot for diagnostics.
#[derive(Clone, Copy, Debug, PartialEq, Eq, Structural)]
pub enum CpuError {
    UnknownOpcode { byte: u8, pc: u16, registers: RegisterSnapshot },
    UnsupportedAddressingMode {
        addressing_mode: AddressingMode,
        op_code: OpCode,
        registers: RegisterSnapshot,
    },
    InvalidOperandShape {
        op_code: OpCode,
        operand: Option<Operand>,
        registers: RegisterSnapshot,
    },
}

/// A 16-bit value from an unbounded one, wrapping as the address bus does.
pub open spec fn wrap16(i: int) -> u16 {
    (i % 0x10000) as u16
}

/// The stack pointer after one push, wrapping 0x00 to 0xFF.
pub open spec fn wrap8_dec(sp: u8) -> u8 {
    if sp == 0 {
        255
    } else {
        (sp - 1) as u8
    }
}

/// Flat 64 KiB CPU memory without port interception.
pub struct CpuRam {
    pub memory: Vec<u8>,
}

impl CpuRam {
    /// The store covers every address a 16-bit bus can form.
    pub open spec fn wf(&self) -> bool {
        self.memory@.len() == RAM_SIZE
    }

    pub fn new(memory: Vec<u8>) -> (ram: CpuRam)
        requires
            memory@.len() == RAM_SIZE,
        ensures
            ram.wf(),
            ram.memory == memory,
    {
        CpuRam { memory }
    }

    /// Reads the byte at one address.
    pub fn fetch8(&self, address: u16) -> (r: u8)
        requires
            self.wf(),
        ensures
            r == self.memory@[address as int],
    {
        self.memory[address as usize]
    }

    /// Reads a 16-bit value: the low byte from the first address, the high
    /// byte from the second.
    pub fn fetch16(&self, addresses: (u16, u16)) -> (r: u16)
        requires
            self.wf(),
        ensures
            r == self.memory@[addresses.1 as int] * 0x100 + self.memory@[addresses.0 as int],
    {
        (self.memory[addresses.1 as usize] as u16) * 0x100
            + (self.memory[addresses.0 as usize] as u16)
    }

    /// Writes the byte at one address.
    pub fn set8(&mut self, address: u16, data: u8)
        requires
            old(self).wf(),
        ensures
            final(self).wf(),
            final(self).memory@ == old(self).memory@.update(address as int, data),
    {
        self.memory[address as usize] = data;
    }

    /// Writes a 16-bit value: the low byte to the first address, the high
    /// byte to the second.
    pub fn set16(&mut self, addresses: (u16, u16), data: u16)
        requires
            old(self).wf(),
        ensures
            final(self).wf(),
            final(self).memory@ == old(self).memory@.update(
                addresses.0 as int,
                (data % 0x100) as u8,
            ).update(addresses.1 as int, (data / 0x100) as u8),
    {
        self.memory[addresses.0 as usize] = (data % 0x100) as u8;
        self.memory[addresses.1 as usize] = (data / 0x100) as u8;
    }
}

/// The mathematical value of the CPU-visible memory system: the flat bytes,
/// the PPU memory, and the PPU's internal registers reached through ports.
pub struct PrgRamView {
    pub mem: Seq<u8>,
    pub v_ram: Seq<u8>,
    pub current: u16,
    pub temporary: u16,
    pub fine_x: u8,
    pub toggle: bool,
}

/// CPU memory with port interception: writes and reads at the five port
/// addresses additionally mutate the PPU's internal registers and VRAM.
pub struct PrgRam {
    pub memory: CpuRam,
    pub v_ram: VRam,
    pub v_ram_address_register: VRamAddressRegister,
    pub temporary_v_ram_address_register: VRamAddressRegister,
    pub fine_x_scroll: FineXScroll,
    pub first_or_second_write_toggle: FirstOrSecondWriteToggle,
}

impl View for PrgRam {
    type V = PrgRamView;

    open spec fn view(&self) -> PrgRamView {
        PrgRamView {
            mem: self.memory.memory@,
            v_ram: self.v_ram.0@,
            current: self.v_ram_address_register.0,
            temporary: self.temporary_v_ram_address_register.0,
            fine_x: self.fine_x_scroll.0,
            toggle: self.first_or_second_write_toggle.0,
        }
    }
}

impl PrgRamView {
    pub open spec fn wf(&self) -> bool {
        &&& self.mem.len() == RAM_SIZE
        &&& self.v_ram.len() == V_RAM_SIZE
        &&& self.current < 0x8000
        &&& self.temporary < 0x8000
        &&& self.fine_x < 8
    }
}

/// How far the VRAM address advances after a data-port access: 32 when bit 2
/// of the last control write asks for vertical increments, else 1.
pub open spec fn spec_vram_increment(v: PrgRamView) -> int {
    if v.mem[PPU_CONTROL_REGISTER1 as int] / 4 % 2 == 1 {
        32
    } else {
        1
    }
}

/// The memory system after a write: the raw byte is always stored, and the
/// five port addresses additionally drive the PPU register protocol.
pub open spec fn spec_set8(v: PrgRamView, address: u16, data: u8) -> PrgRamView {
    let stored = v.mem.update(address as int, data);
    if address == PPU_CONTROL_REGISTER1 {
        PrgRamView {
            mem: stored,
            temporary: spec_set_name_table(v.temporary, (data % 4) as u8) as u16,
            ..v
        }
    } else if address == PPU_STATUS_REGISTER {
        PrgRamView { mem: stored, toggle: false, ..v }
    } else if address == V_RAM_ADDRESS_REGISTER1 {
        if !v.toggle {
            PrgRamView {
                mem: stored,
                fine_x: (data % 8) as u8,
                temporary: spec_set_coarse_x(v.temporary, (data / 8) as u8) as u16,
                toggle: true,
                ..v
            }
        } else {
            PrgRamView {
                mem: stored,
                temporary: spec_set_coarse_y(
                    spec_set_fine_y(v.temporary, (data % 8) as u8) as u16,
                    (data / 8) as u8,
                ) as u16,
                toggle: false,
                ..v
            }
        }
    } else if address == V_RAM_ADDRESS_REGISTER2 {
        if !v.toggle {
            PrgRamView {
                mem: stored,
                temporary: spec_set_upper_6bits(v.temporary, (data % 64) as u8) as u16,
                toggle: true,
                ..v
            }
        } else {
            let packed = spec_set_lower_8bits(v.temporary, data) as u16;
            PrgRamView {
                mem: stored,
                temporary: packed,
                current: (packed % 0x8000) as u16,
                toggle: false,
                ..v
            }
        }
    } else if address == V_RAM_IO_REGISTER {
        PrgRamView {
            mem: stored,
            v_ram: v.v_ram.update(v.current as int, data),
            current: ((v.current + spec_vram_increment(v)) % 0x8000) as u16,
            ..v
        }
    } else {
        PrgRamView { mem: stored, ..v }
    }
}

/// The value and successor state of a read: the status port clears the write
/// toggle, the data port reads VRAM and advances the address, every other
/// address reads the raw byte.
pub open spec fn spec_read8(v: PrgRamView, address: u16) -> (u8, PrgRamView) {
    if address == PPU_STATUS_REGISTER {
        (v.mem[address as int], PrgRamView { toggle: false, ..v })
    } else if address == V_RAM_IO_REGISTER {
        (
            v.v_ram[v.current as int],
            PrgRamView { current: ((v.current + spec_vram_increment(v)) % 0x8000) as u16, ..v },
        )
    } else {
        (v.mem[address as int], v)
    }
}

impl PrgRam {
    pub open spec fn wf(&self) -> bool {
        self@.wf()
    }

    /// A memory system over the given flat stores, with the PPU's internal
    /// registers at their power-on state.
    pub fn new(memory: CpuRam, v_ram: VRam) -> (ram: PrgRam)
        requires
            memory.wf(),
            v_ram.wf(),
        ensures
            ram.wf(),
            ram@.mem == memory.memory@,
            ram@.v_ram == v_ram.0@,
            ram@.current == 0,
            ram@.temporary == 0,
            ram@.fine_x == 0,
            !ram@.toggle,
    {
        PrgRam {
            memory,
            v_ram,
            v_ram_address_register: VRamAddressRegister::new(),
            temporary_v_ram_address_register: VRamAddressRegister::new(),
            fine_x_scroll: FineXScroll::new(0),
            first_or_second_write_toggle: FirstOrSecondWriteToggle::new(),
        }
    }

    /// Packs a high and a low byte into a 16-bit address.
    pub fn concat_addresses(address0: u8, address1: u8) -> (r: u16)
        ensures
            r == address0 * 0x100 + address1,
    {
        (address0 as u16) * 0x100 + (address1 as u16)
    }

    /// Splits a 16-bit address into its high and low bytes.
    pub fn split_address(address: u16) -> (r: (u8, u8))
        ensures
            r.0 == address / 0x100,
            r.1 == address % 0x100,
    {
        ((address / 0x100) as u8, (address % 0x100) as u8)
    }

    /// Writes one byte as the CPU does: the raw byte is stored, and a write
    /// to a port address additionally drives the PPU register protocol.
    pub fn set8(&mut self, address: u16, data: u8)
        requires
            old(self).wf(),
        ensures
            final(self).wf(),
            final(self)@ == spec_set8(old(self)@, address, data),
    {
        if address == PPU_CONTROL_REGISTER1 {
            self.temporary_v_ram_address_register.set_name_table(data % 4);
        } else if address == PPU_STATUS_REGISTER {
            self.first_or_second_write_toggle.set(false);
        } else if address == V_RAM_ADDRESS_REGISTER1 {
            if !self.first_or_second_write_toggle.is_true() {
                self.fine_x_scroll.set_value(data % 8);
                self.temporary_v_ram_address_register.set_coarse_x_scroll(data / 8);
            } else {
                self.temporary_v_ram_address_register.set_fine_y_scroll(data % 8);
                self.temporary_v_ram_address_register.set_coarse_y_scroll(data / 8);
            }
            self.first_or_second_write_toggle.toggle();
        } else if address == V_RAM_ADDRESS_REGISTER2 {
            if !self.first_or_second_write_toggle.is_true() {
                self.temporary_v_ram_address_register.set_upper_6bits(data % 64);
            } else {
                self.temporary_v_ram_address_register.set_lower_8bits(data);
                let packed = self.temporary_v_ram_address_register.value();
                self.v_ram_address_register.set_full_15bits(packed);
            }
            self.first_or_second_write_toggle.toggle();
        } else if address == V_RAM_IO_REGISTER {
            let v_address = self.v_ram_address_register.value();
            self.v_ram.set(v_address, data);
            self.increment_v_ram_address();
        }
        self.memory.set8(address, data);
    }

    /// Reads one byte as the CPU does: the status port clears the write
    /// toggle, the data port reads VRAM and advances the address.
    pub fn read8(&mut self, address: u16) -> (r: u8)
        requires
            old(self).wf(),
        ensures
            final(self).wf(),
            r == spec_read8(old(self)@, address).0,
            final(self)@ == spec_read8(old(self)@, address).1,
    {
        if address == PPU_STATUS_REGISTER {
            self.first_or_second_write_toggle.set(false);
            self.memory.fetch8(address)
        } else if address == V_RAM_IO_REGISTER {
            let v_address = self.v_ram_address_register.value();
            let value = self.v_ram.get_value(v_address);
            self.increment_v_ram_address();
            value
        } else {
            self.memory.fetch8(address)
        }
    }

    /// Advances the VRAM address register after a data-port access, by 32 or
    /// by 1 as the last control write asked.
    fn increment_v_ram_address(&mut self)
        requires
            old(self).wf(),
        ensures
            final(self).wf(),
            final(self)@ == (PrgRamView {
                current: ((old(self)@.current + spec_vram_increment(old(self)@)) % 0x8000) as u16,
                ..old(self)@
            }),
    {
        if (self.memory.fetch8(PPU_CONTROL_REGISTER1) / 4) % 2 == 1 {
            self.v_ram_address_register.increment_y();
        } else {
            self.v_ram_address_register.increment_x();
        }
    }
}

/// The mathematical value of the whole CPU: the register file and the memory
/// system it drives.
pub struct CpuView {
    pub a: u8,
    pub x: u8,
    pub y: u8,
    pub pc: u16,
    pub sp: u8,
    pub p: u8,
    pub prg_ram: PrgRamView,
}

impl CpuView {
    pub open spec fn wf(&self) -> bool {
        self.prg_ram.wf()
    }
}

/// The register snapshot that an error carries for state `c`.
pub open spec fn spec_snapshot(c: CpuView) -> RegisterSnapshot {
    RegisterSnapshot { a: c.a, x: c.x, y: c.y, pc: c.pc, sp: c.sp, p: c.p }
}

/// The decode table: the meaning of each supported opcode byte, or an error
/// for a byte outside the table. Decoding is a pure function of the byte.
pub open spec fn spec_parse_instruction(instruction: u8) -> Result<
    (OpCode, AddressingMode, Option<IndexRegister>),
    UnknownOpcode,
> {
    if instruction == 0x20 {
        Ok((OpCode::JSR, AddressingMode::Absolute, None))
    } else if instruction == 0x21 {
        Ok((OpCode::AND, AddressingMode::IndexedIndirect, None))
    } else if instruction == 0x4C {
        Ok((OpCode::JMP, AddressingMode::Absolute, None))
    } else if instruction == 0x78 {
        Ok((OpCode::SEI, AddressingMode::Implied, None))
    } else if instruction == 0x88 {
        Ok((OpCode::DEY, AddressingMode::Implied, None))
    } else if instruction == 0x8D {
        Ok((OpCode::STA, AddressingMode::Absolute, None))
    } else if instruction == 0x9A {
        Ok((OpCode::TXS, AddressingMode::Implied, None))
    } else if instruction == 0xA0 {
        Ok((OpCode::LDY, AddressingMode::Immediate, None))
    } else if instruction == 0xA2 {
        Ok((OpCode::LDX, AddressingMode::Immediate, None))
    } else if instruction == 0xA9 {
        Ok((OpCode::LDA, AddressingMode::Immediate, None))
    } else if instruction == 0xBD {
        Ok((OpCode::LDA, AddressingMode::Absolute, Some(IndexRegister::X)))
    } else if instruction == 0xD0 {
        Ok((OpCode::BNE, AddressingMode::Relative, None))
    } else if instruction == 0xE8 {
        Ok((OpCode::INX, AddressingMode::Implied, None))
    } else {
        Err(UnknownOpcode { byte: instruction })
    }
}

/// Whether a byte is in the decode table.
pub open spec fn spec_is_supported_opcode(instruction: u8) -> bool {
    spec_parse_instruction(instruction) is Ok
}

/// The resolved operand and the program counter after resolution, or `None`
/// when the mode (with the given index register) is unsupported. Resolution
/// consumes operand bytes at `c.pc` and mutates nothing but the program
/// counter.
pub open spec fn spec_resolve(
    c: CpuView,
    addressing_mode: AddressingMode,
    register: Option<IndexRegister>,
) -> Option<(Option<Operand>, u16)> {
    match addressing_mode {
        AddressingMode::Implied => Some((None, c.pc)),
        AddressingMode::Immediate => Some(
            (Some(Operand::Value(c.prg_ram.mem[c.pc as int])), wrap16(c.pc + 1)),
        ),
        AddressingMode::Absolute => {
            let low = c.prg_ram.mem[c.pc as int];
            let high = c.prg_ram.mem[wrap16(c.pc + 1) as int];
            match register {
                None => Some((Some(Operand::Index(wrap16(high * 0x100 + low))), wrap16(c.pc + 2))),
                Some(IndexRegister::X) => Some(
                    (Some(Operand::Index(wrap16(high * 0x100 + low + c.x))), wrap16(c.pc + 2)),
                ),
                Some(IndexRegister::Y) => None,
            }
        },
        AddressingMode::Relative => {
            let offset = c.prg_ram.mem[c.pc as int];
            let base = wrap16(c.pc + 1);
            let target = if offset < 128 {
                wrap16(base + offset)
            } else {
                wrap16(base + offset - 0x100)
            };
            Some((Some(Operand::Index(target)), base))
        },
        AddressingMode::IndexedIndirect => {
            let zero_page = ((c.prg_ram.mem[c.pc as int] + c.x) % 0x100) as u8;
            let low = c.prg_ram.mem[zero_page as int];
            let high = c.prg_ram.mem[((zero_page + 1) % 0x100) as int];
            let pointer = wrap16(high * 0x100 + low);
            Some((Some(Operand::Value(c.prg_ram.mem[pointer as int])), wrap16(c.pc + 1)))
        },
        _ => None,
    }
}

/// SEI: set the interrupt-disable flag.
pub open spec fn spec_sei(c: CpuView) -> CpuView {
    CpuView { p: c.p | INTERRUPT_DISABLE, ..c }
}

/// LDA: load the accumulator from an immediate value or through a read, with
/// the read's port side effects.
pub open spec fn spec_lda(c: CpuView, operand: Operand) -> CpuView {
    match operand {
        Operand::Value(value) => CpuView { a: value, ..c },
        Operand::Index(idx) => {
            let (value, prg) = spec_read8(c.prg_ram, idx);
            CpuView { a: value, prg_ram: prg, ..c }
        },
    }
}

/// LDX: load the X register, as LDA.
pub open spec fn spec_ldx(c: CpuView, operand: Operand) -> CpuView {
    match operand {
        Operand::Value(value) => CpuView { x: value, ..c },
        Operand::Index(idx) => {
            let (value, prg) = spec_read8(c.prg_ram, idx);
            CpuView { x: value, prg_ram: prg, ..c }
        },
    }
}

/// LDY: load the Y register, as LDA.
pub open spec fn spec_ldy(c: CpuView, operand: Operand) -> CpuView {
    match operand {
        Operand::Value(value) => CpuView { y: value, ..c },
        Operand::Index(idx) => {
            let (value, prg) = spec_read8(c.prg_ram, idx);
            CpuView { y: value, prg_ram: prg, ..c }
        },
    }
}

/// TXS: copy the X register into the stack pointer.
pub open spec fn spec_txs(c: CpuView) -> CpuView {
    CpuView { sp: c.x, ..c }
}

/// STA: store the accumulator at the operand's address, with the write's
/// port side effects; a value operand is a shape error.
pub open spec fn spec_sta(c: CpuView, operand: Operand) -> Option<CpuView> {
    match operand {
        Operand::Index(idx) => Some(
            CpuView { prg_ram: spec_set8(c.prg_ram, idx, c.a), ..c },
        ),
        Operand::Value(_) => None,
    }
}

/// INX: increment X, wrapping, and store whether the result is zero in the
/// zero flag.
pub open spec fn spec_inx(c: CpuView) -> CpuView {
    let x2 = if c.x == 255 {
        0u8
    } else {
        (c.x + 1) as u8
    };
    CpuView { x: x2, p: spec_with_zero(c.p, x2 == 0), ..c }
}

/// DEY: decrement Y, wrapping, and store whether the result is zero in the
/// zero flag.
pub open spec fn spec_dey(c: CpuView) -> CpuView {
    let y2 = if c.y == 0 {
        255u8
    } else {
        (c.y - 1) as u8
    };
    CpuView { y: y2, p: spec_with_zero(c.p, y2 == 0), ..c }
}

/// BNE: jump to the operand's address when the zero flag is clear; fall
/// through when it is set.
pub open spec fn spec_bne(c: CpuView, operand: Operand) -> Option<CpuView> {
    match operand {
        Operand::Index(idx) => Some(
            if !spec_zero_flag(c.p) {
                CpuView { pc: idx, ..c }
            } else {
                c
            },
        ),
        Operand::Value(_) => None,
    }
}

/// JMP: jump to the operand's address.
pub open spec fn spec_jmp(c: CpuView, operand: Operand) -> Option<CpuView> {
    match operand {
        Operand::Index(idx) => Some(CpuView { pc: idx, ..c }),
        Operand::Value(_) => None,
    }
}

/// JSR: push the address one before the next instruction, high byte first,
/// onto the stack page, then jump to the operand's address.
pub open spec fn spec_jsr(c: CpuView, operand: Operand) -> Option<CpuView> {
    match operand {
        Operand::Index(idx) => {
            let pc_return = if c.pc == 0 {
                0xFFFFu16
            } else {
                (c.pc - 1) as u16
            };
            let prg1 = spec_set8(c.prg_ram, (0x100 + c.sp) as u16, (pc_return / 0x100) as u8);
            let sp1 = wrap8_dec(c.sp);
            let prg2 = spec_set8(prg1, (0x100 + sp1) as u16, (pc_return % 0x100) as u8);
            let sp2 = wrap8_dec(sp1);
            Some(CpuView { pc: idx, sp: sp2, prg_ram: prg2, ..c })
        },
        Operand::Value(_) => None,
    }
}

/// AND: combine an immediate value into the accumulator bitwise and store
/// whether the result is zero in the zero flag.
pub open spec fn spec_and(c: CpuView, operand: Operand) -> Option<CpuView> {
    match operand {
        Operand::Value(value) => {
            let a2 = c.a & value;
            Some(CpuView { a: a2, p: spec_with_zero(c.p, a2 == 0), ..c })
        },
        Operand::Index(_) => None,
    }
}

/// The executor: the state after applying one operation to its resolved
/// operand, or `None` when the operand's shape does not fit the operation.
pub open spec fn spec_exec(c: CpuView, op_code: OpCode, operand: Option<Operand>) -> Option<
    CpuView,
> {
    match op_code {
        OpCode::SEI => Some(spec_sei(c)),
        OpCode::LDA => match operand {
            Some(o) => Some(spec_lda(c, o)),
            None => None,
        },
        OpCode::LDX => match operand {
            Some(o) => Some(spec_ldx(c, o)),
            None => None,
        },
        OpCode::LDY => match operand {
            Some(o) => Some(spec_ldy(c, o)),
            None => None,
        },
        OpCode::TXS => Some(spec_txs(c)),
        OpCode::STA => match operand {
            Some(o) => spec_sta(c, o),
            None => None,
        },
        OpCode::INX => Some(spec_inx(c)),
        OpCode::DEY => Some(spec_dey(c)),
        OpCode::BNE => match operand {
            Some(o) => spec_bne(c, o),
            None => None,
        },
        OpCode::JMP => match operand {
            Some(o) => spec_jmp(c, o),
            None => None,
        },
        OpCode::JSR => match operand {
            Some(o) => spec_jsr(c, o),
            None => None,
        },
        OpCode::AND => match operand {
            Some(o) => spec_and(c, o),
            None => None,
        },
        _ => None,
    }
}

/// One whole instruction from state `c`: fetch, decode, resolve, execute.
/// A byte outside the decode table is the only reachable error; decoded
/// instructions always resolve and execute.
pub open spec fn spec_step(c: CpuView) -> Result<CpuView, CpuError> {
    let byte = c.prg_ram.mem[c.pc as int];
    match spec_parse_instruction(byte) {
        Err(_) => Err(
            CpuError::UnknownOpcode { byte, pc: c.pc, registers: spec_snapshot(c) },
        ),
        Ok((op_code, addressing_mode, register)) => {
            let c1 = CpuView { pc: wrap16(c.pc + 1), ..c };
            match spec_resolve(c1, addressing_mode, register) {
                None => Err(
                    CpuError::UnsupportedAddressingMode {
                        addressing_mode,
                        op_code,
                        registers: spec_snapshot(c1),
                    },
                ),
                Some((operand, pc2)) => {
                    let c2 = CpuView { pc: pc2, ..c1 };
                    match spec_exec(c2, op_code, operand) {
                        None => Err(
                            CpuError::InvalidOperandShape {
                                op_code,
                                operand,
                                registers: spec_snapshot(c2),
                            },
                        ),
                        Some(c3) => Ok(c3),
                    }
                },
            }
        },
    }
}

/// The 6502-family CPU: the register file and the memory system it owns.
pub struct Cpu {
    pub a: u8,
    pub x: u8,
    pub y: u8,
    pub pc: u16,
    pub sp: u8,
    pub p: u8,
    pub prg_ram: PrgRam,
}

impl View for Cpu {
    type V = CpuView;

    open spec fn view(&self) -> CpuView {
        CpuView {
            a: self.a,
            x: self.x,
            y: self.y,
            pc: self.pc,
            sp: self.sp,
            p: self.p,
            prg_ram: self.prg_ram@,
        }
    }
}

impl Cpu {
    pub open spec fn wf(&self) -> bool {
        self@.wf()
    }

    /// A CPU at power-on: cleared registers, the program counter at the
    /// mapped base of PRG ROM.
    pub fn new(prg_ram: PrgRam) -> (cpu: Cpu)
        requires
            prg_ram.wf(),
        ensures
            cpu.wf(),
            cpu@.a == 0,
            cpu@.x == 0,
            cpu@.y == 0,
            cpu@.pc == 0x8000,
            cpu@.sp == 0,
            cpu@.p == 0,
            cpu@.prg_ram == prg_ram@,
    {
        Cpu { a: 0, x: 0, y: 0, pc: 0x8000, sp: 0, p: 0, prg_ram }
    }

    /// The register file, copied for diagnostics.
    pub fn snapshot(&self) -> (r: RegisterSnapshot)
        ensures
            r == spec_snapshot(self@),
    {
        RegisterSnapshot {
            a: self.a,
            x: self.x,
            y: self.y,
            pc: self.pc,
            sp: self.sp,
            p: self.p,
        }
    }

    /// The byte under the program counter.
    pub fn fetch_instruction(&self) -> (r: u8)
        requires
            self.wf(),
        ensures
            r == self@.prg_ram.mem[self@.pc as int],
    {
        self.prg_ram_value()
    }

    /// Decodes one opcode byte into its operation, addressing mode and
    /// optional index register. Pure: equal bytes decode equally, and every
    /// byte outside the table is an error.
    pub fn parse_instruction(instruction: u8) -> (r: Result<
        (OpCode, AddressingMode, Option<IndexRegister>),
        UnknownOpcode,
    >)
        ensures
            r == spec_parse_instruction(instruction),
            r is Err <==> !spec_is_supported_opcode(instruction),
    {
        if instruction == 0x20 {
            Ok((OpCode::JSR, AddressingMode::Absolute, None))
        } else if instruction == 0x21 {
            Ok((OpCode::AND, AddressingMode::IndexedIndirect, None))
        } else if instruction == 0x4C {
            Ok((OpCode::JMP, AddressingMode::Absolute, None))
        } else if instruction == 0x78 {
            Ok((OpCode::SEI, AddressingMode::Implied, None))
        } else if instruction == 0x88 {
            Ok((OpCode::DEY, AddressingMode::Implied, None))
        } else if instruction == 0x8D {
            Ok((OpCode::STA, AddressingMode::Absolute, None))
        } else if instruction == 0x9A {
            Ok((OpCode::TXS, AddressingMode::Implied, None))
        } else if instruction == 0xA0 {
            Ok((OpCode::LDY, AddressingMode::Immediate, None))
        } else if instruction == 0xA2 {
            Ok((OpCode::LDX, AddressingMode::Immediate, None))
        } else if instruction == 0xA9 {
            Ok((OpCode::LDA, AddressingMode::Immediate, None))
        } else if instruction == 0xBD {
            Ok((OpCode::LDA, AddressingMode::Absolute, Some(IndexRegister::X)))
        } else if instruction == 0xD0 {
            Ok((OpCode::BNE, AddressingMode::Relative, None))
        } else if instruction == 0xE8 {
            Ok((OpCode::INX, AddressingMode::Implied, None))
        } else {
            Err(UnknownOpcode { byte: instruction })
        }
    }

    /// The raw byte under the program counter.
    fn prg_ram_value(&self) -> (r: u8)
        requires
            self.wf(),
        ensures
            r == self@.prg_ram.mem[self@.pc as int],
    {
        self.prg_ram.memory.fetch8(self.pc)
    }

    /// The raw byte at one address.
    pub fn get_prg_ram_value(&self, idx: u16) -> (r: u8)
        requires
            self.wf(),
        ensures
            r == self@.prg_ram.mem[idx as int],
    {
        self.prg_ram.memory.fetch8(idx)
    }

    /// Writes one byte through the port-intercepting bus.
    pub fn set_prg_ram_value(&mut self, value: u8, idx: u16)
        requires
            old(self).wf(),
        ensures
            final(self).wf(),
            final(self)@ == (CpuView {
                prg_ram: spec_set8(old(self)@.prg_ram, idx, value),
                ..old(self)@
            }),
    {
        self.prg_ram.set8(idx, value);
    }

    /// Advances the program counter by one, wrapping as the bus does.
    pub fn increment_pc(&mut self)
        ensures
            final(self)@ == (CpuView { pc: wrap16(old(self)@.pc + 1), ..old(self)@ }),
    {
        if self.pc == 0xFFFF {
            self.pc = 0;
        } else {
            self.pc = self.pc + 1;
        }
    }

    /// Resolves the operand for one addressing mode, consuming operand bytes
    /// at the program counter. Mutates nothing but the program counter.
    pub fn get_operand(
        &mut self,
        addressing_mode: AddressingMode,
        register: Option<IndexRegister>,
    ) -> (r: Result<Option<Operand>, UnsupportedMode>)
        requires
            old(self).wf(),
        ensures
            final(self).wf(),
            match spec_resolve(old(self)@, addressing_mode, register) {
                Some(resolved) => r == Ok::<Option<Operand>, UnsupportedMode>(resolved.0)
                    && final(self)@ == (CpuView { pc: resolved.1, ..old(self)@ }),
                None => r == Err::<Option<Operand>, UnsupportedMode>(
                    UnsupportedMode { addressing_mode, index_register: register },
                ) && final(self)@ == old(self)@,
            },
    {
        match addressing_mode {
            AddressingMode::Implied => Ok(None),
            AddressingMode::Immediate => {
                let operand = self.prg_ram_value();
                self.increment_pc();
                Ok(Some(Operand::Value(operand)))
            },
            AddressingMode::Absolute => {
                match register {
                    None => {
                        let address0 = self.prg_ram_value();
                        self.increment_pc();
                        let address1 = self.prg_ram_value();
                        self.increment_pc();
                        let address = PrgRam::concat_addresses(address1, address0);
                        Ok(Some(Operand::Index(address)))
                    },
                    Some(IndexRegister::X) => {
                        let address0 = self.prg_ram_value();
                        self.increment_pc();
                        let address1 = self.prg_ram_value();
                        self.increment_pc();
                        let base = PrgRam::concat_addresses(address1, address0);
                        let address = if base as u32 + self.x as u32 > 0xFFFF {
                            ((base as u32 + self.x as u32) - 0x10000) as u16
                        } else {
                            base + (self.x as u16)
                        };
                        Ok(Some(Operand::Index(address)))
                    },
                    Some(IndexRegister::Y) => Err(
                        UnsupportedMode { addressing_mode, index_register: register },
                    ),
                }
            },
            AddressingMode::Relative => {
                let offset = self.prg_ram_value();
                self.increment_pc();
                let address = if offset < 128 {
                    let sum = self.pc as u32 + offset as u32;
                    if sum > 0xFFFF {
                        (sum - 0x10000) as u16
                    } else {
                        sum as u16
                    }
                } else {
                    let sum = self.pc as u32 + offset as u32;
                    if sum >= 0x100 {
                        ((sum - 0x100) % 0x10000) as u16
                    } else {
                        (sum + 0xFF00) as u16
                    }
                };
                Ok(Some(Operand::Index(address)))
            },
            AddressingMode::IndexedIndirect => {
                let base = self.prg_ram_value();
                let zero_page = ((base as u16 + self.x as u16) % 0x100) as u8;
                let low = self.get_prg_ram_value(zero_page as u16);
                let high = self.get_prg_ram_value(((zero_page as u16 + 1) % 0x100) as u16);
                let pointer = PrgRam::concat_addresses(high, low);
                let value = self.get_prg_ram_value(pointer);
                self.increment_pc();
                Ok(Some(Operand::Value(value)))
            },
            _ => Err(UnsupportedMode { addressing_mode, index_register: register }),
        }
    }

    /// Sets one status flag.
    pub fn set_flag(&mut self, status_flag: StatusFlag)
        ensures
            final(self)@ == (CpuView {
                p: old(self)@.p | spec_flag_mask(status_flag),
                ..old(self)@
            }),
    {
        match status_flag {
            StatusFlag::CarryFlag => {
                self.p = self.p | 0b00000001;
            },
            StatusFlag::ZeroFlag => {
                self.p = self.p | 0b00000010;
            },
            StatusFlag::InterruptDisable => {
                self.p = self.p | 0b00000100;
            },
            StatusFlag::DecimalMode => {
                self.p = self.p | 0b00001000;
            },
            StatusFlag::BreakCommand => {
                self.p = self.p | 0b00010000;
            },
            StatusFlag::OverflowFlag => {
                self.p = self.p | 0b01000000;
            },
            StatusFlag::NegativeFlag => {
                self.p = self.p | 0b10000000;
            },
        }
    }

    /// Clears one status flag.
    pub fn reset_flag(&mut self, status_flag: StatusFlag)
        ensures
            final(self)@ == (CpuView {
                p: old(self)@.p & spec_flag_clear_mask(status_flag),
                ..old(self)@
            }),
    {
        match status_flag {
            StatusFlag::CarryFlag => {
                self.p = self.p & 0b11111110;
            },
            StatusFlag::ZeroFlag => {
                self.p = self.p & 0b11111101;
            },
            StatusFlag::InterruptDisable => {
                self.p = self.p & 0b11111011;
            },
            StatusFlag::DecimalMode => {
                self.p = self.p & 0b11110111;
            },
            StatusFlag::BreakCommand => {
                self.p = self.p & 0b11101111;
            },
            StatusFlag::OverflowFlag => {
                self.p = self.p & 0b10111111;
            },
            StatusFlag::NegativeFlag => {
                self.p = self.p & 0b01111111;
            },
        }
    }

    /// Whether the zero flag is set.
    pub fn get_zero_flag(&self) -> (r: bool)
        ensures
            r == spec_zero_flag(self@.p),
    {
        (self.p & 0b00000010) == 0b00000010
    }

    /// Stores whether a result was zero in the zero flag.
    fn store_zero_of(&mut self, result: u8)
        ensures
            final(self)@ == (CpuView { p: spec_with_zero(old(self)@.p, result == 0), ..old(self)@ }),
    {
        if result == 0 {
            self.set_flag(StatusFlag::ZeroFlag);
        } else {
            self.reset_flag(StatusFlag::ZeroFlag);
        }
    }

    /// Pushes one byte onto the stack page at the stack pointer, then moves
    /// the stack pointer down, wrapping 0x00 to 0xFF.
    pub fn push_stack(&mut self, value: u8)
        requires
            old(self).wf(),
        ensures
            final(self).wf(),
            final(self)@ == (CpuView {
                prg_ram: spec_set8(old(self)@.prg_ram, (0x100 + old(self)@.sp) as u16, value),
                sp: wrap8_dec(old(self)@.sp),
                ..old(self)@
            }),
    {
        let address = PrgRam::concat_addresses(0x01, self.sp);
        self.set_prg_ram_value(value, address);
        if self.sp == 0 {
            self.sp = 255;
        } else {
            self.sp = self.sp - 1;
        }
    }
}

impl Cpu {
    /// SEI: set the interrupt-disable flag.
    pub fn sei(&mut self)
        ensures
            final(self)@ == spec_sei(old(self)@),
    {
        self.set_flag(StatusFlag::InterruptDisable);
    }

    /// LDA: load the accumulator from the operand, reading through the
    /// port-intercepting bus when the operand is an address.
    pub fn lda(&mut self, operand: Operand)
        requires
            old(self).wf(),
        ensures
            final(self).wf(),
            final(self)@ == spec_lda(old(self)@, operand),
    {
        match operand {
            Operand::Index(idx) => {
                let value = self.prg_ram.read8(idx);
                self.a = value;
            },
            Operand::Value(value) => {
                self.a = value;
            },
        }
    }

    /// LDX: load the X register, as LDA.
    pub fn ldx(&mut self, operand: Operand)
        requires
            old(self).wf(),
        ensures
            final(self).wf(),
            final(self)@ == spec_ldx(old(self)@, operand),
    {
        match operand {
            Operand::Index(idx) => {
                let value = self.prg_ram.read8(idx);
                self.x = value;
            },
            Operand::Value(value) => {
                self.x = value;
            },
        }
    }

    /// LDY: load the Y register, as LDA.
    pub fn ldy(&mut self, operand: Operand)
        requires
            old(self).wf(),
        ensures
            final(self).wf(),
            final(self)@ == spec_ldy(old(self)@, operand),
    {
        match operand {
            Operand::Index(idx) => {
                let value = self.prg_ram.read8(idx);
                self.y = value;
            },
            Operand::Value(value) => {
                self.y = value;
            },
        }
    }

    /// TXS: copy the X register into the stack pointer.
    pub fn txs(&mut self)
        ensures
            final(self)@ == spec_txs(old(self)@),
    {
        self.sp = self.x;
    }

    /// STA: store the accumulator at the operand's address through the
    /// port-intercepting bus; a value operand is a shape error.
    pub fn sta(&mut self, operand: Operand) -> (r: Result<(), OperandMismatch>)
        requires
            old(self).wf(),
        ensures
            final(self).wf(),
            match spec_sta(old(self)@, operand) {
                Some(c) => r is Ok && final(self)@ == c,
                None => r == Err::<(), OperandMismatch>(OperandMismatch { op_code: OpCode::STA })
                    && final(self)@ == old(self)@,
            },
    {
        match operand {
            Operand::Index(idx) => {
                let a = self.a;
                self.set_prg_ram_value(a, idx);
                Ok(())
            },
            Operand::Value(_) => Err(OperandMismatch { op_code: OpCode::STA }),
        }
    }

    /// INX: increment X, wrapping 0xFF to 0x00; the zero flag is set exactly
    /// when the result is zero.
    pub fn inx(&mut self)
        ensures
            final(self)@ == spec_inx(old(self)@),
            final(self)@.x == 0 <==> old(self)@.x == 255,
            spec_zero_flag(final(self)@.p) <==> final(self)@.x == 0,
    {
        if self.x == 255 {
            self.x = 0;
        } else {
            self.x = self.x + 1;
        }
        let x = self.x;
        self.store_zero_of(x);
        proof {
            let p0 = old(self)@.p;
            assert(spec_zero_flag(p0 | ZERO_FLAG)) by (bit_vector);
            assert(!spec_zero_flag(p0 & 0b11111101u8)) by (bit_vector);
        }
    }

    /// DEY: decrement Y, wrapping 0x00 to 0xFF; the zero flag is set exactly
    /// when the result is zero.
    pub fn dey(&mut self)
        ensures
            final(self)@ == spec_dey(old(self)@),
            spec_zero_flag(final(self)@.p) <==> final(self)@.y == 0,
    {
        if self.y == 0 {
            self.y = 255;
        } else {
            self.y = self.y - 1;
        }
        let y = self.y;
        self.store_zero_of(y);
        proof {
            let p0 = old(self)@.p;
            assert(spec_zero_flag(p0 | ZERO_FLAG)) by (bit_vector);
            assert(!spec_zero_flag(p0 & 0b11111101u8)) by (bit_vector);
        }
    }

    /// BNE: jump to the operand's address exactly when the zero flag is
    /// clear; an immediate operand is a shape error.
    pub fn bne(&mut self, operand: Operand) -> (r: Result<(), OperandMismatch>)
        ensures
            match spec_bne(old(self)@, operand) {
                Some(c) => r is Ok && final(self)@ == c,
                None => r == Err::<(), OperandMismatch>(OperandMismatch { op_code: OpCode::BNE })
                    && final(self)@ == old(self)@,
            },
    {
        match operand {
            Operand::Index(idx) => {
                if !self.get_zero_flag() {
                    self.pc = idx;
                }
                Ok(())
            },
            Operand::Value(_) => Err(OperandMismatch { op_code: OpCode::BNE }),
        }
    }

    /// JMP: jump to the operand's address; an immediate operand is a shape
    /// error.
    pub fn jmp(&mut self, operand: Operand) -> (r: Result<(), OperandMismatch>)
        ensures
            match spec_jmp(old(self)@, operand) {
                Some(c) => r is Ok && final(self)@ == c,
                None => r == Err::<(), OperandMismatch>(OperandMismatch { op_code: OpCode::JMP })
                    && final(self)@ == old(self)@,
            },
    {
        match operand {
            Operand::Index(idx) => {
                self.pc = idx;
                Ok(())
            },
            Operand::Value(_) => Err(OperandMismatch { op_code: OpCode::JMP }),
        }
    }

    /// JSR: push the address one before the next instruction onto the stack,
    /// high byte then low byte, and jump to the operand's address.
    pub fn jsr(&mut self, operand: Operand) -> (r: Result<(), OperandMismatch>)
        requires
            old(self).wf(),
        ensures
            final(self).wf(),
            match spec_jsr(old(self)@, operand) {
                Some(c) => r is Ok && final(self)@ == c,
                None => r == Err::<(), OperandMismatch>(OperandMismatch { op_code: OpCode::JSR })
                    && final(self)@ == old(self)@,
            },
    {
        match operand {
            Operand::Index(idx) => {
                if self.pc == 0 {
                    self.pc = 0xFFFF;
                } else {
                    self.pc = self.pc - 1;
                }
                let split = PrgRam::split_address(self.pc);
                self.push_stack(split.0);
                self.push_stack(split.1);
                self.pc = idx;
                Ok(())
            },
            Operand::Value(_) => Err(OperandMismatch { op_code: OpCode::JSR }),
        }
    }

    /// AND: combine an immediate value into the accumulator bitwise; the
    /// zero flag is set exactly when the result is zero. An address operand
    /// is a shape error.
    pub fn and(&mut self, operand: Operand) -> (r: Result<(), OperandMismatch>)
        ensures
            match spec_and(old(self)@, operand) {
                Some(c) => r is Ok && final(self)@ == c,
                None => r == Err::<(), OperandMismatch>(OperandMismatch { op_code: OpCode::AND })
                    && final(self)@ == old(self)@,
            },
    {
        match operand {
            Operand::Value(value) => {
                self.a = value & self.a;
                let a = self.a;
                self.store_zero_of(a);
                proof {
                    let a0 = old(self)@.a;
                    assert(value & a0 == a0 & value) by (bit_vector);
                }
                Ok(())
            },
            Operand::Index(_) => Err(OperandMismatch { op_code: OpCode::AND }),
        }
    }

    /// Applies one decoded operation to its resolved operand, or reports the
    /// shape mismatch without touching any state.
    pub fn exec(&mut self, op_code: OpCode, operand: Option<Operand>) -> (r: Result<
        (),
        OperandMismatch,
    >)
        requires
            old(self).wf(),
        ensures
            final(self).wf(),
            match spec_exec(old(self)@, op_code, operand) {
                Some(c) => r is Ok && final(self)@ == c,
                None => r == Err::<(), OperandMismatch>(OperandMismatch { op_code })
                    && final(self)@ == old(self)@,
            },
    {
        match op_code {
            OpCode::SEI => {
                self.sei();
                Ok(())
            },
            OpCode::LDA => match operand {
                Some(oper) => {
                    self.lda(oper);
                    Ok(())
                },
                None => Err(OperandMismatch { op_code }),
            },
            OpCode::LDX => match operand {
                Some(oper) => {
                    self.ldx(oper);
                    Ok(())
                },
                None => Err(OperandMismatch { op_code }),
            },
            OpCode::LDY => match operand {
                Some(oper) => {
                    self.ldy(oper);
                    Ok(())
                },
                None => Err(OperandMismatch { op_code }),
            },
            OpCode::TXS => {
                self.txs();
                Ok(())
            },
            OpCode::STA => match operand {
                Some(oper) => self.sta(oper),
                None => Err(OperandMismatch { op_code }),
            },
            OpCode::INX => {
                self.inx();
                Ok(())
            },
            OpCode::DEY => {
                self.dey();
                Ok(())
            },
            OpCode::BNE => match operand {
                Some(oper) => self.bne(oper),
                None => Err(OperandMismatch { op_code }),
            },
            OpCode::JMP => match operand {
                Some(oper) => self.jmp(oper),
                None => Err(OperandMismatch { op_code }),
            },
            OpCode::JSR => match operand {
                Some(oper) => self.jsr(oper),
                None => Err(OperandMismatch { op_code }),
            },
            OpCode::AND => match operand {
                Some(oper) => self.and(oper),
                None => Err(OperandMismatch { op_code }),
            },
            _ => Err(OperandMismatch { op_code }),
        }
    }

    /// Performs exactly one instruction: fetch the opcode byte at the
    /// program counter, decode it, resolve its operand, execute it. A byte
    /// outside the decode table is reported with the failing address and a
    /// register snapshot, and leaves every register and memory byte as it
    /// was; decoded instructions always resolve and execute.
    pub fn step(&mut self) -> (r: Result<(), CpuError>)
        requires
            old(self).wf(),
        ensures
            final(self).wf(),
            match spec_step(old(self)@) {
                Ok(c) => r is Ok && final(self)@ == c,
                Err(e) => r == Err::<(), CpuError>(e) && final(self)@ == old(self)@,
            },
            r is Err <==> !spec_is_supported_opcode(
                old(self)@.prg_ram.mem[old(self)@.pc as int],
            ),
    {
        let instruction = self.fetch_instruction();
        match Cpu::parse_instruction(instruction) {
            Err(unknown) => Err(
                CpuError::UnknownOpcode {
                    byte: unknown.byte,
                    pc: self.pc,
                    registers: self.snapshot(),
                },
            ),
            Ok((op_code, addressing_mode, register)) => {
                self.increment_pc();
                match self.get_operand(addressing_mode, register) {
                    Err(_) => Err(
                        CpuError::UnsupportedAddressingMode {
                            addressing_mode,
                            op_code,
                            registers: self.snapshot(),
                        },
                    ),
                    Ok(operand) => {
                        match self.exec(op_code, operand) {
                            Err(_) => Err(
                                CpuError::InvalidOperandShape {
                                    op_code,
                                    operand,
                                    registers: self.snapshot(),
                                },
                            ),
                            Ok(()) => Ok(()),
                        }
                    },
                }
            },
        }
    }
}

/// The CPU after a reset: the status byte and the program counter are saved
/// below the stack top, the interrupt-disable flag is set, and execution
/// restarts at the address stored in the reset vector.
pub open spec fn spec_reset(c: CpuView) -> CpuView {
    let stack_top = 0x0100 + c.sp;
    let saved = c.prg_ram.mem.update(stack_top - 2, c.p).update(
        stack_top - 1,
        (c.pc % 0x100) as u8,
    ).update(stack_top as int, (c.pc / 0x100) as u8);
    CpuView {
        prg_ram: PrgRamView { mem: saved, ..c.prg_ram },
        p: c.p | INTERRUPT_DISABLE,
        pc: (saved[0xFFFD] * 0x100 + saved[0xFFFC]) as u16,
        ..c
    }
}

/// How many CPU instructions remain, and the final state, after running at
/// most `n` instructions: stepping stops early at the first decode error,
/// leaving the state exactly as it was before the failing fetch.
pub open spec fn spec_run(c: CpuView, n: nat) -> (CpuView, Option<CpuError>)
    decreases n,
{
    if n == 0 {
        (c, None)
    } else {
        match spec_step(c) {
            Err(e) => (c, Some(e)),
            Ok(c2) => spec_run(c2, (n - 1) as nat),
        }
    }
}

impl Cpu {
    /// Saves the status byte and the program counter below the stack top,
    /// sets the interrupt-disable flag, and reloads the program counter from
    /// the reset vector at 0xFFFC/0xFFFD.
    pub fn reset(&mut self)
        requires
            old(self).wf(),
        ensures
            final(self).wf(),
            final(self)@ == spec_reset(old(self)@),
    {
        let stack_top = 0x0100u16 + self.sp as u16;
        let p = self.p;
        self.prg_ram.memory.set8(stack_top - 2, p);
        let pc = self.pc;
        self.prg_ram.memory.set16((stack_top - 1, stack_top), pc);
        self.set_flag(StatusFlag::InterruptDisable);
        let new_pc = self.prg_ram.memory.fetch16((0xFFFC, 0xFFFD));
        self.pc = new_pc;
    }

    /// Runs at most `max_steps` instructions, stopping early at the first
    /// decode error with the state exactly as it was before the failing
    /// fetch.
    pub fn run(&mut self, max_steps: usize) -> (r: Result<(), CpuError>)
        requires
            old(self).wf(),
        ensures
            final(self).wf(),
            final(self)@ == spec_run(old(self)@, max_steps as nat).0,
            match r {
                Ok(()) => spec_run(old(self)@, max_steps as nat).1 is None,
                Err(e) => spec_run(old(self)@, max_steps as nat).1 == Some(e),
            },
    {
        let mut i: usize = 0;
        while i < max_steps
            invariant
                self.wf(),
                i <= max_steps,
                spec_run(old(self)@, max_steps as nat) == spec_run(
                    self@,
                    (max_steps - i) as nat,
                ),
            decreases max_steps - i,
        {
            match self.step() {
                Ok(()) => {},
                Err(e) => {
                    return Err(e);
                },
            }
            i = i + 1;
        }
        Ok(())
    }
}

/// A bitwise AND with a zero operand produces a zero accumulator, so the
/// zero flag is set afterwards whatever the accumulator and the flags held
/// before.
pub proof fn lemma_and_zero_operand_sets_zero_flag(c: CpuView)
    ensures
        match spec_and(c, Operand::Value(0)) {
            Some(after) => after.a == 0 && spec_zero_flag(after.p),
            None => false,
        },
{
    let a0 = c.a;
    let p0 = c.p;
    assert(a0 & 0 == 0) by (bit_vector);
    assert(spec_zero_flag(p0 | ZERO_FLAG)) by (bit_vector);
}

/// Placing a six-bit field above a byte keeps both recoverable.
proof fn lemma_pack_fields(a: int, k: int)
    by (nonlinear_arith)
    requires
        0 <= a < 0x100,
        0 <= k < 64,
    ensures
        (a + k * 0x100) / 0x100 == k,
        (a + k * 0x100) % 0x100 == a,
{
}

/// Two consecutive writes to the VRAM address port from the first-write
/// state pack the two operand bytes into the current VRAM address register —
/// the first write's low six bits above, the second write below — and return
/// the toggle to the first-write state.
#[verifier::rlimit(100)]
pub proof fn lemma_two_step_address_write(v: PrgRamView, high: u8, low: u8)
    requires
        v.wf(),
        !v.toggle,
    ensures
        ({
            let v2 = spec_set8(
                spec_set8(v, V_RAM_ADDRESS_REGISTER2, high),
                V_RAM_ADDRESS_REGISTER2,
                low,
            );
            &&& v2.current == (high % 64) * 0x100 + low
            &&& v2.temporary == (high % 64) * 0x100 + low
            &&& !v2.toggle
        }),
{
    let v1 = spec_set8(v, V_RAM_ADDRESS_REGISTER2, high);
    let t1 = v1.temporary;
    assert(t1 == v.temporary % 0x100 + (high % 64) * 0x100 && v1.toggle);
    lemma_pack_fields(v.temporary as int % 0x100, high as int % 64);
    assert(t1 / 0x100 == high % 64);
    let v2 = spec_set8(v1, V_RAM_ADDRESS_REGISTER2, low);
    let packed = spec_set_lower_8bits(t1, low);
    assert(packed == (high % 64) * 0x100 + low);
    assert(0 <= packed < 0x8000);
    assert(v2.current == packed as u16 % 0x8000 && v2.temporary == packed && !v2.toggle);
}

} // verus!
