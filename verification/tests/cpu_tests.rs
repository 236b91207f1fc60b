use nes::cpu::AddressingMode;
use nes::cpu::Cpu;
use nes::cpu::CpuError;
use nes::cpu::CpuRam;
use nes::cpu::IndexRegister;
use nes::cpu::OpCode;
use nes::cpu::Operand;
use nes::cpu::PrgRam;
use nes::ppu::VRam;

fn fresh_cpu() -> Cpu {
    let memory = CpuRam::new(vec![0u8; 0x10000]);
    let v_ram = VRam::new(vec![0u8; 0x10000]);
    Cpu::new(PrgRam::new(memory, v_ram))
}

#[test]
fn decode_table_supported_opcodes() {
    let table: Vec<(u8, OpCode, AddressingMode, Option<IndexRegister>)> = vec![
        (0x20, OpCode::JSR, AddressingMode::Absolute, None),
        (0x21, OpCode::AND, AddressingMode::IndexedIndirect, None),
        (0x4C, OpCode::JMP, AddressingMode::Absolute, None),
        (0x78, OpCode::SEI, AddressingMode::Implied, None),
        (0x88, OpCode::DEY, AddressingMode::Implied, None),
        (0x8D, OpCode::STA, AddressingMode::Absolute, None),
        (0x9A, OpCode::TXS, AddressingMode::Implied, None),
        (0xA0, OpCode::LDY, AddressingMode::Immediate, None),
        (0xA2, OpCode::LDX, AddressingMode::Immediate, None),
        (0xA9, OpCode::LDA, AddressingMode::Immediate, None),
        (0xBD, OpCode::LDA, AddressingMode::Absolute, Some(IndexRegister::X)),
        (0xD0, OpCode::BNE, AddressingMode::Relative, None),
        (0xE8, OpCode::INX, AddressingMode::Implied, None),
    ];
    for (byte, op, mode, register) in table {
        let decoded = Cpu::parse_instruction(byte).unwrap();
        assert_eq!(decoded, (op, mode, register));
        // Decoding is deterministic: a second decode gives the same answer.
        assert_eq!(Cpu::parse_instruction(byte).unwrap(), (op, mode, register));
    }
}

#[test]
fn decode_table_unknown_opcodes() {
    for byte in 0u16..=255u16 {
        let byte = byte as u8;
        let supported = matches!(
            byte,
            0x20 | 0x21 | 0x4C | 0x78 | 0x88 | 0x8D | 0x9A | 0xA0 | 0xA2 | 0xA9 | 0xBD | 0xD0
                | 0xE8
        );
        let decoded = Cpu::parse_instruction(byte);
        if supported {
            assert!(decoded.is_ok());
        } else {
            let err = decoded.unwrap_err();
            assert_eq!(err.byte, byte);
        }
    }
}

#[test]
fn inx_wraps_and_sets_zero_flag() {
    let mut cpu = fresh_cpu();
    cpu.x = 0xFF;
    cpu.inx();
    assert_eq!(cpu.x, 0x00);
    assert!(cpu.get_zero_flag());
}

#[test]
fn inx_clears_zero_flag_on_other_values() {
    let mut cpu = fresh_cpu();
    cpu.p = 0b00000010;
    cpu.x = 0x41;
    cpu.inx();
    assert_eq!(cpu.x, 0x42);
    assert!(!cpu.get_zero_flag());
    cpu.x = 0x00;
    cpu.inx();
    assert_eq!(cpu.x, 0x01);
    assert!(!cpu.get_zero_flag());
}

#[test]
fn dey_wraps_and_drives_zero_flag() {
    let mut cpu = fresh_cpu();
    cpu.y = 0x01;
    cpu.dey();
    assert_eq!(cpu.y, 0x00);
    assert!(cpu.get_zero_flag());
    cpu.dey();
    assert_eq!(cpu.y, 0xFF);
    assert!(!cpu.get_zero_flag());
}

#[test]
fn and_with_zero_always_sets_zero_flag() {
    for a in [0x00u8, 0x01, 0x42, 0x80, 0xFF] {
        let mut cpu = fresh_cpu();
        cpu.a = a;
        cpu.and(Operand::Value(0x00)).unwrap();
        assert_eq!(cpu.a, 0x00);
        assert!(cpu.get_zero_flag());
    }
}

#[test]
fn and_combines_bitwise() {
    let mut cpu = fresh_cpu();
    cpu.a = 0b11001100;
    cpu.and(Operand::Value(0b10101010)).unwrap();
    assert_eq!(cpu.a, 0b10001000);
    assert!(!cpu.get_zero_flag());
}

#[test]
fn and_rejects_address_operand() {
    let mut cpu = fresh_cpu();
    let err = cpu.and(Operand::Index(0x1234)).unwrap_err();
    assert_eq!(err.op_code, OpCode::AND);
}

#[test]
fn sta_rejects_value_operand() {
    let mut cpu = fresh_cpu();
    let err = cpu.sta(Operand::Value(7)).unwrap_err();
    assert_eq!(err.op_code, OpCode::STA);
}

#[test]
fn sta_stores_accumulator() {
    let mut cpu = fresh_cpu();
    cpu.a = 0x5A;
    cpu.sta(Operand::Index(0x0123)).unwrap();
    assert_eq!(cpu.get_prg_ram_value(0x0123), 0x5A);
}

#[test]
fn sei_sets_interrupt_disable() {
    let mut cpu = fresh_cpu();
    cpu.sei();
    assert_eq!(cpu.p & 0b00000100, 0b00000100);
}

#[test]
fn txs_copies_x_into_stack_pointer() {
    let mut cpu = fresh_cpu();
    cpu.x = 0x37;
    cpu.sp = 0xFF;
    cpu.txs();
    assert_eq!(cpu.sp, 0x37);
    assert_eq!(cpu.x, 0x37);
}

#[test]
fn relative_addressing_negative_offset() {
    let mut cpu = fresh_cpu();
    cpu.pc = 0x8010;
    cpu.prg_ram.memory.set8(0x8010, 0xFE);
    let operand = cpu.get_operand(AddressingMode::Relative, None).unwrap();
    assert_eq!(operand, Some(Operand::Index(0x800F)));
    assert_eq!(cpu.pc, 0x8011);
}

#[test]
fn relative_addressing_positive_offset() {
    let mut cpu = fresh_cpu();
    cpu.pc = 0x8010;
    cpu.prg_ram.memory.set8(0x8010, 0x7F);
    let operand = cpu.get_operand(AddressingMode::Relative, None).unwrap();
    assert_eq!(operand, Some(Operand::Index(0x8090)));
}

#[test]
fn absolute_addressing_little_endian() {
    let mut cpu = fresh_cpu();
    cpu.pc = 0x8000;
    cpu.prg_ram.memory.set8(0x8000, 0x34);
    cpu.prg_ram.memory.set8(0x8001, 0x12);
    let operand = cpu.get_operand(AddressingMode::Absolute, None).unwrap();
    assert_eq!(operand, Some(Operand::Index(0x1234)));
    assert_eq!(cpu.pc, 0x8002);
}

#[test]
fn absolute_addressing_adds_x() {
    let mut cpu = fresh_cpu();
    cpu.pc = 0x8000;
    cpu.x = 0x10;
    cpu.prg_ram.memory.set8(0x8000, 0x34);
    cpu.prg_ram.memory.set8(0x8001, 0x12);
    let operand = cpu
        .get_operand(AddressingMode::Absolute, Some(IndexRegister::X))
        .unwrap();
    assert_eq!(operand, Some(Operand::Index(0x1244)));
}

#[test]
fn indexed_indirect_reads_through_zero_page() {
    let mut cpu = fresh_cpu();
    cpu.pc = 0x8000;
    cpu.x = 0x04;
    cpu.prg_ram.memory.set8(0x8000, 0x20); // base
    cpu.prg_ram.memory.set8(0x0024, 0x78); // pointer low at 0x20 + 0x04
    cpu.prg_ram.memory.set8(0x0025, 0x06); // pointer high
    cpu.prg_ram.memory.set8(0x0678, 0x99); // pointed-to value
    let operand = cpu.get_operand(AddressingMode::IndexedIndirect, None).unwrap();
    assert_eq!(operand, Some(Operand::Value(0x99)));
    assert_eq!(cpu.pc, 0x8001);
}

#[test]
fn unsupported_addressing_mode_is_an_error() {
    let mut cpu = fresh_cpu();
    let err = cpu.get_operand(AddressingMode::ZeroPage, None).unwrap_err();
    assert_eq!(err.addressing_mode, AddressingMode::ZeroPage);
    let err = cpu
        .get_operand(AddressingMode::Absolute, Some(IndexRegister::Y))
        .unwrap_err();
    assert_eq!(err.addressing_mode, AddressingMode::Absolute);
    assert_eq!(err.index_register, Some(IndexRegister::Y));
}

#[test]
fn jsr_pushes_return_address_and_jumps() {
    let mut cpu = fresh_cpu();
    cpu.pc = 0x8100;
    cpu.sp = 0xFF;
    cpu.jsr(Operand::Index(0x9000)).unwrap();
    assert_eq!(cpu.get_prg_ram_value(0x01FF), 0x80);
    assert_eq!(cpu.get_prg_ram_value(0x01FE), 0xFF);
    assert_eq!(cpu.sp, 0xFD);
    assert_eq!(cpu.pc, 0x9000);
}

#[test]
fn bne_branches_only_when_zero_flag_clear() {
    let mut cpu = fresh_cpu();
    cpu.pc = 0x8002;
    cpu.p = 0b00000000;
    cpu.bne(Operand::Index(0x9000)).unwrap();
    assert_eq!(cpu.pc, 0x9000);

    let mut cpu = fresh_cpu();
    cpu.pc = 0x8002;
    cpu.p = 0b00000010;
    cpu.bne(Operand::Index(0x9000)).unwrap();
    assert_eq!(cpu.pc, 0x8002);
}

#[test]
fn jmp_sets_program_counter() {
    let mut cpu = fresh_cpu();
    cpu.jmp(Operand::Index(0xC123)).unwrap();
    assert_eq!(cpu.pc, 0xC123);
}

#[test]
fn lda_immediate_and_from_memory() {
    let mut cpu = fresh_cpu();
    cpu.lda(Operand::Value(0x7E));
    assert_eq!(cpu.a, 0x7E);
    cpu.prg_ram.memory.set8(0x4321, 0x11);
    cpu.lda(Operand::Index(0x4321));
    assert_eq!(cpu.a, 0x11);
}

#[test]
fn step_executes_one_immediate_load() {
    let mut cpu = fresh_cpu();
    cpu.prg_ram.memory.set8(0x8000, 0xA9); // LDA immediate
    cpu.prg_ram.memory.set8(0x8001, 0x42);
    cpu.step().unwrap();
    assert_eq!(cpu.a, 0x42);
    assert_eq!(cpu.pc, 0x8002);
}

#[test]
fn step_reports_unknown_opcode_and_changes_nothing() {
    let mut cpu = fresh_cpu();
    cpu.prg_ram.memory.set8(0x8000, 0xFF);
    cpu.a = 0x21;
    let err = cpu.step().unwrap_err();
    match err {
        CpuError::UnknownOpcode { byte, pc, registers } => {
            assert_eq!(byte, 0xFF);
            assert_eq!(pc, 0x8000);
            assert_eq!(registers.a, 0x21);
            assert_eq!(registers.pc, 0x8000);
        }
        other => panic!("unexpected error: {:?}", other),
    }
    assert_eq!(cpu.pc, 0x8000);
    assert_eq!(cpu.a, 0x21);
}

#[test]
fn run_executes_a_small_program() {
    // LDX #$10; INX; INX; then an undecodable byte stops the run.
    let mut cpu = fresh_cpu();
    cpu.prg_ram.memory.set8(0x8000, 0xA2);
    cpu.prg_ram.memory.set8(0x8001, 0x10);
    cpu.prg_ram.memory.set8(0x8002, 0xE8);
    cpu.prg_ram.memory.set8(0x8003, 0xE8);
    cpu.prg_ram.memory.set8(0x8004, 0x02);
    cpu.run(3).unwrap();
    assert_eq!(cpu.x, 0x12);
    assert_eq!(cpu.pc, 0x8004);
    let err = cpu.run(1).unwrap_err();
    assert!(matches!(err, CpuError::UnknownOpcode { byte: 0x02, pc: 0x8004, .. }));
    assert_eq!(cpu.pc, 0x8004);
}

#[test]
fn reset_saves_state_and_loads_vector() {
    let mut cpu = fresh_cpu();
    cpu.sp = 0x80;
    cpu.p = 0x31;
    cpu.pc = 0xABCD;
    cpu.prg_ram.memory.set8(0xFFFC, 0x00);
    cpu.prg_ram.memory.set8(0xFFFD, 0x80);
    cpu.reset();
    assert_eq!(cpu.get_prg_ram_value(0x017E), 0x31); // saved status byte
    assert_eq!(cpu.get_prg_ram_value(0x017F), 0xCD); // saved pc low byte
    assert_eq!(cpu.get_prg_ram_value(0x0180), 0xAB); // saved pc high byte
    assert_eq!(cpu.p, 0x31 | 0b00000100);
    assert_eq!(cpu.pc, 0x8000);
}

#[test]
fn cpu_ram_byte_and_word_access() {
    let mut ram = CpuRam::new(vec![0u8; 0x10000]);
    ram.set8(0x1234, 0xAB);
    assert_eq!(ram.fetch8(0x1234), 0xAB);
    ram.set16((0x2000, 0x2001), 0xBEEF);
    assert_eq!(ram.fetch8(0x2000), 0xEF);
    assert_eq!(ram.fetch8(0x2001), 0xBE);
    assert_eq!(ram.fetch16((0x2000, 0x2001)), 0xBEEF);
}

#[test]
fn concat_and_split_addresses() {
    assert_eq!(PrgRam::concat_addresses(0x12, 0x34), 0x1234);
    assert_eq!(PrgRam::split_address(0x1234), (0x12, 0x34));
    assert_eq!(PrgRam::concat_addresses(0x01, 0xFF), 0x01FF);
}

#[test]
fn step_with_indexed_indirect_and() {
    // AND ($20,X) with X = 4: pointer at 0x24/0x25 -> 0x0678 holding 0x0F.
    let mut cpu = fresh_cpu();
    cpu.a = 0x3C;
    cpu.x = 0x04;
    cpu.prg_ram.memory.set8(0x8000, 0x21);
    cpu.prg_ram.memory.set8(0x8001, 0x20);
    cpu.prg_ram.memory.set8(0x0024, 0x78);
    cpu.prg_ram.memory.set8(0x0025, 0x06);
    cpu.prg_ram.memory.set8(0x0678, 0x0F);
    cpu.step().unwrap();
    assert_eq!(cpu.a, 0x0C);
    assert_eq!(cpu.pc, 0x8002);
    assert!(!cpu.get_zero_flag());
}

#[test]
fn run_executes_a_branch_loop() {
    // LDX #$FE, then INX; BNE -3 until X wraps to zero.
    let mut cpu = fresh_cpu();
    cpu.prg_ram.memory.set8(0x8000, 0xA2);
    cpu.prg_ram.memory.set8(0x8001, 0xFE);
    cpu.prg_ram.memory.set8(0x8002, 0xE8);
    cpu.prg_ram.memory.set8(0x8003, 0xD0);
    cpu.prg_ram.memory.set8(0x8004, 0xFD);
    cpu.run(5).unwrap();
    assert_eq!(cpu.x, 0x00);
    assert!(cpu.get_zero_flag());
    assert_eq!(cpu.pc, 0x8005);
}
