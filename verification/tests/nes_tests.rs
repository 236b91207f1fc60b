use nes::nes::LoadError;
use nes::nes::Nes;
use nes::tv::Tv;

fn load_error(data: &Vec<u8>) -> LoadError {
    match Nes::new(data) {
        Ok(_) => panic!("expected a load error"),
        Err(e) => e,
    }
}

/// A cartridge image: 16-byte header, `prg_banks` PRG banks filled by
/// `prg_fill`, `chr_banks` CHR banks filled by `chr_fill`.
fn cartridge(
    prg_banks: u8,
    chr_banks: u8,
    prg_fill: fn(usize) -> u8,
    chr_fill: fn(usize) -> u8,
) -> Vec<u8> {
    let mut data = vec![0u8; 16];
    data[4] = prg_banks;
    data[5] = chr_banks;
    for i in 0..(prg_banks as usize) * 0x4000 {
        data.push(prg_fill(i));
    }
    for i in 0..(chr_banks as usize) * 0x2000 {
        data.push(chr_fill(i));
    }
    data
}

#[test]
fn single_bank_is_mirrored_across_both_windows() {
    let data = cartridge(1, 0, |i| (i % 251) as u8, |_| 0);
    let nes = Nes::new(&data).unwrap();
    for i in 0..0x4000u32 {
        let lower = nes.cpu.get_prg_ram_value(0x8000 + i as u16);
        let upper = nes.cpu.get_prg_ram_value(0xC000u16.wrapping_add(i as u16));
        assert_eq!(lower, upper);
        assert_eq!(lower, (i as usize % 251) as u8);
    }
}

#[test]
fn two_banks_are_laid_out_contiguously() {
    let data = cartridge(2, 0, |i| if i < 0x4000 { 0x11 } else { 0x22 }, |_| 0);
    let nes = Nes::new(&data).unwrap();
    assert_eq!(nes.cpu.get_prg_ram_value(0x8000), 0x11);
    assert_eq!(nes.cpu.get_prg_ram_value(0xBFFF), 0x11);
    assert_eq!(nes.cpu.get_prg_ram_value(0xC000), 0x22);
    assert_eq!(nes.cpu.get_prg_ram_value(0xFFFF), 0x22);
}

#[test]
fn chr_bytes_land_at_the_bottom_of_v_ram() {
    let data = cartridge(1, 1, |_| 0, |i| (i % 13) as u8);
    let nes = Nes::new(&data).unwrap();
    for i in [0u16, 1, 12, 13, 0x1FFF] {
        assert_eq!(
            nes.cpu.prg_ram.v_ram.get_value(i),
            (i as usize % 13) as u8
        );
    }
    assert_eq!(nes.cpu.prg_ram.v_ram.get_value(0x2000), 0);
}

#[test]
fn load_rejects_short_header() {
    let data = vec![0u8; 15];
    assert_eq!(load_error(&data), LoadError::HeaderTooShort);
}

#[test]
fn load_rejects_missing_prg_rom() {
    let data = vec![0u8; 16];
    assert_eq!(load_error(&data), LoadError::NoPrgRom);
}

#[test]
fn load_rejects_oversized_chr_rom() {
    let mut data = vec![0u8; 16];
    data[4] = 1;
    data[5] = 9;
    assert_eq!(load_error(&data), LoadError::ChrTooLarge);
}

#[test]
fn load_rejects_truncated_image() {
    let mut data = vec![0u8; 16 + 0x4000 - 1];
    data[4] = 1;
    assert_eq!(load_error(&data), LoadError::DataTooShort);
}

#[test]
fn new_console_starts_at_the_mapped_rom_base() {
    let data = cartridge(1, 0, |_| 0xEA, |_| 0);
    let nes = Nes::new(&data).unwrap();
    assert_eq!(nes.cpu.pc, 0x8000);
    assert_eq!(nes.cpu.a, 0);
    assert_eq!(nes.ppu.scanline, -1);
    assert_eq!(nes.ppu.cycle, 0);
}

#[test]
fn scheduler_steps_cpu_once_and_ppu_three_times() {
    // The single bank holds LDA #$42 at the reset base.
    let data = cartridge(
        1,
        0,
        |i| match i {
            0 => 0xA9,
            1 => 0x42,
            _ => 0xA9, // further LDA opcodes keep later steps decodable
        },
        |_| 0,
    );
    let mut nes = Nes::new(&data).unwrap();
    // Put the PPU at the start of a visible line: cycles 0,1,2 emit one
    // pixel (cycle 0 is idle, cycles 1 and 2 each emit one).
    nes.ppu.set_timing(0, 0);
    let pixels = nes.step().unwrap();
    assert_eq!(nes.cpu.a, 0x42);
    assert_eq!(nes.cpu.pc, 0x8002);
    assert_eq!(nes.ppu.cycle, 3);
    assert_eq!(nes.ppu.scanline, 0);
    assert_eq!(pixels.len(), 2);
    assert_eq!((pixels[0].x, pixels[0].y), (0, 0));
    assert_eq!((pixels[1].x, pixels[1].y), (1, 0));
}

#[test]
fn scheduler_halts_on_a_cpu_error_without_moving_the_ppu() {
    let data = cartridge(1, 0, |_| 0xFF, |_| 0);
    let mut nes = Nes::new(&data).unwrap();
    nes.ppu.set_timing(0, 0);
    assert!(nes.step().is_err());
    assert_eq!(nes.ppu.cycle, 0);
    assert_eq!(nes.cpu.pc, 0x8000);
}

#[test]
fn television_defaults_to_unscaled_pixels() {
    let tv = Tv::new();
    assert_eq!(tv.size, 1);
}

#[test]
fn cpu_store_drives_the_ppu_ports() {
    // LDA #$20; STA $2006; LDA #$00; STA $2006; LDA #$77; STA $2007
    let program: Vec<u8> = vec![
        0xA9, 0x20, 0x8D, 0x06, 0x20, // LDA #$20; STA $2006
        0xA9, 0x00, 0x8D, 0x06, 0x20, // LDA #$00; STA $2006
        0xA9, 0x77, 0x8D, 0x07, 0x20, // LDA #$77; STA $2007
    ];
    let mut data = cartridge(1, 0, |_| 0xEA, |_| 0);
    for (i, byte) in program.iter().enumerate() {
        data[16 + i] = *byte;
    }
    let mut nes = Nes::new(&data).unwrap();
    for _ in 0..6 {
        nes.step().unwrap();
    }
    assert_eq!(nes.cpu.prg_ram.v_ram.get_value(0x2000), 0x77);
    assert_eq!(nes.cpu.prg_ram.v_ram_address_register.value(), 0x2001);
}

#[test]
fn cpu_load_reads_through_the_data_port() {
    // LDX #$00; LDA $2007,X reads VRAM at the current address and advances it.
    let program: Vec<u8> = vec![
        0xA2, 0x00, // LDX #$00
        0xBD, 0x07, 0x20, // LDA $2007,X
    ];
    let mut data = cartridge(1, 1, |_| 0xEA, |_| 0);
    for (i, byte) in program.iter().enumerate() {
        data[16 + i] = *byte;
    }
    // First CHR byte, which lands at VRAM address 0, holds a marker.
    data[16 + 0x4000] = 0x5E;
    let mut nes = Nes::new(&data).unwrap();
    nes.step().unwrap();
    nes.step().unwrap();
    assert_eq!(nes.cpu.a, 0x5E);
    assert_eq!(nes.cpu.prg_ram.v_ram_address_register.value(), 0x0001);
}
