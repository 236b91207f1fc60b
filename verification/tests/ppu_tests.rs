use nes::cpu::CpuRam;
use nes::cpu::PrgRam;
use nes::ppu::FineXScroll;
use nes::ppu::FirstOrSecondWriteToggle;
use nes::ppu::NesColor;
use nes::ppu::Ppu;
use nes::ppu::VRam;
use nes::ppu::VRamAddressRegister;
use nes::ppu::nes_color;

fn fresh_prg_ram() -> PrgRam {
    PrgRam::new(CpuRam::new(vec![0u8; 0x10000]), VRam::new(vec![0u8; 0x10000]))
}

#[test]
fn two_step_address_write_packs_the_register() {
    let mut prg_ram = fresh_prg_ram();
    prg_ram.set8(0x2006, 0x20);
    prg_ram.set8(0x2006, 0x00);
    assert_eq!(prg_ram.v_ram_address_register.value(), 0x2000);
    assert!(!prg_ram.first_or_second_write_toggle.is_true());
}

#[test]
fn data_port_accesses_advance_horizontally() {
    let mut prg_ram = fresh_prg_ram();
    prg_ram.set8(0x2006, 0x20);
    prg_ram.set8(0x2006, 0x00);
    // Bit 2 of the last 0x2000 write is clear, so each access adds one.
    prg_ram.read8(0x2007);
    prg_ram.read8(0x2007);
    prg_ram.read8(0x2007);
    assert_eq!(prg_ram.v_ram_address_register.value(), 0x2003);
}

#[test]
fn data_port_writes_land_in_v_ram_and_advance() {
    let mut prg_ram = fresh_prg_ram();
    prg_ram.set8(0x2006, 0x20);
    prg_ram.set8(0x2006, 0x00);
    prg_ram.set8(0x2007, 0xAA);
    prg_ram.set8(0x2007, 0xBB);
    assert_eq!(prg_ram.v_ram.get_value(0x2000), 0xAA);
    assert_eq!(prg_ram.v_ram.get_value(0x2001), 0xBB);
    assert_eq!(prg_ram.v_ram_address_register.value(), 0x2002);
}

#[test]
fn data_port_advances_vertically_when_control_bit_set() {
    let mut prg_ram = fresh_prg_ram();
    prg_ram.set8(0x2000, 0b00000100);
    prg_ram.set8(0x2006, 0x20);
    prg_ram.set8(0x2006, 0x00);
    prg_ram.set8(0x2007, 0x55);
    assert_eq!(prg_ram.v_ram_address_register.value(), 0x2020);
}

#[test]
fn control_write_selects_name_table() {
    let mut prg_ram = fresh_prg_ram();
    prg_ram.set8(0x2000, 0b00000011);
    assert_eq!(prg_ram.temporary_v_ram_address_register.name_table(), 0b11);
}

#[test]
fn scroll_writes_follow_the_toggle() {
    let mut prg_ram = fresh_prg_ram();
    prg_ram.set8(0x2005, 0b10101_101); // first write: coarse X and fine X
    assert_eq!(prg_ram.fine_x_scroll.0, 0b101);
    assert_eq!(prg_ram.temporary_v_ram_address_register.coarse_x_scroll(), 0b10101);
    assert!(prg_ram.first_or_second_write_toggle.is_true());
    prg_ram.set8(0x2005, 0b01011_010); // second write: coarse Y and fine Y
    assert_eq!(prg_ram.temporary_v_ram_address_register.fine_y_scroll(), 0b010);
    assert_eq!(prg_ram.temporary_v_ram_address_register.coarse_y_scroll(), 0b01011);
    assert!(!prg_ram.first_or_second_write_toggle.is_true());
}

#[test]
fn status_read_resets_the_toggle() {
    let mut prg_ram = fresh_prg_ram();
    prg_ram.set8(0x2005, 0x12); // toggle now expects the second write
    assert!(prg_ram.first_or_second_write_toggle.is_true());
    prg_ram.read8(0x2002);
    assert!(!prg_ram.first_or_second_write_toggle.is_true());
    prg_ram.set8(0x2005, 0b00010_001); // treated as a first write again
    assert_eq!(prg_ram.fine_x_scroll.0, 0b001);
    assert_eq!(prg_ram.temporary_v_ram_address_register.coarse_x_scroll(), 0b00010);
}

#[test]
fn address_register_field_setters_mask_their_values() {
    let mut reg = VRamAddressRegister::new();
    reg.set_coarse_x_scroll(0xFF);
    assert_eq!(reg.value(), 0b11111);
    reg.set_coarse_y_scroll(0xFF);
    assert_eq!(reg.coarse_y_scroll(), 0b11111);
    reg.set_name_table(0xFF);
    assert_eq!(reg.name_table(), 0b11);
    reg.set_fine_y_scroll(0xFF);
    assert_eq!(reg.fine_y_scroll(), 0b111);
    assert!(reg.value() < 0x8000);
}

#[test]
fn address_register_upper_and_lower_writes() {
    let mut reg = VRamAddressRegister::new();
    reg.set_upper_6bits(0x3F);
    reg.set_lower_8bits(0xFF);
    assert_eq!(reg.value(), 0x3FFF);
    reg.set_full_15bits(0x8123);
    assert_eq!(reg.value(), 0x0123);
}

#[test]
fn address_register_increments_wrap() {
    let mut reg = VRamAddressRegister::new();
    reg.set_full_15bits(0x7FFF);
    reg.increment_x();
    assert_eq!(reg.value(), 0x0000);
    reg.set_full_15bits(0x7FF0);
    reg.increment_y();
    assert_eq!(reg.value(), 0x0010);
}

#[test]
fn fine_x_scroll_masks_to_three_bits() {
    let mut fine_x = FineXScroll::new(0xFF);
    assert_eq!(fine_x.0, 0b111);
    fine_x.set_value(0b1010);
    assert_eq!(fine_x.0, 0b010);
}

#[test]
fn write_toggle_flips_and_resets() {
    let mut toggle = FirstOrSecondWriteToggle::new();
    assert!(!toggle.is_true());
    toggle.toggle();
    assert!(toggle.is_true());
    toggle.toggle();
    assert!(!toggle.is_true());
    toggle.set(true);
    assert!(toggle.is_true());
    toggle.set(false);
    assert!(!toggle.is_true());
}

#[test]
fn timing_wraps_within_a_scanline() {
    let v_ram = VRam::new(vec![0u8; 0x10000]);
    let mut ppu = Ppu::new();
    ppu.set_timing(0, 0);
    for _ in 0..341 {
        ppu.step(&v_ram);
    }
    assert_eq!(ppu.scanline, 1);
    assert_eq!(ppu.cycle, 0);
}

#[test]
fn timing_wraps_at_the_end_of_the_frame() {
    let v_ram = VRam::new(vec![0u8; 0x10000]);
    let mut ppu = Ppu::new();
    ppu.set_timing(261, 340);
    ppu.step(&v_ram);
    assert_eq!(ppu.scanline, -1);
    assert_eq!(ppu.cycle, 0);
}

#[test]
fn pixels_are_emitted_only_on_visible_cycles() {
    let v_ram = VRam::new(vec![0u8; 0x10000]);
    let mut ppu = Ppu::new();
    ppu.set_timing(0, 0);
    assert!(ppu.step(&v_ram).is_none()); // cycle 0 is idle
    let px = ppu.step(&v_ram).unwrap(); // cycle 1 emits pixel (0, 0)
    assert_eq!((px.x, px.y), (0, 0));
    ppu.set_timing(0, 257);
    assert!(ppu.step(&v_ram).is_none());
    ppu.set_timing(240, 1);
    assert!(ppu.step(&v_ram).is_none());
    ppu.set_timing(-1, 1);
    assert!(ppu.step(&v_ram).is_none());
}

#[test]
fn zeroed_v_ram_gives_the_first_palette_colour() {
    let v_ram = VRam::new(vec![0u8; 0x10000]);
    let mut ppu = Ppu::new();
    ppu.set_timing(0, 1);
    let px = ppu.step(&v_ram).unwrap();
    assert_eq!(px.color, NesColor { r: 0x80, g: 0x80, b: 0x80, a: 0xFF });
}

#[test]
fn colour_table_exact_entries() {
    assert_eq!(nes_color(0), NesColor { r: 0x80, g: 0x80, b: 0x80, a: 0xFF });
    assert_eq!(nes_color(1), NesColor { r: 0x00, g: 0x3D, b: 0xA6, a: 0xFF });
    assert_eq!(nes_color(32), NesColor { r: 0xFF, g: 0xFF, b: 0xFF, a: 0xFF });
    assert_eq!(nes_color(63), NesColor { r: 0x11, g: 0x11, b: 0x11, a: 0xFF });
}

#[test]
fn palette_number_decodes_quadrants() {
    let mut ppu = Ppu::new();
    ppu.attr_value_register = 0b11_10_01_00;
    assert_eq!(ppu.palette_num(0, 0), 0b00); // top-left
    assert_eq!(ppu.palette_num(16, 0), 0b01); // top-right
    assert_eq!(ppu.palette_num(0, 16), 0b10); // bottom-left
    assert_eq!(ppu.palette_num(16, 16), 0b11); // bottom-right
}

#[test]
fn idx_in_palette_reads_the_register_msbs() {
    let mut ppu = Ppu::new();
    ppu.set_tile_register_high(0b10000000, 0x00);
    ppu.set_tile_register_low(0b00000000, 0x00);
    assert_eq!(ppu.idx_in_palette(), 0b10);
    ppu.set_tile_register_high(0b10000000, 0x00);
    ppu.set_tile_register_low(0b10000000, 0x00);
    assert_eq!(ppu.idx_in_palette(), 0b11);
    ppu.set_tile_register_high(0b00000000, 0x00);
    ppu.set_tile_register_low(0b10000000, 0x00);
    assert_eq!(ppu.idx_in_palette(), 0b01);
    // A bit at the top of the low byte is not yet at the front.
    ppu.set_tile_register_high(0x00, 0b10000000);
    ppu.set_tile_register_low(0x00, 0b10000000);
    assert_eq!(ppu.idx_in_palette(), 0b00);
}

#[test]
fn shifting_moves_the_whole_register_left() {
    let mut ppu = Ppu::new();
    ppu.set_tile_register_high(0x01, 0x80);
    ppu.set_tile_register_low(0xCD, 0xC0);
    ppu.shift_tile_registers();
    assert_eq!(ppu.tile_register_high, 0x0300);
    assert_eq!(ppu.tile_register_low, 0x9B80); // the old top bit drops out
    ppu.shift_tile_registers();
    assert_eq!(ppu.tile_register_high, 0x0600);
    assert_eq!(ppu.tile_register_low, 0x3700);
}

#[test]
fn reload_fetches_new_pattern_bytes_into_the_low_bytes() {
    let mut v_ram_bytes = vec![0u8; 0x10000];
    // Tile 2 covers pixel (8, 0): name table entry 1 holds 2.
    v_ram_bytes[0x2001] = 2;
    // Pattern bytes of tile 2, row 0.
    v_ram_bytes[2 * 16] = 0x5A; // high pattern byte
    v_ram_bytes[2 * 16 + 8] = 0xA5; // low pattern byte
    let v_ram = VRam::new(v_ram_bytes);
    let mut ppu = Ppu::new();
    ppu.set_tile_register_high(0x11, 0x22);
    ppu.set_tile_register_low(0x33, 0x44);
    ppu.load_tile_registers(&v_ram, 8, 0);
    // The high bytes, still being emitted, stay; the fetches enter below.
    assert_eq!(ppu.tile_register_high_upper_value(), 0x11);
    assert_eq!(ppu.tile_register_high_lower_value(), 0x5A);
    assert_eq!(ppu.tile_register_low_upper_value(), 0x33);
    assert_eq!(ppu.tile_register_low_lower_value(), 0xA5);
}

#[test]
fn prefetch_loads_the_first_two_tiles() {
    let mut v_ram_bytes = vec![0u8; 0x10000];
    // The line's first two tiles: name table entries 0 and 1.
    v_ram_bytes[0x2000] = 2;
    v_ram_bytes[0x2001] = 3;
    // Pattern bytes of tiles 2 and 3, row 0.
    v_ram_bytes[2 * 16] = 0x5A;
    v_ram_bytes[2 * 16 + 8] = 0xA5;
    v_ram_bytes[3 * 16] = 0x66;
    v_ram_bytes[3 * 16 + 8] = 0x77;
    let v_ram = VRam::new(v_ram_bytes);
    let mut ppu = Ppu::new();
    ppu.set_timing(0, 321);
    ppu.step(&v_ram);
    // The first tile sits above, ready to emit first.
    assert_eq!(ppu.tile_register_high, 0x5A66);
    assert_eq!(ppu.tile_register_low, 0xA577);
}

#[test]
fn attribute_latch_loads_from_the_attribute_table() {
    let mut v_ram_bytes = vec![0u8; 0x10000];
    v_ram_bytes[0x23C0] = 0xE4;
    v_ram_bytes[0x23C1] = 0x1B;
    let v_ram = VRam::new(v_ram_bytes);
    let mut ppu = Ppu::new();
    ppu.load_attr_value_register(&v_ram, 0, 0);
    assert_eq!(ppu.attr_value_register, 0xE4);
    ppu.load_attr_value_register(&v_ram, 32, 0);
    assert_eq!(ppu.attr_value_register, 0x1B);
}

#[test]
fn v_ram_round_trip() {
    let mut v_ram = VRam::new(vec![0u8; 0x10000]);
    v_ram.set(0x3F00, 7);
    assert_eq!(v_ram.get_value(0x3F00), 7);
}
