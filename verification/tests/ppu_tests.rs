use std::rc::Rc;
use lib::cartridge::Cartridge;
use lib::ppu::{Mirroring, Ppu, PpuRegister};

fn ppu_with_cartridge(mirroring: Mirroring) -> Ppu {
    let mut character_rom = [0u8; 8192];
    character_rom[0x0005] = 0x99;
    character_rom[0x1234] = 0x12;
    let mut ppu = Ppu::new();
    ppu.connect_cartridge(Rc::new(Cartridge::new([0u8; 32768], character_rom, mirroring)));
    ppu
}

/// Points the VRAM address at `high:low`: it takes effect at the end of the next dot.
fn set_address(ppu: &mut Ppu, high: u8, low: u8) {
    ppu.write_register(PpuRegister::PpuAddr, high);
    ppu.write_register(PpuRegister::PpuAddr, low);
    ppu.cycle();
}

#[test]
fn ppu_data_reads_back_what_it_wrote() {
    let mut ppu = ppu_with_cartridge(Mirroring::Horizontal);
    set_address(&mut ppu, 0x20, 0x05);
    ppu.write_register(PpuRegister::PpuData, 0x42);
    assert_eq!(ppu.read_register(PpuRegister::PpuData), 0x42);
}

#[test]
fn ppu_data_reads_the_character_rom_below_0x2000() {
    let mut ppu = ppu_with_cartridge(Mirroring::Horizontal);
    set_address(&mut ppu, 0x12, 0x34);
    assert_eq!(ppu.read_register(PpuRegister::PpuData), 0x12);
    // writes there change nothing
    ppu.write_register(PpuRegister::PpuData, 0x77);
    assert_eq!(ppu.read_register(PpuRegister::PpuData), 0x12);
}

#[test]
fn horizontal_mirroring_pairs_2000_with_2400() {
    let mut ppu = ppu_with_cartridge(Mirroring::Horizontal);
    set_address(&mut ppu, 0x20, 0x05);
    ppu.write_register(PpuRegister::PpuData, 0x42);
    set_address(&mut ppu, 0x24, 0x05);
    assert_eq!(ppu.read_register(PpuRegister::PpuData), 0x42);
    set_address(&mut ppu, 0x28, 0x05);
    assert_eq!(ppu.read_register(PpuRegister::PpuData), 0x00);
    set_address(&mut ppu, 0x30, 0x05);
    assert_eq!(ppu.read_register(PpuRegister::PpuData), 0x42);
}

#[test]
fn vertical_mirroring_pairs_2000_with_2800() {
    let mut ppu = ppu_with_cartridge(Mirroring::Vertical);
    set_address(&mut ppu, 0x20, 0x05);
    ppu.write_register(PpuRegister::PpuData, 0x42);
    set_address(&mut ppu, 0x28, 0x05);
    assert_eq!(ppu.read_register(PpuRegister::PpuData), 0x42);
    set_address(&mut ppu, 0x24, 0x05);
    assert_eq!(ppu.read_register(PpuRegister::PpuData), 0x00);
}

#[test]
fn palette_repeats_every_32_bytes() {
    let mut ppu = ppu_with_cartridge(Mirroring::Vertical);
    set_address(&mut ppu, 0x3f, 0x01);
    ppu.write_register(PpuRegister::PpuData, 0x2c);
    set_address(&mut ppu, 0x3f, 0x21);
    assert_eq!(ppu.read_register(PpuRegister::PpuData), 0x2c);
}

#[test]
fn ppu_addr_ignores_bit_14_of_the_high_byte() {
    let mut ppu = ppu_with_cartridge(Mirroring::Vertical);
    set_address(&mut ppu, 0x12, 0x34);
    assert_eq!(ppu.read_register(PpuRegister::PpuData), 0x12);
    set_address(&mut ppu, 0x52, 0x34);
    assert_eq!(ppu.read_register(PpuRegister::PpuData), 0x12);
}

#[test]
fn scroll_and_address_share_the_write_toggle() {
    let mut ppu = ppu_with_cartridge(Mirroring::Vertical);
    ppu.write_register(PpuRegister::PpuScroll, 0x00);
    // this write is taken as the low byte of the address
    ppu.write_register(PpuRegister::PpuAddr, 0x05);
    ppu.cycle();
    assert_eq!(ppu.read_register(PpuRegister::PpuData), 0x99);
}

#[test]
fn status_read_shows_the_top_bits_over_the_bus() {
    let mut ppu = ppu_with_cartridge(Mirroring::Vertical);
    ppu.write_register(PpuRegister::PpuMask, 0xff);
    assert_eq!(ppu.read_register(PpuRegister::PpuStatus), 0x1f);
    ppu.write_register(PpuRegister::PpuCtrl, 0x00);
    assert_eq!(ppu.read_register(PpuRegister::PpuStatus), 0x00);
    // reads of write-only registers give the I/O bus
    ppu.write_register(PpuRegister::PpuMask, 0x5a);
    assert_eq!(ppu.read_register(PpuRegister::PpuCtrl), 0x5a);
    assert_eq!(ppu.read_register(PpuRegister::PpuScroll), 0x5a);
}

#[test]
fn oam_data_round_trip() {
    let mut ppu = ppu_with_cartridge(Mirroring::Vertical);
    ppu.write_register(PpuRegister::OamAddr, 0x10);
    ppu.write_register(PpuRegister::OamData, 0x77);
    ppu.write_register(PpuRegister::OamData, 0x78);
    ppu.write_register(PpuRegister::OamAddr, 0x10);
    assert_eq!(ppu.read_register(PpuRegister::OamData), 0x77);
    ppu.write_register(PpuRegister::OamAddr, 0x11);
    assert_eq!(ppu.read_register(PpuRegister::OamData), 0x78);
}

#[test]
fn a_pre_render_line_scrolls_the_address_and_restores_it_from_t() {
    let mut ppu = ppu_with_cartridge(Mirroring::Vertical);
    set_address(&mut ppu, 0x20, 0x07); // dot 0
    ppu.write_register(PpuRegister::PpuData, 0x66);
    set_address(&mut ppu, 0x20, 0x05); // dot 1
    for _ in 2..=340 {
        ppu.cycle();
    }
    // 31 tile steps then the copy of t at dot 257 and 280-304, then two tile steps
    assert_eq!(ppu.read_register(PpuRegister::PpuData), 0x66);
}

#[test]
fn nine_sprites_on_a_line_set_the_overflow_flag() {
    // every OAM byte is 0, so all 64 sprites cover scanlines 0 to 7
    let mut ppu = ppu_with_cartridge(Mirroring::Vertical);
    for _ in 0..341 {
        ppu.cycle(); // the pre-render scanline, from dot 0 to dot 340
    }
    for _ in 0..128 {
        ppu.cycle(); // scanline 0 up to dot 127: eight sprites found
    }
    assert_eq!(ppu.read_register(PpuRegister::PpuStatus), 0x00);
    for _ in 0..129 {
        ppu.cycle(); // the ninth sprite is in range too
    }
    assert_eq!(ppu.read_register(PpuRegister::PpuStatus), 0x20);
}

#[test]
fn dot_340_is_followed_by_dot_0_of_the_next_scanline() {
    let mut ppu = ppu_with_cartridge(Mirroring::Vertical);
    // from scanline 261 dot 0 to scanline 241 dot 1
    for _ in 0..(341 * 242 + 1) {
        ppu.cycle();
    }
    assert_eq!(ppu.read_register(PpuRegister::PpuStatus), 0x20);
    ppu.cycle(); // dot 1 of scanline 241 starts vertical blank
    assert_eq!(ppu.read_register(PpuRegister::PpuStatus), 0xa0);
    // reading the status clears the vertical blank flag
    assert_eq!(ppu.read_register(PpuRegister::PpuStatus), 0x20);
}

#[test]
fn second_scroll_write_sets_fine_and_coarse_y() {
    let mut character_rom = [0u8; 8192];
    character_rom[0x0042] = 0xc3;
    let mut ppu = Ppu::new();
    ppu.connect_cartridge(Rc::new(Cartridge::new([0u8; 32768], character_rom, Mirroring::Vertical)));
    set_address(&mut ppu, 0x22, 0xa2); // runs dot 0 of the pre-render scanline
    ppu.write_register(PpuRegister::PpuScroll, 0x00);
    ppu.write_register(PpuRegister::PpuScroll, 0x0f); // fine Y 7, coarse Y 1: t = 0x7020
    // the pre-render scanline copies t into v; scanline 0 then steps coarse X 33
    // times in all, moves fine Y 7 to the next row (coarse Y 2) and restores coarse X
    for _ in 1..341 + 341 {
        ppu.cycle();
    }
    assert_eq!(ppu.read_register(PpuRegister::PpuData), 0xc3);
}
