use lib::cartridge::Cartridge;
use lib::ppu::Mirroring;
use lib::ram::Ram;
use lib::vram::{Oam, PaletteRam, SecondaryOam};

fn sample_cartridge(mirroring: Mirroring) -> Cartridge {
    let mut program_rom = [0u8; 32768];
    program_rom[0] = 0x11;
    program_rom[0x7fff] = 0x22;
    let mut character_rom = [0u8; 8192];
    character_rom[0] = 0x33;
    character_rom[0x1fff] = 0x44;
    Cartridge::new(program_rom, character_rom, mirroring)
}

#[test]
fn ram_mirrors_every_0x800_bytes() {
    let mut ram = Ram::new();
    ram.write(0xff, 0x07, 0x5a);
    assert_eq!(ram.read(0xff, 0x07), 0x5a);
    assert_eq!(ram.read(0xff, 0x0f), 0x5a);
    assert_eq!(ram.read(0xff, 0xff), 0x5a);
    assert_eq!(ram.read(0xfe, 0x07), 0x00);
    assert_eq!(ram.read(0xff, 0x06), 0x00);
}

#[test]
fn ram_write_leaves_other_cells() {
    let mut ram = Ram::new();
    ram.write(0x00, 0x00, 0x01);
    ram.write(0x01, 0x00, 0x02);
    ram.write(0x00, 0x08, 0x03);
    assert_eq!(ram.read(0x00, 0x00), 0x03);
    assert_eq!(ram.read(0x01, 0x00), 0x02);
}

#[test]
fn cartridge_program_memory() {
    let mut cartridge = sample_cartridge(Mirroring::Vertical);
    assert_eq!(cartridge.read_cpu_mapped(0x00, 0x80), 0x11);
    assert_eq!(cartridge.read_cpu_mapped(0xff, 0xff), 0x22);
    assert_eq!(cartridge.read_cpu_mapped(0x00, 0x60), 0x00);
    cartridge.write_cpu_mapped(0x34, 0x61, 0x77);
    assert_eq!(cartridge.read_cpu_mapped(0x34, 0x61), 0x77);
    cartridge.write_cpu_mapped(0xff, 0x7f, 0x78);
    assert_eq!(cartridge.read_cpu_mapped(0xff, 0x7f), 0x78);
    // the program ROM ignores writes
    cartridge.write_cpu_mapped(0x00, 0x80, 0x99);
    assert_eq!(cartridge.read_cpu_mapped(0x00, 0x80), 0x11);
}

#[test]
fn cartridge_character_memory_and_mirroring() {
    let cartridge = sample_cartridge(Mirroring::Horizontal);
    assert_eq!(cartridge.read_ppu_mapped(0x00, 0x00), 0x33);
    assert_eq!(cartridge.read_ppu_mapped(0xff, 0x1f), 0x44);
    assert_eq!(cartridge.get_mirroring(), Mirroring::Horizontal);
    assert_eq!(sample_cartridge(Mirroring::Vertical).get_mirroring(), Mirroring::Vertical);
}

#[test]
fn oam_reads_0xff_while_unreadable() {
    let mut oam = Oam::new();
    oam.write(0x10, 0x42);
    assert_eq!(oam.read(0x10), 0x42);
    oam.make_unreadable();
    assert_eq!(oam.read(0x10), 0xff);
    assert_eq!(oam.read(0x11), 0xff);
    oam.write(0x11, 0x43);
    oam.make_readable();
    assert_eq!(oam.read(0x10), 0x42);
    assert_eq!(oam.read(0x11), 0x43);
}

#[test]
fn secondary_oam_read_write() {
    let mut secondary = SecondaryOam::new();
    assert_eq!(secondary.read(31), 0);
    secondary.write(31, 0x12);
    secondary.write(0, 0x34);
    assert_eq!(secondary.read(31), 0x12);
    assert_eq!(secondary.read(0), 0x34);
}

#[test]
fn palette_mirrors_every_32_bytes() {
    let mut palette = PaletteRam::new();
    palette.write(0x05, 0x21);
    assert_eq!(palette.read(0x25), 0x21);
    assert_eq!(palette.read(0xe5), 0x21);
    palette.write(0xff, 0x0f);
    assert_eq!(palette.read(0x1f), 0x0f);
    assert_eq!(palette.read(0x04), 0x00);
}
