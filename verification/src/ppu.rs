use vstd::prelude::*;
use std::rc::Rc;
use crate::cartridge::Cartridge;
use crate::ram::Ram;
use crate::register::{Register8, Register16};
use crate::vram::{Oam, PaletteRam, SecondaryOam};
use crate::ppu_model::{
    PpuView, coarse_x_incremented, lemma_address_copies, lemma_coarse_x_increment,
    lemma_fetch_addresses, lemma_register_write_bounds, lemma_y_increment, y_incremented,
};
use crate::register::{bit16, high_of, join_bytes, low_of};
use crate::cartridge::address_of;
use crate::ram::ram_index;

verus! {

/// How the cartridge folds the four nametables onto the PPU's 2 KiB of RAM.
#[derive(Clone, Copy, PartialEq, Eq, Structural, Debug)]
pub enum Mirroring {
    Horizontal,
    Vertical,
}

/// The registers that the CPU sees of the PPU.
#[derive(Clone, Copy, PartialEq, Eq, Structural, Debug)]
pub enum PpuRegister {
    PpuCtrl,
    PpuMask,
    PpuStatus,
    OamAddr,
    OamData,
    PpuScroll,
    PpuAddr,
    PpuData,
    OamDma,
}

/// The step of sprite evaluation that the PPU performs on its next cycle.
#[derive(Clone, Copy, PartialEq, Eq, Structural, Debug)]
pub enum SpriteEvaluationState {
    ReadSpriteYCoordinate,
    WriteSpriteYCoordinate,
    ReadSpriteTile,
    WriteSpriteTile,
    ReadSpriteAttributes,
    WriteSpriteAttributes,
    ReadSpriteXCoordinate,
    WriteSpriteXCoordinate,
    ReadOverflowCheckedValue,
    OverflowCycle(u8),
    ReadFinished,
    WriteFinished,
}

/// The bytes fetched for one background tile.
#[derive(Clone, Copy, PartialEq, Eq, Structural, Debug)]
pub struct TileData {
    pub tile_number: u8,
    pub attribute_table_byte: u8,
    pub pattern_table_tile_low: u8,
    pub pattern_table_tile_high: u8,
}

/// The picture processing unit.
pub struct Ppu {
    vram: Ram,
    oam: Oam,
    secondary_oam: SecondaryOam,
    pallet_ram: PaletteRam,
    cartridge: Option<Rc<Cartridge>>,
    current_vram_address_register: Register16,  // note: actually 15 bits
    temporary_vram_address_register: Register16,  // note: actually 15 bits
    fine_x_scroll_register: Register8,  // note: actually 3 bits
    write_toggle_register: Register8,  // note: actually 1 bit
    transfer_t_to_v: bool,
    ppu_control_register: Register8,  // note: only bits 2-7 are used
    ppu_mask_register: Register8,
    oam_address_register: Register8,
    ppu_status_register: Register8,  // note: only bits 5-7 are used
    io_bus: Register8,
    temporary_tile_data: TileData,
    next_tile_data: TileData,
    current_tile_data: TileData,
    sprite_evaluation_state: SpriteEvaluationState,
    found_sprites_count: u8,
    scanline: u16,
    cycle_count: u16,
    frame: u64,
    initialising: bool,
}

impl View for Ppu {
    type V = PpuView;

    closed spec fn view(&self) -> PpuView {
        PpuView {
            vram: self.vram@,
            oam: self.oam.contents(),
            oam_readable: self.oam.is_readable(),
            secondary_oam: self.secondary_oam@,
            palette: self.pallet_ram@,
            cartridge: self.cartridge,
            v: self.current_vram_address_register@,
            t: self.temporary_vram_address_register@,
            fine_x: self.fine_x_scroll_register@,
            w: self.write_toggle_register@,
            transfer_t_to_v: self.transfer_t_to_v,
            ctrl: self.ppu_control_register@,
            mask: self.ppu_mask_register@,
            oam_addr: self.oam_address_register@,
            status: self.ppu_status_register@,
            io_bus: self.io_bus@,
            temporary_tile: self.temporary_tile_data,
            next_tile: self.next_tile_data,
            current_tile: self.current_tile_data,
            sprite_state: self.sprite_evaluation_state,
            found_sprites: self.found_sprites_count,
            scanline: self.scanline,
            cycle_count: self.cycle_count,
            frame: self.frame,
            initialising: self.initialising,
        }
    }
}

/// The bytes of an empty tile.
pub open spec fn empty_tile() -> TileData {
    TileData { tile_number: 0, attribute_table_byte: 0, pattern_table_tile_low: 0, pattern_table_tile_high: 0 }
}

// exposed functions
impl Ppu {
    /// A PPU with cleared memories and registers, no cartridge, at dot 0 of the
    /// pre-render scanline of frame 0.
    pub fn new() -> (r: Ppu)
        ensures
            r@.wf(),
            r@ == (PpuView {
                vram: Seq::new(2048, |i: int| 0u8),
                oam: Seq::new(256, |i: int| 0u8),
                oam_readable: true,
                secondary_oam: Seq::new(32, |i: int| 0u8),
                palette: Seq::new(32, |i: int| 0u8),
                cartridge: None,
                v: 0,
                t: 0,
                fine_x: 0,
                w: 0,
                transfer_t_to_v: false,
                ctrl: 0,
                mask: 0,
                oam_addr: 0,
                status: 0,
                io_bus: 0,
                temporary_tile: empty_tile(),
                next_tile: empty_tile(),
                current_tile: empty_tile(),
                sprite_state: SpriteEvaluationState::ReadSpriteYCoordinate,
                found_sprites: 0,
                scanline: 261,
                cycle_count: 0,
                frame: 0,
                initialising: false,
            }),
    {
        let empty = TileData {
            tile_number: 0,
            attribute_table_byte: 0,
            pattern_table_tile_low: 0,
            pattern_table_tile_high: 0,
        };
        Ppu {
            vram: Ram::new(),
            oam: Oam::new(),
            secondary_oam: SecondaryOam::new(),
            pallet_ram: PaletteRam::new(),
            cartridge: None,
            current_vram_address_register: Register16::new(),
            temporary_vram_address_register: Register16::new(),
            fine_x_scroll_register: Register8::new(),
            write_toggle_register: Register8::new(),
            transfer_t_to_v: false,
            ppu_control_register: Register8::new(),
            ppu_mask_register: Register8::new(),
            oam_address_register: Register8::new(),
            ppu_status_register: Register8::new(),
            io_bus: Register8::new(),
            temporary_tile_data: empty,
            next_tile_data: empty,
            current_tile_data: empty,
            sprite_evaluation_state: SpriteEvaluationState::ReadSpriteYCoordinate,
            found_sprites_count: 0,
            scanline: 261,
            cycle_count: 0,
            frame: 0,
            initialising: false,
        }
    }

    /// Runs one dot: background fetches and scrolling, sprite evaluation,
    /// status flags, then the counters.
    pub fn cycle(&mut self)
        requires
            old(self)@.wf(),
            old(self)@.cycle_defined(),
        ensures
            final(self)@.wf(),
            final(self)@ == old(self)@.cycled(),
    {
        self.prepare_render();
        self.update_secondary_oam();
        // the picture itself is not produced here: nothing in the PPU's state depends on it
        self.handle_flags();
        self.cycle_count = self.cycle_count + 1;
        if self.cycle_count > 340 {
            self.cycle_count = 0;
            self.scanline = self.scanline + 1;
        }
        if self.scanline > 261 {
            self.scanline = 0;
            self.frame = self.frame + 1;
            if self.frame % 2 == 0 {
                self.cycle_count = self.cycle_count + 1;
            }
        }
        if self.transfer_t_to_v {
            self.transfer_t_to_v = false;
            let t = self.temporary_vram_address_register.read();
            self.current_vram_address_register.write(t);
        }
    }

    pub fn write_register(&mut self, register: PpuRegister, value: u8)
        requires
            old(self)@.wf(),
            old(self)@.register_write_defined(register),
        ensures
            final(self)@.wf(),
            final(self)@ == old(self)@.register_written(register, value),
    {
        match register {
            PpuRegister::PpuCtrl => self.write_ppu_control(value),
            PpuRegister::PpuMask => self.write_ppu_mask(value),
            PpuRegister::PpuStatus => (),
            PpuRegister::OamAddr => self.write_oam_addr(value),
            PpuRegister::OamData => self.write_oam_data(value),
            PpuRegister::PpuScroll => self.write_ppu_scroll(value),
            PpuRegister::PpuAddr => self.write_ppu_addr(value),
            PpuRegister::PpuData => self.write_ppu_data(value),
            PpuRegister::OamDma => (),  // ruled out by the precondition
        }
        self.io_bus.write(value);
    }

    pub fn read_register(&mut self, register: PpuRegister) -> (r: u8)
        requires
            old(self)@.wf(),
            old(self)@.register_read_defined(register),
        ensures
            final(self)@.wf(),
            final(self)@ == old(self)@.register_read(register),
            r == final(self)@.io_bus,
    {
        match register {
            PpuRegister::PpuCtrl => (),
            PpuRegister::PpuMask => (),
            PpuRegister::PpuStatus => self.read_ppu_status(),
            PpuRegister::OamAddr => (),
            PpuRegister::OamData => self.read_oam_data(),
            PpuRegister::PpuScroll => (),
            PpuRegister::PpuAddr => (),
            PpuRegister::PpuData => self.read_ppu_data(),
            PpuRegister::OamDma => (),  // ruled out by the precondition
        }
        self.io_bus.read()
    }

    pub fn connect_cartridge(&mut self, cartridge: Rc<Cartridge>)
        requires
            old(self)@.wf(),
        ensures
            final(self)@.wf(),
            final(self)@ == (PpuView { cartridge: Some(cartridge), ..old(self)@ }),
    {
        proof {
            cartridge.lemma_sizes();
        }
        self.cartridge = Some(cartridge)
    }
}

// make the PPU work
impl Ppu {
    fn prepare_render(&mut self)
        requires
            old(self)@.wf(),
            old(self)@.render_defined(),
        ensures
            final(self)@.wf(),
            final(self)@ == old(self)@.rendered(),
    {
        if self.scanline >= 240 && self.scanline != 261 {  // non-visible scanline
            return;
        } else if self.cycle_count == 0 {
            return;
        } else if self.cycle_count <= 255 || (self.cycle_count >= 321 && self.cycle_count <= 336) {
            let phase = self.cycle_count % 8;
            if phase == 2 {
                self.fetch_tile_number();  // nametable byte
            } else if phase == 4 {
                self.fetch_attribute_byte();  // attribute table byte
            } else if phase == 6 {
                self.fetch_pattern_table_low_byte();  // pattern table tile low
            } else if phase == 0 {  // pattern table tile high
                self.fetch_pattern_table_high_byte();
                self.coarse_increment_horizontal_position();
                self.shift_tile_data();
            }
        } else if self.cycle_count == 256 {
            self.fetch_pattern_table_high_byte();
            self.increment_vertical_position();
        } else if self.cycle_count == 257 {
            self.copy_horizontal_position_into_v();
        } else if self.cycle_count == 258 {
            self.fetch_tile_number();
        } else if self.cycle_count <= 265 {
            return;
        } else if self.cycle_count == 266 {
            self.fetch_tile_number();
        } else if self.cycle_count <= 279 {
            return;
        } else if self.cycle_count <= 304 {
            if self.scanline == 261 {
                self.copy_vertical_position_into_v();
            }
        } else if self.cycle_count == 305 {
            return;
        } else if self.cycle_count == 306 {
            self.fetch_tile_number();
        } else if self.cycle_count <= 320 {
            return;
        } else if self.cycle_count == 338 {
            self.fetch_tile_number();
        }
        // dots 337, 339 and 340 do nothing; the precondition rules out later ones
    }

    fn update_secondary_oam(&mut self)
        requires
            old(self)@.wf(),
        ensures
            final(self)@.wf(),
            final(self)@ == old(self)@.sprites_updated(),
    {
        if self.scanline >= 240 {
            return;
        }  // non-visible scanline
        if self.cycle_count == 0 {
            return;
        }  // dot 0 is idle
        if self.cycle_count == 1 {
            self.oam.make_unreadable();
        } else if self.cycle_count <= 64 {
            if self.cycle_count % 2 == 0 {
                self.secondary_oam.write((self.cycle_count / 2 - 1) as u8, 0xff);
            }
        } else if self.cycle_count == 65 {
            self.oam.make_readable();
            self.sprite_evaluation_state = SpriteEvaluationState::ReadSpriteYCoordinate;
            self.oam_address_register.write(0);
            self.found_sprites_count = 0;
            self.cycle_sprite_evaluation();
        } else if self.cycle_count <= 256 {
            self.cycle_sprite_evaluation();
        }
        // dots 257 to 340 leave secondary OAM alone
    }

    fn handle_flags(&mut self)
        requires
            old(self)@.wf(),
        ensures
            final(self)@.wf(),
            final(self)@ == old(self)@.flags_handled(),
    {
        if self.scanline == 241 && self.cycle_count == 1 {
            self.ppu_status_register.set_bit(7);
        }
        if self.scanline == 261 && self.cycle_count == 1 {
            self.ppu_status_register.write(0);
        }
    }
}

// scrolling
impl Ppu {
    fn increment_vertical_position(&mut self)
        requires
            old(self)@.wf(),
        ensures
            final(self)@.wf(),
            final(self)@ == (PpuView { v: y_incremented(old(self)@.v), ..old(self)@ }),
    {
        let mut v = self.current_vram_address_register.read();
        let ghost v0 = v;
        // the algorithm of https://www.nesdev.org/wiki/PPU_scrolling#Y_increment
        if v & 0x7000 != 0x7000 {
            v += 0x1000;
        } else {
            assert(v0 & 0x7000 == 0x7000 ==> ({
                let w = v0 & 0x0fff;
                let y0 = (w & 0x03e0) >> 5;
                &&& y0 <= 31
                &&& ((w ^ 0x0800) & 0x7c1f) | (0u16 << 5) == (w ^ 0x0800) & 0x7c1f
                &&& (w & 0x7c1f) | (0u16 << 5) == w & 0x7c1f
            })) by (bit_vector);
            v &= 0x0fff;
            let mut y = (v & 0x03e0) >> 5;
            if y == 29 {
                y = 0;
                v ^= 0x0800;
            } else if y == 31 {
                y = 0;
            } else {
                y += 1;
            }
            v = (v & 0x7c1f) | (y << 5);
        }
        proof {
            lemma_y_increment(v0);
        }
        self.current_vram_address_register.write(v);
    }

    fn coarse_increment_horizontal_position(&mut self)
        requires
            old(self)@.wf(),
        ensures
            final(self)@.wf(),
            final(self)@ == (PpuView { v: coarse_x_incremented(old(self)@.v), ..old(self)@ }),
    {
        let mut v = self.current_vram_address_register.read();
        let ghost v0 = v;
        if v & 0x001f == 31 {
            v &= 0x7fe0;
            v ^= 0x0400;
        } else {
            v += 1;
        }
        proof {
            lemma_coarse_x_increment(v0);
        }
        self.current_vram_address_register.write(v);
    }

    fn fetch_tile_number(&mut self)
        requires
            old(self)@.wf(),
            old(self)@.cartridge.is_some(),
        ensures
            final(self)@.wf(),
            final(self)@ == old(self)@.tile_number_fetched(),
    {
        let v = self.current_vram_address_register.read();
        let address_high_byte = 0x20 | ((v >> 8) & 0x0f) as u8;
        let address_low_byte = v as u8;  // v & 0xff
        proof {
            lemma_fetch_addresses(v);
        }
        let tile_number = self.read(address_low_byte, address_high_byte);
        self.temporary_tile_data.tile_number = tile_number;
    }

    fn fetch_attribute_byte(&mut self)
        requires
            old(self)@.wf(),
            old(self)@.cartridge.is_some(),
        ensures
            final(self)@.wf(),
            final(self)@ == old(self)@.attribute_byte_fetched(),
    {
        let v = self.current_vram_address_register.read();
        let address_high_byte = 0x23 | ((v >> 8) & 0x0c) as u8;
        let address_low_byte = (0xc0 | ((v >> 4) & 0x38) | ((v >> 2) & 0x07)) as u8;
        proof {
            lemma_fetch_addresses(v);
        }
        let attribute_table_byte = self.read(address_low_byte, address_high_byte);
        self.temporary_tile_data.attribute_table_byte = attribute_table_byte;
    }

    fn get_pattern_table_address(&mut self) -> (r: (u8, u8))
        requires
            old(self)@.wf(),
        ensures
            final(self)@ == old(self)@,
            r == old(self)@.pattern_table_address(),
            r.1 < 0x20,
    {
        let fine_y = (self.current_vram_address_register.read() >> 12) as u8;
        let pattern_table = self.ppu_control_register.read() & 0x10;
        let tile_number_low = self.temporary_tile_data.tile_number & 0xf;
        let tile_number_high = self.temporary_tile_data.tile_number >> 4;
        let address_high_byte = pattern_table | tile_number_high;
        let address_low_byte = (tile_number_low << 4) | fine_y;
        let ghost control = self.ppu_control_register@;
        let ghost tile = self.temporary_tile_data.tile_number;
        assert(pattern_table == control & 0x10 && tile_number_high == tile >> 4 ==> pattern_table
            | tile_number_high < 0x20) by (bit_vector);
        (address_low_byte, address_high_byte)
    }

    fn fetch_pattern_table_low_byte(&mut self)
        requires
            old(self)@.wf(),
            old(self)@.cartridge.is_some(),
        ensures
            final(self)@.wf(),
            final(self)@ == old(self)@.pattern_low_fetched(),
    {
        let (address_low_byte, address_high_byte) = self.get_pattern_table_address();
        let pattern_table_low_byte = self.read(address_low_byte, address_high_byte);
        self.temporary_tile_data.pattern_table_tile_low = pattern_table_low_byte;
    }

    fn fetch_pattern_table_high_byte(&mut self)
        requires
            old(self)@.wf(),
            old(self)@.cartridge.is_some(),
        ensures
            final(self)@.wf(),
            final(self)@ == old(self)@.pattern_high_fetched(),
    {
        let (mut address_low_byte, address_high_byte) = self.get_pattern_table_address();
        address_low_byte |= 0x08;
        let pattern_table_high_byte = self.read(address_low_byte, address_high_byte);
        self.temporary_tile_data.pattern_table_tile_high = pattern_table_high_byte;
    }

    fn copy_horizontal_position_into_v(&mut self)
        requires
            old(self)@.wf(),
        ensures
            final(self)@.wf(),
            final(self)@ == (PpuView {
                v: old(self)@.v & 0x7be0 | old(self)@.t & 0x041f,
                ..old(self)@
            }),
    {
        let t = self.temporary_vram_address_register.read();
        let mut v = self.current_vram_address_register.read();
        proof {
            lemma_address_copies(v, t);
        }
        v = (v & 0x7be0) | (t & 0x041f);
        self.current_vram_address_register.write(v);
    }

    fn copy_vertical_position_into_v(&mut self)
        requires
            old(self)@.wf(),
        ensures
            final(self)@.wf(),
            final(self)@ == (PpuView {
                v: old(self)@.v & 0x041f | old(self)@.t & 0x7be0,
                ..old(self)@
            }),
    {
        let t = self.temporary_vram_address_register.read();
        let mut v = self.current_vram_address_register.read();
        proof {
            lemma_address_copies(v, t);
        }
        v = (v & 0x041f) | (t & 0x7be0);
        self.current_vram_address_register.write(v);
    }

    fn shift_tile_data(&mut self)
        requires
            old(self)@.wf(),
        ensures
            final(self)@.wf(),
            final(self)@ == old(self)@.tiles_shifted(),
    {
        self.current_tile_data = self.next_tile_data;
        self.next_tile_data = self.temporary_tile_data;
    }
}

// sprite evaluation
impl Ppu {
    fn cycle_sprite_evaluation(&mut self)
        requires
            old(self)@.wf(),
        ensures
            final(self)@.wf(),
            final(self)@ == old(self)@.sprite_evaluated(),
    {
        self.sprite_evaluation_state = match self.sprite_evaluation_state {
            SpriteEvaluationState::ReadSpriteYCoordinate => SpriteEvaluationState::WriteSpriteYCoordinate,
            SpriteEvaluationState::WriteSpriteYCoordinate => self.write_sprite_y_coodinate(),
            SpriteEvaluationState::ReadSpriteTile => SpriteEvaluationState::WriteSpriteTile,
            SpriteEvaluationState::WriteSpriteTile => self.write_sprite_tile(),
            SpriteEvaluationState::ReadSpriteAttributes => SpriteEvaluationState::WriteSpriteAttributes,
            SpriteEvaluationState::WriteSpriteAttributes => self.write_sprite_attributes(),
            SpriteEvaluationState::ReadSpriteXCoordinate => SpriteEvaluationState::WriteSpriteXCoordinate,
            SpriteEvaluationState::WriteSpriteXCoordinate => self.write_sprite_x_coordinate(),
            SpriteEvaluationState::ReadOverflowCheckedValue => self.process_overflow(),
            SpriteEvaluationState::OverflowCycle(cycle) => self.process_overflow_cycle(cycle),
            SpriteEvaluationState::ReadFinished => SpriteEvaluationState::WriteFinished,
            SpriteEvaluationState::WriteFinished => self.write_finished(),
        }
    }

    fn is_y_coordinate_in_range(&self, y_coordinate: u8) -> (r: bool)
        ensures
            r == self@.y_in_range(y_coordinate),
    {
        let sprite_height: u16 = if self.ppu_control_register.read_bit(5) {
            16
        } else {
            8
        };
        let lower_bound = y_coordinate as u16;
        let upper_bound = y_coordinate as u16 + sprite_height;
        lower_bound <= self.scanline && self.scanline < upper_bound
    }

    /// Copies `value` into the current sprite's slot of secondary OAM.
    fn copy_sprite_byte(&mut self, offset: u8, value: u8)
        requires
            old(self)@.wf(),
            offset < 4,
        ensures
            final(self)@.wf(),
            final(self)@ == old(self)@.sprite_byte_copied(offset, value),
    {
        if self.found_sprites_count < 8 {
            self.secondary_oam.write(self.found_sprites_count * 4 + offset, value);
        }
    }

    fn write_sprite_y_coodinate(&mut self) -> (r: SpriteEvaluationState)
        requires
            old(self)@.wf(),
            old(self)@.sprite_state == SpriteEvaluationState::WriteSpriteYCoordinate,
        ensures
            final(self)@.wf(),
            (PpuView { sprite_state: r, ..final(self)@ }) == old(self)@.sprite_evaluated(),
    {
        let oam_address = self.oam_address_register.read();
        let y_coordinate = self.oam.read(oam_address);
        self.copy_sprite_byte(0, y_coordinate);
        if self.is_y_coordinate_in_range(y_coordinate) {
            self.oam_address_register.increment();
            return SpriteEvaluationState::ReadSpriteTile;  // in range, we can now exit
        }
        self.oam_address_register.write(oam_address.wrapping_add(4));
        self.go_to_next_sprite()
    }

    fn write_sprite_tile(&mut self) -> (r: SpriteEvaluationState)
        requires
            old(self)@.wf(),
            old(self)@.sprite_state == SpriteEvaluationState::WriteSpriteTile,
        ensures
            final(self)@.wf(),
            (PpuView { sprite_state: r, ..final(self)@ }) == old(self)@.sprite_evaluated(),
    {
        let oam_address = self.oam_address_register.read();
        let tile = self.oam.read(oam_address);
        self.copy_sprite_byte(1, tile);
        self.oam_address_register.increment();
        SpriteEvaluationState::ReadSpriteAttributes
    }

    fn write_sprite_attributes(&mut self) -> (r: SpriteEvaluationState)
        requires
            old(self)@.wf(),
            old(self)@.sprite_state == SpriteEvaluationState::WriteSpriteAttributes,
        ensures
            final(self)@.wf(),
            (PpuView { sprite_state: r, ..final(self)@ }) == old(self)@.sprite_evaluated(),
    {
        let oam_address = self.oam_address_register.read();
        let attributes = self.oam.read(oam_address);
        self.copy_sprite_byte(2, attributes);
        self.oam_address_register.increment();
        SpriteEvaluationState::ReadSpriteXCoordinate
    }

    fn write_sprite_x_coordinate(&mut self) -> (r: SpriteEvaluationState)
        requires
            old(self)@.wf(),
            old(self)@.sprite_state == SpriteEvaluationState::WriteSpriteXCoordinate,
        ensures
            (PpuView { sprite_state: r, ..final(self)@ }).wf(),
            (PpuView { sprite_state: r, ..final(self)@ }) == old(self)@.sprite_evaluated(),
    {
        let oam_address = self.oam_address_register.read();
        let x_coordinate = self.oam.read(oam_address);
        self.copy_sprite_byte(3, x_coordinate);
        self.found_sprites_count = self.found_sprites_count + 1;
        self.oam_address_register.increment();
        self.go_to_next_sprite()
    }

    fn write_finished(&mut self) -> (r: SpriteEvaluationState)
        requires
            old(self)@.wf(),
            old(self)@.sprite_state == SpriteEvaluationState::WriteFinished,
        ensures
            final(self)@.wf(),
            (PpuView { sprite_state: r, ..final(self)@ }) == old(self)@.sprite_evaluated(),
    {
        let oam_address = self.oam_address_register.read();
        let garbage = self.oam.read(oam_address);
        self.copy_sprite_byte(0, garbage);
        self.oam_address_register.write(oam_address.wrapping_add(4));
        SpriteEvaluationState::ReadFinished
    }

    fn go_to_next_sprite(&mut self) -> (r: SpriteEvaluationState)
        ensures
            final(self)@ == old(self)@,
            r == old(self)@.next_sprite_state(),
    {
        if self.oam_address_register.read() == 0 {  // wrapping
            return SpriteEvaluationState::ReadFinished;
        }
        if self.found_sprites_count < 8 {  // we're fine, no overflow yet!
            return SpriteEvaluationState::ReadSpriteYCoordinate;
        }
        SpriteEvaluationState::ReadOverflowCheckedValue
    }

    fn process_overflow(&mut self) -> (r: SpriteEvaluationState)
        requires
            old(self)@.wf(),
            old(self)@.sprite_state == SpriteEvaluationState::ReadOverflowCheckedValue,
        ensures
            final(self)@.wf(),
            (PpuView { sprite_state: r, ..final(self)@ }) == old(self)@.sprite_evaluated(),
    {
        let mut oam_address = self.oam_address_register.read();
        let value = self.oam.read(oam_address);
        if self.is_y_coordinate_in_range(value) {
            self.ppu_status_register.set_bit(5);  // set sprite overflow flag
            self.oam_address_register.increment();
            return SpriteEvaluationState::OverflowCycle(2);
        }
        // note: this is a PPU bug, see https://www.nesdev.org/wiki/PPU_sprite_evaluation
        if oam_address & 0x03 == 0x03 {
            oam_address &= 0xfc;
            oam_address = oam_address.wrapping_add(4);
        } else {
            oam_address = oam_address.wrapping_add(5);
        }
        self.oam_address_register.write(oam_address);
        if oam_address < 0x04 {
            SpriteEvaluationState::WriteFinished
        } else {
            SpriteEvaluationState::OverflowCycle(8)
        }
    }

    fn process_overflow_cycle(&mut self, cycle: u8) -> (r: SpriteEvaluationState)
        requires
            old(self)@.wf(),
            old(self)@.sprite_state == SpriteEvaluationState::OverflowCycle(cycle),
        ensures
            final(self)@.wf(),
            (PpuView { sprite_state: r, ..final(self)@ }) == old(self)@.sprite_evaluated(),
    {
        if cycle % 2 == 1 {
            self.oam_address_register.increment();
        }
        if cycle < 8 {
            SpriteEvaluationState::OverflowCycle(cycle + 1)
        } else {
            SpriteEvaluationState::ReadOverflowCheckedValue
        }
    }
}

// pixels
impl Ppu {
    #[allow(dead_code)]
    fn compute_background_pixel(&mut self) -> (r: u8)
        requires
            old(self)@.wf(),
        ensures
            final(self)@ == old(self)@,
            r == old(self)@.background_pixel(),
    {
        let low_plane = self.current_tile_data.pattern_table_tile_low;
        let high_plane = self.current_tile_data.pattern_table_tile_high;
        let fine_x = self.fine_x_scroll_register.read();
        let low_bit = (low_plane >> fine_x) & 1;
        let high_bit = (high_plane >> fine_x) & 1;
        let color_index = (high_bit << 1) | low_bit;
        let attribute_index = if self.current_vram_address_register.read_bit(2) {
            2
        } else {
            0
        } + if self.current_vram_address_register.read_bit(7) {
            4
        } else {
            0
        };
        let palette_index = (self.current_tile_data.attribute_table_byte >> attribute_index) & 0x03;
        (palette_index << 2) | color_index
    }

    /// The sprite pixel and whether it has priority; sprite pixels are not
    /// drawn yet, so this is always a transparent pixel without priority.
    #[allow(dead_code)]
    fn compute_sprite_pixel(&mut self) -> (r: (u8, bool))
        requires
            old(self)@.wf(),
            old(self)@.cycle_count >= 1,
        ensures
            final(self)@ == old(self)@,
            r == (0u8, false),
    {
        let current_x = (self.cycle_count - 1) as u8;  // we draw x = 0 at cycle 1?
        let mut sprite_index: u8 = 0;
        while sprite_index < 8
            invariant
                self@ == old(self)@,
                self@.wf(),
            decreases 8 - sprite_index,
        {
            let sprite_x = self.secondary_oam.read(sprite_index * 4 + 3);
            if sprite_x <= current_x && current_x <= sprite_x.saturating_add(7) {
                let _sprite_y = self.secondary_oam.read(sprite_index * 4);
                let sprite_attribute = self.secondary_oam.read(sprite_index * 4 + 1);
                let _internal_x = if sprite_attribute >> 5 & 1 == 0 {
                    current_x - sprite_x
                } else {
                    8 - (current_x - sprite_x)
                };
            }
            sprite_index += 1;
        }
        (0, false)
    }
}

// internal reads and writes
impl Ppu {
    fn read(&mut self, low_byte: u8, high_byte: u8) -> (r: u8)
        requires
            old(self)@.wf(),
            old(self)@.memory_defined(high_byte),
        ensures
            final(self)@ == old(self)@,
            r == old(self)@.memory(low_byte, high_byte),
    {
        let cartridge = self.cartridge.as_ref().unwrap();
        if high_byte < 0x20 {
            assert(address_of(low_byte, high_byte) < 0x2000);
            cartridge.read_ppu_mapped(low_byte, high_byte)
        } else if high_byte < 0x3f {
            let fixed_high_byte = match cartridge.get_mirroring() {
                Mirroring::Horizontal => high_byte & 0x03 | (high_byte >> 1) & 0x04,
                Mirroring::Vertical => high_byte & 0x07,
            };
            self.vram.read(low_byte, fixed_high_byte)
        } else {
            self.pallet_ram.read(low_byte)
        }
    }

    fn write(&mut self, low_byte: u8, high_byte: u8, value: u8)
        requires
            old(self)@.wf(),
            old(self)@.memory_defined(high_byte),
        ensures
            final(self)@.wf(),
            final(self)@ == old(self)@.stored(low_byte, high_byte, value),
    {
        let mirroring = self.cartridge.as_ref().unwrap().get_mirroring();
        if high_byte < 0x20 {
            // write to rom = no effect
            return;
        } else if high_byte < 0x3f {
            let fixed_high_byte = match mirroring {
                Mirroring::Horizontal => high_byte & 0x03 | (high_byte >> 1) & 0x04,
                Mirroring::Vertical => high_byte & 0x07,
            };
            self.vram.write(low_byte, fixed_high_byte, value);
        } else {
            self.pallet_ram.write(low_byte, value);
        }
    }
}

// memory mapped registers
impl Ppu {
    fn write_ppu_control(&mut self, value: u8)
        requires
            old(self)@.wf(),
        ensures
            final(self)@.wf(),
            final(self)@.io_bus == old(self)@.io_bus,
            (PpuView { io_bus: value, ..final(self)@ }) == old(self)@.register_written(
                PpuRegister::PpuCtrl,
                value,
            ),
    {
        if self.initialising {
            return;
        }
        let mut t = self.temporary_vram_address_register.read();
        proof {
            lemma_register_write_bounds(t, value);
        }
        t = t & 0xf3ff | (value as u16 & 0x03) << 10;
        self.temporary_vram_address_register.write(t);
        let mut ppu_control = self.ppu_control_register.read();
        ppu_control = ppu_control & 0x03 | value & 0xfc;
        self.ppu_control_register.write(ppu_control);
    }

    fn write_ppu_mask(&mut self, value: u8)
        requires
            old(self)@.wf(),
        ensures
            final(self)@.wf(),
            final(self)@.io_bus == old(self)@.io_bus,
            (PpuView { io_bus: value, ..final(self)@ }) == old(self)@.register_written(
                PpuRegister::PpuMask,
                value,
            ),
    {
        if self.initialising {
            return;
        }
        self.ppu_mask_register.write(value);
    }

    fn write_ppu_scroll(&mut self, value: u8)
        requires
            old(self)@.wf(),
        ensures
            final(self)@.wf(),
            final(self)@.io_bus == old(self)@.io_bus,
            (PpuView { io_bus: value, ..final(self)@ }) == old(self)@.register_written(
                PpuRegister::PpuScroll,
                value,
            ),
    {
        if self.initialising {
            return;
        }
        if !self.write_toggle_register.read_bit(0) {
            let mut t = self.temporary_vram_address_register.read();
            proof {
                lemma_register_write_bounds(t, value);
            }
            t = t & 0x7fe0 | (value as u16 >> 3);
            self.temporary_vram_address_register.write(t);
            let x = value & 0x07;
            self.fine_x_scroll_register.write(x);
            self.write_toggle_register.write(1);
        } else {
            let mut t = self.temporary_vram_address_register.read();
            proof {
                lemma_register_write_bounds(t, value);
            }
            t = t & 0x0c1f | (value as u16 & 0x07) << 12 | (value as u16 & 0xf8) << 2;
            self.temporary_vram_address_register.write(t);
            self.write_toggle_register.write(0);
        }
    }

    fn write_ppu_addr(&mut self, value: u8)
        requires
            old(self)@.wf(),
        ensures
            final(self)@.wf(),
            final(self)@.io_bus == old(self)@.io_bus,
            (PpuView { io_bus: value, ..final(self)@ }) == old(self)@.register_written(
                PpuRegister::PpuAddr,
                value,
            ),
    {
        if self.initialising {
            return;
        }
        if !self.write_toggle_register.read_bit(0) {
            self.temporary_vram_address_register.write_high(value);
            self.temporary_vram_address_register.unset_bit(14);
            let ghost t = self.temporary_vram_address_register@;
            self.temporary_vram_address_register.unset_bit(15);
            proof {
                lemma_register_write_bounds(t, value);
            }
            self.write_toggle_register.write(1);
        } else {
            let ghost t0 = self.temporary_vram_address_register@;
            self.temporary_vram_address_register.write_low(value);
            proof {
                lemma_register_write_bounds(t0, value);
            }
            self.write_toggle_register.write(0);
            self.transfer_t_to_v = true;
        }
    }

    fn write_ppu_data(&mut self, value: u8)
        requires
            old(self)@.wf(),
            old(self)@.memory_defined(high_of(old(self)@.v)),
        ensures
            final(self)@.wf(),
            final(self)@.io_bus == old(self)@.io_bus,
            (PpuView { io_bus: value, ..final(self)@ }) == old(self)@.register_written(
                PpuRegister::PpuData,
                value,
            ),
    {
        let low = self.current_vram_address_register.read_low();
        let high = self.current_vram_address_register.read_high();
        self.write(low, high, value);
    }

    fn write_oam_addr(&mut self, value: u8)
        requires
            old(self)@.wf(),
        ensures
            final(self)@.wf(),
            final(self)@.io_bus == old(self)@.io_bus,
            (PpuView { io_bus: value, ..final(self)@ }) == old(self)@.register_written(
                PpuRegister::OamAddr,
                value,
            ),
    {
        self.oam_address_register.write(value);
    }

    fn write_oam_data(&mut self, value: u8)
        requires
            old(self)@.wf(),
        ensures
            final(self)@.wf(),
            final(self)@.io_bus == old(self)@.io_bus,
            (PpuView { io_bus: value, ..final(self)@ }) == old(self)@.register_written(
                PpuRegister::OamData,
                value,
            ),
    {
        let address = self.oam_address_register.read();
        self.oam.write(address, value);
        self.oam_address_register.increment();
    }

    fn read_ppu_status(&mut self)
        requires
            old(self)@.wf(),
        ensures
            final(self)@.wf(),
            final(self)@ == old(self)@.register_read(PpuRegister::PpuStatus),
    {
        let status = self.ppu_status_register.read();
        let mut io_bus = self.io_bus.read();
        io_bus = (io_bus & 0x1f) | (status & 0xe0);
        self.io_bus.write(io_bus);
        self.ppu_status_register.unset_bit(7);
    }

    fn read_ppu_data(&mut self)
        requires
            old(self)@.wf(),
            old(self)@.memory_defined(high_of(old(self)@.v)),
        ensures
            final(self)@.wf(),
            final(self)@ == old(self)@.register_read(PpuRegister::PpuData),
    {
        let low = self.current_vram_address_register.read_low();
        let high = self.current_vram_address_register.read_high();
        let data = self.read(low, high);
        self.io_bus.write(data);
    }

    fn read_oam_data(&mut self)
        requires
            old(self)@.wf(),
        ensures
            final(self)@.wf(),
            final(self)@ == old(self)@.register_read(PpuRegister::OamData),
    {
        let address = self.oam_address_register.read();
        let value = self.oam.read(address);
        self.io_bus.write(value);
    }
}

} // verus!
