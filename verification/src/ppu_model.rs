use vstd::prelude::*;
use std::rc::Rc;
use crate::cartridge::{Cartridge, address_of};
use crate::ppu::{Mirroring, PpuRegister, SpriteEvaluationState, TileData};
use crate::ram::ram_index;
use crate::register::{bit8, bit16, high_of, join_bytes, low_of, with_bit8, with_bit16};
use crate::vram::palette_index;

verus! {

/// What a PPU holds, as plain values.
pub ghost struct PpuView {
    pub vram: Seq<u8>,
    pub oam: Seq<u8>,
    pub oam_readable: bool,
    pub secondary_oam: Seq<u8>,
    pub palette: Seq<u8>,
    pub cartridge: Option<Rc<Cartridge>>,
    /// the current VRAM address
    pub v: u16,
    /// the temporary VRAM address
    pub t: u16,
    pub fine_x: u8,
    /// the write toggle shared by PPUSCROLL and PPUADDR
    pub w: u8,
    pub transfer_t_to_v: bool,
    pub ctrl: u8,
    pub mask: u8,
    pub oam_addr: u8,
    pub status: u8,
    pub io_bus: u8,
    pub temporary_tile: TileData,
    pub next_tile: TileData,
    pub current_tile: TileData,
    pub sprite_state: SpriteEvaluationState,
    pub found_sprites: u8,
    pub scanline: u16,
    pub cycle_count: u16,
    pub frame: u64,
    pub initialising: bool,
}

/// The RAM page that a nametable address with high byte `high` reaches under
/// `mirroring` (the RAM then takes it modulo 8).
pub open spec fn mirrored_high(mirroring: Mirroring, high: u8) -> u8 {
    match mirroring {
        Mirroring::Horizontal => high & 0x03 | (high >> 1) & 0x04,
        Mirroring::Vertical => high & 0x07,
    }
}

/// The coarse X scroll held in a VRAM address (bits 0-4).
pub open spec fn coarse_x(v: u16) -> u16 {
    v & 0x1f
}

/// The coarse Y scroll held in a VRAM address (bits 5-9).
pub open spec fn coarse_y(v: u16) -> u16 {
    (v >> 5) & 0x1f
}

/// The horizontal nametable select of a VRAM address (bit 10).
pub open spec fn nametable_x(v: u16) -> u16 {
    (v >> 10) & 1
}

/// The vertical nametable select of a VRAM address (bit 11).
pub open spec fn nametable_y(v: u16) -> u16 {
    (v >> 11) & 1
}

/// The fine Y scroll held in a VRAM address (bits 12-14).
pub open spec fn fine_y(v: u16) -> u16 {
    (v >> 12) & 7
}

/// The VRAM address after moving one tile to the right: the coarse X scroll
/// wraps from 31 to 0 into the horizontally next nametable.
pub open spec fn coarse_x_incremented(v: u16) -> u16 {
    if v & 0x001f == 31 {
        (v & 0x7fe0) ^ 0x0400
    } else {
        (v + 1) as u16
    }
}

/// The VRAM address after moving one pixel row down: the fine Y scroll
/// counts to 7, then the coarse Y scroll goes on; row 29 wraps to 0 into the
/// vertically next nametable, row 31 wraps to 0 in the same one.
pub open spec fn y_incremented(v: u16) -> u16 {
    if v & 0x7000 != 0x7000 {
        (v + 0x1000) as u16
    } else {
        let w = v & 0x0fff;
        let y = (w & 0x03e0) >> 5;
        if y == 29 {
            (w ^ 0x0800) & 0x7c1f
        } else if y == 31 {
            w & 0x7c1f
        } else {
            w & 0x7c1f | ((y + 1) as u16) << 5
        }
    }
}

/// The pattern table address of the row `fine_y` of tile `tile`, low byte first.
pub open spec fn pattern_address(control: u8, tile: u8, fine_y: u8) -> (u8, u8) {
    (((tile & 0xf) << 4) | fine_y, (control & 0x10) | (tile >> 4))
}

/// Whether the scanline is one on which the PPU fetches tiles.
pub open spec fn rendering_line(scanline: u16) -> bool {
    scanline < 240 || scanline == 261
}

/// Whether the PPU reads its memory in the render step of dot `cycle` on a
/// rendering scanline.
pub open spec fn fetches_at(cycle: u16) -> bool {
    ||| 1 <= cycle <= 255 && cycle % 2 == 0
    ||| 321 <= cycle <= 336 && cycle % 2 == 0
    ||| cycle == 256 || cycle == 258 || cycle == 266 || cycle == 306 || cycle == 338
}

impl PpuView {
    /// The mirroring of the connected cartridge.
    pub open spec fn mirroring(self) -> Mirroring {
        self.cartridge.unwrap().mirroring()
    }

    /// Whether the PPU can access its memory at `high:low`.
    pub open spec fn memory_defined(self, high: u8) -> bool {
        self.cartridge.is_some() && high <= 0x3f
    }

    /// The byte at `high:low` of PPU memory: the character ROM below $2000, the
    /// nametables in RAM up to $3EFF, palette memory at $3F00-$3FFF.
    pub open spec fn memory(self, low: u8, high: u8) -> u8 {
        if high < 0x20 {
            self.cartridge.unwrap().character_rom()[address_of(low, high)]
        } else if high < 0x3f {
            self.vram[ram_index(low, mirrored_high(self.mirroring(), high))]
        } else {
            self.palette[palette_index(low)]
        }
    }

    /// The PPU after writing `value` to `high:low`; the character ROM ignores writes.
    pub open spec fn stored(self, low: u8, high: u8, value: u8) -> PpuView {
        if high < 0x20 {
            self
        } else if high < 0x3f {
            PpuView {
                vram: self.vram.update(ram_index(low, mirrored_high(self.mirroring(), high)), value),
                ..self
            }
        } else {
            PpuView { palette: self.palette.update(palette_index(low), value), ..self }
        }
    }

    /// What a read of object attribute memory at `address` sees.
    pub open spec fn oam_read(self, address: u8) -> u8 {
        if self.oam_readable {
            self.oam[address as int]
        } else {
            0xff
        }
    }

    /// Whether a write to `register` is defined.
    pub open spec fn register_write_defined(self, register: PpuRegister) -> bool {
        &&& register != PpuRegister::OamDma
        &&& register == PpuRegister::PpuData ==> self.memory_defined(high_of(self.v))
    }

    /// The PPU after the CPU writes `value` to `register` (the I/O bus keeps the value).
    pub open spec fn register_written(self, register: PpuRegister, value: u8) -> PpuView {
        let after = match register {
            PpuRegister::PpuCtrl => if self.initialising {
                self
            } else {
                PpuView {
                    t: self.t & 0xf3ff | ((value as u16) & 0x03) << 10,
                    ctrl: self.ctrl & 0x03 | value & 0xfc,
                    ..self
                }
            },
            PpuRegister::PpuMask => if self.initialising {
                self
            } else {
                PpuView { mask: value, ..self }
            },
            PpuRegister::PpuScroll => if self.initialising {
                self
            } else if !bit8(self.w, 0) {
                PpuView { t: self.t & 0x7fe0 | ((value as u16) >> 3), fine_x: value & 0x07, w: 1, ..self }
            } else {
                PpuView {
                    t: self.t & 0x0c1f | ((value as u16) & 0x07) << 12 | ((value as u16) & 0xf8) << 2,
                    w: 0,
                    ..self
                }
            },
            PpuRegister::PpuAddr => if self.initialising {
                self
            } else if !bit8(self.w, 0) {
                PpuView {
                    t: with_bit16(with_bit16(join_bytes(low_of(self.t), value), 14, false), 15, false),
                    w: 1,
                    ..self
                }
            } else {
                PpuView { t: join_bytes(value, high_of(self.t)), w: 0, transfer_t_to_v: true, ..self }
            },
            PpuRegister::PpuData => self.stored(low_of(self.v), high_of(self.v), value),
            PpuRegister::OamAddr => PpuView { oam_addr: value, ..self },
            PpuRegister::OamData => PpuView {
                oam: self.oam.update(self.oam_addr as int, value),
                oam_addr: ((self.oam_addr + 1) % 256) as u8,
                ..self
            },
            _ => self,
        };
        PpuView { io_bus: value, ..after }
    }

    /// Whether a read of `register` is defined.
    pub open spec fn register_read_defined(self, register: PpuRegister) -> bool {
        &&& register != PpuRegister::OamDma
        &&& register == PpuRegister::PpuData ==> self.memory_defined(high_of(self.v))
    }

    /// The PPU after the CPU reads `register`; the read gives the I/O bus afterwards.
    pub open spec fn register_read(self, register: PpuRegister) -> PpuView {
        match register {
            PpuRegister::PpuStatus => PpuView {
                io_bus: self.io_bus & 0x1f | self.status & 0xe0,
                status: with_bit8(self.status, 7, false),
                ..self
            },
            PpuRegister::OamData => PpuView { io_bus: self.oam_read(self.oam_addr), ..self },
            PpuRegister::PpuData => PpuView {
                io_bus: self.memory(low_of(self.v), high_of(self.v)),
                ..self
            },
            _ => self,
        }
    }

    /// The pattern table address of the row of the tile being fetched.
    pub open spec fn pattern_table_address(self) -> (u8, u8) {
        pattern_address(self.ctrl, self.temporary_tile.tile_number, (self.v >> 12) as u8)
    }

    pub open spec fn tile_number_fetched(self) -> PpuView {
        let value = self.memory(self.v as u8, 0x20 | ((self.v >> 8) & 0x0f) as u8);
        PpuView { temporary_tile: TileData { tile_number: value, ..self.temporary_tile }, ..self }
    }

    pub open spec fn attribute_byte_fetched(self) -> PpuView {
        let value = self.memory(
            (0xc0 | ((self.v >> 4) & 0x38) | ((self.v >> 2) & 0x07)) as u8,
            0x23 | ((self.v >> 8) & 0x0c) as u8,
        );
        PpuView {
            temporary_tile: TileData { attribute_table_byte: value, ..self.temporary_tile },
            ..self
        }
    }

    pub open spec fn pattern_low_fetched(self) -> PpuView {
        let (low, high) = self.pattern_table_address();
        PpuView {
            temporary_tile: TileData {
                pattern_table_tile_low: self.memory(low, high),
                ..self.temporary_tile
            },
            ..self
        }
    }

    pub open spec fn pattern_high_fetched(self) -> PpuView {
        let (low, high) = self.pattern_table_address();
        PpuView {
            temporary_tile: TileData {
                pattern_table_tile_high: self.memory(low | 0x08, high),
                ..self.temporary_tile
            },
            ..self
        }
    }

    pub open spec fn tiles_shifted(self) -> PpuView {
        PpuView { current_tile: self.next_tile, next_tile: self.temporary_tile, ..self }
    }

    /// Whether the render step of this dot is defined: the dot is in range, and
    /// the cartridge is connected where it fetches.
    pub open spec fn render_defined(self) -> bool {
        rendering_line(self.scanline) && self.cycle_count != 0 ==> {
            &&& self.cycle_count <= 340
            &&& fetches_at(self.cycle_count) ==> self.cartridge.is_some()
        }
    }

    /// The render step: background fetches and scroll updates of this dot.
    pub open spec fn rendered(self) -> PpuView {
        let c = self.cycle_count;
        if !rendering_line(self.scanline) || c == 0 {
            self
        } else if c <= 255 || (321 <= c <= 336) {
            if c % 8 == 2 {
                self.tile_number_fetched()
            } else if c % 8 == 4 {
                self.attribute_byte_fetched()
            } else if c % 8 == 6 {
                self.pattern_low_fetched()
            } else if c % 8 == 0 {
                let fetched = self.pattern_high_fetched();
                PpuView { v: coarse_x_incremented(fetched.v), ..fetched }.tiles_shifted()
            } else {
                self
            }
        } else if c == 256 {
            let fetched = self.pattern_high_fetched();
            PpuView { v: y_incremented(fetched.v), ..fetched }
        } else if c == 257 {
            PpuView { v: self.v & 0x7be0 | self.t & 0x041f, ..self }
        } else if c == 258 || c == 266 || c == 306 || c == 338 {
            self.tile_number_fetched()
        } else if 280 <= c <= 304 && self.scanline == 261 {
            PpuView { v: self.v & 0x041f | self.t & 0x7be0, ..self }
        } else {
            self
        }
    }

    /// Whether sprite `y_coordinate` covers the current scanline.
    pub open spec fn y_in_range(self, y_coordinate: u8) -> bool {
        let height: u16 = if bit8(self.ctrl, 5) {
            16
        } else {
            8
        };
        y_coordinate as u16 <= self.scanline < y_coordinate as u16 + height
    }

    /// Copies `value` to byte `offset` of the current sprite's slot in
    /// secondary OAM, while fewer than eight sprites were found.
    pub open spec fn sprite_byte_copied(self, offset: u8, value: u8) -> PpuView {
        if self.found_sprites < 8 {
            PpuView {
                secondary_oam: self.secondary_oam.update(self.found_sprites * 4 + offset, value),
                ..self
            }
        } else {
            self
        }
    }

    /// The sprite evaluation state after moving to the next sprite.
    pub open spec fn next_sprite_state(self) -> SpriteEvaluationState {
        if self.oam_addr == 0 {
            SpriteEvaluationState::ReadFinished
        } else if self.found_sprites < 8 {
            SpriteEvaluationState::ReadSpriteYCoordinate
        } else {
            SpriteEvaluationState::ReadOverflowCheckedValue
        }
    }

    /// One cycle of sprite evaluation.
    pub open spec fn sprite_evaluated(self) -> PpuView {
        let value = self.oam_read(self.oam_addr);
        let inc = ((self.oam_addr + 1) % 256) as u8;
        match self.sprite_state {
            SpriteEvaluationState::ReadSpriteYCoordinate => PpuView {
                sprite_state: SpriteEvaluationState::WriteSpriteYCoordinate,
                ..self
            },
            SpriteEvaluationState::WriteSpriteYCoordinate => {
                let copied = self.sprite_byte_copied(0, value);
                if self.y_in_range(value) {
                    PpuView {
                        oam_addr: inc,
                        sprite_state: SpriteEvaluationState::ReadSpriteTile,
                        ..copied
                    }
                } else {
                    let moved = PpuView { oam_addr: ((self.oam_addr + 4) % 256) as u8, ..copied };
                    PpuView { sprite_state: moved.next_sprite_state(), ..moved }
                }
            },
            SpriteEvaluationState::ReadSpriteTile => PpuView {
                sprite_state: SpriteEvaluationState::WriteSpriteTile,
                ..self
            },
            SpriteEvaluationState::WriteSpriteTile => PpuView {
                oam_addr: inc,
                sprite_state: SpriteEvaluationState::ReadSpriteAttributes,
                ..self.sprite_byte_copied(1, value)
            },
            SpriteEvaluationState::ReadSpriteAttributes => PpuView {
                sprite_state: SpriteEvaluationState::WriteSpriteAttributes,
                ..self
            },
            SpriteEvaluationState::WriteSpriteAttributes => PpuView {
                oam_addr: inc,
                sprite_state: SpriteEvaluationState::ReadSpriteXCoordinate,
                ..self.sprite_byte_copied(2, value)
            },
            SpriteEvaluationState::ReadSpriteXCoordinate => PpuView {
                sprite_state: SpriteEvaluationState::WriteSpriteXCoordinate,
                ..self
            },
            SpriteEvaluationState::WriteSpriteXCoordinate => {
                let moved = PpuView {
                    oam_addr: inc,
                    found_sprites: (self.found_sprites + 1) as u8,
                    ..self.sprite_byte_copied(3, value)
                };
                PpuView { sprite_state: moved.next_sprite_state(), ..moved }
            },
            SpriteEvaluationState::ReadOverflowCheckedValue => {
                if self.y_in_range(value) {
                    PpuView {
                        status: with_bit8(self.status, 5, true),
                        oam_addr: inc,
                        sprite_state: SpriteEvaluationState::OverflowCycle(2),
                        ..self
                    }
                } else {
                    // the hardware moves on to the next sprite and, past a sprite's
                    // first byte, to the next byte as well
                    let next = if self.oam_addr & 0x03 == 0x03 {
                        (((self.oam_addr & 0xfc) + 4) % 256) as u8
                    } else {
                        ((self.oam_addr + 5) % 256) as u8
                    };
                    PpuView {
                        oam_addr: next,
                        sprite_state: if next < 0x04 {
                            SpriteEvaluationState::WriteFinished
                        } else {
                            SpriteEvaluationState::OverflowCycle(8)
                        },
                        ..self
                    }
                }
            },
            SpriteEvaluationState::OverflowCycle(cycle) => PpuView {
                oam_addr: if cycle % 2 == 1 {
                    inc
                } else {
                    self.oam_addr
                },
                sprite_state: if cycle < 8 {
                    SpriteEvaluationState::OverflowCycle((cycle + 1) as u8)
                } else {
                    SpriteEvaluationState::ReadOverflowCheckedValue
                },
                ..self
            },
            SpriteEvaluationState::ReadFinished => PpuView {
                sprite_state: SpriteEvaluationState::WriteFinished,
                ..self
            },
            SpriteEvaluationState::WriteFinished => PpuView {
                oam_addr: ((self.oam_addr + 4) % 256) as u8,
                sprite_state: SpriteEvaluationState::ReadFinished,
                ..self.sprite_byte_copied(0, value)
            },
        }
    }

    /// The sprite step: clearing and filling secondary OAM on visible
    /// scanlines; dot 0 is idle.
    pub open spec fn sprites_updated(self) -> PpuView {
        let c = self.cycle_count;
        if self.scanline >= 240 || c == 0 {
            self
        } else if c == 1 {
            PpuView { oam_readable: false, ..self }
        } else if c <= 64 {
            if c % 2 == 0 {
                PpuView { secondary_oam: self.secondary_oam.update(c / 2 - 1, 0xff), ..self }
            } else {
                self
            }
        } else if c == 65 {
            PpuView {
                oam_readable: true,
                sprite_state: SpriteEvaluationState::ReadSpriteYCoordinate,
                oam_addr: 0,
                found_sprites: 0,
                ..self
            }.sprite_evaluated()
        } else if c <= 256 {
            self.sprite_evaluated()
        } else {
            self
        }
    }

    /// The flag step: vertical blank starts at dot 1 of scanline 241, and the
    /// status clears at dot 1 of the pre-render scanline.
    pub open spec fn flags_handled(self) -> PpuView {
        if self.scanline == 241 && self.cycle_count == 1 {
            PpuView { status: with_bit8(self.status, 7, true), ..self }
        } else if self.scanline == 261 && self.cycle_count == 1 {
            PpuView { status: 0, ..self }
        } else {
            self
        }
    }

    /// Whether the counters can advance: the frame counter has room at the
    /// end of a frame.
    pub open spec fn counters_defined(self) -> bool {
        self.cycle_count >= 340 && self.scanline >= 261 ==> self.frame < 0xffff_ffff_ffff_ffff
    }

    /// The counters after a dot, and the delayed copy of `t` into `v`: dot
    /// 340 is followed by dot 0 of the next scanline, scanline 261 by
    /// scanline 0 of the next frame, which starts at dot 1 when its number is even.
    pub open spec fn counters_advanced(self) -> PpuView {
        let (c, line) = if self.cycle_count + 1 > 340 {
            (0u16, (self.scanline + 1) as u16)
        } else {
            ((self.cycle_count + 1) as u16, self.scanline)
        };
        let (line, frame, c) = if line > 261 {
            let frame = (self.frame + 1) as u64;
            (0u16, frame, if frame % 2 == 0 {
                (c + 1) as u16
            } else {
                c
            })
        } else {
            (line, self.frame, c)
        };
        PpuView {
            scanline: line,
            frame: frame,
            cycle_count: c,
            transfer_t_to_v: false,
            v: if self.transfer_t_to_v {
                self.t
            } else {
                self.v
            },
            ..self
        }
    }

    /// Whether a dot is defined.
    pub open spec fn cycle_defined(self) -> bool {
        &&& self.render_defined()
        &&& self.rendered().sprites_updated().flags_handled().counters_defined()
    }

    /// The PPU after one dot.
    pub open spec fn cycled(self) -> PpuView {
        self.rendered().sprites_updated().flags_handled().counters_advanced()
    }
}

impl PpuView {
    /// Whether the sprite count fits: at most eight, and fewer while a sprite
    /// is being copied.
    pub open spec fn sprite_count_fits(self) -> bool {
        &&& self.found_sprites <= 8
        &&& match self.sprite_state {
            SpriteEvaluationState::ReadSpriteYCoordinate
            | SpriteEvaluationState::WriteSpriteYCoordinate
            | SpriteEvaluationState::ReadSpriteTile | SpriteEvaluationState::WriteSpriteTile
            | SpriteEvaluationState::ReadSpriteAttributes
            | SpriteEvaluationState::WriteSpriteAttributes
            | SpriteEvaluationState::ReadSpriteXCoordinate
            | SpriteEvaluationState::WriteSpriteXCoordinate => self.found_sprites < 8,
            _ => true,
        }
    }

    /// The PPU's invariant: memories of their sizes, the VRAM addresses within
    /// 15 bits, the fine X scroll within 3 bits, the dot within 0..=340, the
    /// scanline within 0..=261, and the sprite count within its bounds.
    pub open spec fn wf(self) -> bool {
        &&& self.vram.len() == 2048
        &&& self.oam.len() == 256
        &&& self.secondary_oam.len() == 32
        &&& self.palette.len() == 32
        &&& self.v < 0x8000
        &&& self.t < 0x8000
        &&& self.fine_x < 8
        &&& self.cycle_count <= 340
        &&& self.scanline <= 261
        &&& self.sprite_count_fits()
        &&& self.cartridge matches Some(c) ==> c.character_rom().len() == 8192
    }
}

impl PpuView {
    /// The background pixel of the current tile at the fine X scroll: the
    /// colour index from the two pattern planes, the palette from the
    /// attribute byte, as `palette << 2 | colour`.
    pub open spec fn background_pixel(self) -> u8 {
        let low_bit = (self.current_tile.pattern_table_tile_low >> self.fine_x) & 1;
        let high_bit = (self.current_tile.pattern_table_tile_high >> self.fine_x) & 1;
        let color_index = (high_bit << 1u8) | low_bit;
        let attribute_index = ((if bit16(self.v, 1) {
            2u8
        } else {
            0u8
        }) + (if bit16(self.v, 6) {
            4u8
        } else {
            0u8
        })) as u8;
        let palette_index = (self.current_tile.attribute_table_byte >> attribute_index) & 0x03;
        (palette_index << 2u8) | color_index
    }
}

/// The RAM cell of a nametable address depends on its high byte modulo 8 only.
pub proof fn lemma_ram_index_page(low: u8, page: u8)
    ensures
        ram_index(low, page) == (page % 8) as int * 256 + low as int,
{
    assert((page as int * 256 + low as int) % 2048 == (page % 8) as int * 256 + low as int)
        by (nonlinear_arith);
}

/// Horizontal mirroring makes $2000 and $2400, and $2800 and $2C00, the same
/// nametable, and keeps $2000 and $2800 apart; vertical mirroring makes $2000
/// and $2800, and $2400 and $2C00, the same, and keeps $2000 and $2400 apart;
/// $3000-$3EFF repeats $2000-$2EFF under both.
pub proof fn lemma_nametable_mirroring(low: u8, high: u8)
    requires
        0x20 <= high < 0x3f,
    ensures
        ram_index(low, mirrored_high(Mirroring::Horizontal, high)) == ram_index(
            low,
            mirrored_high(Mirroring::Horizontal, high ^ 0x04),
        ),
        ram_index(low, mirrored_high(Mirroring::Horizontal, high)) != ram_index(
            low,
            mirrored_high(Mirroring::Horizontal, high ^ 0x08),
        ),
        ram_index(low, mirrored_high(Mirroring::Vertical, high)) == ram_index(
            low,
            mirrored_high(Mirroring::Vertical, high ^ 0x08),
        ),
        ram_index(low, mirrored_high(Mirroring::Vertical, high)) != ram_index(
            low,
            mirrored_high(Mirroring::Vertical, high ^ 0x04),
        ),
        high >= 0x30 ==> ram_index(low, mirrored_high(Mirroring::Horizontal, high)) == ram_index(
            low,
            mirrored_high(Mirroring::Horizontal, (high - 0x10) as u8),
        ),
        high >= 0x30 ==> ram_index(low, mirrored_high(Mirroring::Vertical, high)) == ram_index(
            low,
            mirrored_high(Mirroring::Vertical, (high - 0x10) as u8),
        ),
{
    let h = high;
    let hs = (high - 0x10) as u8;
    assert(((h & 0x03 | (h >> 1) & 0x04) % 8 == ((h ^ 0x04) & 0x03 | ((h ^ 0x04) >> 1) & 0x04) % 8)
        && ((h & 0x03 | (h >> 1) & 0x04) % 8 != ((h ^ 0x08) & 0x03 | ((h ^ 0x08) >> 1) & 0x04) % 8)
        && ((h & 0x07) % 8 == ((h ^ 0x08) & 0x07) % 8) && ((h & 0x07) % 8 != ((h ^ 0x04) & 0x07)
        % 8)) by (bit_vector);
    assert(h >= 0x30 && hs == h - 0x10 ==> ((h & 0x03 | (h >> 1) & 0x04) % 8 == (hs & 0x03 | (hs
        >> 1) & 0x04) % 8) && ((h & 0x07) % 8 == (hs & 0x07) % 8)) by (bit_vector);
    lemma_ram_index_page(low, mirrored_high(Mirroring::Horizontal, h));
    lemma_ram_index_page(low, mirrored_high(Mirroring::Horizontal, h ^ 0x04));
    lemma_ram_index_page(low, mirrored_high(Mirroring::Horizontal, h ^ 0x08));
    lemma_ram_index_page(low, mirrored_high(Mirroring::Horizontal, hs));
    lemma_ram_index_page(low, mirrored_high(Mirroring::Vertical, h));
    lemma_ram_index_page(low, mirrored_high(Mirroring::Vertical, h ^ 0x04));
    lemma_ram_index_page(low, mirrored_high(Mirroring::Vertical, h ^ 0x08));
    lemma_ram_index_page(low, mirrored_high(Mirroring::Vertical, hs));
}

/// A read of PPU memory gives back what was written to the same address in
/// the nametables or the palette; a write to the character ROM changes nothing.
pub proof fn lemma_memory_read_after_write(v: PpuView, low: u8, high: u8, value: u8)
    requires
        v.wf(),
        v.memory_defined(high),
    ensures
        high >= 0x20 ==> v.stored(low, high, value).memory(low, high) == value,
        high < 0x20 ==> v.stored(low, high, value) == v,
{
    lemma_ram_index_page(low, mirrored_high(v.mirroring(), high));
}

/// Two writes to PPUADDR, high byte first, set the temporary address to that
/// address with bit 14 cleared, and it becomes the current VRAM address at
/// the end of the next dot.
pub proof fn lemma_ppu_addr_sets_address(v: PpuView, high: u8, low: u8)
    requires
        v.wf(),
        !v.initialising,
        !bit8(v.w, 0),
    ensures
        ({
            let after = v.register_written(PpuRegister::PpuAddr, high).register_written(
                PpuRegister::PpuAddr,
                low,
            );
            &&& after.t == join_bytes(low, high & 0x3f)
            &&& !bit8(after.w, 0)
            &&& after.transfer_t_to_v
            &&& after.cycled().v == join_bytes(low, high & 0x3f)
        }),
{
    let t = v.t;
    assert((1u8 >> 0u8) & 1 == 1 && (0u8 >> 0u8) & 1 != 1) by (bit_vector);
    let first = with_bit16(with_bit16(join_bytes(low_of(t), high), 14, false), 15, false);
    assert(join_bytes(low, high_of(first)) == join_bytes(low, high & 0x3f)) by (bit_vector)
        requires
            first == ((((t % 256) as u8) as int + high as int * 256) as u16 & !(1u16 << 14u8)) & !(
            1u16 << 15u8),
    ;
}

/// Writing PPUDATA and then reading it at the same VRAM address gives back the
/// value, for a nametable or palette address.
pub proof fn lemma_ppu_data_round_trip(v: PpuView, value: u8)
    requires
        v.wf(),
        v.register_write_defined(PpuRegister::PpuData),
        high_of(v.v) >= 0x20,
    ensures
        v.register_written(PpuRegister::PpuData, value).register_read(PpuRegister::PpuData).io_bus
            == value,
{
    lemma_memory_read_after_write(v, low_of(v.v), high_of(v.v), value);
}

/// Reading PPUSTATUS clears the vertical blank flag and puts the status's top
/// three bits on the I/O bus, keeping its low five.
pub proof fn lemma_status_read(v: PpuView)
    ensures
        ({
            let after = v.register_read(PpuRegister::PpuStatus);
            &&& !bit8(after.status, 7)
            &&& after.io_bus >> 5 == v.status >> 5
            &&& after.io_bus & 0x1f == v.io_bus & 0x1f
        }),
{
    let (io, s) = (v.io_bus, v.status);
    assert(((io & 0x1f | s & 0xe0) >> 5 == s >> 5) && ((io & 0x1f | s & 0xe0) & 0x1f == io & 0x1f)
        && ((s & !(1u8 << 7u8)) >> 7u8) & 1 != 1) by (bit_vector);
}

/// Writing OAMDATA after setting OAMADDR, then setting OAMADDR back and
/// reading OAMDATA, gives back the value while OAM is readable.
pub proof fn lemma_oam_data_round_trip(v: PpuView, address: u8, value: u8)
    requires
        v.wf(),
        v.oam_readable,
    ensures
        v.register_written(PpuRegister::OamAddr, address).register_written(
            PpuRegister::OamData,
            value,
        ).register_written(PpuRegister::OamAddr, address).register_read(
            PpuRegister::OamData,
        ).io_bus == value,
{
}

/// Moving one tile right adds one to the coarse X scroll; from 31 it wraps to
/// 0 and switches the horizontal nametable; the rest of the address is kept.
pub proof fn lemma_coarse_x_increment(v: u16)
    requires
        v < 0x8000,
    ensures
        coarse_x(coarse_x_incremented(v)) == (coarse_x(v) + 1) % 32,
        nametable_x(coarse_x_incremented(v)) == if coarse_x(v) == 31 {
            1 - nametable_x(v)
        } else {
            nametable_x(v) as int
        },
        coarse_y(coarse_x_incremented(v)) == coarse_y(v),
        nametable_y(coarse_x_incremented(v)) == nametable_y(v),
        fine_y(coarse_x_incremented(v)) == fine_y(v),
        coarse_x_incremented(v) < 0x8000,
{
    let r = coarse_x_incremented(v);
    assert(v < 0x8000 && r == (if v & 0x001f == 31 { (v & 0x7fe0) ^ 0x0400 } else { (v + 1) as u16 })
        ==> {
        &&& r & 0x1f == ((v & 0x1f) + 1) % 32
        &&& (r >> 10) & 1 == (if v & 0x1f == 31 { ((v >> 10) & 1) ^ 1 } else { (v >> 10) & 1 })
        &&& (r >> 5) & 0x1f == (v >> 5) & 0x1f
        &&& (r >> 11) & 1 == (v >> 11) & 1
        &&& (r >> 12) & 7 == (v >> 12) & 7
        &&& r < 0x8000
    }) by (bit_vector);
    assert(((v >> 10) & 1) ^ 1 == 1 - ((v >> 10) & 1)) by (bit_vector);
}

/// Moving one row down adds one to the fine Y scroll; from 7 it wraps to 0
/// and adds one to the coarse Y scroll, which wraps from 29 to 0 switching the
/// vertical nametable, and from 31 to 0 without; the rest is kept.
pub proof fn lemma_y_increment(v: u16)
    requires
        v < 0x8000,
    ensures
        ({
            let r = y_incremented(v);
            &&& r < 0x8000
            &&& coarse_x(r) == coarse_x(v)
            &&& nametable_x(r) == nametable_x(v)
            &&& fine_y(v) < 7 ==> fine_y(r) == fine_y(v) + 1 && coarse_y(r) == coarse_y(v)
                && nametable_y(r) == nametable_y(v)
            &&& fine_y(v) == 7 ==> fine_y(r) == 0 && coarse_y(r) == (if coarse_y(v) == 29
                || coarse_y(v) == 31 {
                0
            } else {
                coarse_y(v) + 1
            }) && nametable_y(r) == (if coarse_y(v) == 29 {
                1 - nametable_y(v)
            } else {
                nametable_y(v) as int
            })
        }),
{
    let r = y_incremented(v);
    assert(v < 0x8000 && r == y_incremented(v) ==> {
        &&& r < 0x8000
        &&& r & 0x1f == v & 0x1f
        &&& (r >> 10) & 1 == (v >> 10) & 1
        &&& ((v >> 12) & 7 < 7 ==> (r >> 12) & 7 == ((v >> 12) & 7) + 1 && (r >> 5) & 0x1f == (v
            >> 5) & 0x1f && (r >> 11) & 1 == (v >> 11) & 1)
        &&& ((v >> 12) & 7 == 7 ==> (r >> 12) & 7 == 0 && (r >> 5) & 0x1f == (if (v >> 5) & 0x1f
            == 29 || (v >> 5) & 0x1f == 31 {
            0
        } else {
            ((v >> 5) & 0x1f) + 1
        }) && (r >> 11) & 1 == (if (v >> 5) & 0x1f == 29 {
            ((v >> 11) & 1) ^ 1
        } else {
            (v >> 11) & 1
        }))
    }) by (bit_vector);
    assert(((v >> 11) & 1) ^ 1 == 1 - ((v >> 11) & 1)) by (bit_vector);
}

/// Vertical blank begins at dot 1 of scanline 241: the status's bit 7 is set.
pub proof fn lemma_vblank_starts(v: PpuView)
    requires
        v.scanline == 241,
        v.cycle_count == 1,
    ensures
        bit8(v.flags_handled().status, 7),
{
    let s = v.status;
    assert(((s | (1u8 << 7u8)) >> 7u8) & 1 == 1) by (bit_vector);
}

/// The dots of a scanline run from 0 to 340 and the scanlines of a frame
/// from 0 to 261: dot 340 is followed by dot 0 of the next scanline, and the
/// last dot of scanline 261 by scanline 0 of the next frame.
pub proof fn lemma_dot_order(v: PpuView)
    requires
        v.cycle_count <= 340,
        v.scanline <= 261,
        v.counters_defined(),
    ensures
        ({
            let n = v.counters_advanced();
            &&& n.cycle_count <= 340
            &&& n.scanline <= 261
            &&& v.cycle_count < 340 ==> n.cycle_count == v.cycle_count + 1 && n.scanline
                == v.scanline && n.frame == v.frame
            &&& v.cycle_count == 340 && v.scanline < 261 ==> n.cycle_count == 0 && n.scanline
                == v.scanline + 1 && n.frame == v.frame
            &&& v.cycle_count == 340 && v.scanline == 261 ==> n.scanline == 0 && n.frame == v.frame
                + 1 && n.cycle_count == (if (v.frame + 1) % 2 == 0 {
                1int
            } else {
                0int
            })
        }),
{
}

/// With a cartridge connected, every dot of every scanline is defined, as
/// long as the frame counter has room: the PPU never stalls.
pub proof fn lemma_dot_always_defined(v: PpuView)
    requires
        v.wf(),
        v.cartridge.is_some(),
        v.frame < 0xffff_ffff_ffff_ffff,
    ensures
        v.cycle_defined(),
{
    let r = v.rendered();
    assert(r.cycle_count == v.cycle_count && r.scanline == v.scanline && r.frame == v.frame);
    let s = r.sprites_updated();
    assert(s.cycle_count == v.cycle_count && s.scanline == v.scanline && s.frame == v.frame);
}

impl PpuView {
    /// The PPU after `n` dots.
    pub open spec fn cycled_times(self, n: nat) -> PpuView
        decreases n,
    {
        if n == 0 {
            self
        } else {
            self.cycled_times((n - 1) as nat).cycled()
        }
    }
}

/// One of dots 1 to 64 of a visible scanline: the background step leaves OAM
/// alone, dot 1 hides OAM, and each even dot fills one byte of secondary OAM
/// with 0xff.
proof fn lemma_clearing_dot(u: PpuView)
    requires
        u.scanline < 240,
        1 <= u.cycle_count <= 64,
    ensures
        ({
            let w = u.cycled();
            &&& w.scanline == u.scanline
            &&& w.cycle_count == u.cycle_count + 1
            &&& w.oam == u.oam
            &&& w.oam_readable == (u.oam_readable && u.cycle_count != 1)
            &&& w.secondary_oam == if u.cycle_count % 2 == 0 {
                u.secondary_oam.update(u.cycle_count / 2 - 1, 0xff)
            } else {
                u.secondary_oam
            }
        }),
{
    let r = u.rendered();
    assert(r.scanline == u.scanline && r.cycle_count == u.cycle_count && r.oam == u.oam
        && r.oam_readable == u.oam_readable && r.secondary_oam == u.secondary_oam);
}

/// The first `k` of dots 1 to 64 of a visible scanline.
proof fn lemma_clearing_prefix(v: PpuView, k: nat)
    requires
        v.scanline < 240,
        v.cycle_count == 1,
        v.secondary_oam.len() == 32,
        k <= 64,
    ensures
        ({
            let w = v.cycled_times(k);
            &&& w.cycle_count == 1 + k
            &&& w.scanline == v.scanline
            &&& w.oam == v.oam
            &&& k >= 1 ==> !w.oam_readable
            &&& w.secondary_oam.len() == 32
            &&& forall|i: int| 0 <= i < k / 2 ==> w.secondary_oam[i] == 0xff
        }),
    decreases k,
{
    if k > 0 {
        lemma_clearing_prefix(v, (k - 1) as nat);
        let u = v.cycled_times((k - 1) as nat);
        lemma_clearing_dot(u);
        let w = v.cycled_times(k);
        assert(w == u.cycled());
        assert forall|i: int| 0 <= i < k / 2 implies w.secondary_oam[i] == 0xff by {
            if k % 2 == 0 && i == k / 2 - 1 {
            } else {
                assert(i < (k - 1) as nat / 2);
            }
        }
    }
}

/// Dots 1 to 64 of a visible scanline clear all of secondary OAM to 0xff, one
/// byte every second dot, and leave OAM unreadable with its bytes unchanged.
pub proof fn lemma_secondary_oam_cleared(v: PpuView)
    requires
        v.scanline < 240,
        v.cycle_count == 1,
        v.secondary_oam.len() == 32,
    ensures
        ({
            let w = v.cycled_times(64);
            &&& w.cycle_count == 65
            &&& w.scanline == v.scanline
            &&& w.oam == v.oam
            &&& !w.oam_readable
            &&& forall|i: int| 0 <= i < 32 ==> w.secondary_oam[i] == 0xff
        }),
{
    lemma_clearing_prefix(v, 64);
}

/// The nametable and attribute fetch addresses lie below $3F00.
pub proof fn lemma_fetch_addresses(v: u16)
    ensures
        0x20 | ((v >> 8) & 0x0f) as u8 <= 0x3f,
        0x23 | ((v >> 8) & 0x0c) as u8 <= 0x3f,
{
    assert(0x20 | ((v >> 8) & 0x0f) as u8 <= 0x3f && 0x23 | ((v >> 8) & 0x0c) as u8 <= 0x3f)
        by (bit_vector);
}

/// Copying the horizontal or the vertical part of `t` into `v` keeps a 15-bit address.
pub proof fn lemma_address_copies(v: u16, t: u16)
    requires
        v < 0x8000,
        t < 0x8000,
    ensures
        (v & 0x7be0) | (t & 0x041f) < 0x8000,
        (v & 0x041f) | (t & 0x7be0) < 0x8000,
{
    assert((v & 0x7be0) | (t & 0x041f) < 0x8000 && (v & 0x041f) | (t & 0x7be0) < 0x8000)
        by (bit_vector)
        requires
            v < 0x8000,
            t < 0x8000,
    ;
}

/// The register writes keep the temporary address within 15 bits and the
/// fine X scroll within 3.
pub proof fn lemma_register_write_bounds(t: u16, value: u8)
    ensures
        t < 0x8000 ==> t & 0xf3ff | (value as u16 & 0x03) << 10 < 0x8000,
        t & 0x7fe0 | (value as u16 >> 3) < 0x8000,
        value & 0x07 < 8,
        t & 0x0c1f | (value as u16 & 0x07) << 12 | (value as u16 & 0xf8) << 2 < 0x8000,
        t & !(1u16 << 15u8) < 0x8000,
        t < 0x8000 ==> join_bytes(value, high_of(t)) < 0x8000,
{
    assert((t < 0x8000 ==> t & 0xf3ff | (value as u16 & 0x03) << 10 < 0x8000) && t & 0x7fe0 | (
    value as u16 >> 3) < 0x8000 && value & 0x07 < 8 && t & 0x0c1f | (value as u16 & 0x07) << 12 | (
    value as u16 & 0xf8) << 2 < 0x8000 && t & !(1u16 << 15u8) < 0x8000 && (t < 0x8000 ==> ((value
        as int + ((t / 256) as u8) as int * 256) as u16) < 0x8000)) by (bit_vector);
}

} // verus!
