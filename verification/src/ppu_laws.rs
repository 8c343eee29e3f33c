use vstd::prelude::*;
use crate::ppu::{PpuRegister, SpriteEvaluationState};
use crate::ppu_model::{PpuView, coarse_x_incremented, y_incremented};
use crate::register::bit8;

verus! {

/// The number of scanlines a sprite covers: 16 when PPUCTRL bit 5 selects
/// 8x16 sprites, 8 otherwise.
pub open spec fn sprite_height(ctrl: u8) -> int {
    if ctrl & 0x20 != 0 {
        16
    } else {
        8
    }
}

/// A sprite whose Y coordinate is `y` covers the scanlines from `y` on, as
/// many as its height: the current scanline is in range iff
/// `y <= scanline < y + height`.
pub proof fn lemma_sprite_in_range(v: PpuView, y: u8)
    ensures
        v.y_in_range(y) == (y <= v.scanline && v.scanline < y + sprite_height(v.ctrl)),
{
    let c = v.ctrl;
    assert(((c >> 5u8) & 1 == 1) == (c & 0x20 != 0)) by (bit_vector);
}

/// Sprite evaluation of a sprite's Y coordinate: the byte is copied into the
/// next free slot of secondary OAM; if the sprite covers the current scanline
/// evaluation goes on to its tile byte at the next OAM address, otherwise it
/// skips to the next sprite, four bytes on.
pub proof fn lemma_sprite_y_evaluation(v: PpuView)
    requires
        v.sprite_state == SpriteEvaluationState::WriteSpriteYCoordinate,
        v.found_sprites < 8,
    ensures
        ({
            let y = v.oam_read(v.oam_addr);
            let w = v.sprite_evaluated();
            &&& w.secondary_oam == v.secondary_oam.update(4 * v.found_sprites, y)
            &&& w.found_sprites == v.found_sprites
            &&& (y <= v.scanline && v.scanline < y + sprite_height(v.ctrl)) ==> w.sprite_state
                == SpriteEvaluationState::ReadSpriteTile && w.oam_addr == (v.oam_addr + 1) % 256
            &&& !(y <= v.scanline && v.scanline < y + sprite_height(v.ctrl)) ==> w.oam_addr == (
            v.oam_addr + 4) % 256 && w.sprite_state != SpriteEvaluationState::ReadSpriteTile
        }),
{
    lemma_sprite_in_range(v, v.oam_read(v.oam_addr));
}

/// Sprite evaluation of a sprite's X coordinate, its last byte: the byte goes
/// to the fourth byte of its slot, and the sprite is counted as found.
pub proof fn lemma_sprite_x_evaluation(v: PpuView)
    requires
        v.sprite_state == SpriteEvaluationState::WriteSpriteXCoordinate,
        v.found_sprites < 8,
    ensures
        ({
            let w = v.sprite_evaluated();
            &&& w.secondary_oam == v.secondary_oam.update(
                4 * v.found_sprites + 3,
                v.oam_read(v.oam_addr),
            )
            &&& w.found_sprites == v.found_sprites + 1
            &&& w.oam_addr == (v.oam_addr + 1) % 256
        }),
{
}

/// Sprite evaluation of a sprite's tile and attribute bytes: each goes to
/// its own byte (1, then 2) of the sprite's slot in secondary OAM, and OAM
/// moves on by one.
pub proof fn lemma_sprite_tile_and_attribute_evaluation(v: PpuView)
    requires
        v.found_sprites < 8,
    ensures
        v.sprite_state == SpriteEvaluationState::WriteSpriteTile ==> {
            let w = v.sprite_evaluated();
            &&& w.secondary_oam == v.secondary_oam.update(
                4 * v.found_sprites + 1,
                v.oam_read(v.oam_addr),
            )
            &&& w.oam_addr == (v.oam_addr + 1) % 256
            &&& w.sprite_state == SpriteEvaluationState::ReadSpriteAttributes
        },
        v.sprite_state == SpriteEvaluationState::WriteSpriteAttributes ==> {
            let w = v.sprite_evaluated();
            &&& w.secondary_oam == v.secondary_oam.update(
                4 * v.found_sprites + 2,
                v.oam_read(v.oam_addr),
            )
            &&& w.oam_addr == (v.oam_addr + 1) % 256
            &&& w.sprite_state == SpriteEvaluationState::ReadSpriteXCoordinate
        },
{
}

/// Overflow evaluation: when a ninth sprite covers the scanline, the sprite
/// overflow flag (status bit 5) is set.
pub proof fn lemma_sprite_overflow(v: PpuView)
    requires
        v.sprite_state == SpriteEvaluationState::ReadOverflowCheckedValue,
    ensures
        ({
            let y = v.oam_read(v.oam_addr);
            (y <= v.scanline && v.scanline < y + sprite_height(v.ctrl)) ==> bit8(
                v.sprite_evaluated().status,
                5,
            )
        }),
{
    lemma_sprite_in_range(v, v.oam_read(v.oam_addr));
    let s = v.status;
    assert(((s | (1u8 << 5u8)) >> 5u8) & 1 == 1) by (bit_vector);
}

/// A PPUCTRL write puts the value's two low bits (the base nametable) into
/// bits 10 and 11 of the temporary address and keeps the rest of it, and
/// keeps the value's top six bits as the control bits; while the PPU is
/// initialising the write changes neither.
pub proof fn lemma_ppu_ctrl_write(v: PpuView, value: u8)
    ensures
        ({
            let w = v.register_written(PpuRegister::PpuCtrl, value);
            &&& !v.initialising ==> (w.t >> 10) & 3 == (value & 3) as u16 && w.t & 0xf3ff == v.t
                & 0xf3ff && w.ctrl & 0xfc == value & 0xfc
            &&& v.initialising ==> w.t == v.t && w.ctrl == v.ctrl
            &&& w.v == v.v && w.io_bus == value
        }),
{
    let (t, c) = (v.t, v.ctrl);
    assert(((t & 0xf3ff | ((value as u16) & 0x03) << 10) >> 10) & 3 == (value & 3) as u16 && (t
        & 0xf3ff | ((value as u16) & 0x03) << 10) & 0xf3ff == t & 0xf3ff && (c & 0x03 | value
        & 0xfc) & 0xfc == value & 0xfc) by (bit_vector);
}

/// The two PPUSCROLL writes. The first (write toggle clear) sets the coarse X
/// scroll (bits 0-4 of t) to the value's top five bits and the fine X scroll
/// to its low three, and keeps the rest of t. The second sets the fine Y
/// scroll (bits 12-14 of t) to the value's low three bits and the coarse Y
/// scroll (bits 5-9) to its top five, and keeps the rest of t. Each write
/// flips the toggle; none changes the current address.
pub proof fn lemma_ppu_scroll_writes(v: PpuView, value: u8)
    requires
        !v.initialising,
        v.t < 0x8000,
    ensures
        ({
            let w = v.register_written(PpuRegister::PpuScroll, value);
            &&& !bit8(v.w, 0) ==> w.t & 0x1f == (value >> 3) as u16 && w.fine_x == value & 0x07
                && w.t & 0x7fe0 == v.t & 0x7fe0 && bit8(w.w, 0)
            &&& bit8(v.w, 0) ==> (w.t >> 12) & 7 == (value & 7) as u16 && (w.t >> 5) & 0x1f == (
            value >> 3) as u16 && w.t & 0x0c1f == v.t & 0x0c1f && !bit8(w.w, 0) && w.fine_x
                == v.fine_x
            &&& w.v == v.v
        }),
{
    let t = v.t;
    assert(t < 0x8000 ==> {
        &&& (t & 0x7fe0 | (value as u16) >> 3) & 0x1f == (value >> 3) as u16
        &&& (t & 0x7fe0 | (value as u16) >> 3) & 0x7fe0 == t & 0x7fe0
        &&& ((t & 0x0c1f | ((value as u16) & 0x07) << 12 | ((value as u16) & 0xf8) << 2) >> 12)
            & 7 == (value & 7) as u16
        &&& ((t & 0x0c1f | ((value as u16) & 0x07) << 12 | ((value as u16) & 0xf8) << 2) >> 5)
            & 0x1f == (value >> 3) as u16
        &&& (t & 0x0c1f | ((value as u16) & 0x07) << 12 | ((value as u16) & 0xf8) << 2) & 0x0c1f
            == t & 0x0c1f
        &&& (1u8 >> 0u8) & 1 == 1
        &&& (0u8 >> 0u8) & 1 != 1
    }) by (bit_vector);
}

/// PPUMASK, OAMADDR and OAMDATA writes: the mask takes the value (unless the
/// PPU is initialising), OAMADDR takes the value, and OAMDATA stores the value
/// at OAMADDR and moves OAMADDR on by one.
pub proof fn lemma_simple_register_writes(v: PpuView, value: u8)
    ensures
        !v.initialising ==> v.register_written(PpuRegister::PpuMask, value).mask == value,
        v.register_written(PpuRegister::OamAddr, value).oam_addr == value,
        v.register_written(PpuRegister::OamData, value).oam == v.oam.update(v.oam_addr as int, value),
        v.register_written(PpuRegister::OamData, value).oam_addr == (v.oam_addr + 1) % 256,
{
}

/// The status flags over a frame: vertical blank (bit 7) is set at dot 1 of
/// scanline 241, the whole status is cleared at dot 1 of the pre-render
/// scanline 261, and no other dot changes it.
pub proof fn lemma_status_timing(v: PpuView)
    ensures
        v.scanline == 241 && v.cycle_count == 1 ==> bit8(v.flags_handled().status, 7),
        v.scanline == 261 && v.cycle_count == 1 ==> v.flags_handled().status == 0,
        !(v.cycle_count == 1 && (v.scanline == 241 || v.scanline == 261))
            ==> v.flags_handled().status == v.status,
{
    let s = v.status;
    assert(((s | (1u8 << 7u8)) >> 7u8) & 1 == 1) by (bit_vector);
}

/// The nametable address of the tile that the current VRAM address points
/// at: $2000 plus its low twelve bits.
pub open spec fn tile_address(v: u16) -> int {
    0x2000 + v % 0x1000
}

/// The attribute table address for the current VRAM address:
/// `$23C0 | nametable bits | coarse Y / 4 << 3 | coarse X / 4`.
pub open spec fn attribute_address(v: u16) -> int {
    (0x23c0 | (v & 0x0c00) | ((v >> 4) & 0x38) | ((v >> 2) & 0x07)) as int
}

/// The background part of a dot on a rendering scanline (0-239 and 261):
/// the nametable byte is fetched from `tile_address(v)` at the dots 2 mod 8,
/// the attribute byte from `attribute_address(v)` at the dots 4 mod 8; at
/// the dots 0 mod 8 of the fetch ranges the coarse X scroll steps; dot 256
/// steps the Y scroll; dot 257 copies the horizontal bits of t into v; dots
/// 280 to 304 of the pre-render scanline copy its vertical bits; every other
/// dot, and every dot of the other scanlines, keeps v.
pub proof fn lemma_render_schedule(v: PpuView)
    requires
        v.v < 0x8000,
    ensures
        ({
            let r = v.rendered();
            let c = v.cycle_count;
            let line = v.scanline;
            let rendering = line < 240 || line == 261;
            let fetching = 1 <= c <= 255 || 321 <= c <= 336;
            &&& !rendering || c == 0 ==> r == v
            &&& rendering && fetching && c % 8 == 0 ==> r.v == coarse_x_incremented(v.v)
            &&& rendering && c == 256 ==> r.v == y_incremented(v.v)
            &&& rendering && c == 257 ==> r.v & 0x041f == v.t & 0x041f && r.v & 0x7be0 == v.v
                & 0x7be0
            &&& line == 261 && 280 <= c <= 304 ==> r.v & 0x7be0 == v.t & 0x7be0 && r.v & 0x041f
                == v.v & 0x041f
            &&& !(fetching && c % 8 == 0) && c != 256 && c != 257 && !(line == 261 && 280 <= c
                <= 304) ==> r.v == v.v
            &&& rendering && (fetching && c % 8 == 2 || c == 258 || c == 266 || c == 306 || c
                == 338) ==> r.temporary_tile.tile_number == v.memory(
                (tile_address(v.v) % 256) as u8,
                (tile_address(v.v) / 256) as u8,
            )
            &&& rendering && fetching && c % 8 == 4 ==> r.temporary_tile.attribute_table_byte
                == v.memory((attribute_address(v.v) % 256) as u8, (attribute_address(v.v) / 256) as u8)
        }),
{
    let (a, t) = (v.v, v.t);
    assert(((a & 0x7be0 | t & 0x041f) & 0x041f == t & 0x041f) && ((a & 0x7be0 | t & 0x041f)
        & 0x7be0 == a & 0x7be0) && ((a & 0x041f | t & 0x7be0) & 0x7be0 == t & 0x7be0) && ((a
        & 0x041f | t & 0x7be0) & 0x041f == a & 0x041f)) by (bit_vector);
    assert(a < 0x8000 ==> {
        &&& a as u8 == ((0x2000 + a % 0x1000) % 256) as u8
        &&& 0x20 | ((a >> 8) & 0x0f) as u8 == ((0x2000 + a % 0x1000) / 256) as u8
        &&& (0xc0 | ((a >> 4) & 0x38) | ((a >> 2) & 0x07)) as u8 == ((0x23c0 | (a & 0x0c00) | ((a
            >> 4) & 0x38) | ((a >> 2) & 0x07)) % 256) as u8
        &&& 0x23 | ((a >> 8) & 0x0c) as u8 == ((0x23c0 | (a & 0x0c00) | ((a >> 4) & 0x38) | ((a
            >> 2) & 0x07)) / 256) as u8
    }) by (bit_vector);
}

} // verus!
