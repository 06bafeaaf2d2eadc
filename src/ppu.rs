use vstd::prelude::*;
use vstd::arithmetic::div_mod::lemma_fundamental_div_mod_converse;

use crate::memory::{Memory, Interrupt, MEMORY_LOCATION_INTERRUPTS_FLAGGED, MEMORY_LOCATION_OAM_BEGIN, MEMORY_LOCATION_LCD_CONTROL, MEMORY_LOCATION_LCD_STATUS, MEMORY_LOCATION_SCX, MEMORY_LOCATION_SCY, MEMORY_LOCATION_WX, MEMORY_LOCATION_WY, MEMORY_LOCATION_LY, MEMORY_LOCATION_LYC, MEMORY_LOCATION_PALETTE_BG, MEMORY_LOCATION_PALETTE_OBP0, MEMORY_LOCATION_PALETTE_OBP1};
use crate::utils::{bit_of, get_bit, change_bit};

verus! {

pub const SCREEN_W: u32 = 160;
pub const SCREEN_H: u32 = 144;
pub const SCREEN_PIXELS: usize = 23040;

pub const CPU_CYCLES_PER_LINE: u64 = 456;
pub const CPU_CYCLES_PER_FRAME: u64 = 70_224;

pub const LCD_CONTROL_BIT_BG_WINDOW_ENABLED: u8 = 0;
pub const LCD_CONTROL_BIT_SPRITE_ENABLED: u8 = 1;
pub const LCD_CONTROL_BIT_SPRITE_SIZE: u8 = 2;
pub const LCD_CONTROL_BIT_BG_TILE_MAP_SELECT: u8 = 3;
pub const LCD_CONTROL_BIT_TILE_DATA_SELECT: u8 = 4;
pub const LCD_CONTROL_BIT_WINDOW_ENABLED: u8 = 5;
pub const LCD_CONTROL_BIT_WINDOW_TILE_MAP_SELECT: u8 = 6;
pub const LCD_CONTROL_BIT_LCD_ENABLED: u8 = 7;

pub const LCD_STATUS_BIT_FLAG_COINCIDENCE: u8 = 2;
pub const LCD_STATUS_BIT_ENABLE_IRQ_MODE_0: u8 = 3;
pub const LCD_STATUS_BIT_ENABLE_IRQ_MODE_1: u8 = 4;
pub const LCD_STATUS_BIT_ENABLE_IRQ_MODE_2: u8 = 5;
pub const LCD_STATUS_BIT_ENABLE_IRQ_LYC_EQ_LY: u8 = 6;

/// The 160x144 grid of shades (0..3) shown on the display, row by row.
#[derive(Clone)]
pub struct LcdBuffer {
    pixels: Vec<u8>,
}

impl View for LcdBuffer {
    type V = Seq<u8>;

    closed spec fn view(&self) -> Seq<u8> {
        self.pixels@
    }
}

/// The index of screen pixel (x, y) in the buffer.
pub open spec fn pixel_index(x: int, y: int) -> int {
    x + y * 160
}

impl LcdBuffer {
    pub open spec fn wf(&self) -> bool {
        self@.len() == SCREEN_PIXELS && forall|i: int| 0 <= i < self@.len() ==> #[trigger] self@[i] <= 3
    }

    /// A buffer with every pixel 0.
    pub fn allocate() -> (r: LcdBuffer)
        ensures
            r.wf(),
            forall|i: int| 0 <= i < SCREEN_PIXELS ==> r@[i] == 0,
    {
        let mut pixels: Vec<u8> = Vec::new();
        let mut i: usize = 0;
        while i < SCREEN_PIXELS
            invariant
                i <= SCREEN_PIXELS,
                pixels@.len() == i,
                forall|j: int| 0 <= j < i ==> pixels@[j] == 0,
            decreases SCREEN_PIXELS - i,
        {
            pixels.push(0);
            i = i + 1;
        }
        LcdBuffer { pixels }
    }

    /// Get the width of the buffer image content.
    pub fn get_width(&self) -> (r: u32)
        ensures
            r == SCREEN_W,
    {
        SCREEN_W
    }

    /// Get the height of the buffer image content.
    pub fn get_height(&self) -> (r: u32)
        ensures
            r == SCREEN_H,
    {
        SCREEN_H
    }

    /// Get the value of a specific pixel.
    pub fn get_pixel(&self, x: u32, y: u32) -> (r: u8)
        requires
            self.wf(),
            x < SCREEN_W,
            y < SCREEN_H,
        ensures
            r == self@[pixel_index(x as int, y as int)],
    {
        let index = x + y * SCREEN_W;
        self.pixels[index as usize]
    }

    /// Set the value of a specific pixel; only its two low bits are kept.
    pub fn set_pixel(&mut self, x: u32, y: u32, value: u8)
        requires
            old(self).wf(),
            x < SCREEN_W,
            y < SCREEN_H,
        ensures
            final(self)@ == old(self)@.update(pixel_index(x as int, y as int), value & 0x03),
            final(self).wf(),
    {
        assert(value & 0x03 <= 3) by (bit_vector);
        let index = x + y * SCREEN_W;
        self.pixels.set(index as usize, value & 0x03);
    }

    /// Get the pixel data to be displayed.
    pub fn get_pixels(&self) -> (r: &Vec<u8>)
        requires
            self.wf(),
        ensures
            r@ == self@,
            forall|i: int| 0 <= i < r@.len() ==> #[trigger] r@[i] <= 3,
    {
        &self.pixels
    }
}

/// The PPU's modes; the low two bits of STAT report the current one.
#[derive(Clone, Copy, PartialEq, Eq, Structural, Debug)]
pub enum Mode {
    HBlank,
    VBlank,
    OamScan,
    DrawLine,
}

/// The number a mode reports in STAT.
pub open spec fn mode_bits(mode: Mode) -> u8 {
    match mode {
        Mode::HBlank => 0,
        Mode::VBlank => 1,
        Mode::OamScan => 2,
        Mode::DrawLine => 3,
    }
}

fn mode_number(mode: Mode) -> (r: u8)
    ensures
        r == mode_bits(mode),
{
    match mode {
        Mode::HBlank => 0,
        Mode::VBlank => 1,
        Mode::OamScan => 2,
        Mode::DrawLine => 3,
    }
}

/// Whether a call to update completed a frame.
#[derive(Clone, Copy, PartialEq, Eq, Structural, Debug)]
pub enum FrameState {
    Processing,
    FrameCompleted,
}

/// A list of possible tilesets the gameboy can handle.
#[derive(Clone, Copy, PartialEq, Eq, Structural, Debug)]
pub enum TileSet {
    /// Tiles at 0x8000 plus the tile index as unsigned integer.
    H8000,
    /// Tiles at 0x9000 plus the tile index as signed integer.
    H8800,
}

/// A list of possible tilemaps the gameboy can handle.
#[derive(Clone, Copy, PartialEq, Eq, Structural, Debug)]
pub enum TileMap {
    /// The tilemap stored at 0x9800 - 0x9bff
    H9800,
    /// The tilemap stored at 0x9c00 - 0x9fff
    H9C00,
}

/// The address of the 16 bytes of tile `tile` in `tileset`.
pub open spec fn tile_address(tileset: TileSet, tile: u8) -> int {
    match tileset {
        TileSet::H8000 => 0x8000 + 16 * tile,
        TileSet::H8800 => if tile < 128 {
            0x9000 + 16 * tile
        } else {
            0x8800 + 16 * (tile - 128)
        },
    }
}

/// The address where a tilemap starts.
pub open spec fn tilemap_base(tilemap: TileMap) -> int {
    match tilemap {
        TileMap::H9800 => 0x9800,
        TileMap::H9C00 => 0x9c00,
    }
}

impl TileSet {
    /// Selects a TileSet based on the value of a selection bit of LCDC.
    pub fn by_select_bit(bit: bool) -> (r: TileSet)
        ensures
            r == (if bit { TileSet::H8000 } else { TileSet::H8800 }),
    {
        match bit {
            false => TileSet::H8800,
            true => TileSet::H8000,
        }
    }

    /// Get the address of a tile when this tileset is used.
    pub fn address_of_tile(&self, tile: u8) -> (r: u16)
        ensures
            r as int == tile_address(*self, tile),
    {
        let tile_u16 = tile as u16;
        match *self {
            TileSet::H8000 => 0x8000 + tile_u16 * 16,
            TileSet::H8800 => if tile_u16 < 128 {
                0x9000 + tile_u16 * 16
            } else {
                0x8800 + (tile_u16 - 128) * 16
            },
        }
    }
}

impl TileMap {
    /// Selects a TileMap based on the value of a selection bit of LCDC.
    pub fn by_select_bit(bit: bool) -> (r: TileMap)
        ensures
            r == (if bit { TileMap::H9C00 } else { TileMap::H9800 }),
    {
        match bit {
            false => TileMap::H9800,
            true => TileMap::H9C00,
        }
    }

    /// Get the base address where the tilemap is stored.
    pub fn base_address(&self) -> (r: u16)
        ensures
            r as int == tilemap_base(*self),
    {
        match *self {
            TileMap::H9800 => 0x9800,
            TileMap::H9C00 => 0x9c00,
        }
    }
}

/// One sprite entry as stored in OAM.
#[derive(Clone, Copy, PartialEq, Eq, Structural, Debug)]
pub struct Sprite {
    /// The sprite's position on the Y axis, 16 above the screen's top.
    pub pos_y: u8,
    /// The sprite's position on the X axis, 8 left of the screen's left edge.
    pub pos_x: u8,
    /// The tile holding the sprite's image.
    pub tile: u8,
    /// Flags: bit 4 palette, bit 5 X flip, bit 6 Y flip, bit 7 behind background.
    pub flags: u8,
}

/// The sprite stored at `address` in the byte store `m`.
pub open spec fn sprite_at(m: Seq<u8>, address: int) -> Sprite {
    Sprite { pos_y: m[address], pos_x: m[address + 1], tile: m[address + 2], flags: m[address + 3] }
}

/// OAM entry `index` of the byte store `m`.
pub open spec fn oam_sprite(m: Seq<u8>, index: int) -> Sprite {
    sprite_at(m, 0xfe00 + 4 * index)
}

impl Sprite {
    /// Creates an empty sprite with all values zero.
    pub fn empty() -> (r: Sprite)
        ensures
            r == (Sprite { pos_y: 0, pos_x: 0, tile: 0, flags: 0 }),
    {
        Sprite { pos_x: 0, pos_y: 0, tile: 0, flags: 0 }
    }

    /// Reads sprite data from its OAM entry.
    pub fn from_oam(mem: &Memory, index: u8) -> (r: Sprite)
        requires
            mem.wf(),
            index < 40,
        ensures
            r == oam_sprite(mem@, index as int),
    {
        let address = MEMORY_LOCATION_OAM_BEGIN + (index as u16) * 4;
        Self::from_address(mem, address)
    }

    /// Reads sprite data from any memory address. The PPU reads the stored
    /// bytes directly; the CPU's access rules (blocked areas, echo, banking) do not apply.
    pub fn from_address(mem: &Memory, address: u16) -> (r: Sprite)
        requires
            mem.wf(),
            address <= 0xfffc,
        ensures
            r == sprite_at(mem@, address as int),
    {
        Sprite {
            pos_y: mem.get(address),
            pos_x: mem.get(address + 1),
            tile: mem.get(address + 2),
            flags: mem.get(address + 3),
        }
    }

    /// Checks whether the sprite is mirrored on X axis.
    pub fn is_flip_x(&self) -> (r: bool)
        ensures
            r == bit_of(self.flags, 5),
    {
        get_bit(self.flags, 5)
    }

    /// Checks whether the sprite is mirrored on Y axis.
    pub fn is_flip_y(&self) -> (r: bool)
        ensures
            r == bit_of(self.flags, 6),
    {
        get_bit(self.flags, 6)
    }

    /// Get the palette used by this sprite.
    pub fn get_palette(&self) -> (r: u8)
        ensures
            r == (if bit_of(self.flags, 4) { 1u8 } else { 0u8 }),
    {
        if get_bit(self.flags, 4) {
            1
        } else {
            0
        }
    }

    /// Checks whether the sprite is drawn behind non-zero background pixels.
    pub fn is_bg_priority(&self) -> (r: bool)
        ensures
            r == bit_of(self.flags, 7),
    {
        get_bit(self.flags, 7)
    }
}

/// Delivers the result of obtaining pixel data from a sprite.
#[derive(Clone, Copy, PartialEq, Eq, Structural, Debug)]
pub struct SpritePixelData {
    /// The color index of the pixel data.
    pub color_index: u8,
    /// The index of the palette to be used to obtain the pixel color.
    pub palette_index: u8,
}

/// The 2-bit color index of column `x` in a tile row given by its two bytes.
pub open spec fn pixel_of(byte0: u8, byte1: u8, x: u8) -> u8 {
    ((if byte0 & (1u8 << (7 - x) as u8) != 0 { 1u8 } else { 0u8 }) + (if byte1 & (1u8 << (7
        - x) as u8) != 0 { 2u8 } else { 0u8 })) as u8
}

/// The color index of pixel (x, y) of the tile stored at `address`.
pub open spec fn tile_pixel(m: Seq<u8>, address: int, x: u8, y: u8) -> u8 {
    pixel_of(m[address + 2 * y], m[address + 2 * y + 1], x)
}

/// The color index at (x, y) of the tilemap `tilemap`, with tiles from `tileset`.
pub open spec fn tilemap_pixel(m: Seq<u8>, tilemap: TileMap, tileset: TileSet, x: u8, y: u8) -> u8 {
    let tile = m[tilemap_base(tilemap) + 32 * (y / 8) + x / 8];
    tile_pixel(m, tile_address(tileset, tile), x % 8, y % 8)
}

/// The shade that `palette` gives color index `color`.
pub open spec fn shade(palette: u8, color: u8) -> u8 {
    (palette >> (2 * color) as u8) & 0x03
}


/// Whether sprite `s` intersects scanline `line` when sprites are `height` rows tall.
pub open spec fn sprite_on_line(s: Sprite, line: u8, height: u8) -> bool {
    line + 16 >= s.pos_y && line + 16 < s.pos_y + height
}

/// The sprites an OAM scan of the first `count` entries selects for `line`:
/// those on the line, in OAM order, at most 10.
pub open spec fn scan_selection(m: Seq<u8>, line: u8, height: u8, count: nat) -> Seq<Sprite>
    decreases count,
{
    if count == 0 {
        Seq::empty()
    } else {
        let prev = scan_selection(m, line, height, (count - 1) as nat);
        let s = oam_sprite(m, count - 1);
        if prev.len() < 10 && sprite_on_line(s, line, height) {
            prev.push(s)
        } else {
            prev
        }
    }
}

/// Where a sprite at `x` goes in `s`: behind every sprite whose x is not greater.
pub open spec fn insert_pos(s: Seq<Sprite>, x: u8) -> nat
    decreases s.len(),
{
    if s.len() == 0 {
        0
    } else if s.last().pos_x > x {
        insert_pos(s.drop_last(), x)
    } else {
        s.len()
    }
}

/// `s` with `e` inserted at its place by x.
pub open spec fn insert_by_x(s: Seq<Sprite>, e: Sprite) -> Seq<Sprite> {
    let p = insert_pos(s, e.pos_x) as int;
    s.take(p) + seq![e] + s.skip(p)
}

/// `s` sorted by x, sprites with equal x keeping their order.
pub open spec fn sort_by_x(s: Seq<Sprite>) -> Seq<Sprite>
    decreases s.len(),
{
    if s.len() == 0 {
        s
    } else {
        insert_by_x(sort_by_x(s.drop_last()), s.last())
    }
}

proof fn lemma_insert_pos_bound(s: Seq<Sprite>, x: u8)
    ensures
        insert_pos(s, x) <= s.len(),
    decreases s.len(),
{
    if s.len() > 0 && s.last().pos_x > x {
        lemma_insert_pos_bound(s.drop_last(), x);
    }
}

proof fn lemma_sort_len(s: Seq<Sprite>)
    ensures
        sort_by_x(s).len() == s.len(),
    decreases s.len(),
{
    if s.len() > 0 {
        lemma_sort_len(s.drop_last());
        lemma_insert_pos_bound(sort_by_x(s.drop_last()), s.last().pos_x);
    }
}

proof fn lemma_selection_len(m: Seq<u8>, line: u8, height: u8, count: nat)
    ensures
        scan_selection(m, line, height, count).len() <= 10,
        scan_selection(m, line, height, count).len() <= count,
    decreases count,
{
    if count > 0 {
        lemma_selection_len(m, line, height, (count - 1) as nat);
    }
}

/// The sprites found on one scanline by the OAM scan, and whether the window
/// has started on it.
#[derive(Clone)]
pub struct ScanlineData {
    /// The line number stored in this object.
    pub line: u8,
    /// The sprites to be displayed within the scanline, in priority order.
    pub sprites: [Sprite; 10],
    /// The number of sprites found.
    pub sprites_found: u8,
    /// Whether the window was enabled for this scanline.
    pub window_enabled: bool,
}

impl ScanlineData {
    /// The sprites found, in priority order.
    pub open spec fn found(&self) -> Seq<Sprite> {
        self.sprites@.take(self.sprites_found as int)
    }

    pub open spec fn wf(&self) -> bool {
        self.sprites_found <= 10
    }

    /// An empty scanline record for line 0.
    pub fn new() -> (r: ScanlineData)
        ensures
            r.line == 0,
            r.sprites_found == 0,
            !r.window_enabled,
            r.wf(),
            forall|i: int| 0 <= i < 10 ==> r.sprites@[i] == (Sprite { pos_y: 0, pos_x: 0, tile: 0, flags: 0 }),
    {
        ScanlineData {
            line: 0,
            sprites: [Sprite::empty();10],
            sprites_found: 0,
            window_enabled: false,
        }
    }
}

/// The height of sprites selected by LCDC.
pub open spec fn sprite_height(lcdc: u8) -> u8 {
    if bit_of(lcdc, LCD_CONTROL_BIT_SPRITE_SIZE) { 16 } else { 8 }
}

/// The color index sprite `s` shows at screen column `x` on scanline `line`,
/// for LCDC value `lcdc`.
pub open spec fn sprite_color(m: Seq<u8>, s: Sprite, lcdc: u8, line: u8, x: u8) -> u8 {
    let big = bit_of(lcdc, LCD_CONTROL_BIT_SPRITE_SIZE);
    let h = sprite_height(lcdc);
    let px = x + 8 - s.pos_x;
    let py = line + 16 - s.pos_y;
    let fx = if bit_of(s.flags, 5) { 7 - px } else { px };
    let fy = if bit_of(s.flags, 6) { h - py - 1 } else { py };
    let tile = if big { s.tile & 0xfe } else { s.tile };
    tile_pixel(m, tile_address(TileSet::H8000, tile), fx as u8, fy as u8)
}

/// Whether sprite `s` covers screen pixel (x, line) at the sprite height of `lcdc`.
pub open spec fn sprite_covers(s: Sprite, lcdc: u8, line: u8, x: u8) -> bool {
    s.pos_x <= x + 8 && x < s.pos_x && s.pos_y <= line + 16 && line + 16 < s.pos_y
        + sprite_height(lcdc)
}

/// Whether sprite `s` shows at (x, line) over background color index `bg`.
pub open spec fn sprite_shows(m: Seq<u8>, s: Sprite, lcdc: u8, line: u8, x: u8, bg: u8) -> bool {
    sprite_covers(s, lcdc, line, x) && sprite_color(m, s, lcdc, line, x) != 0 && !(bit_of(
        s.flags,
        7,
    ) && bg != 0)
}

/// The first sprite of `sprites`, from `i` on, that shows at (x, line).
pub open spec fn first_shown_from(
    m: Seq<u8>,
    sprites: Seq<Sprite>,
    i: int,
    lcdc: u8,
    line: u8,
    x: u8,
    bg: u8,
) -> Option<SpritePixelData>
    decreases sprites.len() - i,
{
    if i < 0 || i >= sprites.len() {
        None
    } else if sprite_shows(m, sprites[i], lcdc, line, x, bg) {
        Some(
            SpritePixelData {
                color_index: sprite_color(m, sprites[i], lcdc, line, x),
                palette_index: if bit_of(sprites[i].flags, 4) { 1u8 } else { 0u8 },
            },
        )
    } else {
        first_shown_from(m, sprites, i + 1, lcdc, line, x, bg)
    }
}

/// Reads the color index of a tile row's column from its two bytes.
fn pixel_from_bytes(byte0: u8, byte1: u8, x: u8) -> (r: u8)
    requires
        x < 8,
    ensures
        r == pixel_of(byte0, byte1, x),
        r < 4,
{
    let pixel_mask = 1u8 << (7 - x);
    (if (byte0 & pixel_mask) != 0 { 1u8 } else { 0u8 }) + (if (byte1 & pixel_mask) != 0 { 2u8 } else { 0u8 })
}

impl Ppu {
    /// Reads the color index of pixel (x, y) of the tile stored at `sprite_address`.
    pub fn read_sprite_pixel_from_address(&self, mem: &Memory, sprite_address: u16, x: u8, y: u8) -> (r: u8)
        requires
            mem.wf(),
            x < 8,
            sprite_address + 2 * y + 1 <= 0xffff,
        ensures
            r == tile_pixel(mem@, sprite_address as int, x, y),
            r < 4,
    {
        let sprite_line_address = sprite_address + y as u16 * 2;
        let byte0 = mem.get(sprite_line_address);
        let byte1 = mem.get(sprite_line_address + 1);
        pixel_from_bytes(byte0, byte1, x)
    }

    /// Reads the color index of pixel (x, y) of tile `sprite` of `tileset`.
    pub fn read_sprite_pixel(&self, mem: &Memory, tileset: TileSet, sprite: u8, x: u8, y: u8) -> (r: u8)
        requires
            mem.wf(),
            x < 8,
            y < 16,
        ensures
            r == tile_pixel(mem@, tile_address(tileset, sprite), x, y),
            r < 4,
    {
        let sprite_address = tileset.address_of_tile(sprite);
        self.read_sprite_pixel_from_address(mem, sprite_address, x, y)
    }

    /// Reads the color index at (x, y) of a tilemap.
    pub fn read_tilemap_pixel(&self, mem: &Memory, tilemap: TileMap, tileset: TileSet, tilemap_x: u8, tilemap_y: u8) -> (r: u8)
        requires
            mem.wf(),
        ensures
            r == tilemap_pixel(mem@, tilemap, tileset, tilemap_x, tilemap_y),
            r < 4,
    {
        let tile_x = (tilemap_x / 8) as u16;
        let tile_y = (tilemap_y / 8) as u16;
        let tile_pixel_x = tilemap_x % 8;
        let tile_pixel_y = tilemap_y % 8;
        let tile_index = tile_y * 32 + tile_x;
        let tile_address = tilemap.base_address() + tile_index;
        let tile = mem.get(tile_address);
        self.read_sprite_pixel(mem, tileset, tile, tile_pixel_x, tile_pixel_y)
    }
}

/// Inserts `e` into the first `n` sprites of `arr`, which are sorted by x,
/// behind every sprite whose x is not greater.
fn insert_sprite_by_x(arr: &mut [Sprite; 10], n: usize, e: Sprite)
    requires
        n < 10,
    ensures
        final(arr)@.take(n + 1) == insert_by_x(old(arr)@.take(n as int), e),
{
    let ghost s = old(arr)@.take(n as int);
    let mut j: usize = n;
    proof {
        assert(s.take(n as int) =~= s);
    }
    loop
        invariant
            j <= n,
            n < 10,
            s == old(arr)@.take(n as int),
            arr@.len() == 10,
            forall|k: int| 0 <= k < j ==> arr@[k] == s[k],
            forall|k: int| j < k <= n ==> arr@[k] == s[k - 1],
            forall|k: int| j <= k < n ==> s[k].pos_x > e.pos_x,
            insert_pos(s, e.pos_x) == insert_pos(s.take(j as int), e.pos_x),
        ensures
            j <= n,
            j == 0 || s[j - 1].pos_x <= e.pos_x,
            forall|k: int| 0 <= k < j ==> arr@[k] == s[k],
            forall|k: int| j < k <= n ==> arr@[k] == s[k - 1],
            insert_pos(s, e.pos_x) == insert_pos(s.take(j as int), e.pos_x),
            arr@.len() == 10,
        decreases j,
    {
        if j == 0 {
            break;
        }
        if arr[j - 1].pos_x <= e.pos_x {
            break;
        }
        let moved = arr[j - 1];
        arr[j] = moved;
        proof {
            assert(s.take(j as int).drop_last() =~= s.take(j - 1));
        }
        j = j - 1;
    }
    proof {
        if j > 0 {
            assert(s.take(j as int).last() == s[j - 1]);
        } else {
            assert(s.take(0).len() == 0);
        }
        assert(insert_pos(s, e.pos_x) == j);
    }
    arr[j] = e;
    assert(arr@.take(n + 1) =~= insert_by_x(s, e));
}

impl Ppu {
    /// Performs an OAM scan for `line_number`: the first ten OAM entries on
    /// the line, sorted by x with ties kept in OAM order.
    pub fn do_oam_scan_for_line(&self, mem: &Memory, line_number: u8) -> (r: ScanlineData)
        requires
            mem.wf(),
        ensures
            r.wf(),
            r.line == line_number,
            !r.window_enabled,
            r.found() == sort_by_x(
                scan_selection(mem@, line_number, sprite_height(mem@[MEMORY_LOCATION_LCD_CONTROL as int]), 40),
            ),
    {
        let mut scanline = ScanlineData::new();
        scanline.line = line_number;
        let lcdc = mem.get(MEMORY_LOCATION_LCD_CONTROL);
        let big_sprites = get_bit(lcdc, LCD_CONTROL_BIT_SPRITE_SIZE);
        let sprite_h: u16 = if big_sprites { 16 } else { 8 };
        let ghost height = sprite_height(lcdc);
        let ly_plus_16 = line_number as u16 + 16;
        let mut oam_entry: u8 = 0;
        proof {
            assert(scanline.found() =~= Seq::<Sprite>::empty());
        }
        while oam_entry < 40
            invariant
                mem.wf(),
                oam_entry <= 40,
                lcdc == mem@[MEMORY_LOCATION_LCD_CONTROL as int],
                height == sprite_height(lcdc),
                sprite_h == height as u16,
                ly_plus_16 == line_number + 16,
                scanline.line == line_number,
                !scanline.window_enabled,
                scanline.wf(),
                scanline.sprites_found as int == scan_selection(mem@, line_number, height, oam_entry as nat).len(),
                scanline.found() == sort_by_x(scan_selection(mem@, line_number, height, oam_entry as nat)),
            decreases 40 - oam_entry,
        {
            proof {
                lemma_selection_len(mem@, line_number, height, oam_entry as nat);
            }
            let sprite = Sprite::from_oam(mem, oam_entry);
            if scanline.sprites_found < 10 && ly_plus_16 >= sprite.pos_y as u16
                && ly_plus_16 < (sprite.pos_y as u16 + sprite_h) {
                let ghost sel = scan_selection(mem@, line_number, height, oam_entry as nat);
                let n = scanline.sprites_found as usize;
                insert_sprite_by_x(&mut scanline.sprites, n, sprite);
                scanline.sprites_found = scanline.sprites_found + 1;
                proof {
                    assert(sel.push(sprite).drop_last() =~= sel);
                    lemma_sort_len(sel);
                }
            }
            oam_entry = oam_entry + 1;
        }
        scanline
    }

    /// Reads the sprite pixel at screen column `x` of a scanline: the first of
    /// the scanline's sprites that covers the pixel, has a non-zero color there and
    /// is not hidden behind a non-zero background color `pixel_background`.
    pub fn read_scanline_sprite_pixel(&self, mem: &Memory, scanline: &ScanlineData, x: u8, pixel_background: u8) -> (r: Option<SpritePixelData>)
        requires
            mem.wf(),
            scanline.wf(),
        ensures
            r == first_shown_from(mem@, scanline.found(), 0, mem@[MEMORY_LOCATION_LCD_CONTROL as int], scanline.line, x, pixel_background),
            r.is_some() ==> r.unwrap().color_index < 4,
    {
        let screen_x: u16 = x as u16 + 8;
        let screen_y: u16 = scanline.line as u16 + 16;
        let lcdc = mem.get(MEMORY_LOCATION_LCD_CONTROL);
        let big_sprites = get_bit(lcdc, LCD_CONTROL_BIT_SPRITE_SIZE);
        let sprite_h: u16 = if big_sprites { 16 } else { 8 };
        let ghost found = scanline.found();
        let mut sprite_index: u8 = 0;
        while sprite_index < scanline.sprites_found
            invariant
                mem.wf(),
                scanline.wf(),
                found == scanline.found(),
                sprite_index <= scanline.sprites_found,
                lcdc == mem@[MEMORY_LOCATION_LCD_CONTROL as int],
                big_sprites == bit_of(lcdc, LCD_CONTROL_BIT_SPRITE_SIZE),
                sprite_h == sprite_height(lcdc) as u16,
                screen_x == x + 8,
                screen_y == scanline.line + 16,
                first_shown_from(mem@, found, 0, lcdc, scanline.line, x, pixel_background)
                    == first_shown_from(mem@, found, sprite_index as int, lcdc, scanline.line, x, pixel_background),
            decreases scanline.sprites_found - sprite_index,
        {
            let sprite = scanline.sprites[sprite_index as usize];
            assert(sprite == found[sprite_index as int]);
            if sprite.pos_x as u16 <= screen_x && (x as u16) < sprite.pos_x as u16 && sprite.pos_y as u16
                <= screen_y && screen_y < sprite.pos_y as u16 + sprite_h {
                let mut sprite_pixel_x = (screen_x - sprite.pos_x as u16) as u8;
                let mut sprite_pixel_y = (screen_y - sprite.pos_y as u16) as u8;
                if sprite.is_flip_x() {
                    sprite_pixel_x = 7 - sprite_pixel_x;
                }
                if sprite.is_flip_y() {
                    sprite_pixel_y = sprite_h as u8 - sprite_pixel_y - 1;
                }
                let tile = if big_sprites { sprite.tile & 0xfe } else { sprite.tile };
                let pixel = self.read_sprite_pixel(mem, TileSet::H8000, tile, sprite_pixel_x, sprite_pixel_y);
                if pixel != 0 && !(sprite.is_bg_priority() && pixel_background != 0) {
                    return Some(SpritePixelData { color_index: pixel, palette_index: sprite.get_palette() });
                }
            }
            sprite_index = sprite_index + 1;
        }
        None
    }
}

/// The byte store with STAT's mode bits set to `mode`.
pub open spec fn with_stat_mode(s: Seq<u8>, mode: Mode) -> Seq<u8> {
    s.update(MEMORY_LOCATION_LCD_STATUS as int, (s[MEMORY_LOCATION_LCD_STATUS as int] & 0xfc) | mode_bits(mode))
}

/// The byte store with interrupt `bit` requested in IF, where `cond` holds.
pub open spec fn with_request_if(s: Seq<u8>, cond: bool, bit: u8) -> Seq<u8> {
    if cond {
        s.update(MEMORY_LOCATION_INTERRUPTS_FLAGGED as int, s[MEMORY_LOCATION_INTERRUPTS_FLAGGED as int] | (1u8 << bit))
    } else {
        s
    }
}

/// The byte store after the PPU enters `mode`: STAT reports it, and the
/// interrupts STAT enables for it (and VBlank's own) are requested.
pub open spec fn enter_mode_bytes(s: Seq<u8>, mode: Mode) -> Seq<u8> {
    let s1 = with_stat_mode(s, mode);
    let stat = s1[MEMORY_LOCATION_LCD_STATUS as int];
    match mode {
        Mode::HBlank => with_request_if(s1, bit_of(stat, LCD_STATUS_BIT_ENABLE_IRQ_MODE_0), 1),
        Mode::VBlank => with_request_if(with_request_if(s1, bit_of(stat, LCD_STATUS_BIT_ENABLE_IRQ_MODE_1), 1), true, 0),
        Mode::OamScan => with_request_if(s1, bit_of(stat, LCD_STATUS_BIT_ENABLE_IRQ_MODE_2), 1),
        Mode::DrawLine => s1,
    }
}

proof fn lemma_mode_bits(stat: u8, m: u8)
    by (bit_vector)
    requires
        m < 4,
    ensures
        ((stat & 0xfc) | m) & 3 == m,
{
}

/// `a` and `b` agree on every byte but LY, STAT and IF, the registers the PPU writes.
pub open spec fn same_but_ppu_registers(a: Seq<u8>, b: Seq<u8>) -> bool {
    &&& a.len() == b.len()
    &&& forall|i: int| 0 <= i < a.len() && i != MEMORY_LOCATION_LY as int && i != MEMORY_LOCATION_LCD_STATUS as int
        && i != MEMORY_LOCATION_INTERRUPTS_FLAGGED as int ==> #[trigger] a[i] == b[i]
}

/// Whether the VBlank interrupt is requested in IF.
pub open spec fn vblank_requested(s: Seq<u8>) -> bool {
    s[MEMORY_LOCATION_INTERRUPTS_FLAGGED as int] & 1 == 1
}

proof fn lemma_request_bits(v: u8)
    by (bit_vector)
    ensures
        (v | (1u8 << 1u8)) & 1 == v & 1,
        (v | (1u8 << 0u8)) & 1 == 1,
{
}

/// Entering a mode requests VBlank exactly when the mode is VBlank.
proof fn lemma_enter_mode_vblank(s: Seq<u8>, mode: Mode)
    requires
        s.len() == 0x10000,
    ensures
        vblank_requested(enter_mode_bytes(s, mode)) == (vblank_requested(s) || mode == Mode::VBlank),
        enter_mode_bytes(s, mode).len() == s.len(),
{
    let s1 = with_stat_mode(s, mode);
    lemma_request_bits(s1[MEMORY_LOCATION_INTERRUPTS_FLAGGED as int]);
    let s2 = with_request_if(s1, bit_of(s1[MEMORY_LOCATION_LCD_STATUS as int], LCD_STATUS_BIT_ENABLE_IRQ_MODE_1), 1);
    lemma_request_bits(s2[MEMORY_LOCATION_INTERRUPTS_FLAGGED as int]);
}

/// Moving to a line requests VBlank exactly when the line is 144.
proof fn lemma_next_ly_vblank(s: Seq<u8>, ly: u8)
    requires
        s.len() == 0x10000,
    ensures
        vblank_requested(next_ly_bytes(s, ly)) == (vblank_requested(s) || ly == 144),
{
    let s1 = s.update(MEMORY_LOCATION_LY as int, ly);
    let coincidence = ly == s1[MEMORY_LOCATION_LYC as int];
    let stat0 = s1[MEMORY_LOCATION_LCD_STATUS as int];
    let stat = if coincidence { stat0 | (1u8 << 2u8) } else { stat0 & !(1u8 << 2u8) };
    let s2 = s1.update(MEMORY_LOCATION_LCD_STATUS as int, stat);
    lemma_request_bits(s2[MEMORY_LOCATION_INTERRUPTS_FLAGGED as int]);
    let s3 = with_request_if(s2, coincidence && bit_of(stat, LCD_STATUS_BIT_ENABLE_IRQ_LYC_EQ_LY), 1);
    if ly < 144 {
        lemma_enter_mode_vblank(s3, Mode::OamScan);
    } else if ly == 144 {
        lemma_enter_mode_vblank(s3, Mode::VBlank);
    }
}

/// The line after `ly`; line 153 wraps to 0.
pub open spec fn next_line(ly: u8) -> u8 {
    if ly == 153 { 0 } else { (ly + 1) as u8 }
}

/// The byte store after the PPU moves to line `ly`: LY holds it, STAT's
/// coincidence flag tells whether it equals LYC (requesting LCD-Stat if enabled),
/// and the mode changes to OAM scan for visible lines and to VBlank at line 144.
pub open spec fn next_ly_bytes(s: Seq<u8>, ly: u8) -> Seq<u8> {
    let s1 = s.update(MEMORY_LOCATION_LY as int, ly);
    let coincidence = ly == s1[MEMORY_LOCATION_LYC as int];
    let stat0 = s1[MEMORY_LOCATION_LCD_STATUS as int];
    let stat = if coincidence { stat0 | (1u8 << 2u8) } else { stat0 & !(1u8 << 2u8) };
    let s2 = s1.update(MEMORY_LOCATION_LCD_STATUS as int, stat);
    let s3 = with_request_if(s2, coincidence && bit_of(stat, LCD_STATUS_BIT_ENABLE_IRQ_LYC_EQ_LY), 1);
    if ly < 144 {
        enter_mode_bytes(s3, Mode::OamScan)
    } else if ly == 144 {
        enter_mode_bytes(s3, Mode::VBlank)
    } else {
        s3
    }
}

/// Whether the window starts at or before screen column `px` of line `ly`.
pub open spec fn window_starts(m: Seq<u8>, ly: u8, px: u8) -> bool {
    let lcdc = m[MEMORY_LOCATION_LCD_CONTROL as int];
    let wy = m[MEMORY_LOCATION_WY as int];
    bit_of(lcdc, LCD_CONTROL_BIT_BG_WINDOW_ENABLED) && bit_of(lcdc, LCD_CONTROL_BIT_WINDOW_ENABLED)
        && px + 7 >= m[MEMORY_LOCATION_WX as int] && wy < 144 && wy <= ly
}

/// The tileset LCDC selects for background and window.
pub open spec fn lcdc_tileset(lcdc: u8) -> TileSet {
    if bit_of(lcdc, LCD_CONTROL_BIT_TILE_DATA_SELECT) { TileSet::H8000 } else { TileSet::H8800 }
}

/// The background or window color index at column `px` of line `ly`.
pub open spec fn background_color(m: Seq<u8>, ly: u8, window_line: u8, window_on: bool, px: u8) -> u8 {
    let lcdc = m[MEMORY_LOCATION_LCD_CONTROL as int];
    if !bit_of(lcdc, LCD_CONTROL_BIT_BG_WINDOW_ENABLED) {
        0
    } else if window_on {
        tilemap_pixel(
            m,
            if bit_of(lcdc, LCD_CONTROL_BIT_WINDOW_TILE_MAP_SELECT) { TileMap::H9C00 } else { TileMap::H9800 },
            lcdc_tileset(lcdc),
            ((px + 7 + 256 - m[MEMORY_LOCATION_WX as int]) % 256) as u8,
            window_line,
        )
    } else {
        tilemap_pixel(
            m,
            if bit_of(lcdc, LCD_CONTROL_BIT_BG_TILE_MAP_SELECT) { TileMap::H9C00 } else { TileMap::H9800 },
            lcdc_tileset(lcdc),
            ((px + m[MEMORY_LOCATION_SCX as int]) % 256) as u8,
            ((ly + m[MEMORY_LOCATION_SCY as int]) % 256) as u8,
        )
    }
}

/// The shade drawn at column `px` of line `ly`: the palette-mapped color of
/// the sprite that shows there, else of the background.
pub open spec fn screen_shade(m: Seq<u8>, scan: ScanlineData, ly: u8, window_line: u8, window_on: bool, px: u8) -> u8 {
    let lcdc = m[MEMORY_LOCATION_LCD_CONTROL as int];
    let bg = background_color(m, ly, window_line, window_on, px);
    let sprite = if bit_of(lcdc, LCD_CONTROL_BIT_SPRITE_ENABLED) {
        first_shown_from(m, scan.found(), 0, lcdc, scan.line, px, bg)
    } else {
        None
    };
    match sprite {
        Some(d) => shade(
            if d.palette_index == 0 { m[MEMORY_LOCATION_PALETTE_OBP0 as int] } else { m[MEMORY_LOCATION_PALETTE_OBP1 as int] },
            d.color_index,
        ),
        None => shade(m[MEMORY_LOCATION_PALETTE_BG as int], bg),
    }
}

proof fn lemma_shade_small(palette: u8, color: u8)
    by (bit_vector)
    ensures
        shade(palette, color) < 4,
        shade(palette, color) & 0x03 == shade(palette, color),
{
}

/// The picture processing unit: walks the scanlines of each frame, draws
/// pixels into its LCD buffer, and updates LY, STAT and the LCD interrupts.
#[derive(Clone)]
pub struct Ppu {
    clock: u64,
    mode: Mode,
    ly: u8,
    current_line_pixel: u8,
    current_line_cycles: u64,
    current_scanline: ScanlineData,
    window_line: u8,
    lcd_buffer: LcdBuffer,
}

impl Ppu {
    /// The invariant of the PPU's state.
    pub closed spec fn wf(&self) -> bool {
        &&& self.lcd_buffer.wf()
        &&& self.current_scanline.wf()
        &&& self.ly <= 153
        &&& self.current_line_pixel <= 160
        &&& (self.mode == Mode::VBlank <==> self.ly >= 144)
        &&& (self.mode == Mode::DrawLine ==> self.current_line_pixel < 160
            && self.current_line_cycles == 80 + 2 * self.current_line_pixel)
        &&& (self.mode == Mode::HBlank ==> self.current_line_cycles == 400)
        &&& self.clock <= 0x1_0000_0000_0000
    }

    /// The PPU has used every whole step its clock allows.
    pub closed spec fn at_rest(&self) -> bool {
        match self.mode {
            Mode::OamScan => self.clock <= 80,
            Mode::DrawLine => self.clock < 2,
            Mode::HBlank => self.clock < 56,
            Mode::VBlank => self.clock < 456,
        }
    }

    /// The current scanline.
    pub closed spec fn ly_spec(&self) -> u8 {
        self.ly
    }

    /// The current mode.
    pub closed spec fn mode_spec(&self) -> Mode {
        self.mode
    }

    /// The window's own line counter.
    pub closed spec fn window_line_spec(&self) -> u8 {
        self.window_line
    }

    /// The scanline data of the current line.
    pub closed spec fn scanline_spec(&self) -> ScanlineData {
        self.current_scanline
    }

    /// The shades shown on the display.
    pub closed spec fn lcd_spec(&self) -> Seq<u8> {
        self.lcd_buffer@
    }

    /// The number of T-cycles since the start of the current frame.
    pub closed spec fn frame_position(&self) -> int {
        self.ly * 456 + (if self.mode == Mode::DrawLine || self.mode == Mode::HBlank {
            self.current_line_cycles as int
        } else {
            0
        }) + self.clock
    }

    /// Creates a PPU at the start of a frame.
    pub fn new() -> (r: Ppu)
        ensures
            r.wf(),
            r.at_rest(),
            r.ly_spec() == 0,
            r.mode_spec() == Mode::OamScan,
            r.frame_position() == 0,
            r.lcd_spec().len() == SCREEN_PIXELS,
            forall|i: int| 0 <= i < SCREEN_PIXELS ==> r.lcd_spec()[i] == 0,
            r.window_line_spec() == 0,
            r.scanline_spec().sprites_found == 0,
            r.scanline_spec().line == 0,
            !r.scanline_spec().window_enabled,
    {
        Ppu {
            clock: 0,
            mode: Mode::OamScan,
            ly: 0,
            current_line_pixel: 0,
            current_line_cycles: 0,
            current_scanline: ScanlineData::new(),
            window_line: 0,
            lcd_buffer: LcdBuffer::allocate(),
        }
    }

    /// Get the LCD buffer which contains the data shown on the display.
    pub fn get_lcd(&self) -> (r: &LcdBuffer)
        ensures
            r@ == self.lcd_spec(),
    {
        &self.lcd_buffer
    }

    /// The current scanline.
    pub fn get_ly(&self) -> (r: u8)
        ensures
            r == self.ly_spec(),
    {
        self.ly
    }

    /// The current mode.
    pub fn get_mode(&self) -> (r: Mode)
        ensures
            r == self.mode_spec(),
    {
        self.mode
    }

    /// Get the value of the LCD Control register.
    pub fn get_lcdc(&self, mem: &Memory) -> (r: u8)
        requires
            mem.wf(),
        ensures
            r == mem@[MEMORY_LOCATION_LCD_CONTROL as int],
    {
        mem.get(MEMORY_LOCATION_LCD_CONTROL)
    }

    /// Get the value of the LCD Status register.
    pub fn get_lcd_stat(&self, mem: &Memory) -> (r: u8)
        requires
            mem.wf(),
        ensures
            r == mem@[MEMORY_LOCATION_LCD_STATUS as int],
    {
        mem.get(MEMORY_LOCATION_LCD_STATUS)
    }

    /// Get the display viewport offset on X axis.
    pub fn get_scroll_x(&self, mem: &Memory) -> (r: u8)
        requires
            mem.wf(),
        ensures
            r == mem@[MEMORY_LOCATION_SCX as int],
    {
        mem.get(MEMORY_LOCATION_SCX)
    }

    /// Get the display viewport offset on Y axis.
    pub fn get_scroll_y(&self, mem: &Memory) -> (r: u8)
        requires
            mem.wf(),
        ensures
            r == mem@[MEMORY_LOCATION_SCY as int],
    {
        mem.get(MEMORY_LOCATION_SCY)
    }

    /// Get the window position on X axis.
    pub fn get_window_x(&self, mem: &Memory) -> (r: u8)
        requires
            mem.wf(),
        ensures
            r == mem@[MEMORY_LOCATION_WX as int],
    {
        mem.get(MEMORY_LOCATION_WX)
    }

    /// Get the window position on Y axis.
    pub fn get_window_y(&self, mem: &Memory) -> (r: u8)
        requires
            mem.wf(),
        ensures
            r == mem@[MEMORY_LOCATION_WY as int],
    {
        mem.get(MEMORY_LOCATION_WY)
    }

    /// Compute the background location of a screen pixel.
    pub fn screen_to_background(&self, mem: &Memory, screen_x: u8, screen_y: u8) -> (r: (u8, u8))
        requires
            mem.wf(),
        ensures
            r.0 == ((screen_x + mem@[MEMORY_LOCATION_SCX as int]) % 256) as u8,
            r.1 == ((screen_y + mem@[MEMORY_LOCATION_SCY as int]) % 256) as u8,
    {
        let background_x = ((screen_x as u16 + self.get_scroll_x(mem) as u16) % 256) as u8;
        let background_y = ((screen_y as u16 + self.get_scroll_y(mem) as u16) % 256) as u8;
        (background_x, background_y)
    }

    /// Switches into `mode`, reporting it in STAT and requesting its interrupts.
    fn enter_mode(&mut self, mem: &mut Memory, mode: Mode)
        requires
            old(mem).wf(),
        ensures
            final(mem).wf(),
            final(mem).same_extras(old(mem)),
            final(mem)@ == enter_mode_bytes(old(mem)@, mode),
            *final(self) == (Ppu { mode, ..*old(self) }),
    {
        self.mode = mode;
        let stat = (mem.get(MEMORY_LOCATION_LCD_STATUS) & 0xfc) | mode_number(mode);
        mem.set(MEMORY_LOCATION_LCD_STATUS, stat);
        match mode {
            Mode::HBlank => {
                if get_bit(stat, LCD_STATUS_BIT_ENABLE_IRQ_MODE_0) {
                    mem.request_interrupt(Interrupt::LcdStat);
                }
            },
            Mode::VBlank => {
                if get_bit(stat, LCD_STATUS_BIT_ENABLE_IRQ_MODE_1) {
                    mem.request_interrupt(Interrupt::LcdStat);
                }
                mem.request_interrupt(Interrupt::VBlank);
            },
            Mode::OamScan => {
                if get_bit(stat, LCD_STATUS_BIT_ENABLE_IRQ_MODE_2) {
                    mem.request_interrupt(Interrupt::LcdStat);
                }
            },
            Mode::DrawLine => {},
        }
    }

    /// Switches to the next scanline, updating LY, the coincidence flag and the mode.
    fn next_ly(&mut self, mem: &mut Memory) -> (r: FrameState)
        requires
            old(mem).wf(),
            old(self).ly <= 153,
            old(self).ly < 143 ==> old(self).mode != Mode::VBlank,
        ensures
            final(mem).wf(),
            final(mem).same_extras(old(mem)),
            final(self).ly == next_line(old(self).ly),
            final(mem)@ == next_ly_bytes(old(mem)@, final(self).ly),
            final(self).mode == (if final(self).ly < 144 {
                Mode::OamScan
            } else if final(self).ly == 144 {
                Mode::VBlank
            } else {
                old(self).mode
            }),
            (r == FrameState::FrameCompleted) == (final(self).ly == 0),
            final(self).window_line == (if final(self).ly == 0 {
                0
            } else if old(self).current_scanline.window_enabled {
                ((old(self).window_line + 1) % 256) as u8
            } else {
                old(self).window_line
            }),
            final(self).clock == old(self).clock,
            final(self).current_line_pixel == old(self).current_line_pixel,
            final(self).current_line_cycles == old(self).current_line_cycles,
            final(self).current_scanline == old(self).current_scanline,
            final(self).lcd_buffer == old(self).lcd_buffer,
    {
        if self.ly == 153 {
            self.ly = 0;
        } else {
            self.ly = self.ly + 1;
        }
        if self.current_scanline.window_enabled {
            self.window_line = self.window_line.wrapping_add(1);
        }
        mem.set(MEMORY_LOCATION_LY, self.ly);
        let lyc = mem.get(MEMORY_LOCATION_LYC);
        let coincidence = self.ly == lyc;
        let stat = change_bit(mem.get(MEMORY_LOCATION_LCD_STATUS), LCD_STATUS_BIT_FLAG_COINCIDENCE, coincidence);
        mem.set(MEMORY_LOCATION_LCD_STATUS, stat);
        if coincidence && get_bit(stat, LCD_STATUS_BIT_ENABLE_IRQ_LYC_EQ_LY) {
            mem.request_interrupt(Interrupt::LcdStat);
        }
        if self.ly < 144 {
            self.enter_mode(mem, Mode::OamScan);
        } else if self.ly == 144 {
            self.enter_mode(mem, Mode::VBlank);
        }
        if self.ly == 0 {
            self.window_line = 0;
            FrameState::FrameCompleted
        } else {
            FrameState::Processing
        }
    }

    /// Draws `count` pixels of the current line, from the current pixel on.
    fn draw_pixels(&mut self, mem: &Memory, count: u8)
        requires
            old(self).lcd_buffer.wf(),
            old(self).current_scanline.wf(),
            mem.wf(),
            old(self).ly < 144,
            old(self).current_line_pixel + count <= 160,
        ensures
            final(self).lcd_buffer.wf(),
            final(self).current_line_pixel == old(self).current_line_pixel + count,
            final(self).current_scanline.found() == old(self).current_scanline.found(),
            final(self).current_scanline.line == old(self).current_scanline.line,
            final(self).current_scanline.wf(),
            final(self).current_scanline.window_enabled == (old(self).current_scanline.window_enabled
                || (count > 0 && window_starts(mem@, old(self).ly, (old(self).current_line_pixel + count - 1) as u8))),
            final(self).clock == old(self).clock,
            final(self).mode == old(self).mode,
            final(self).ly == old(self).ly,
            final(self).current_line_cycles == old(self).current_line_cycles,
            final(self).window_line == old(self).window_line,
            forall|px: int| 0 <= px < 160 ==> #[trigger] final(self).lcd_buffer@[pixel_index(px, old(self).ly as int)] == (
                if old(self).current_line_pixel <= px < old(self).current_line_pixel + count {
                    screen_shade(mem@, old(self).current_scanline, old(self).ly, old(self).window_line,
                        old(self).current_scanline.window_enabled || window_starts(mem@, old(self).ly, px as u8), px as u8)
                } else {
                    old(self).lcd_buffer@[pixel_index(px, old(self).ly as int)]
                }),
            forall|i: int| 0 <= i < SCREEN_PIXELS && !(old(self).ly * 160 <= i < old(self).ly * 160 + 160)
                ==> #[trigger] final(self).lcd_buffer@[i] == old(self).lcd_buffer@[i],
    {
        let lcdc = mem.get(MEMORY_LOCATION_LCD_CONTROL);
        let bg_enabled = get_bit(lcdc, LCD_CONTROL_BIT_BG_WINDOW_ENABLED);
        let window_enabled = get_bit(lcdc, LCD_CONTROL_BIT_WINDOW_ENABLED);
        let sprites_enabled = get_bit(lcdc, LCD_CONTROL_BIT_SPRITE_ENABLED);
        let tileset = TileSet::by_select_bit(get_bit(lcdc, LCD_CONTROL_BIT_TILE_DATA_SELECT));
        let window_tilemap = TileMap::by_select_bit(get_bit(lcdc, LCD_CONTROL_BIT_WINDOW_TILE_MAP_SELECT));
        let bg_tilemap = TileMap::by_select_bit(get_bit(lcdc, LCD_CONTROL_BIT_BG_TILE_MAP_SELECT));
        let palette_bg = mem.get(MEMORY_LOCATION_PALETTE_BG);
        let palette_obp0 = mem.get(MEMORY_LOCATION_PALETTE_OBP0);
        let palette_obp1 = mem.get(MEMORY_LOCATION_PALETTE_OBP1);
        let wx = self.get_window_x(mem);
        let wy = self.get_window_y(mem);
        let ghost start = self.current_line_pixel;
        let ghost w0 = self.current_scanline.window_enabled;
        let ghost old_self = *self;
        let ghost row = self.ly * 160;
        let end: u8 = self.current_line_pixel + count;
        while self.current_line_pixel < end
            invariant
                mem.wf(),
                start <= self.current_line_pixel <= end,
                end == start + count,
                end <= 160,
                self.ly == old_self.ly,
                self.ly < 144,
                row == self.ly * 160,
                self.lcd_buffer.wf(),
                self.current_scanline.wf(),
                self.current_scanline.found() == old_self.current_scanline.found(),
                self.current_scanline.line == old_self.current_scanline.line,
                self.current_scanline.window_enabled == (w0 || (self.current_line_pixel > start
                    && window_starts(mem@, self.ly, (self.current_line_pixel - 1) as u8))),
                self.clock == old_self.clock,
                self.mode == old_self.mode,
                self.current_line_cycles == old_self.current_line_cycles,
                self.window_line == old_self.window_line,
                w0 == old_self.current_scanline.window_enabled,
                lcdc == mem@[MEMORY_LOCATION_LCD_CONTROL as int],
                bg_enabled == bit_of(lcdc, LCD_CONTROL_BIT_BG_WINDOW_ENABLED),
                window_enabled == bit_of(lcdc, LCD_CONTROL_BIT_WINDOW_ENABLED),
                sprites_enabled == bit_of(lcdc, LCD_CONTROL_BIT_SPRITE_ENABLED),
                tileset == lcdc_tileset(lcdc),
                window_tilemap == (if bit_of(lcdc, LCD_CONTROL_BIT_WINDOW_TILE_MAP_SELECT) { TileMap::H9C00 } else { TileMap::H9800 }),
                bg_tilemap == (if bit_of(lcdc, LCD_CONTROL_BIT_BG_TILE_MAP_SELECT) { TileMap::H9C00 } else { TileMap::H9800 }),
                palette_bg == mem@[MEMORY_LOCATION_PALETTE_BG as int],
                palette_obp0 == mem@[MEMORY_LOCATION_PALETTE_OBP0 as int],
                palette_obp1 == mem@[MEMORY_LOCATION_PALETTE_OBP1 as int],
                wx == mem@[MEMORY_LOCATION_WX as int],
                wy == mem@[MEMORY_LOCATION_WY as int],
                forall|px: int| 0 <= px < 160 ==> #[trigger] self.lcd_buffer@[pixel_index(px, self.ly as int)] == (
                    if start <= px < self.current_line_pixel {
                        screen_shade(mem@, old_self.current_scanline, self.ly, self.window_line,
                            w0 || window_starts(mem@, self.ly, px as u8), px as u8)
                    } else {
                        old_self.lcd_buffer@[pixel_index(px, self.ly as int)]
                    }),
                forall|i: int| 0 <= i < SCREEN_PIXELS && !(row <= i < row + 160)
                    ==> #[trigger] self.lcd_buffer@[i] == old_self.lcd_buffer@[i],
            decreases end - self.current_line_pixel,
        {
            let px = self.current_line_pixel;
            let pixel_background = if bg_enabled {
                if !self.current_scanline.window_enabled && window_enabled {
                    if (px as u16 + 7 >= wx as u16) && wy < 144 && wy <= self.ly {
                        self.current_scanline.window_enabled = true;
                    }
                }
                if self.current_scanline.window_enabled {
                    let position_in_window_x = ((px as u16 + 7 + 256 - wx as u16) % 256) as u8;
                    self.read_tilemap_pixel(mem, window_tilemap, tileset, position_in_window_x, self.window_line)
                } else {
                    let (background_x, background_y) = self.screen_to_background(mem, px, self.ly);
                    self.read_tilemap_pixel(mem, bg_tilemap, tileset, background_x, background_y)
                }
            } else {
                0
            };
            let sprite_data = if sprites_enabled {
                self.read_scanline_sprite_pixel(mem, &self.current_scanline, px, pixel_background)
            } else {
                None
            };
            let (pixel, palette) = match sprite_data {
                Some(d) => (d.color_index, if d.palette_index == 0 { palette_obp0 } else { palette_obp1 }),
                None => (pixel_background, palette_bg),
            };
            let pixel_color = (palette >> (pixel * 2)) & 0x03;
            proof {
                lemma_shade_small(palette, pixel);
                assert(self.current_scanline.window_enabled == (w0 || window_starts(mem@, self.ly, px)));
            }
            self.lcd_buffer.set_pixel(px as u32, self.ly as u32, pixel_color);
            self.current_line_pixel = px + 1;
        }
    }

    /// Draws as many pixels as the clock allows, two cycles each, and enters
    /// HBlank at the end of the line. Returns whether any pixel was drawn.
    fn process_draw_line(&mut self, mem: &mut Memory) -> (r: bool)
        requires
            old(self).wf(),
            old(mem).wf(),
            old(self).mode == Mode::DrawLine,
        ensures
            final(self).wf(),
            final(mem).wf(),
            same_but_ppu_registers(final(mem)@, old(mem)@),
            final(mem).same_extras(old(mem)),
            final(self).ly == old(self).ly,
            final(self).frame_position() == old(self).frame_position(),
            vblank_requested(final(mem)@) == vblank_requested(old(mem)@),
            r ==> final(self).clock < old(self).clock,
            !r ==> *final(self) == *old(self) && final(mem)@ == old(mem)@ && old(self).at_rest(),
            final(self).current_line_pixel >= old(self).current_line_pixel,
            final(mem)@ == (if final(self).current_line_pixel >= 160 {
                enter_mode_bytes(old(mem)@, Mode::HBlank)
            } else {
                old(mem)@
            }),
            final(self).mode == (if final(self).current_line_pixel >= 160 { Mode::HBlank } else { Mode::DrawLine }),
            forall|px: int| 0 <= px < 160 ==> #[trigger] final(self).lcd_buffer@[pixel_index(px, old(self).ly as int)] == (
                if old(self).current_line_pixel <= px < final(self).current_line_pixel {
                    screen_shade(old(mem)@, old(self).current_scanline, old(self).ly, old(self).window_line,
                        old(self).current_scanline.window_enabled || window_starts(old(mem)@, old(self).ly, px as u8), px as u8)
                } else {
                    old(self).lcd_buffer@[pixel_index(px, old(self).ly as int)]
                }),
            forall|i: int| 0 <= i < SCREEN_PIXELS && !(old(self).ly * 160 <= i < old(self).ly * 160 + 160)
                ==> #[trigger] final(self).lcd_buffer@[i] == old(self).lcd_buffer@[i],
    {
        let pixels_remaining: u64 = 160 - self.current_line_pixel as u64;
        let half = self.clock / 2;
        let pixels_to_update: u64 = if half < pixels_remaining { half } else { pixels_remaining };
        if pixels_to_update == 0 {
            return false;
        }
        let cycles = pixels_to_update * 2;
        self.current_line_cycles = self.current_line_cycles + cycles;
        self.clock = self.clock - cycles;
        self.draw_pixels(mem, pixels_to_update as u8);
        if self.current_line_pixel >= 160 {
            proof {
                lemma_enter_mode_vblank(mem@, Mode::HBlank);
            }
            self.enter_mode(mem, Mode::HBlank);
        }
        true
    }

    /// Scans OAM for the current line once 80 cycles have passed, and enters DrawLine.
    fn process_oam_scan(&mut self, mem: &mut Memory) -> (r: bool)
        requires
            old(self).wf(),
            old(mem).wf(),
            old(self).mode == Mode::OamScan,
        ensures
            final(self).wf(),
            final(mem).wf(),
            same_but_ppu_registers(final(mem)@, old(mem)@),
            final(mem).same_extras(old(mem)),
            final(self).ly == old(self).ly,
            final(self).frame_position() == old(self).frame_position(),
            vblank_requested(final(mem)@) == vblank_requested(old(mem)@),
            r ==> final(self).clock < old(self).clock,
            !r ==> *final(self) == *old(self) && final(mem)@ == old(mem)@ && old(self).at_rest(),
    {
        if self.clock > 80 {
            self.clock = self.clock - 80;
            let scanline = self.do_oam_scan_for_line(mem, self.ly);
            self.current_scanline = scanline;
            self.current_line_pixel = 0;
            self.current_line_cycles = 80;
            proof {
                lemma_enter_mode_vblank(mem@, Mode::DrawLine);
            }
            self.enter_mode(mem, Mode::DrawLine);
            true
        } else {
            false
        }
    }

    /// Moves to the next line once the line's 456 cycles have passed.
    fn process_hblank(&mut self, mem: &mut Memory) -> (r: (bool, FrameState))
        requires
            old(self).wf(),
            old(mem).wf(),
            old(self).mode == Mode::HBlank || old(self).mode == Mode::VBlank,
        ensures
            final(self).wf(),
            final(mem).wf(),
            same_but_ppu_registers(final(mem)@, old(mem)@),
            final(mem).same_extras(old(mem)),
            final(self).frame_position() == old(self).frame_position() - (if r.1 == FrameState::FrameCompleted { 70224int } else { 0 }),
            r.0 ==> final(self).clock < old(self).clock,
            r.1 == FrameState::FrameCompleted ==> r.0,
            !r.0 ==> *final(self) == *old(self) && final(mem)@ == old(mem)@ && old(self).at_rest(),
            r.0 ==> final(self).ly == next_line(old(self).ly),
            r.0 ==> (r.1 == FrameState::FrameCompleted) == (old(self).ly == 153),
            vblank_requested(final(mem)@) == (vblank_requested(old(mem)@) || (r.0 && final(self).ly == 144)),
    {
        let remaining_cycles: u64 = if self.mode == Mode::HBlank {
            CPU_CYCLES_PER_LINE - self.current_line_cycles
        } else {
            CPU_CYCLES_PER_LINE
        };
        if self.clock >= remaining_cycles {
            self.clock = self.clock - remaining_cycles;
            let state = self.next_ly(mem);
            proof {
                lemma_next_ly_vblank(old(mem)@, self.ly);
            }
            (true, state)
        } else {
            (false, FrameState::Processing)
        }
    }

    /// A PPU at rest is inside the current frame.
    pub proof fn lemma_position_in_frame(&self)
        requires
            self.wf(),
            self.at_rest(),
        ensures
            0 <= self.frame_position() < 70224,
            self.frame_position() < (self.ly_spec() + 1) * 456,
            self.frame_position() >= self.ly_spec() * 456,
    {
    }

    /// Advances the PPU by `cycles` T-cycles: runs OAM scans, draws pixels,
    /// and moves through HBlank and VBlank, until the cycles are used up.
    /// With the LCD off (LCDC bit 7 clear) LY is held at 0 and nothing is drawn.
    pub fn update(&mut self, mem: &mut Memory, cycles: u64) -> (r: FrameState)
        requires
            old(self).wf(),
            old(self).at_rest(),
            old(mem).wf(),
            cycles <= 0xffff_ffff,
        ensures
            final(self).wf(),
            final(self).at_rest(),
            final(mem).wf(),
            final(mem).same_extras(old(mem)),
            same_but_ppu_registers(final(mem)@, old(mem)@),
            bit_of(old(mem)@[MEMORY_LOCATION_LCD_CONTROL as int], LCD_CONTROL_BIT_LCD_ENABLED) ==> {
                &&& final(self).frame_position() == (old(self).frame_position() + cycles) % 70224
                &&& (r == FrameState::FrameCompleted) == (old(self).frame_position() + cycles >= 70224)
                &&& vblank_requested(final(mem)@) == (vblank_requested(old(mem)@) || (old(self).frame_position() < 65664
                    && old(self).frame_position() + cycles >= 65664) || old(self).frame_position() + cycles >= 135888)
            },
            bit_of(old(mem)@[MEMORY_LOCATION_LCD_CONTROL as int], LCD_CONTROL_BIT_LCD_ENABLED) ==> {
                &&& final(mem)@[MEMORY_LOCATION_LY as int] == final(self).ly_spec()
                &&& final(mem)@[MEMORY_LOCATION_LCD_STATUS as int] & 3 == mode_bits(final(self).mode_spec())
            },
            !bit_of(old(mem)@[MEMORY_LOCATION_LCD_CONTROL as int], LCD_CONTROL_BIT_LCD_ENABLED) ==> {
                &&& final(self).ly_spec() == 0
                &&& final(self).frame_position() == 0
                &&& r == FrameState::Processing
                &&& final(mem)@ == old(mem)@.update(MEMORY_LOCATION_LY as int, 0).update(
                    MEMORY_LOCATION_LCD_STATUS as int, old(mem)@[MEMORY_LOCATION_LCD_STATUS as int] & 0xfc)
                &&& final(self).lcd_spec() == old(self).lcd_spec()
            },
    {
        let lcdc = self.get_lcdc(mem);
        if !get_bit(lcdc, LCD_CONTROL_BIT_LCD_ENABLED) {
            self.ly = 0;
            self.clock = 0;
            self.mode = Mode::OamScan;
            self.current_line_pixel = 0;
            self.current_line_cycles = 0;
            self.window_line = 0;
            mem.set(MEMORY_LOCATION_LY, 0);
            let stat = mem.get(MEMORY_LOCATION_LCD_STATUS) & 0xfc;
            mem.set(MEMORY_LOCATION_LCD_STATUS, stat);
            return FrameState::Processing;
        }
        proof {
            self.lemma_position_in_frame();
        }
        self.clock = self.clock + cycles;
        let mut result = FrameState::Processing;
        let ghost mut wraps: int = 0;
        let ghost mut lines: int = old(self).ly as int;
        loop
            invariant
                self.wf(),
                mem.wf(),
                mem.same_extras(old(mem)),
                same_but_ppu_registers(mem@, old(mem)@),
                wraps >= 0,
                self.frame_position() + 70224 * wraps == old(self).frame_position() + cycles,
                (result == FrameState::FrameCompleted) == (wraps > 0),
                lines == self.ly + 154 * wraps,
                lines >= old(self).ly,
                vblank_requested(mem@) == (vblank_requested(old(mem)@) || (old(self).ly < 144 && lines >= 144) || lines >= 298),
            ensures
                self.wf(),
                self.at_rest(),
                mem.wf(),
                mem.same_extras(old(mem)),
                same_but_ppu_registers(mem@, old(mem)@),
                wraps >= 0,
                self.frame_position() + 70224 * wraps == old(self).frame_position() + cycles,
                (result == FrameState::FrameCompleted) == (wraps > 0),
                lines == self.ly + 154 * wraps,
                vblank_requested(mem@) == (vblank_requested(old(mem)@) || (old(self).ly < 144 && lines >= 144) || lines >= 298),
            decreases self.clock,
        {
            let ghost ly_before = self.ly;
            let (progressed, state) = match self.mode {
                Mode::OamScan => (self.process_oam_scan(mem), FrameState::Processing),
                Mode::DrawLine => (self.process_draw_line(mem), FrameState::Processing),
                _ => self.process_hblank(mem),
            };
            if state == FrameState::FrameCompleted {
                result = FrameState::FrameCompleted;
                proof {
                    wraps = wraps + 1;
                }
            }
            proof {
                if self.ly != ly_before {
                    lines = lines + 1;
                }
            }
            if !progressed {
                break;
            }
        }
        let ly = self.ly;
        mem.set(MEMORY_LOCATION_LY, ly);
        let stat = (mem.get(MEMORY_LOCATION_LCD_STATUS) & 0xfc) | mode_number(self.mode);
        proof {
            lemma_mode_bits(mem@[MEMORY_LOCATION_LCD_STATUS as int], mode_bits(self.mode));
        }
        mem.set(MEMORY_LOCATION_LCD_STATUS, stat);
        proof {
            self.lemma_position_in_frame();
            assert(lines * 456 <= old(self).frame_position() + cycles < (lines + 1) * 456);
            lemma_fundamental_div_mod_converse(
                old(self).frame_position() + cycles,
                70224,
                wraps,
                self.frame_position(),
            );
        }
        result
    }
}


/// A sprite at y = 0 or y = 160 is on no visible line, and one at y = 16
/// (and x > 0) is on every line 0..7, so its top row is on line 0.
pub proof fn lemma_sprite_y_visibility(s: Sprite, lcdc: u8, line: u8)
    requires
        line < 144,
    ensures
        (s.pos_y == 0 || s.pos_y == 160) ==> !sprite_on_line(s, line, sprite_height(lcdc)),
        s.pos_y == 16 && s.pos_x > 0 && line < 8 ==> sprite_on_line(s, line, sprite_height(lcdc)),
{
}

/// A sprite at x = 0 or at x >= 168 covers no pixel of the screen: the OAM
/// scan may select it (it counts toward the ten), but it never shows.
pub proof fn lemma_sprite_x_visibility(s: Sprite, lcdc: u8, line: u8, x: u8)
    requires
        x < 160,
    ensures
        s.pos_x == 0 ==> !sprite_covers(s, lcdc, line, x),
        s.pos_x >= 168 ==> !sprite_covers(s, lcdc, line, x),
{
}

/// LY counts from 0 to 153 and then wraps to 0.
pub proof fn lemma_ly_wraps(ly: u8)
    requires
        ly <= 153,
    ensures
        next_line(ly) <= 153,
        ly == 153 ==> next_line(ly) == 0,
        ly < 153 ==> next_line(ly) == ly + 1,
{
}

} // verus!
