use gemi_core::memory::Memory;
use gemi_core::ppu::{FrameState, Mode, Ppu, TileMap, TileSet};

fn memory_with_lcd_on() -> Memory {
    let mut mem = Memory::new();
    mem.write_u8(0xff40, 0x91);
    mem.write_u8(0xff47, 0xe4);
    mem
}

fn set_sprite(mem: &mut Memory, index: u16, y: u8, x: u8, tile: u8, flags: u8) {
    let base = 0xfe00 + index * 4;
    mem.write_u8(base, y);
    mem.write_u8(base + 1, x);
    mem.write_u8(base + 2, tile);
    mem.write_u8(base + 3, flags);
}

#[test]
fn tile_addresses() {
    assert_eq!(TileSet::H8000.address_of_tile(0x00), 0x8000);
    assert_eq!(TileSet::H8000.address_of_tile(0xff), 0x8ff0);
    assert_eq!(TileSet::H8800.address_of_tile(0x00), 0x9000);
    assert_eq!(TileSet::H8800.address_of_tile(0x7f), 0x97f0);
    assert_eq!(TileSet::H8800.address_of_tile(0x80), 0x8800);
    assert_eq!(TileMap::H9800.base_address(), 0x9800);
    assert_eq!(TileMap::H9C00.base_address(), 0x9c00);
    assert_eq!(TileSet::by_select_bit(true), TileSet::H8000);
    assert_eq!(TileMap::by_select_bit(true), TileMap::H9C00);
}

#[test]
fn sprites_at_y_0_or_160_are_invisible() {
    let mut mem = memory_with_lcd_on();
    set_sprite(&mut mem, 0, 0, 8, 1, 0);
    set_sprite(&mut mem, 1, 160, 8, 2, 0);
    set_sprite(&mut mem, 2, 16, 8, 3, 0);
    for line in 0..144u8 {
        let scan = Ppu::new().do_oam_scan_for_line(&mem, line);
        for i in 0..scan.sprites_found as usize {
            assert_ne!(scan.sprites[i].tile, 1);
            assert_ne!(scan.sprites[i].tile, 2);
        }
    }
    let scan = Ppu::new().do_oam_scan_for_line(&mem, 0);
    assert_eq!(scan.sprites_found, 1);
    assert_eq!(scan.sprites[0].tile, 3);
    for line in 0..8u8 {
        assert_eq!(Ppu::new().do_oam_scan_for_line(&mem, line).sprites_found, 1);
    }
    assert_eq!(Ppu::new().do_oam_scan_for_line(&mem, 8).sprites_found, 0);
}

#[test]
fn sprites_at_x_0_or_168_are_invisible() {
    let mut mem = memory_with_lcd_on();
    // tile 1 has every pixel set to color 3
    for i in 0..16u16 {
        mem.write_u8(0x8010 + i, 0xff);
    }
    set_sprite(&mut mem, 0, 16, 0, 1, 0);
    set_sprite(&mut mem, 1, 16, 168, 1, 0);
    let scan = Ppu::new().do_oam_scan_for_line(&mem, 0);
    // both are on the line and selected, but neither covers a screen pixel
    assert_eq!(scan.sprites_found, 2);
    for x in 0..160u8 {
        assert!(Ppu::new().read_scanline_sprite_pixel(&mem, &scan, x, 0).is_none());
    }
    set_sprite(&mut mem, 2, 16, 8, 1, 0);
    let scan = Ppu::new().do_oam_scan_for_line(&mem, 0);
    let pixel = Ppu::new().read_scanline_sprite_pixel(&mem, &scan, 0, 0).unwrap();
    assert_eq!(pixel.color_index, 3);
    assert_eq!(pixel.palette_index, 0);
    assert!(Ppu::new().read_scanline_sprite_pixel(&mem, &scan, 8, 0).is_none());
}

#[test]
fn oam_scan_sorts_by_x_and_keeps_at_most_ten() {
    let mut mem = memory_with_lcd_on();
    set_sprite(&mut mem, 0, 16, 50, 10, 0);
    set_sprite(&mut mem, 1, 16, 20, 11, 0);
    set_sprite(&mut mem, 2, 16, 50, 12, 0);
    let scan = Ppu::new().do_oam_scan_for_line(&mem, 0);
    assert_eq!(scan.sprites_found, 3);
    assert_eq!(scan.sprites[0].tile, 11);
    assert_eq!(scan.sprites[1].tile, 10);
    assert_eq!(scan.sprites[2].tile, 12);
    for i in 0..40u16 {
        set_sprite(&mut mem, i, 20, 100 - i as u8, i as u8, 0);
    }
    let scan = Ppu::new().do_oam_scan_for_line(&mem, 5);
    assert_eq!(scan.sprites_found, 10);
    assert_eq!(scan.sprites[0].tile, 9);
    assert_eq!(scan.sprites[9].tile, 0);
}

#[test]
fn tilemap_pixels_follow_tile_data() {
    let mut mem = memory_with_lcd_on();
    // tile 1, row 0: 0b1000_0000 / 0b1000_0001
    mem.write_u8(0x8010, 0x80);
    mem.write_u8(0x8011, 0x81);
    mem.write_u8(0x9801, 0x01);
    assert_eq!(Ppu::new().read_tilemap_pixel(&mem, TileMap::H9800, TileSet::H8000, 8, 0), 3);
    assert_eq!(Ppu::new().read_tilemap_pixel(&mem, TileMap::H9800, TileSet::H8000, 15, 0), 2);
    assert_eq!(Ppu::new().read_tilemap_pixel(&mem, TileMap::H9800, TileSet::H8000, 9, 0), 0);
}

#[test]
fn ly_wraps_from_153_to_0() {
    let mut mem = memory_with_lcd_on();
    let mut ppu = Ppu::new();
    let mut previous = 0u8;
    let mut wrapped = false;
    let mut max = 0u8;
    for _ in 0..(70_224 / 4) {
        let state = ppu.update(&mut mem, 4);
        let ly = mem.read_u8(0xff44);
        if ly < previous {
            assert_eq!(previous, 153);
            assert_eq!(ly, 0);
            assert_eq!(state, FrameState::FrameCompleted);
            wrapped = true;
        }
        max = if ly > max { ly } else { max };
        previous = ly;
    }
    assert!(wrapped);
    assert_eq!(max, 153);
    assert_eq!(ppu.get_ly(), 0);
}

#[test]
fn lcd_off_resets_ly_immediately() {
    let mut mem = memory_with_lcd_on();
    let mut ppu = Ppu::new();
    while mem.read_u8(0xff44) != 100 {
        ppu.update(&mut mem, 4);
    }
    mem.write_u8(0xff40, 0x11);
    let state = ppu.update(&mut mem, 4);
    assert_eq!(state, FrameState::Processing);
    assert_eq!(mem.read_u8(0xff44), 0);
    assert_eq!(ppu.get_ly(), 0);
    ppu.update(&mut mem, 456 * 3);
    assert_eq!(mem.read_u8(0xff44), 0);
}

#[test]
fn vblank_interrupts_are_one_frame_apart() {
    let mut mem = memory_with_lcd_on();
    mem.write_u8(0xff0f, 0x00);
    let mut ppu = Ppu::new();
    let mut times = vec![];
    let mut now = 0u64;
    for _ in 0..(3 * 70_224 / 4) {
        ppu.update(&mut mem, 4);
        now += 4;
        if mem.read_u8(0xff0f) & 0x01 != 0 {
            times.push(now);
            mem.write_u8(0xff0f, 0x00);
        }
    }
    assert_eq!(times.len(), 3);
    assert_eq!(times[0], 144 * 456);
    assert_eq!(times[1] - times[0], 70_224);
    assert_eq!(times[2] - times[1], 70_224);
}

#[test]
fn modes_follow_the_line_timing() {
    let mut mem = memory_with_lcd_on();
    let mut ppu = Ppu::new();
    assert_eq!(ppu.get_mode(), Mode::OamScan);
    ppu.update(&mut mem, 84);
    assert_eq!(ppu.get_mode(), Mode::DrawLine);
    assert_eq!(mem.read_u8(0xff41) & 0x03, 3);
    ppu.update(&mut mem, 320);
    assert_eq!(ppu.get_mode(), Mode::HBlank);
    assert_eq!(mem.read_u8(0xff41) & 0x03, 0);
    ppu.update(&mut mem, 52);
    assert_eq!(ppu.get_mode(), Mode::OamScan);
    assert_eq!(ppu.get_ly(), 1);
}

#[test]
fn drawn_frame_shows_background_tiles() {
    let mut mem = memory_with_lcd_on();
    // tile 1: every pixel color 1
    for row in 0..8u16 {
        mem.write_u8(0x8010 + row * 2, 0xff);
    }
    mem.write_u8(0x9800, 0x01);
    let mut ppu = Ppu::new();
    let mut state = FrameState::Processing;
    while state != FrameState::FrameCompleted {
        state = ppu.update(&mut mem, 4);
    }
    let lcd = ppu.get_lcd();
    assert_eq!(lcd.get_pixel(0, 0), 1);
    assert_eq!(lcd.get_pixel(7, 7), 1);
    assert_eq!(lcd.get_pixel(8, 0), 0);
    assert_eq!(lcd.get_pixel(0, 8), 0);
    assert_eq!(lcd.get_width(), 160);
    assert_eq!(lcd.get_height(), 144);
}

#[test]
fn sprites_at_x_0_count_toward_the_limit() {
    let mut mem = memory_with_lcd_on();
    for i in 0..10u16 {
        set_sprite(&mut mem, i, 16, 0, 1, 0);
    }
    set_sprite(&mut mem, 10, 16, 20, 2, 0);
    let scan = Ppu::new().do_oam_scan_for_line(&mem, 0);
    assert_eq!(scan.sprites_found, 10);
    for i in 0..10 {
        assert_eq!(scan.sprites[i].pos_x, 0);
    }
}
