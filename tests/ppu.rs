use nes::mapper::{PPUMapper000, PpuBusTarget};
use nes::ppu::{
    increment_coarse_x, increment_fine_y, mux_pixel, reverse_byte, tile_attr_from_vram_addr, NESPpu,
};
use nes::Mirroring;

fn ppu() -> NESPpu {
    NESPpu::new(0, Mirroring::Vertical).unwrap()
}

/// Runs the PPU one dot at a time until it is at (scanline, dot).
fn run_to(p: &mut NESPpu, scanline: u16, dot: u16) {
    while !(p.scanline == scanline && p.dot == dot) {
        p.ppu_tick(1);
    }
}

#[test]
fn frame_timing() {
    let mut p = ppu();
    let mut raised = 0;
    for _ in 0..89342 {
        let before = p.frame_ready;
        p.ppu_tick(1);
        if !before && p.frame_ready {
            raised += 1;
        }
    }
    assert_eq!(raised, 1);
    assert!(p.frame_ready);
    assert_eq!(p.scanline, 0);
    assert_eq!(p.dot, 0);
}

#[test]
fn tick_in_one_batch_matches_position() {
    let mut p = ppu();
    p.ppu_tick(341 * 5 + 7);
    assert_eq!((p.scanline, p.dot), (5, 7));
    assert!(!p.frame_ready);
    p.ppu_tick(89342);
    assert_eq!((p.scanline, p.dot), (5, 7));
    assert!(p.frame_ready);
}

#[test]
fn vblank_rises_at_scanline_241_dot_1() {
    let mut p = ppu();
    run_to(&mut p, 241, 1);
    assert!(!p.vblank);
    p.ppu_tick(1);
    assert!(p.vblank);
    assert_eq!(p.status() & 0x80, 0x80);
    run_to(&mut p, 261, 1);
    assert!(p.vblank);
    p.ppu_tick(1);
    assert!(!p.vblank);
}

#[test]
fn vblank_rises_once_per_frame() {
    let mut p = ppu();
    let mut rises = 0;
    for _ in 0..89342 {
        let before = p.vblank;
        p.ppu_tick(1);
        if !before && p.vblank {
            rises += 1;
        }
    }
    assert_eq!(rises, 1);
}

#[test]
fn nmi_requested_only_when_enabled() {
    let mut p = ppu();
    run_to(&mut p, 241, 2);
    assert!(!p.nmi_requested);
    let mut p = ppu();
    p.ppu_register_write(0x2000, 0x80);
    run_to(&mut p, 241, 1);
    assert!(!p.nmi_requested);
    p.ppu_tick(1);
    assert!(p.nmi_requested);
}

#[test]
fn status_read_clears_vblank_and_toggle() {
    let mut p = ppu();
    run_to(&mut p, 241, 2);
    p.ppu_register_write(0x2005, 0x00);
    assert!(p.write_toggle);
    let s = p.ppu_register_read(0x2002);
    assert_eq!(s & 0x80, 0x80);
    assert!(!p.vblank);
    assert!(!p.write_toggle);
    assert_eq!(p.ppu_register_read(0x2002) & 0x80, 0);
}

#[test]
fn ppudata_write_and_buffered_read() {
    let mut p = ppu();
    p.ppu_register_write(0x2006, 0x21);
    p.ppu_register_write(0x2006, 0x08);
    assert_eq!(p.vram_v, 0x2108);
    p.ppu_register_write(0x2007, 0x5A);
    p.ppu_register_write(0x2007, 0x6B);
    assert_eq!(p.vram_v, 0x210A);
    p.ppu_register_write(0x2006, 0x21);
    p.ppu_register_write(0x2006, 0x08);
    let _stale = p.ppu_register_read(0x2007);
    assert_eq!(p.ppu_register_read(0x2007), 0x5A);
    assert_eq!(p.ppu_register_read(0x2007), 0x6B);
}

#[test]
fn ppudata_increment_32() {
    let mut p = ppu();
    p.ppu_register_write(0x2000, 0x04);
    p.ppu_register_write(0x2006, 0x20);
    p.ppu_register_write(0x2006, 0x00);
    p.ppu_register_write(0x2007, 0x01);
    assert_eq!(p.vram_v, 0x2020);
}

#[test]
fn palette_mirrors_alias() {
    let mut p = ppu();
    p.ppu_register_write(0x2006, 0x3F);
    p.ppu_register_write(0x2006, 0x10);
    p.ppu_register_write(0x2007, 0x2C);
    assert_eq!(p.read(0x3F00), 0x2C);
    assert_eq!(p.read(0x3F10), 0x2C);
    p.ppu_register_write(0x2006, 0x3F);
    p.ppu_register_write(0x2006, 0x04);
    p.ppu_register_write(0x2007, 0x11);
    assert_eq!(p.read(0x3F14), 0x11);
    // palette reads through PPUDATA are not buffered
    p.ppu_register_write(0x2006, 0x3F);
    p.ppu_register_write(0x2006, 0x14);
    assert_eq!(p.ppu_register_read(0x2007), 0x11);
    // greyscale masks the low nibble
    p.ppu_register_write(0x2001, 0x01);
    assert_eq!(p.read(0x3F00), 0x20);
}

#[test]
fn oam_data_port() {
    let mut p = ppu();
    p.ppu_register_write(0x2003, 0xFF);
    p.ppu_register_write(0x2004, 0x12);
    assert_eq!(p.poam[0xFF], 0x12);
    assert_eq!(p.oam_address, 0x00);
    assert_eq!(p.ppu_register_read(0x2004), p.poam[0]);
}

#[test]
fn scroll_registers() {
    let mut p = ppu();
    p.ppu_register_write(0x2000, 0x03);
    assert_eq!(p.vram_t & 0x0C00, 0x0C00);
    p.ppu_register_write(0x2005, 0x7D);
    assert_eq!(p.vram_x, 5);
    assert_eq!(p.vram_t & 0x1F, 0x0F);
    p.ppu_register_write(0x2005, 0x5E);
    assert_eq!(p.vram_t, 0x6D6F);
}

#[test]
fn coarse_x_wraps_to_next_nametable() {
    assert_eq!(increment_coarse_x(0x001F), 0x0400);
    assert_eq!(increment_coarse_x(0x041F), 0x0000);
    assert_eq!(increment_coarse_x(0x0005), 0x0006);
}

#[test]
fn fine_y_carries_into_coarse_y() {
    assert_eq!(increment_fine_y(0x0000), 0x1000);
    assert_eq!(increment_fine_y(0x7000), 0x0020);
    assert_eq!(increment_fine_y(0x73A0), 0x0800);
    assert_eq!(increment_fine_y(0x73E0), 0x0000);
}

#[test]
fn tile_and_attribute_addresses() {
    assert_eq!(tile_attr_from_vram_addr(0x0000), (0x2000, 0x23C0));
    assert_eq!(tile_attr_from_vram_addr(0x0C84), (0x2C84, 0x2FC9));
}

#[test]
fn priority_mux() {
    assert_eq!(mux_pixel(1, 2, 3, 5, false), (3, 5));
    assert_eq!(mux_pixel(1, 2, 3, 5, true), (1, 2));
    assert_eq!(mux_pixel(0, 2, 3, 5, true), (3, 5));
    assert_eq!(mux_pixel(1, 2, 0, 5, false), (1, 2));
}

#[test]
fn byte_reversal() {
    assert_eq!(reverse_byte(0x01), 0x80);
    assert_eq!(reverse_byte(0xC4), 0x23);
}

#[test]
fn nametable_mirroring() {
    let h = PPUMapper000::new(Mirroring::Horizontal);
    assert_eq!(h.read(0x2400), PpuBusTarget::NameTableIndex(0x000));
    assert_eq!(h.read(0x2800), PpuBusTarget::NameTableIndex(0x400));
    assert_eq!(h.read(0x2C05), PpuBusTarget::NameTableIndex(0x405));
    let v = PPUMapper000::new(Mirroring::Vertical);
    assert_eq!(v.read(0x2400), PpuBusTarget::NameTableIndex(0x400));
    assert_eq!(v.read(0x2800), PpuBusTarget::NameTableIndex(0x000));
    assert_eq!(v.read(0x3C05), PpuBusTarget::NameTableIndex(0x405));
    assert_eq!(v.read(0x0000), PpuBusTarget::Byte(0));
}

fn place_sprites(p: &mut NESPpu, sprites: &[(u8, u8)]) {
    for i in 0..64 {
        p.poam[4 * i] = 0xF0;
    }
    for (i, (y, tile)) in sprites.iter().enumerate() {
        p.poam[4 * i] = *y;
        p.poam[4 * i + 1] = *tile;
    }
}

#[test]
fn sprite_overflow_on_ninth_sprite() {
    let mut p = ppu();
    place_sprites(&mut p, &[(10, 0); 9]);
    p.ppu_register_write(0x2001, 0x18);
    run_to(&mut p, 12, 257);
    assert!(p.sprite_overflow);
}

#[test]
fn eight_sprites_do_not_overflow() {
    let mut p = ppu();
    place_sprites(&mut p, &[(10, 0); 8]);
    p.ppu_register_write(0x2001, 0x18);
    run_to(&mut p, 12, 257);
    assert!(!p.sprite_overflow);
}

#[test]
fn overflow_scan_diagonal_fault() {
    // Eight sprites on the line fill secondary OAM. Sprite 8 misses, which
    // moves the scan to byte 1 of sprite 9: its tile number (10) is taken
    // for a Y coordinate and reported as an overflow.
    let mut p = ppu();
    let mut sprites = vec![(10u8, 0u8); 8];
    sprites.push((200, 0));
    sprites.push((200, 10));
    place_sprites(&mut p, &sprites);
    p.ppu_register_write(0x2001, 0x18);
    run_to(&mut p, 12, 257);
    assert!(p.sprite_overflow);
}

#[test]
fn overflow_cleared_on_pre_render_line() {
    let mut p = ppu();
    place_sprites(&mut p, &[(10, 0); 9]);
    p.ppu_register_write(0x2001, 0x18);
    run_to(&mut p, 12, 257);
    assert!(p.sprite_overflow);
    run_to(&mut p, 261, 2);
    assert!(!p.sprite_overflow);
}

#[test]
fn backdrop_colour_fills_frame() {
    let mut p = ppu();
    p.ppu_register_write(0x2006, 0x3F);
    p.ppu_register_write(0x2006, 0x00);
    p.ppu_register_write(0x2007, 0x21);
    p.ppu_tick(89342);
    assert!(p.frame.iter().all(|c| *c == 0x21));
}

#[test]
fn background_tile_is_drawn() {
    // Tile 1 is a solid block of pixel value 1; nametable cell (0, 0) uses it.
    let mut p = ppu();
    let mut chr = vec![0u8; 8192];
    for row in 0..8 {
        chr[16 + row] = 0xFF;
    }
    p.mapper.load_rom(&chr);
    p.ppu_register_write(0x2006, 0x20);
    p.ppu_register_write(0x2006, 0x00);
    p.ppu_register_write(0x2007, 0x01);
    p.ppu_register_write(0x2006, 0x3F);
    p.ppu_register_write(0x2006, 0x00);
    p.ppu_register_write(0x2007, 0x0F);
    p.ppu_register_write(0x2007, 0x16);
    p.ppu_register_write(0x2006, 0x00);
    p.ppu_register_write(0x2006, 0x00);
    p.ppu_register_write(0x2001, 0x0A);
    p.ppu_tick(89342 * 2);
    assert_eq!(p.frame[0], 0x16);
    assert_eq!(p.frame[4 * 256 + 4], 0x16);
    assert_eq!(p.frame[7 * 256 + 7], 0x16);
    assert_eq!(p.frame[4 * 256 + 12], 0x0F);
    assert_eq!(p.frame[12 * 256 + 4], 0x0F);
}
