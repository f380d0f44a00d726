use nes_core::palette::palette_rgb;
use nes_core::ppu::draw_to_canvas;
use nes_core::ppu::get_palette;
use nes_core::ppu::new_ppu;
use nes_core::ppu::put_pixel;
use nes_core::ppu::put_tile;
use nes_core::ppu::read_io;
use nes_core::ppu::write_io;
use nes_core::ppu::Ppu;

fn set_vram(ppu: &mut Ppu, addr: u16, value: u8) {
    write_io(ppu, 0x2006, (addr >> 8) as u8);
    write_io(ppu, 0x2006, (addr & 0xFF) as u8);
    write_io(ppu, 0x2007, value);
}

#[test]
fn new_ppu_seeds_vram_with_character_rom() {
    let ppu = new_ppu(&vec![1, 2, 3]);
    assert_eq!(ppu.vram_byte(0), 1);
    assert_eq!(ppu.vram_byte(1), 2);
    assert_eq!(ppu.vram_byte(2), 3);
    assert_eq!(ppu.vram_byte(3), 0);
    assert_eq!(ppu.vram_address(), 0);
    assert_eq!(ppu.status(), 0);
}

#[test]
fn controller_and_mask_are_stored() {
    let mut ppu = new_ppu(&Vec::new());
    write_io(&mut ppu, 0x2000, 0x18);
    write_io(&mut ppu, 0x2001, 0x0F);
    assert_eq!(ppu.controller(), 0x18);
    assert_eq!(ppu.mask(), 0x0F);
}

#[test]
fn write_only_ports_read_as_zero() {
    let mut ppu = new_ppu(&Vec::new());
    write_io(&mut ppu, 0x2000, 0xFF);
    assert_eq!(read_io(&mut ppu, 0x2000), 0);
    assert_eq!(read_io(&mut ppu, 0x2001), 0);
    assert_eq!(read_io(&mut ppu, 0x2003), 0);
    assert_eq!(read_io(&mut ppu, 0x2005), 0);
}

#[test]
fn scroll_latch_orders_writes() {
    let mut ppu = new_ppu(&Vec::new());
    write_io(&mut ppu, 0x2005, 0x11);
    write_io(&mut ppu, 0x2005, 0x22);
    assert_eq!(ppu.h_scroll(), 0x11);
    assert_eq!(ppu.v_scroll(), 0x22);
}

#[test]
fn status_read_resets_both_latches() {
    let mut ppu = new_ppu(&Vec::new());
    // Leave the scroll latch half-way through a write pair.
    write_io(&mut ppu, 0x2005, 0x99);
    read_io(&mut ppu, 0x2002);
    // The next two writes are now (first, second), not a continuation.
    write_io(&mut ppu, 0x2005, 0x11);
    write_io(&mut ppu, 0x2005, 0x22);
    assert_eq!(ppu.h_scroll(), 0x11);
    assert_eq!(ppu.v_scroll(), 0x22);

    // Same for the video-memory address latch.
    write_io(&mut ppu, 0x2006, 0x3F);
    read_io(&mut ppu, 0x2002);
    write_io(&mut ppu, 0x2006, 0x21);
    write_io(&mut ppu, 0x2006, 0x08);
    assert_eq!(ppu.vram_address(), 0x2108);
}

#[test]
fn vram_address_latch_high_then_low() {
    let mut ppu = new_ppu(&Vec::new());
    write_io(&mut ppu, 0x2006, 0x21);
    write_io(&mut ppu, 0x2006, 0x08);
    assert_eq!(ppu.vram_address(), 0x2108);
}

#[test]
fn vram_data_write_auto_increments() {
    let mut ppu = new_ppu(&Vec::new());
    write_io(&mut ppu, 0x2006, 0x21);
    write_io(&mut ppu, 0x2006, 0x08);
    write_io(&mut ppu, 0x2007, 0x77);
    write_io(&mut ppu, 0x2007, 0x88);
    assert_eq!(ppu.vram_byte(0x2108), 0x77);
    assert_eq!(ppu.vram_byte(0x2109), 0x88);
    assert_eq!(ppu.vram_address(), 0x210A);
}

#[test]
fn vram_data_read_auto_increments() {
    let mut ppu = new_ppu(&vec![0xAA, 0xBB]);
    assert_eq!(read_io(&mut ppu, 0x2007), 0xAA);
    assert_eq!(read_io(&mut ppu, 0x2007), 0xBB);
    assert_eq!(ppu.vram_address(), 2);
}

#[test]
fn oam_address_and_data() {
    let mut ppu = new_ppu(&Vec::new());
    write_io(&mut ppu, 0x2003, 0x05);
    write_io(&mut ppu, 0x2004, 0xAB);
    assert_eq!(ppu.oam_byte(0x05), 0xAB);
    assert_eq!(ppu.oam_byte(0x04), 0x00);
}

#[test]
fn put_pixel_writes_rgb_and_clips() {
    let mut canvas = vec![0u8; 256 * 256 * 3];
    put_pixel(&mut canvas, 0, 0, 1, 2, 3);
    assert_eq!(&canvas[0..3], &[1, 2, 3]);
    put_pixel(&mut canvas, 255, 239, 4, 5, 6);
    let off = 239 * 768 + 255 * 3;
    assert_eq!(&canvas[off..off + 3], &[4, 5, 6]);
    let before = canvas.clone();
    put_pixel(&mut canvas, -1, 0, 9, 9, 9);
    put_pixel(&mut canvas, 256, 0, 9, 9, 9);
    put_pixel(&mut canvas, 0, 240, 9, 9, 9);
    assert_eq!(canvas, before);
}

#[test]
fn palette_lookup_masks_to_six_bits() {
    assert_eq!(palette_rgb(0), (0x80, 0x80, 0x80));
    assert_eq!(palette_rgb(0x0D), (0x00, 0x00, 0x00));
    assert_eq!(palette_rgb(0x40), palette_rgb(0));
    assert_eq!(palette_rgb(0xFF), palette_rgb(0x3F));
}

#[test]
fn pixel_value_zero_aliases_universal_background() {
    let mut ppu = new_ppu(&Vec::new());
    set_vram(&mut ppu, 0x3F00, 0x01);
    set_vram(&mut ppu, 0x3F05, 0x02);
    // Pixel value 0 reads 0x3F00 whatever the palette bank.
    assert_eq!(get_palette(&ppu, 0, 0x04), palette_rgb(0x01));
    // A non-zero pixel value reads its own entry.
    assert_eq!(get_palette(&ppu, 1, 0x04), palette_rgb(0x02));
}

#[test]
fn put_tile_decodes_bit_planes() {
    // Tile 0: row 0 has low-plane bit 7 and high-plane bit 7 set, so the
    // leftmost pixel has color index 3; every other pixel is 0.
    let mut chr = vec![0u8; 16];
    chr[0] = 0x80;
    chr[8] = 0x80;
    let mut ppu = new_ppu(&chr);
    set_vram(&mut ppu, 0x3F03, 0x05);
    let mut canvas = vec![0u8; 256 * 256 * 3];
    put_tile(&mut canvas, &ppu, 0, 0, 0, 0, 0);
    let (r, g, b) = palette_rgb(0x05);
    assert_eq!(&canvas[0..3], &[r, g, b]);
    // Its right neighbour got pixel value 0: the universal background color.
    let (r0, g0, b0) = palette_rgb(0x00);
    assert_eq!(&canvas[3..6], &[r0, g0, b0]);
}

#[test]
fn draw_to_canvas_paints_visible_rectangle_only() {
    let ppu = new_ppu(&Vec::new());
    let mut canvas = vec![0u8; 256 * 256 * 3];
    draw_to_canvas(&mut canvas, &ppu);
    // Every visible pixel resolves palette entry 0 through the lookup table.
    let (r, g, b) = palette_rgb(0);
    assert_eq!(&canvas[0..3], &[r, g, b]);
    let last = 239 * 768 + 255 * 3;
    assert_eq!(&canvas[last..last + 3], &[r, g, b]);
    // Rows past the visible 240 stay untouched.
    assert_eq!(&canvas[240 * 768..240 * 768 + 3], &[0, 0, 0]);
}

#[test]
fn draw_uses_background_pattern_bank_from_controller() {
    // Tile 0 of the second pattern table (0x1000) has a solid first row.
    let mut chr = vec![0u8; 0x1010];
    chr[0x1000] = 0xFF;
    let mut ppu = new_ppu(&chr);
    set_vram(&mut ppu, 0x3F01, 0x06);
    // Select pattern table 1 for the background (controller bit 4).
    write_io(&mut ppu, 0x2000, 0x10);
    let mut canvas = vec![0u8; 256 * 256 * 3];
    draw_to_canvas(&mut canvas, &ppu);
    // The 64 all-zero sprites paint the 8x8 square at (0,0) last, with pixel
    // value 0, so the background bank shows from the second tile column on.
    let (r, g, b) = palette_rgb(0x06);
    assert_eq!(&canvas[24..27], &[r, g, b]);
    let (r0, g0, b0) = palette_rgb(0x00);
    assert_eq!(&canvas[0..3], &[r0, g0, b0]);
}

#[test]
fn status_port_ignores_writes() {
    let mut ppu = new_ppu(&Vec::new());
    write_io(&mut ppu, 0x2002, 0xFF);
    assert_eq!(ppu.status(), 0);
}

#[test]
fn sprites_paint_at_their_oam_position() {
    // One sprite at (16, 8) with a solid first tile row; sprite pixels use
    // the sprite palette bank at 0x3F10.
    let mut chr = vec![0u8; 16];
    chr[0] = 0xFF;
    let mut ppu = new_ppu(&chr);
    set_vram(&mut ppu, 0x3F11, 0x07);
    write_io(&mut ppu, 0x2003, 0x00);
    write_io(&mut ppu, 0x2004, 0x08); // Y
    write_io(&mut ppu, 0x2003, 0x03);
    write_io(&mut ppu, 0x2004, 0x10); // X
    let mut canvas = vec![0u8; 256 * 256 * 3];
    draw_to_canvas(&mut canvas, &ppu);
    let (r, g, b) = palette_rgb(0x07);
    let off = 8 * 768 + 16 * 3;
    assert_eq!(&canvas[off..off + 3], &[r, g, b]);
}

#[test]
fn oam_dma_port_is_a_stub() {
    let mut ppu = new_ppu(&Vec::new());
    write_io(&mut ppu, 0x4014, 0x02);
    assert_eq!(read_io(&mut ppu, 0x4014), 0);
    assert_eq!(ppu.oam_byte(0), 0);
}
