//! The graphics unit: a stateful register/latch machine that owns video
//! memory and sprite memory, exposes eight MMIO ports plus the sprite-memory
//! DMA trigger, and converts tile/attribute/palette data into a pixel raster.
use vstd::prelude::*;
use vstd::pervasive::VecAdditionalExecFns;

use crate::palette::palette_rgb;
use crate::palette::palette_rgb_spec;

verus! {

/// Mathematical model of the graphics unit's state.
pub ghost struct PpuView {
    /// Video memory: 64KB logical address space holding pattern tables,
    /// name/attribute tables and palette entries.
    pub vram: Seq<u8>,
    /// Sprite memory: 256 bytes, four per sprite (Y, tile index, attribute, X).
    pub oam: Seq<u8>,
    /// Current address cursor into video memory.
    pub vram_address: u16,
    /// Write latch of the video-memory address port: 0 means the next write
    /// is the high byte, anything else means it is the low byte.
    pub vram_write_counter: u8,
    /// Horizontal scroll position.
    pub h_scroll: u8,
    /// Vertical scroll position.
    pub v_scroll: u8,
    /// Write latch of the scroll port: 0 means the next write is horizontal.
    pub scroll_write_counter: u8,
    /// Address cursor into sprite memory.
    pub oam_address: u8,
    /// Controller register: selects the pattern-table banks (bit 3 for
    /// sprites, bit 4 for the background).
    pub reg_controller: u8,
    /// Mask register: rendering enable flags, stored but not interpreted.
    pub reg_mask: u8,
    /// Status register: bit 7 is the vertical-blank flag.
    pub reg_status: u8,
}

/// The graphics unit. All mutation goes through the MMIO ports routed to
/// [`read_io`] and [`write_io`].
pub struct Ppu {
    vram: Vec<u8>,
    oam: Vec<u8>,
    vram_address: u16,
    vram_write_counter: u8,
    h_scroll: u8,
    v_scroll: u8,
    scroll_write_counter: u8,
    oam_address: u8,
    reg_controller: u8,
    reg_mask: u8,
    reg_status: u8,
}

impl View for Ppu {
    type V = PpuView;

    closed spec fn view(&self) -> PpuView {
        PpuView {
            vram: self.vram@,
            oam: self.oam@,
            vram_address: self.vram_address,
            vram_write_counter: self.vram_write_counter,
            h_scroll: self.h_scroll,
            v_scroll: self.v_scroll,
            scroll_write_counter: self.scroll_write_counter,
            oam_address: self.oam_address,
            reg_controller: self.reg_controller,
            reg_mask: self.reg_mask,
            reg_status: self.reg_status,
        }
    }
}

/// Size of video memory in bytes.
pub const VRAM_SIZE: usize = 0x10000;
/// Size of sprite memory in bytes.
pub const OAM_SIZE: usize = 0x100;

/// Well-formedness: the memories have their fixed sizes.
pub open spec fn ppu_wf(p: PpuView) -> bool {
    &&& p.vram.len() == VRAM_SIZE
    &&& p.oam.len() == OAM_SIZE
}

/// Value returned by a read of the given MMIO port: the status register at
/// 0x2002, the byte under the video-memory cursor at 0x2007, zero from every
/// write-only or unmapped port.
pub open spec fn ppu_read_value(p: PpuView, addr: u16) -> u8 {
    if addr == 0x2002 {
        p.reg_status
    } else if addr == 0x2007 {
        p.vram[p.vram_address as int]
    } else {
        0
    }
}

/// State after a read of the given MMIO port. Reading the status register
/// clears the vertical-blank bit and resets both two-write latches; reading
/// the video-memory data port advances the address cursor by one.
pub open spec fn ppu_read_state(p: PpuView, addr: u16) -> PpuView {
    if addr == 0x2002 {
        PpuView {
            reg_status: p.reg_status & 0x7F,
            scroll_write_counter: 0,
            vram_write_counter: 0,
            ..p
        }
    } else if addr == 0x2007 {
        PpuView { vram_address: p.vram_address.wrapping_add(1), ..p }
    } else {
        p
    }
}

/// State after a write of `value` to the given MMIO port.
pub open spec fn ppu_write_state(p: PpuView, addr: u16, value: u8) -> PpuView {
    if addr == 0x2000 {
        PpuView { reg_controller: value, ..p }
    } else if addr == 0x2001 {
        PpuView { reg_mask: value, ..p }
    } else if addr == 0x2003 {
        PpuView { oam_address: value, ..p }
    } else if addr == 0x2004 {
        PpuView { oam: p.oam.update(p.oam_address as int, value), ..p }
    } else if addr == 0x2005 {
        if p.scroll_write_counter == 0 {
            PpuView { h_scroll: value, scroll_write_counter: p.scroll_write_counter ^ 1, ..p }
        } else {
            PpuView { v_scroll: value, scroll_write_counter: p.scroll_write_counter ^ 1, ..p }
        }
    } else if addr == 0x2006 {
        if p.vram_write_counter == 0 {
            PpuView {
                vram_address: (value as u16) << 8,
                vram_write_counter: p.vram_write_counter ^ 1,
                ..p
            }
        } else {
            PpuView {
                vram_address: p.vram_address | (value as u16),
                vram_write_counter: p.vram_write_counter ^ 1,
                ..p
            }
        }
    } else if addr == 0x2007 {
        PpuView {
            vram: p.vram.update(p.vram_address as int, value),
            vram_address: p.vram_address.wrapping_add(1),
            ..p
        }
    } else {
        // 0x4014 triggers the bulk sprite-memory transfer, which is an
        // external-collaborator stub; every other port is unmapped.
        p
    }
}

/// Creates a graphics unit at power-on: video memory seeded with the
/// character ROM and zero elsewhere, sprite memory cleared, every register
/// and latch zero.
pub fn new_ppu(rom_data: &Vec<u8>) -> (ppu: Ppu)
    requires
        rom_data@.len() <= VRAM_SIZE,
    ensures
        ppu_wf(ppu@),
        forall|i: int| 0 <= i < rom_data@.len() ==> ppu@.vram[i] == rom_data@[i],
        forall|i: int| rom_data@.len() <= i < VRAM_SIZE ==> ppu@.vram[i] == 0,
        forall|i: int| 0 <= i < OAM_SIZE ==> ppu@.oam[i] == 0,
        ppu@.vram_address == 0,
        ppu@.vram_write_counter == 0,
        ppu@.h_scroll == 0,
        ppu@.v_scroll == 0,
        ppu@.scroll_write_counter == 0,
        ppu@.oam_address == 0,
        ppu@.reg_controller == 0,
        ppu@.reg_mask == 0,
        ppu@.reg_status == 0,
{
    let mut vram: Vec<u8> = Vec::new();
    let mut i: usize = 0;
    while i < VRAM_SIZE
        invariant
            i == vram@.len(),
            i <= VRAM_SIZE,
            rom_data@.len() <= VRAM_SIZE,
            forall|j: int| 0 <= j < i && j < rom_data@.len() ==> vram@[j] == rom_data@[j],
            forall|j: int| rom_data@.len() <= j < i ==> vram@[j] == 0,
        decreases VRAM_SIZE - i,
    {
        if i < rom_data.len() {
            vram.push(rom_data[i]);
        } else {
            vram.push(0);
        }
        i = i + 1;
    }
    let mut oam: Vec<u8> = Vec::new();
    let mut k: usize = 0;
    while k < OAM_SIZE
        invariant
            k == oam@.len(),
            k <= OAM_SIZE,
            forall|j: int| 0 <= j < k ==> oam@[j] == 0,
        decreases OAM_SIZE - k,
    {
        oam.push(0);
        k = k + 1;
    }
    Ppu {
        vram,
        oam,
        vram_address: 0,
        vram_write_counter: 0,
        h_scroll: 0,
        v_scroll: 0,
        scroll_write_counter: 0,
        oam_address: 0,
        reg_controller: 0,
        reg_mask: 0,
        reg_status: 0,
    }
}

/// Reads one of the MMIO ports. Write-only and unmapped ports read as zero.
/// Reading the status register clears the vertical-blank bit and resets both
/// two-write latches; reading the video-memory data port returns the byte
/// under the address cursor and advances the cursor.
pub fn read_io(ppu: &mut Ppu, addr: u16) -> (value: u8)
    requires
        ppu_wf(old(ppu)@),
    ensures
        ppu_wf(final(ppu)@),
        value == ppu_read_value(old(ppu)@, addr),
        final(ppu)@ == ppu_read_state(old(ppu)@, addr),
{
    if addr == 0x2002 {
        let status = ppu.reg_status;
        ppu.reg_status = ppu.reg_status & 0x7F;
        ppu.scroll_write_counter = 0;
        ppu.vram_write_counter = 0;
        status
    } else if addr == 0x2007 {
        let value = ppu.vram[ppu.vram_address as usize];
        ppu.vram_address = ppu.vram_address.wrapping_add(1);
        value
    } else {
        0
    }
}

/// Writes one of the MMIO ports: stores into the controller, mask or sprite
/// address registers, stores a byte of sprite memory, feeds the two-write
/// scroll and video-memory address latches, or stores a byte of video memory
/// and advances the cursor. The sprite-memory DMA trigger at 0x4014 is an
/// external-collaborator stub; unmapped ports discard the value.
pub fn write_io(ppu: &mut Ppu, addr: u16, value: u8)
    requires
        ppu_wf(old(ppu)@),
    ensures
        ppu_wf(final(ppu)@),
        final(ppu)@ == ppu_write_state(old(ppu)@, addr, value),
{
    if addr == 0x2000 {
        ppu.reg_controller = value;
    } else if addr == 0x2001 {
        ppu.reg_mask = value;
    } else if addr == 0x2003 {
        ppu.oam_address = value;
    } else if addr == 0x2004 {
        ppu.oam.set(ppu.oam_address as usize, value);
    } else if addr == 0x2005 {
        if ppu.scroll_write_counter == 0 {
            ppu.h_scroll = value;
        } else {
            ppu.v_scroll = value;
        }
        ppu.scroll_write_counter = ppu.scroll_write_counter ^ 1;
    } else if addr == 0x2006 {
        if ppu.vram_write_counter == 0 {
            ppu.vram_address = (value as u16) << 8;
        } else {
            ppu.vram_address = ppu.vram_address | (value as u16);
        }
        ppu.vram_write_counter = ppu.vram_write_counter ^ 1;
    } else if addr == 0x2007 {
        ppu.vram.set(ppu.vram_address as usize, value);
        ppu.vram_address = ppu.vram_address.wrapping_add(1);
    }
}

impl Ppu {
    /// Current horizontal scroll position.
    pub fn h_scroll(&self) -> (r: u8)
        ensures
            r == self@.h_scroll,
    {
        self.h_scroll
    }

    /// Current vertical scroll position.
    pub fn v_scroll(&self) -> (r: u8)
        ensures
            r == self@.v_scroll,
    {
        self.v_scroll
    }

    /// Current video-memory address cursor.
    pub fn vram_address(&self) -> (r: u16)
        ensures
            r == self@.vram_address,
    {
        self.vram_address
    }

    /// The byte of video memory at the given address.
    pub fn vram_byte(&self, addr: u16) -> (r: u8)
        requires
            ppu_wf(self@),
        ensures
            r == self@.vram[addr as int],
    {
        self.vram[addr as usize]
    }

    /// The byte of sprite memory at the given address.
    pub fn oam_byte(&self, addr: u8) -> (r: u8)
        requires
            ppu_wf(self@),
        ensures
            r == self@.oam[addr as int],
    {
        self.oam[addr as usize]
    }

    /// Current value of the controller register.
    pub fn controller(&self) -> (r: u8)
        ensures
            r == self@.reg_controller,
    {
        self.reg_controller
    }

    /// Current value of the mask register.
    pub fn mask(&self) -> (r: u8)
        ensures
            r == self@.reg_mask,
    {
        self.reg_mask
    }

    /// Current value of the status register, without the read side effects
    /// of the MMIO port.
    pub fn status(&self) -> (r: u8)
        ensures
            r == self@.reg_status,
    {
        self.reg_status
    }
}

/// A pixel buffer holds at least the visible 256x240 raster, three bytes
/// (red, green, blue) per pixel, rows from the top.
pub const CANVAS_MIN_LEN: usize = 0x2D000;

/// Paints one pixel of the raster, clipping any position outside the visible
/// 256x240 rectangle. A buffer too small to hold the raster is modelled as
/// left unchanged; the painting functions all require a full-sized buffer.
pub open spec fn put_pixel_spec(c: Seq<u8>, x: int, y: int, r: u8, g: u8, b: u8) -> Seq<u8> {
    if 0 <= x < 256 && 0 <= y < 240 && c.len() >= CANVAS_MIN_LEN {
        let off = y * 768 + x * 3;
        c.update(off, r).update(off + 1, g).update(off + 2, b)
    } else {
        c
    }
}

/// Video-memory address of a palette entry: entries sit at 0x3F00 plus the
/// palette-bank offset plus the 2-bit pixel value, except that pixel value 0
/// of every palette aliases the universal background color at 0x3F00.
pub open spec fn palette_address(palette_num: u8, offset: u8) -> int {
    if palette_num == 0 {
        0x3F00
    } else {
        0x3F00 + offset + palette_num
    }
}

/// Color of a pixel: the stored palette entry resolved through the fixed
/// RGB lookup table.
pub open spec fn get_palette_spec(p: PpuView, palette_num: u8, offset: u8) -> (u8, u8, u8) {
    palette_rgb_spec(p.vram[palette_address(palette_num, offset)])
}

/// The 2-bit color index of pixel (px, py) of a tile. A tile is 16 bytes of
/// video memory: 8 bytes of low bit-plane then 8 bytes of high bit-plane, one
/// byte per row, bit 7 of a row byte being the leftmost pixel.
pub open spec fn tile_pixel_num(p: PpuView, base_addr: u16, chrnum: u8, px: int, py: int) -> u8
    recommends
        0 <= px < 8,
        0 <= py < 8,
{
    let a = base_addr + chrnum * 16;
    let low = p.vram[a + py];
    let high = p.vram[a + 8 + py];
    ((low >> ((7 - px) as u8)) & 1) | (((high >> ((7 - px) as u8)) & 1) << 1)
}

/// Paints pixel (px, py) of a tile at canvas position (base_x + px,
/// base_y + py).
pub open spec fn put_tile_cell(
    c: Seq<u8>,
    p: PpuView,
    base_x: int,
    base_y: int,
    base_addr: u16,
    chrnum: u8,
    palette_offset: u8,
    px: int,
    py: int,
) -> Seq<u8> {
    let pn = tile_pixel_num(p, base_addr, chrnum, px, py);
    let rgb = get_palette_spec(p, pn, palette_offset);
    put_pixel_spec(c, base_x + px, base_y + py, rgb.0, rgb.1, rgb.2)
}

/// Paints the first `n` pixels of tile row `py`, left to right.
pub open spec fn put_tile_row_upto(
    c: Seq<u8>,
    p: PpuView,
    base_x: int,
    base_y: int,
    base_addr: u16,
    chrnum: u8,
    palette_offset: u8,
    py: int,
    n: int,
) -> Seq<u8>
    decreases n,
{
    if n <= 0 {
        c
    } else {
        put_tile_cell(
            put_tile_row_upto(c, p, base_x, base_y, base_addr, chrnum, palette_offset, py, n - 1),
            p,
            base_x,
            base_y,
            base_addr,
            chrnum,
            palette_offset,
            n - 1,
            py,
        )
    }
}

/// Paints the first `n` rows of a tile, top to bottom.
pub open spec fn put_tile_rows_upto(
    c: Seq<u8>,
    p: PpuView,
    base_x: int,
    base_y: int,
    base_addr: u16,
    chrnum: u8,
    palette_offset: u8,
    n: int,
) -> Seq<u8>
    decreases n,
{
    if n <= 0 {
        c
    } else {
        put_tile_row_upto(
            put_tile_rows_upto(c, p, base_x, base_y, base_addr, chrnum, palette_offset, n - 1),
            p,
            base_x,
            base_y,
            base_addr,
            chrnum,
            palette_offset,
            n - 1,
            8,
        )
    }
}

/// Paints a full 8x8 tile whose pattern data starts at
/// `base_addr + 16 * chrnum`, using the given palette-bank offset.
pub open spec fn put_tile_spec(
    c: Seq<u8>,
    p: PpuView,
    base_x: int,
    base_y: int,
    base_addr: u16,
    chrnum: u8,
    palette_offset: u8,
) -> Seq<u8> {
    put_tile_rows_upto(c, p, base_x, base_y, base_addr, chrnum, palette_offset, 8)
}

/// Start of the pattern table the controller register selects for the
/// background (bit 4).
pub open spec fn bg_pattern_base(p: PpuView) -> u16 {
    if (p.reg_controller >> 4) & 1 == 1 {
        0x1000
    } else {
        0
    }
}

/// Start of the pattern table the controller register selects for sprites
/// (bit 3).
pub open spec fn sprite_pattern_base(p: PpuView) -> u16 {
    if (p.reg_controller >> 3) & 1 == 1 {
        0x1000
    } else {
        0
    }
}

/// Paints background tile (tx, ty) of the 32x30 name-table grid: the tile
/// index read from the name table at 0x2000 selects a tile of the background
/// pattern table, painted with palette-select 0.
pub open spec fn bg_tile_spec(c: Seq<u8>, p: PpuView, tx: int, ty: int) -> Seq<u8> {
    let chrnum = p.vram[0x2000 + ty * 32 + tx];
    put_tile_spec(c, p, tx * 8, ty * 8, bg_pattern_base(p), chrnum, 0)
}

/// Paints the first `n` background tiles of name-table row `ty`.
pub open spec fn bg_row_upto(c: Seq<u8>, p: PpuView, ty: int, n: int) -> Seq<u8>
    decreases n,
{
    if n <= 0 {
        c
    } else {
        bg_tile_spec(bg_row_upto(c, p, ty, n - 1), p, n - 1, ty)
    }
}

/// Paints the first `n` rows of the background name-table grid.
pub open spec fn bg_rows_upto(c: Seq<u8>, p: PpuView, n: int) -> Seq<u8>
    decreases n,
{
    if n <= 0 {
        c
    } else {
        bg_row_upto(bg_rows_upto(c, p, n - 1), p, n - 1, 32)
    }
}

/// Paints the first `n` sprites over the canvas: sprite `i` is the four
/// bytes of sprite memory at 4*i (Y, tile index, attribute, X), its tile
/// taken from the sprite pattern table and painted with the sprite palette
/// bank, clipped to the visible rectangle.
pub open spec fn sprites_upto(c: Seq<u8>, p: PpuView, n: int) -> Seq<u8>
    decreases n,
{
    if n <= 0 {
        c
    } else {
        let i = n - 1;
        let sy = p.oam[i * 4];
        let tile = p.oam[i * 4 + 1];
        let sx = p.oam[i * 4 + 3];
        put_tile_spec(
            sprites_upto(c, p, n - 1),
            p,
            sx as int,
            sy as int,
            sprite_pattern_base(p),
            tile,
            0x10,
        )
    }
}

/// One full frame: the 32x30 background grid painted row by row, then all 64
/// sprites painted in sprite-memory order.
pub open spec fn draw_spec(c: Seq<u8>, p: PpuView) -> Seq<u8> {
    sprites_upto(bg_rows_upto(c, p, 30), p, 64)
}

/// Paints one pixel of the raster at (x, y), clipping any position outside
/// the visible 256x240 rectangle.
pub fn put_pixel(canvas: &mut Vec<u8>, x: i32, y: i32, r: u8, g: u8, b: u8)
    requires
        old(canvas)@.len() >= CANVAS_MIN_LEN,
    ensures
        final(canvas)@ == put_pixel_spec(old(canvas)@, x as int, y as int, r, g, b),
        final(canvas)@.len() == old(canvas)@.len(),
{
    if 0 > x || x >= 256 {
        return ;
    }
    if 0 > y || y >= 240 {
        return ;
    }
    let offset = (y * 768 + x * 3) as usize;
    canvas.set(offset, r);
    canvas.set(offset + 1, g);
    canvas.set(offset + 2, b);
}

/// Resolves the color of a 2-bit pixel value under the given palette-bank
/// offset, pixel value 0 aliasing the universal background color.
pub fn get_palette(ppu: &Ppu, palette_num: u8, offset: u8) -> (rgb: (u8, u8, u8))
    requires
        ppu_wf(ppu@),
    ensures
        rgb == get_palette_spec(ppu@, palette_num, offset),
{
    let address: usize = if palette_num == 0 {
        0x3F00
    } else {
        0x3F00 + (offset as usize) + (palette_num as usize)
    };
    palette_rgb(ppu.vram[address])
}

/// Paints the 8x8 tile with index `chrnum` of the pattern table at
/// `base_addr`, its top-left corner at canvas position (base_x, base_y),
/// using the given palette-bank offset.
pub fn put_tile(
    canvas: &mut Vec<u8>,
    ppu: &Ppu,
    base_x: i32,
    base_y: i32,
    base_addr: u16,
    chrnum: u8,
    palette_offset: u8,
)
    requires
        ppu_wf(ppu@),
        old(canvas)@.len() >= CANVAS_MIN_LEN,
        base_addr + chrnum * 16 + 15 < VRAM_SIZE,
        base_x <= 0x7FFFFFF8,
        base_y <= 0x7FFFFFF8,
    ensures
        final(canvas)@ == put_tile_spec(
            old(canvas)@,
            ppu@,
            base_x as int,
            base_y as int,
            base_addr,
            chrnum,
            palette_offset,
        ),
        final(canvas)@.len() == old(canvas)@.len(),
{
    let ghost c0 = canvas@;
    let addr: u16 = base_addr + (chrnum as u16) * 16;
    let mut y: usize = 0;
    while y < 8
        invariant
            y <= 8,
            ppu_wf(ppu@),
            addr == base_addr + chrnum * 16,
            addr + 15 < VRAM_SIZE,
            base_x <= 0x7FFFFFF8,
            base_y <= 0x7FFFFFF8,
            canvas@.len() == c0.len(),
            c0.len() >= CANVAS_MIN_LEN,
            canvas@ == put_tile_rows_upto(
                c0,
                ppu@,
                base_x as int,
                base_y as int,
                base_addr,
                chrnum,
                palette_offset,
                y as int,
            ),
        decreases 8 - y,
    {
        let low = ppu.vram[(addr as usize) + y];
        let high = ppu.vram[(addr as usize) + 8 + y];
        let mut x: usize = 0;
        while x < 8
            invariant
                x <= 8,
                y < 8,
                ppu_wf(ppu@),
                addr == base_addr + chrnum * 16,
                addr + 15 < VRAM_SIZE,
                base_x <= 0x7FFFFFF8,
                base_y <= 0x7FFFFFF8,
                canvas@.len() == c0.len(),
                c0.len() >= CANVAS_MIN_LEN,
                low == ppu@.vram[addr + y],
                high == ppu@.vram[addr + 8 + y],
                canvas@ == put_tile_row_upto(
                    put_tile_rows_upto(
                        c0,
                        ppu@,
                        base_x as int,
                        base_y as int,
                        base_addr,
                        chrnum,
                        palette_offset,
                        y as int,
                    ),
                    ppu@,
                    base_x as int,
                    base_y as int,
                    base_addr,
                    chrnum,
                    palette_offset,
                    y as int,
                    x as int,
                ),
            decreases 8 - x,
        {
            let shift: u8 = (7 - x) as u8;
            let palette_num: u8 = ((low >> shift) & 1) | (((high >> shift) & 1) << 1);
            let (r, g, b) = get_palette(ppu, palette_num, palette_offset);
            put_pixel(canvas, base_x + (x as i32), base_y + (y as i32), r, g, b);
            x = x + 1;
        }
        y = y + 1;
    }
}

/// Paints a background tile: like [`put_tile`], with the pattern table the
/// controller register selects for the background and palette-select 0.
pub fn put_bg_tile(canvas: &mut Vec<u8>, ppu: &Ppu, base_x: i32, base_y: i32, chrnum: u8)
    requires
        ppu_wf(ppu@),
        old(canvas)@.len() >= CANVAS_MIN_LEN,
        base_x <= 0x7FFFFFF8,
        base_y <= 0x7FFFFFF8,
    ensures
        final(canvas)@ == put_tile_spec(
            old(canvas)@,
            ppu@,
            base_x as int,
            base_y as int,
            bg_pattern_base(ppu@),
            chrnum,
            0,
        ),
        final(canvas)@.len() == old(canvas)@.len(),
{
    let base_addr: u16 = if (ppu.reg_controller >> 4) & 1 == 1 {
        0x1000
    } else {
        0
    };
    put_tile(canvas, ppu, base_x, base_y, base_addr, chrnum, 0x00);
}

/// Renders one full frame into the pixel buffer: the 32x30 background
/// name-table grid, then all 64 sprites, each clipped to the visible
/// 256x240 rectangle.
pub fn draw_to_canvas(canvas: &mut Vec<u8>, ppu: &Ppu)
    requires
        ppu_wf(ppu@),
        old(canvas)@.len() >= CANVAS_MIN_LEN,
    ensures
        final(canvas)@ == draw_spec(old(canvas)@, ppu@),
        final(canvas)@.len() == old(canvas)@.len(),
{
    let ghost c0 = canvas@;
    let mut y: usize = 0;
    while y < 30
        invariant
            y <= 30,
            ppu_wf(ppu@),
            canvas@.len() == c0.len(),
            c0.len() >= CANVAS_MIN_LEN,
            canvas@ == bg_rows_upto(c0, ppu@, y as int),
        decreases 30 - y,
    {
        let ghost c_row = canvas@;
        let mut x: usize = 0;
        while x < 32
            invariant
                x <= 32,
                y < 30,
                ppu_wf(ppu@),
                canvas@.len() == c0.len(),
                c0.len() >= CANVAS_MIN_LEN,
                c_row == bg_rows_upto(c0, ppu@, y as int),
                canvas@ == bg_row_upto(c_row, ppu@, y as int, x as int),
            decreases 32 - x,
        {
            let bgaddr: usize = 0x2000 + y * 32 + x;
            let chrnum = ppu.vram[bgaddr];
            put_bg_tile(canvas, ppu, (x * 8) as i32, (y * 8) as i32, chrnum);
            x = x + 1;
        }
        y = y + 1;
    }
    let ghost c_bg = canvas@;
    let mut i: usize = 0;
    while i < 64
        invariant
            i <= 64,
            ppu_wf(ppu@),
            canvas@.len() == c0.len(),
            c0.len() >= CANVAS_MIN_LEN,
            c_bg == bg_rows_upto(c0, ppu@, 30),
            canvas@ == sprites_upto(c_bg, ppu@, i as int),
        decreases 64 - i,
    {
        let base: usize = i * 4;
        let sy = ppu.oam[base];
        let tile = ppu.oam[base + 1];
        let sx = ppu.oam[base + 3];
        let base_addr: u16 = if (ppu.reg_controller >> 3) & 1 == 1 {
            0x1000
        } else {
            0
        };
        put_tile(canvas, ppu, sx as i32, sy as i32, base_addr, tile, 0x10);
        i = i + 1;
    }
}

/// Reading the status register clears the vertical-blank bit, resets both
/// two-write latches, and so makes the next two writes to the scroll port
/// set the horizontal and then the vertical scroll position, whatever
/// partial write the latches were in the middle of.
pub proof fn lemma_status_read_resets_latches(p: PpuView, a: u8, b: u8)
    ensures
        ({
            let after_read = ppu_read_state(p, 0x2002);
            &&& after_read.reg_status & 0x80 == 0
            &&& after_read.scroll_write_counter == 0
            &&& after_read.vram_write_counter == 0
            &&& ({
                let w2 = ppu_write_state(ppu_write_state(after_read, 0x2005, a), 0x2005, b);
                w2.h_scroll == a && w2.v_scroll == b
            })
        }),
{
    let s = p.reg_status;
    assert((s & 0x7F) & 0x80 == 0) by (bit_vector);
    assert(0u8 ^ 1 != 0) by (bit_vector);
}

} // verus!
