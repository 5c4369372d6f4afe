use vstd::prelude::*;
use super::Ppu;

verus! {

pub const LCD_WIDTH: usize = 160;
pub const LCD_HEIGHT: usize = 144;
pub const VRAM_SIZE: usize = 0x2000;
pub const OAM_SIZE: usize = 0xa0;
/// Number of entries in OAM.
pub const SPRITES: usize = 40;

/// One pixel of the framebuffer.
#[derive(Clone, Copy, Default, Debug, PartialEq, Eq, Structural)]
pub struct Colour {
    pub r: u8,
    pub g: u8,
    pub b: u8,
}

/// The four shades, lightest first.
pub open spec fn dmg_palette(shade: u8) -> Colour {
    if shade == 0 {
        Colour { r: 0xe0, g: 0xf8, b: 0xd0 }
    } else if shade == 1 {
        Colour { r: 0x88, g: 0xc0, b: 0x70 }
    } else if shade == 2 {
        Colour { r: 0x34, g: 0x68, b: 0x56 }
    } else {
        Colour { r: 0x08, g: 0x18, b: 0x20 }
    }
}

pub fn dmg_colour(shade: u8) -> (r: Colour)
    ensures
        r == dmg_palette(shade),
{
    if shade == 0 {
        Colour { r: 0xe0, g: 0xf8, b: 0xd0 }
    } else if shade == 1 {
        Colour { r: 0x88, g: 0xc0, b: 0x70 }
    } else if shade == 2 {
        Colour { r: 0x34, g: 0x68, b: 0x56 }
    } else {
        Colour { r: 0x08, g: 0x18, b: 0x20 }
    }
}

/// The shade a palette register gives colour index `id`.
pub open spec fn palette_shade(palette: u8, id: u8) -> u8 {
    (palette >> (2 * id)) & 3
}

/// Offset in VRAM of a tile: from 0x8000 by unsigned id, or around 0x9000 by signed id.
pub open spec fn tile_addr(unsigned: bool, id: u8) -> int {
    if unsigned || id >= 128 {
        id as int * 16
    } else {
        0x1000 + id as int * 16
    }
}

/// Colour index of one pixel of a tile: the bit `7 - col` of the row's second byte is
/// the high bit, of its first byte the low bit.
pub open spec fn tile_pixel(vram: Seq<u8>, addr: int, row: int, col: int) -> u8 {
    let lo = vram[addr + row * 2];
    let hi = vram[addr + row * 2 + 1];
    let shift = (7 - col) as u8;
    (((hi >> shift) & 1) << 1u8) | ((lo >> shift) & 1)
}

impl Ppu {
    /// Whether the window covers column `x` of the current line.
    pub open spec fn window_at(&self, x: u8) -> bool {
        self.lcdc.win_enable && self.ly >= self.wy && x + 7 >= self.wx
    }

    /// Colour index of the background or window at column `x` of line LY.
    pub open spec fn bg_index(&self, x: u8) -> u8 {
        if !self.lcdc.bg_win_enable {
            0
        } else {
            let window = self.window_at(x);
            let px: int = if window {
                x + 7 - self.wx
            } else {
                (x + self.scx) % 256
            };
            let py: int = if window {
                self.ly - self.wy
            } else {
                (self.ly + self.scy) % 256
            };
            let map: int = if (window && self.lcdc.win_map) || (!window && self.lcdc.bg_map) {
                0x1c00
            } else {
                0x1800
            };
            let id = self.vram@[map + (py / 8) * 32 + px / 8];
            tile_pixel(self.vram@, tile_addr(self.lcdc.bg_win_map, id), py % 8, px % 8)
        }
    }

    pub open spec fn bg_colour(&self, x: u8) -> Colour {
        if self.lcdc.bg_win_enable {
            dmg_palette(palette_shade(self.bgp, self.bg_index(x)))
        } else {
            dmg_palette(0)
        }
    }

    pub open spec fn sprite_height(&self) -> int {
        if self.lcdc.obj_size { 16 } else { 8 }
    }

    /// Whether OAM entry `i` covers column `x` of line LY.
    pub open spec fn sprite_covers(&self, i: int, x: u8) -> bool {
        let y = self.oam@[4 * i] as int;
        let sx = self.oam@[4 * i + 1] as int;
        &&& y != 0
        &&& y - 16 <= self.ly < y - 16 + self.sprite_height()
        &&& sx - 8 <= x < sx
    }

    /// Colour index of OAM entry `i` at column `x`, flips applied.
    pub open spec fn sprite_index(&self, i: int, x: u8) -> u8 {
        let y = self.oam@[4 * i] as int;
        let sx = self.oam@[4 * i + 1] as int;
        let tile = if self.lcdc.obj_size {
            self.oam@[4 * i + 2] & 0xfe
        } else {
            self.oam@[4 * i + 2]
        };
        let attr = self.oam@[4 * i + 3];
        let row0 = self.ly - (y - 16);
        let col0 = x - (sx - 8);
        let row = if attr & 0x40 != 0 {
            self.sprite_height() - 1 - row0
        } else {
            row0
        };
        let col = if attr & 0x20 != 0 {
            7 - col0
        } else {
            col0
        };
        tile_pixel(self.vram@, tile_addr(true, tile), row, col)
    }

    /// Whether OAM entry `i` is drawn at column `x` over a background of index `bg`.
    pub open spec fn sprite_draws(&self, i: int, x: u8, bg: u8) -> bool {
        &&& self.lcdc.obj_enable
        &&& self.sprite_covers(i, x)
        &&& self.sprite_index(i, x) != 0
        &&& !(self.oam@[4 * i + 3] & 0x80 != 0 && bg != 0)
    }

    pub open spec fn sprite_colour(&self, i: int, x: u8) -> Colour {
        let palette = if self.oam@[4 * i + 3] & 0x10 != 0 {
            self.obp1
        } else {
            self.obp0
        };
        dmg_palette(palette_shade(palette, self.sprite_index(i, x)))
    }

    /// The colour at column `x` after the first `n` OAM entries were drawn over `base`.
    pub open spec fn sprites_over(&self, x: u8, n: nat, base: Colour) -> Colour
        decreases n,
    {
        if n == 0 {
            base
        } else {
            let below = self.sprites_over(x, (n - 1) as nat, base);
            if self.sprite_draws(n - 1, x, self.bg_index(x)) {
                self.sprite_colour(n - 1, x)
            } else {
                below
            }
        }
    }

    /// The final colour of column `x` of line LY.
    pub open spec fn spec_pixel(&self, x: u8) -> Colour {
        self.sprites_over(x, SPRITES as nat, self.bg_colour(x))
    }

    pub fn get_pixel(&self, x: usize, y: usize) -> (r: Colour)
        requires
            self.framebuffer@.len() == LCD_WIDTH * LCD_HEIGHT,
            x < LCD_WIDTH,
            y < LCD_HEIGHT,
        ensures
            r == self.framebuffer@[x + y * LCD_WIDTH],
    {
        self.framebuffer[x + y * LCD_WIDTH]
    }

    fn set_pixel(&mut self, x: usize, y: usize, value: Colour)
        requires
            old(self).framebuffer@.len() == LCD_WIDTH * LCD_HEIGHT,
            x < LCD_WIDTH,
            y < LCD_HEIGHT,
        ensures
            final(self).framebuffer@ == old(self).framebuffer@.update(x + y * LCD_WIDTH, value),
            final(self).vram == old(self).vram,
            final(self).oam == old(self).oam,
            final(self).clock() == old(self).clock(),
            final(self).same_registers(old(self)),
            final(self).stat == old(self).stat,
            final(self).vblank_int == old(self).vblank_int,
            final(self).lcd_stat_int == old(self).lcd_stat_int,
    {
        self.framebuffer.set(x + y * LCD_WIDTH, value);
    }

    /// Colour index of pixel (`x`, `y`) of a tile; sprites always use unsigned ids.
    pub fn get_tile(&self, tile_id: u8, x: u8, y: u8, sprite: bool) -> (r: u8)
        requires
            self.vram@.len() == VRAM_SIZE,
            x < 8,
            y < 16,
        ensures
            r == tile_pixel(self.vram@, tile_addr(self.lcdc.bg_win_map || sprite, tile_id), y as int, x as int),
            r < 4,
    {
        let tile_addr: usize = if self.lcdc.bg_win_map || sprite || tile_id >= 128 {
            tile_id as usize * 16
        } else {
            0x1000 + tile_id as usize * 16
        };
        let line_lo = self.vram[tile_addr + y as usize * 2];
        let line_hi = self.vram[tile_addr + y as usize * 2 + 1];
        let shift: u8 = 7 - x;
        let r = (((line_hi >> shift) & 1) << 1u8) | ((line_lo >> shift) & 1);
        assert(((((line_hi >> shift) & 1) << 1u8) | ((line_lo >> shift) & 1)) < 4) by (bit_vector);
        r
    }

    /// The shade that `palette` gives colour index `id`.
    pub fn convert_dmg_palette(&self, palette: u8, id: u8) -> (r: u8)
        requires
            id < 4,
        ensures
            r == palette_shade(palette, id),
            r < 4,
    {
        assert(((palette >> (2 * id) as u8) & 3) < 4) by (bit_vector);
        (palette >> (2 * id)) & 3
    }

    /// Colour index of the background or window at column `x` of line LY.
    pub fn render_background_index(&self, x: u8) -> (r: u8)
        requires
            self.wf(),
        ensures
            r == self.bg_index(x),
            r < 4,
    {
        if !self.lcdc.bg_win_enable {
            return 0;
        }
        let window = self.lcdc.win_enable && self.ly >= self.wy && x as u16 + 7 >= self.wx as u16;
        let px: u16 = if window {
            x as u16 + 7 - self.wx as u16
        } else {
            (x as u16 + self.scx as u16) % 256
        };
        let py: u16 = if window {
            self.ly as u16 - self.wy as u16
        } else {
            (self.ly as u16 + self.scy as u16) % 256
        };
        let map: usize = if (window && self.lcdc.win_map) || (!window && self.lcdc.bg_map) {
            0x1c00
        } else {
            0x1800
        };
        let tile_id = self.vram[map + (py as usize / 8) * 32 + px as usize / 8];
        self.get_tile(tile_id, (px % 8) as u8, (py % 8) as u8, false)
    }

    /// The background colour of column `x` of line LY.
    pub fn render_background_pixel(&self, x: u8) -> (r: Colour)
        requires
            self.wf(),
        ensures
            r == self.bg_colour(x),
    {
        if self.lcdc.bg_win_enable {
            let id = self.render_background_index(x);
            dmg_colour(self.convert_dmg_palette(self.bgp, id))
        } else {
            dmg_colour(0)
        }
    }

    /// Draws the OAM entries in order over `base` at column `x` of line LY.
    pub fn render_sprite_pixel(&self, x: u8, base: Colour) -> (r: Colour)
        requires
            self.wf(),
        ensures
            r == self.sprites_over(x, SPRITES as nat, base),
    {
        let bg = self.render_background_index(x);
        let height: i32 = if self.lcdc.obj_size { 16 } else { 8 };
        let ly = self.ly as i32;
        let mut colour = base;
        let mut i: usize = 0;
        while i < SPRITES
            invariant
                self.wf(),
                i <= SPRITES,
                bg == self.bg_index(x),
                height == self.sprite_height(),
                ly == self.ly,
                colour == self.sprites_over(x, i as nat, base),
            decreases SPRITES - i,
        {
            let address = i * 4;
            let y = self.oam[address];
            let sx = self.oam[address + 1];
            let attr = self.oam[address + 3];
            let top = y as i32 - 16;
            let left = sx as i32 - 8;
            let covers = y != 0 && top <= ly && ly < top + height && left <= x as i32 && (x as i32)
                < left + 8;
            if self.lcdc.obj_enable && covers {
                let tile = if self.lcdc.obj_size {
                    self.oam[address + 2] & 0xfe
                } else {
                    self.oam[address + 2]
                };
                let row0 = ly - top;
                let col0 = x as i32 - left;
                let row = if attr & 0x40 != 0 {
                    height - 1 - row0
                } else {
                    row0
                };
                let col = if attr & 0x20 != 0 {
                    7 - col0
                } else {
                    col0
                };
                let index = self.get_tile(tile, col as u8, row as u8, true);
                let behind = attr & 0x80 != 0 && bg != 0;
                if index != 0 && !behind {
                    let palette = if attr & 0x10 != 0 {
                        self.obp1
                    } else {
                        self.obp0
                    };
                    colour = dmg_colour(self.convert_dmg_palette(palette, index));
                }
            }
            i = i + 1;
        }
        colour
    }

    /// Draws line LY into the framebuffer.
    pub fn render_line(&mut self)
        requires
            old(self).wf(),
            old(self).ly < LCD_HEIGHT,
        ensures
            final(self).wf(),
            final(self).framebuffer@ == old(self).rendered(),
            final(self).clock() == old(self).clock(),
            final(self).same_registers(old(self)),
            final(self).stat == old(self).stat,
            final(self).vblank_int == old(self).vblank_int,
            final(self).lcd_stat_int == old(self).lcd_stat_int,
    {
        let ghost start = *self;
        let ly = self.ly as usize;
        let mut x: usize = 0;
        while x < LCD_WIDTH
            invariant
                self.wf(),
                ly == self.ly,
                ly < LCD_HEIGHT,
                x <= LCD_WIDTH,
                self.clock() == start.clock(),
                self.same_registers(&start),
                self.stat == start.stat,
                self.vblank_int == start.vblank_int,
                self.lcd_stat_int == start.lcd_stat_int,
                self.framebuffer@.len() == start.framebuffer@.len(),
                forall|i: int|
                    0 <= i < self.framebuffer@.len() ==> #[trigger] self.framebuffer@[i] == if ly
                        * LCD_WIDTH <= i < ly * LCD_WIDTH + x {
                        start.rendered()[i]
                    } else {
                        start.framebuffer@[i]
                    },
            decreases LCD_WIDTH - x,
        {
            let background = self.render_background_pixel(x as u8);
            let pixel = self.render_sprite_pixel(x as u8, background);
            proof {
                assert(self.spec_pixel(x as u8) == start.spec_pixel(x as u8)) by {
                    assert(self.bg_colour(x as u8) == start.bg_colour(x as u8));
                    lemma_sprites_same(self, &start, x as u8, SPRITES as nat, background);
                }
            }
            self.set_pixel(x, ly, pixel);
            x = x + 1;
        }
        assert(self.framebuffer@ =~= start.rendered());
    }
}

/// Drawing depends only on the registers and memories.
proof fn lemma_sprites_same(a: &Ppu, b: &Ppu, x: u8, n: nat, base: Colour)
    requires
        a.same_registers(b),
        a.ly == b.ly,
    ensures
        a.sprites_over(x, n, base) == b.sprites_over(x, n, base),
    decreases n,
{
    if n > 0 {
        lemma_sprites_same(a, b, x, (n - 1) as nat, base);
    }
}

} // verus!
