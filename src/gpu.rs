use vstd::prelude::*;
use crate::gbmode::GbMode;

verus! {

pub const SCREEN_W: usize = 160;
pub const SCREEN_H: usize = 144;
/// Bytes of the RGB framebuffer.
pub const FRAME_BYTES: usize = 69120;

/// The picture processor: registers, video memory, sprite table and framebuffer.
pub struct GPU {
    pub mode: u8,
    pub modeclock: u32,
    pub line: u8,
    pub lyc: u8,
    pub lcdc: u8,
    pub stat: u8,
    pub scy: u8,
    pub scx: u8,
    pub winy: u8,
    pub winx: u8,
    pub palbr: u8,
    pub pal0r: u8,
    pub pal1r: u8,
    pub vram: Vec<u8>,
    pub vrambank: usize,
    pub voam: Vec<u8>,
    pub data: Vec<u8>,
    pub updated: bool,
    pub interrupt: u8,
    pub hblanking: bool,
    pub gbmode: GbMode,
    pub cbgpal: Vec<u8>,
    pub cbgpal_ind: u8,
    pub csprit: Vec<u8>,
    pub csprit_ind: u8,
}

/// Shade of a classic palette entry as an 8-bit grey level.
pub open spec fn shade(palette: u8, idx: u8) -> u8 {
    let s = (palette >> (idx * 2)) & 3;
    if s == 0 { 255 } else if s == 1 { 192 } else if s == 2 { 96 } else { 0 }
}

/// Colour index (0-3) of one pixel from the two bytes of a tile row.
fn pixel_index(b1: u8, b2: u8, bit: u8) -> (r: u8)
    requires
        bit < 8,
    ensures
        r <= 3,
{
    let r = (((b2 >> bit) & 1) << 1) | ((b1 >> bit) & 1);
    assert((((b2 >> bit) & 1) << 1) | ((b1 >> bit) & 1) <= 3) by (bit_vector);
    r
}

/// Grey level of colour index `idx` through a classic palette.
fn grey_of(palette: u8, idx: u8) -> (r: u8)
    requires
        idx <= 3,
    ensures
        r == shade(palette, idx),
{
    let s = (palette >> (idx * 2)) & 3;
    if s == 0 {
        255
    } else if s == 1 {
        192
    } else if s == 2 {
        96
    } else {
        0
    }
}

/// An 8-bit channel from a 5-bit one.
pub open spec fn widen5(c: u16) -> u8 {
    ((c % 32) * 8 + (c % 32) / 4) as u8
}

/// RGB of colour `idx` of palette `p` in a color palette table: 15-bit little-endian
/// entries, red in the low bits.
fn cgb_rgb(table: &Vec<u8>, p: u8, idx: u8) -> (r: (u8, u8, u8))
    requires
        table@.len() == 64,
        p < 8,
        idx <= 3,
    ensures
        ({
            let c = table@[p * 8 + idx * 2] as u16 + table@[p * 8 + idx * 2 + 1] as u16 * 256;
            r == (widen5(c as u16), widen5((c / 32) as u16), widen5((c / 1024) as u16))
        }),
{
    let i = p as usize * 8 + idx as usize * 2;
    let c: u16 = table[i] as u16 + table[i + 1] as u16 * 256;
    let r = c % 32;
    let g = (c / 32) % 32;
    let b = (c / 1024) % 32;
    ((r * 8 + r / 4) as u8, (g * 8 + g / 4) as u8, (b * 8 + b / 4) as u8)
}

/// `g1` is `g0` after `ticks` dots: with the LCD on, LY and the dot counter move on by
/// exactly `ticks` dots (456 per line, 154 lines per frame), and reaching line 144
/// raises the V-blank interrupt and marks the frame finished.
pub open spec fn gpu_step(g0: GPU, g1: GPU, ticks: u32) -> bool {
    &&& g1.lcdc == g0.lcdc
    &&& keeps_bits(g1.interrupt, g0.interrupt)
    &&& g0.lcdc & 0x80 == 0 ==> g1 == g0
    &&& g0.lcdc & 0x80 != 0 ==> {
        &&& g1.modeclock == (g0.modeclock + ticks) % 456
        &&& g1.line == (g0.line + (g0.modeclock + ticks) / 456) % 154
        &&& g0.line < 144 && g0.line + (g0.modeclock + ticks) / 456 >= 144 ==> g1.interrupt & 0x01 == 0x01 && g1.updated
        &&& ticks > 0 ==> g1.mode == mode_for(g1.line, g1.modeclock)
    }
}

/// Mode for a line and dot counter: V-blank (1) from line 144, else OAM search (2) up to
/// dot 80, pixel transfer (3) up to dot 252, then H-blank (0).
pub open spec fn mode_for(line: u8, dots: u32) -> u8 {
    if line >= 144 {
        1
    } else if dots <= 80 {
        2
    } else if dots <= 252 {
        3
    } else {
        0
    }
}

/// Every bit set in `old` is still set in `new`.
pub open spec fn keeps_bits(new: u8, old: u8) -> bool {
    new & old == old
}

proof fn lemma_keeps_trans(a: u8, b: u8, c: u8)
    requires
        keeps_bits(a, b),
        keeps_bits(b, c),
    ensures
        keeps_bits(a, c),
{
    assert(a & b == b && b & c == c ==> a & c == c) by (bit_vector);
}

proof fn lemma_keeps_bit0(a: u8, b: u8)
    requires
        keeps_bits(a, b),
        b & 0x01 == 0x01,
    ensures
        a & 0x01 == 0x01,
{
    assert(a & b == b && b & 0x01 == 0x01 ==> a & 0x01 == 0x01) by (bit_vector);
}

proof fn lemma_keeps_refl(i: u8)
    ensures
        keeps_bits(i, i),
{
    assert(i & i == i) by (bit_vector);
}

impl GPU {
    pub open spec fn wf(&self) -> bool {
        &&& self.vram@.len() == 0x4000
        &&& self.vrambank <= 1
        &&& self.voam@.len() == 0xA0
        &&& self.data@.len() == FRAME_BYTES
        &&& self.cbgpal@.len() == 64
        &&& self.csprit@.len() == 64
        &&& self.modeclock < 456
        &&& self.line < 154
        &&& self.mode <= 3
        &&& self.line < 144 <==> self.mode != 1
    }

    /// Well-formed apart from the tie between LY and the V-blank mode.
    pub open spec fn wf_core(&self) -> bool {
        &&& self.vram@.len() == 0x4000
        &&& self.vrambank <= 1
        &&& self.voam@.len() == 0xA0
        &&& self.data@.len() == FRAME_BYTES
        &&& self.cbgpal@.len() == 64
        &&& self.csprit@.len() == 64
        &&& self.modeclock < 456
        &&& self.line < 154
        &&& self.mode <= 3
    }

    pub open spec fn lcd_on(&self) -> bool {
        self.lcdc & 0x80 != 0
    }

    pub fn new(gbmode: GbMode) -> (r: GPU)
        ensures
            r.wf(),
            r.line == 0,
            r.modeclock == 0,
            r.mode == 0,
            r.interrupt == 0,
            !r.updated,
            r.lcdc == 0,
            r.gbmode == gbmode,
    {
        GPU {
            mode: 0,
            modeclock: 0,
            line: 0,
            lyc: 0,
            lcdc: 0,
            stat: 0,
            scy: 0,
            scx: 0,
            winy: 0,
            winx: 0,
            palbr: 0,
            pal0r: 0,
            pal1r: 1,
            vram: vec![0u8; 0x4000],
            vrambank: 0,
            voam: vec![0u8; 0xA0],
            data: vec![255u8; FRAME_BYTES],
            updated: false,
            interrupt: 0,
            hblanking: false,
            gbmode,
            cbgpal: vec![0u8; 64],
            cbgpal_ind: 0,
            csprit: vec![0u8; 64],
            csprit_ind: 0,
        }
    }

    /// Enters a mode, raising V-blank for mode 1 and LCD-STAT when its source is enabled.
    fn change_mode(&mut self, mode: u8)
        requires
            old(self).wf_core(),
            mode <= 3,
            old(self).line < 144 <==> mode != 1,
        ensures
            final(self).wf(),
            final(self).mode == mode,
            final(self).line == old(self).line,
            final(self).modeclock == old(self).modeclock,
            final(self).lcdc == old(self).lcdc,
            mode == 1 ==> final(self).interrupt & 0x01 == 0x01 && final(self).updated,
            keeps_bits(final(self).interrupt, old(self).interrupt),
            old(self).updated ==> final(self).updated,
    {
        proof {
            lemma_keeps_refl(self.interrupt);
        }
        self.mode = mode;
        let stat_source = if mode == 0 {
            self.renderscan();
            self.hblanking = true;
            self.stat & 0x08 != 0
        } else if mode == 1 {
            self.updated = true;
            self.stat & 0x10 != 0
        } else if mode == 2 {
            self.stat & 0x20 != 0
        } else {
            false
        };
        let add: u8 = (if mode == 1 { 0x01u8 } else { 0u8 }) | (if stat_source { 0x02u8 } else { 0u8 });
        let i = self.interrupt;
        assert((i | add) & i == i) by (bit_vector);
        assert(mode == 1 ==> (i | ((if mode == 1 { 0x01u8 } else { 0u8 }) | (if stat_source { 0x02u8 } else { 0u8 }))) & 0x01 == 0x01) by (bit_vector);
        self.interrupt = i | add;
    }

    /// Raises LCD-STAT when LY meets LYC and that source is enabled.
    fn check_interrupt_lyc(&mut self)
        requires
            old(self).wf_core(),
        ensures
            final(self).wf_core(),
            *final(self) == (GPU { interrupt: final(self).interrupt, ..*old(self) }),
            keeps_bits(final(self).interrupt, old(self).interrupt),
            final(self).interrupt & 0x01 == old(self).interrupt & 0x01,
    {
        proof {
            lemma_keeps_refl(self.interrupt);
        }
        if self.stat & 0x40 != 0 && self.line == self.lyc {
            let i = self.interrupt;
            assert((i | 0x02) & i == i && (i | 0x02) & 0x01 == i & 0x01) by (bit_vector);
            self.interrupt = self.interrupt | 0x02;
        }
    }

    /// Advances the mode machine by `ticks` dots. With the LCD on, LY and the dot
    /// counter move on by exactly `ticks` dots (456 per line, 154 lines per frame).
    pub fn do_cycle(&mut self, ticks: u32)
        requires
            old(self).wf(),
        ensures
            final(self).wf(),
            final(self).lcdc == old(self).lcdc,
            keeps_bits(final(self).interrupt, old(self).interrupt),
            !old(self).lcd_on() ==> *final(self) == *old(self),
            gpu_step(*old(self), *final(self), ticks),
    {
        proof {
            lemma_keeps_refl(self.interrupt);
        }
        if self.lcdc & 0x80 == 0 {
            return;
        }
        let ghost mc0 = self.modeclock as int;
        let ghost l0 = self.line as int;
        let mut left = ticks;
        while left > 0
            invariant
                self.wf(),
                left <= ticks,
                self.lcdc == old(self).lcdc,
                keeps_bits(self.interrupt, old(self).interrupt),
                self.modeclock == (mc0 + (ticks - left)) % 456,
                self.line == (l0 + (mc0 + (ticks - left)) / 456) % 154,
                l0 == old(self).line && mc0 == old(self).modeclock,
                left < ticks ==> self.mode == mode_for(self.line, self.modeclock),
                l0 < 144 && l0 + (mc0 + (ticks - left)) / 456 >= 144 ==> self.interrupt & 0x01 == 0x01 && self.updated,
            decreases left,
        {
            let cur: u32 = if left >= 80 { 80 } else { left };
            let ghost t = mc0 + (ticks - left);
            let ghost i_before = self.interrupt;
            proof {
                lemma_keeps_refl(i_before);
            }
            left = left - cur;
            if self.modeclock + cur >= 456 {
                proof {
                    assert(t % 456 + cur >= 456);
                    assert((t + cur) / 456 == t / 456 + 1 && (t + cur) % 456 == t % 456 + cur - 456) by {
                        vstd::arithmetic::div_mod::lemma_fundamental_div_mod(t, 456);
                        vstd::arithmetic::div_mod::lemma_fundamental_div_mod(t + cur, 456);
                    }
                    assert(((l0 + t / 456) % 154 + 1) % 154 == (l0 + t / 456 + 1) % 154) by {
                        vstd::arithmetic::div_mod::lemma_add_mod_noop(l0 + t / 456, 1, 154);
                        vstd::arithmetic::div_mod::lemma_mod_twice(1, 154);
                        vstd::arithmetic::div_mod::lemma_mod_twice(l0 + t / 456, 154);
                    }
                }
                let ghost before_line = self.line;
                let ghost before_mode = self.mode;
                self.modeclock = self.modeclock + cur - 456;
                self.line = (self.line + 1) % 154;
                let ghost g = self.interrupt;
                self.check_interrupt_lyc();
                proof {
                    lemma_keeps_trans(self.interrupt, g, i_before);
                }
                if self.line >= 144 && self.mode != 1 {
                    let ghost g2 = self.interrupt;
                    self.change_mode(1);
                    proof {
                        lemma_keeps_trans(self.interrupt, g2, i_before);
                    }
                }
                proof {
                    if before_line == 143 {
                        assert(before_mode != 1);
                        assert(self.interrupt & 0x01 == 0x01 && self.updated);
                    }
                }
            } else {
                proof {
                    assert((t + cur) / 456 == t / 456 && (t + cur) % 456 == t % 456 + cur) by {
                        vstd::arithmetic::div_mod::lemma_fundamental_div_mod(t, 456);
                        vstd::arithmetic::div_mod::lemma_fundamental_div_mod(t + cur, 456);
                    }
                }
                self.modeclock = self.modeclock + cur;
            }
            let ghost g3 = self.interrupt;
            proof {
                lemma_keeps_refl(g3);
                if l0 < 144 && l0 + t / 456 >= 144 {
                    lemma_keeps_bit0(g3, i_before);
                }
            }
            if self.line < 144 {
                if self.modeclock <= 80 {
                    if self.mode != 2 {
                        self.change_mode(2);
                    }
                } else if self.modeclock <= 80 + 172 {
                    if self.mode != 3 {
                        self.change_mode(3);
                    }
                } else if self.mode != 0 {
                    self.change_mode(0);
                }
            }
            assert(keeps_bits(self.interrupt, g3));
            proof {
                if l0 < 144 && l0 + (mc0 + (ticks - left)) / 456 >= 144 {
                    assert(g3 & 0x01 == 0x01);
                    lemma_keeps_bit0(self.interrupt, g3);
                }
            }
            proof {
                lemma_keeps_trans(self.interrupt, g3, i_before);
            }
            assert(keeps_bits(self.interrupt, old(self).interrupt)) by {
                let a = self.interrupt;
                let b = i_before;
                let c = old(self).interrupt;
                assert(a & b == b && b & c == c ==> a & c == c) by (bit_vector);
            }
        }
    }

    /// Draws the current line: background, then the window where it is enabled.
    fn renderscan(&mut self)
        requires
            old(self).wf(),
            old(self).line < 144,
        ensures
            final(self).wf(),
            *final(self) == (GPU { data: final(self).data, ..*old(self) }),
    {
        let line = self.line as usize;
        let bg_on = self.lcdc & 0x01 != 0;
        let win_on = self.lcdc & 0x20 != 0 && self.line >= self.winy;
        let mut bgline: Vec<u8> = Vec::new();
        let mut x: usize = 0;
        while x < SCREEN_W
            invariant
                self.wf(),
                line < 144,
                line == self.line,
                x <= SCREEN_W,
                bgline@.len() == x,
                win_on ==> self.line >= self.winy,
                *self == (GPU { data: self.data, ..*old(self) }),
            decreases SCREEN_W - x,
        {
            let use_win = win_on && x + 7 >= self.winx as usize;
            let (map_base, px, py): (usize, u8, u8) = if use_win {
                let wx = (x + 7 - self.winx as usize) as u8;
                let wy = self.line - self.winy;
                (if self.lcdc & 0x40 != 0 { 0x1C00usize } else { 0x1800usize }, wx, wy)
            } else {
                (
                    if self.lcdc & 0x08 != 0 { 0x1C00usize } else { 0x1800usize },
                    self.scx.wrapping_add(x as u8),
                    self.scy.wrapping_add(self.line),
                )
            };
            let color = self.gbmode == GbMode::Color;
            let (idx, attr) = if bg_on || use_win || color {
                let map_addr = map_base + (py / 8) as usize * 32 + (px / 8) as usize;
                let tile = self.vram[map_addr];
                let attr: u8 = if color { self.vram[0x2000 + map_addr] } else { 0 };
                let tile_addr: usize = if self.lcdc & 0x10 != 0 {
                    tile as usize * 16
                } else {
                    0x800 + ((tile as usize + 128) % 256) * 16
                };
                let bank: usize = if attr & 0x08 != 0 { 0x2000 } else { 0 };
                let trow = if attr & 0x40 != 0 { 7 - (py % 8) } else { py % 8 };
                let tcol = if attr & 0x20 != 0 { px % 8 } else { 7 - (px % 8) };
                let row = bank + tile_addr + trow as usize * 2;
                let b1 = self.vram[row];
                let b2 = self.vram[row + 1];
                (pixel_index(b1, b2, tcol), attr)
            } else {
                (0u8, 0u8)
            };
            // Bit 7 of a color tile's attributes puts it in front of every sprite.
            bgline.push(if attr & 0x80 != 0 && idx != 0 { 4 } else { idx });
            let (r, g, b) = if color {
                cgb_rgb(&self.cbgpal, attr % 8, idx)
            } else {
                let grey = grey_of(self.palbr, idx);
                (grey, grey, grey)
            };
            assert((line * 160 + x) * 3 + 2 < FRAME_BYTES) by (nonlinear_arith)
                requires
                    line < 144,
                    x < 160,
            ;
            let off = (line * 160 + x) * 3;
            self.data.set(off, r);
            self.data.set(off + 1, g);
            self.data.set(off + 2, b);
            x = x + 1;
        }
        if self.lcdc & 0x02 != 0 {
            self.render_sprites(&bgline);
        }
    }

    /// Indices of the first ten sprites (in OAM order) that cover the current line.
    fn sprites_on_line(&self, height: u16) -> (r: Vec<usize>)
        requires
            self.wf(),
            height <= 16,
        ensures
            r@.len() <= 10,
            forall|k: int| 0 <= k < r@.len() ==> r@[k] < 40,
    {
        let mut out: Vec<usize> = Vec::new();
        let mut i: usize = 0;
        let ly = self.line as u16 + 16;
        while i < 40 && out.len() < 10
            invariant
                self.wf(),
                i <= 40,
                height <= 16,
                out@.len() <= 10,
                forall|k: int| 0 <= k < out@.len() ==> out@[k] < 40,
            decreases 40 - i,
        {
            let y = self.voam[i * 4] as u16;
            if y <= ly && ly < y + height {
                out.push(i);
            }
            i = i + 1;
        }
        out
    }

    /// Draws the sprites of the current line over the background colour indices `bg`.
    /// A lower X wins on the classic console, the lower OAM index on the color one; a
    /// sprite with its priority bit set stays behind background colours 1-3.
    fn render_sprites(&mut self, bg: &Vec<u8>)
        requires
            old(self).wf(),
            old(self).line < 144,
            bg@.len() == SCREEN_W,
        ensures
            final(self).wf(),
            *final(self) == (GPU { data: final(self).data, ..*old(self) }),
    {
        let height: u16 = if self.lcdc & 0x04 != 0 { 16 } else { 8 };
        let chosen = self.sprites_on_line(height);
        let line = self.line as usize;
        let ly = self.line as u16 + 16;
        let color = self.gbmode == GbMode::Color;
        let mut x: usize = 0;
        while x < SCREEN_W
            invariant
                self.wf(),
                line < 144,
                line == self.line,
                ly == self.line as u16 + 16,
                x <= SCREEN_W,
                bg@.len() == SCREEN_W,
                chosen@.len() <= 10,
                forall|k: int| 0 <= k < chosen@.len() ==> chosen@[k] < 40,
                height == 8 || height == 16,
                *self == (GPU { data: self.data, ..*old(self) }),
            decreases SCREEN_W - x,
        {
            let mut found = false;
            let mut best_x: u16 = 0;
            let mut best_idx: u8 = 0;
            let mut best_attr: u8 = 0;
            let mut k: usize = 0;
            while k < chosen.len()
                invariant
                    self.wf(),
                    k <= chosen@.len(),
                    x < SCREEN_W,
                    line == self.line,
                    ly == self.line as u16 + 16,
                    forall|j: int| 0 <= j < chosen@.len() ==> chosen@[j] < 40,
                    height == 8 || height == 16,
                    found ==> best_idx <= 3,
                decreases chosen@.len() - k,
            {
                let s = chosen[k];
                let sy = self.voam[s * 4] as u16;
                let sx = self.voam[s * 4 + 1] as u16;
                let px = x as u16 + 8;
                if sx <= px && px < sx + 8 && sy <= ly && ly < sy + height && !(found && (color || best_x <= sx)) {
                    let attr = self.voam[s * 4 + 3];
                    let tile = if height == 16 { self.voam[s * 4 + 2] & 0xFE } else { self.voam[s * 4 + 2] };
                    let row0 = ly - sy;
                    let row = if attr & 0x40 != 0 { height - 1 - row0 } else { row0 };
                    let col0 = px - sx;
                    let col = if attr & 0x20 != 0 { 7 - col0 } else { col0 };
                    let bank: usize = if color && attr & 0x08 != 0 { 0x2000 } else { 0 };
                    let addr = bank + tile as usize * 16 + row as usize * 2;
                    let idx = pixel_index(self.vram[addr], self.vram[addr + 1], (7 - col) as u8);
                    if idx != 0 {
                        found = true;
                        best_x = sx;
                        best_idx = idx;
                        best_attr = attr;
                    }
                }
                k = k + 1;
            }
            if found && bg[x] != 4 && !(best_attr & 0x80 != 0 && bg[x] != 0) {
                let (r, g, b) = if color {
                    cgb_rgb(&self.csprit, best_attr % 8, best_idx)
                } else {
                    let pal = if best_attr & 0x10 != 0 { self.pal1r } else { self.pal0r };
                    let grey = grey_of(pal, best_idx);
                    (grey, grey, grey)
                };
                assert((line * 160 + x) * 3 + 2 < FRAME_BYTES) by (nonlinear_arith)
                    requires
                        line < 144,
                        x < 160,
                ;
                let off = (line * 160 + x) * 3;
                self.data.set(off, r);
                self.data.set(off + 1, g);
                self.data.set(off + 2, b);
            }
            x = x + 1;
        }
    }
}


impl GPU {
    pub open spec fn vram_index(&self, a: u16) -> int {
        self.vrambank * 0x2000 + (a as int - 0x8000)
    }

    /// What a bus read at `a` returns.
    pub open spec fn spec_rb(&self, a: u16) -> u8 {
        if 0x8000 <= a < 0xA000 {
            self.vram@[self.vram_index(a)]
        } else if 0xFE00 <= a < 0xFEA0 {
            self.voam@[a as int - 0xFE00]
        } else if a == 0xFF40 {
            self.lcdc
        } else if a == 0xFF41 {
            0x80u8 | (self.stat & 0x78) | (if self.line == self.lyc { 0x04u8 } else { 0u8 }) | self.mode
        } else if a == 0xFF42 {
            self.scy
        } else if a == 0xFF43 {
            self.scx
        } else if a == 0xFF44 {
            self.line
        } else if a == 0xFF45 {
            self.lyc
        } else if a == 0xFF47 {
            self.palbr
        } else if a == 0xFF48 {
            self.pal0r
        } else if a == 0xFF49 {
            self.pal1r
        } else if a == 0xFF4A {
            self.winy
        } else if a == 0xFF4B {
            self.winx
        } else if a == 0xFF4F {
            self.vrambank as u8 | 0xFE
        } else if a == 0xFF68 {
            self.cbgpal_ind
        } else if a == 0xFF69 {
            self.cbgpal@[(self.cbgpal_ind % 64) as int]
        } else if a == 0xFF6A {
            self.csprit_ind
        } else if a == 0xFF6B {
            self.csprit@[(self.csprit_ind % 64) as int]
        } else {
            0xFF
        }
    }

    /// Reads VRAM, OAM or an LCD register.
    pub fn rb(&self, a: u16) -> (r: u8)
        requires
            self.wf(),
        ensures
            r == self.spec_rb(a),
            0x8000 <= a < 0xA000 ==> r == self.vram@[self.vram_index(a)],
            0xFE00 <= a < 0xFEA0 ==> r == self.voam@[a as int - 0xFE00],
            a == 0xFF44 ==> r == self.line,
            a == 0xFF40 ==> r == self.lcdc,
    {
        if 0x8000 <= a && a < 0xA000 {
            self.vram[self.vrambank * 0x2000 + (a as usize - 0x8000)]
        } else if 0xFE00 <= a && a < 0xFEA0 {
            self.voam[a as usize - 0xFE00]
        } else if a == 0xFF40 {
            self.lcdc
        } else if a == 0xFF41 {
            0x80u8 | (self.stat & 0x78) | (if self.line == self.lyc { 0x04u8 } else { 0u8 }) | self.mode
        } else if a == 0xFF42 {
            self.scy
        } else if a == 0xFF43 {
            self.scx
        } else if a == 0xFF44 {
            self.line
        } else if a == 0xFF45 {
            self.lyc
        } else if a == 0xFF47 {
            self.palbr
        } else if a == 0xFF48 {
            self.pal0r
        } else if a == 0xFF49 {
            self.pal1r
        } else if a == 0xFF4A {
            self.winy
        } else if a == 0xFF4B {
            self.winx
        } else if a == 0xFF4F {
            self.vrambank as u8 | 0xFE
        } else if a == 0xFF68 {
            self.cbgpal_ind
        } else if a == 0xFF69 {
            self.cbgpal[(self.cbgpal_ind % 64) as usize]
        } else if a == 0xFF6A {
            self.csprit_ind
        } else if a == 0xFF6B {
            self.csprit[(self.csprit_ind % 64) as usize]
        } else {
            0xFF
        }
    }

    /// Next palette index: bit 7 asks for auto-increment within the 64 entries.
    fn next_pal_index(ind: u8) -> (r: u8) {
        if ind >= 0x80 { 0x80 | (((ind % 64) + 1) % 64) } else { ind }
    }

    /// Writes VRAM, OAM or an LCD register. Switching the LCD off resets LY, the dot
    /// counter and the mode.
    pub fn wb(&mut self, a: u16, v: u8)
        requires
            old(self).wf(),
        ensures
            final(self).wf(),
            final(self).interrupt == old(self).interrupt,
            final(self).updated == old(self).updated,
            0x8000 <= a < 0xA000 ==> final(self).vram@ == old(self).vram@.update(old(self).vram_index(a), v),
            0xFE00 <= a < 0xFEA0 ==> final(self).voam@ == old(self).voam@.update(a as int - 0xFE00, v),
            a == 0xFF40 ==> final(self).lcdc == v,
            a != 0xFF40 ==> final(self).lcdc == old(self).lcdc,
            a != 0xFF40 ==> final(self).line == old(self).line && final(self).modeclock == old(self).modeclock,
    {
        if 0x8000 <= a && a < 0xA000 {
            let i = self.vrambank * 0x2000 + (a as usize - 0x8000);
            self.vram.set(i, v);
        } else if 0xFE00 <= a && a < 0xFEA0 {
            self.voam.set(a as usize - 0xFE00, v);
        } else if a == 0xFF40 {
            let was_on = self.lcdc & 0x80 != 0;
            self.lcdc = v;
            if was_on && v & 0x80 == 0 {
                self.modeclock = 0;
                self.line = 0;
                self.mode = 0;
            }
        } else if a == 0xFF41 {
            self.stat = v & 0x78;
        } else if a == 0xFF42 {
            self.scy = v;
        } else if a == 0xFF43 {
            self.scx = v;
        } else if a == 0xFF45 {
            self.lyc = v;
        } else if a == 0xFF47 {
            self.palbr = v;
        } else if a == 0xFF48 {
            self.pal0r = v;
        } else if a == 0xFF49 {
            self.pal1r = v;
        } else if a == 0xFF4A {
            self.winy = v;
        } else if a == 0xFF4B {
            self.winx = v;
        } else if a == 0xFF4F {
            if self.gbmode == GbMode::Color {
                self.vrambank = (v % 2) as usize;
            }
        } else if a == 0xFF68 {
            self.cbgpal_ind = v;
        } else if a == 0xFF69 {
            self.cbgpal.set((self.cbgpal_ind % 64) as usize, v);
            self.cbgpal_ind = GPU::next_pal_index(self.cbgpal_ind);
        } else if a == 0xFF6A {
            self.csprit_ind = v;
        } else if a == 0xFF6B {
            self.csprit.set((self.csprit_ind % 64) as usize, v);
            self.csprit_ind = GPU::next_pal_index(self.csprit_ind);
        }
    }
}

} // verus!
