use vstd::prelude::*;
use crate::gbmode::{GbMode, GbSpeed};
use crate::gpu::GPU;
use crate::keypad::Keypad;
use crate::mbc::{Cartridge, StrResult};
use crate::sound::Sound;
use crate::timer::{timer_next, Timer};
use crate::gpu::gpu_step;

verus! {

/// Mode of the color console's VRAM block copy.
#[derive(PartialEq, Eq, Structural, Copy, Clone, Debug)]
pub enum DMAType {
    NoDMA,
    GDMA,
    HDMA,
}

/// Addresses backed by plain work RAM or high RAM: what is written there reads back.
pub open spec fn plain(a: u16) -> bool {
    (0xC000 <= a && a <= 0xFDFF) || (0xFF80 <= a && a <= 0xFFFE)
}

/// `m1` is `m0` after a peripheral tick in which they saw `r` clocks: the timer and the
/// picture processor stepped by `r` (from the state a running VRAM transfer left), and
/// IF is the old IF with the bits they and the keypad raised.
pub open spec fn mmu_step(m0: MMU, m1: MMU, r: u32) -> bool {
    let t1 = timer_next(m0.timer, r);
    &&& m1.timer == (Timer { interrupt: 0, ..t1 })
    &&& m1.keypad == (Keypad { interrupt: 0, ..m0.keypad })
    &&& exists|g0: GPU, g1: GPU|
        #![trigger gpu_step(g0, g1, r)]
        {
            &&& gpu_step(g0, g1, r)
            &&& g0.interrupt == m0.gpu.interrupt
            &&& m0.hdma_status == DMAType::NoDMA ==> g0 == m0.gpu
            &&& m1.gpu == (GPU { interrupt: 0, ..g1 })
            &&& m1.intf == (m0.intf | (t1.interrupt | m0.keypad.interrupt | g1.interrupt)) & 0x1F
        }
    &&& m1.mbc == m0.mbc
    &&& m1.ram() == m0.ram()
    &&& m1.inte == m0.inte
    &&& m1.gbspeed == m0.gbspeed
    &&& m1.gbmode == m0.gbmode
    &&& m1.wrambank == m0.wrambank
}

/// Little-endian word at `a` as the bus reads it.
pub open spec fn word(m: MMU, a: u16) -> u16 {
    (m.spec_rb(a) as int + m.spec_rb(((a as int + 1) % 65536) as u16) as int * 256) as u16
}

/// The memory bus and everything behind it.
pub struct MMU {
    pub wram: Vec<u8>,
    pub zram: Vec<u8>,
    pub hdma: Vec<u8>,
    pub inte: u8,
    pub intf: u8,
    pub serial_data: u8,
    pub serial_ctrl: u8,
    pub timer: Timer,
    pub keypad: Keypad,
    pub gpu: GPU,
    pub sound: Sound,
    pub mbc: Cartridge,
    pub gbmode: GbMode,
    pub gbspeed: GbSpeed,
    pub speed_switch_req: bool,
    pub wrambank: usize,
    pub hdma_src: u16,
    pub hdma_dst: u16,
    pub hdma_status: DMAType,
    pub hdma_len: u8,
}

impl MMU {
    pub open spec fn wf(&self) -> bool {
        &&& self.wram@.len() == 0x8000
        &&& self.zram@.len() == 0x7F
        &&& self.hdma@.len() == 4
        &&& self.sound.wf()
        &&& 1 <= self.wrambank <= 7
        &&& self.timer.wf()
        &&& self.gpu.wf()
        &&& self.mbc.wf()
    }

    /// Work RAM followed by high RAM, as one sequence.
    pub open spec fn ram(&self) -> Seq<u8> {
        self.wram@ + self.zram@
    }

    /// Where a plain address lives in `ram()`; 0xE000-0xFDFF echo 0xC000-0xDDFF.
    pub open spec fn slot(&self, a: u16) -> int {
        if a >= 0xFF80 {
            0x8000 + (a as int - 0xFF80)
        } else {
            let o = if a >= 0xE000 { a as int - 0x2000 } else { a as int };
            if o < 0xD000 { o - 0xC000 } else { self.wrambank * 0x1000 + (o - 0xD000) }
        }
    }

    pub open spec fn peek(&self, a: u16) -> u8 {
        self.ram()[self.slot(a)]
    }

    /// Pending interrupts: requested and enabled.
    pub open spec fn pending(&self) -> u8 {
        self.inte & self.intf & 0x1F
    }

    pub fn new(cart: Cartridge) -> (r: StrResult<MMU>)
        requires
            cart.wf(),
        ensures
            r matches Ok(m) ==> m.wf() && m.gbmode == GbMode::Classic && m.inte == 0 && m.gbspeed == GbSpeed::Single && m.mbc == cart,
            r.is_ok(),
    {
        MMU::with_mode(cart, GbMode::Classic)
    }

    /// Color console; a cartridge without the color flag (bit 7 of 0x143) runs as classic.
    pub fn new_cgb(cart: Cartridge) -> (r: StrResult<MMU>)
        requires
            cart.wf(),
        ensures
            r matches Ok(m) ==> m.wf() && m.mbc == cart && m.inte == 0 && m.gbspeed == GbSpeed::Single && m.gbmode == (if cart.spec_rom()[0x143]
                & 0x80 != 0 { GbMode::Color } else { GbMode::ColorAsClassic }),
            r.is_ok(),
    {
        let flag = cart.readrom(0x143);
        let mode = if flag & 0x80 != 0 { GbMode::Color } else { GbMode::ColorAsClassic };
        MMU::with_mode(cart, mode)
    }

    fn with_mode(cart: Cartridge, mode: GbMode) -> (r: StrResult<MMU>)
        requires
            cart.wf(),
        ensures
            r matches Ok(m) ==> m.wf() && m.gbmode == mode && m.inte == 0 && m.gbspeed == GbSpeed::Single && m.mbc == cart,
            r.is_ok(),
    {
        let mut m = MMU {
            wram: vec![0u8; 0x8000],
            zram: vec![0u8; 0x7F],
            hdma: vec![0u8; 4],
            inte: 0,
            intf: 0,
            serial_data: 0,
            serial_ctrl: 0,
            timer: Timer::new(),
            keypad: Keypad::new(),
            gpu: GPU::new(mode),
            sound: Sound::new(),
            mbc: cart,
            gbmode: mode,
            gbspeed: GbSpeed::Single,
            speed_switch_req: false,
            wrambank: 1,
            hdma_src: 0,
            hdma_dst: 0,
            hdma_status: DMAType::NoDMA,
            hdma_len: 0xFF,
        };
        m.gpu.lcdc = 0x91;
        m.gpu.palbr = 0xFC;
        m.gpu.pal0r = 0xFF;
        m.gpu.pal1r = 0xFF;
        Ok(m)
    }

    /// What the HDMA registers read back as.
    pub open spec fn spec_hdma_read(&self, a: u16) -> u8 {
        if a < 0xFF55 {
            self.hdma@[a - 0xFF51]
        } else {
            ((self.hdma_len as int + 255) % 256) as u8 | (if self.hdma_status == DMAType::NoDMA { 0x80u8 } else { 0u8 })
        }
    }

    /// What a bus read at `a` returns, region by region.
    pub open spec fn spec_rb(&self, a: u16) -> u8 {
        if a < 0x8000 {
            self.mbc.spec_read_rom(a)
        } else if a < 0xA000 {
            self.gpu.spec_rb(a)
        } else if a < 0xC000 {
            self.mbc.spec_read_ram(a)
        } else if a < 0xFE00 {
            self.peek(a)
        } else if a < 0xFEA0 {
            self.gpu.spec_rb(a)
        } else if a < 0xFF00 {
            0
        } else if a == 0xFF00 {
            self.keypad.data
        } else if a == 0xFF01 {
            self.serial_data
        } else if a == 0xFF02 {
            self.serial_ctrl
        } else if 0xFF04 <= a <= 0xFF07 {
            self.timer.spec_rb(a)
        } else if a == 0xFF0F {
            self.intf | 0xE0
        } else if 0xFF10 <= a < 0xFF40 {
            self.sound.spec_rb(a)
        } else if a == 0xFF4D {
            (if self.gbspeed == GbSpeed::Double { 0x80u8 } else { 0u8 }) | (if self.speed_switch_req { 0x01u8 } else { 0u8 })
        } else if (0xFF40 <= a <= 0xFF4F) || (0xFF68 <= a <= 0xFF6B) {
            self.gpu.spec_rb(a)
        } else if 0xFF51 <= a <= 0xFF55 {
            self.spec_hdma_read(a)
        } else if a == 0xFF70 {
            self.wrambank as u8
        } else if 0xFF80 <= a < 0xFFFF {
            self.peek(a)
        } else if a == 0xFFFF {
            self.inte
        } else {
            0xFF
        }
    }

    /// Reads one byte from the bus.
    pub fn rb(&self, a: u16) -> (r: u8)
        requires
            self.wf(),
        ensures
            r == self.spec_rb(a),
            plain(a) ==> r == self.peek(a),
            a < 0x8000 ==> r == self.mbc.spec_read_rom(a),
            0xA000 <= a < 0xC000 ==> r == self.mbc.spec_read_ram(a),
            a == 0xFF0F ==> r == self.intf | 0xE0,
            a == 0xFFFF ==> r == self.inte,
            0xFEA0 <= a < 0xFF00 ==> r == 0,
            0x8000 <= a < 0xA000 ==> r == self.gpu.vram@[self.gpu.vram_index(a)],
            0xFE00 <= a < 0xFEA0 ==> r == self.gpu.voam@[a as int - 0xFE00],
            a == 0xFF00 ==> r == self.keypad.data,
            0xFF04 <= a <= 0xFF07 ==> r == self.timer.spec_rb(a),
            a == 0xFF44 ==> r == self.gpu.line,
            a == 0xFF4D ==> r == (if self.gbspeed == GbSpeed::Double { 0x80u8 } else { 0u8 }) | (if self.speed_switch_req {
                0x01u8
            } else {
                0u8
            }),
            a == 0xFF70 ==> r == self.wrambank as u8,
    {
        if a < 0x8000 {
            self.mbc.readrom(a)
        } else if a < 0xA000 {
            self.gpu.rb(a)
        } else if a < 0xC000 {
            self.mbc.readram(a)
        } else if a < 0xD000 {
            self.wram[a as usize - 0xC000]
        } else if a < 0xE000 {
            self.wram[self.wrambank * 0x1000 + (a as usize - 0xD000)]
        } else if a < 0xF000 {
            self.wram[a as usize - 0xE000]
        } else if a < 0xFE00 {
            self.wram[self.wrambank * 0x1000 + (a as usize - 0xF000)]
        } else if a < 0xFEA0 {
            self.gpu.rb(a)
        } else if a < 0xFF00 {
            0
        } else if a == 0xFF00 {
            self.keypad.rb()
        } else if a == 0xFF01 {
            self.serial_data
        } else if a == 0xFF02 {
            self.serial_ctrl
        } else if 0xFF04 <= a && a <= 0xFF07 {
            self.timer.rb(a)
        } else if a == 0xFF0F {
            self.intf | 0xE0
        } else if 0xFF10 <= a && a < 0xFF40 {
            self.sound.rb(a)
        } else if a == 0xFF4D {
            (if self.gbspeed == GbSpeed::Double { 0x80u8 } else { 0u8 }) | (if self.speed_switch_req { 0x01u8 } else { 0u8 })
        } else if (0xFF40 <= a && a <= 0xFF4F) || (0xFF68 <= a && a <= 0xFF6B) {
            self.gpu.rb(a)
        } else if 0xFF51 <= a && a <= 0xFF55 {
            self.hdma_read(a)
        } else if a == 0xFF70 {
            self.wrambank as u8
        } else if 0xFF80 <= a && a < 0xFFFF {
            self.zram[a as usize - 0xFF80]
        } else if a == 0xFFFF {
            self.inte
        } else {
            0xFF
        }
    }

    /// Reads a little-endian word.
    pub fn rw(&self, a: u16) -> (r: u16)
        requires
            self.wf(),
        ensures
            plain(a) && plain(a.wrapping_add(1)) ==> r == self.peek(a) as u16 + self.peek(a.wrapping_add(1)) as u16 * 256,
            r == word(*self, a),
    {
        let lo = self.rb(a);
        let hi = self.rb(a.wrapping_add(1));
        lo as u16 + hi as u16 * 256
    }

    fn hdma_read(&self, a: u16) -> (r: u8)
        requires
            self.wf(),
            0xFF51 <= a <= 0xFF55,
        ensures
            r == self.spec_hdma_read(a),
    {
        if a < 0xFF55 {
            self.hdma[a as usize - 0xFF51]
        } else {
            (self.hdma_len.wrapping_sub(1)) | (if self.hdma_status == DMAType::NoDMA { 0x80u8 } else { 0u8 })
        }
    }

    /// Writes one byte to the bus. Writes below 0x8000 go to the bank controller.
    pub fn wb(&mut self, a: u16, v: u8)
        requires
            old(self).wf(),
        ensures
            final(self).wf(),
            final(self).mbc.spec_rom() == old(self).mbc.spec_rom(),
            final(self).gbmode == old(self).gbmode,
            plain(a) ==> final(self).ram() == old(self).ram().update(old(self).slot(a), v),
            plain(a) ==> *final(self) == (MMU { wram: final(self).wram, zram: final(self).zram, ..*old(self) }),
            !plain(a) ==> final(self).wram == old(self).wram && final(self).zram == old(self).zram,
            a != 0xFF70 ==> final(self).wrambank == old(self).wrambank,
            a == 0xFF0F ==> final(self).intf == v & 0x1F,
            a != 0xFF0F ==> final(self).intf == old(self).intf,
            a == 0xFFFF ==> final(self).inte == v,
            a != 0xFFFF ==> final(self).inte == old(self).inte,
            a != 0xFF4D ==> final(self).speed_switch_req == old(self).speed_switch_req,
            final(self).gbspeed == old(self).gbspeed,
    {
        if a < 0x8000 {
            self.mbc.writerom(a, v);
        } else if a < 0xA000 {
            self.gpu.wb(a, v);
        } else if a < 0xC000 {
            self.mbc.writeram(a, v);
        } else if a < 0xD000 {
            self.wram.set(a as usize - 0xC000, v);
        } else if a < 0xE000 {
            self.wram.set(self.wrambank * 0x1000 + (a as usize - 0xD000), v);
        } else if a < 0xF000 {
            self.wram.set(a as usize - 0xE000, v);
        } else if a < 0xFE00 {
            self.wram.set(self.wrambank * 0x1000 + (a as usize - 0xF000), v);
        } else if a < 0xFEA0 {
            self.gpu.wb(a, v);
        } else if a < 0xFF00 {
        } else if a == 0xFF00 {
            self.keypad.wb(v);
        } else if a == 0xFF01 {
            self.serial_data = v;
        } else if a == 0xFF02 {
            self.serial_ctrl = v;
        } else if 0xFF04 <= a && a <= 0xFF07 {
            self.timer.wb(a, v);
        } else if a == 0xFF0F {
            self.intf = v & 0x1F;
        } else if 0xFF10 <= a && a < 0xFF40 {
            self.sound.wb(a, v);
        } else if a == 0xFF46 {
            self.oamdma(v);
        } else if a == 0xFF4D {
            if self.gbmode == GbMode::Color {
                self.speed_switch_req = v & 0x01 == 0x01;
            }
        } else if (0xFF40 <= a && a <= 0xFF4F) || (0xFF68 <= a && a <= 0xFF6B) {
            self.gpu.wb(a, v);
        } else if 0xFF51 <= a && a <= 0xFF55 {
            if self.gbmode == GbMode::Color {
                self.hdma_write(a, v);
            }
        } else if a == 0xFF70 {
            if self.gbmode == GbMode::Color {
                let b = (v % 8) as usize;
                self.wrambank = if b == 0 { 1 } else { b };
            }
        } else if 0xFF80 <= a && a < 0xFFFF {
            self.zram.set(a as usize - 0xFF80, v);
        } else if a == 0xFFFF {
            self.inte = v;
        }
        proof {
            if plain(a) {
                assert(self.ram() =~= old(self).ram().update(old(self).slot(a), v));
            }
        }
    }

    /// Writes a little-endian word: low byte at `a`, high byte at `a + 1`.
    pub fn ww(&mut self, a: u16, v: u16)
        requires
            old(self).wf(),
        ensures
            final(self).wf(),
            final(self).mbc.spec_rom() == old(self).mbc.spec_rom(),
            final(self).gbmode == old(self).gbmode,
            plain(a) && plain(a.wrapping_add(1)) ==> final(self).ram() == old(self).ram().update(
                old(self).slot(a),
                (v % 256) as u8,
            ).update(old(self).slot(a.wrapping_add(1)), (v / 256) as u8),
            plain(a) && plain(a.wrapping_add(1)) ==> *final(self) == (MMU {
                wram: final(self).wram,
                zram: final(self).zram,
                ..*old(self)
            }),
            final(self).gbspeed == old(self).gbspeed,
    {
        self.wb(a, (v % 256) as u8);
        self.wb(a.wrapping_add(1), (v / 256) as u8);
    }

    /// Copies 160 bytes from `v * 0x100` into the sprite table.
    fn oamdma(&mut self, v: u8)
        requires
            old(self).wf(),
        ensures
            final(self).wf(),
            *final(self) == (MMU { gpu: final(self).gpu, ..*old(self) }),
            final(self).gpu.lcdc == old(self).gpu.lcdc,
            final(self).gpu.interrupt == old(self).gpu.interrupt,
    {
        let base: u16 = (v as u16) * 256;
        let mut i: u16 = 0;
        while i < 0xA0
            invariant
                self.wf(),
                i <= 0xA0,
                base == v as u16 * 256,
                *self == (MMU { gpu: self.gpu, ..*old(self) }),
                self.gpu.lcdc == old(self).gpu.lcdc,
                self.gpu.interrupt == old(self).gpu.interrupt,
            decreases 0xA0 - i,
        {
            let b = self.rb(base + i);
            self.gpu.wb(0xFE00 + i, b);
            i = i + 1;
        }
    }

    fn hdma_write(&mut self, a: u16, v: u8)
        requires
            old(self).wf(),
            0xFF51 <= a <= 0xFF55,
        ensures
            final(self).wf(),
            *final(self) == (MMU {
                hdma: final(self).hdma,
                hdma_src: final(self).hdma_src,
                hdma_dst: final(self).hdma_dst,
                hdma_len: final(self).hdma_len,
                hdma_status: final(self).hdma_status,
                ..*old(self)
            }),
    {
        if a == 0xFF51 {
            self.hdma.set(0, v);
        } else if a == 0xFF52 {
            self.hdma.set(1, v & 0xF0);
        } else if a == 0xFF53 {
            self.hdma.set(2, v & 0x1F);
        } else if a == 0xFF54 {
            self.hdma.set(3, v & 0xF0);
        } else {
            if self.hdma_status == DMAType::HDMA {
                if v & 0x80 == 0 {
                    self.hdma_status = DMAType::NoDMA;
                }
                return;
            }
            let src: u16 = self.hdma[0] as u16 * 256 + self.hdma[1] as u16;
            let dst: u16 = 0x8000 + self.hdma[2] as u16 % 0x20 * 256 + self.hdma[3] as u16;
            if !(src <= 0x7FF0 || (src >= 0xA000 && src <= 0xDFF0)) {
                return;
            }
            self.hdma_src = src;
            self.hdma_dst = dst;
            self.hdma_len = (v % 0x80) + 1;
            self.hdma_status = if v & 0x80 == 0x80 { DMAType::HDMA } else { DMAType::GDMA };
        }
    }

    /// Copies one 16-byte block of a VRAM transfer.
    fn perform_vramdma_row(&mut self)
        requires
            old(self).wf(),
        ensures
            final(self).wf(),
            final(self).intf == old(self).intf,
            final(self).inte == old(self).inte,
            final(self).gbspeed == old(self).gbspeed,
            final(self).hdma_status == old(self).hdma_status,
            final(self).hdma_len == (if old(self).hdma_len > 0 { (old(self).hdma_len - 1) as u8 } else { 0 }),
            *final(self) == (MMU {
                gpu: final(self).gpu,
                hdma_src: final(self).hdma_src,
                hdma_dst: final(self).hdma_dst,
                hdma_len: final(self).hdma_len,
                hdma_status: final(self).hdma_status,
                ..*old(self)
            }),
            final(self).gpu.lcdc == old(self).gpu.lcdc,
            final(self).gpu.interrupt == old(self).gpu.interrupt,
            final(self).timer == old(self).timer,
            final(self).keypad == old(self).keypad,
            final(self).mbc.wf(),
    {
        let src = self.hdma_src;
        let dst = self.hdma_dst;
        let mut j: u16 = 0;
        while j < 0x10
            invariant
                self.wf(),
                j <= 0x10,
                *self == (MMU { gpu: self.gpu, ..*old(self) }),
                self.gpu.lcdc == old(self).gpu.lcdc,
                self.gpu.interrupt == old(self).gpu.interrupt,
            decreases 0x10 - j,
        {
            let b = self.rb(src.wrapping_add(j));
            let d = dst.wrapping_add(j);
            if 0x8000 <= d && d < 0xA000 {
                self.gpu.wb(d, b);
            }
            j = j + 1;
        }
        self.hdma_src = self.hdma_src.wrapping_add(0x10);
        self.hdma_dst = self.hdma_dst.wrapping_add(0x10);
        if self.hdma_len > 0 {
            self.hdma_len = self.hdma_len - 1;
        }
    }

    /// Runs the active VRAM transfer; returns the dots it took.
    fn perform_vramdma(&mut self) -> (r: u32)
        requires
            old(self).wf(),
        ensures
            final(self).wf(),
            final(self).intf == old(self).intf,
            final(self).inte == old(self).inte,
            final(self).gbspeed == old(self).gbspeed,
            final(self).gpu.lcdc == old(self).gpu.lcdc,
            final(self).gpu.interrupt == old(self).gpu.interrupt,
            final(self).timer == old(self).timer,
            final(self).keypad == old(self).keypad,
            old(self).hdma_status == DMAType::NoDMA ==> r == 0 && *final(self) == *old(self),
            *final(self) == (MMU {
                gpu: final(self).gpu,
                hdma_src: final(self).hdma_src,
                hdma_dst: final(self).hdma_dst,
                hdma_len: final(self).hdma_len,
                hdma_status: final(self).hdma_status,
                ..*old(self)
            }),
            r <= 0x800,
    {
        if self.hdma_status == DMAType::NoDMA {
            0
        } else if self.hdma_status == DMAType::GDMA {
            let len = self.hdma_len as u32;
            let mut k: u32 = 0;
            while k < len
                invariant
                    self.wf(),
                    k <= len,
                    len <= 0xFF,
                    self.intf == old(self).intf,
                    self.inte == old(self).inte,
                    self.gbspeed == old(self).gbspeed,
                    self.gpu.lcdc == old(self).gpu.lcdc,
                    self.gpu.interrupt == old(self).gpu.interrupt,
                    self.timer == old(self).timer,
                    self.keypad == old(self).keypad,
                    *self == (MMU {
                        gpu: self.gpu,
                        hdma_src: self.hdma_src,
                        hdma_dst: self.hdma_dst,
                        hdma_len: self.hdma_len,
                        hdma_status: self.hdma_status,
                        ..*old(self)
                    }),
                decreases len - k,
            {
                self.perform_vramdma_row();
                k = k + 1;
            }
            self.hdma_status = DMAType::NoDMA;
            len * 8
        } else {
            if !self.gpu.hblanking {
                return 0;
            }
            self.gpu.hblanking = false;
            self.perform_vramdma_row();
            if self.hdma_len == 0 {
                self.hdma_status = DMAType::NoDMA;
            }
            8
        }
    }

    /// Toggles the CPU speed when a switch was requested through KEY1.
    pub fn switch_speed(&mut self)
        requires
            old(self).wf(),
        ensures
            final(self).wf(),
            !final(self).speed_switch_req,
            old(self).speed_switch_req ==> final(self).gbspeed != old(self).gbspeed,
            !old(self).speed_switch_req ==> *final(self) == *old(self),
            *final(self) == (MMU { gbspeed: final(self).gbspeed, speed_switch_req: final(self).speed_switch_req, ..*old(self) }),
    {
        if self.speed_switch_req {
            self.gbspeed = if self.gbspeed == GbSpeed::Single { GbSpeed::Double } else { GbSpeed::Single };
            self.speed_switch_req = false;
        }
    }

    /// Advances the peripherals after an instruction of `ticks` CPU clocks. They see
    /// `ticks` divided by the speed factor, plus the time of a VRAM transfer; their
    /// interrupt requests are moved into IF. Returns the clocks the peripherals saw.
    pub fn do_cycle(&mut self, ticks: u32) -> (r: u32)
        requires
            old(self).wf(),
            ticks <= 0xFFFF_0000,
        ensures
            final(self).wf(),
            final(self).mbc.spec_rom() == old(self).mbc.spec_rom(),
            final(self).inte == old(self).inte,
            final(self).gbspeed == old(self).gbspeed,
            final(self).gbmode == old(self).gbmode,
            final(self).wrambank == old(self).wrambank,
            final(self).ram() == old(self).ram(),
            final(self).intf & (old(self).intf & 0x1F) == old(self).intf & 0x1F,
            r >= ticks / old(self).gbspeed.spec_factor(),
            old(self).hdma_status == DMAType::NoDMA ==> r == ticks / old(self).gbspeed.spec_factor(),
            mmu_step(*old(self), *final(self), r),
    {
        let speed = self.gbspeed.factor();
        let vramticks = self.perform_vramdma();
        let gputicks = ticks / speed + vramticks;
        let ghost g0 = self.gpu;
        self.timer.do_cycle(gputicks);
        self.gpu.do_cycle(gputicks);
        let ghost t1 = self.timer;
        let ghost g1 = self.gpu;
        self.sound.do_cycle(gputicks);
        let i0 = self.intf;
        let raised = self.timer.interrupt | self.keypad.interrupt | self.gpu.interrupt;
        self.intf = (i0 | raised) & 0x1F;
        assert(((i0 | raised) & 0x1F) & (i0 & 0x1F) == i0 & 0x1F) by (bit_vector);
        self.timer.interrupt = 0;
        self.keypad.interrupt = 0;
        self.gpu.interrupt = 0;
        proof {
            let f = self.intf;
            let k = old(self).keypad.interrupt;
            let ti = t1.interrupt;
            let gi = g1.interrupt;
            assert(f == (i0 | (ti | k | gi)) & 0x1F ==> (ti & 0x04 == 0x04 ==> f & 0x04 == 0x04) && (gi & 0x01 == 0x01
                ==> f & 0x01 == 0x01) && (gi & 0x02 == 0x02 ==> f & 0x02 == 0x02) && (k & 0x10 == 0x10 ==> f & 0x10 == 0x10))
                by (bit_vector);
            assert(gpu_step(g0, g1, gputicks) && self.gpu == (GPU { interrupt: 0, ..g1 }));
        }
        gputicks
    }
}

} // verus!

verus! {

proof fn lemma_div_split(x: int, b: int)
    requires
        x >= 0,
        b >= 0,
    ensures
        (x + b) / 456 == x / 456 + (x % 456 + b) / 456,
        (x + b) % 456 == (x % 456 + b) % 456,
{
    vstd::arithmetic::div_mod::lemma_fundamental_div_mod(x, 456);
    vstd::arithmetic::div_mod::lemma_fundamental_div_mod(x % 456 + b, 456);
    vstd::arithmetic::div_mod::lemma_mod_bound(x % 456 + b, 456);
    let q = x / 456 + (x % 456 + b) / 456;
    let r = (x % 456 + b) % 456;
    assert(x + b == q * 456 + r) by (nonlinear_arith)
        requires
            x == 456 * (x / 456) + x % 456,
            x % 456 + b == 456 * ((x % 456 + b) / 456) + (x % 456 + b) % 456,
            q == x / 456 + (x % 456 + b) / 456,
            r == (x % 456 + b) % 456,
    ;
    vstd::arithmetic::div_mod::lemma_fundamental_div_mod_converse(x + b, 456, q, r);
}

/// Two picture-processor steps of `a` and `b` dots (the interrupt bits moved out in
/// between) move LY and the dot counter as one step of `a + b`; passing line 144 over
/// the two raises V-blank in one of them.
pub proof fn lemma_gpu_steps_compose(g0: GPU, g1: GPU, g2: GPU, a: u32, b: u32)
    requires
        gpu_step(g0, g1, a),
        gpu_step(GPU { interrupt: 0, ..g1 }, g2, b),
        g0.lcdc & 0x80 != 0,
    ensures
        g2.modeclock == (g0.modeclock + a + b) % 456,
        g2.line == (g0.line + (g0.modeclock + a + b) / 456) % 154,
        g0.line < 144 && g0.line + (g0.modeclock + a + b) / 456 >= 144 ==> g1.interrupt & 0x01 == 0x01
            || g2.interrupt & 0x01 == 0x01,
{
    let x = g0.modeclock as int + a as int;
    let l0 = g0.line as int;
    lemma_div_split(x, b as int);
    let q = (x % 456 + b) / 456;
    let p = l0 + x / 456;
    vstd::arithmetic::div_mod::lemma_add_mod_noop(p, q, 154);
    vstd::arithmetic::div_mod::lemma_mod_twice(p, 154);
    vstd::arithmetic::div_mod::lemma_mod_bound(p, 154);
    vstd::arithmetic::div_mod::lemma_add_mod_noop(p % 154, q, 154);
    if l0 < 144 && p < 144 {
        vstd::arithmetic::div_mod::lemma_small_mod(p as nat, 154);
    }
}

/// Two peripheral ticks of `a` and then `b` clocks, with the LCD on and no VRAM
/// transfer, move LY and the dot counter as one tick of `a + b` would; and when LY
/// passes from below 144 to 144 or beyond over the two ticks, IF bit 0 (V-blank) is set.
pub proof fn lemma_ticks_compose(m0: MMU, m1: MMU, m2: MMU, a: u32, b: u32)
    requires
        mmu_step(m0, m1, a),
        mmu_step(m1, m2, b),
        m0.hdma_status == DMAType::NoDMA,
        m1.hdma_status == DMAType::NoDMA,
        m0.gpu.lcdc & 0x80 != 0,
    ensures
        m2.gpu.modeclock == (m0.gpu.modeclock + a + b) % 456,
        m2.gpu.line == (m0.gpu.line + (m0.gpu.modeclock + a + b) / 456) % 154,
        m0.gpu.line < 144 && m0.gpu.line + (m0.gpu.modeclock + a + b) / 456 >= 144 ==> m2.intf & 0x01 == 0x01,
{
    let (g0a, g1a) = choose|g0: GPU, g1: GPU|
        #![trigger gpu_step(g0, g1, a)]
        {
            &&& gpu_step(g0, g1, a)
            &&& g0.interrupt == m0.gpu.interrupt
            &&& m0.hdma_status == DMAType::NoDMA ==> g0 == m0.gpu
            &&& m1.gpu == (GPU { interrupt: 0, ..g1 })
            &&& m1.intf == (m0.intf | (timer_next(m0.timer, a).interrupt | m0.keypad.interrupt | g1.interrupt)) & 0x1F
        };
    let (g0b, g1b) = choose|g0: GPU, g1: GPU|
        #![trigger gpu_step(g0, g1, b)]
        {
            &&& gpu_step(g0, g1, b)
            &&& g0.interrupt == m1.gpu.interrupt
            &&& m1.hdma_status == DMAType::NoDMA ==> g0 == m1.gpu
            &&& m2.gpu == (GPU { interrupt: 0, ..g1 })
            &&& m2.intf == (m1.intf | (timer_next(m1.timer, b).interrupt | m1.keypad.interrupt | g1.interrupt)) & 0x1F
        };
    lemma_gpu_steps_compose(g0a, g1a, g1b, a, b);
    let i0 = m0.intf;
    let i1 = m1.intf;
    let i2 = m2.intf;
    let u = timer_next(m0.timer, a).interrupt | m0.keypad.interrupt;
    let v = timer_next(m1.timer, b).interrupt | m1.keypad.interrupt;
    let ga = g1a.interrupt;
    let gb = g1b.interrupt;
    assert((i1 == (i0 | (u | ga)) & 0x1F && i2 == (i1 | (v | gb)) & 0x1F && (ga & 0x01 == 0x01 || gb & 0x01 == 0x01))
        ==> i2 & 0x01 == 0x01) by (bit_vector);
}

} // verus!
