use vstd::prelude::*;
use crate::rtc::Rtc;

verus! {

/// Result type whose error is a fixed message.
pub type StrResult<T> = Result<T, &'static str>;

/// Number of 16 KiB ROM banks announced by header byte 0x148 (0 when unknown).
pub open spec fn spec_rom_banks(v: u8) -> usize {
    if v <= 8 { (2usize << v) as usize } else { 0 }
}

/// Number of 8 KiB RAM banks announced by header byte 0x149.
pub open spec fn spec_ram_banks(v: u8) -> usize {
    if v == 1 || v == 2 {
        1
    } else if v == 3 {
        4
    } else if v == 4 {
        16
    } else if v == 5 {
        8
    } else {
        0
    }
}

pub fn rom_banks(v: u8) -> (r: usize)
    ensures
        r == spec_rom_banks(v),
        r <= 512,
        v <= 8 ==> r >= 2,
{
    if v <= 8 {
        assert((2usize << v) <= 512 && (2usize << v) >= 2) by (bit_vector)
            requires
                v <= 8,
        ;
        2usize << v
    } else {
        0
    }
}

pub fn ram_banks(v: u8) -> (r: usize)
    ensures
        r == spec_ram_banks(v),
        r <= 16,
{
    match v {
        1 | 2 => 1,
        3 => 4,
        4 => 16,
        5 => 8,
        _ => 0,
    }
}

/// Index into a banked image: bank base plus offset.
pub open spec fn banked(bank: usize, size: int, off: int) -> int {
    bank as int * size + off
}

proof fn lemma_bank_in_range(bank: usize, banks: usize, size: int, off: int)
    requires
        bank < banks,
        0 <= off < size,
    ensures
        0 <= banked(bank, size, off) < banks as int * size,
{
    assert(bank as int * size + off < banks as int * size) by (nonlinear_arith)
        requires
            bank < banks,
            0 <= off < size,
    ;
    assert(0 <= bank as int * size) by (nonlinear_arith)
        requires
            0 <= off < size,
    ;
}

/// Length of the title that starts at header offset 0x134 + `i`: up to the first zero
/// byte, at most 16 bytes in all.
pub open spec fn title_len(rom: Seq<u8>, i: nat) -> nat
    decreases 16 - i,
{
    if i >= 16 || rom[0x134 + i as int] == 0 { i } else { title_len(rom, i + 1) }
}

/// Header bytes every cartridge image must reach.
pub const HEADER_END: usize = 0x150;

/// The cartridge with its bank controller.
pub enum Cartridge {
    Plain(MBC0),
    Mbc1(MBC1),
    Mbc3(MBC3),
    Mbc4(MBC4),
}

/// MBC3: 7-bit ROM bank, four RAM banks, and an optional real-time clock whose five
/// registers are selected through the RAM bank register (0x08-0x0C).
pub struct MBC3 {
    pub rom: Vec<u8>,
    pub ram: Vec<u8>,
    pub rombank: usize,
    pub ramsel: u8,
    pub ram_on: bool,
    pub ram_updated: bool,
    pub has_battery: bool,
    pub has_rtc: bool,
    pub rombanks: usize,
    pub rambanks: usize,
    pub rtc: Rtc,
}

/// Cartridge without a controller: 32 KiB of ROM mapped directly.
pub struct MBC0 {
    pub rom: Vec<u8>,
}

/// MBC1: 5-bit low ROM bank register, 2-bit upper register shared with the RAM bank.
pub struct MBC1 {
    pub rom: Vec<u8>,
    pub ram: Vec<u8>,
    pub ram_on: bool,
    pub ram_mode: bool,
    pub bank_low: usize,
    pub bank_high: usize,
    pub ram_updated: bool,
    pub has_battery: bool,
    pub rombanks: usize,
    pub rambanks: usize,
}

/// Controller with a 9-bit ROM bank and a 4-bit RAM bank.
pub struct MBC4 {
    pub rom: Vec<u8>,
    pub ram: Vec<u8>,
    pub rombank: usize,
    pub rambank: usize,
    pub ram_on: bool,
    pub ram_updated: bool,
    pub has_battery: bool,
    pub rombanks: usize,
    pub rambanks: usize,
}

impl MBC4 {
    pub open spec fn wf(&self) -> bool {
        &&& 2 <= self.rombanks <= 512
        &&& self.rom@.len() == self.rombanks * 0x4000
        &&& self.rombank < self.rombanks
        &&& self.rambanks <= 16
        &&& self.ram@.len() == self.rambanks * 0x2000
        &&& (self.rambanks == 0 || self.rambank < self.rambanks)
    }

    pub open spec fn spec_read_rom(&self, a: u16) -> u8 {
        if a < 0x4000 {
            self.rom@[a as int]
        } else {
            self.rom@[banked(self.rombank, 0x4000, a as int - 0x4000)]
        }
    }

    pub open spec fn spec_read_ram(&self, a: u16) -> u8 {
        if !self.ram_on || self.rambanks == 0 {
            0
        } else {
            self.ram@[banked(self.rambank, 0x2000, a as int - 0xA000)]
        }
    }

    /// Builds the controller for an image whose header names this controller type
    /// (0x19 to 0x1E at 0x147). The image must be as long as byte 0x148 says.
    pub fn new(data: Vec<u8>) -> (r: StrResult<MBC4>)
        ensures
            data@.len() < HEADER_END ==> r.is_err(),
            r.is_ok() <==> (data@.len() >= HEADER_END && spec_rom_banks(data@[0x148]) >= 2
                && data@.len() == spec_rom_banks(data@[0x148]) * 0x4000),
            r matches Ok(m) ==> {
                &&& m.wf()
                &&& m.rom@ == data@
                &&& m.rombank == 1
                &&& m.rambank == 0
                &&& !m.ram_on
                &&& !m.ram_updated
                &&& m.has_battery == (data@[0x147] == 0x1B || data@[0x147] == 0x1E)
                &&& m.rambanks == (if data@[0x147] == 0x1A || data@[0x147] == 0x1B || data@[0x147] == 0x1D
                    || data@[0x147] == 0x1E { spec_ram_banks(data@[0x149]) } else { 0 })
                &&& forall|i: int| 0 <= i < m.ram@.len() ==> m.ram@[i] == 0
            },
    {
        if data.len() < HEADER_END {
            return Err("ROM image is shorter than its header");
        }
        let subtype = data[0x147];
        let has_battery = subtype == 0x1B || subtype == 0x1E;
        let rambanks = if subtype == 0x1A || subtype == 0x1B || subtype == 0x1D || subtype == 0x1E {
            ram_banks(data[0x149])
        } else {
            0
        };
        let rombanks = rom_banks(data[0x148]);
        if rombanks < 2 || data.len() != rombanks * 0x4000 {
            return Err("ROM size does not match its header");
        }
        let ramsize = 0x2000 * rambanks;
        let ram = vec![0u8; ramsize];
        Ok(MBC4 {
            rom: data,
            ram,
            rombank: 1,
            rambank: 0,
            ram_updated: false,
            ram_on: false,
            has_battery,
            rombanks,
            rambanks,
        })
    }

    pub fn readrom(&self, a: u16) -> (r: u8)
        requires
            self.wf(),
            a < 0x8000,
        ensures
            r == self.spec_read_rom(a),
    {
        if a < 0x4000 {
            self.rom[a as usize]
        } else {
            proof {
                lemma_bank_in_range(self.rombank, self.rombanks, 0x4000, a as int - 0x4000);
            }
            self.rom[self.rombank * 0x4000 + (a as usize - 0x4000)]
        }
    }

    /// Reads cartridge RAM; 0 while RAM is disabled or absent.
    pub fn readram(&self, a: u16) -> (r: u8)
        requires
            self.wf(),
            0xA000 <= a < 0xC000,
        ensures
            r == self.spec_read_ram(a),
    {
        if !self.ram_on || self.rambanks == 0 {
            return 0;
        }
        proof {
            lemma_bank_in_range(self.rambank, self.rambanks, 0x2000, a as int - 0xA000);
        }
        self.ram[self.rambank * 0x2000 + (a as usize - 0xA000)]
    }

    /// Control register write.
    pub fn writerom(&mut self, a: u16, v: u8)
        requires
            old(self).wf(),
            a < 0x8000,
        ensures
            final(self).wf(),
            final(self).rom == old(self).rom,
            final(self).ram == old(self).ram,
            final(self).rombanks == old(self).rombanks,
            final(self).rambanks == old(self).rambanks,
            final(self).has_battery == old(self).has_battery,
            final(self).ram_updated == old(self).ram_updated,
            final(self).ram_on == (if a < 0x2000 { v & 0x0F == 0x0A } else { old(self).ram_on }),
            final(self).rombank == (if 0x2000 <= a < 0x3000 {
                (((old(self).rombank / 256) * 256 + v as usize) % old(self).rombanks as int) as usize
            } else if 0x3000 <= a < 0x4000 {
                (((old(self).rombank % 256) + (v % 2) as usize * 256) % old(self).rombanks as int) as usize
            } else {
                old(self).rombank
            }),
            final(self).rambank == (if 0x4000 <= a < 0x6000 && old(self).rambanks > 0 {
                ((v % 16) as usize) % old(self).rambanks
            } else {
                old(self).rambank
            }),
    {
        if a < 0x2000 {
            self.ram_on = v & 0x0F == 0x0A;
        } else if a < 0x3000 {
            self.rombank = ((self.rombank / 256) * 256 + v as usize) % self.rombanks;
        } else if a < 0x4000 {
            self.rombank = ((self.rombank % 256) + (v % 2) as usize * 256) % self.rombanks;
        } else if a < 0x6000 {
            if self.rambanks > 0 {
                self.rambank = ((v % 16) as usize) % self.rambanks;
            }
        }
    }

    pub fn writeram(&mut self, a: u16, v: u8)
        requires
            old(self).wf(),
            0xA000 <= a < 0xC000,
        ensures
            final(self).wf(),
            final(self).rom == old(self).rom,
            final(self).rombank == old(self).rombank,
            final(self).rambank == old(self).rambank,
            final(self).ram_on == old(self).ram_on,
            final(self).rombanks == old(self).rombanks,
            final(self).rambanks == old(self).rambanks,
            final(self).has_battery == old(self).has_battery,
            if old(self).ram_on && old(self).rambanks > 0 {
                &&& final(self).ram@ == old(self).ram@.update(banked(old(self).rambank, 0x2000, a as int - 0xA000), v)
                &&& final(self).ram_updated
            } else {
                &&& final(self).ram@ == old(self).ram@
                &&& final(self).ram_updated == old(self).ram_updated
            },
    {
        if !self.ram_on || self.rambanks == 0 {
            return;
        }
        proof {
            lemma_bank_in_range(self.rambank, self.rambanks, 0x2000, a as int - 0xA000);
        }
        let idx = self.rambank * 0x2000 + (a as usize - 0xA000);
        self.ram.set(idx, v);
        self.ram_updated = true;
    }

    pub fn is_battery_backed(&self) -> (r: bool)
        ensures
            r == self.has_battery,
    {
        self.has_battery
    }

    /// Replaces the RAM image; refused when the length differs.
    pub fn loadram(&mut self, ramdata: &Vec<u8>) -> (r: StrResult<()>)
        requires
            old(self).wf(),
        ensures
            final(self).wf(),
            r.is_ok() <==> ramdata@.len() == old(self).ram@.len(),
            r.is_ok() ==> final(self).ram@ == ramdata@,
            r.is_err() ==> final(self).ram@ == old(self).ram@,
            final(self).rom == old(self).rom,
            final(self).rombank == old(self).rombank,
            final(self).rambank == old(self).rambank,
            final(self).ram_on == old(self).ram_on,
            final(self).ram_updated == old(self).ram_updated,
            final(self).rombanks == old(self).rombanks,
            final(self).rambanks == old(self).rambanks,
            final(self).has_battery == old(self).has_battery,
    {
        if ramdata.len() != self.ram.len() {
            return Err("Loaded RAM has incorrect length");
        }
        self.ram = ramdata.clone();
        Ok(())
    }

    pub fn dumpram(&self) -> (r: Vec<u8>)
        ensures
            r@ == self.ram@,
    {
        self.ram.clone()
    }

    pub fn check_and_reset_ram_updated(&mut self) -> (r: bool)
        ensures
            r == old(self).ram_updated,
            *final(self) == (MBC4 { ram_updated: false, ..*old(self) }),
    {
        let res = self.ram_updated;
        self.ram_updated = false;
        res
    }
}


impl MBC0 {
    pub open spec fn wf(&self) -> bool {
        self.rom@.len() == 0x8000
    }
}

impl MBC1 {
    pub open spec fn wf(&self) -> bool {
        &&& 2 <= self.rombanks <= 512
        &&& self.rom@.len() == self.rombanks * 0x4000
        &&& 1 <= self.bank_low <= 31
        &&& self.bank_high <= 3
        &&& self.rambanks <= 16
        &&& self.ram@.len() == self.rambanks * 0x2000
    }

    /// Bank seen at 0x4000-0x7FFF: both registers in ROM mode, the low one in RAM mode.
    pub open spec fn rom_bank(&self) -> usize {
        ((if self.ram_mode { self.bank_low as int } else { self.bank_high * 32 + self.bank_low }) % self.rombanks as int) as usize
    }

    /// Bank seen at 0xA000-0xBFFF: the upper register in RAM mode, else bank 0.
    pub open spec fn ram_bank(&self) -> usize {
        if self.ram_mode && self.rambanks > 0 { (self.bank_high % self.rambanks) as usize } else { 0 }
    }

    pub open spec fn spec_read_rom(&self, a: u16) -> u8 {
        if a < 0x4000 {
            self.rom@[a as int]
        } else {
            self.rom@[banked(self.rom_bank(), 0x4000, a as int - 0x4000)]
        }
    }

    pub open spec fn spec_read_ram(&self, a: u16) -> u8 {
        if !self.ram_on || self.rambanks == 0 {
            0xFF
        } else {
            self.ram@[banked(self.ram_bank(), 0x2000, a as int - 0xA000)]
        }
    }

    fn current_rom_bank(&self) -> (r: usize)
        requires
            self.wf(),
        ensures
            r == self.rom_bank(),
            r < self.rombanks,
    {
        let b = if self.ram_mode { self.bank_low } else { self.bank_high * 32 + self.bank_low };
        b % self.rombanks
    }

    fn current_ram_bank(&self) -> (r: usize)
        requires
            self.wf(),
        ensures
            r == self.ram_bank(),
            self.rambanks > 0 ==> r < self.rambanks,
    {
        if self.ram_mode && self.rambanks > 0 { self.bank_high % self.rambanks } else { 0 }
    }

    pub fn readrom(&self, a: u16) -> (r: u8)
        requires
            self.wf(),
            a < 0x8000,
        ensures
            r == self.spec_read_rom(a),
    {
        if a < 0x4000 {
            self.rom[a as usize]
        } else {
            let bank = self.current_rom_bank();
            proof {
                lemma_bank_in_range(bank, self.rombanks, 0x4000, a as int - 0x4000);
            }
            self.rom[bank * 0x4000 + (a as usize - 0x4000)]
        }
    }

    pub fn readram(&self, a: u16) -> (r: u8)
        requires
            self.wf(),
            0xA000 <= a < 0xC000,
        ensures
            r == self.spec_read_ram(a),
    {
        if !self.ram_on || self.rambanks == 0 {
            return 0xFF;
        }
        let bank = self.current_ram_bank();
        proof {
            lemma_bank_in_range(bank, self.rambanks, 0x2000, a as int - 0xA000);
        }
        self.ram[bank * 0x2000 + (a as usize - 0xA000)]
    }

    /// Control register write; a low bank value of 0 is stored as 1.
    pub fn writerom(&mut self, a: u16, v: u8)
        requires
            old(self).wf(),
            a < 0x8000,
        ensures
            final(self).wf(),
            final(self).rom == old(self).rom,
            final(self).ram == old(self).ram,
            final(self).rombanks == old(self).rombanks,
            final(self).rambanks == old(self).rambanks,
            final(self).has_battery == old(self).has_battery,
            final(self).ram_updated == old(self).ram_updated,
            final(self).ram_on == (if a < 0x2000 { v & 0x0F == 0x0A } else { old(self).ram_on }),
            final(self).bank_low == (if 0x2000 <= a < 0x4000 {
                if v % 32 == 0 { 1 } else { (v % 32) as usize }
            } else {
                old(self).bank_low
            }),
            final(self).bank_high == (if 0x4000 <= a < 0x6000 { (v % 4) as usize } else { old(self).bank_high }),
            final(self).ram_mode == (if 0x6000 <= a { v % 2 == 1 } else { old(self).ram_mode }),
    {
        if a < 0x2000 {
            self.ram_on = v & 0x0F == 0x0A;
        } else if a < 0x4000 {
            let low = (v % 32) as usize;
            self.bank_low = if low == 0 { 1 } else { low };
        } else if a < 0x6000 {
            self.bank_high = (v % 4) as usize;
        } else {
            self.ram_mode = v % 2 == 1;
        }
    }

    pub fn writeram(&mut self, a: u16, v: u8)
        requires
            old(self).wf(),
            0xA000 <= a < 0xC000,
        ensures
            final(self).wf(),
            final(self).rom == old(self).rom,
            final(self).bank_low == old(self).bank_low,
            final(self).bank_high == old(self).bank_high,
            final(self).ram_mode == old(self).ram_mode,
            final(self).ram_on == old(self).ram_on,
            final(self).rombanks == old(self).rombanks,
            final(self).rambanks == old(self).rambanks,
            final(self).has_battery == old(self).has_battery,
            if old(self).ram_on && old(self).rambanks > 0 {
                &&& final(self).ram@ == old(self).ram@.update(banked(old(self).ram_bank(), 0x2000, a as int - 0xA000), v)
                &&& final(self).ram_updated
            } else {
                &&& final(self).ram@ == old(self).ram@
                &&& final(self).ram_updated == old(self).ram_updated
            },
    {
        if !self.ram_on || self.rambanks == 0 {
            return;
        }
        let bank = self.current_ram_bank();
        proof {
            lemma_bank_in_range(bank, self.rambanks, 0x2000, a as int - 0xA000);
        }
        self.ram.set(bank * 0x2000 + (a as usize - 0xA000), v);
        self.ram_updated = true;
    }
}


impl MBC3 {
    pub open spec fn wf(&self) -> bool {
        &&& 2 <= self.rombanks <= 512
        &&& self.rom@.len() == self.rombanks * 0x4000
        &&& self.rombank < self.rombanks
        &&& self.rambanks <= 16
        &&& self.ram@.len() == self.rambanks * 0x2000
        &&& self.rtc.wf()
    }

    pub open spec fn spec_read_rom(&self, a: u16) -> u8 {
        if a < 0x4000 {
            self.rom@[a as int]
        } else {
            self.rom@[banked(self.rombank, 0x4000, a as int - 0x4000)]
        }
    }

    pub open spec fn spec_read_ram(&self, a: u16) -> u8 {
        if !self.ram_on {
            0xFF
        } else if self.has_rtc && 0x08 <= self.ramsel <= 0x0C {
            self.rtc.latched@[self.ramsel - 0x08]
        } else if self.ramsel < 4 && self.rambanks > 0 {
            self.ram@[banked((self.ramsel as usize % self.rambanks) as usize, 0x2000, a as int - 0xA000)]
        } else {
            0xFF
        }
    }

    pub fn readrom(&self, a: u16) -> (r: u8)
        requires
            self.wf(),
            a < 0x8000,
        ensures
            r == self.spec_read_rom(a),
    {
        if a < 0x4000 {
            self.rom[a as usize]
        } else {
            proof {
                lemma_bank_in_range(self.rombank, self.rombanks, 0x4000, a as int - 0x4000);
            }
            self.rom[self.rombank * 0x4000 + (a as usize - 0x4000)]
        }
    }

    pub fn readram(&self, a: u16) -> (r: u8)
        requires
            self.wf(),
            0xA000 <= a < 0xC000,
        ensures
            r == self.spec_read_ram(a),
    {
        if !self.ram_on {
            0xFF
        } else if self.has_rtc && 0x08 <= self.ramsel && self.ramsel <= 0x0C {
            self.rtc.latched[(self.ramsel - 0x08) as usize]
        } else if self.ramsel < 4 && self.rambanks > 0 {
            let bank = self.ramsel as usize % self.rambanks;
            proof {
                lemma_bank_in_range(bank, self.rambanks, 0x2000, a as int - 0xA000);
            }
            self.ram[bank * 0x2000 + (a as usize - 0xA000)]
        } else {
            0xFF
        }
    }

    /// Control register write: RAM enable, ROM bank (0 stored as 1), RAM bank or clock
    /// register select, clock latch.
    pub fn writerom(&mut self, a: u16, v: u8)
        requires
            old(self).wf(),
            a < 0x8000,
        ensures
            final(self).wf(),
            final(self).rom == old(self).rom,
            final(self).ram == old(self).ram,
            final(self).rombanks == old(self).rombanks,
            final(self).rambanks == old(self).rambanks,
            final(self).has_battery == old(self).has_battery,
            final(self).has_rtc == old(self).has_rtc,
            final(self).ram_updated == old(self).ram_updated,
            final(self).ram_on == (if a < 0x2000 { v & 0x0F == 0x0A } else { old(self).ram_on }),
            final(self).rombank == (if 0x2000 <= a < 0x4000 {
                ((if v % 128 == 0 { 1 } else { v % 128 }) as int % old(self).rombanks as int) as usize
            } else {
                old(self).rombank
            }),
            final(self).ramsel == (if 0x4000 <= a < 0x6000 { v } else { old(self).ramsel }),
            0x6000 <= a && old(self).has_rtc ==> final(self).rtc.latch_armed == (v == 0),
    {
        if a < 0x2000 {
            self.ram_on = v & 0x0F == 0x0A;
        } else if a < 0x4000 {
            let n = v % 128;
            let n = if n == 0 { 1 } else { n };
            self.rombank = n as usize % self.rombanks;
        } else if a < 0x6000 {
            self.ramsel = v;
        } else if self.has_rtc {
            self.rtc.write_latch(v);
        }
    }

    pub fn writeram(&mut self, a: u16, v: u8)
        requires
            old(self).wf(),
            0xA000 <= a < 0xC000,
        ensures
            final(self).wf(),
            final(self).rom == old(self).rom,
            final(self).rombank == old(self).rombank,
            final(self).ramsel == old(self).ramsel,
            final(self).ram_on == old(self).ram_on,
            final(self).rombanks == old(self).rombanks,
            final(self).rambanks == old(self).rambanks,
            final(self).has_battery == old(self).has_battery,
            final(self).has_rtc == old(self).has_rtc,
            old(self).ram_on && old(self).ramsel < 4 && old(self).rambanks > 0 ==> final(self).ram@ == old(self).ram@.update(
                banked((old(self).ramsel as usize % old(self).rambanks) as usize, 0x2000, a as int - 0xA000),
                v,
            ) && final(self).ram_updated,
    {
        if !self.ram_on {
            return;
        }
        if self.has_rtc && 0x08 <= self.ramsel && self.ramsel <= 0x0C {
            self.rtc.write_reg(self.ramsel - 0x08, v);
            self.ram_updated = true;
        } else if self.ramsel < 4 && self.rambanks > 0 {
            let bank = self.ramsel as usize % self.rambanks;
            proof {
                lemma_bank_in_range(bank, self.rambanks, 0x2000, a as int - 0xA000);
            }
            self.ram.set(bank * 0x2000 + (a as usize - 0xA000), v);
            self.ram_updated = true;
        }
    }
}

/// Appends `v` as four little-endian bytes.
fn push_u32(out: &mut Vec<u8>, v: u32)
    ensures
        final(out)@ == old(out)@ + seq![(v % 256) as u8, ((v / 256) % 256) as u8, ((v / 65536) % 256) as u8, (v / 16777216) as u8],
{
    out.push((v % 256) as u8);
    out.push(((v / 256) % 256) as u8);
    out.push(((v / 65536) % 256) as u8);
    out.push((v / 16777216) as u8);
    assert(final(out)@ =~= old(out)@ + seq![(v % 256) as u8, ((v / 256) % 256) as u8, ((v / 65536) % 256) as u8, (v / 16777216) as u8]);
}

/// Little-endian u64 from eight bytes at `at`.
fn read_u64(b: &Vec<u8>, at: usize) -> (r: u64)
    requires
        at + 8 <= b@.len(),
{
    let mut r: u64 = 0;
    let mut i: usize = 8;
    let n = b.len();
    while i > 0
        invariant
            at + 8 <= b@.len(),
            n == b@.len(),
            i <= 8,
        decreases i,
    {
        i = i - 1;
        assert(at + i < b@.len());
        let byte = b[at + i];
        r = r.wrapping_mul(256).wrapping_add(byte as u64);
    }
    r
}

/// Bytes of the clock state that follow the RAM image in a save.
pub const RTC_SAVE_BYTES: usize = 48;


impl MBC3 {
    /// The RAM image followed, when the cartridge has a clock, by its state: the five
    /// running registers and the five latched ones as 32-bit words, then the current
    /// wall-clock second as a 64-bit word, all little-endian.
    pub fn dumpram(&self) -> (r: Vec<u8>)
        requires
            self.wf(),
        ensures
            r@.len() == self.ram@.len() + (if self.has_rtc { RTC_SAVE_BYTES as int } else { 0 }),
            r@.subrange(0, self.ram@.len() as int) == self.ram@,
    {
        let mut out = self.ram.clone();
        if self.has_rtc {
            let regs = self.rtc.registers();
            let mut k: usize = 0;
            while k < 5
                invariant
                    self.wf(),
                    k <= 5,
                    regs@.len() == 5,
                    out@.len() == self.ram@.len() + 4 * k,
                    out@.subrange(0, self.ram@.len() as int) == self.ram@,
                decreases 5 - k,
            {
                let ghost before = out@;
                push_u32(&mut out, regs[k] as u32);
                assert(out@.subrange(0, self.ram@.len() as int) =~= before.subrange(0, self.ram@.len() as int));
                k = k + 1;
            }
            let mut k: usize = 0;
            while k < 5
                invariant
                    self.wf(),
                    k <= 5,
                    out@.len() == self.ram@.len() + 20 + 4 * k,
                    out@.subrange(0, self.ram@.len() as int) == self.ram@,
                decreases 5 - k,
            {
                let ghost before = out@;
                push_u32(&mut out, self.rtc.latched[k] as u32);
                assert(out@.subrange(0, self.ram@.len() as int) =~= before.subrange(0, self.ram@.len() as int));
                k = k + 1;
            }
            let ghost before = out@;
            push_u32(&mut out, (self.rtc.now % 0x1_0000_0000) as u32);
            push_u32(&mut out, (self.rtc.now / 0x1_0000_0000) as u32);
            assert(out@.subrange(0, self.ram@.len() as int) =~= before.subrange(0, self.ram@.len() as int));
        }
        out
    }

    /// Takes a save made by `dumpram`; a save without the clock part is accepted too.
    pub fn loadram(&mut self, data: &Vec<u8>) -> (r: StrResult<()>)
        requires
            old(self).wf(),
        ensures
            final(self).wf(),
            r.is_ok() <==> (data@.len() == old(self).ram@.len() || (old(self).has_rtc && data@.len()
                == old(self).ram@.len() + RTC_SAVE_BYTES)),
            r.is_ok() ==> final(self).ram@ == data@.subrange(0, old(self).ram@.len() as int),
            r.is_err() ==> final(self).ram@ == old(self).ram@,
            final(self).rom == old(self).rom,
            final(self).rombank == old(self).rombank,
            final(self).rombanks == old(self).rombanks,
            final(self).rambanks == old(self).rambanks,
            final(self).has_rtc == old(self).has_rtc,
            final(self).has_battery == old(self).has_battery,
            r.is_ok() && data@.len() == old(self).ram@.len() + RTC_SAVE_BYTES && old(self).ram@.len() != data@.len() ==> {
                let n = old(self).ram@.len() as int;
                &&& final(self).rtc.base as nat == crate::rtc::rtc_total(data@[n], data@[n + 4], data@[n + 8], data@[n + 12], data@[n + 16])
                &&& final(self).rtc.halted == (data@[n + 16] & 0x40 != 0)
                &&& final(self).rtc.carry == (data@[n + 16] & 0x80 != 0)
                &&& final(self).rtc.latched@ == seq![data@[n + 20], data@[n + 24], data@[n + 28], data@[n + 32], data@[n + 36]]
            },
    {
        let n = self.ram.len();
        if data.len() == n {
            self.ram = data.clone();
            assert(data@.subrange(0, n as int) =~= data@);
            return Ok(());
        }
        if !self.has_rtc || data.len() != n + RTC_SAVE_BYTES {
            return Err("Loaded RAM has incorrect length");
        }
        let mut ram: Vec<u8> = Vec::new();
        let mut i: usize = 0;
        while i < n
            invariant
                i <= n,
                n + RTC_SAVE_BYTES == data@.len(),
                ram@ == data@.subrange(0, i as int),
            decreases n - i,
        {
            ram.push(data[i]);
            i = i + 1;
            assert(ram@ =~= data@.subrange(0, i as int));
        }
        let mut regs: Vec<u8> = Vec::new();
        let mut latched: Vec<u8> = Vec::new();
        let len = data.len();
        let mut k: usize = 0;
        while k < 5
            invariant
                k <= 5,
                n + RTC_SAVE_BYTES == data@.len(),
                len == data@.len(),
                regs@.len() == k,
                latched@.len() == k,
                forall|j: int| 0 <= j < k ==> regs@[j] == data@[n + 4 * j] && latched@[j] == data@[n + 20 + 4 * j],
            decreases 5 - k,
        {
            regs.push(data[n + 4 * k]);
            latched.push(data[n + 20 + 4 * k]);
            k = k + 1;
        }
        let since = read_u64(data, n + 40);
        assert(latched@ =~= seq![data@[n + 20], data@[n + 24], data@[n + 28], data@[n + 32], data@[n + 36]]);
        self.ram = ram;
        self.rtc.restore(&regs, latched, since);
        Ok(())
    }
}


impl MBC1 {
    /// The controller after a control write of `v` at `a`.
    pub open spec fn after_writerom(self, a: u16, v: u8) -> MBC1 {
        MBC1 {
            ram_on: if a < 0x2000 { v & 0x0F == 0x0A } else { self.ram_on },
            bank_low: if 0x2000 <= a < 0x4000 { if v % 32 == 0 { 1 } else { (v % 32) as usize } } else { self.bank_low },
            bank_high: if 0x4000 <= a < 0x6000 { (v % 4) as usize } else { self.bank_high },
            ram_mode: if 0x6000 <= a { v % 2 == 1 } else { self.ram_mode },
            ..self
        }
    }
}

impl MBC4 {
    /// The controller after a control write of `v` at `a`.
    pub open spec fn after_writerom(self, a: u16, v: u8) -> MBC4 {
        MBC4 {
            ram_on: if a < 0x2000 { v & 0x0F == 0x0A } else { self.ram_on },
            rombank: if 0x2000 <= a < 0x3000 {
                (((self.rombank / 256) * 256 + v as usize) % self.rombanks as int) as usize
            } else if 0x3000 <= a < 0x4000 {
                (((self.rombank % 256) + (v % 2) as usize * 256) % self.rombanks as int) as usize
            } else {
                self.rombank
            },
            rambank: if 0x4000 <= a < 0x6000 && self.rambanks > 0 {
                ((v % 16) as usize) % self.rambanks
            } else {
                self.rambank
            },
            ..self
        }
    }
}

impl Cartridge {
    pub open spec fn wf(&self) -> bool {
        match self {
            Cartridge::Plain(m) => m.wf(),
            Cartridge::Mbc1(m) => m.wf(),
            Cartridge::Mbc3(m) => m.wf(),
            Cartridge::Mbc4(m) => m.wf(),
        }
    }

    pub open spec fn spec_read_rom(&self, a: u16) -> u8 {
        match self {
            Cartridge::Plain(m) => m.rom@[a as int],
            Cartridge::Mbc1(m) => m.spec_read_rom(a),
            Cartridge::Mbc3(m) => m.spec_read_rom(a),
            Cartridge::Mbc4(m) => m.spec_read_rom(a),
        }
    }

    pub open spec fn spec_read_ram(&self, a: u16) -> u8 {
        match self {
            Cartridge::Plain(_) => 0xFF,
            Cartridge::Mbc1(m) => m.spec_read_ram(a),
            Cartridge::Mbc3(m) => m.spec_read_ram(a),
            Cartridge::Mbc4(m) => m.spec_read_ram(a),
        }
    }

    pub open spec fn spec_rom(&self) -> Seq<u8> {
        match self {
            Cartridge::Plain(m) => m.rom@,
            Cartridge::Mbc1(m) => m.rom@,
            Cartridge::Mbc3(m) => m.rom@,
            Cartridge::Mbc4(m) => m.rom@,
        }
    }

    /// Picks the controller named by header byte 0x147. The image must be as long as
    /// byte 0x148 says; unknown controller types are refused.
    pub fn new(data: Vec<u8>) -> (r: StrResult<Cartridge>)
        ensures
            data@.len() < HEADER_END ==> r.is_err(),
            r.is_ok() <==> (data@.len() >= HEADER_END && spec_rom_banks(data@[0x148]) >= 2
                && data@.len() == spec_rom_banks(data@[0x148]) * 0x4000
                && (data@[0x147] == 0 ==> data@.len() == 0x8000)
                && (data@[0x147] <= 0x03 || 0x0F <= data@[0x147] <= 0x13 || 0x19 <= data@[0x147] <= 0x1E)),
            r matches Ok(c) ==> c.wf() && c.spec_rom() == data@,
            r matches Ok(c) ==> (data@[0x147] == 0 <==> c is Plain) && (1 <= data@[0x147] <= 3 <==> c is Mbc1)
                && (0x0F <= data@[0x147] <= 0x13 <==> c is Mbc3) && (0x19 <= data@[0x147] <= 0x1E <==> c is Mbc4),
            r matches Ok(c) ==> (c matches Cartridge::Mbc1(m) ==> m.bank_low == 1 && m.bank_high == 0 && !m.ram_mode
                && !m.ram_on),
    {
        if data.len() < HEADER_END {
            return Err("ROM image is shorter than its header");
        }
        let kind = data[0x147];
        let rombanks = rom_banks(data[0x148]);
        if rombanks < 2 || data.len() != rombanks * 0x4000 {
            return Err("ROM size does not match its header");
        }
        if kind == 0x00 {
            if data.len() != 0x8000 {
                return Err("ROM size does not match its header");
            }
            Ok(Cartridge::Plain(MBC0 { rom: data }))
        } else if kind <= 0x03 {
            let rambanks = if kind == 0x02 || kind == 0x03 { ram_banks(data[0x149]) } else { 0 };
            let ram = vec![0u8; 0x2000 * rambanks];
            Ok(Cartridge::Mbc1(MBC1 {
                rom: data,
                ram,
                ram_on: false,
                ram_mode: false,
                bank_low: 1,
                bank_high: 0,
                ram_updated: false,
                has_battery: kind == 0x03,
                rombanks,
                rambanks,
            }))
        } else if 0x0F <= kind && kind <= 0x13 {
            let rambanks = if kind == 0x10 || kind == 0x12 || kind == 0x13 { ram_banks(data[0x149]) } else { 0 };
            let ram = vec![0u8; 0x2000 * rambanks];
            Ok(Cartridge::Mbc3(MBC3 {
                rom: data,
                ram,
                rombank: 1,
                ramsel: 0,
                ram_on: false,
                ram_updated: false,
                has_battery: kind == 0x0F || kind == 0x10 || kind == 0x13,
                has_rtc: kind == 0x0F || kind == 0x10,
                rombanks,
                rambanks,
                rtc: Rtc::new(),
            }))
        } else if 0x19 <= kind && kind <= 0x1E {
            match MBC4::new(data) {
                Ok(m) => Ok(Cartridge::Mbc4(m)),
                Err(e) => Err(e),
            }
        } else {
            Err("Unsupported MBC type")
        }
    }

    pub fn readrom(&self, a: u16) -> (r: u8)
        requires
            self.wf(),
            a < 0x8000,
        ensures
            r == self.spec_read_rom(a),
    {
        match self {
            Cartridge::Plain(m) => m.rom[a as usize],
            Cartridge::Mbc1(m) => m.readrom(a),
            Cartridge::Mbc3(m) => m.readrom(a),
            Cartridge::Mbc4(m) => m.readrom(a),
        }
    }

    pub fn readram(&self, a: u16) -> (r: u8)
        requires
            self.wf(),
            0xA000 <= a < 0xC000,
        ensures
            r == self.spec_read_ram(a),
    {
        match self {
            Cartridge::Plain(_) => 0xFF,
            Cartridge::Mbc1(m) => m.readram(a),
            Cartridge::Mbc3(m) => m.readram(a),
            Cartridge::Mbc4(m) => m.readram(a),
        }
    }

    pub fn writerom(&mut self, a: u16, v: u8)
        requires
            old(self).wf(),
            a < 0x8000,
        ensures
            final(self).wf(),
            final(self).spec_rom() == old(self).spec_rom(),
            *old(self) is Plain ==> *final(self) == *old(self),
            *old(self) matches Cartridge::Mbc1(m) ==> *final(self) == Cartridge::Mbc1(m.after_writerom(a, v)),
            *old(self) matches Cartridge::Mbc4(m) ==> *final(self) == Cartridge::Mbc4(m.after_writerom(a, v)),
            *old(self) matches Cartridge::Mbc3(m) ==> (*final(self) matches Cartridge::Mbc3(m1) && m1.ram_on == (if a
                < 0x2000 { v & 0x0F == 0x0A } else { m.ram_on }) && m1.rombank == (if 0x2000 <= a < 0x4000 {
                ((if v % 128 == 0 { 1 } else { v % 128 }) as int % m.rombanks as int) as usize
            } else {
                m.rombank
            }) && m1.ramsel == (if 0x4000 <= a < 0x6000 { v } else { m.ramsel }) && m1.ram == m.ram),
    {
        match self {
            Cartridge::Plain(_) => {},
            Cartridge::Mbc1(m) => m.writerom(a, v),
            Cartridge::Mbc3(m) => m.writerom(a, v),
            Cartridge::Mbc4(m) => m.writerom(a, v),
        }
    }

    pub fn writeram(&mut self, a: u16, v: u8)
        requires
            old(self).wf(),
            0xA000 <= a < 0xC000,
        ensures
            final(self).wf(),
            final(self).spec_rom() == old(self).spec_rom(),
            *old(self) is Plain ==> *final(self) == *old(self),
            *old(self) matches Cartridge::Mbc1(m) ==> (*final(self) matches Cartridge::Mbc1(m1) && (if m.ram_on
                && m.rambanks > 0 {
                m1 == (MBC1 { ram: m1.ram, ram_updated: true, ..m }) && m1.ram@ == m.ram@.update(
                    banked(m.ram_bank(), 0x2000, a as int - 0xA000),
                    v,
                )
            } else {
                m1 == (MBC1 { ram: m1.ram, ..m }) && m1.ram@ == m.ram@
            })),
            *old(self) matches Cartridge::Mbc4(m) ==> (*final(self) matches Cartridge::Mbc4(m1) && (if m.ram_on
                && m.rambanks > 0 {
                m1 == (MBC4 { ram: m1.ram, ram_updated: true, ..m }) && m1.ram@ == m.ram@.update(
                    banked(m.rambank, 0x2000, a as int - 0xA000),
                    v,
                )
            } else {
                m1 == (MBC4 { ram: m1.ram, ..m }) && m1.ram@ == m.ram@
            })),
            *old(self) matches Cartridge::Mbc3(m) ==> (*final(self) matches Cartridge::Mbc3(m1) && (m.ram_on && m.ramsel
                < 4 && m.rambanks > 0 ==> m1.ram@ == m.ram@.update(
                banked((m.ramsel as usize % m.rambanks) as usize, 0x2000, a as int - 0xA000),
                v,
            ))),
    {
        match self {
            Cartridge::Plain(_) => {},
            Cartridge::Mbc1(m) => m.writeram(a, v),
            Cartridge::Mbc3(m) => m.writeram(a, v),
            Cartridge::Mbc4(m) => m.writeram(a, v),
        }
    }

    pub open spec fn battery(&self) -> bool {
        match self {
            Cartridge::Plain(_) => false,
            Cartridge::Mbc1(m) => m.has_battery,
            Cartridge::Mbc3(m) => m.has_battery,
            Cartridge::Mbc4(m) => m.has_battery,
        }
    }

    /// Whether the cartridge keeps its RAM with a battery.
    pub fn is_battery_backed(&self) -> (r: bool)
        ensures
            r == self.battery(),
    {
        match self {
            Cartridge::Plain(_) => false,
            Cartridge::Mbc1(m) => m.has_battery,
            Cartridge::Mbc3(m) => m.has_battery,
            Cartridge::Mbc4(m) => m.has_battery,
        }
    }

    /// Whether RAM was written since the flag was last cleared.
    pub open spec fn dirty(&self) -> bool {
        match self {
            Cartridge::Plain(_) => false,
            Cartridge::Mbc1(m) => m.ram_updated,
            Cartridge::Mbc3(m) => m.ram_updated,
            Cartridge::Mbc4(m) => m.ram_updated,
        }
    }

    /// Lengths of save image the cartridge takes: its RAM, or for a clock cartridge
    /// its RAM and the clock state.
    pub open spec fn save_len_ok(&self, n: nat) -> bool {
        n == self.spec_ram().len() || (match self {
            Cartridge::Mbc3(m) => m.has_rtc && n == m.ram@.len() + RTC_SAVE_BYTES,
            _ => false,
        })
    }

    pub open spec fn spec_ram(&self) -> Seq<u8> {
        match self {
            Cartridge::Plain(_) => Seq::empty(),
            Cartridge::Mbc1(m) => m.ram@,
            Cartridge::Mbc3(m) => m.ram@,
            Cartridge::Mbc4(m) => m.ram@,
        }
    }

    /// The save image: the RAM, and for a clock cartridge the clock state after it.
    pub fn dumpram(&self) -> (r: Vec<u8>)
        requires
            self.wf(),
        ensures
            r@.subrange(0, self.spec_ram().len() as int) == self.spec_ram(),
            !(self is Mbc3) ==> r@ == self.spec_ram(),
    {
        match self {
            Cartridge::Plain(_) => {
                let r: Vec<u8> = Vec::new();
                assert(r@.subrange(0, 0) =~= Seq::<u8>::empty());
                r
            },
            Cartridge::Mbc1(m) => {
                let r = m.ram.clone();
                assert(r@.subrange(0, r@.len() as int) =~= r@);
                r
            },
            Cartridge::Mbc3(m) => m.dumpram(),
            Cartridge::Mbc4(m) => {
                let r = m.dumpram();
                assert(r@.subrange(0, r@.len() as int) =~= r@);
                r
            },
        }
    }

    /// Loads a save image; refused when its length does not fit the cartridge.
    pub fn loadram(&mut self, data: &Vec<u8>) -> (r: StrResult<()>)
        requires
            old(self).wf(),
        ensures
            final(self).wf(),
            final(self).spec_rom() == old(self).spec_rom(),
            r.is_ok() <==> old(self).save_len_ok(data@.len()),
            r.is_ok() ==> final(self).spec_ram() == data@.subrange(0, old(self).spec_ram().len() as int),
            r.is_err() ==> final(self).spec_ram() == old(self).spec_ram(),
    {
        match self {
            Cartridge::Plain(_) => {
                if data.len() == 0 {
                    assert(data@.subrange(0, 0) =~= Seq::<u8>::empty());
                    Ok(())
                } else {
                    Err("Loaded RAM has incorrect length")
                }
            },
            Cartridge::Mbc1(m) => {
                if data.len() != m.ram.len() {
                    return Err("Loaded RAM has incorrect length");
                }
                m.ram = data.clone();
                assert(data@.subrange(0, data@.len() as int) =~= data@);
                Ok(())
            },
            Cartridge::Mbc3(m) => m.loadram(data),
            Cartridge::Mbc4(m) => {
                let r = m.loadram(data);
                assert(data@.subrange(0, data@.len() as int) =~= data@);
                r
            },
        }
    }

    /// Whether RAM was written since the last call; clears the flag.
    pub fn check_and_reset_ram_updated(&mut self) -> (r: bool)
        requires
            old(self).wf(),
        ensures
            final(self).wf(),
            r == old(self).dirty(),
            !final(self).dirty(),
            final(self).spec_rom() == old(self).spec_rom(),
            final(self).spec_ram() == old(self).spec_ram(),
    {
        match self {
            Cartridge::Plain(_) => false,
            Cartridge::Mbc1(m) => {
                let r = m.ram_updated;
                m.ram_updated = false;
                r
            },
            Cartridge::Mbc3(m) => {
                let r = m.ram_updated;
                m.ram_updated = false;
                r
            },
            Cartridge::Mbc4(m) => m.check_and_reset_ram_updated(),
        }
    }

    /// Hands the wall-clock second to a cartridge clock.
    pub fn set_time(&mut self, now: u64)
        requires
            old(self).wf(),
        ensures
            final(self).wf(),
            !(*old(self) is Mbc3) ==> *final(self) == *old(self),
            *old(self) matches Cartridge::Mbc3(m0) ==> *final(self) == Cartridge::Mbc3(
                MBC3 { rtc: (Rtc { now, ..m0.rtc }), ..m0 },
            ),
            final(self).spec_rom() == old(self).spec_rom(),
            final(self).spec_ram() == old(self).spec_ram(),
    {
        match self {
            Cartridge::Mbc3(m) => m.rtc.set_time(now),
            _ => {},
        }
    }

    /// The title from header bytes 0x134-0x143, up to the first zero byte.
    pub fn title(&self) -> (r: Vec<u8>)
        requires
            self.wf(),
        ensures
            r@ == self.spec_rom().subrange(0x134, 0x134 + title_len(self.spec_rom(), 0) as int),
    {
        let mut out: Vec<u8> = Vec::new();
        let mut i: u16 = 0;
        while i < 16
            invariant
                self.wf(),
                i <= 16,
                out@ == self.spec_rom().subrange(0x134, 0x134 + i as int),
                title_len(self.spec_rom(), 0) == title_len(self.spec_rom(), i as nat),
            decreases 16 - i,
        {
            let b = self.readrom(0x134 + i);
            if b == 0 {
                return out;
            }
            out.push(b);
            i = i + 1;
            assert(out@ =~= self.spec_rom().subrange(0x134, 0x134 + i as int));
        }
        out
    }
}

} // verus!
