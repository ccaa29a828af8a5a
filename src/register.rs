use vstd::prelude::*;
use crate::gbmode::GbMode;

verus! {

/// Bit of the zero flag in F.
pub const FLAG_Z: u8 = 0x80;
/// Bit of the subtract flag in F.
pub const FLAG_N: u8 = 0x40;
/// Bit of the half-carry flag in F.
pub const FLAG_H: u8 = 0x20;
/// Bit of the carry flag in F.
pub const FLAG_C: u8 = 0x10;

/// The flag byte that holds exactly the four given flags.
pub open spec fn pack_flags(z: bool, n: bool, h: bool, c: bool) -> u8 {
    (if z { 0x80u8 } else { 0u8 }) | (if n { 0x40u8 } else { 0u8 }) | (if h { 0x20u8 } else { 0u8 })
        | (if c { 0x10u8 } else { 0u8 })
}

pub open spec fn flag_z(f: u8) -> bool {
    f & 0x80 == 0x80
}

pub open spec fn flag_n(f: u8) -> bool {
    f & 0x40 == 0x40
}

pub open spec fn flag_h(f: u8) -> bool {
    f & 0x20 == 0x20
}

pub open spec fn flag_c(f: u8) -> bool {
    f & 0x10 == 0x10
}

/// A packed flag byte has a zero low nibble and reads back the flags it was made of.
pub proof fn lemma_pack_flags(z: bool, n: bool, h: bool, c: bool)
    ensures
        pack_flags(z, n, h, c) & 0x0F == 0,
        flag_z(pack_flags(z, n, h, c)) == z,
        flag_n(pack_flags(z, n, h, c)) == n,
        flag_h(pack_flags(z, n, h, c)) == h,
        flag_c(pack_flags(z, n, h, c)) == c,
{
    assert(pack_flags(z, n, h, c) & 0x0F == 0) by (bit_vector);
    assert(flag_z(pack_flags(z, n, h, c)) == z) by (bit_vector);
    assert(flag_n(pack_flags(z, n, h, c)) == n) by (bit_vector);
    assert(flag_h(pack_flags(z, n, h, c)) == h) by (bit_vector);
    assert(flag_c(pack_flags(z, n, h, c)) == c) by (bit_vector);
}

/// Builds the flag byte from the four flags.
pub fn make_flags(z: bool, n: bool, h: bool, c: bool) -> (r: u8)
    ensures
        r == pack_flags(z, n, h, c),
        r & 0x0F == 0,
        flag_z(r) == z,
        flag_n(r) == n,
        flag_h(r) == h,
        flag_c(r) == c,
{
    proof {
        lemma_pack_flags(z, n, h, c);
    }
    (if z { 0x80u8 } else { 0u8 }) | (if n { 0x40u8 } else { 0u8 }) | (if h { 0x20u8 } else { 0u8 })
        | (if c { 0x10u8 } else { 0u8 })
}

/// Big-endian pair of two 8-bit registers.
pub open spec fn pair(hi: u8, lo: u8) -> u16 {
    (hi as int * 256 + lo as int) as u16
}

/// The register file: eight 8-bit registers, stack pointer and program counter.
#[derive(Clone, Copy)]
pub struct Registers {
    pub a: u8,
    pub f: u8,
    pub b: u8,
    pub c: u8,
    pub d: u8,
    pub e: u8,
    pub h: u8,
    pub l: u8,
    pub sp: u16,
    pub pc: u16,
}

impl Registers {
    /// The low nibble of F is always zero.
    pub open spec fn wf(&self) -> bool {
        self.f & 0x0F == 0
    }

    pub open spec fn spec_hl(&self) -> u16 {
        pair(self.h, self.l)
    }

    /// The values the boot program leaves behind on each model.
    pub fn new(mode: GbMode) -> (r: Registers)
        ensures
            r.wf(),
            r.sp == 0xFFFE,
            r.pc == 0x0100,
            r.a == (if mode == GbMode::Classic { 0x01u8 } else { 0x11u8 }),
    {
        assert(0xB0u8 & 0x0F == 0 && 0x80u8 & 0x0F == 0) by (bit_vector);
        match mode {
            GbMode::Classic => Registers {
                a: 0x01, f: 0xB0, b: 0x00, c: 0x13, d: 0x00, e: 0xD8, h: 0x01, l: 0x4D,
                sp: 0xFFFE, pc: 0x0100,
            },
            GbMode::ColorAsClassic => Registers {
                a: 0x11, f: 0x80, b: 0x00, c: 0x00, d: 0x00, e: 0x08, h: 0x00, l: 0x7C,
                sp: 0xFFFE, pc: 0x0100,
            },
            GbMode::Color => Registers {
                a: 0x11, f: 0x80, b: 0x00, c: 0x00, d: 0xFF, e: 0x56, h: 0x00, l: 0x0D,
                sp: 0xFFFE, pc: 0x0100,
            },
        }
    }

    pub fn af(&self) -> (r: u16)
        ensures
            r == pair(self.a, self.f),
    {
        (self.a as u16) * 256 + self.f as u16
    }

    pub fn bc(&self) -> (r: u16)
        ensures
            r == pair(self.b, self.c),
    {
        (self.b as u16) * 256 + self.c as u16
    }

    pub fn de(&self) -> (r: u16)
        ensures
            r == pair(self.d, self.e),
    {
        (self.d as u16) * 256 + self.e as u16
    }

    pub fn hl(&self) -> (r: u16)
        ensures
            r == pair(self.h, self.l),
    {
        (self.h as u16) * 256 + self.l as u16
    }

    /// Writes AF; the low nibble of F is dropped.
    pub fn setaf(&mut self, v: u16)
        ensures
            *final(self) == (Registers { a: (v / 256) as u8, f: ((v % 256) as u8) & 0xF0, ..*old(self) }),
            final(self).wf(),
    {
        self.a = (v / 256) as u8;
        let lo = (v % 256) as u8;
        assert(lo & 0xF0 & 0x0F == 0) by (bit_vector);
        self.f = lo & 0xF0;
    }

    pub fn setbc(&mut self, v: u16)
        ensures
            *final(self) == (Registers { b: (v / 256) as u8, c: (v % 256) as u8, ..*old(self) }),
            pair(final(self).b, final(self).c) == v,
    {
        self.b = (v / 256) as u8;
        self.c = (v % 256) as u8;
    }

    pub fn setde(&mut self, v: u16)
        ensures
            *final(self) == (Registers { d: (v / 256) as u8, e: (v % 256) as u8, ..*old(self) }),
            pair(final(self).d, final(self).e) == v,
    {
        self.d = (v / 256) as u8;
        self.e = (v % 256) as u8;
    }

    pub fn sethl(&mut self, v: u16)
        ensures
            *final(self) == (Registers { h: (v / 256) as u8, l: (v % 256) as u8, ..*old(self) }),
            final(self).spec_hl() == v,
    {
        self.h = (v / 256) as u8;
        self.l = (v % 256) as u8;
    }

    /// Returns HL and then increments it.
    pub fn hli(&mut self) -> (r: u16)
        ensures
            r == old(self).spec_hl(),
            *final(self) == (Registers {
                h: ((r as int + 1) % 65536 / 256) as u8,
                l: ((r as int + 1) % 65536 % 256) as u8,
                ..*old(self)
            }),
    {
        let r = self.hl();
        self.sethl(r.wrapping_add(1));
        r
    }

    /// Returns HL and then decrements it.
    pub fn hld(&mut self) -> (r: u16)
        ensures
            r == old(self).spec_hl(),
            *final(self) == (Registers {
                h: ((r as int + 65535) % 65536 / 256) as u8,
                l: ((r as int + 65535) % 65536 % 256) as u8,
                ..*old(self)
            }),
    {
        let r = self.hl();
        self.sethl(r.wrapping_sub(1));
        r
    }
}

} // verus!
