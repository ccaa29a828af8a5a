use vstd::prelude::*;
use crate::alu::sign_extend;
use crate::gbmode::GbMode;
use crate::instructions;
use crate::mbc::{Cartridge, StrResult};
use crate::mmu::{mmu_step, plain, word, MMU};
use crate::instructions::op_effect;
use crate::register::{pair, Registers};

verus! {

/// The processor: registers, bus, HALT state and the EI/DI delay counters.
pub struct CPU {
    pub reg: Registers,
    pub mmu: MMU,
    pub halted: bool,
    pub halt_bug: bool,
    pub ime: bool,
    pub setdi: u32,
    pub setei: u32,
}

/// Index (0-4) of the lowest set bit of a non-zero 5-bit interrupt mask.
pub open spec fn lowest_bit(t: u8) -> u8 {
    if t & 0x01 != 0 {
        0
    } else if t & 0x02 != 0 {
        1
    } else if t & 0x04 != 0 {
        2
    } else if t & 0x08 != 0 {
        3
    } else {
        4
    }
}

/// The processor after its opcode byte is fetched: PC moves on unless the HALT bug
/// holds it back, and the HALT bug is spent.
pub open spec fn after_fetch(c: CPU) -> CPU {
    CPU { reg: Registers { pc: if c.halt_bug { c.reg.pc } else { next16(c.reg.pc) }, ..c.reg }, halt_bug: false, ..c }
}

/// `a + k`, wrapping at 16 bits.
pub open spec fn add16(a: u16, k: int) -> u16 {
    ((a as int + k) % 65536) as u16
}

/// `c1` is `c` after entering the lowest pending interrupt: IME and HALT cleared, its IF
/// bit cleared, PC pushed and the vector 0x40 + 8 * bit loaded.
pub open spec fn entered(c: CPU, c1: CPU) -> bool {
    let n = lowest_bit(c.mmu.pending());
    let s = sp_down(c.reg.sp);
    &&& !c1.halted
    &&& !c1.ime
    &&& c1.reg == (Registers { pc: (0x0040 + 8 * n) as u16, sp: s, ..c.reg })
    &&& c1.halt_bug == c.halt_bug
    &&& c1.setdi == c.setdi && c1.setei == c.setei
    &&& c1.mmu.gbspeed == c.mmu.gbspeed
    &&& plain(s) && plain(next16(s)) ==> {
        &&& c1.mmu.intf == c.mmu.intf & !(1u8 << n) & 0x1F
        &&& c1.mmu.inte == c.mmu.inte
        &&& c1.mmu.ram() == c.mmu.ram().update(c.mmu.slot(s), (c.reg.pc % 256) as u8).update(
            c.mmu.slot(next16(s)),
            (c.reg.pc / 256) as u8,
        )
    }
}

/// The processor after the EI/DI delay counters step: 2 becomes 1; at 1 IME changes.
pub open spec fn ime_step(c: CPU) -> CPU {
    CPU {
        setdi: if c.setdi == 2 { 1 } else { 0 },
        setei: if c.setei == 2 { 1 } else { 0 },
        ime: if c.setei == 1 { true } else if c.setdi == 1 { false } else { c.ime },
        ..c
    }
}

/// One processor step from `c0`: the delay counters step; then a pending interrupt is
/// entered when IME is set (4 cycles); a halted processor with nothing pending idles
/// (1 cycle); otherwise (a pending interrupt ending HALT first) one instruction runs.
pub open spec fn step_effect(c0: CPU, c1: CPU, r: Result<u32, u8>) -> bool {
    let c = ime_step(c0);
    let p = c.mmu.pending();
    &&& c.ime && p != 0 ==> entered(c, c1) && r == Ok::<u32, u8>(4)
    &&& !(c.ime && p != 0) && c.halted && p == 0 ==> c1 == c && r == Ok::<u32, u8>(1)
    &&& !c.ime && c.halted && p != 0 ==> op_effect(
        after_fetch(CPU { halted: false, ..c }),
        c1,
        c.mmu.spec_rb(c.reg.pc),
        r,
    )
    &&& !c.halted && !(c.ime && p != 0) ==> op_effect(after_fetch(c), c1, c.mmu.spec_rb(c.reg.pc), r)
}

/// One step followed by the peripheral tick: an error is the illegal opcode, left
/// where it stands; `Ok(t)` means the peripherals saw `t` clocks, the step's machine
/// cycles times 4 divided by the speed factor (plus a VRAM transfer's time).
pub open spec fn cycle_effect(c0: CPU, c1: CPU, r: Result<u32, u8>) -> bool {
    &&& r is Err ==> step_effect(c0, c1, r)
    &&& r matches Ok(t) ==> exists|mid: CPU, n: u32|
        #![trigger step_effect(c0, mid, Ok::<u32, u8>(n))]
        {
            &&& step_effect(c0, mid, Ok::<u32, u8>(n))
            &&& 1 <= n <= 6
            &&& mmu_step(mid.mmu, c1.mmu, t)
            &&& c1 == (CPU { mmu: c1.mmu, ..mid })
            &&& t as int >= n as int * 4 / mid.mmu.gbspeed.spec_factor() as int
            &&& mid.mmu.hdma_status == crate::mmu::DMAType::NoDMA ==> t as int == n as int * 4 / mid.mmu.gbspeed.spec_factor() as int
        }
}

/// `sp` moved down by two, wrapping.
pub open spec fn sp_down(sp: u16) -> u16 {
    ((sp as int + 65534) % 65536) as u16
}

/// `sp` moved up by two, wrapping.
pub open spec fn sp_up(sp: u16) -> u16 {
    ((sp as int + 2) % 65536) as u16
}

pub open spec fn next16(a: u16) -> u16 {
    ((a as int + 1) % 65536) as u16
}

/// What a push of `x` does: SP down by two, `x` stored little-endian at the new SP
/// when both bytes land in plain RAM.
pub open spec fn push_effect(before: CPU, after: CPU, x: u16) -> bool {
    let sp = sp_down(before.reg.sp);
    &&& after.reg == (Registers { sp, ..before.reg })
    &&& plain(sp) && plain(next16(sp)) ==> {
        &&& after.mmu.ram() == before.mmu.ram().update(before.mmu.slot(sp), (x % 256) as u8).update(
            before.mmu.slot(next16(sp)),
            (x / 256) as u8,
        )
        &&& after.mmu.wrambank == before.mmu.wrambank
    }
}

/// What a pop does: SP up by two, the word at the old SP returned when it lies in plain RAM.
pub open spec fn pop_effect(before: CPU, after: CPU, r: u16) -> bool {
    &&& after.reg == (Registers { sp: sp_up(before.reg.sp), ..before.reg })
    &&& after.mmu == before.mmu
    &&& plain(before.reg.sp) && plain(next16(before.reg.sp)) ==> r == before.mmu.peek(before.reg.sp) as u16
        + before.mmu.peek(next16(before.reg.sp)) as u16 * 256
}

/// A push of `x` followed by a pop returns `x` and restores SP, wherever the two
/// stack bytes lie in plain RAM.
pub proof fn lemma_push_pop(c0: CPU, c1: CPU, c2: CPU, x: u16, r: u16)
    requires
        c0.wf(),
        push_effect(c0, c1, x),
        pop_effect(c1, c2, r),
        plain(sp_down(c0.reg.sp)),
        plain(next16(sp_down(c0.reg.sp))),
    ensures
        r == x,
        c2.reg.sp == c0.reg.sp,
        c2.reg == c0.reg,
{
    let sp = sp_down(c0.reg.sp);
    let sp1 = next16(sp);
    let s0 = c0.mmu.slot(sp);
    let s1 = c0.mmu.slot(sp1);
    let ram0 = c0.mmu.ram();
    assert(ram0.len() == 0x807F);
    assert(0 <= s0 < 0x807F && 0 <= s1 < 0x807F && s0 != s1);
    let ram1 = ram0.update(s0, (x % 256) as u8).update(s1, (x / 256) as u8);
    assert(c1.mmu.ram() == ram1);
    assert(c1.mmu.slot(sp) == s0 && c1.mmu.slot(sp1) == s1);
    assert(c1.mmu.peek(sp) == (x % 256) as u8);
    assert(c1.mmu.peek(sp1) == (x / 256) as u8);
    assert(c1.reg.sp == sp);
}

impl CPU {
    pub open spec fn wf(&self) -> bool {
        &&& self.reg.wf()
        &&& self.mmu.wf()
        &&& self.setdi <= 2
        &&& self.setei <= 2
    }

    /// A classic console around the cartridge.
    pub fn new(cart: Cartridge) -> (r: StrResult<CPU>)
        requires
            cart.wf(),
        ensures
            r.is_ok(),
            r matches Ok(c) ==> c.wf() && c.ime && !c.halted && !c.halt_bug && c.setdi == 0 && c.setei == 0
                && c.reg.pc == 0x0100 && c.reg.sp == 0xFFFE && c.mmu.gbmode == GbMode::Classic && c.mmu.mbc == cart,
    {
        match MMU::new(cart) {
            Ok(cpu_mmu) => {
                let registers = Registers::new(cpu_mmu.gbmode);
                Ok(CPU { reg: registers, halted: false, halt_bug: false, ime: true, setdi: 0, setei: 0, mmu: cpu_mmu })
            },
            Err(e) => Err(e),
        }
    }

    /// A color console around the cartridge.
    pub fn new_cgb(cart: Cartridge) -> (r: StrResult<CPU>)
        requires
            cart.wf(),
        ensures
            r.is_ok(),
            r matches Ok(c) ==> c.wf() && c.ime && !c.halted && !c.halt_bug && c.setdi == 0 && c.setei == 0
                && c.reg.pc == 0x0100 && c.reg.sp == 0xFFFE && c.mmu.gbmode != GbMode::Classic && c.mmu.mbc == cart,
    {
        match MMU::new_cgb(cart) {
            Ok(cpu_mmu) => {
                let registers = Registers::new(cpu_mmu.gbmode);
                Ok(CPU { reg: registers, halted: false, halt_bug: false, ime: true, setdi: 0, setei: 0, mmu: cpu_mmu })
            },
            Err(e) => Err(e),
        }
    }

    /// Runs one instruction (or interrupt entry, or HALT idle step) and then the
    /// peripherals; returns the clocks they saw, or the opcode that has no instruction.
    pub fn do_cycle(&mut self) -> (r: Result<u32, u8>)
        requires
            old(self).wf(),
        ensures
            final(self).wf(),
            final(self).reg.f & 0x0F == 0,
            r matches Err(op) ==> instructions::illegal(op),
            cycle_effect(*old(self), *final(self), r),
    {
        match self.docycle() {
            Ok(n) => {
                let ghost mid = *self;
                let ticks = n * 4;
                let t = self.mmu.do_cycle(ticks);
                assert(step_effect(*old(self), mid, Ok::<u32, u8>(n)));
                Ok(t)
            },
            Err(op) => Err(op),
        }
    }

    fn docycle(&mut self) -> (r: Result<u32, u8>)
        requires
            old(self).wf(),
        ensures
            final(self).wf(),
            r matches Ok(n) ==> 1 <= n <= 6,
            r matches Err(op) ==> instructions::illegal(op),
            step_effect(*old(self), *final(self), r),
    {
        self.updateime();
        let n = self.handleinterrupt();
        if n != 0 {
            return Ok(n);
        }
        if self.halted {
            Ok(1)
        } else {
            instructions::call(self)
        }
    }

    /// Reads the byte at PC; PC moves on unless the HALT bug holds it back once.
    pub fn fetchbyte(&mut self) -> (r: u8)
        requires
            old(self).wf(),
        ensures
            final(self).wf(),
            r == old(self).mmu.spec_rb(old(self).reg.pc),
            *final(self) == after_fetch(*old(self)),
            plain(old(self).reg.pc) ==> r == old(self).mmu.peek(old(self).reg.pc),
            old(self).reg.pc < 0x8000 ==> r == old(self).mmu.mbc.spec_read_rom(old(self).reg.pc),
    {
        let b = self.mmu.rb(self.reg.pc);
        if self.halt_bug {
            self.halt_bug = false;
        } else {
            self.reg.pc = self.reg.pc.wrapping_add(1);
        }
        b
    }

    /// Reads the little-endian word at PC and moves PC past it.
    pub fn fetchword(&mut self) -> (r: u16)
        requires
            old(self).wf(),
        ensures
            final(self).wf(),
            r == word(old(self).mmu, old(self).reg.pc),
            *final(self) == (CPU { reg: Registers { pc: add16(old(self).reg.pc, 2), ..old(self).reg }, ..*old(self) }),
    {
        let w = self.mmu.rw(self.reg.pc);
        self.reg.pc = self.reg.pc.wrapping_add(2);
        w
    }

    /// Steps the EI/DI delay counters: 2 becomes 1; at 1 IME changes and the counter clears.
    fn updateime(&mut self)
        requires
            old(self).wf(),
        ensures
            final(self).wf(),
            *final(self) == ime_step(*old(self)),
    {
        self.setdi = if self.setdi == 2 {
            1
        } else if self.setdi == 1 {
            self.ime = false;
            0
        } else {
            0
        };
        self.setei = if self.setei == 2 {
            1
        } else if self.setei == 1 {
            self.ime = true;
            0
        } else {
            0
        };
    }

    /// Services the lowest pending interrupt when IME is set; a pending interrupt also
    /// ends HALT. Returns the machine cycles spent (4 on entry, else 0).
    fn handleinterrupt(&mut self) -> (r: u32)
        requires
            old(self).wf(),
        ensures
            final(self).wf(),
            (!old(self).ime && !old(self).halted) || old(self).mmu.pending() == 0 ==> r == 0 && *final(self) == *old(self),
            old(self).mmu.pending() != 0 && !old(self).ime ==> r == 0 && *final(self) == (CPU { halted: false, ..*old(self) }),
            old(self).mmu.pending() != 0 && old(self).ime ==> entered(*old(self), *final(self)) && r == 4,
    {
        if !self.ime && !self.halted {
            return 0;
        }
        let triggered = self.mmu.inte & self.mmu.intf & 0x1F;
        if triggered == 0 {
            return 0;
        }
        self.halted = false;
        if !self.ime {
            return 0;
        }
        self.ime = false;
        let n: u8 = if triggered & 0x01 != 0 {
            0
        } else if triggered & 0x02 != 0 {
            1
        } else if triggered & 0x04 != 0 {
            2
        } else if triggered & 0x08 != 0 {
            3
        } else {
            4
        };
        let f = self.mmu.intf;
        self.mmu.wb(0xFF0F, f & !(1u8 << n));

        let pc = self.reg.pc;
        self.pushstack(pc);
        self.reg.pc = 0x0040 + 8 * n as u16;
        4
    }

    /// Pushes a word: SP moves down by two and the word is stored there.
    pub fn pushstack(&mut self, value: u16)
        requires
            old(self).wf(),
        ensures
            final(self).wf(),
            push_effect(*old(self), *final(self), value),
            *final(self) == (CPU { reg: final(self).reg, mmu: final(self).mmu, ..*old(self) }),
            plain(sp_down(old(self).reg.sp)) && plain(next16(sp_down(old(self).reg.sp))) ==> final(self).mmu == (MMU {
                wram: final(self).mmu.wram,
                zram: final(self).mmu.zram,
                ..old(self).mmu
            }),
            final(self).mmu.gbspeed == old(self).mmu.gbspeed,
    {
        self.reg.sp = self.reg.sp.wrapping_sub(2);
        self.mmu.ww(self.reg.sp, value);
    }

    /// Pops a word: read at SP, then SP moves up by two.
    pub fn popstack(&mut self) -> (r: u16)
        requires
            old(self).wf(),
        ensures
            final(self).wf(),
            pop_effect(*old(self), *final(self), r),
            r == word(old(self).mmu, old(self).reg.sp),
            *final(self) == (CPU { reg: Registers { sp: sp_up(old(self).reg.sp), ..old(self).reg }, ..*old(self) }),
    {
        let res = self.mmu.rw(self.reg.sp);
        self.reg.sp = self.reg.sp.wrapping_add(2);
        res
    }

    /// JR: adds the signed immediate to PC after fetching it.
    pub fn cpu_jr(&mut self)
        requires
            old(self).wf(),
        ensures
            final(self).wf(),
            ({
                let pc1 = if old(self).halt_bug { old(self).reg.pc } else { next16(old(self).reg.pc) };
                let b = old(self).mmu.spec_rb(old(self).reg.pc);
                *final(self) == (CPU {
                    reg: Registers { pc: add16(pc1, sign_extend(b) as int), ..old(self).reg },
                    halt_bug: false,
                    ..*old(self)
                })
            }),
    {
        let n = self.fetchbyte();
        let ext: u16 = if n >= 0x80 { n as u16 + 0xFF00 } else { n as u16 };
        self.reg.pc = self.reg.pc.wrapping_add(ext);
    }
}

} // verus!

verus! {

/// EI, then DI, then NOP, with any peripheral ticks between the steps: IME is off at
/// every point where a step could enter an interrupt, and after the three steps no
/// enable is pending, so a pending interrupt is never entered.
pub proof fn lemma_ei_di_blocks_entry(
    c0: CPU,
    c1: CPU,
    d1: CPU,
    c2: CPU,
    d2: CPU,
    c3: CPU,
    d3: CPU,
    r1: Result<u32, u8>,
    r2: Result<u32, u8>,
    r3: Result<u32, u8>,
)
    requires
        !c0.ime,
        c0.setei == 0,
        c0.setdi == 0,
        !c0.halted,
        !c0.halt_bug,
        c0.mmu.spec_rb(c0.reg.pc) == 0xFB,
        step_effect(c0, c1, r1),
        d1 == (CPU { mmu: d1.mmu, ..c1 }),
        d1.mmu.spec_rb(d1.reg.pc) == 0xF3,
        step_effect(d1, c2, r2),
        d2 == (CPU { mmu: d2.mmu, ..c2 }),
        d2.mmu.spec_rb(d2.reg.pc) == 0x00,
        step_effect(d2, c3, r3),
        d3 == (CPU { mmu: d3.mmu, ..c3 }),
    ensures
        !ime_step(c0).ime,
        !ime_step(d1).ime,
        !ime_step(d2).ime,
        !ime_step(d3).ime,
        ime_step(d3).setei == 0 && ime_step(d3).setdi == 0,
        r1 == Ok::<u32, u8>(1) && r2 == Ok::<u32, u8>(1) && r3 == Ok::<u32, u8>(1),
        c3.reg.pc == next16(next16(next16(c0.reg.pc))),
        c3.reg.sp == c0.reg.sp,
{
}

} // verus!
