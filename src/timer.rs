use vstd::prelude::*;

verus! {

/// TIMA after `k` increments starting from `c`, reloading `m` on each overflow.
pub open spec fn tima_after(c: u8, m: u8, k: nat) -> u8
    decreases k,
{
    if k == 0 {
        c
    } else {
        let p = tima_after(c, m, (k - 1) as nat);
        if p == 0xFF { m } else { (p + 1) as u8 }
    }
}

/// Whether any of the first `k` increments overflowed.
pub open spec fn tima_overflows(c: u8, m: u8, k: nat) -> bool
    decreases k,
{
    if k == 0 {
        false
    } else {
        tima_overflows(c, m, (k - 1) as nat) || tima_after(c, m, (k - 1) as nat) == 0xFF
    }
}

/// Master clocks between TIMA increments for the low two bits of TAC.
pub open spec fn spec_step(rate: u8) -> u32 {
    if rate % 4 == 1 {
        16
    } else if rate % 4 == 2 {
        64
    } else if rate % 4 == 3 {
        256
    } else {
        1024
    }
}

/// `t1` is `t0` advanced by `ticks` master clocks. DIV steps every 256 clocks; while
/// enabled, TIMA steps every `step` clocks, reloads TMA on overflow and raises bit 2.
pub open spec fn timer_step(t0: Timer, t1: Timer, ticks: u32) -> bool {
    &&& t1.modulo == t0.modulo
    &&& t1.enabled == t0.enabled
    &&& t1.step == t0.step
    &&& t1.internaldiv == (t0.internaldiv + ticks) % 256
    &&& t1.divider == ((t0.divider as int + (t0.internaldiv + ticks) / 256) % 256) as u8
    &&& t0.enabled ==> {
        let k = ((t0.internalcnt + ticks) / t0.step as int) as nat;
        &&& t1.internalcnt == (t0.internalcnt + ticks) % t0.step as int
        &&& t1.counter == tima_after(t0.counter, t0.modulo, k)
        &&& t1.interrupt == (if tima_overflows(t0.counter, t0.modulo, k) { t0.interrupt | 0x04 } else { t0.interrupt })
    }
    &&& !t0.enabled ==> t1.internalcnt == t0.internalcnt && t1.counter == t0.counter && t1.interrupt == t0.interrupt
}

/// The timer after `ticks` master clocks, as `timer_step` describes it.
pub open spec fn timer_next(t0: Timer, ticks: u32) -> Timer {
    let k = ((t0.internalcnt + ticks) / t0.step as int) as nat;
    Timer {
        internaldiv: ((t0.internaldiv + ticks) % 256) as u32,
        divider: ((t0.divider as int + (t0.internaldiv + ticks) / 256) % 256) as u8,
        internalcnt: if t0.enabled { ((t0.internalcnt + ticks) % t0.step as int) as u32 } else { t0.internalcnt },
        counter: if t0.enabled { tima_after(t0.counter, t0.modulo, k) } else { t0.counter },
        interrupt: if t0.enabled && tima_overflows(t0.counter, t0.modulo, k) { t0.interrupt | 0x04 } else { t0.interrupt },
        ..t0
    }
}

/// DIV, TIMA, TMA and TAC, with the clock remainders that drive them.
pub struct Timer {
    pub divider: u8,
    pub counter: u8,
    pub modulo: u8,
    pub enabled: bool,
    pub step: u32,
    pub internalcnt: u32,
    pub internaldiv: u32,
    pub interrupt: u8,
}

impl Timer {
    pub open spec fn wf(&self) -> bool {
        &&& (self.step == 16 || self.step == 64 || self.step == 256 || self.step == 1024)
        &&& self.internalcnt < self.step
        &&& self.internaldiv < 256
    }

    pub fn new() -> (r: Timer)
        ensures
            r.wf(),
            r.divider == 0 && r.counter == 0 && r.modulo == 0 && !r.enabled && r.interrupt == 0,
    {
        Timer {
            divider: 0,
            counter: 0,
            modulo: 0,
            enabled: false,
            step: 1024,
            internalcnt: 0,
            internaldiv: 0,
            interrupt: 0,
        }
    }

    pub open spec fn spec_rb(&self, a: u16) -> u8 {
        if a == 0xFF04 {
            self.divider
        } else if a == 0xFF05 {
            self.counter
        } else if a == 0xFF06 {
            self.modulo
        } else {
            (0xF8u8 | (if self.enabled { 0x04u8 } else { 0u8 }) | (if self.step == 16 {
                1u8
            } else if self.step == 64 {
                2u8
            } else if self.step == 256 {
                3u8
            } else {
                0u8
            })) as u8
        }
    }

    /// Reads DIV, TIMA, TMA or TAC (0xFF04-0xFF07).
    pub fn rb(&self, a: u16) -> (r: u8)
        ensures
            r == self.spec_rb(a),
    {
        if a == 0xFF04 {
            self.divider
        } else if a == 0xFF05 {
            self.counter
        } else if a == 0xFF06 {
            self.modulo
        } else {
            let rate: u8 = if self.step == 16 {
                1
            } else if self.step == 64 {
                2
            } else if self.step == 256 {
                3
            } else {
                0
            };
            0xF8u8 | (if self.enabled { 0x04u8 } else { 0u8 }) | rate
        }
    }

    /// Writes DIV (any value resets it), TIMA, TMA or TAC.
    pub fn wb(&mut self, a: u16, v: u8)
        requires
            old(self).wf(),
        ensures
            final(self).wf(),
            final(self).interrupt == old(self).interrupt,
            final(self).divider == (if a == 0xFF04 { 0 } else { old(self).divider }),
            final(self).counter == (if a == 0xFF05 { v } else { old(self).counter }),
            final(self).modulo == (if a == 0xFF06 { v } else { old(self).modulo }),
            a == 0xFF07 ==> final(self).enabled == (v & 0x04 != 0) && final(self).step == spec_step(v),
            a != 0xFF07 ==> final(self).enabled == old(self).enabled && final(self).step == old(self).step,
    {
        if a == 0xFF04 {
            self.divider = 0;
        } else if a == 0xFF05 {
            self.counter = v;
        } else if a == 0xFF06 {
            self.modulo = v;
        } else if a == 0xFF07 {
            self.enabled = v & 0x04 != 0;
            self.step = if v % 4 == 1 {
                16
            } else if v % 4 == 2 {
                64
            } else if v % 4 == 3 {
                256
            } else {
                1024
            };
            if self.internalcnt >= self.step {
                self.internalcnt = self.internalcnt % self.step;
            }
        }
    }

    /// Advances the timer by `ticks` master clocks. DIV steps every 256 clocks; while
    /// enabled, TIMA steps every `step` clocks, reloads TMA on overflow and raises bit 2.
    pub fn do_cycle(&mut self, ticks: u32)
        requires
            old(self).wf(),
        ensures
            final(self).wf(),
            timer_step(*old(self), *final(self), ticks),
            *final(self) == timer_next(*old(self), ticks),
    {
        let total_div: u64 = self.internaldiv as u64 + ticks as u64;
        self.divider = ((self.divider as u64 + total_div / 256) % 256) as u8;
        self.internaldiv = (total_div % 256) as u32;
        assert(self.internaldiv == (old(self).internaldiv + ticks) % 256);
        assert(self.divider == ((old(self).divider as int + (old(self).internaldiv + ticks) / 256) % 256) as u8);
        if self.enabled {
            let total: u64 = self.internalcnt as u64 + ticks as u64;
            let steps: u64 = total / self.step as u64;
            self.internalcnt = (total % self.step as u64) as u32;
            let c0 = self.counter;
            let i0 = self.interrupt;
            let m = self.modulo;
            let mut counter = c0;
            let mut intr = i0;
            let mut n: u64 = 0;
            while n < steps
                invariant
                    n <= steps,
                    counter == tima_after(c0, m, n as nat),
                    intr == (if tima_overflows(c0, m, n as nat) { i0 | 0x04 } else { i0 }),
                decreases steps - n,
            {
                if counter == 0xFF {
                    counter = m;
                    proof {
                        if tima_overflows(c0, m, n as nat) {
                            assert((i0 | 0x04) | 0x04 == i0 | 0x04) by (bit_vector);
                        }
                    }
                    intr = intr | 0x04;
                } else {
                    counter = counter + 1;
                }
                n = n + 1;
            }
            self.counter = counter;
            self.interrupt = intr;
        }
    }
}

} // verus!
