use vstd::prelude::*;

verus! {

/// Seconds in one day.
pub const DAY_SECS: u64 = 86400;
/// Seconds the day counter can hold before it wraps: 512 days.
pub const RTC_PERIOD: u64 = 44236800;

/// The five clock registers for a count of seconds: seconds, minutes, hours, day low
/// byte, and the day-high byte (day bit 8, halt bit 6, carry bit 7).
pub open spec fn rtc_regs(t: nat, halted: bool, carry: bool) -> Seq<u8> {
    let d = t / 86400;
    seq![
        (t % 60) as u8,
        ((t / 60) % 60) as u8,
        ((t / 3600) % 24) as u8,
        (d % 256) as u8,
        (((d / 256) % 2) + (if halted { 0x40int } else { 0 }) + (if carry { 0x80int } else { 0 })) as u8,
    ]
}

/// Seconds counted by the registers `r` (seconds, minutes, hours, day low, day high).
pub open spec fn rtc_total(s: u8, m: u8, h: u8, dl: u8, dh: u8) -> nat {
    ((s % 60) as int + (m % 60) as int * 60 + (h % 24) as int * 3600 + ((dh % 2) as int * 256 + dl as int) * 86400) as nat
}

/// The cartridge clock: a count of seconds that runs with wall time unless halted.
pub struct Rtc {
    /// Count at the instant `since`.
    pub base: u64,
    /// Wall-clock second at which `base` was taken.
    pub since: u64,
    /// Wall-clock second last handed in.
    pub now: u64,
    pub halted: bool,
    pub carry: bool,
    pub latched: Vec<u8>,
    pub latch_armed: bool,
}

impl Rtc {
    pub open spec fn wf(&self) -> bool {
        &&& self.base < RTC_PERIOD
        &&& self.latched@.len() == 5
    }

    /// Count now, and whether the day counter passed 511 days since `since`.
    pub open spec fn current(&self) -> (nat, bool) {
        if self.halted || self.now <= self.since {
            (self.base as nat, self.carry)
        } else {
            let e = (self.now - self.since) as nat;
            (((self.base + e) % RTC_PERIOD as int) as nat, self.carry || self.base + e >= RTC_PERIOD)
        }
    }

    pub fn new() -> (r: Rtc)
        ensures
            r.wf(),
            r.base == 0 && r.since == 0 && r.now == 0 && !r.halted && !r.carry,
    {
        Rtc { base: 0, since: 0, now: 0, halted: false, carry: false, latched: vec![0u8; 5], latch_armed: false }
    }

    fn count_now(&self) -> (r: (u64, bool))
        requires
            self.wf(),
        ensures
            r.0 as nat == self.current().0,
            r.1 == self.current().1,
            r.0 < RTC_PERIOD,
    {
        if self.halted || self.now <= self.since {
            (self.base, self.carry)
        } else {
            let e = self.now - self.since;
            let wrapped = e >= RTC_PERIOD - self.base;
            let t = ((self.base as u128 + e as u128) % RTC_PERIOD as u128) as u64;
            (t, self.carry || wrapped)
        }
    }

    /// The registers as they stand now.
    pub fn registers(&self) -> (r: Vec<u8>)
        requires
            self.wf(),
        ensures
            r@ == rtc_regs(self.current().0, self.halted, self.current().1),
    {
        let (t, carry) = self.count_now();
        let d = t / DAY_SECS;
        let mut r: Vec<u8> = Vec::new();
        r.push((t % 60) as u8);
        r.push(((t / 60) % 60) as u8);
        r.push(((t / 3600) % 24) as u8);
        r.push((d % 256) as u8);
        r.push((((d / 256) % 2) + (if self.halted { 0x40 } else { 0 }) + (if carry { 0x80 } else { 0 })) as u8);
        assert(r@ =~= rtc_regs(t as nat, self.halted, carry));
        r
    }

    /// Write to the latch register: a 0 then a 1 copies the running registers.
    pub fn write_latch(&mut self, v: u8)
        requires
            old(self).wf(),
        ensures
            final(self).wf(),
            final(self).latch_armed == (v == 0),
            old(self).latch_armed && v == 1 ==> final(self).latched@ == rtc_regs(
                old(self).current().0,
                old(self).halted,
                old(self).current().1,
            ),
            !(old(self).latch_armed && v == 1) ==> final(self).latched@ == old(self).latched@,
            final(self).base == old(self).base && final(self).since == old(self).since,
            final(self).halted == old(self).halted && final(self).carry == old(self).carry,
            final(self).now == old(self).now,
    {
        if self.latch_armed && v == 1 {
            self.latched = self.registers();
        }
        self.latch_armed = v == 0;
    }

    /// Write to clock register `sel` (0-4): the count restarts from the edited registers.
    pub fn write_reg(&mut self, sel: u8, v: u8)
        requires
            old(self).wf(),
            sel < 5,
        ensures
            final(self).wf(),
            final(self).since == old(self).now,
            final(self).now == old(self).now,
            final(self).latched == old(self).latched,
            ({
                let r = rtc_regs(old(self).current().0, old(self).halted, old(self).current().1).update(sel as int, v);
                &&& final(self).base as nat == rtc_total(r[0], r[1], r[2], r[3], r[4])
                &&& final(self).halted == (r[4] & 0x40 != 0)
                &&& final(self).carry == (r[4] & 0x80 != 0)
            }),
    {
        let mut r = self.registers();
        r.set(sel as usize, v);
        let s = r[0] % 60;
        let m = r[1] % 60;
        let h = r[2] % 24;
        let days: u64 = (r[4] % 2) as u64 * 256 + r[3] as u64;
        assert(days * 86400 + 86399 < RTC_PERIOD) by (nonlinear_arith)
            requires
                days < 512,
        ;
        self.base = s as u64 + m as u64 * 60 + h as u64 * 3600 + days * DAY_SECS;
        self.halted = r[4] & 0x40 != 0;
        self.carry = r[4] & 0x80 != 0;
        self.since = self.now;
    }

    /// Hands in the wall-clock second; a clock that runs keeps counting from `since`.
    pub fn set_time(&mut self, now: u64)
        ensures
            *final(self) == (Rtc { now, ..*old(self) }),
    {
        self.now = now;
    }
    /// Restores a saved clock: registers `r` counted from wall-clock second `since`.
    pub fn restore(&mut self, r: &Vec<u8>, latched: Vec<u8>, since: u64)
        requires
            r@.len() == 5,
            latched@.len() == 5,
        ensures
            final(self).wf(),
            final(self).base as nat == rtc_total(r@[0], r@[1], r@[2], r@[3], r@[4]),
            final(self).halted == (r@[4] & 0x40 != 0),
            final(self).carry == (r@[4] & 0x80 != 0),
            final(self).since == since,
            final(self).latched@ == latched@,
            final(self).now == old(self).now,
    {
        let s = r[0] % 60;
        let m = r[1] % 60;
        let h = r[2] % 24;
        let days: u64 = (r[4] % 2) as u64 * 256 + r[3] as u64;
        assert(days * 86400 + 86399 < RTC_PERIOD) by (nonlinear_arith)
            requires
                days < 512,
        ;
        self.base = s as u64 + m as u64 * 60 + h as u64 * 3600 + days * DAY_SECS;
        self.halted = r[4] & 0x40 != 0;
        self.carry = r[4] & 0x80 != 0;
        self.since = since;
        self.latched = latched;
    }
}

} // verus!
