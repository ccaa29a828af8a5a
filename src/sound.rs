use vstd::prelude::*;

verus! {

/// Master clocks per second.
pub const CLOCK_RATE: u32 = 4194304;
/// Master clocks per frame-sequencer step (512 Hz).
pub const FS_PERIOD: u32 = 8192;

/// One tone generator: the fields that pulse, wave and noise channels use.
pub struct Channel {
    pub enabled: bool,
    pub dac_on: bool,
    pub length: u32,
    pub length_enabled: bool,
    pub volume: u8,
    pub env_period: u8,
    pub env_up: bool,
    pub env_timer: u8,
    pub freq: u32,
    pub timer: u32,
    pub duty: u8,
    pub duty_pos: u8,
    pub sweep_period: u8,
    pub sweep_down: bool,
    pub sweep_shift: u8,
    pub sweep_timer: u8,
    pub lfsr: u16,
    pub pos: u8,
}

impl Channel {
    pub open spec fn wf(&self) -> bool {
        &&& self.length <= 256
        &&& self.volume <= 15
        &&& self.env_period <= 7
        &&& self.freq <= 2047
        &&& self.timer <= 112 * 32768
        &&& self.duty <= 3
        &&& self.duty_pos < 8
        &&& self.sweep_period <= 7
        &&& self.sweep_shift <= 7
        &&& self.lfsr <= 0x7FFF
        &&& self.pos < 32
    }

    pub fn new() -> (r: Channel)
        ensures
            r.wf(),
            !r.enabled,
    {
        Channel {
            enabled: false,
            dac_on: false,
            length: 0,
            length_enabled: false,
            volume: 0,
            env_period: 0,
            env_up: false,
            env_timer: 0,
            freq: 0,
            timer: 0,
            duty: 0,
            duty_pos: 0,
            sweep_period: 0,
            sweep_down: false,
            sweep_shift: 0,
            sweep_timer: 0,
            lfsr: 0x7FFF,
            pos: 0,
        }
    }

    /// Length counter tick: an enabled counter that runs out silences the channel.
    fn clock_length(&mut self)
        requires
            old(self).wf(),
        ensures
            final(self).wf(),
            old(self).length_enabled && old(self).length > 0 ==> final(self).length == old(self).length - 1
                && (final(self).length == 0 ==> !final(self).enabled),
            !(old(self).length_enabled && old(self).length > 0) ==> *final(self) == *old(self),
    {
        if self.length_enabled && self.length > 0 {
            self.length = self.length - 1;
            if self.length == 0 {
                self.enabled = false;
            }
        }
    }

    /// Envelope tick: every `env_period` ticks the volume moves one step toward 15 or 0.
    fn clock_envelope(&mut self)
        requires
            old(self).wf(),
        ensures
            final(self).wf(),
            old(self).env_period == 0 || old(self).env_timer > 1 ==> final(self).volume == old(self).volume,
            old(self).env_period != 0 && old(self).env_timer <= 1 ==> {
                &&& final(self).env_timer == old(self).env_period
                &&& final(self).volume == (if old(self).env_up && old(self).volume < 15 {
                    (old(self).volume + 1) as u8
                } else if !old(self).env_up && old(self).volume > 0 {
                    (old(self).volume - 1) as u8
                } else {
                    old(self).volume
                })
            },
            final(self).enabled == old(self).enabled && final(self).freq == old(self).freq,
    {
        if self.env_period == 0 {
            return;
        }
        if self.env_timer > 1 {
            self.env_timer = self.env_timer - 1;
            return;
        }
        self.env_timer = self.env_period;
        if self.env_up && self.volume < 15 {
            self.volume = self.volume + 1;
        } else if !self.env_up && self.volume > 0 {
            self.volume = self.volume - 1;
        }
    }

    /// Sweep tick of the first pulse channel; a frequency past 2047 silences it.
    fn clock_sweep(&mut self)
        requires
            old(self).wf(),
        ensures
            final(self).wf(),
            final(self).volume == old(self).volume,
            old(self).sweep_period != 0 && old(self).sweep_timer <= 1 ==> {
                let delta = old(self).freq >> old(self).sweep_shift;
                let next = if old(self).sweep_down { old(self).freq - delta } else { old(self).freq + delta };
                &&& next > 2047 ==> !final(self).enabled && final(self).freq == old(self).freq
                &&& next <= 2047 ==> final(self).enabled == old(self).enabled && final(self).freq == (if old(self).sweep_shift
                    != 0 { next as u32 } else { old(self).freq })
            },
            !(old(self).sweep_period != 0 && old(self).sweep_timer <= 1) ==> final(self).freq == old(self).freq
                && final(self).enabled == old(self).enabled,
    {
        if self.sweep_period == 0 {
            return;
        }
        if self.sweep_timer > 1 {
            self.sweep_timer = self.sweep_timer - 1;
            return;
        }
        self.sweep_timer = self.sweep_period;
        let f = self.freq;
        let sh = self.sweep_shift;
        assert(f >> sh <= f) by (bit_vector);
        let delta = f >> sh;
        let next = if self.sweep_down { self.freq - delta } else { self.freq + delta };
        if next > 2047 {
            self.enabled = false;
        } else if self.sweep_shift != 0 {
            self.freq = next;
        }
    }
}

/// Clocks between steps of a pulse channel's waveform.
pub open spec fn pulse_period(freq: u32) -> u32 {
    ((2048 - freq) * 4) as u32
}

/// Clocks between samples of the wave channel.
pub open spec fn wave_period(freq: u32) -> u32 {
    ((2048 - freq) * 2) as u32
}

pub open spec fn min_int(a: int, b: int) -> int {
    if a < b { a } else { b }
}

/// Adding `y` (less than `d`) to `x`: the quotient by `d` grows by one exactly when the
/// remainder overflows.
proof fn lemma_div_step(x: int, y: int, d: int)
    requires
        x >= 0,
        0 < y < d,
    ensures
        (x + y) / d == x / d + (if x % d + y >= d { 1int } else { 0 }),
        (x + y) % d == (if x % d + y >= d { x % d + y - d } else { x % d + y }),
{
    vstd::arithmetic::div_mod::lemma_fundamental_div_mod(x, d);
    vstd::arithmetic::div_mod::lemma_mod_bound(x, d);
    let q = x / d + (if x % d + y >= d { 1int } else { 0 });
    let r = if x % d + y >= d { x % d + y - d } else { x % d + y };
    assert(x + y == q * d + r) by (nonlinear_arith)
        requires
            x == d * (x / d) + x % d,
            q == x / d + (if x % d + y >= d { 1int } else { 0 }),
            r == (if x % d + y >= d { x % d + y - d } else { x % d + y }),
    ;
    vstd::arithmetic::div_mod::lemma_fundamental_div_mod_converse(x + y, d, q, r);
}

/// The sound unit: registers 0xFF10-0xFF3F, four channels, frame sequencer, mixer.
pub struct Sound {
    pub on: bool,
    pub regs: Vec<u8>,
    pub ch1: Channel,
    pub ch2: Channel,
    pub ch3: Channel,
    pub ch4: Channel,
    pub fs_timer: u32,
    pub fs_step: u8,
    pub output: bool,
    pub sample_rate: u32,
    pub sample_timer: u64,
    pub left: Vec<i16>,
    pub right: Vec<i16>,
}

impl Sound {
    pub open spec fn wf(&self) -> bool {
        &&& self.regs@.len() == 0x30
        &&& self.ch1.wf() && self.ch2.wf() && self.ch3.wf() && self.ch4.wf()
        &&& self.fs_timer < FS_PERIOD
        &&& self.fs_step < 8
        &&& self.sample_rate <= 192000
        &&& self.sample_timer < CLOCK_RATE
        &&& self.left@.len() == self.right@.len()
        &&& self.left@.len() <= self.sample_rate
    }

    pub fn new() -> (r: Sound)
        ensures
            r.wf(),
            !r.output,
            r.left@.len() == 0,
    {
        Sound {
            on: false,
            regs: vec![0u8; 0x30],
            ch1: Channel::new(),
            ch2: Channel::new(),
            ch3: Channel::new(),
            ch4: Channel::new(),
            fs_timer: 0,
            fs_step: 0,
            output: false,
            sample_rate: 0,
            sample_timer: 0,
            left: Vec::new(),
            right: Vec::new(),
        }
    }

    /// Starts producing samples at `rate` per second (at most 192000), keeping at most
    /// one second of them until they are taken.
    pub fn enable_output(&mut self, rate: u32)
        requires
            old(self).wf(),
            rate <= 192000,
        ensures
            final(self).wf(),
            final(self).output,
            final(self).sample_rate == rate,
            final(self).left@.len() == 0,
    {
        self.output = true;
        self.sample_rate = rate;
        self.sample_timer = 0;
        self.left = Vec::new();
        self.right = Vec::new();
    }

    /// Hands out the samples made so far, left and right, and empties the buffers.
    pub fn take_samples(&mut self) -> (r: (Vec<i16>, Vec<i16>))
        requires
            old(self).wf(),
        ensures
            final(self).wf(),
            r.0@ == old(self).left@,
            r.1@ == old(self).right@,
            final(self).left@.len() == 0,
    {
        let mut l: Vec<i16> = Vec::new();
        let mut r: Vec<i16> = Vec::new();
        core::mem::swap(&mut self.left, &mut l);
        core::mem::swap(&mut self.right, &mut r);
        (l, r)
    }

    /// What a read of register `a` returns: NR52 shows power and the running channels.
    pub open spec fn spec_rb(&self, a: u16) -> u8 {
        if a == 0xFF26 {
            (if self.on { 0x80u8 } else { 0u8 }) | 0x70 | (if self.ch1.enabled { 1u8 } else { 0u8 }) | (if self.ch2.enabled {
                2u8
            } else {
                0u8
            }) | (if self.ch3.enabled { 4u8 } else { 0u8 }) | (if self.ch4.enabled { 8u8 } else { 0u8 })
        } else {
            self.regs@[a - 0xFF10]
        }
    }

    /// Reads a sound register or wave RAM (0xFF10-0xFF3F).
    pub fn rb(&self, a: u16) -> (r: u8)
        requires
            self.wf(),
            0xFF10 <= a < 0xFF40,
        ensures
            r == self.spec_rb(a),
            a != 0xFF26 ==> r == self.regs@[a - 0xFF10],
    {
        if a == 0xFF26 {
            (if self.on { 0x80u8 } else { 0u8 }) | 0x70 | (if self.ch1.enabled { 1u8 } else { 0u8 }) | (if self.ch2.enabled {
                2u8
            } else {
                0u8
            }) | (if self.ch3.enabled { 4u8 } else { 0u8 }) | (if self.ch4.enabled { 8u8 } else { 0u8 })
        } else {
            self.regs[a as usize - 0xFF10]
        }
    }

    /// Writes a sound register or wave RAM. While the unit is off only NR52 and wave
    /// RAM take writes; switching it off clears every register.
    pub fn wb(&mut self, a: u16, v: u8)
        requires
            old(self).wf(),
            0xFF10 <= a < 0xFF40,
        ensures
            final(self).wf(),
            final(self).sample_rate == old(self).sample_rate,
            final(self).output == old(self).output,
            final(self).left@.len() == old(self).left@.len(),
            a == 0xFF26 ==> final(self).on == (v & 0x80 != 0),
            0xFF30 <= a ==> final(self).regs@[a - 0xFF10] == v,
            old(self).on && a != 0xFF26 ==> final(self).regs@[a - 0xFF10] == v,
    {
        if a == 0xFF26 {
            let on = v & 0x80 != 0;
            if self.on && !on {
                let mut i: usize = 0;
                while i < 0x20
                    invariant
                        self.regs@.len() == 0x30,
                        i <= 0x20,
                        *self == (Sound { regs: self.regs, ..*old(self) }),
                    decreases 0x20 - i,
                {
                    self.regs.set(i, 0);
                    i = i + 1;
                }
                self.ch1 = Channel::new();
                self.ch2 = Channel::new();
                self.ch3 = Channel::new();
                self.ch4 = Channel::new();
            }
            if !self.on && on {
                self.fs_step = 0;
                self.fs_timer = 0;
            }
            self.on = on;
            self.regs.set(0x16, v);
            return;
        }
        if a >= 0xFF30 {
            self.regs.set(a as usize - 0xFF10, v);
            return;
        }
        if !self.on {
            return;
        }
        self.regs.set(a as usize - 0xFF10, v);
        match a {
            0xFF10 => {
                self.ch1.sweep_period = (v / 16) % 8;
                self.ch1.sweep_down = v & 0x08 != 0;
                self.ch1.sweep_shift = v % 8;
            },
            0xFF11 => {
                self.ch1.duty = v / 64;
                self.ch1.length = 64 - (v % 64) as u32;
            },
            0xFF12 => Sound::write_envelope(&mut self.ch1, v),
            0xFF13 => self.ch1.freq = (self.ch1.freq / 256) * 256 + v as u32,
            0xFF14 => {
                let p = pulse_period_of((self.ch1.freq % 256) + (v % 8) as u32 * 256);
                Sound::write_high(&mut self.ch1, v, 64, p);
            },
            0xFF16 => {
                self.ch2.duty = v / 64;
                self.ch2.length = 64 - (v % 64) as u32;
            },
            0xFF17 => Sound::write_envelope(&mut self.ch2, v),
            0xFF18 => self.ch2.freq = (self.ch2.freq / 256) * 256 + v as u32,
            0xFF19 => {
                let p = pulse_period_of((self.ch2.freq % 256) + (v % 8) as u32 * 256);
                Sound::write_high(&mut self.ch2, v, 64, p);
            },
            0xFF1A => {
                self.ch3.dac_on = v & 0x80 != 0;
                if !self.ch3.dac_on {
                    self.ch3.enabled = false;
                }
            },
            0xFF1B => self.ch3.length = 256 - v as u32,
            0xFF1D => self.ch3.freq = (self.ch3.freq / 256) * 256 + v as u32,
            0xFF1E => {
                let dac = self.ch3.dac_on;
                let p = wave_period_of((self.ch3.freq % 256) + (v % 8) as u32 * 256);
                Sound::write_high(&mut self.ch3, v, 256, p);
                self.ch3.dac_on = dac;
                if v & 0x80 != 0 {
                    self.ch3.enabled = dac;
                }
            },
            0xFF20 => self.ch4.length = 64 - (v % 64) as u32,
            0xFF21 => Sound::write_envelope(&mut self.ch4, v),
            0xFF23 => {
                let nr43 = self.regs[0x12];
                Sound::write_high(&mut self.ch4, v, 64, noise_period_of(nr43));
            },
            _ => {},
        }
    }

    fn write_envelope(ch: &mut Channel, v: u8)
        requires
            old(ch).wf(),
        ensures
            final(ch).wf(),
    {
        ch.volume = v / 16;
        ch.env_up = v & 0x08 != 0;
        ch.env_period = v % 8;
        ch.dac_on = v & 0xF8 != 0;
        if !ch.dac_on {
            ch.enabled = false;
        }
    }

    /// NRx4: frequency high bits, length enable, and trigger (bit 7).
    fn write_high(ch: &mut Channel, v: u8, full_length: u32, period: u32)
        requires
            old(ch).wf(),
            full_length <= 256,
            period <= 112 * 32768,
        ensures
            final(ch).wf(),
    {
        ch.freq = (ch.freq % 256) + (v % 8) as u32 * 256;
        ch.length_enabled = v & 0x40 != 0;
        if v & 0x80 != 0 {
            ch.enabled = ch.dac_on;
            if ch.length == 0 {
                ch.length = full_length;
            }
            ch.timer = period;
            ch.env_timer = ch.env_period;
            ch.sweep_timer = ch.sweep_period;
            ch.lfsr = 0x7FFF;
            ch.pos = 0;
        }
    }

    /// Advances the unit by `ticks` master clocks; when output is on, emits one stereo
    /// sample every CLOCK_RATE / sample_rate clocks, dropping samples past one second.
    pub fn do_cycle(&mut self, ticks: u32)
        requires
            old(self).wf(),
        ensures
            final(self).wf(),
            final(self).regs == old(self).regs,
            final(self).on == old(self).on,
            final(self).output == old(self).output,
            final(self).sample_rate == old(self).sample_rate,
            final(self).left@.len() >= old(self).left@.len(),
            !old(self).output ==> final(self).left@.len() == old(self).left@.len(),
            !old(self).on ==> *final(self) == *old(self),
            old(self).on ==> {
                &&& final(self).fs_timer == (old(self).fs_timer + ticks) % FS_PERIOD as int
                &&& final(self).fs_step == (old(self).fs_step + (old(self).fs_timer + ticks) / FS_PERIOD as int) % 8
                &&& old(self).output && old(self).sample_rate > 0 ==> {
                    let total = old(self).sample_timer + ticks as int * old(self).sample_rate as int;
                    &&& final(self).sample_timer == total % CLOCK_RATE as int
                    &&& final(self).left@.len() == min_int(
                        old(self).sample_rate as int,
                        old(self).left@.len() + total / CLOCK_RATE as int,
                    )
                }
            },
    {
        if !self.on {
            return;
        }
        let mut n: u32 = 0;
        while n < ticks
            invariant
                self.wf(),
                n <= ticks,
                self.regs == old(self).regs,
                self.on == old(self).on,
                self.output == old(self).output,
                self.sample_rate == old(self).sample_rate,
                self.left@.len() >= old(self).left@.len(),
                !old(self).output ==> self.left@.len() == old(self).left@.len(),
                self.fs_timer == (old(self).fs_timer + n) % FS_PERIOD as int,
                self.fs_step == (old(self).fs_step + (old(self).fs_timer + n) / FS_PERIOD as int) % 8,
                old(self).output && old(self).sample_rate > 0 ==> {
                    let total = old(self).sample_timer + n as int * old(self).sample_rate as int;
                    &&& self.sample_timer == total % CLOCK_RATE as int
                    &&& self.left@.len() == min_int(old(self).sample_rate as int, old(self).left@.len() + total / CLOCK_RATE as int)
                },
            decreases ticks - n,
        {
            let ghost before = *self;
            self.step_clock();
            proof {
                let x = old(self).fs_timer + n as int;
                lemma_div_step(x, 1, FS_PERIOD as int);
                let q = x / FS_PERIOD as int;
                vstd::arithmetic::div_mod::lemma_add_mod_noop(old(self).fs_step + q, 1, 8);
                vstd::arithmetic::div_mod::lemma_mod_twice(old(self).fs_step + q, 8);
                vstd::arithmetic::div_mod::lemma_small_mod(1, 8);
                if old(self).output && old(self).sample_rate > 0 {
                    let rate = old(self).sample_rate as int;
                    let t = old(self).sample_timer + n as int * rate;
                    assert((n as int + 1) * rate == n as int * rate + rate) by (nonlinear_arith);
                    assert(n as int * rate >= 0) by (nonlinear_arith)
                        requires
                            rate > 0,
                    ;
                    lemma_div_step(t, rate, CLOCK_RATE as int);
                }
            }
            n = n + 1;
        }
    }

    fn step_clock(&mut self)
        requires
            old(self).wf(),
        ensures
            final(self).wf(),
            final(self).regs == old(self).regs,
            final(self).on == old(self).on,
            final(self).output == old(self).output,
            final(self).sample_rate == old(self).sample_rate,
            final(self).left@.len() >= old(self).left@.len(),
            !old(self).output ==> final(self).left@.len() == old(self).left@.len(),
            final(self).fs_timer == (old(self).fs_timer + 1) % FS_PERIOD as int,
            final(self).fs_step == (if old(self).fs_timer + 1 == FS_PERIOD { (old(self).fs_step + 1) % 8 } else { old(self).fs_step as int }),
            old(self).output && old(self).sample_rate > 0 ==> {
                &&& final(self).sample_timer == (old(self).sample_timer + old(self).sample_rate) % CLOCK_RATE as int
                &&& final(self).left@.len() == (if old(self).sample_timer + old(self).sample_rate >= CLOCK_RATE
                    && old(self).left@.len() < old(self).sample_rate { old(self).left@.len() + 1 } else { old(self).left@.len() + 0 })
            },
            !(old(self).output && old(self).sample_rate > 0) ==> final(self).sample_timer == old(self).sample_timer
                && final(self).left@.len() == old(self).left@.len(),
    {
        self.fs_timer = self.fs_timer + 1;
        if self.fs_timer == FS_PERIOD {
            self.fs_timer = 0;
            let step = self.fs_step;
            if step % 2 == 0 {
                self.ch1.clock_length();
                self.ch2.clock_length();
                self.ch3.clock_length();
                self.ch4.clock_length();
            }
            if step == 2 || step == 6 {
                self.ch1.clock_sweep();
            }
            if step == 7 {
                self.ch1.clock_envelope();
                self.ch2.clock_envelope();
                self.ch4.clock_envelope();
            }
            self.fs_step = (step + 1) % 8;
        }
        Sound::step_pulse(&mut self.ch1);
        Sound::step_pulse(&mut self.ch2);
        self.step_wave();
        let nr43 = self.regs[0x12];
        Sound::step_noise(&mut self.ch4, nr43);
        if self.output && self.sample_rate > 0 {
            self.sample_timer = self.sample_timer + self.sample_rate as u64;
            if self.sample_timer >= CLOCK_RATE as u64 {
                self.sample_timer = self.sample_timer - CLOCK_RATE as u64;
                self.emit_sample();
            }
        }
    }

    fn step_pulse(ch: &mut Channel)
        requires
            old(ch).wf(),
        ensures
            final(ch).wf(),
    {
        if ch.timer > 1 {
            ch.timer = ch.timer - 1;
        } else {
            ch.timer = pulse_period_of(ch.freq);
            ch.duty_pos = (ch.duty_pos + 1) % 8;
        }
    }

    fn step_wave(&mut self)
        requires
            old(self).wf(),
        ensures
            final(self).wf(),
            *final(self) == (Sound { ch3: final(self).ch3, ..*old(self) }),
    {
        if self.ch3.timer > 1 {
            self.ch3.timer = self.ch3.timer - 1;
        } else {
            self.ch3.timer = wave_period_of(self.ch3.freq);
            self.ch3.pos = (self.ch3.pos + 1) % 32;
        }
    }

    fn step_noise(ch: &mut Channel, nr43: u8)
        requires
            old(ch).wf(),
        ensures
            final(ch).wf(),
    {
        if ch.timer > 1 {
            ch.timer = ch.timer - 1;
        } else {
            ch.timer = noise_period_of(nr43);
            let cur = ch.lfsr;
            let x = (cur & 1) ^ ((cur >> 1) & 1);
            let l0 = (cur >> 1) | (x << 14);
            assert(x <= 1 && l0 <= 0x7FFF) by (bit_vector)
                requires
                    cur <= 0x7FFF,
                    x == (cur & 1) ^ ((cur >> 1) & 1),
                    l0 == (cur >> 1) | (x << 14),
            ;
            let l = if nr43 & 0x08 != 0 { (l0 & !0x40u16) | (x << 6) } else { l0 };
            assert(l0 <= 0x7FFF && x <= 1 ==> (l0 & !0x40u16) | (x << 6) <= 0x7FFF) by (bit_vector);
            ch.lfsr = l;
        }
    }

    /// Current output level (0-15) of each channel.
    fn amplitudes(&self) -> (r: (u8, u8, u8, u8))
        requires
            self.wf(),
        ensures
            r.0 <= 15 && r.1 <= 15 && r.2 <= 15 && r.3 <= 15,
    {
        let a1 = if self.ch1.enabled && pulse_high(self.ch1.duty, self.ch1.duty_pos) { self.ch1.volume } else { 0 };
        let a2 = if self.ch2.enabled && pulse_high(self.ch2.duty, self.ch2.duty_pos) { self.ch2.volume } else { 0 };
        let a3 = if self.ch3.enabled {
            let byte = self.regs[0x20 + (self.ch3.pos / 2) as usize];
            let sample = if self.ch3.pos % 2 == 0 { byte / 16 } else { byte % 16 };
            let code = (self.regs[0x0C] / 32) % 4;
            if code == 0 {
                0
            } else {
                sample >> (code - 1)
            }
        } else {
            0
        };
        let a4 = if self.ch4.enabled && self.ch4.lfsr & 1 == 0 { self.ch4.volume } else { 0 };
        assert(forall|s: u8, k: u8| s <= 15 && k < 3 ==> #[trigger] (s >> k) <= 15) by (bit_vector);
        (a1, a2, a3, a4)
    }

    /// Mixes the channels through NR51 (panning) and NR50 (master volume).
    fn emit_sample(&mut self)
        requires
            old(self).wf(),
        ensures
            final(self).wf(),
            *final(self) == (Sound { left: final(self).left, right: final(self).right, ..*old(self) }),
            final(self).left@.len() >= old(self).left@.len(),
            final(self).left@.len() == (if old(self).left@.len() < old(self).sample_rate {
                old(self).left@.len() + 1
            } else {
                old(self).left@.len()
            }),
    {
        let (a1, a2, a3, a4) = self.amplitudes();
        let pan = self.regs[0x15];
        let vol = self.regs[0x14];
        let l: u32 = (if pan & 0x10 != 0 { a1 as u32 } else { 0 }) + (if pan & 0x20 != 0 { a2 as u32 } else { 0 }) + (if pan
            & 0x40 != 0 { a3 as u32 } else { 0 }) + (if pan & 0x80 != 0 { a4 as u32 } else { 0 });
        let r: u32 = (if pan & 0x01 != 0 { a1 as u32 } else { 0 }) + (if pan & 0x02 != 0 { a2 as u32 } else { 0 }) + (if pan
            & 0x04 != 0 { a3 as u32 } else { 0 }) + (if pan & 0x08 != 0 { a4 as u32 } else { 0 });
        let lv = ((vol / 16) % 8) as u32 + 1;
        let rv = (vol % 8) as u32 + 1;
        assert(l <= 60 && lv <= 8 ==> l * lv * 64 <= 30720) by (nonlinear_arith);
        assert(r <= 60 && rv <= 8 ==> r * rv * 64 <= 30720) by (nonlinear_arith);
        if self.left.len() < self.sample_rate as usize {
            self.left.push((l * lv * 64) as i16);
            self.right.push((r * rv * 64) as i16);
        }
    }
}

/// Whether step `pos` of duty pattern `duty` is high (12.5%, 25%, 50%, 75%).
fn pulse_high(duty: u8, pos: u8) -> bool
    requires
        duty <= 3,
        pos < 8,
{
    let pattern: u8 = if duty == 0 {
        0x01
    } else if duty == 1 {
        0x81
    } else if duty == 2 {
        0x87
    } else {
        0x7E
    };
    (pattern >> pos) & 1 == 1
}

fn pulse_period_of(freq: u32) -> (r: u32)
    requires
        freq <= 2047,
    ensures
        r == pulse_period(freq),
        r <= 112 * 32768,
{
    (2048 - freq) * 4
}

fn wave_period_of(freq: u32) -> (r: u32)
    requires
        freq <= 2047,
    ensures
        r == wave_period(freq),
        r <= 112 * 32768,
{
    (2048 - freq) * 2
}

fn noise_period_of(v: u8) -> (r: u32)
    ensures
        r <= 112 * 32768,
{
    let rr = v % 8;
    let d: u32 = if rr == 0 { 8 } else { rr as u32 * 16 };
    let shift = (v / 16) as u32;
    assert(d <= 112 && shift <= 15 ==> d * (1u32 << shift) <= 112 * 32768) by (bit_vector);
    d * (1u32 << shift)
}

} // verus!
