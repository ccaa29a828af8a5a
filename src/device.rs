use vstd::prelude::*;
use crate::cpu::{cycle_effect, CPU};
use crate::keypad::{key_dropped, Keypad};
use crate::instructions::illegal;
use crate::keypad::KeypadKey;
use crate::mbc::{title_len, Cartridge, StrResult};
use crate::mmu::MMU;
use crate::gpu::GPU;

verus! {

/// Header checksum over bytes 0x134 .. 0x134 + n: start at 0, subtract each byte plus one.
pub open spec fn checksum_upto(rom: Seq<u8>, n: nat) -> u8
    decreases n,
{
    if n == 0 {
        0
    } else {
        ((checksum_upto(rom, (n - 1) as nat) as int - rom[0x134 + n - 1] as int - 1 + 512) % 256) as u8
    }
}

/// Whether byte 0x14D matches the checksum of bytes 0x134-0x14C.
pub open spec fn checksum_ok(rom: Seq<u8>) -> bool {
    checksum_upto(rom, 25) == rom[0x14D]
}

/// Text of a byte string, with invalid UTF-8 replaced.
pub uninterp spec fn lossy_text(b: Seq<u8>) -> Seq<char>;

/// Relies on String::from_utf8_lossy: the text depends on the bytes alone.
#[verifier::external_body]
fn text_of(b: &Vec<u8>) -> (r: String)
    ensures
        r@ == lossy_text(b@),
{
    String::from_utf8_lossy(b).into_owned()
}

/// Computes the header checksum of an image at least 0x150 bytes long.
pub fn header_checksum(rom: &Vec<u8>) -> (r: u8)
    requires
        rom@.len() >= 0x150,
    ensures
        r == checksum_upto(rom@, 25),
{
    let mut x: u8 = 0;
    let mut i: usize = 0;
    while i < 25
        invariant
            rom@.len() >= 0x150,
            i <= 25,
            x == checksum_upto(rom@, i as nat),
        decreases 25 - i,
    {
        x = x.wrapping_sub(rom[0x134 + i]).wrapping_sub(1);
        i = i + 1;
    }
    x
}

/// Master clocks in one 16 ms batch of emulation: 4194304 Hz * 0.016 s, rounded.
pub const FRAME_CLOCKS: u32 = 67109;

/// Clocks left over after a batch that ran `ticks` clocks, carried into the next one;
/// `None` while the batch still has clocks to run.
pub fn frame_carry(ticks: u32) -> (r: Option<u32>)
    ensures
        ticks < FRAME_CLOCKS <==> r is None,
        r matches Some(c) ==> c == ticks - FRAME_CLOCKS,
{
    if ticks < FRAME_CLOCKS {
        None
    } else {
        Some(ticks - FRAME_CLOCKS)
    }
}

/// The whole console: processor, bus and peripherals.
pub struct Device {
    pub cpu: CPU,
}

impl Device {
    pub open spec fn wf(&self) -> bool {
        self.cpu.wf()
    }

    /// The cartridge accepted when it is well-formed and, unless skipped, its header
    /// checksum matches.
    pub open spec fn accepts(rom: Seq<u8>, skip_checksum: bool) -> bool {
        &&& rom.len() >= 0x150
        &&& crate::mbc::spec_rom_banks(rom[0x148]) >= 2
        &&& rom.len() == crate::mbc::spec_rom_banks(rom[0x148]) * 0x4000
        &&& (rom[0x147] == 0 ==> rom.len() == 0x8000)
        &&& (rom[0x147] <= 0x03 || 0x0F <= rom[0x147] <= 0x13 || 0x19 <= rom[0x147] <= 0x1E)
        &&& (skip_checksum || checksum_ok(rom))
    }

    fn load(rom: Vec<u8>, skip_checksum: bool) -> (r: StrResult<Cartridge>)
        ensures
            r.is_ok() <==> Device::accepts(rom@, skip_checksum),
            r matches Ok(c) ==> c.wf() && c.spec_rom() == rom@,
    {
        if rom.len() < 0x150 {
            return Err("ROM image is shorter than its header");
        }
        if !skip_checksum && header_checksum(&rom) != rom[0x14D] {
            return Err("Cartridge header checksum is invalid");
        }
        Cartridge::new(rom)
    }

    /// A classic console running the cartridge image.
    pub fn new(rom: Vec<u8>, skip_checksum: bool) -> (r: StrResult<Device>)
        ensures
            r.is_ok() <==> Device::accepts(rom@, skip_checksum),
            r matches Ok(d) ==> d.wf() && d.cpu.mmu.mbc.spec_rom() == rom@ && d.cpu.reg.pc == 0x0100,
    {
        let cart = match Device::load(rom, skip_checksum) {
            Ok(c) => c,
            Err(e) => return Err(e),
        };
        match CPU::new(cart) {
            Ok(cpu) => Ok(Device { cpu }),
            Err(e) => Err(e),
        }
    }

    /// A color console running the cartridge image.
    pub fn new_cgb(rom: Vec<u8>, skip_checksum: bool) -> (r: StrResult<Device>)
        ensures
            r.is_ok() <==> Device::accepts(rom@, skip_checksum),
            r matches Ok(d) ==> d.wf() && d.cpu.mmu.mbc.spec_rom() == rom@ && d.cpu.reg.pc == 0x0100,
    {
        let cart = match Device::load(rom, skip_checksum) {
            Ok(c) => c,
            Err(e) => return Err(e),
        };
        match CPU::new_cgb(cart) {
            Ok(cpu) => Ok(Device { cpu }),
            Err(e) => Err(e),
        }
    }

    /// One CPU step and the matching peripheral time; see `CPU::do_cycle`.
    pub fn do_cycle(&mut self) -> (r: Result<u32, u8>)
        requires
            old(self).wf(),
        ensures
            final(self).wf(),
            r matches Err(op) ==> illegal(op),
            cycle_effect(old(self).cpu, final(self).cpu, r),
    {
        self.cpu.do_cycle()
    }

    /// Whether a frame was finished since the last call; clears the flag.
    pub fn check_and_reset_gpu_updated(&mut self) -> (r: bool)
        requires
            old(self).wf(),
        ensures
            final(self).wf(),
            r == old(self).cpu.mmu.gpu.updated,
            final(self).cpu == (CPU {
                mmu: MMU { gpu: GPU { updated: false, ..old(self).cpu.mmu.gpu }, ..old(self).cpu.mmu },
                ..old(self).cpu
            }),
    {
        let result = self.cpu.mmu.gpu.updated;
        self.cpu.mmu.gpu.updated = false;
        result
    }

    /// The framebuffer: 160 x 144 RGB triplets, row-major.
    pub fn get_gpu_data(&self) -> (r: &[u8])
        requires
            self.wf(),
        ensures
            r@ == self.cpu.mmu.gpu.data@,
            r@.len() == 69120,
    {
        self.cpu.mmu.gpu.data.as_slice()
    }

    pub fn keyup(&mut self, key: KeypadKey)
        requires
            old(self).wf(),
        ensures
            final(self).wf(),
            final(self).cpu == (CPU {
                mmu: MMU { keypad: final(self).cpu.mmu.keypad, intf: final(self).cpu.mmu.intf, ..old(self).cpu.mmu },
                ..old(self).cpu
            }),
            old(self).cpu.mmu.keypad.keyup_post(final(self).cpu.mmu.keypad, key),
            final(self).cpu.mmu.intf == (if key_dropped(old(self).cpu.mmu.keypad, final(self).cpu.mmu.keypad) {
                old(self).cpu.mmu.intf | 0x10
            } else {
                old(self).cpu.mmu.intf
            }),
    {
        // A key bit of a selected row going to 0 requests the joypad interrupt at once.
        if self.cpu.mmu.keypad.keyup(key) {
            self.cpu.mmu.intf = self.cpu.mmu.intf | 0x10;
        }
    }

    pub fn keydown(&mut self, key: KeypadKey)
        requires
            old(self).wf(),
        ensures
            final(self).wf(),
            final(self).cpu == (CPU {
                mmu: MMU { keypad: final(self).cpu.mmu.keypad, intf: final(self).cpu.mmu.intf, ..old(self).cpu.mmu },
                ..old(self).cpu
            }),
            old(self).cpu.mmu.keypad.keydown_post(final(self).cpu.mmu.keypad, key),
            final(self).cpu.mmu.intf == (if key_dropped(old(self).cpu.mmu.keypad, final(self).cpu.mmu.keypad) {
                old(self).cpu.mmu.intf | 0x10
            } else {
                old(self).cpu.mmu.intf
            }),
    {
        // A key bit of a selected row going to 0 requests the joypad interrupt at once.
        if self.cpu.mmu.keypad.keydown(key) {
            self.cpu.mmu.intf = self.cpu.mmu.intf | 0x10;
        }
    }

    /// The cartridge title as text.
    pub fn romname(&self) -> (r: String)
        requires
            self.wf(),
        ensures
            r@ == lossy_text(
                self.cpu.mmu.mbc.spec_rom().subrange(0x134, 0x134 + title_len(self.cpu.mmu.mbc.spec_rom(), 0) as int),
            ),
    {
        let t = self.cpu.mmu.mbc.title();
        text_of(&t)
    }
    /// Starts sound output at `sample_rate` samples per second. The rate is capped at
    /// 192000, which bounds the one-second sample buffer. With `is_on` the sound unit
    /// is also powered, as NR52 bit 7 would do.
    pub fn enable_audio(&mut self, sample_rate: u32, is_on: bool)
        requires
            old(self).wf(),
        ensures
            final(self).wf(),
            final(self).cpu.mmu.sound.output,
            final(self).cpu.mmu.sound.sample_rate == (if sample_rate > 192000 { 192000 } else { sample_rate }),
            is_on ==> final(self).cpu.mmu.sound.on,
    {
        let rate = if sample_rate > 192000 { 192000 } else { sample_rate };
        self.cpu.mmu.sound.enable_output(rate);
        if is_on {
            assert(0x80u8 & 0x80 != 0) by (bit_vector);
            self.cpu.mmu.sound.wb(0xFF26, 0x80);
        }
    }

    /// Takes the stereo samples made since the last call.
    pub fn sync_audio(&mut self) -> (r: (Vec<i16>, Vec<i16>))
        requires
            old(self).wf(),
        ensures
            final(self).wf(),
            r.0@ == old(self).cpu.mmu.sound.left@,
            r.1@ == old(self).cpu.mmu.sound.right@,
            r.0@.len() == r.1@.len(),
            final(self).cpu.mmu.sound.left@.len() == 0 && final(self).cpu.mmu.sound.right@.len() == 0,
    {
        self.cpu.mmu.sound.take_samples()
    }

    /// Whether the cartridge RAM is kept by a battery, and so worth saving.
    pub fn is_battery_backed(&self) -> (r: bool)
        requires
            self.wf(),
        ensures
            r == self.cpu.mmu.mbc.battery(),
    {
        self.cpu.mmu.mbc.is_battery_backed()
    }

    /// The save image of the cartridge.
    pub fn dumpram(&self) -> (r: Vec<u8>)
        requires
            self.wf(),
        ensures
            r@.subrange(0, self.cpu.mmu.mbc.spec_ram().len() as int) == self.cpu.mmu.mbc.spec_ram(),
    {
        self.cpu.mmu.mbc.dumpram()
    }

    /// Loads a save image into the cartridge.
    pub fn loadram(&mut self, data: &Vec<u8>) -> (r: StrResult<()>)
        requires
            old(self).wf(),
        ensures
            final(self).wf(),
            r.is_ok() <==> old(self).cpu.mmu.mbc.save_len_ok(data@.len()),
            r.is_ok() ==> final(self).cpu.mmu.mbc.spec_ram() == data@.subrange(0, old(self).cpu.mmu.mbc.spec_ram().len() as int),
            r.is_err() ==> final(self).cpu.mmu.mbc.spec_ram() == old(self).cpu.mmu.mbc.spec_ram(),
    {
        self.cpu.mmu.mbc.loadram(data)
    }

    /// Whether cartridge RAM changed since the last call; clears the flag.
    pub fn check_and_reset_ram_updated(&mut self) -> (r: bool)
        requires
            old(self).wf(),
        ensures
            final(self).wf(),
            final(self).cpu.mmu.mbc.spec_ram() == old(self).cpu.mmu.mbc.spec_ram(),
            r == old(self).cpu.mmu.mbc.dirty(),
            !final(self).cpu.mmu.mbc.dirty(),
            final(self).cpu == (CPU { mmu: MMU { mbc: final(self).cpu.mmu.mbc, ..old(self).cpu.mmu }, ..old(self).cpu }),
    {
        self.cpu.mmu.mbc.check_and_reset_ram_updated()
    }

    /// Hands the wall-clock second (since 1970) to the cartridge clock, if any.
    pub fn set_rtc_time(&mut self, now: u64)
        requires
            old(self).wf(),
        ensures
            final(self).wf(),
            final(self).cpu == (CPU { mmu: MMU { mbc: final(self).cpu.mmu.mbc, ..old(self).cpu.mmu }, ..old(self).cpu }),
            !(old(self).cpu.mmu.mbc is Mbc3) ==> final(self).cpu.mmu.mbc == old(self).cpu.mmu.mbc,
            old(self).cpu.mmu.mbc matches Cartridge::Mbc3(m0) ==> final(self).cpu.mmu.mbc == Cartridge::Mbc3(
                crate::mbc::MBC3 { rtc: (crate::rtc::Rtc { now, ..m0.rtc }), ..m0 },
            ),
    {
        self.cpu.mmu.mbc.set_time(now);
    }
}

} // verus!
