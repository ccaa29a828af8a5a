use gb_emulator::device::Device;
use gb_emulator::mbc::Cartridge;
use gb_emulator::rtc::Rtc;
use gb_emulator::sound::Sound;

fn mbc3_rom() -> Vec<u8> {
    let mut rom = vec![0u8; 0x4000 * 4];
    rom[0x147] = 0x10;
    rom[0x148] = 0x01;
    rom[0x149] = 0x03;
    rom[0x4000 * 3] = 0x33;
    rom[0x4000] = 0x11;
    rom
}

#[test]
fn sound_is_silent_until_powered() {
    let mut s = Sound::new();
    s.enable_output(44100);
    s.wb(0xFF12, 0xF0);
    s.do_cycle(100_000);
    let (l, r) = s.take_samples();
    assert!(l.is_empty() && r.is_empty());
    assert_eq!(s.rb(0xFF26) & 0x80, 0);
}

#[test]
fn pulse_channel_produces_samples() {
    let mut s = Sound::new();
    s.enable_output(44100);
    s.wb(0xFF26, 0x80);
    s.wb(0xFF24, 0x77);
    s.wb(0xFF25, 0x11);
    s.wb(0xFF11, 0x80);
    s.wb(0xFF12, 0xF0);
    s.wb(0xFF13, 0x00);
    s.wb(0xFF14, 0x87);
    assert_eq!(s.rb(0xFF26) & 0x01, 0x01);
    s.do_cycle(4194304 / 10);
    let (l, r) = s.take_samples();
    // 419430 clocks at 44100 samples per 4194304 clocks: 4409.99 samples.
    assert_eq!(l.len(), 4409);
    assert_eq!(r.len(), 4409);
    assert!(l.iter().any(|&v| v > 0));
    assert!(l.iter().any(|&v| v == 0));
    assert_eq!(l, r);
    let (l2, _) = s.take_samples();
    assert!(l2.is_empty());
}

#[test]
fn length_counter_silences_the_channel() {
    let mut s = Sound::new();
    s.wb(0xFF26, 0x80);
    s.wb(0xFF11, 0x3F);
    s.wb(0xFF12, 0xF0);
    s.wb(0xFF14, 0xC0);
    assert_eq!(s.rb(0xFF26) & 0x01, 0x01);
    s.do_cycle(8192 * 2);
    assert_eq!(s.rb(0xFF26) & 0x01, 0x00);
}

#[test]
fn power_off_clears_registers() {
    let mut s = Sound::new();
    s.wb(0xFF26, 0x80);
    s.wb(0xFF24, 0x77);
    assert_eq!(s.rb(0xFF24), 0x77);
    s.wb(0xFF26, 0x00);
    assert_eq!(s.rb(0xFF24), 0x00);
    s.wb(0xFF24, 0x55);
    assert_eq!(s.rb(0xFF24), 0x00);
    s.wb(0xFF30, 0xAB);
    assert_eq!(s.rb(0xFF30), 0xAB);
}

#[test]
fn device_audio_samples_are_handed_out() {
    let mut rom = vec![0u8; 0x8000];
    rom[0x100] = 0x18;
    rom[0x101] = 0xFE;
    let mut d = Device::new(rom, true).ok().unwrap();
    d.enable_audio(48000, true);
    for _ in 0..10_000 {
        assert!(d.do_cycle().is_ok());
    }
    let (l, r) = d.sync_audio();
    assert!(!l.is_empty());
    assert_eq!(l.len(), r.len());
    let (l2, _) = d.sync_audio();
    assert!(l2.is_empty());
}

#[test]
fn mbc3_switches_rom_banks() {
    let mut c = Cartridge::new(mbc3_rom()).ok().unwrap();
    assert_eq!(c.readrom(0x4000), 0x11);
    c.writerom(0x2000, 0x03);
    assert_eq!(c.readrom(0x4000), 0x33);
    c.writerom(0x2000, 0x00);
    assert_eq!(c.readrom(0x4000), 0x11);
    assert!(c.is_battery_backed());
}

#[test]
fn mbc3_clock_latches_elapsed_time() {
    let mut c = Cartridge::new(mbc3_rom()).ok().unwrap();
    c.set_time(1000);
    c.writerom(0x0000, 0x0A);
    // set every clock register to zero now
    for sel in 0x08..=0x0C {
        c.writerom(0x4000, sel);
        c.writeram(0xA000, 0);
    }
    c.set_time(1000 + 3 * 86400 + 2 * 3600 + 5 * 60 + 7);
    c.writerom(0x6000, 0x00);
    c.writerom(0x6000, 0x01);
    let regs: Vec<u8> = (0x08..=0x0C)
        .map(|sel| {
            c.writerom(0x4000, sel);
            c.readram(0xA000)
        })
        .collect();
    assert_eq!(regs, vec![7, 5, 2, 3, 0]);
}

#[test]
fn clock_halt_stops_the_count() {
    let mut rtc = Rtc::new();
    rtc.set_time(50);
    rtc.write_reg(4, 0x40);
    rtc.set_time(500);
    assert_eq!(rtc.registers(), vec![50, 0, 0, 0, 0x40]);
    rtc.write_reg(4, 0x00);
    rtc.set_time(561);
    assert_eq!(rtc.registers(), vec![51, 1, 0, 0, 0]);
}

#[test]
fn clock_day_counter_sets_carry_on_wrap() {
    let mut rtc = Rtc::new();
    rtc.set_time(513 * 86400);
    let r = rtc.registers();
    assert_eq!(r[3], 1);
    assert_eq!(r[4] & 0x81, 0x80);
}

#[test]
fn mbc3_save_round_trips_with_clock() {
    let mut c = Cartridge::new(mbc3_rom()).ok().unwrap();
    c.writerom(0x0000, 0x0A);
    c.writerom(0x4000, 0x01);
    c.writeram(0xA010, 0x99);
    assert!(c.check_and_reset_ram_updated());
    let img = c.dumpram();
    assert_eq!(img.len(), 4 * 0x2000 + 48);
    assert_eq!(img[0x2010], 0x99);
    let mut d = Cartridge::new(mbc3_rom()).ok().unwrap();
    assert!(d.loadram(&img).is_ok());
    d.writerom(0x0000, 0x0A);
    d.writerom(0x4000, 0x01);
    assert_eq!(d.readram(0xA010), 0x99);
    assert!(d.loadram(&vec![0u8; 5]).is_err());
}

#[test]
fn mbc1_ram_banking_mode() {
    let mut rom = vec![0u8; 0x4000 * 64];
    rom[0x147] = 0x03;
    rom[0x148] = 0x05;
    rom[0x149] = 0x03;
    rom[0x4000 * 0x21] = 0x21;
    let mut c = Cartridge::new(rom).ok().unwrap();
    c.writerom(0x4000, 0x01);
    c.writerom(0x2000, 0x00);
    assert_eq!(c.readrom(0x4000), 0x21);
    assert_eq!(c.readram(0xA000), 0xFF);
    c.writerom(0x0000, 0x0A);
    c.writerom(0x6000, 0x01);
    c.writeram(0xA000, 0x5C);
    assert_eq!(c.readram(0xA000), 0x5C);
    c.writerom(0x4000, 0x00);
    assert_eq!(c.readram(0xA000), 0x00);
    assert_eq!(c.dumpram()[0x2000], 0x5C);
}
