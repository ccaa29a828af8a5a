use gb_emulator::device::Device;
use gb_emulator::gpu::GPU;
use gb_emulator::mbc::Cartridge;
use gb_emulator::timer::Timer;
use gb_emulator::GbMode;

/// A 32 KiB image without a controller, with `code` at 0x100.
fn plain_rom(code: &[u8]) -> Vec<u8> {
    let mut rom = vec![0u8; 0x8000];
    rom[0x100..0x100 + code.len()].copy_from_slice(code);
    rom
}

fn device_with(code: &[u8]) -> Device {
    match Device::new(plain_rom(code), true) {
        Ok(d) => d,
        Err(e) => panic!("{}", e),
    }
}

#[test]
fn timer_rolls_over_into_tma() {
    let mut t = Timer::new();
    t.wb(0xFF07, 0x05);
    t.wb(0xFF05, 0xFF);
    t.wb(0xFF06, 0xAB);
    t.do_cycle(16);
    assert_eq!(t.counter, 0xAB);
    assert_eq!(t.interrupt & 0x04, 0x04);
}

#[test]
fn timer_rolls_over_through_the_bus() {
    let mut d = device_with(&[0x00]);
    d.cpu.mmu.wb(0xFF07, 0x05);
    d.cpu.mmu.wb(0xFF05, 0xFF);
    d.cpu.mmu.wb(0xFF06, 0xAB);
    d.cpu.mmu.wb(0xFF0F, 0x00);
    d.cpu.mmu.timer.internalcnt = 0;
    d.cpu.mmu.do_cycle(16);
    assert_eq!(d.cpu.mmu.rb(0xFF05), 0xAB);
    assert_eq!(d.cpu.mmu.rb(0xFF0F) & 0x04, 0x04);
}

#[test]
fn timer_divider_counts_every_256_clocks() {
    let mut t = Timer::new();
    t.do_cycle(255);
    assert_eq!(t.rb(0xFF04), 0);
    t.do_cycle(1);
    assert_eq!(t.rb(0xFF04), 1);
    t.wb(0xFF04, 0x77);
    assert_eq!(t.rb(0xFF04), 0);
    assert_eq!(t.rb(0xFF07), 0xF8);
}

#[test]
fn halt_bug_runs_the_next_opcode_twice() {
    // HALT; INC A
    let mut d = device_with(&[0x76, 0x3C, 0x00, 0x00]);
    d.cpu.ime = false;
    d.cpu.reg.a = 0x00;
    d.cpu.mmu.inte = 0x01;
    d.cpu.mmu.intf = 0x01;
    for _ in 0..3 {
        assert!(d.do_cycle().is_ok());
    }
    assert_eq!(d.cpu.reg.a, 0x02);
    assert_eq!(d.cpu.reg.pc, 0x102);
}

#[test]
fn ei_then_di_never_services_the_interrupt() {
    // EI; DI; NOP; NOP
    let mut d = device_with(&[0xFB, 0xF3, 0x00, 0x00, 0x00]);
    d.cpu.ime = false;
    d.cpu.mmu.inte = 0x01;
    d.cpu.mmu.intf = 0x01;
    for _ in 0..4 {
        assert!(d.do_cycle().is_ok());
    }
    assert!(!d.cpu.ime);
    assert_eq!(d.cpu.reg.pc, 0x104);
    assert_eq!(d.cpu.mmu.intf & 0x01, 0x01);
}

#[test]
fn ei_services_after_one_instruction() {
    // EI; NOP; NOP
    let mut d = device_with(&[0xFB, 0x00, 0x00]);
    d.cpu.ime = false;
    d.cpu.mmu.inte = 0x04;
    d.cpu.mmu.intf = 0x04;
    d.cpu.reg.sp = 0xDFF0;
    assert!(d.do_cycle().is_ok());
    assert!(d.do_cycle().is_ok());
    assert_eq!(d.cpu.reg.pc, 0x102);
    assert_eq!(d.do_cycle(), Ok(16));
    assert_eq!(d.cpu.reg.pc, 0x0050);
    assert!(!d.cpu.ime);
    assert_eq!(d.cpu.mmu.intf & 0x04, 0);
    assert_eq!(d.cpu.reg.sp, 0xDFEE);
    assert_eq!(d.cpu.mmu.rw(0xDFEE), 0x102);
}

#[test]
fn mbc1_bank_zero_reads_as_bank_one() {
    let mut rom = vec![0u8; 0x10000];
    rom[0x147] = 0x01;
    rom[0x148] = 0x01;
    rom[0x4000] = 0x11;
    rom[0x8000] = 0x22;
    let mut cart = match Cartridge::new(rom) {
        Ok(c) => c,
        Err(e) => panic!("{}", e),
    };
    cart.writerom(0x2000, 0x02);
    assert_eq!(cart.readrom(0x4000), 0x22);
    cart.writerom(0x2000, 0x00);
    assert_eq!(cart.readrom(0x4000), 0x11);
}

#[test]
fn ld_hl_sp_plus_minus_one_at_zero() {
    // LD HL,SP+0xFF
    let mut d = device_with(&[0xF8, 0xFF]);
    d.cpu.reg.sp = 0x0000;
    assert_eq!(d.do_cycle(), Ok(12));
    assert_eq!(d.cpu.reg.hl(), 0xFFFF);
    assert_eq!(d.cpu.reg.f & 0x20, 0);
    assert_eq!(d.cpu.reg.f & 0x10, 0);
    assert_eq!(d.cpu.reg.sp, 0x0000);
}

#[test]
fn vblank_after_144_lines() {
    let mut g = GPU::new(GbMode::Classic);
    g.lcdc = 0x80;
    g.do_cycle(456 * 143);
    assert_eq!(g.line, 143);
    assert_eq!(g.interrupt & 0x01, 0);
    g.do_cycle(456);
    assert_eq!(g.interrupt & 0x01, 0x01);
    assert_eq!(g.line, 144);
    assert!(g.updated);
}

#[test]
fn vblank_after_144_lines_in_one_step() {
    let mut g = GPU::new(GbMode::Classic);
    g.lcdc = 0x80;
    g.do_cycle(456 * 144);
    assert_eq!(g.interrupt & 0x01, 0x01);
    assert_eq!(g.rb(0xFF44), 144);
}

#[test]
fn lcd_off_holds_the_line() {
    let mut g = GPU::new(GbMode::Classic);
    g.do_cycle(10_000);
    assert_eq!(g.line, 0);
    assert_eq!(g.interrupt, 0);
}
