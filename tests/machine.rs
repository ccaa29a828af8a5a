use gb_emulator::device::{frame_carry, header_checksum, Device, FRAME_CLOCKS};
use gb_emulator::mbc::{Cartridge, MBC4};
use gb_emulator::{KeypadKey, SCREEN_H, SCREEN_W};

fn rom_with(code: &[u8]) -> Vec<u8> {
    let mut rom = vec![0u8; 0x8000];
    rom[0x100..0x100 + code.len()].copy_from_slice(code);
    rom
}

fn run(d: &mut Device, n: usize) {
    for _ in 0..n {
        assert!(d.do_cycle().is_ok());
    }
}

#[test]
fn push_then_pop_round_trips() {
    // PUSH BC; POP DE
    let mut d = Device::new(rom_with(&[0xC5, 0xD1]), true).ok().unwrap();
    d.cpu.reg.setbc(0xBEEF);
    d.cpu.reg.sp = 0xC100;
    run(&mut d, 2);
    assert_eq!(d.cpu.reg.de(), 0xBEEF);
    assert_eq!(d.cpu.reg.sp, 0xC100);
}

#[test]
fn call_and_ret() {
    // CALL 0x0200 ... at 0x200: RET
    let mut rom = rom_with(&[0xCD, 0x00, 0x02, 0x00]);
    rom[0x200] = 0xC9;
    let mut d = Device::new(rom, true).ok().unwrap();
    assert_eq!(d.do_cycle(), Ok(24));
    assert_eq!(d.cpu.reg.pc, 0x0200);
    assert_eq!(d.do_cycle(), Ok(16));
    assert_eq!(d.cpu.reg.pc, 0x0103);
}

#[test]
fn rlca_forces_zero_flag_clear() {
    // XOR A; RLCA
    let mut d = Device::new(rom_with(&[0xAF, 0x07]), true).ok().unwrap();
    run(&mut d, 2);
    assert_eq!(d.cpu.reg.a, 0);
    assert_eq!(d.cpu.reg.f, 0x00);
}

#[test]
fn cb_rlc_sets_zero_flag() {
    // XOR A; RLC A
    let mut d = Device::new(rom_with(&[0xAF, 0xCB, 0x07]), true).ok().unwrap();
    run(&mut d, 1);
    assert_eq!(d.do_cycle(), Ok(8));
    assert_eq!(d.cpu.reg.f, 0x80);
}

#[test]
fn illegal_opcode_is_reported() {
    let mut d = Device::new(rom_with(&[0xD3]), true).ok().unwrap();
    assert_eq!(d.do_cycle(), Err(0xD3));
}

#[test]
fn jr_backwards() {
    // NOP; JR -3
    let mut d = Device::new(rom_with(&[0x00, 0x18, 0xFD]), true).ok().unwrap();
    run(&mut d, 2);
    assert_eq!(d.cpu.reg.pc, 0x0100);
}

#[test]
fn short_image_is_refused() {
    assert!(Device::new(vec![0u8; 0x100], true).is_err());
    assert!(Cartridge::new(vec![0u8; 0x14F]).is_err());
}

#[test]
fn size_mismatch_is_refused() {
    let mut rom = vec![0u8; 0x8000];
    rom[0x148] = 0x01;
    assert!(Device::new(rom, true).is_err());
}

#[test]
fn unknown_controller_is_refused() {
    let mut rom = vec![0u8; 0x8000];
    rom[0x147] = 0x05;
    assert_eq!(Cartridge::new(rom).err(), Some("Unsupported MBC type"));
}

#[test]
fn checksum_is_checked_unless_skipped() {
    let mut rom = vec![0u8; 0x8000];
    rom[0x134] = b'A';
    assert!(Device::new(rom.clone(), false).is_err());
    let sum = header_checksum(&rom);
    assert_eq!(sum, 0u8.wrapping_sub(b'A').wrapping_sub(25));
    rom[0x14D] = sum;
    assert!(Device::new(rom, false).is_ok());
}

#[test]
fn romname_reads_the_title() {
    let mut rom = vec![0u8; 0x8000];
    rom[0x134..0x138].copy_from_slice(b"TEST");
    let d = Device::new(rom, true).ok().unwrap();
    assert_eq!(d.romname(), "TEST");
}

#[test]
fn framebuffer_has_full_size() {
    let d = Device::new(rom_with(&[0x00]), true).ok().unwrap();
    assert_eq!(d.get_gpu_data().len(), SCREEN_W * SCREEN_H * 3);
}

#[test]
fn gpu_updated_flag_is_an_edge() {
    let mut d = Device::new(rom_with(&[0x18, 0xFE]), true).ok().unwrap();
    let mut seen = false;
    for _ in 0..40000 {
        assert!(d.do_cycle().is_ok());
        if d.check_and_reset_gpu_updated() {
            seen = true;
            break;
        }
    }
    assert!(seen);
    assert!(!d.check_and_reset_gpu_updated());
}

#[test]
fn keypad_press_raises_joypad_interrupt() {
    let mut d = Device::new(rom_with(&[0x00, 0x00]), true).ok().unwrap();
    d.cpu.mmu.wb(0xFF00, 0x20);
    d.cpu.mmu.intf = 0;
    d.keydown(KeypadKey::Left);
    assert_eq!(d.cpu.mmu.rb(0xFF00) & 0x0F, 0x0D);
    // the request is in IF before the next instruction
    assert_eq!(d.cpu.mmu.intf & 0x10, 0x10);
    run(&mut d, 1);
    assert_eq!(d.cpu.mmu.intf & 0x10, 0x10);
    d.keyup(KeypadKey::Left);
    assert_eq!(d.cpu.mmu.rb(0xFF00) & 0x0F, 0x0F);
}

#[test]
fn keypad_other_row_is_not_seen() {
    let mut d = Device::new(rom_with(&[0x00]), true).ok().unwrap();
    d.cpu.mmu.wb(0xFF00, 0x20);
    d.keydown(KeypadKey::A);
    assert_eq!(d.cpu.mmu.rb(0xFF00) & 0x0F, 0x0F);
}

#[test]
fn echo_ram_mirrors_work_ram() {
    let mut d = Device::new(rom_with(&[0x00]), true).ok().unwrap();
    d.cpu.mmu.wb(0xC123, 0x5A);
    assert_eq!(d.cpu.mmu.rb(0xE123), 0x5A);
    d.cpu.mmu.wb(0xFEA5, 0x77);
    assert_eq!(d.cpu.mmu.rb(0xFEA5), 0x00);
    assert_eq!(d.cpu.mmu.rb(0xFF0F) & 0xE0, 0xE0);
}

#[test]
fn oam_dma_copies_160_bytes() {
    let mut d = Device::new(rom_with(&[0x00]), true).ok().unwrap();
    for i in 0..0xA0u16 {
        d.cpu.mmu.wb(0xC000 + i, i as u8);
    }
    d.cpu.mmu.wb(0xFF46, 0xC0);
    assert_eq!(d.cpu.mmu.rb(0xFE00), 0x00);
    assert_eq!(d.cpu.mmu.rb(0xFE9F), 0x9F);
}

fn mbc4_rom() -> Vec<u8> {
    let mut rom = vec![0u8; 0x4000 * 8];
    rom[0x147] = 0x1B;
    rom[0x148] = 0x02;
    rom[0x149] = 0x03;
    for bank in 0..8usize {
        rom[bank * 0x4000 + 0x10] = bank as u8;
    }
    rom
}

#[test]
fn mbc4_switches_banks_and_ram() {
    let mut m = MBC4::new(mbc4_rom()).ok().unwrap();
    assert!(m.is_battery_backed());
    assert_eq!(m.readrom(0x4010), 1);
    m.writerom(0x2000, 5);
    assert_eq!(m.readrom(0x4010), 5);
    m.writerom(0x2000, 0);
    assert_eq!(m.readrom(0x4010), 0);
    m.writerom(0x2000, 9);
    assert_eq!(m.readrom(0x4010), 1);
    assert_eq!(m.readram(0xA000), 0);
    m.writeram(0xA000, 0x42);
    assert!(!m.check_and_reset_ram_updated());
    m.writerom(0x0000, 0x0A);
    m.writerom(0x4000, 0x02);
    m.writeram(0xA001, 0x42);
    assert_eq!(m.readram(0xA001), 0x42);
    assert!(m.check_and_reset_ram_updated());
    assert!(!m.check_and_reset_ram_updated());
    assert_eq!(m.dumpram()[2 * 0x2000 + 1], 0x42);
}

#[test]
fn mbc4_ram_load_checks_length() {
    let mut m = MBC4::new(mbc4_rom()).ok().unwrap();
    assert!(m.loadram(&vec![0u8; 10]).is_err());
    let img = vec![7u8; 4 * 0x2000];
    assert!(m.loadram(&img).is_ok());
    assert_eq!(m.dumpram(), img);
}

#[test]
fn frame_budget_carries_the_excess() {
    assert_eq!(FRAME_CLOCKS, 67109);
    assert_eq!(frame_carry(67108), None);
    assert_eq!(frame_carry(67109), Some(0));
    assert_eq!(frame_carry(67120), Some(11));
}

#[test]
fn reti_enables_after_one_instruction() {
    // RETI at 0x100 returning to 0x200; at 0x200: NOP, NOP
    let rom = rom_with(&[0xD9]);
    let mut d = Device::new(rom, true).ok().unwrap();
    d.cpu.ime = false;
    d.cpu.reg.sp = 0xC100;
    d.cpu.mmu.ww(0xC100, 0x0200);
    d.cpu.mmu.inte = 0x01;
    d.cpu.mmu.intf = 0x01;
    d.cpu.mmu.gpu.lcdc = 0;
    assert_eq!(d.do_cycle(), Ok(16));
    assert_eq!(d.cpu.reg.pc, 0x0200);
    assert!(d.do_cycle().is_ok());
    assert_eq!(d.cpu.reg.pc, 0x0201);
    assert_eq!(d.do_cycle(), Ok(16));
    assert_eq!(d.cpu.reg.pc, 0x0040);
}

#[test]
fn call_nz_taken_and_not_taken() {
    // XOR A (Z set); CALL NZ,0x0300; OR 1 (Z clear); CALL NZ,0x0300
    let mut d = Device::new(rom_with(&[0xAF, 0xC4, 0x00, 0x03, 0xF6, 0x01, 0xC4, 0x00, 0x03]), true).ok().unwrap();
    d.cpu.reg.sp = 0xC100;
    run(&mut d, 1);
    assert_eq!(d.do_cycle(), Ok(12));
    assert_eq!(d.cpu.reg.pc, 0x0104);
    assert_eq!(d.cpu.reg.sp, 0xC100);
    run(&mut d, 1);
    assert_eq!(d.do_cycle(), Ok(24));
    assert_eq!(d.cpu.reg.pc, 0x0300);
    assert_eq!(d.cpu.reg.sp, 0xC0FE);
    assert_eq!(d.cpu.mmu.rw(0xC0FE), 0x0109);
}

#[test]
fn jr_not_taken_wraps_at_top_of_memory() {
    let mut d = Device::new(rom_with(&[0x00]), true).ok().unwrap();
    d.cpu.mmu.wb(0xFFFE, 0x20);
    d.cpu.reg.pc = 0xFFFE;
    d.cpu.reg.f = 0x80;
    assert_eq!(d.do_cycle(), Ok(8));
    assert_eq!(d.cpu.reg.pc, 0x0000);
}
