use gb_emulator::device::Device;
use gb_emulator::gpu::GPU;
use gb_emulator::mmu::DMAType;
use gb_emulator::{GbMode, GbSpeed};

fn color_device(code: &[u8]) -> Device {
    let mut rom = vec![0u8; 0x8000];
    rom[0x143] = 0x80;
    rom[0x100..0x100 + code.len()].copy_from_slice(code);
    Device::new_cgb(rom, true).ok().unwrap()
}

#[test]
fn color_flag_selects_the_mode() {
    let d = color_device(&[0x00]);
    assert!(d.cpu.mmu.gbmode == GbMode::Color);
    assert_eq!(d.cpu.reg.a, 0x11);
    let c = Device::new_cgb(vec![0u8; 0x8000], true).ok().unwrap();
    assert!(c.cpu.mmu.gbmode == GbMode::ColorAsClassic);
    let k = Device::new(vec![0u8; 0x8000], true).ok().unwrap();
    assert!(k.cpu.mmu.gbmode == GbMode::Classic);
    assert_eq!(k.cpu.reg.a, 0x01);
}

#[test]
fn wram_bank_switch() {
    let mut d = color_device(&[0x00]);
    d.cpu.mmu.wb(0xD000, 0x11);
    d.cpu.mmu.wb(0xFF70, 0x03);
    assert_eq!(d.cpu.mmu.rb(0xFF70), 3);
    assert_eq!(d.cpu.mmu.rb(0xD000), 0x00);
    d.cpu.mmu.wb(0xD000, 0x33);
    d.cpu.mmu.wb(0xFF70, 0x00);
    assert_eq!(d.cpu.mmu.rb(0xFF70), 1);
    assert_eq!(d.cpu.mmu.rb(0xD000), 0x11);
    d.cpu.mmu.wb(0xFF70, 0x03);
    assert_eq!(d.cpu.mmu.rb(0xF000), 0x33);
}

#[test]
fn stop_switches_speed_when_requested() {
    // STOP; STOP
    let mut d = color_device(&[0x10, 0x10]);
    d.cpu.mmu.wb(0xFF4D, 0x01);
    assert_eq!(d.cpu.mmu.rb(0xFF4D), 0x01);
    // the switch applies at once: the peripherals see half of STOP's 4 clocks
    assert_eq!(d.do_cycle(), Ok(2));
    assert!(d.cpu.mmu.gbspeed == GbSpeed::Double);
    assert_eq!(d.cpu.mmu.rb(0xFF4D), 0x80);
    // without a new request STOP leaves the speed alone
    assert_eq!(d.do_cycle(), Ok(2));
    assert!(d.cpu.mmu.gbspeed == GbSpeed::Double);
}

#[test]
fn general_purpose_vram_dma_copies_blocks() {
    let mut d = color_device(&[0x00]);
    for i in 0..0x20u16 {
        d.cpu.mmu.wb(0xC000 + i, 0x40 + i as u8);
    }
    d.cpu.mmu.wb(0xFF51, 0xC0);
    d.cpu.mmu.wb(0xFF52, 0x00);
    d.cpu.mmu.wb(0xFF53, 0x01);
    d.cpu.mmu.wb(0xFF54, 0x00);
    d.cpu.mmu.wb(0xFF55, 0x01);
    assert!(d.cpu.mmu.hdma_status == DMAType::GDMA);
    let t = d.cpu.mmu.do_cycle(4);
    assert_eq!(t, 4 + 16);
    assert!(d.cpu.mmu.hdma_status == DMAType::NoDMA);
    assert_eq!(d.cpu.mmu.rb(0xFF55), 0xFF);
    assert_eq!(d.cpu.mmu.rb(0x8100), 0x40);
    assert_eq!(d.cpu.mmu.rb(0x811F), 0x5F);
}

#[test]
fn hblank_dma_waits_for_hblank() {
    let mut d = color_device(&[0x00]);
    d.cpu.mmu.wb(0xC000, 0x7E);
    d.cpu.mmu.wb(0xFF51, 0xC0);
    d.cpu.mmu.wb(0xFF52, 0x00);
    d.cpu.mmu.wb(0xFF53, 0x00);
    d.cpu.mmu.wb(0xFF54, 0x00);
    d.cpu.mmu.wb(0xFF55, 0x80);
    assert!(d.cpu.mmu.hdma_status == DMAType::HDMA);
    d.cpu.mmu.gpu.hblanking = false;
    assert_eq!(d.cpu.mmu.do_cycle(4), 4);
    assert_eq!(d.cpu.mmu.rb(0x8000), 0x00);
    d.cpu.mmu.gpu.hblanking = true;
    assert_eq!(d.cpu.mmu.do_cycle(4), 4 + 8);
    assert_eq!(d.cpu.mmu.rb(0x8000), 0x7E);
    assert!(d.cpu.mmu.hdma_status == DMAType::NoDMA);
}

#[test]
fn lyc_match_raises_stat() {
    let mut g = GPU::new(GbMode::Classic);
    g.lcdc = 0x80;
    g.wb(0xFF41, 0x40);
    g.wb(0xFF45, 2);
    g.do_cycle(456);
    assert_eq!(g.interrupt & 0x02, 0);
    g.do_cycle(456);
    assert_eq!(g.interrupt & 0x02, 0x02);
    assert_eq!(g.rb(0xFF41) & 0x04, 0x04);
}

#[test]
fn lcd_off_resets_line() {
    let mut g = GPU::new(GbMode::Classic);
    g.wb(0xFF40, 0x80);
    g.do_cycle(456 * 5);
    assert_eq!(g.rb(0xFF44), 5);
    g.wb(0xFF40, 0x00);
    assert_eq!(g.rb(0xFF44), 0);
}

#[test]
fn background_pixel_uses_palette() {
    let mut g = GPU::new(GbMode::Classic);
    // tile 0, row 0: both bit planes set at the leftmost pixel -> colour 3
    g.wb(0x8000, 0x80);
    g.wb(0x8001, 0x80);
    g.wb(0xFF47, 0xE4);
    g.wb(0xFF40, 0x91);
    g.do_cycle(80 + 172 + 4);
    let d = &g.data;
    assert_eq!(&d[0..3], &[0, 0, 0]);
    assert_eq!(&d[3..6], &[255, 255, 255]);
}

#[test]
fn sprite_drawn_over_background() {
    let mut g = GPU::new(GbMode::Classic);
    // tile 1 row 0: colour 1 across the row
    g.wb(0x8010, 0xFF);
    g.wb(0x8011, 0x00);
    g.wb(0xFE00, 16);
    g.wb(0xFE01, 8 + 4);
    g.wb(0xFE02, 1);
    g.wb(0xFE03, 0);
    g.wb(0xFF48, 0xE4);
    g.wb(0xFF47, 0x00);
    g.wb(0xFF40, 0x93);
    g.do_cycle(80 + 172 + 4);
    let d = &g.data;
    assert_eq!(&d[4 * 3..4 * 3 + 3], &[192, 192, 192]);
    assert_eq!(&d[3 * 3..3 * 3 + 3], &[255, 255, 255]);
}
