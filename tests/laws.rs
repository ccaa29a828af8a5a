use gb_emulator::register::Registers;
use gb_emulator::GbMode;

fn regs() -> Registers {
    Registers::new(GbMode::Classic)
}

fn flags(r: &Registers) -> (bool, bool, bool, bool) {
    (r.f & 0x80 != 0, r.f & 0x40 != 0, r.f & 0x20 != 0, r.f & 0x10 != 0)
}

#[test]
fn add_and_sub_flags_match_widened_sums() {
    for a in 0..=255u16 {
        for b in [0u16, 1, 0x0F, 0x10, 0x7F, 0x80, 0xF0, 0xFF] {
            for c in 0..=1u16 {
                let mut r = regs();
                r.f = if c == 1 { 0x10 } else { 0 };
                r.a = a as u8;
                r.alu_add(b as u8, true);
                let wide = a + b + c;
                assert_eq!(r.a as u16, wide & 0xFF);
                assert_eq!(flags(&r), ((wide & 0xFF) == 0, false, (a ^ b ^ wide) & 0x10 != 0, wide > 0xFF));

                let mut s = regs();
                s.f = if c == 1 { 0x10 } else { 0 };
                s.a = a as u8;
                s.alu_sub(b as u8, true);
                let wide = a.wrapping_sub(b).wrapping_sub(c);
                assert_eq!(s.a as u16, wide & 0xFF);
                assert_eq!(flags(&s), ((wide & 0xFF) == 0, true, (a ^ b ^ wide) & 0x10 != 0, wide > 0xFF));
            }
        }
    }
}

#[test]
fn add_half_carry_example() {
    let mut r = regs();
    r.a = 0x0F;
    r.f = 0;
    r.alu_add(0x01, false);
    assert_eq!(r.a, 0x10);
    assert_eq!(r.f, 0x20);
}

#[test]
fn inc_then_dec_restores_the_byte() {
    for v in 0..=255u8 {
        let mut r = regs();
        r.f = 0x10;
        let up = r.alu_inc(v);
        assert_eq!(r.f & 0x40, 0);
        let back = r.alu_dec(up);
        assert_eq!(back, v);
        assert_eq!(r.f & 0x40, 0x40);
        assert_eq!(r.f & 0x10, 0x10);
    }
}

#[test]
fn inc_of_ff_sets_zero_and_half_carry() {
    let mut r = regs();
    r.f = 0;
    assert_eq!(r.alu_inc(0xFF), 0x00);
    assert_eq!(r.f, 0xA0);
}

#[test]
fn swap_twice_is_identity() {
    for v in 0..=255u8 {
        let mut r = regs();
        let once = r.alu_swap(v);
        let z1 = r.f & 0x80;
        let twice = r.alu_swap(once);
        assert_eq!(twice, v);
        assert_eq!(r.f & 0x80, z1);
    }
    let mut r = regs();
    assert_eq!(r.alu_swap(0x12), 0x21);
    assert_eq!(r.f, 0x00);
}

#[test]
fn rotate_eight_times_is_identity() {
    for v in 0..=255u8 {
        let mut r = regs();
        let mut x = v;
        let mut y = v;
        for _ in 0..8 {
            x = r.alu_rlc(x);
            y = r.alu_rrc(y);
        }
        assert_eq!(x, v);
        assert_eq!(y, v);
    }
    let mut r = regs();
    assert_eq!(r.alu_rlc(0x80), 0x01);
    assert_eq!(r.f, 0x10);
}

#[test]
fn daa_after_bcd_add() {
    for x in 0..100u16 {
        for y in [0u16, 1, 9, 10, 45, 50, 55, 99] {
            let p = ((x / 10) << 4 | (x % 10)) as u8;
            let q = ((y / 10) << 4 | (y % 10)) as u8;
            let mut r = regs();
            r.a = p;
            r.f = 0;
            r.alu_add(q, false);
            r.alu_daa();
            let sum = x + y;
            let expect = (((sum % 100) / 10) << 4 | (sum % 10)) as u8;
            assert_eq!(r.a, expect);
            assert_eq!(r.f & 0x10 != 0, sum > 99);
        }
    }
}

#[test]
fn flag_low_nibble_is_dropped_on_pop_af() {
    let mut r = regs();
    r.setaf(0x12FF);
    assert_eq!(r.a, 0x12);
    assert_eq!(r.f, 0xF0);
    assert_eq!(r.af(), 0x12F0);
}

#[test]
fn add16_keeps_zero_and_sets_carries() {
    let mut r = regs();
    r.f = 0x80;
    r.sethl(0x0FFF);
    r.alu_add16(0x0001);
    assert_eq!(r.hl(), 0x1000);
    assert_eq!(r.f, 0xA0);
    r.sethl(0xFFFF);
    r.alu_add16(0x0001);
    assert_eq!(r.hl(), 0x0000);
    assert_eq!(r.f, 0xB0);
}

#[test]
fn bit_test_keeps_carry() {
    let mut r = regs();
    r.f = 0x10;
    r.alu_bit(0x08, 3);
    assert_eq!(r.f, 0x30);
    r.alu_bit(0x08, 2);
    assert_eq!(r.f, 0xB0);
}
