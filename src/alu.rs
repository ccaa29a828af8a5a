use vstd::prelude::*;
use crate::register::{flag_c, flag_h, flag_n, flag_z, make_flags, pack_flags, pair, Registers};

verus! {

/// Carry brought into ADC / SBC: the C flag when the carry form is used.
pub open spec fn carry_in(f: u8, usec: bool) -> u8 {
    if usec && flag_c(f) { 1u8 } else { 0u8 }
}

pub open spec fn add_result(a: u8, b: u8, c: u8) -> u8 {
    ((a as int + b as int + c as int) % 256) as u8
}

pub open spec fn add_flags(a: u8, b: u8, c: u8) -> u8 {
    pack_flags(
        add_result(a, b, c) == 0,
        false,
        (a & 0x0F) as int + (b & 0x0F) as int + c as int > 0x0F,
        a as int + b as int + c as int > 0xFF,
    )
}

pub open spec fn sub_result(a: u8, b: u8, c: u8) -> u8 {
    ((a as int - b as int - c as int + 512) % 256) as u8
}

pub open spec fn sub_flags(a: u8, b: u8, c: u8) -> u8 {
    pack_flags(
        sub_result(a, b, c) == 0,
        true,
        ((a & 0x0F) as int) < (b & 0x0F) as int + c as int,
        (a as int) < b as int + c as int,
    )
}

pub open spec fn inc_flags(a: u8, f: u8) -> u8 {
    pack_flags(a == 0xFF, false, a & 0x0F == 0x0F, flag_c(f))
}

pub open spec fn dec_flags(a: u8, f: u8) -> u8 {
    pack_flags(a == 0x01, true, a & 0x0F == 0, flag_c(f))
}

pub open spec fn swap_result(a: u8) -> u8 {
    (a >> 4u8) | (a << 4u8)
}

pub open spec fn rlc_result(a: u8) -> u8 {
    (a << 1u8) | (a >> 7u8)
}

pub open spec fn rrc_result(a: u8) -> u8 {
    (a >> 1u8) | (a << 7u8)
}

pub open spec fn rl_result(a: u8, f: u8) -> u8 {
    (a << 1u8) | (if flag_c(f) { 1u8 } else { 0u8 })
}

pub open spec fn rr_result(a: u8, f: u8) -> u8 {
    (a >> 1u8) | (if flag_c(f) { 0x80u8 } else { 0u8 })
}

pub open spec fn sla_result(a: u8) -> u8 {
    a << 1u8
}

pub open spec fn sra_result(a: u8) -> u8 {
    (a >> 1u8) | (a & 0x80)
}

pub open spec fn srl_result(a: u8) -> u8 {
    a >> 1u8
}

/// Flags after a rotate or shift: Z from the result, C from the bit shifted out.
pub open spec fn shift_flags(r: u8, c: bool) -> u8 {
    pack_flags(r == 0, false, false, c)
}

pub open spec fn top_bit(a: u8) -> bool {
    a & 0x80 == 0x80
}

pub open spec fn low_bit(a: u8) -> bool {
    a & 0x01 == 0x01
}

/// Correction added to (or taken from) A by DAA.
pub open spec fn daa_adjust(a: u8, f: u8) -> u8 {
    let base: u8 = (if flag_c(f) { 0x60u8 } else { 0u8 }) | (if flag_h(f) { 0x06u8 } else { 0u8 });
    if flag_n(f) {
        base
    } else {
        base | (if a & 0x0F > 0x09 { 0x06u8 } else { 0u8 }) | (if a > 0x99 { 0x60u8 } else { 0u8 })
    }
}

pub open spec fn daa_result(a: u8, f: u8) -> u8 {
    if flag_n(f) {
        ((a as int - daa_adjust(a, f) as int + 256) % 256) as u8
    } else {
        ((a as int + daa_adjust(a, f) as int) % 256) as u8
    }
}

pub open spec fn daa_flags(a: u8, f: u8) -> u8 {
    pack_flags(daa_result(a, f) == 0, flag_n(f), false, daa_adjust(a, f) >= 0x60)
}

/// The immediate of ADD SP,i8 / LD HL,SP+i8 sign-extended to 16 bits.
pub open spec fn sign_extend(b: u8) -> u16 {
    if b >= 0x80 { (b as int + 0xFF00) as u16 } else { b as u16 }
}

pub open spec fn add16imm_flags(a: u16, b: u8) -> u8 {
    pack_flags(
        false,
        false,
        (a & 0x000F) + (sign_extend(b) & 0x000F) > 0x000F,
        (a & 0x00FF) + (sign_extend(b) & 0x00FF) > 0x00FF,
    )
}

pub open spec fn add16imm_result(a: u16, b: u8) -> u16 {
    ((a as int + sign_extend(b) as int) % 65536) as u16
}

impl Registers {
    /// ADD / ADC: A += b (+ carry).
    pub fn alu_add(&mut self, b: u8, usec: bool)
        ensures
            *final(self) == (Registers {
                a: add_result(old(self).a, b, carry_in(old(self).f, usec)),
                f: add_flags(old(self).a, b, carry_in(old(self).f, usec)),
                ..*old(self)
            }),
            final(self).wf(),
    {
        let c: u8 = if usec && self.f & 0x10 == 0x10 { 1 } else { 0 };
        let a = self.a;
        let sum: u16 = a as u16 + b as u16 + c as u16;
        let r = (sum % 256) as u8;
        assert(a & 0x0F <= 0x0F && b & 0x0F <= 0x0F) by (bit_vector);
        self.f = make_flags(r == 0, false, (a & 0x0F) + (b & 0x0F) + c > 0x0F, sum > 0xFF);
        self.a = r;
    }

    /// SUB / SBC: A -= b (+ carry).
    pub fn alu_sub(&mut self, b: u8, usec: bool)
        ensures
            *final(self) == (Registers {
                a: sub_result(old(self).a, b, carry_in(old(self).f, usec)),
                f: sub_flags(old(self).a, b, carry_in(old(self).f, usec)),
                ..*old(self)
            }),
            final(self).wf(),
    {
        let c: u8 = if usec && self.f & 0x10 == 0x10 { 1 } else { 0 };
        let a = self.a;
        let r = a.wrapping_sub(b).wrapping_sub(c);
        assert(a & 0x0F <= 0x0F && b & 0x0F <= 0x0F) by (bit_vector);
        self.f = make_flags(r == 0, true, (a & 0x0F) < (b & 0x0F) + c, (a as u16) < (b as u16) + (c as u16));
        self.a = r;
    }

    /// CP: the flags of SUB without storing the result.
    pub fn alu_cp(&mut self, b: u8)
        ensures
            *final(self) == (Registers { f: sub_flags(old(self).a, b, 0), ..*old(self) }),
            final(self).wf(),
    {
        let r = self.a;
        self.alu_sub(b, false);
        self.a = r;
    }

    pub fn alu_and(&mut self, b: u8)
        ensures
            *final(self) == (Registers {
                a: old(self).a & b,
                f: pack_flags(old(self).a & b == 0, false, true, false),
                ..*old(self)
            }),
            final(self).wf(),
    {
        let r = self.a & b;
        self.f = make_flags(r == 0, false, true, false);
        self.a = r;
    }

    pub fn alu_or(&mut self, b: u8)
        ensures
            *final(self) == (Registers {
                a: old(self).a | b,
                f: pack_flags(old(self).a | b == 0, false, false, false),
                ..*old(self)
            }),
            final(self).wf(),
    {
        let r = self.a | b;
        self.f = make_flags(r == 0, false, false, false);
        self.a = r;
    }

    pub fn alu_xor(&mut self, b: u8)
        ensures
            *final(self) == (Registers {
                a: old(self).a ^ b,
                f: pack_flags(old(self).a ^ b == 0, false, false, false),
                ..*old(self)
            }),
            final(self).wf(),
    {
        let r = self.a ^ b;
        self.f = make_flags(r == 0, false, false, false);
        self.a = r;
    }

    /// INC on an 8-bit value: C is kept.
    pub fn alu_inc(&mut self, a: u8) -> (r: u8)
        ensures
            r == ((a as int + 1) % 256) as u8,
            *final(self) == (Registers { f: inc_flags(a, old(self).f), ..*old(self) }),
            final(self).wf(),
    {
        let r = a.wrapping_add(1);
        assert(a & 0x0F <= 0x0F) by (bit_vector);
        self.f = make_flags(r == 0, false, (a & 0x0F) + 1 > 0x0F, self.f & 0x10 == 0x10);
        r
    }

    /// DEC on an 8-bit value: C is kept.
    pub fn alu_dec(&mut self, a: u8) -> (r: u8)
        ensures
            r == ((a as int + 255) % 256) as u8,
            *final(self) == (Registers { f: dec_flags(a, old(self).f), ..*old(self) }),
            final(self).wf(),
    {
        let r = a.wrapping_sub(1);
        self.f = make_flags(r == 0, true, (a & 0x0F) == 0, self.f & 0x10 == 0x10);
        r
    }

    /// ADD HL,b: Z is kept, H from bit 11, C from bit 15.
    pub fn alu_add16(&mut self, b: u16)
        requires
            old(self).wf(),
        ensures
            final(self).spec_hl() == ((old(self).spec_hl() as int + b as int) % 65536) as u16,
            final(self).f == pack_flags(
                flag_z(old(self).f),
                false,
                (old(self).spec_hl() & 0x0FFF) + (b & 0x0FFF) > 0x0FFF,
                old(self).spec_hl() as int + b as int > 0xFFFF,
            ),
            final(self).wf(),
            *final(self) == (Registers { f: final(self).f, h: final(self).h, l: final(self).l, ..*old(self) }),
            final(self).h == (((old(self).spec_hl() as int + b as int) % 65536) / 256) as u8,
            final(self).l == (((old(self).spec_hl() as int + b as int) % 65536) % 256) as u8,
    {
        let a = self.hl();
        let r = a.wrapping_add(b);
        assert(a & 0x0FFF <= 0x0FFF && b & 0x0FFF <= 0x0FFF) by (bit_vector);
        self.f = make_flags(self.f & 0x80 == 0x80, false, (a & 0x0FFF) + (b & 0x0FFF) > 0x0FFF, a > 0xFFFF - b);
        self.sethl(r);
    }

    /// Sum of a 16-bit value and a signed immediate, as ADD SP,i8 and LD HL,SP+i8 compute it.
    pub fn alu_add16imm(&mut self, a: u16, b: u8) -> (r: u16)
        ensures
            r == add16imm_result(a, b),
            *final(self) == (Registers { f: add16imm_flags(a, b), ..*old(self) }),
            final(self).wf(),
    {
        let ext: u16 = if b >= 0x80 { b as u16 + 0xFF00 } else { b as u16 };
        assert(a & 0x000F <= 0x000F && ext & 0x000F <= 0x000F && a & 0x00FF <= 0x00FF && ext & 0x00FF <= 0x00FF) by (bit_vector);
        self.f = make_flags(false, false, (a & 0x000F) + (ext & 0x000F) > 0x000F, (a & 0x00FF) + (ext & 0x00FF) > 0x00FF);
        a.wrapping_add(ext)
    }

    pub fn alu_swap(&mut self, a: u8) -> (r: u8)
        ensures
            r == swap_result(a),
            *final(self) == (Registers { f: pack_flags(a == 0, false, false, false), ..*old(self) }),
            final(self).wf(),
    {
        self.f = make_flags(a == 0, false, false, false);
        (a >> 4) | (a << 4)
    }

    pub fn alu_srflagupdate(&mut self, r: u8, c: bool)
        ensures
            *final(self) == (Registers { f: shift_flags(r, c), ..*old(self) }),
            final(self).wf(),
    {
        self.f = make_flags(r == 0, false, false, c);
    }

    pub fn alu_rlc(&mut self, a: u8) -> (r: u8)
        ensures
            r == rlc_result(a),
            *final(self) == (Registers { f: shift_flags(r, top_bit(a)), ..*old(self) }),
            final(self).wf(),
    {
        let c = a & 0x80 == 0x80;
        let r = (a << 1) | (a >> 7);
        self.alu_srflagupdate(r, c);
        r
    }

    pub fn alu_rl(&mut self, a: u8) -> (r: u8)
        ensures
            r == rl_result(a, old(self).f),
            *final(self) == (Registers { f: shift_flags(r, top_bit(a)), ..*old(self) }),
            final(self).wf(),
    {
        let c = a & 0x80 == 0x80;
        let r = (a << 1) | (if self.f & 0x10 == 0x10 { 1u8 } else { 0u8 });
        self.alu_srflagupdate(r, c);
        r
    }

    pub fn alu_rrc(&mut self, a: u8) -> (r: u8)
        ensures
            r == rrc_result(a),
            *final(self) == (Registers { f: shift_flags(r, low_bit(a)), ..*old(self) }),
            final(self).wf(),
    {
        let c = a & 0x01 == 0x01;
        let r = (a >> 1) | (a << 7);
        self.alu_srflagupdate(r, c);
        r
    }

    pub fn alu_rr(&mut self, a: u8) -> (r: u8)
        ensures
            r == rr_result(a, old(self).f),
            *final(self) == (Registers { f: shift_flags(r, low_bit(a)), ..*old(self) }),
            final(self).wf(),
    {
        let c = a & 0x01 == 0x01;
        let r = (a >> 1) | (if self.f & 0x10 == 0x10 { 0x80u8 } else { 0u8 });
        self.alu_srflagupdate(r, c);
        r
    }

    pub fn alu_sla(&mut self, a: u8) -> (r: u8)
        ensures
            r == sla_result(a),
            *final(self) == (Registers { f: shift_flags(r, top_bit(a)), ..*old(self) }),
            final(self).wf(),
    {
        let c = a & 0x80 == 0x80;
        let r = a << 1;
        self.alu_srflagupdate(r, c);
        r
    }

    pub fn alu_sra(&mut self, a: u8) -> (r: u8)
        ensures
            r == sra_result(a),
            *final(self) == (Registers { f: shift_flags(r, low_bit(a)), ..*old(self) }),
            final(self).wf(),
    {
        let c = a & 0x01 == 0x01;
        let r = (a >> 1) | (a & 0x80);
        self.alu_srflagupdate(r, c);
        r
    }

    pub fn alu_srl(&mut self, a: u8) -> (r: u8)
        ensures
            r == srl_result(a),
            *final(self) == (Registers { f: shift_flags(r, low_bit(a)), ..*old(self) }),
            final(self).wf(),
    {
        let c = a & 0x01 == 0x01;
        let r = a >> 1;
        self.alu_srflagupdate(r, c);
        r
    }

    /// BIT n,a: Z set when bit n of a is clear; C is kept.
    pub fn alu_bit(&mut self, a: u8, b: u8)
        requires
            b < 8,
        ensures
            *final(self) == (Registers {
                f: pack_flags(a & (1u8 << b) == 0, false, true, flag_c(old(self).f)),
                ..*old(self)
            }),
            final(self).wf(),
    {
        let r = a & (1u8 << b) == 0;
        self.f = make_flags(r, false, true, self.f & 0x10 == 0x10);
    }

    /// DAA: decimal correction of A after a BCD addition or subtraction.
    pub fn alu_daa(&mut self)
        ensures
            *final(self) == (Registers {
                a: daa_result(old(self).a, old(self).f),
                f: daa_flags(old(self).a, old(self).f),
                ..*old(self)
            }),
            final(self).wf(),
    {
        let mut a = self.a;
        let n = self.f & 0x40 == 0x40;
        let mut adjust: u8 = if self.f & 0x10 == 0x10 { 0x60 } else { 0x00 };
        if self.f & 0x20 == 0x20 {
            adjust = adjust | 0x06;
        }
        if !n {
            if a & 0x0F > 0x09 {
                adjust = adjust | 0x06;
            }
            if a > 0x99 {
                adjust = adjust | 0x60;
            }
            a = a.wrapping_add(adjust);
        } else {
            a = a.wrapping_sub(adjust);
        }
        assert(forall|x: u8| #[trigger] (x | 0u8) == x) by (bit_vector);
        self.f = make_flags(a == 0, n, false, adjust >= 0x60);
        self.a = a;
    }
}

} // verus!

verus! {

/// Flags of an 8-bit addition computed on a 16-bit widened sum.
pub open spec fn add_flags_wide(a: u8, b: u8, c: u8) -> u8 {
    let r: u16 = (a as u16 + b as u16 + c as u16) as u16;
    pack_flags(r & 0xFF == 0, false, (a as u16 ^ b as u16 ^ r) & 0x10 != 0, r > 0xFF)
}

/// Flags of an 8-bit subtraction computed on a 16-bit widened difference.
pub open spec fn sub_flags_wide(a: u8, b: u8, c: u8) -> u8 {
    let r: u16 = ((a as int - b as int - c as int + 65536) % 65536) as u16;
    pack_flags(r & 0xFF == 0, true, (a as u16 ^ b as u16 ^ r) & 0x10 != 0, r > 0xFF)
}

/// The nibble-wise ADD/SUB flag rules agree with the widened reference for every
/// pair of bytes and carry in {0, 1}; so do the results.
pub proof fn lemma_flags_match_wide(a: u8, b: u8, c: u8)
    requires
        c <= 1,
    ensures
        add_flags(a, b, c) == add_flags_wide(a, b, c),
        sub_flags(a, b, c) == sub_flags_wide(a, b, c),
        add_result(a, b, c) as u16 == (a as u16 + b as u16 + c as u16) as u16 & 0xFF,
        sub_result(a, b, c) as u16 == ((a as int - b as int - c as int + 65536) % 65536) as u16 & 0xFF,
{
    let r: u16 = (a as u16 + b as u16 + c as u16) as u16;
    assert(add_result(a, b, c) as u16 == r & 0xFF) by (bit_vector)
        requires
            c <= 1,
            r == (a as u16 + b as u16 + c as u16) as u16,
    ;
    assert(((a & 0x0F) as int + (b & 0x0F) as int + c as int > 0x0F) == ((a as u16 ^ b as u16 ^ r) & 0x10 != 0))
        by (bit_vector)
        requires
            c <= 1,
            r == (a as u16 + b as u16 + c as u16) as u16,
    ;
    let s: u16 = ((a as int - b as int - c as int + 65536) % 65536) as u16;
    let d = sub_result(a, b, c);
    assert((s as int + b as int + c as int) % 65536 == a as int);
    assert((d as int + b as int + c as int) % 256 == a as int);
    assert(forall|x: u32| #[trigger] (x & 0xFFFF) == x % 65536) by (bit_vector);
    assert(forall|x: u32| #[trigger] (x & 0xFF) == x % 256) by (bit_vector);
    assert(((s as u32 + b as u32 + c as u32) as u32) & 0xFFFF == a as u32);
    assert(((d as u32 + b as u32 + c as u32) as u32) & 0xFF == a as u32);
    assert(d as u16 == s & 0xFF && ((a & 0x0F) < (b & 0x0F) + c) == ((a as u16 ^ b as u16 ^ s) & 0x10 != 0)
        && ((a as u32) < (b as u32) + (c as u32)) == (s > 0xFF)) by (bit_vector)
        requires
            c <= 1,
            ((s as u32 + b as u32 + c as u32) as u32) & 0xFFFF == a as u32,
            ((d as u32 + b as u32 + c as u32) as u32) & 0xFF == a as u32,
    ;
}

/// INC followed by DEC gives back the byte; N is clear after INC and set after DEC,
/// and C comes through both unchanged.
pub proof fn lemma_inc_dec(a: u8, f: u8)
    ensures
        ({
            let r = ((a as int + 1) % 256) as u8;
            let f1 = inc_flags(a, f);
            let back = ((r as int + 255) % 256) as u8;
            let f2 = dec_flags(r, f1);
            &&& back == a
            &&& !flag_n(f1)
            &&& flag_n(f2)
            &&& flag_c(f2) == flag_c(f)
        }),
{
    let r = ((a as int + 1) % 256) as u8;
    crate::register::lemma_pack_flags(a == 0xFF, false, a & 0x0F == 0x0F, flag_c(f));
    let f1 = inc_flags(a, f);
    crate::register::lemma_pack_flags(r == 0x01, true, r & 0x0F == 0, flag_c(f1));
}

/// SWAP twice gives back the byte, and Z after a SWAP is the same for the byte and its swap.
pub proof fn lemma_swap_twice(a: u8)
    ensures
        swap_result(swap_result(a)) == a,
        (swap_result(a) == 0) == (a == 0),
{
    assert(swap_result(swap_result(a)) == a) by (bit_vector);
    assert((swap_result(a) == 0) == (a == 0)) by (bit_vector);
}

/// Eight RLC, or eight RRC, give back the byte.
pub proof fn lemma_rotate_eight(a: u8)
    ensures
        rlc_result(rlc_result(rlc_result(rlc_result(rlc_result(rlc_result(rlc_result(rlc_result(a)))))))) == a,
        rrc_result(rrc_result(rrc_result(rrc_result(rrc_result(rrc_result(rrc_result(rrc_result(a)))))))) == a,
{
    assert(rlc_result(rlc_result(rlc_result(rlc_result(rlc_result(rlc_result(rlc_result(rlc_result(a)))))))) == a)
        by (bit_vector);
    assert(rrc_result(rrc_result(rrc_result(rrc_result(rrc_result(rrc_result(rrc_result(rrc_result(a)))))))) == a)
        by (bit_vector);
}

/// Both digits of a packed BCD byte are decimal.
pub open spec fn valid_bcd(p: u8) -> bool {
    p & 0x0F <= 9 && p >> 4u8 <= 9
}

pub open spec fn bcd_value(p: u8) -> int {
    (p >> 4u8) as int * 10 + (p & 0x0F) as int
}

/// Decimal correction of a BCD sum, on plain bytes.
proof fn lemma_daa_digits(p: u8, q: u8, a: u8, r: u8, adj: u8, hf: bool, cf: bool, vp: u16, vq: u16, vr: u16)
    by (bit_vector)
    requires
        valid_bcd(p),
        valid_bcd(q),
        a == ((p as int + q as int) % 256) as u8,
        hf == ((p & 0x0F) as int + (q & 0x0F) as int > 0x0F),
        cf == (p as int + q as int > 0xFF),
        adj == (if cf { 0x60u8 } else { 0u8 }) | (if hf { 0x06u8 } else { 0u8 }) | (if a & 0x0F > 0x09 {
            0x06u8
        } else {
            0u8
        }) | (if a > 0x99 { 0x60u8 } else { 0u8 }),
        r == ((a as int + adj as int) % 256) as u8,
        vp == ((p >> 4u8) as u16 * 10 + (p & 0x0F) as u16) as u16,
        vq == ((q >> 4u8) as u16 * 10 + (q & 0x0F) as u16) as u16,
        vr == ((r >> 4u8) as u16 * 10 + (r & 0x0F) as u16) as u16,
    ensures
        valid_bcd(r),
        (if (vp + vq) as u16 > 99 { (vr + 100) as u16 } else { vr }) == (vp + vq) as u16,
        (adj >= 0x60) == ((vp + vq) as u16 > 99),
        (r >> 4u8) <= 15 && (p >> 4u8) <= 15 && (q >> 4u8) <= 15,
{
}

/// ADD of two BCD bytes followed by DAA gives the BCD of the decimal sum modulo 100,
/// with C set exactly when the sum exceeds 99.
pub proof fn lemma_daa_after_add(p: u8, q: u8)
    requires
        valid_bcd(p),
        valid_bcd(q),
    ensures
        valid_bcd(daa_result(add_result(p, q, 0), add_flags(p, q, 0))),
        bcd_value(daa_result(add_result(p, q, 0), add_flags(p, q, 0))) == (bcd_value(p) + bcd_value(q)) % 100,
        flag_c(daa_flags(add_result(p, q, 0), add_flags(p, q, 0))) == (bcd_value(p) + bcd_value(q) > 99),
{
    let a = add_result(p, q, 0);
    let f = add_flags(p, q, 0);
    let hf = (p & 0x0F) as int + (q & 0x0F) as int > 0x0F;
    let cf = p as int + q as int > 0xFF;
    crate::register::lemma_pack_flags(a == 0, false, hf, cf);
    let adj = daa_adjust(a, f);
    let r = daa_result(a, f);
    crate::register::lemma_pack_flags(r == 0, false, false, adj >= 0x60);
    let vp: u16 = ((p >> 4u8) as u16 * 10 + (p & 0x0F) as u16) as u16;
    let vq: u16 = ((q >> 4u8) as u16 * 10 + (q & 0x0F) as u16) as u16;
    let vr: u16 = ((r >> 4u8) as u16 * 10 + (r & 0x0F) as u16) as u16;
    lemma_daa_digits(p, q, a, r, adj, hf, cf, vp, vq, vr);
    assert(bcd_value(p) == vp as int && bcd_value(q) == vq as int && bcd_value(r) == vr as int);
}

} // verus!
