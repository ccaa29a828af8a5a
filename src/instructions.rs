use vstd::prelude::*;
use crate::alu::{
    add16imm_flags, add16imm_result, daa_flags, daa_result, dec_flags, inc_flags, sign_extend,
    add_flags, add_result, carry_in, sub_flags, sub_result, low_bit, rl_result, rlc_result, rr_result, rrc_result, shift_flags, sla_result, sra_result, srl_result,
    swap_result, top_bit,
};
use crate::cpu::{add16, next16, sp_down, sp_up, CPU};
use crate::mmu::{plain, word, MMU};
use crate::register::{flag_c, flag_z, make_flags, pack_flags, pair, Registers};

verus! {

/// Opcodes of the primary table that have no instruction.
pub open spec fn illegal(op: u8) -> bool {
    op == 0xD3 || op == 0xDB || op == 0xDD || op == 0xE3 || op == 0xE4 || op == 0xEB || op == 0xEC || op == 0xED
        || op == 0xF4 || op == 0xFC || op == 0xFD
}

/// Register `i` of the 3-bit register field (6, the (HL) operand, excluded).
pub open spec fn reg8(r: Registers, i: u8) -> u8 {
    if i == 0 {
        r.b
    } else if i == 1 {
        r.c
    } else if i == 2 {
        r.d
    } else if i == 3 {
        r.e
    } else if i == 4 {
        r.h
    } else if i == 5 {
        r.l
    } else {
        r.a
    }
}

/// The register file with register `i` set to `v`.
pub open spec fn with_reg8(r: Registers, i: u8, v: u8) -> Registers {
    if i == 0 {
        Registers { b: v, ..r }
    } else if i == 1 {
        Registers { c: v, ..r }
    } else if i == 2 {
        Registers { d: v, ..r }
    } else if i == 3 {
        Registers { e: v, ..r }
    } else if i == 4 {
        Registers { h: v, ..r }
    } else if i == 5 {
        Registers { l: v, ..r }
    } else {
        Registers { a: v, ..r }
    }
}

/// Value and flags of a 0xCB-prefixed operation `op` on `v` with flags `f`.
pub open spec fn cb_op(op: u8, v: u8, f: u8) -> (u8, u8) {
    let b = (op / 8) % 8;
    if op / 64 == 0 {
        let r = if b == 0 {
            rlc_result(v)
        } else if b == 1 {
            rrc_result(v)
        } else if b == 2 {
            rl_result(v, f)
        } else if b == 3 {
            rr_result(v, f)
        } else if b == 4 {
            sla_result(v)
        } else if b == 5 {
            sra_result(v)
        } else if b == 6 {
            swap_result(v)
        } else {
            srl_result(v)
        };
        let nf = if b == 6 {
            pack_flags(v == 0, false, false, false)
        } else if b == 0 || b == 2 || b == 4 {
            shift_flags(r, top_bit(v))
        } else {
            shift_flags(r, low_bit(v))
        };
        (r, nf)
    } else if op / 64 == 1 {
        (v, pack_flags(v & (1u8 << b) == 0, false, true, flag_c(f)))
    } else if op / 64 == 2 {
        (v & !(1u8 << b), f)
    } else {
        (v | (1u8 << b), f)
    }
}

/// Registers after a 0xCB-prefixed operation `op` on a register operand.
pub open spec fn cb_regs(r: Registers, op: u8) -> Registers {
    let i = op % 8;
    let (v, f) = cb_op(op, reg8(r, i), r.f);
    if op / 64 == 1 {
        Registers { f, ..r }
    } else {
        with_reg8(Registers { f, ..r }, i, v)
    }
}

/// Registers after 8-bit ALU operation `k` (ADD, ADC, SUB, SBC, AND, XOR, OR, CP) with `v`.
pub open spec fn alu_regs(r: Registers, k: u8, v: u8) -> Registers {
    if k == 0 || k == 1 {
        let c = carry_in(r.f, k == 1);
        Registers { a: add_result(r.a, v, c), f: add_flags(r.a, v, c), ..r }
    } else if k == 2 || k == 3 {
        let c = carry_in(r.f, k == 3);
        Registers { a: sub_result(r.a, v, c), f: sub_flags(r.a, v, c), ..r }
    } else if k == 4 {
        Registers { a: r.a & v, f: pack_flags(r.a & v == 0, false, true, false), ..r }
    } else if k == 5 {
        Registers { a: r.a ^ v, f: pack_flags(r.a ^ v == 0, false, false, false), ..r }
    } else if k == 6 {
        Registers { a: r.a | v, f: pack_flags(r.a | v == 0, false, false, false), ..r }
    } else {
        Registers { f: sub_flags(r.a, v, 0), ..r }
    }
}

/// Operand `i` of the 3-bit register field; 6 reads the byte at HL.
pub open spec fn operand(c: CPU, i: u8) -> u8 {
    if i == 6 { c.mmu.spec_rb(c.reg.spec_hl()) } else { reg8(c.reg, i) }
}

/// `c1` is `c` after a byte write of `v` at `a`: only the bus changed, and where `a`
/// is plain RAM only that byte of it.
pub open spec fn mem_written(c: CPU, c1: CPU, a: u16, v: u8) -> bool {
    &&& c1 == (CPU { mmu: c1.mmu, ..c })
    &&& plain(a) ==> {
        &&& c1.mmu.ram() == c.mmu.ram().update(c.mmu.slot(a), v)
        &&& c1.mmu == (MMU { wram: c1.mmu.wram, zram: c1.mmu.zram, ..c.mmu })
    }
}

/// `c1` is `c` after a push of `x`, with registers `r` (SP already moved down).
pub open spec fn pushed(c: CPU, c1: CPU, x: u16, r: Registers) -> bool {
    let s = sp_down(c.reg.sp);
    &&& c1 == (CPU { reg: r, mmu: c1.mmu, ..c })
    &&& r.sp == s
    &&& plain(s) && plain(next16(s)) ==> {
        &&& c1.mmu.ram() == c.mmu.ram().update(c.mmu.slot(s), (x % 256) as u8).update(c.mmu.slot(next16(s)), (x / 256) as u8)
        &&& c1.mmu == (MMU { wram: c1.mmu.wram, zram: c1.mmu.zram, ..c.mmu })
    }
}

/// Branch condition `k`: NZ, Z, NC, C.
pub open spec fn cond(f: u8, k: u8) -> bool {
    if k == 0 {
        !flag_z(f)
    } else if k == 1 {
        flag_z(f)
    } else if k == 2 {
        !flag_c(f)
    } else {
        flag_c(f)
    }
}

/// Register pair `k`: BC, DE, HL, SP.
pub open spec fn r16(r: Registers, k: u8) -> u16 {
    if k == 0 {
        pair(r.b, r.c)
    } else if k == 1 {
        pair(r.d, r.e)
    } else if k == 2 {
        pair(r.h, r.l)
    } else {
        r.sp
    }
}

pub open spec fn with_r16(r: Registers, k: u8, v: u16) -> Registers {
    if k == 0 {
        Registers { b: (v / 256) as u8, c: (v % 256) as u8, ..r }
    } else if k == 1 {
        Registers { d: (v / 256) as u8, e: (v % 256) as u8, ..r }
    } else if k == 2 {
        Registers { h: (v / 256) as u8, l: (v % 256) as u8, ..r }
    } else {
        Registers { sp: v, ..r }
    }
}

pub open spec fn with_pc(c: CPU, pc: u16) -> CPU {
    CPU { reg: Registers { pc, ..c.reg }, ..c }
}

/// Opcodes 0x00-0x3F, from the state `c` just after the opcode fetch; `n` cycles.
pub open spec fn low_effect(c: CPU, c1: CPU, op: u8, n: u32) -> bool {
    let r0 = c.reg;
    let pc1 = r0.pc;
    let b = c.mmu.spec_rb(pc1);
    let nn = word(c.mmu, pc1);
    let row = op / 8;
    let k = (op / 16) % 4;
    let pc2 = next16(pc1);
    let pc3 = add16(pc1, 2);
    let jr = add16(pc2, sign_extend(b) as int);
    let v = reg8(r0, row);
    let a = r0.a;
    &&& op == 0x00 ==> c1 == c && n == 1
    &&& op % 16 == 1 ==> c1 == (CPU { reg: with_r16(Registers { pc: pc3, ..r0 }, k, nn), ..c }) && n == 3
    &&& op % 16 == 3 ==> c1 == (CPU { reg: with_r16(r0, k, add16(r16(r0, k), 1)), ..c }) && n == 2
    &&& op % 16 == 11 ==> c1 == (CPU { reg: with_r16(r0, k, add16(r16(r0, k), 65535)), ..c }) && n == 2
    &&& op == 0x0A ==> c1 == (CPU { reg: Registers { a: c.mmu.spec_rb(pair(r0.b, r0.c)), ..r0 }, ..c }) && n == 2
    &&& op == 0x1A ==> c1 == (CPU { reg: Registers { a: c.mmu.spec_rb(pair(r0.d, r0.e)), ..r0 }, ..c }) && n == 2
    &&& op == 0x18 ==> c1 == with_pc(c, jr) && n == 3
    &&& (op == 0x20 || op == 0x28 || op == 0x30 || op == 0x38) ==> if cond(r0.f, (row - 4) as u8) {
        c1 == with_pc(c, jr) && n == 3
    } else {
        c1 == with_pc(c, pc2) && n == 2
    }
    &&& op % 8 == 4 && row != 6 ==> c1 == (CPU {
        reg: with_reg8(Registers { f: inc_flags(v, r0.f), ..r0 }, row, ((v as int + 1) % 256) as u8),
        ..c
    }) && n == 1
    &&& op % 8 == 5 && row != 6 ==> c1 == (CPU {
        reg: with_reg8(Registers { f: dec_flags(v, r0.f), ..r0 }, row, ((v as int + 255) % 256) as u8),
        ..c
    }) && n == 1
    &&& op % 8 == 6 && row != 6 ==> c1 == (CPU { reg: with_reg8(Registers { pc: pc2, ..r0 }, row, b), ..c }) && n == 2
    &&& op == 0x34 ==> {
        let m = c.mmu.spec_rb(r0.spec_hl());
        mem_written(CPU { reg: Registers { f: inc_flags(m, r0.f), ..r0 }, ..c }, c1, r0.spec_hl(), ((m as int + 1) % 256) as u8)
            && n == 3
    }
    &&& op == 0x35 ==> {
        let m = c.mmu.spec_rb(r0.spec_hl());
        mem_written(CPU { reg: Registers { f: dec_flags(m, r0.f), ..r0 }, ..c }, c1, r0.spec_hl(), ((m as int + 255) % 256) as u8)
            && n == 3
    }
    &&& op == 0x36 ==> mem_written(with_pc(c, pc2), c1, r0.spec_hl(), b) && n == 3
    &&& op == 0x07 ==> c1 == (CPU { reg: Registers { a: rlc_result(a), f: pack_flags(false, false, false, top_bit(a)), ..r0 }, ..c })
        && n == 1
    &&& op == 0x0F ==> c1 == (CPU { reg: Registers { a: rrc_result(a), f: pack_flags(false, false, false, low_bit(a)), ..r0 }, ..c })
        && n == 1
    &&& op == 0x17 ==> c1 == (CPU { reg: Registers { a: rl_result(a, r0.f), f: pack_flags(false, false, false, top_bit(a)), ..r0 }, ..c })
        && n == 1
    &&& op == 0x1F ==> c1 == (CPU { reg: Registers { a: rr_result(a, r0.f), f: pack_flags(false, false, false, low_bit(a)), ..r0 }, ..c })
        && n == 1
    &&& op == 0x27 ==> c1 == (CPU { reg: Registers { a: daa_result(a, r0.f), f: daa_flags(a, r0.f), ..r0 }, ..c }) && n == 1
    &&& op == 0x2F ==> c1 == (CPU { reg: Registers { a: !a, f: pack_flags(flag_z(r0.f), true, true, flag_c(r0.f)), ..r0 }, ..c })
        && n == 1
    &&& op == 0x37 ==> c1 == (CPU { reg: Registers { f: pack_flags(flag_z(r0.f), false, false, true), ..r0 }, ..c }) && n == 1
    &&& op == 0x3F ==> c1 == (CPU { reg: Registers { f: pack_flags(flag_z(r0.f), false, false, !flag_c(r0.f)), ..r0 }, ..c })
        && n == 1
    &&& op == 0x10 ==> c1 == (CPU { mmu: c1.mmu, ..c }) && n == 1 && !c1.mmu.speed_switch_req && (if c.mmu.speed_switch_req {
        c1.mmu == (MMU { gbspeed: c1.mmu.gbspeed, speed_switch_req: false, ..c.mmu }) && c1.mmu.gbspeed != c.mmu.gbspeed
    } else {
        c1.mmu == c.mmu
    })
    &&& op == 0x08 ==> c1 == (CPU { reg: Registers { pc: pc3, ..r0 }, mmu: c1.mmu, ..c }) && n == 5 && (plain(nn) && plain(
        next16(nn),
    ) ==> c1.mmu.ram() == c.mmu.ram().update(c.mmu.slot(nn), (r0.sp % 256) as u8).update(
        c.mmu.slot(next16(nn)),
        (r0.sp / 256) as u8,
    ))
    &&& op % 16 == 9 ==> {
        let sum = r0.spec_hl() as int + r16(r0, k) as int;
        &&& c1 == (CPU {
            reg: Registers {
                h: ((sum % 65536) / 256) as u8,
                l: ((sum % 65536) % 256) as u8,
                f: pack_flags(flag_z(r0.f), false, (r0.spec_hl() & 0x0FFF) + (r16(r0, k) & 0x0FFF) > 0x0FFF, sum > 0xFFFF),
                ..r0
            },
            ..c
        })
        &&& n == 2
    }
    &&& op == 0x02 ==> mem_written(c, c1, pair(r0.b, r0.c), a) && n == 2
    &&& op == 0x12 ==> mem_written(c, c1, pair(r0.d, r0.e), a) && n == 2
    &&& op == 0x22 ==> mem_written(CPU { reg: with_r16(r0, 2, add16(r0.spec_hl(), 1)), ..c }, c1, r0.spec_hl(), a) && n == 2
    &&& op == 0x32 ==> mem_written(CPU { reg: with_r16(r0, 2, add16(r0.spec_hl(), 65535)), ..c }, c1, r0.spec_hl(), a) && n == 2
    &&& op == 0x2A ==> c1 == (CPU {
        reg: Registers { a: c.mmu.spec_rb(r0.spec_hl()), ..with_r16(r0, 2, add16(r0.spec_hl(), 1)) },
        ..c
    }) && n == 2
    &&& op == 0x3A ==> c1 == (CPU {
        reg: Registers { a: c.mmu.spec_rb(r0.spec_hl()), ..with_r16(r0, 2, add16(r0.spec_hl(), 65535)) },
        ..c
    }) && n == 2
    &&& 1 <= n <= 5
}

/// Opcodes 0x40-0xBF: register loads, HALT, 8-bit ALU on A.
pub open spec fn mid_effect(c: CPU, c1: CPU, op: u8, n: u32) -> bool {
    let src = op % 8;
    let dst = (op / 8) % 8;
    let r0 = c.reg;
    let v = operand(c, src);
    &&& 0x40 <= op < 0x80 && op != 0x76 && dst != 6 ==> c1 == (CPU { reg: with_reg8(r0, dst, v), ..c }) && n == (if src
        == 6 { 2u32 } else { 1u32 })
    &&& 0x40 <= op < 0x80 && op != 0x76 && dst == 6 ==> mem_written(c, c1, r0.spec_hl(), v) && n == 2
    &&& op == 0x76 ==> c1 == (CPU { halted: true, halt_bug: c.mmu.pending() != 0 && !c.ime, ..c }) && n == 1
    &&& 0x80 <= op < 0xC0 ==> c1 == (CPU { reg: alu_regs(r0, dst, v), ..c }) && n == (if src == 6 { 2u32 } else { 1u32 })
}

/// Opcodes 0xC0-0xFF other than the prefix, from the state just after the opcode fetch.
pub open spec fn high_effect(c: CPU, c1: CPU, op: u8, r: Result<u32, u8>) -> bool {
    let r0 = c.reg;
    let pc1 = r0.pc;
    let b = c.mmu.spec_rb(pc1);
    let nn = word(c.mmu, pc1);
    let row = (op / 8) % 8;
    let sp = r0.sp;
    let pc2 = next16(pc1);
    let pc3 = add16(pc1, 2);
    let popped = word(c.mmu, sp);
    let k = (op / 16) % 4;
    &&& illegal(op) <==> r is Err
    &&& illegal(op) ==> c1 == c && r == Err::<u32, u8>(op)
    &&& (op == 0xC0 || op == 0xC8 || op == 0xD0 || op == 0xD8) ==> if cond(r0.f, row) {
        c1 == (CPU { reg: Registers { pc: popped, sp: sp_up(sp), ..r0 }, ..c }) && r == Ok::<u32, u8>(5)
    } else {
        c1 == c && r == Ok::<u32, u8>(2)
    }
    &&& op == 0xC9 ==> c1 == (CPU { reg: Registers { pc: popped, sp: sp_up(sp), ..r0 }, ..c }) && r == Ok::<u32, u8>(4)
    &&& op == 0xD9 ==> c1 == (CPU { reg: Registers { pc: popped, sp: sp_up(sp), ..r0 }, setei: 2, ..c }) && r == Ok::<u32, u8>(4)
    &&& (op == 0xC1 || op == 0xD1 || op == 0xE1) ==> c1 == (CPU { reg: with_r16(Registers { sp: sp_up(sp), ..r0 }, k, popped), ..c })
        && r == Ok::<u32, u8>(3)
    &&& op == 0xF1 ==> c1 == (CPU {
        reg: Registers { a: (popped / 256) as u8, f: ((popped % 256) as u8) & 0xF0, sp: sp_up(sp), ..r0 },
        ..c
    }) && r == Ok::<u32, u8>(3)
    &&& op == 0xC3 ==> c1 == with_pc(c, nn) && r == Ok::<u32, u8>(4)
    &&& (op == 0xC2 || op == 0xCA || op == 0xD2 || op == 0xDA) ==> if cond(r0.f, row) {
        c1 == with_pc(c, nn) && r == Ok::<u32, u8>(4)
    } else {
        c1 == with_pc(c, pc3) && r == Ok::<u32, u8>(3)
    }
    &&& op == 0xCD ==> pushed(c, c1, pc3, Registers { pc: nn, sp: sp_down(sp), ..r0 }) && r == Ok::<u32, u8>(6)
    &&& (op == 0xC4 || op == 0xCC || op == 0xD4 || op == 0xDC) ==> if cond(r0.f, row) {
        pushed(c, c1, pc3, Registers { pc: nn, sp: sp_down(sp), ..r0 }) && r == Ok::<u32, u8>(6)
    } else {
        c1 == with_pc(c, pc3) && r == Ok::<u32, u8>(3)
    }
    &&& (op == 0xC5 || op == 0xD5 || op == 0xE5) ==> pushed(c, c1, r16(r0, k), Registers { sp: sp_down(sp), ..r0 }) && r
        == Ok::<u32, u8>(4)
    &&& op == 0xF5 ==> pushed(c, c1, pair(r0.a, r0.f), Registers { sp: sp_down(sp), ..r0 }) && r == Ok::<u32, u8>(4)
    &&& op % 8 == 7 ==> pushed(c, c1, pc1, Registers { pc: (row * 8) as u16, sp: sp_down(sp), ..r0 }) && r == Ok::<u32, u8>(4)
    &&& op % 8 == 6 ==> c1 == (CPU { reg: alu_regs(Registers { pc: pc2, ..r0 }, row, b), ..c }) && r == Ok::<u32, u8>(2)
    &&& op == 0xE8 ==> c1 == (CPU {
        reg: Registers { sp: add16imm_result(sp, b), f: add16imm_flags(sp, b), pc: pc2, ..r0 },
        ..c
    }) && r == Ok::<u32, u8>(4)
    &&& op == 0xF8 ==> c1 == (CPU {
        reg: Registers {
            h: (add16imm_result(sp, b) / 256) as u8,
            l: (add16imm_result(sp, b) % 256) as u8,
            f: add16imm_flags(sp, b),
            pc: pc2,
            ..r0
        },
        ..c
    }) && r == Ok::<u32, u8>(3)
    &&& op == 0xE9 ==> c1 == with_pc(c, r0.spec_hl()) && r == Ok::<u32, u8>(1)
    &&& op == 0xF9 ==> c1 == (CPU { reg: Registers { sp: r0.spec_hl(), ..r0 }, ..c }) && r == Ok::<u32, u8>(2)
    &&& op == 0xF0 ==> c1 == (CPU { reg: Registers { a: c.mmu.spec_rb((0xFF00 + b) as u16), pc: pc2, ..r0 }, ..c })
        && r == Ok::<u32, u8>(3)
    &&& op == 0xF2 ==> c1 == (CPU { reg: Registers { a: c.mmu.spec_rb((0xFF00 + r0.c) as u16), ..r0 }, ..c }) && r == Ok::<
        u32,
        u8,
    >(2)
    &&& op == 0xFA ==> c1 == (CPU { reg: Registers { a: c.mmu.spec_rb(nn), pc: pc3, ..r0 }, ..c }) && r == Ok::<u32, u8>(4)
    &&& op == 0xE0 ==> mem_written(with_pc(c, pc2), c1, (0xFF00 + b) as u16, r0.a) && r == Ok::<u32, u8>(3)
    &&& op == 0xE2 ==> mem_written(c, c1, (0xFF00 + r0.c) as u16, r0.a) && r == Ok::<u32, u8>(2)
    &&& op == 0xEA ==> mem_written(with_pc(c, pc3), c1, nn, r0.a) && r == Ok::<u32, u8>(4)
    &&& op == 0xF3 ==> c1 == (CPU { setdi: 2, setei: 0, ..c }) && r == Ok::<u32, u8>(1)
    &&& op == 0xFB ==> c1 == (CPU { setei: 2, ..c }) && r == Ok::<u32, u8>(1)
}

/// The effect of the 0xCB-prefixed instruction whose operand byte is at PC in `c`.
pub open spec fn cb_effect(c: CPU, c1: CPU, n: u32) -> bool {
    let op = c.mmu.spec_rb(c.reg.pc);
    let c2 = crate::cpu::after_fetch(c);
    let hl = c.reg.spec_hl();
    let (v, f) = cb_op(op, c.mmu.spec_rb(hl), c.reg.f);
    &&& op % 8 != 6 ==> c1 == (CPU { reg: cb_regs(c2.reg, op), ..c2 }) && n == 2
    &&& op % 8 == 6 && op / 64 == 1 ==> c1 == (CPU { reg: Registers { f, ..c2.reg }, ..c2 }) && n == 3
    &&& op % 8 == 6 && op / 64 != 1 ==> mem_written(CPU { reg: Registers { f, ..c2.reg }, ..c2 }, c1, hl, v) && n == 4
}

/// The effect of one instruction, from the state `c` just after its opcode `op` is fetched.
pub open spec fn op_effect(c: CPU, c1: CPU, op: u8, r: Result<u32, u8>) -> bool {
    &&& op < 0x40 ==> (r matches Ok(n) && low_effect(c, c1, op, n))
    &&& 0x40 <= op < 0xC0 ==> (r matches Ok(n) && mid_effect(c, c1, op, n))
    &&& op == 0xCB ==> (r matches Ok(n) && cb_effect(c, c1, n))
    &&& op >= 0xC0 && op != 0xCB ==> high_effect(c, c1, op, r)
}

/// Operand `i` of the 3-bit register field: B, C, D, E, H, L, (HL), A.
fn get_r8(cpu: &CPU, i: u8) -> (r: u8)
    requires
        cpu.wf(),
        i < 8,
    ensures
        r == operand(*cpu, i),
{
    match i {
        0 => cpu.reg.b,
        1 => cpu.reg.c,
        2 => cpu.reg.d,
        3 => cpu.reg.e,
        4 => cpu.reg.h,
        5 => cpu.reg.l,
        6 => cpu.mmu.rb(cpu.reg.hl()),
        _ => cpu.reg.a,
    }
}

fn set_r8(cpu: &mut CPU, i: u8, v: u8)
    requires
        old(cpu).wf(),
        i < 8,
    ensures
        final(cpu).wf(),
        i != 6 ==> *final(cpu) == (CPU { reg: with_reg8(old(cpu).reg, i, v), ..*old(cpu) }),
        i == 6 ==> mem_written(*old(cpu), *final(cpu), old(cpu).reg.spec_hl(), v),
{
    match i {
        0 => cpu.reg.b = v,
        1 => cpu.reg.c = v,
        2 => cpu.reg.d = v,
        3 => cpu.reg.e = v,
        4 => cpu.reg.h = v,
        5 => cpu.reg.l = v,
        6 => {
            let a = cpu.reg.hl();
            cpu.mmu.wb(a, v);
        },
        _ => cpu.reg.a = v,
    }
}

/// The 8-bit ALU operation `k` on A: ADD, ADC, SUB, SBC, AND, XOR, OR, CP.
fn alu_op(cpu: &mut CPU, k: u8, v: u8)
    requires
        old(cpu).wf(),
        k < 8,
    ensures
        final(cpu).wf(),
        *final(cpu) == (CPU { reg: alu_regs(old(cpu).reg, k, v), ..*old(cpu) }),
{
    match k {
        0 => cpu.reg.alu_add(v, false),
        1 => cpu.reg.alu_add(v, true),
        2 => cpu.reg.alu_sub(v, false),
        3 => cpu.reg.alu_sub(v, true),
        4 => cpu.reg.alu_and(v),
        5 => cpu.reg.alu_xor(v),
        6 => cpu.reg.alu_or(v),
        _ => cpu.reg.alu_cp(v),
    }
}

/// Condition `k` of a branch: NZ, Z, NC, C.
fn condition(cpu: &CPU, k: u8) -> (r: bool)
    ensures
        r == cond(cpu.reg.f, k),
{
    match k {
        0 => cpu.reg.f & 0x80 != 0x80,
        1 => cpu.reg.f & 0x80 == 0x80,
        2 => cpu.reg.f & 0x10 != 0x10,
        _ => cpu.reg.f & 0x10 == 0x10,
    }
}

/// 16-bit register pair `k` of the load/increment group: BC, DE, HL, SP.
fn get_r16(cpu: &CPU, k: u8) -> (r: u16)
    ensures
        r == r16(cpu.reg, k),
{
    match k {
        0 => cpu.reg.bc(),
        1 => cpu.reg.de(),
        2 => cpu.reg.hl(),
        _ => cpu.reg.sp,
    }
}

fn set_r16(cpu: &mut CPU, k: u8, v: u16)
    requires
        old(cpu).wf(),
    ensures
        final(cpu).wf(),
        *final(cpu) == (CPU { reg: with_r16(old(cpu).reg, k, v), ..*old(cpu) }),
{
    match k {
        0 => cpu.reg.setbc(v),
        1 => cpu.reg.setde(v),
        2 => cpu.reg.sethl(v),
        _ => cpu.reg.sp = v,
    }
}

/// Fetches and runs one instruction; returns its machine cycles, or the opcode
/// when it has no instruction.
pub fn call(cpu: &mut CPU) -> (r: Result<u32, u8>)
    requires
        old(cpu).wf(),
    ensures
        final(cpu).wf(),
        r matches Ok(n) ==> 1 <= n <= 6,
        r matches Err(op) ==> illegal(op),
        r.is_err() <==> illegal(old(cpu).mmu.spec_rb(old(cpu).reg.pc)),
        op_effect(crate::cpu::after_fetch(*old(cpu)), *final(cpu), old(cpu).mmu.spec_rb(old(cpu).reg.pc), r),
{
    let opcode = cpu.fetchbyte();
    if opcode < 0x40 {
        Ok(call_low(cpu, opcode))
    } else if opcode < 0x80 {
        if opcode == 0x76 {
            cpu.halted = true;
            cpu.halt_bug = cpu.mmu.inte & cpu.mmu.intf & 0x1F != 0 && !cpu.ime;
            return Ok(1);
        }
        let v = get_r8(cpu, opcode % 8);
        set_r8(cpu, (opcode / 8) % 8, v);
        Ok(if opcode % 8 == 6 || (opcode / 8) % 8 == 6 { 2 } else { 1 })
    } else if opcode < 0xC0 {
        let v = get_r8(cpu, opcode % 8);
        alu_op(cpu, (opcode / 8) % 8, v);
        Ok(if opcode % 8 == 6 { 2 } else { 1 })
    } else if opcode == 0xCB {
        Ok(call_cb(cpu))
    } else {
        call_high(cpu, opcode)
    }
}

/// `a + k`, wrapping at 16 bits.
fn inc16(a: u16, k: u16) -> (r: u16)
    ensures
        r == add16(a, k as int),
        k == 1 ==> r == next16(a),
{
    a.wrapping_add(k)
}

/// Opcodes 0x00-0x3F.
fn call_low(cpu: &mut CPU, opcode: u8) -> (r: u32)
    requires
        old(cpu).wf(),
        !old(cpu).halt_bug,
        opcode < 0x40,
    ensures
        final(cpu).wf(),
        1 <= r <= 5,
        low_effect(*old(cpu), *final(cpu), opcode, r),
{
    match opcode % 8 {
        0 => low_col0(cpu, opcode),
        1 => low_col1(cpu, opcode),
        2 => low_col2(cpu, opcode),
        3 => low_col3(cpu, opcode),
        4 => low_col4(cpu, opcode),
        5 => low_col5(cpu, opcode),
        6 => low_col6(cpu, opcode),
        _ => low_col7(cpu, opcode),
    }
}

/// Opcodes 0x00-0x3F in column 0.
#[verifier::rlimit(100)]
#[verifier::spinoff_prover]
fn low_col0(cpu: &mut CPU, opcode: u8) -> (r: u32)
    requires
        old(cpu).wf(),
        !old(cpu).halt_bug,
        opcode < 0x40,
        opcode % 8 == 0,
    ensures
        final(cpu).wf(),
        1 <= r <= 5,
        low_effect(*old(cpu), *final(cpu), opcode, r),
{
    let row = opcode / 8;
    if opcode == 0x00 {
        1
    } else if opcode == 0x08 {
        let a = cpu.fetchword();
        let sp = cpu.reg.sp;
        cpu.mmu.ww(a, sp);
        5
    } else if opcode == 0x10 {
        cpu.mmu.switch_speed();
        1
    } else if opcode == 0x18 {
        cpu.cpu_jr();
        3
    } else if condition(cpu, row - 4) {
        cpu.cpu_jr();
        3
    } else {
        cpu.reg.pc = inc16(cpu.reg.pc, 1);
        2
    }
}

/// Opcodes 0x00-0x3F in column 1.
#[verifier::rlimit(100)]
#[verifier::spinoff_prover]
fn low_col1(cpu: &mut CPU, opcode: u8) -> (r: u32)
    requires
        old(cpu).wf(),
        !old(cpu).halt_bug,
        opcode < 0x40,
        opcode % 8 == 1,
    ensures
        final(cpu).wf(),
        1 <= r <= 5,
        low_effect(*old(cpu), *final(cpu), opcode, r),
{
    let k = (opcode / 16) % 4;
    if opcode % 16 == 1 {
        let v = cpu.fetchword();
        set_r16(cpu, k, v);
        3
    } else {
        let v = get_r16(cpu, k);
        cpu.reg.alu_add16(v);
        2
    }
}

/// Opcodes 0x00-0x3F in column 2.
#[verifier::rlimit(100)]
#[verifier::spinoff_prover]
fn low_col2(cpu: &mut CPU, opcode: u8) -> (r: u32)
    requires
        old(cpu).wf(),
        !old(cpu).halt_bug,
        opcode < 0x40,
        opcode % 8 == 2,
    ensures
        final(cpu).wf(),
        1 <= r <= 5,
        low_effect(*old(cpu), *final(cpu), opcode, r),
{
    let k = (opcode / 16) % 4;
    let a = if k == 0 {
        cpu.reg.bc()
    } else if k == 1 {
        cpu.reg.de()
    } else if k == 2 {
        cpu.reg.hli()
    } else {
        cpu.reg.hld()
    };
    if opcode % 16 == 2 {
        let v = cpu.reg.a;
        cpu.mmu.wb(a, v);
    } else {
        cpu.reg.a = cpu.mmu.rb(a);
    }
    2
}

/// Opcodes 0x00-0x3F in column 3.
#[verifier::rlimit(100)]
#[verifier::spinoff_prover]
fn low_col3(cpu: &mut CPU, opcode: u8) -> (r: u32)
    requires
        old(cpu).wf(),
        !old(cpu).halt_bug,
        opcode < 0x40,
        opcode % 8 == 3,
    ensures
        final(cpu).wf(),
        1 <= r <= 5,
        low_effect(*old(cpu), *final(cpu), opcode, r),
{
    let k = (opcode / 16) % 4;
    let v = get_r16(cpu, k);
    if opcode % 16 == 3 {
        set_r16(cpu, k, inc16(v, 1));
    } else {
        set_r16(cpu, k, inc16(v, 0xFFFF));
    }
    2
}

/// Opcodes 0x00-0x3F in column 4.
#[verifier::rlimit(100)]
#[verifier::spinoff_prover]
fn low_col4(cpu: &mut CPU, opcode: u8) -> (r: u32)
    requires
        old(cpu).wf(),
        !old(cpu).halt_bug,
        opcode < 0x40,
        opcode % 8 == 4,
    ensures
        final(cpu).wf(),
        1 <= r <= 5,
        low_effect(*old(cpu), *final(cpu), opcode, r),
{
    let row = opcode / 8;
    let v = get_r8(cpu, row);
    let r = cpu.reg.alu_inc(v);
    set_r8(cpu, row, r);
    if row == 6 { 3 } else { 1 }
}

/// Opcodes 0x00-0x3F in column 5.
#[verifier::rlimit(100)]
#[verifier::spinoff_prover]
fn low_col5(cpu: &mut CPU, opcode: u8) -> (r: u32)
    requires
        old(cpu).wf(),
        !old(cpu).halt_bug,
        opcode < 0x40,
        opcode % 8 == 5,
    ensures
        final(cpu).wf(),
        1 <= r <= 5,
        low_effect(*old(cpu), *final(cpu), opcode, r),
{
    let row = opcode / 8;
    let v = get_r8(cpu, row);
    let r = cpu.reg.alu_dec(v);
    set_r8(cpu, row, r);
    if row == 6 { 3 } else { 1 }
}

/// Opcodes 0x00-0x3F in column 6.
#[verifier::rlimit(100)]
#[verifier::spinoff_prover]
fn low_col6(cpu: &mut CPU, opcode: u8) -> (r: u32)
    requires
        old(cpu).wf(),
        !old(cpu).halt_bug,
        opcode < 0x40,
        opcode % 8 == 6,
    ensures
        final(cpu).wf(),
        1 <= r <= 5,
        low_effect(*old(cpu), *final(cpu), opcode, r),
{
    let row = opcode / 8;
    let v = cpu.fetchbyte();
    set_r8(cpu, row, v);
    if row == 6 { 3 } else { 2 }
}

/// Opcodes 0x00-0x3F in column 7.
#[verifier::rlimit(100)]
#[verifier::spinoff_prover]
fn low_col7(cpu: &mut CPU, opcode: u8) -> (r: u32)
    requires
        old(cpu).wf(),
        !old(cpu).halt_bug,
        opcode < 0x40,
        opcode % 8 == 7,
    ensures
        final(cpu).wf(),
        1 <= r <= 5,
        low_effect(*old(cpu), *final(cpu), opcode, r),
{
    let a = cpu.reg.a;
    if opcode == 0x07 || opcode == 0x0F || opcode == 0x17 || opcode == 0x1F {
        let r = if opcode == 0x07 {
            cpu.reg.alu_rlc(a)
        } else if opcode == 0x0F {
            cpu.reg.alu_rrc(a)
        } else if opcode == 0x17 {
            cpu.reg.alu_rl(a)
        } else {
            cpu.reg.alu_rr(a)
        };
        cpu.reg.a = r;
        proof {
            crate::register::lemma_pack_flags(r == 0, false, false, top_bit(a));
            crate::register::lemma_pack_flags(r == 0, false, false, low_bit(a));
        }
        cpu.reg.f = make_flags(false, false, false, cpu.reg.f & 0x10 == 0x10);
    } else if opcode == 0x27 {
        cpu.reg.alu_daa();
    } else if opcode == 0x2F {
        cpu.reg.a = !a;
        cpu.reg.f = make_flags(cpu.reg.f & 0x80 == 0x80, true, true, cpu.reg.f & 0x10 == 0x10);
    } else if opcode == 0x37 {
        cpu.reg.f = make_flags(cpu.reg.f & 0x80 == 0x80, false, false, true);
    } else {
        cpu.reg.f = make_flags(cpu.reg.f & 0x80 == 0x80, false, false, cpu.reg.f & 0x10 != 0x10);
    }
    1
}

/// Opcodes 0xC0-0xFF other than the 0xCB prefix.
#[verifier::rlimit(100)]
#[verifier::spinoff_prover]
fn call_high(cpu: &mut CPU, opcode: u8) -> (r: Result<u32, u8>)
    requires
        old(cpu).wf(),
        !old(cpu).halt_bug,
        opcode >= 0xC0,
        opcode != 0xCB,
    ensures
        final(cpu).wf(),
        r matches Ok(n) ==> 1 <= n <= 6,
        r matches Err(op) ==> illegal(op) && op == opcode,
        !illegal(opcode) ==> r.is_ok(),
        illegal(opcode) ==> r == Err::<u32, u8>(opcode),
        high_effect(*old(cpu), *final(cpu), opcode, r),
{
    let row = (opcode / 8) % 8;
    match opcode {
        0xC0 | 0xC8 | 0xD0 | 0xD8 => {
            if condition(cpu, row) {
                cpu.reg.pc = cpu.popstack();
                Ok(5)
            } else {
                Ok(2)
            }
        },
        0xC1 | 0xD1 | 0xE1 => {
            let v = cpu.popstack();
            set_r16(cpu, (opcode / 16) % 4, v);
            Ok(3)
        },
        0xF1 => {
            let v = cpu.popstack();
            cpu.reg.setaf(v);
            Ok(3)
        },
        0xC2 | 0xCA | 0xD2 | 0xDA => {
            if condition(cpu, row) {
                cpu.reg.pc = cpu.fetchword();
                Ok(4)
            } else {
                cpu.reg.pc = inc16(cpu.reg.pc, 2);
                Ok(3)
            }
        },
        0xC3 => {
            cpu.reg.pc = cpu.fetchword();
            Ok(4)
        },
        0xC4 | 0xCC | 0xD4 | 0xDC => {
            if condition(cpu, row) {
                let nn = cpu.fetchword();
                let ret = cpu.reg.pc;
                cpu.pushstack(ret);
                cpu.reg.pc = nn;
                Ok(6)
            } else {
                cpu.reg.pc = inc16(cpu.reg.pc, 2);
                Ok(3)
            }
        },
        0xCD => {
            let nn = cpu.fetchword();
            let ret = cpu.reg.pc;
            cpu.pushstack(ret);
            cpu.reg.pc = nn;
            Ok(6)
        },
        0xC5 | 0xD5 | 0xE5 => {
            let v = get_r16(cpu, (opcode / 16) % 4);
            cpu.pushstack(v);
            Ok(4)
        },
        0xF5 => {
            let v = cpu.reg.af();
            cpu.pushstack(v);
            Ok(4)
        },
        0xC6 | 0xCE | 0xD6 | 0xDE | 0xE6 | 0xEE | 0xF6 | 0xFE => {
            let v = cpu.fetchbyte();
            alu_op(cpu, row, v);
            Ok(2)
        },
        0xC7 | 0xCF | 0xD7 | 0xDF | 0xE7 | 0xEF | 0xF7 | 0xFF => {
            let pc = cpu.reg.pc;
            cpu.pushstack(pc);
            cpu.reg.pc = row as u16 * 8;
            Ok(4)
        },
        0xC9 => {
            cpu.reg.pc = cpu.popstack();
            Ok(4)
        },
        0xD9 => {
            // RETI enables interrupts with the same one-instruction delay as EI.
            cpu.reg.pc = cpu.popstack();
            cpu.setei = 2;
            Ok(4)
        },
        0xE0 => {
            let a = 0xFF00u16 + cpu.fetchbyte() as u16;
            let v = cpu.reg.a;
            cpu.mmu.wb(a, v);
            Ok(3)
        },
        0xE2 => {
            let a = 0xFF00u16 + cpu.reg.c as u16;
            let v = cpu.reg.a;
            cpu.mmu.wb(a, v);
            Ok(2)
        },
        0xE8 => {
            let b = cpu.fetchbyte();
            let sp = cpu.reg.sp;
            cpu.reg.sp = cpu.reg.alu_add16imm(sp, b);
            Ok(4)
        },
        0xE9 => {
            cpu.reg.pc = cpu.reg.hl();
            Ok(1)
        },
        0xEA => {
            let a = cpu.fetchword();
            let v = cpu.reg.a;
            cpu.mmu.wb(a, v);
            Ok(4)
        },
        0xF0 => {
            let a = 0xFF00u16 + cpu.fetchbyte() as u16;
            cpu.reg.a = cpu.mmu.rb(a);
            Ok(3)
        },
        0xF2 => {
            let a = 0xFF00u16 + cpu.reg.c as u16;
            cpu.reg.a = cpu.mmu.rb(a);
            Ok(2)
        },
        0xF3 => {
            // DI also drops an EI whose delay has not run out yet.
            cpu.setdi = 2;
            cpu.setei = 0;
            Ok(1)
        },
        0xF8 => {
            let b = cpu.fetchbyte();
            let sp = cpu.reg.sp;
            let r = cpu.reg.alu_add16imm(sp, b);
            cpu.reg.sethl(r);
            Ok(3)
        },
        0xF9 => {
            cpu.reg.sp = cpu.reg.hl();
            Ok(2)
        },
        0xFA => {
            let a = cpu.fetchword();
            cpu.reg.a = cpu.mmu.rb(a);
            Ok(4)
        },
        0xFB => {
            cpu.setei = 2;
            Ok(1)
        },
        _ => Err(opcode),
    }
}

/// Runs one instruction of the 0xCB-prefixed table: rotates and shifts, BIT, RES, SET.
/// Returns 2 machine cycles on a register, 4 on (HL), 3 for BIT on (HL).
pub fn call_cb(cpu: &mut CPU) -> (r: u32)
    requires
        old(cpu).wf(),
    ensures
        final(cpu).wf(),
        2 <= r <= 4,
        cb_effect(*old(cpu), *final(cpu), r),
{
    let opcode = cpu.fetchbyte();
    let idx = opcode % 8;
    let b = (opcode / 8) % 8;
    let v = get_r8(cpu, idx);
    let group = opcode / 64;
    if group == 1 {
        cpu.reg.alu_bit(v, b);
        return if idx == 6 { 3 } else { 2 };
    }
    let r = if group == 0 {
        match b {
            0 => cpu.reg.alu_rlc(v),
            1 => cpu.reg.alu_rrc(v),
            2 => cpu.reg.alu_rl(v),
            3 => cpu.reg.alu_rr(v),
            4 => cpu.reg.alu_sla(v),
            5 => cpu.reg.alu_sra(v),
            6 => cpu.reg.alu_swap(v),
            _ => cpu.reg.alu_srl(v),
        }
    } else if group == 2 {
        v & !(1u8 << b)
    } else {
        v | (1u8 << b)
    };
    set_r8(cpu, idx, r);
    if idx == 6 { 4 } else { 2 }
}

} // verus!
