//! The instruction-level model: a ghost view of the whole CPU and the
//! mathematical description of what each opcode does to it.
//!
//! The executable instruction groups are verified against these functions
//! branch for branch, so the model is the single place that says what every
//! opcode computes, which errors it can raise, and what it costs in clock
//! ticks.

use vstd::prelude::*;

use crate::CoreError;
use crate::arith::{
    alu8,
    cond_holds,
    flag_c,
    flag_z,
    keep_carry,
    mk_flags,
    spec_add16,
    spec_daa,
    spec_dec8,
    spec_inc8,
};
use crate::memory::{
    MemView,
    fetch2_spec,
    fetch_spec,
    pop_spec,
    push_spec,
    write2_spec,
    write8_spec,
};

verus! {

/// The mathematical model of the whole CPU: the eight register lanes, the
/// memory with its cursors, the interrupt-master-enable flag and the
/// pending-enable counter.
#[verifier::ext_equal]
pub ghost struct CpuView {
    /// The accumulator, the high lane of AF.
    pub a: u8,
    /// The flag byte, the low lane of AF.
    pub f: u8,
    pub b: u8,
    pub c: u8,
    pub d: u8,
    pub e: u8,
    pub h: u8,
    pub l: u8,
    pub m: MemView,
    /// Whether interrupts are globally enabled.
    pub ime: bool,
    /// The pending-enable counter: -1 none, 1 just armed by EI, 0 fires
    /// after the current instruction.
    pub ei: i32,
}

/// The outcome of one modeled operation: the successor state together with
/// either the elapsed clock ticks or the error.
pub ghost struct Outcome {
    pub s: CpuView,
    pub r: Result<u32, CoreError>,
}

/// The outcome of one whole step: the successor state together with either
/// the elapsed machine cycles or the error.
pub ghost struct StepOutcome {
    pub s: CpuView,
    pub r: Result<i32, CoreError>,
}

/// A well-formed CPU backs the full address space and keeps the
/// pending-enable counter in its three-valued range.
pub open spec fn cv_wf(s: CpuView) -> bool {
    &&& s.m.wf()
    &&& -1 <= s.ei <= 1
}

/// The combined value of the BC pair.
pub open spec fn bc_of(s: CpuView) -> u16 {
    (s.b as u16) << 8 | (s.c as u16)
}

/// The combined value of the DE pair.
pub open spec fn de_of(s: CpuView) -> u16 {
    (s.d as u16) << 8 | (s.e as u16)
}

/// The combined value of the HL pair.
pub open spec fn hl_of(s: CpuView) -> u16 {
    (s.h as u16) << 8 | (s.l as u16)
}

/// The combined value of the AF pair.
pub open spec fn af_of(s: CpuView) -> u16 {
    (s.a as u16) << 8 | (s.f as u16)
}

/// The state with the BC pair set to `v`.
pub open spec fn with_bc(s: CpuView, v: u16) -> CpuView {
    CpuView { b: (v >> 8) as u8, c: v as u8, ..s }
}

/// The state with the DE pair set to `v`.
pub open spec fn with_de(s: CpuView, v: u16) -> CpuView {
    CpuView { d: (v >> 8) as u8, e: v as u8, ..s }
}

/// The state with the HL pair set to `v`.
pub open spec fn with_hl(s: CpuView, v: u16) -> CpuView {
    CpuView { h: (v >> 8) as u8, l: v as u8, ..s }
}

/// A 16-bit value incremented with wraparound.
pub open spec fn wrap_inc16(v: u16) -> u16 {
    ((v + 1) % 0x10000) as u16
}

/// A 16-bit value decremented with wraparound.
pub open spec fn wrap_dec16(v: u16) -> u16 {
    ((v - 1 + 0x10000) % 0x10000) as u16
}

/// The 16-bit register selected by the 2-bit field of a block-0 opcode:
/// BC, DE, HL or the stack pointer.
pub open spec fn r16_get(s: CpuView, code: u8) -> u16 {
    if code == 0 {
        bc_of(s)
    } else if code == 1 {
        de_of(s)
    } else if code == 2 {
        hl_of(s)
    } else {
        s.m.sp
    }
}

/// The state with the selected 16-bit register set to `v`.
pub open spec fn with_r16(s: CpuView, code: u8, v: u16) -> CpuView {
    if code == 0 {
        with_bc(s, v)
    } else if code == 1 {
        with_de(s, v)
    } else if code == 2 {
        with_hl(s, v)
    } else {
        CpuView { m: MemView { sp: v, ..s.m }, ..s }
    }
}

/// The 8-bit operand selected by a 3-bit register code:
/// B, C, D, E, H, L, the byte under HL, or A.
pub open spec fn r8_get(s: CpuView, code: u8) -> u8 {
    if code == 0 {
        s.b
    } else if code == 1 {
        s.c
    } else if code == 2 {
        s.d
    } else if code == 3 {
        s.e
    } else if code == 4 {
        s.h
    } else if code == 5 {
        s.l
    } else if code == 6 {
        s.m.ram[hl_of(s) as int]
    } else {
        s.a
    }
}

/// The state with the selected 8-bit operand set to `v`; code 6 writes the
/// byte under HL.
pub open spec fn r8_set(s: CpuView, code: u8, v: u8) -> CpuView {
    if code == 0 {
        CpuView { b: v, ..s }
    } else if code == 1 {
        CpuView { c: v, ..s }
    } else if code == 2 {
        CpuView { d: v, ..s }
    } else if code == 3 {
        CpuView { e: v, ..s }
    } else if code == 4 {
        CpuView { h: v, ..s }
    } else if code == 5 {
        CpuView { l: v, ..s }
    } else if code == 6 {
        CpuView { m: write8_spec(s.m, hl_of(s), v), ..s }
    } else {
        CpuView { a: v, ..s }
    }
}

/// A relative-jump offset byte read as a signed value.
pub open spec fn off_i(off: u8) -> int {
    if off < 128 {
        off as int
    } else {
        off as int - 256
    }
}

/// A 16-bit base moved by a signed offset byte, wrapping at the 16-bit
/// boundary.
pub open spec fn rel_target(base: u16, off: u8) -> u16 {
    ((base + off_i(off) + 0x10000) % 0x10000) as u16
}

/// The flag byte of the stack-pointer-relative forms: carry and half-carry
/// from the low byte of the pointer plus the raw offset byte, zero and
/// subtract clear.
pub open spec fn sp_rel_flags(sp: u16, off: u8) -> u8 {
    mk_flags(false, false, sp % 16 + off % 16 > 15, sp % 256 + off > 255)
}

/// Whether bit 7 is set; the carry out of the left-rotate family.
pub open spec fn bit7(v: u8) -> bool {
    v & 0x80 != 0
}

/// Whether bit 0 is set; the carry out of the right-rotate family.
pub open spec fn bit0(v: u8) -> bool {
    v & 1 != 0
}

/// Rotate left: bit 7 back into bit 0.
pub open spec fn rlc_out(v: u8) -> u8 {
    (v << 1) | (v >> 7)
}

/// Rotate right: bit 0 back into bit 7.
pub open spec fn rrc_out(v: u8) -> u8 {
    (v >> 1) | (v << 7)
}

/// Rotate left through the carry flag.
pub open spec fn rl_out(v: u8, cin: bool) -> u8 {
    (v << 1) | (if cin {
        1u8
    } else {
        0u8
    })
}

/// Rotate right through the carry flag.
pub open spec fn rr_out(v: u8, cin: bool) -> u8 {
    (v >> 1) | (if cin {
        0x80u8
    } else {
        0u8
    })
}

/// Arithmetic shift left; bit 0 comes out clear.
pub open spec fn sla_out(v: u8) -> u8 {
    v << 1
}

/// Arithmetic shift right; bit 7 keeps its value.
pub open spec fn sra_out(v: u8) -> u8 {
    (v >> 1) | (v & 0x80)
}

/// The two nibbles exchanged.
pub open spec fn swap_out(v: u8) -> u8 {
    (v << 4) | (v >> 4)
}

/// Logical shift right; bit 7 comes out clear.
pub open spec fn srl_out(v: u8) -> u8 {
    v >> 1
}

/// The mask with only bit `i` set.
pub open spec fn mask_bit(i: u8) -> u8 {
    1u8 << i
}

/// What the prefixed rotate/shift family leaves, selected by the 3-bit
/// operation field: RLC, RRC, RL, RR, SLA, SRA, SWAP, SRL.
pub open spec fn rot8(oper: u8, v: u8, f: u8) -> (u8, u8) {
    if oper == 0 {
        let v2 = rlc_out(v);
        (v2, mk_flags(v2 == 0, false, false, bit7(v)))
    } else if oper == 1 {
        let v2 = rrc_out(v);
        (v2, mk_flags(v2 == 0, false, false, bit0(v)))
    } else if oper == 2 {
        let v2 = rl_out(v, flag_c(f));
        (v2, mk_flags(v2 == 0, false, false, bit7(v)))
    } else if oper == 3 {
        let v2 = rr_out(v, flag_c(f));
        (v2, mk_flags(v2 == 0, false, false, bit0(v)))
    } else if oper == 4 {
        let v2 = sla_out(v);
        (v2, mk_flags(v2 == 0, false, false, bit7(v)))
    } else if oper == 5 {
        let v2 = sra_out(v);
        (v2, mk_flags(v2 == 0, false, false, bit0(v)))
    } else if oper == 6 {
        let v2 = swap_out(v);
        (v2, mk_flags(v2 == 0, false, false, false))
    } else {
        let v2 = srl_out(v);
        (v2, mk_flags(v2 == 0, false, false, bit0(v)))
    }
}

/// Block 0, top bits `00`: loads, 16-bit arithmetic, 8-bit increment and
/// decrement, the accumulator rotate/adjust family, the flag-only
/// operations, and relative jumps.
pub open spec fn block0_spec(s: CpuView, op: u8) -> Outcome {
    if op == 0x00 || op == 0x10 {
        // NOP; STOP is a no-op placeholder at this layer
        Outcome { s, r: Ok(4) }
    } else if op & 0xCF == 0x01 {
        // LD r16, imm16
        let (r1, m1) = fetch2_spec(s.m);
        let s1 = CpuView { m: m1, ..s };
        match r1 {
            Err(e) => Outcome { s: s1, r: Err(e) },
            Ok(v) => Outcome { s: with_r16(s1, (op >> 4) & 3, v), r: Ok(12) },
        }
    } else if op & 0xCF == 0x02 {
        // LD [r16mem], A, where codes 2 and 3 mean HL with post-increment
        // and post-decrement
        let dst = (op >> 4) & 3;
        let addr = if dst == 0 {
            bc_of(s)
        } else if dst == 1 {
            de_of(s)
        } else {
            hl_of(s)
        };
        let s1 = CpuView { m: write8_spec(s.m, addr, s.a), ..s };
        let s2 = if dst == 2 {
            with_hl(s1, wrap_inc16(hl_of(s1)))
        } else if dst == 3 {
            with_hl(s1, wrap_dec16(hl_of(s1)))
        } else {
            s1
        };
        Outcome { s: s2, r: Ok(8) }
    } else if op & 0xCF == 0x0A {
        // LD A, [r16mem]
        let src = (op >> 4) & 3;
        let addr = if src == 0 {
            bc_of(s)
        } else if src == 1 {
            de_of(s)
        } else {
            hl_of(s)
        };
        let s1 = CpuView { a: s.m.ram[addr as int], ..s };
        let s2 = if src == 2 {
            with_hl(s1, wrap_inc16(hl_of(s1)))
        } else if src == 3 {
            with_hl(s1, wrap_dec16(hl_of(s1)))
        } else {
            s1
        };
        Outcome { s: s2, r: Ok(8) }
    } else if op == 0x08 {
        // LD [imm16], SP
        let (r1, m1) = fetch2_spec(s.m);
        match r1 {
            Err(e) => Outcome { s: CpuView { m: m1, ..s }, r: Err(e) },
            Ok(addr) => {
                let (r2, m2) = write2_spec(m1, addr, m1.sp);
                match r2 {
                    Err(e) => Outcome { s: CpuView { m: m2, ..s }, r: Err(e) },
                    Ok(_) => Outcome { s: CpuView { m: m2, ..s }, r: Ok(20) },
                }
            },
        }
    } else if op & 0xCF == 0x03 {
        // INC r16; a stack-pointer step past the 16-bit boundary is the
        // documented cursor-overflow error
        let code = (op >> 4) & 3;
        if code == 0 {
            Outcome { s: with_bc(s, wrap_inc16(bc_of(s))), r: Ok(8) }
        } else if code == 1 {
            Outcome { s: with_de(s, wrap_inc16(de_of(s))), r: Ok(8) }
        } else if code == 2 {
            Outcome { s: with_hl(s, wrap_inc16(hl_of(s))), r: Ok(8) }
        } else if s.m.sp == 0xFFFF {
            Outcome { s, r: Err(CoreError::StackOverflow) }
        } else {
            Outcome { s: CpuView { m: MemView { sp: (s.m.sp + 1) as u16, ..s.m }, ..s }, r: Ok(8) }
        }
    } else if op & 0xCF == 0x0B {
        // DEC r16; a stack-pointer step past zero is the documented
        // cursor-overflow error
        let code = (op >> 4) & 3;
        if code == 0 {
            Outcome { s: with_bc(s, wrap_dec16(bc_of(s))), r: Ok(8) }
        } else if code == 1 {
            Outcome { s: with_de(s, wrap_dec16(de_of(s))), r: Ok(8) }
        } else if code == 2 {
            Outcome { s: with_hl(s, wrap_dec16(hl_of(s))), r: Ok(8) }
        } else if s.m.sp == 0 {
            Outcome { s, r: Err(CoreError::StackOverflow) }
        } else {
            Outcome { s: CpuView { m: MemView { sp: (s.m.sp - 1) as u16, ..s.m }, ..s }, r: Ok(8) }
        }
    } else if op & 0xCF == 0x09 {
        // ADD HL, r16
        let (v, fl) = spec_add16(hl_of(s), r16_get(s, (op >> 4) & 3));
        Outcome { s: CpuView { f: fl, ..with_hl(s, v) }, r: Ok(8) }
    } else if op & 0xC7 == 0x04 {
        // INC r8; the carry flag is preserved
        let code = (op >> 3) & 7;
        let (v2, fl) = spec_inc8(r8_get(s, code));
        let s2 = r8_set(s, code, v2);
        Outcome {
            s: CpuView { f: keep_carry(fl, s.f), ..s2 },
            r: Ok(if code == 6 {
                12
            } else {
                4
            }),
        }
    } else if op & 0xC7 == 0x05 {
        // DEC r8; the carry flag is preserved
        let code = (op >> 3) & 7;
        let (v2, fl) = spec_dec8(r8_get(s, code));
        let s2 = r8_set(s, code, v2);
        Outcome {
            s: CpuView { f: keep_carry(fl, s.f), ..s2 },
            r: Ok(if code == 6 {
                12
            } else {
                4
            }),
        }
    } else if op & 0xC7 == 0x06 {
        // LD r8, imm8
        let (r1, m1) = fetch_spec(s.m);
        let s1 = CpuView { m: m1, ..s };
        match r1 {
            Err(e) => Outcome { s: s1, r: Err(e) },
            Ok(v) => {
                let code = (op >> 3) & 7;
                Outcome {
                    s: r8_set(s1, code, v),
                    r: Ok(if code == 6 {
                        12
                    } else {
                        4
                    }),
                }
            },
        }
    } else if op == 0x07 {
        // RLCA; unlike the prefixed rotates, zero comes out clear
        Outcome {
            s: CpuView { a: rlc_out(s.a), f: mk_flags(false, false, false, bit7(s.a)), ..s },
            r: Ok(4),
        }
    } else if op == 0x0F {
        // RRCA
        Outcome {
            s: CpuView { a: rrc_out(s.a), f: mk_flags(false, false, false, bit0(s.a)), ..s },
            r: Ok(4),
        }
    } else if op == 0x17 {
        // RLA
        Outcome {
            s: CpuView {
                a: rl_out(s.a, flag_c(s.f)),
                f: mk_flags(false, false, false, bit7(s.a)),
                ..s
            },
            r: Ok(4),
        }
    } else if op == 0x1F {
        // RRA
        Outcome {
            s: CpuView {
                a: rr_out(s.a, flag_c(s.f)),
                f: mk_flags(false, false, false, bit0(s.a)),
                ..s
            },
            r: Ok(4),
        }
    } else if op == 0x27 {
        // DAA
        let (a2, f2) = spec_daa(s.a, s.f);
        Outcome { s: CpuView { a: a2, f: f2, ..s }, r: Ok(4) }
    } else if op == 0x2F {
        // CPL: complement the accumulator, set subtract and half-carry
        Outcome {
            s: CpuView { a: !s.a, f: mk_flags(flag_z(s.f), true, true, flag_c(s.f)), ..s },
            r: Ok(4),
        }
    } else if op == 0x37 {
        // SCF: set carry, clear subtract and half-carry
        Outcome {
            s: CpuView { f: mk_flags(flag_z(s.f), false, false, true), ..s },
            r: Ok(4),
        }
    } else if op == 0x3F {
        // CCF: toggle carry, clear subtract and half-carry
        Outcome {
            s: CpuView { f: mk_flags(flag_z(s.f), false, false, !flag_c(s.f)), ..s },
            r: Ok(4),
        }
    } else if op == 0x18 {
        // JR imm8
        let (r1, m1) = fetch_spec(s.m);
        match r1 {
            Err(e) => Outcome { s: CpuView { m: m1, ..s }, r: Err(e) },
            Ok(off) => Outcome {
                s: CpuView { m: MemView { pc: rel_target(m1.pc, off), ..m1 }, ..s },
                r: Ok(12),
            },
        }
    } else if op & 0xE7 == 0x20 {
        // JR cond, imm8: taken costs one machine cycle more than not taken
        let (r1, m1) = fetch_spec(s.m);
        match r1 {
            Err(e) => Outcome { s: CpuView { m: m1, ..s }, r: Err(e) },
            Ok(off) => {
                if cond_holds((op >> 3) & 3, s.f) {
                    Outcome {
                        s: CpuView { m: MemView { pc: rel_target(m1.pc, off), ..m1 }, ..s },
                        r: Ok(12),
                    }
                } else {
                    Outcome { s: CpuView { m: m1, ..s }, r: Ok(8) }
                }
            },
        }
    } else {
        Outcome { s, r: Err(CoreError::UndefinedOpcode(op)) }
    }
}

/// Block 1, top bits `01`: the full 8 by 8 load matrix, except that the
/// slot where both codes select the byte under HL is HALT, a no-op
/// placeholder at this layer.
pub open spec fn block1_spec(s: CpuView, op: u8) -> Outcome {
    let dst = (op >> 3) & 7;
    let src = op & 7;
    if dst == 6 && src == 6 {
        Outcome { s, r: Ok(4) }
    } else {
        Outcome {
            s: r8_set(s, dst, r8_get(s, src)),
            r: Ok(
                if dst == 6 || src == 6 {
                    8
                } else {
                    4
                },
            ),
        }
    }
}

/// Block 2, top bits `10`: accumulator arithmetic against the operand
/// selected by the low 3 bits, the operation selected by the middle 3.
pub open spec fn block2_spec(s: CpuView, op: u8) -> Outcome {
    let v = r8_get(s, op & 7);
    let (a2, f2) = alu8((op >> 3) & 7, s.a, v, s.f);
    Outcome {
        s: CpuView { a: a2, f: f2, ..s },
        r: Ok(
            if op & 7 == 6 {
                8
            } else {
                4
            },
        ),
    }
}

/// Block 3, top bits `11`: immediate arithmetic, calls, returns, absolute
/// jumps, the stack instructions, the high-page loads, the
/// stack-pointer-relative forms, and interrupt enable and disable.  The
/// eleven byte values that match no pattern are the undefined opcodes.
pub open spec fn block3_spec(s: CpuView, op: u8) -> Outcome {
    if op & 0xC7 == 0xC6 {
        // ALU A, imm8
        let (r1, m1) = fetch_spec(s.m);
        let s1 = CpuView { m: m1, ..s };
        match r1 {
            Err(e) => Outcome { s: s1, r: Err(e) },
            Ok(v) => {
                let (a2, f2) = alu8((op >> 3) & 7, s.a, v, s.f);
                Outcome { s: CpuView { a: a2, f: f2, ..s1 }, r: Ok(8) }
            },
        }
    } else if op & 0xE7 == 0xC0 {
        // RET cond
        if cond_holds((op >> 3) & 3, s.f) {
            let (r1, m1) = pop_spec(s.m);
            match r1 {
                Err(e) => Outcome { s: CpuView { m: m1, ..s }, r: Err(e) },
                Ok(addr) => Outcome {
                    s: CpuView { m: MemView { pc: addr, ..m1 }, ..s },
                    r: Ok(20),
                },
            }
        } else {
            Outcome { s, r: Ok(8) }
        }
    } else if op == 0xC9 || op == 0xD9 {
        // RET; RETI also enables interrupts at once
        let (r1, m1) = pop_spec(s.m);
        match r1 {
            Err(e) => Outcome { s: CpuView { m: m1, ..s }, r: Err(e) },
            Ok(addr) => {
                let s2 = CpuView { m: MemView { pc: addr, ..m1 }, ..s };
                if op == 0xD9 {
                    Outcome { s: CpuView { ime: true, ..s2 }, r: Ok(16) }
                } else {
                    Outcome { s: s2, r: Ok(16) }
                }
            },
        }
    } else if op & 0xE7 == 0xC2 {
        // JP cond, imm16
        let (r1, m1) = fetch2_spec(s.m);
        let s1 = CpuView { m: m1, ..s };
        match r1 {
            Err(e) => Outcome { s: s1, r: Err(e) },
            Ok(addr) => {
                if cond_holds((op >> 3) & 3, s.f) {
                    Outcome { s: CpuView { m: MemView { pc: addr, ..m1 }, ..s }, r: Ok(16) }
                } else {
                    Outcome { s: s1, r: Ok(12) }
                }
            },
        }
    } else if op == 0xC3 {
        // JP imm16
        let (r1, m1) = fetch2_spec(s.m);
        match r1 {
            Err(e) => Outcome { s: CpuView { m: m1, ..s }, r: Err(e) },
            Ok(addr) => Outcome { s: CpuView { m: MemView { pc: addr, ..m1 }, ..s }, r: Ok(16) },
        }
    } else if op == 0xE9 {
        // JP HL
        Outcome { s: CpuView { m: MemView { pc: hl_of(s), ..s.m }, ..s }, r: Ok(4) }
    } else if op & 0xE7 == 0xC4 {
        // CALL cond, imm16
        let (r1, m1) = fetch2_spec(s.m);
        let s1 = CpuView { m: m1, ..s };
        match r1 {
            Err(e) => Outcome { s: s1, r: Err(e) },
            Ok(addr) => {
                if cond_holds((op >> 3) & 3, s.f) {
                    let (r2, m2) = push_spec(m1, m1.pc);
                    match r2 {
                        Err(e) => Outcome { s: CpuView { m: m2, ..s }, r: Err(e) },
                        Ok(_) => Outcome {
                            s: CpuView { m: MemView { pc: addr, ..m2 }, ..s },
                            r: Ok(24),
                        },
                    }
                } else {
                    Outcome { s: s1, r: Ok(12) }
                }
            },
        }
    } else if op == 0xCD {
        // CALL imm16
        let (r1, m1) = fetch2_spec(s.m);
        match r1 {
            Err(e) => Outcome { s: CpuView { m: m1, ..s }, r: Err(e) },
            Ok(addr) => {
                let (r2, m2) = push_spec(m1, m1.pc);
                match r2 {
                    Err(e) => Outcome { s: CpuView { m: m2, ..s }, r: Err(e) },
                    Ok(_) => Outcome { s: CpuView { m: MemView { pc: addr, ..m2 }, ..s }, r: Ok(24) },
                }
            },
        }
    } else if op & 0xC7 == 0xC7 {
        // RST: call one of the eight fixed low-memory vectors
        let (r1, m1) = push_spec(s.m, s.m.pc);
        match r1 {
            Err(e) => Outcome { s: CpuView { m: m1, ..s }, r: Err(e) },
            Ok(_) => Outcome {
                s: CpuView { m: MemView { pc: (op & 0x38) as u16, ..m1 }, ..s },
                r: Ok(16),
            },
        }
    } else if op & 0xCF == 0xC1 {
        // POP r16stk; restoring AF masks the undefined low nibble of the
        // flag byte to zero
        let (r1, m1) = pop_spec(s.m);
        match r1 {
            Err(e) => Outcome { s: CpuView { m: m1, ..s }, r: Err(e) },
            Ok(v) => {
                let code = (op >> 4) & 3;
                let s1 = CpuView { m: m1, ..s };
                let s2 = if code == 0 {
                    with_bc(s1, v)
                } else if code == 1 {
                    with_de(s1, v)
                } else if code == 2 {
                    with_hl(s1, v)
                } else {
                    CpuView { a: (v >> 8) as u8, f: (v as u8) & 0xF0, ..s1 }
                };
                Outcome { s: s2, r: Ok(12) }
            },
        }
    } else if op & 0xCF == 0xC5 {
        // PUSH r16stk
        let code = (op >> 4) & 3;
        let v = if code == 0 {
            bc_of(s)
        } else if code == 1 {
            de_of(s)
        } else if code == 2 {
            hl_of(s)
        } else {
            af_of(s)
        };
        let (r1, m1) = push_spec(s.m, v);
        match r1 {
            Err(e) => Outcome { s: CpuView { m: m1, ..s }, r: Err(e) },
            Ok(_) => Outcome { s: CpuView { m: m1, ..s }, r: Ok(16) },
        }
    } else if op == 0xE2 {
        // LDH [C], A
        Outcome {
            s: CpuView { m: write8_spec(s.m, (0xFF00 + s.c) as u16, s.a), ..s },
            r: Ok(8),
        }
    } else if op == 0xF2 {
        // LDH A, [C]
        Outcome { s: CpuView { a: s.m.ram[0xFF00 + s.c as int], ..s }, r: Ok(8) }
    } else if op == 0xE0 {
        // LDH [imm8], A
        let (r1, m1) = fetch_spec(s.m);
        match r1 {
            Err(e) => Outcome { s: CpuView { m: m1, ..s }, r: Err(e) },
            Ok(n) => Outcome {
                s: CpuView { m: write8_spec(m1, (0xFF00 + n) as u16, s.a), ..s },
                r: Ok(12),
            },
        }
    } else if op == 0xF0 {
        // LDH A, [imm8]
        let (r1, m1) = fetch_spec(s.m);
        match r1 {
            Err(e) => Outcome { s: CpuView { m: m1, ..s }, r: Err(e) },
            Ok(n) => Outcome { s: CpuView { a: m1.ram[0xFF00 + n as int], m: m1, ..s }, r: Ok(12) },
        }
    } else if op == 0xEA {
        // LD [imm16], A
        let (r1, m1) = fetch2_spec(s.m);
        match r1 {
            Err(e) => Outcome { s: CpuView { m: m1, ..s }, r: Err(e) },
            Ok(addr) => Outcome { s: CpuView { m: write8_spec(m1, addr, s.a), ..s }, r: Ok(16) },
        }
    } else if op == 0xFA {
        // LD A, [imm16]
        let (r1, m1) = fetch2_spec(s.m);
        match r1 {
            Err(e) => Outcome { s: CpuView { m: m1, ..s }, r: Err(e) },
            Ok(addr) => Outcome { s: CpuView { a: m1.ram[addr as int], m: m1, ..s }, r: Ok(16) },
        }
    } else if op == 0xE8 {
        // ADD SP, imm8: signed offset, flags from the low byte of SP
        let (r1, m1) = fetch_spec(s.m);
        match r1 {
            Err(e) => Outcome { s: CpuView { m: m1, ..s }, r: Err(e) },
            Ok(off) => Outcome {
                s: CpuView {
                    f: sp_rel_flags(m1.sp, off),
                    m: MemView { sp: rel_target(m1.sp, off), ..m1 },
                    ..s
                },
                r: Ok(16),
            },
        }
    } else if op == 0xF8 {
        // LD HL, SP + imm8: signed offset, flags from the low byte of SP
        let (r1, m1) = fetch_spec(s.m);
        match r1 {
            Err(e) => Outcome { s: CpuView { m: m1, ..s }, r: Err(e) },
            Ok(off) => Outcome {
                s: CpuView {
                    f: sp_rel_flags(m1.sp, off),
                    ..with_hl(CpuView { m: m1, ..s }, rel_target(m1.sp, off))
                },
                r: Ok(12),
            },
        }
    } else if op == 0xF9 {
        // LD SP, HL
        Outcome { s: CpuView { m: MemView { sp: hl_of(s), ..s.m }, ..s }, r: Ok(8) }
    } else if op == 0xF3 {
        // DI: disable at once and cancel any pending enable
        Outcome { s: CpuView { ime: false, ei: -1i32, ..s }, r: Ok(4) }
    } else if op == 0xFB {
        // EI: arm the one-instruction delay
        Outcome { s: CpuView { ei: 1, ..s }, r: Ok(4) }
    } else {
        Outcome { s, r: Err(CoreError::UndefinedOpcode(op)) }
    }
}

/// Block CB, reached through the prefix byte: the rotate/shift family,
/// single-bit test, clear and set.  Every second byte is defined.
pub open spec fn blockcb_spec(s: CpuView, op: u8) -> Outcome {
    let kind = op >> 6;
    let code = op & 7;
    let i = (op >> 3) & 7;
    if kind == 0 {
        let (v2, f2) = rot8(i, r8_get(s, code), s.f);
        Outcome {
            s: CpuView { f: f2, ..r8_set(s, code, v2) },
            r: Ok(
                if code == 6 {
                    16
                } else {
                    8
                },
            ),
        }
    } else if kind == 1 {
        // BIT: test one bit, set half-carry, preserve carry
        let z = r8_get(s, code) & mask_bit(i) == 0;
        Outcome {
            s: CpuView { f: mk_flags(z, false, true, flag_c(s.f)), ..s },
            r: Ok(
                if code == 6 {
                    12
                } else {
                    8
                },
            ),
        }
    } else if kind == 2 {
        // RES: clear one bit, no flags
        Outcome {
            s: r8_set(s, code, r8_get(s, code) & !mask_bit(i)),
            r: Ok(
                if code == 6 {
                    16
                } else {
                    8
                },
            ),
        }
    } else {
        // SET: set one bit, no flags
        Outcome {
            s: r8_set(s, code, r8_get(s, code) | mask_bit(i)),
            r: Ok(
                if code == 6 {
                    16
                } else {
                    8
                },
            ),
        }
    }
}

/// One opcode routed to its group: the prefix byte escapes to block CB
/// after a second fetch, and the top two bits select among the four plain
/// groups.
pub open spec fn execute_spec(s: CpuView, op: u8) -> Outcome {
    if op == 0xCB {
        let (r1, m1) = fetch_spec(s.m);
        let s1 = CpuView { m: m1, ..s };
        match r1 {
            Err(e) => Outcome { s: s1, r: Err(e) },
            Ok(op2) => blockcb_spec(s1, op2),
        }
    } else if op >> 6 == 0 {
        block0_spec(s, op)
    } else if op >> 6 == 1 {
        block1_spec(s, op)
    } else if op >> 6 == 2 {
        block2_spec(s, op)
    } else {
        block3_spec(s, op)
    }
}

/// The deferred interrupt-enable transition applied after an instruction:
/// a freshly armed enable moves to firing position, a firing one sets the
/// master flag and disarms, and the idle sentinel stays put.
pub open spec fn ime_hook(s: CpuView) -> CpuView {
    if s.ei > 0 {
        CpuView { ei: (s.ei - 1) as i32, ..s }
    } else if s.ei == 0 {
        CpuView { ime: true, ei: -1i32, ..s }
    } else {
        s
    }
}

/// One whole step: fetch the opcode, execute it, apply the deferred
/// interrupt-enable transition, and report machine cycles, one per four
/// clock ticks.  An error leaves the deferred transition unapplied.
pub open spec fn step_spec(s: CpuView) -> StepOutcome {
    let (r1, m1) = fetch_spec(s.m);
    let s1 = CpuView { m: m1, ..s };
    match r1 {
        Err(e) => StepOutcome { s: s1, r: Err(e) },
        Ok(op) => {
            let o = execute_spec(s1, op);
            match o.r {
                Err(e) => StepOutcome { s: o.s, r: Err(e) },
                Ok(t) => StepOutcome { s: ime_hook(o.s), r: Ok((t / 4) as i32) },
            }
        },
    }
}

/// Whether a modeled result is the decode-failure error, whatever byte it
/// carries.
pub open spec fn is_undefined_error(r: Result<u32, CoreError>) -> bool {
    r matches Err(CoreError::UndefinedOpcode(_))
}

/// The eleven opcode bytes that no pattern recognizes; every other byte,
/// and every CB-prefixed second byte, is routed to exactly one pattern.
pub open spec fn opcode_defined(op: u8) -> bool {
    !(op == 0xD3 || op == 0xDB || op == 0xDD || op == 0xE3 || op == 0xE4 || op == 0xEB || op
        == 0xEC || op == 0xED || op == 0xF4 || op == 0xFC || op == 0xFD)
}

/// The bit-level facts of the decode tree: what each discriminator mask
/// recognizes, written out byte by byte, how the operand fields read as
/// quotients and remainders, and that the recognized patterns cover each
/// block with the eleven undefined bytes matching none.
pub proof fn lemma_opcode_fields(op: u8)
    by (bit_vector)
    ensures
        op >> 6 == op / 64,
        op & 7 == op % 8,
        (op >> 3) & 7 == op / 8 % 8,
        (op >> 3) & 3 == op / 8 % 4,
        (op >> 4) & 3 == op / 16 % 4,
        op & 0x38 == (op / 8 % 8) * 8,
        (op & 0xCF == 0x01) <==> (op == 0x01 || op == 0x11 || op == 0x21 || op == 0x31),
        (op & 0xCF == 0x02) <==> (op == 0x02 || op == 0x12 || op == 0x22 || op == 0x32),
        (op & 0xCF == 0x0A) <==> (op == 0x0A || op == 0x1A || op == 0x2A || op == 0x3A),
        (op & 0xCF == 0x03) <==> (op == 0x03 || op == 0x13 || op == 0x23 || op == 0x33),
        (op & 0xCF == 0x0B) <==> (op == 0x0B || op == 0x1B || op == 0x2B || op == 0x3B),
        (op & 0xCF == 0x09) <==> (op == 0x09 || op == 0x19 || op == 0x29 || op == 0x39),
        (op & 0xC7 == 0x04) <==> (op == 0x04 || op == 0x0C || op == 0x14 || op == 0x1C || op
            == 0x24 || op == 0x2C || op == 0x34 || op == 0x3C),
        (op & 0xC7 == 0x05) <==> (op == 0x05 || op == 0x0D || op == 0x15 || op == 0x1D || op
            == 0x25 || op == 0x2D || op == 0x35 || op == 0x3D),
        (op & 0xC7 == 0x06) <==> (op == 0x06 || op == 0x0E || op == 0x16 || op == 0x1E || op
            == 0x26 || op == 0x2E || op == 0x36 || op == 0x3E),
        (op & 0xE7 == 0x20) <==> (op == 0x20 || op == 0x28 || op == 0x30 || op == 0x38),
        (op & 0xC7 == 0xC6) <==> (op == 0xC6 || op == 0xCE || op == 0xD6 || op == 0xDE || op
            == 0xE6 || op == 0xEE || op == 0xF6 || op == 0xFE),
        (op & 0xE7 == 0xC0) <==> (op == 0xC0 || op == 0xC8 || op == 0xD0 || op == 0xD8),
        (op & 0xE7 == 0xC2) <==> (op == 0xC2 || op == 0xCA || op == 0xD2 || op == 0xDA),
        (op & 0xE7 == 0xC4) <==> (op == 0xC4 || op == 0xCC || op == 0xD4 || op == 0xDC),
        (op & 0xC7 == 0xC7) <==> (op == 0xC7 || op == 0xCF || op == 0xD7 || op == 0xDF || op
            == 0xE7 || op == 0xEF || op == 0xF7 || op == 0xFF),
        (op & 0xCF == 0xC1) <==> (op == 0xC1 || op == 0xD1 || op == 0xE1 || op == 0xF1),
        (op & 0xCF == 0xC5) <==> (op == 0xC5 || op == 0xD5 || op == 0xE5 || op == 0xF5),
        op <= 0x3F ==> (op == 0x00 || op == 0x10 || op & 0xCF == 0x01 || op & 0xCF == 0x02
            || op & 0xCF == 0x0A || op == 0x08 || op & 0xCF == 0x03 || op & 0xCF == 0x0B
            || op & 0xCF == 0x09 || op & 0xC7 == 0x04 || op & 0xC7 == 0x05 || op & 0xC7 == 0x06
            || op == 0x07 || op == 0x0F || op == 0x17 || op == 0x1F || op == 0x27 || op == 0x2F
            || op == 0x37 || op == 0x3F || op == 0x18 || op & 0xE7 == 0x20),
        0xC0 <= op ==> (op & 0xC7 == 0xC6 || op & 0xE7 == 0xC0 || op == 0xC9 || op == 0xD9
            || op & 0xE7 == 0xC2 || op == 0xC3 || op == 0xE9 || op & 0xE7 == 0xC4 || op == 0xCD
            || op & 0xC7 == 0xC7 || op & 0xCF == 0xC1 || op & 0xCF == 0xC5 || op == 0xE2
            || op == 0xF2 || op == 0xE0 || op == 0xF0 || op == 0xEA || op == 0xFA || op == 0xE8
            || op == 0xF8 || op == 0xF9 || op == 0xF3 || op == 0xFB || op == 0xCB || op == 0xD3
            || op == 0xDB || op == 0xDD || op == 0xE3 || op == 0xE4 || op == 0xEB || op == 0xEC
            || op == 0xED || op == 0xF4 || op == 0xFC || op == 0xFD),
        (op == 0xD3 || op == 0xDB || op == 0xDD || op == 0xE3 || op == 0xE4 || op == 0xEB
            || op == 0xEC || op == 0xED || op == 0xF4 || op == 0xFC || op == 0xFD) ==> !(op
            & 0xC7 == 0xC6 || op & 0xE7 == 0xC0 || op == 0xC9 || op == 0xD9 || op & 0xE7 == 0xC2
            || op == 0xC3 || op == 0xE9 || op & 0xE7 == 0xC4 || op == 0xCD || op & 0xC7 == 0xC7
            || op & 0xCF == 0xC1 || op & 0xCF == 0xC5 || op == 0xE2 || op == 0xF2 || op == 0xE0
            || op == 0xF0 || op == 0xEA || op == 0xFA || op == 0xE8 || op == 0xF8 || op == 0xF9
            || op == 0xF3 || op == 0xFB || op == 0xCB),
{
}

/// Decode completeness: a byte produces the decode-failure error exactly
/// when it is one of the eleven undefined opcodes, and an undefined byte
/// changes nothing at all.  Every CB-prefixed second byte is recognized,
/// so the prefixed space contributes no undefined opcode.
pub proof fn lemma_decode_total(s: CpuView, op: u8)
    ensures
        opcode_defined(op) <==> !is_undefined_error(execute_spec(s, op).r),
        !opcode_defined(op) ==> execute_spec(s, op) == (Outcome {
            s,
            r: Err(CoreError::UndefinedOpcode(op)),
        }),
{
    lemma_opcode_fields(op);
}

/// Fetching alone advances the program counter by exactly one: a one-byte
/// opcode from the two middle blocks moves the counter one past itself and
/// nothing in those blocks moves it further.
pub proof fn lemma_length_one(s: CpuView, op: u8)
    requires
        s.m.pc < 0xFFFF,
        s.m.ram[s.m.pc as int] == op,
        0x40 <= op < 0xC0,
    ensures
        step_spec(s).r is Ok,
        step_spec(s).s.m.pc == s.m.pc + 1,
{
    lemma_opcode_fields(op);
}

/// An opcode followed by a one-byte immediate advances the program counter
/// by exactly two: the opcode fetch and the operand fetch.
pub proof fn lemma_length_two(s: CpuView, op: u8)
    requires
        s.m.pc <= 0xFFFD,
        s.m.ram[s.m.pc as int] == op,
        op <= 0x3F,
        op & 0xC7 == 0x06,
    ensures
        step_spec(s).r is Ok,
        step_spec(s).s.m.pc == s.m.pc + 2,
{
    lemma_opcode_fields(op);
}

/// An opcode followed by a two-byte immediate advances the program counter
/// by exactly three.
pub proof fn lemma_length_three(s: CpuView, op: u8)
    requires
        s.m.pc <= 0xFFFC,
        s.m.ram[s.m.pc as int] == op,
        op <= 0x3F,
        op & 0xCF == 0x01,
    ensures
        step_spec(s).r is Ok,
        step_spec(s).s.m.pc == s.m.pc + 3,
{
    lemma_opcode_fields(op);
}

/// Conditional relative-jump timing: JR NZ taken costs 3 machine cycles
/// and lands the counter at the offset target; not taken costs 2 and
/// leaves the counter just past the instruction, untouched by the offset.
pub proof fn lemma_jr_nz_timing(s: CpuView, off: u8)
    requires
        s.m.pc <= 0xFFFD,
        s.m.ram[s.m.pc as int] == 0x20,
        s.m.ram[s.m.pc as int + 1] == off,
    ensures
        !flag_z(s.f) ==> step_spec(s).r == Ok::<i32, CoreError>(3) && step_spec(s).s.m.pc
            == rel_target((s.m.pc + 2) as u16, off),
        flag_z(s.f) ==> step_spec(s).r == Ok::<i32, CoreError>(2) && step_spec(s).s.m.pc == s.m.pc
            + 2,
{
    lemma_opcode_fields(0x20);
}

/// The deferred-enable protocol, enabling case: from a state with
/// interrupts disabled and nothing pending, executing EI and then NOP
/// leaves interrupts enabled, and they are still disabled between the two.
pub proof fn lemma_ei_nop(s: CpuView)
    requires
        !s.ime,
        s.ei == -1,
        s.m.pc <= 0xFFFD,
        s.m.ram[s.m.pc as int] == 0xFB,
        s.m.ram[s.m.pc as int + 1] == 0x00,
    ensures
        step_spec(s).r == Ok::<i32, CoreError>(1),
        !step_spec(s).s.ime,
        step_spec(s).s.ei == 0,
        step_spec(step_spec(s).s).s.ime,
        step_spec(step_spec(s).s).s.ei == -1,
{
    lemma_opcode_fields(0xFB);
    lemma_opcode_fields(0x00);
}

/// The deferred-enable protocol, cancelling case: executing EI and then DI
/// leaves interrupts disabled with nothing pending, so the enable never
/// fires.
pub proof fn lemma_ei_di(s: CpuView)
    requires
        !s.ime,
        s.ei == -1,
        s.m.pc <= 0xFFFD,
        s.m.ram[s.m.pc as int] == 0xFB,
        s.m.ram[s.m.pc as int + 1] == 0xF3,
    ensures
        !step_spec(step_spec(s).s).s.ime,
        step_spec(step_spec(s).s).s.ei == -1,
{
    lemma_opcode_fields(0xFB);
    lemma_opcode_fields(0xF3);
}

/// The uniform conditional-cost rule for relative jumps: whichever of the
/// four conditions the opcode encodes, the taken path costs 3 machine
/// cycles and the not-taken path 2.
pub proof fn lemma_cond_jr_cost(s: CpuView, op: u8)
    requires
        s.m.pc <= 0xFFFD,
        s.m.ram[s.m.pc as int] == op,
        op & 0xE7 == 0x20,
    ensures
        cond_holds((op >> 3) & 3, s.f) ==> step_spec(s).r == Ok::<i32, CoreError>(3),
        !cond_holds((op >> 3) & 3, s.f) ==> step_spec(s).r == Ok::<i32, CoreError>(2),
{
    lemma_opcode_fields(op);
}

/// The uniform conditional-cost rule for absolute jumps: taken costs 4
/// machine cycles, not taken 3, for each of the four conditions.
pub proof fn lemma_cond_jp_cost(s: CpuView, op: u8)
    requires
        s.m.pc <= 0xFFFC,
        s.m.ram[s.m.pc as int] == op,
        op & 0xE7 == 0xC2,
    ensures
        cond_holds((op >> 3) & 3, s.f) ==> step_spec(s).r == Ok::<i32, CoreError>(4),
        !cond_holds((op >> 3) & 3, s.f) ==> step_spec(s).r == Ok::<i32, CoreError>(3),
{
    lemma_opcode_fields(op);
}

/// The uniform conditional-cost rule for calls: with stack headroom, taken
/// costs 6 machine cycles, not taken 3, for each of the four conditions.
pub proof fn lemma_cond_call_cost(s: CpuView, op: u8)
    requires
        s.m.pc <= 0xFFFC,
        s.m.sp >= 2,
        s.m.ram[s.m.pc as int] == op,
        op & 0xE7 == 0xC4,
    ensures
        cond_holds((op >> 3) & 3, s.f) ==> step_spec(s).r == Ok::<i32, CoreError>(6),
        !cond_holds((op >> 3) & 3, s.f) ==> step_spec(s).r == Ok::<i32, CoreError>(3),
{
    lemma_opcode_fields(op);
}

/// The uniform conditional-cost rule for returns: with a word on the
/// stack, taken costs 5 machine cycles, not taken 2, for each of the four
/// conditions.
pub proof fn lemma_cond_ret_cost(s: CpuView, op: u8)
    requires
        s.m.pc < 0xFFFF,
        s.m.sp <= 0xFFFD,
        s.m.ram[s.m.pc as int] == op,
        op & 0xE7 == 0xC0,
    ensures
        cond_holds((op >> 3) & 3, s.f) ==> step_spec(s).r == Ok::<i32, CoreError>(5),
        !cond_holds((op >> 3) & 3, s.f) ==> step_spec(s).r == Ok::<i32, CoreError>(2),
{
    lemma_opcode_fields(op);
}

} // verus!
