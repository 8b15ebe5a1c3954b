//! The executable instruction groups, one per structural partition of the
//! opcode space, each verified against its model function branch for
//! branch.
//!
//! Blocks 1 and 2 decode with a single pattern; blocks 0, 3 and CB mask
//! the fixed discriminator bits and pass the variable fields on as operand
//! selectors.  Each function returns the elapsed clock ticks.

use vstd::prelude::*;

use crate::CPU;
use crate::CoreError;
use crate::arith::{add8, adc8, alu8, cond_holds, dec8, flags_byte, inc8, sbc8, sub8, add16};
use crate::model::{
    block0_spec,
    block1_spec,
    block2_spec,
    block3_spec,
    blockcb_spec,
    r8_get,
    r8_set,
    rel_target,
    rot8,
};

verus! {

/// Reads the 8-bit operand selected by a 3-bit register code; code 6 reads
/// the byte under HL.
fn get_r8(cpu: &CPU, code: u8) -> (v: u8)
    requires
        cpu.wf(),
    ensures
        v == r8_get(cpu@, code),
{
    if code == 0 {
        cpu.bc.high
    } else if code == 1 {
        cpu.bc.low
    } else if code == 2 {
        cpu.de.high
    } else if code == 3 {
        cpu.de.low
    } else if code == 4 {
        cpu.hl.high
    } else if code == 5 {
        cpu.hl.low
    } else if code == 6 {
        let addr = cpu.hl.get_pair();
        match cpu.memory.read_byte(addr) {
            Ok(b) => b,
            // unreachable: the full space backs every address
            Err(_) => 0,
        }
    } else {
        cpu.af.high
    }
}

/// Writes the 8-bit operand selected by a 3-bit register code; code 6
/// writes the byte under HL.
fn set_r8(cpu: &mut CPU, code: u8, v: u8)
    requires
        old(cpu).wf(),
    ensures
        final(cpu).wf(),
        final(cpu)@ == r8_set(old(cpu)@, code, v),
{
    if code == 0 {
        cpu.bc.high = v;
    } else if code == 1 {
        cpu.bc.low = v;
    } else if code == 2 {
        cpu.de.high = v;
    } else if code == 3 {
        cpu.de.low = v;
    } else if code == 4 {
        cpu.hl.high = v;
    } else if code == 5 {
        cpu.hl.low = v;
    } else if code == 6 {
        let addr = cpu.hl.get_pair();
        let _ = cpu.memory.write_byte(addr, v);
    } else {
        cpu.af.high = v;
    }
}

/// Applies the 8-bit accumulator operation selected by a 3-bit code,
/// reading the carry-in from the flag byte.
fn alu8_exec(oper: u8, a: u8, v: u8, f: u8) -> (res: (u8, u8))
    ensures
        res == alu8(oper, a, v, f),
{
    let cin: u8 = if (f & 0x10) != 0 {
        1
    } else {
        0
    };
    if oper == 0 {
        add8(a, v)
    } else if oper == 1 {
        adc8(a, v, cin)
    } else if oper == 2 {
        sub8(a, v)
    } else if oper == 3 {
        sbc8(a, v, cin)
    } else if oper == 4 {
        let r = a & v;
        (r, flags_byte(r == 0, false, true, false))
    } else if oper == 5 {
        let r = a ^ v;
        (r, flags_byte(r == 0, false, false, false))
    } else if oper == 6 {
        let r = a | v;
        (r, flags_byte(r == 0, false, false, false))
    } else {
        let (_discard, fl) = sub8(a, v);
        (a, fl)
    }
}

/// Tests the condition encoded by a 2-bit field against the flag byte.
fn cond_exec(cc: u8, f: u8) -> (res: bool)
    ensures
        res == cond_holds(cc, f),
{
    if cc == 0 {
        (f & 0x80) == 0
    } else if cc == 1 {
        (f & 0x80) != 0
    } else if cc == 2 {
        (f & 0x10) == 0
    } else {
        (f & 0x10) != 0
    }
}

/// Moves a 16-bit base by a signed offset byte, wrapping at the 16-bit
/// boundary.
fn rel_addr(base: u16, off: u8) -> (r: u16)
    ensures
        r == rel_target(base, off),
{
    proof {
        assert(((off as i8) as i16) as int == (if off < 128 {
            off as int
        } else {
            off as int - 256
        })) by (bit_vector);
    }
    base.wrapping_add_signed((off as i8) as i16)
}

/// Applies the prefixed rotate or shift selected by a 3-bit operation
/// field, reading the carry-in from the flag byte.
fn rot8_exec(oper: u8, v: u8, f: u8) -> (res: (u8, u8))
    ensures
        res == rot8(oper, v, f),
{
    let cin = (f & 0x10) != 0;
    if oper == 0 {
        let v2 = (v << 1) | (v >> 7);
        (v2, flags_byte(v2 == 0, false, false, (v & 0x80) != 0))
    } else if oper == 1 {
        let v2 = (v >> 1) | (v << 7);
        (v2, flags_byte(v2 == 0, false, false, (v & 1) != 0))
    } else if oper == 2 {
        let v2 = (v << 1) | (if cin {
            1u8
        } else {
            0u8
        });
        (v2, flags_byte(v2 == 0, false, false, (v & 0x80) != 0))
    } else if oper == 3 {
        let v2 = (v >> 1) | (if cin {
            0x80u8
        } else {
            0u8
        });
        (v2, flags_byte(v2 == 0, false, false, (v & 1) != 0))
    } else if oper == 4 {
        let v2 = v << 1;
        (v2, flags_byte(v2 == 0, false, false, (v & 0x80) != 0))
    } else if oper == 5 {
        let v2 = (v >> 1) | (v & 0x80);
        (v2, flags_byte(v2 == 0, false, false, (v & 1) != 0))
    } else if oper == 6 {
        let v2 = (v << 4) | (v >> 4);
        (v2, flags_byte(v2 == 0, false, false, false))
    } else {
        let v2 = v >> 1;
        (v2, flags_byte(v2 == 0, false, false, (v & 1) != 0))
    }
}

/// Block 0, top bits `00`: loads, 16-bit arithmetic, 8-bit increment and
/// decrement, the accumulator rotate/adjust family, the flag-only
/// operations, and relative jumps.
pub(crate) fn block0(cpu: &mut CPU, opcode: u8) -> (r: Result<u32, CoreError>)
    requires
        old(cpu).wf(),
    ensures
        final(cpu).wf(),
        final(cpu)@ == block0_spec(old(cpu)@, opcode).s,
        r == block0_spec(old(cpu)@, opcode).r,
{
    if opcode == 0x00 || opcode == 0x10 {
        // NOP; STOP is a no-op placeholder at this layer
        Ok(4)
    } else if opcode & 0xCF == 0x01 {
        // LD r16, imm16
        let v = match cpu.memory.fetch_two_bytes() {
            Ok(v) => v,
            Err(e) => { return Err(e); },
        };
        let code = (opcode >> 4) & 3;
        if code == 0 {
            cpu.bc.set_pair(v);
        } else if code == 1 {
            cpu.de.set_pair(v);
        } else if code == 2 {
            cpu.hl.set_pair(v);
        } else {
            cpu.memory.stack_pointer = v;
        }
        Ok(12)
    } else if opcode & 0xCF == 0x02 {
        // LD [r16mem], A
        let code = (opcode >> 4) & 3;
        let addr = if code == 0 {
            cpu.bc.get_pair()
        } else if code == 1 {
            cpu.de.get_pair()
        } else {
            cpu.hl.get_pair()
        };
        let _ = cpu.memory.write_byte(addr, cpu.af.high);
        if code == 2 {
            cpu.hl.inc_pair();
        } else if code == 3 {
            cpu.hl.dec_pair();
        }
        Ok(8)
    } else if opcode & 0xCF == 0x0A {
        // LD A, [r16mem]
        let code = (opcode >> 4) & 3;
        let addr = if code == 0 {
            cpu.bc.get_pair()
        } else if code == 1 {
            cpu.de.get_pair()
        } else {
            cpu.hl.get_pair()
        };
        let v = match cpu.memory.read_byte(addr) {
            Ok(b) => b,
            // unreachable: the full space backs every address
            Err(_) => 0,
        };
        cpu.af.high = v;
        if code == 2 {
            cpu.hl.inc_pair();
        } else if code == 3 {
            cpu.hl.dec_pair();
        }
        Ok(8)
    } else if opcode == 0x08 {
        // LD [imm16], SP
        let addr = match cpu.memory.fetch_two_bytes() {
            Ok(v) => v,
            Err(e) => { return Err(e); },
        };
        match cpu.memory.write_two_bytes(addr, cpu.memory.stack_pointer) {
            Ok(()) => Ok(20),
            Err(e) => Err(e),
        }
    } else if opcode & 0xCF == 0x03 {
        // INC r16
        let code = (opcode >> 4) & 3;
        if code == 0 {
            cpu.bc.inc_pair();
        } else if code == 1 {
            cpu.de.inc_pair();
        } else if code == 2 {
            cpu.hl.inc_pair();
        } else {
            match cpu.memory.stack_pointer.checked_add(1) {
                Some(x) => { cpu.memory.stack_pointer = x; },
                None => { return Err(CoreError::StackOverflow); },
            }
        }
        Ok(8)
    } else if opcode & 0xCF == 0x0B {
        // DEC r16
        let code = (opcode >> 4) & 3;
        if code == 0 {
            cpu.bc.dec_pair();
        } else if code == 1 {
            cpu.de.dec_pair();
        } else if code == 2 {
            cpu.hl.dec_pair();
        } else {
            match cpu.memory.stack_pointer.checked_sub(1) {
                Some(x) => { cpu.memory.stack_pointer = x; },
                None => { return Err(CoreError::StackOverflow); },
            }
        }
        Ok(8)
    } else if opcode & 0xCF == 0x09 {
        // ADD HL, r16
        let code = (opcode >> 4) & 3;
        let rhs = if code == 0 {
            cpu.bc.get_pair()
        } else if code == 1 {
            cpu.de.get_pair()
        } else if code == 2 {
            cpu.hl.get_pair()
        } else {
            cpu.memory.stack_pointer
        };
        let (v, fl) = add16(cpu.hl.get_pair(), rhs);
        cpu.hl.set_pair(v);
        cpu.af.low = fl;
        Ok(8)
    } else if opcode & 0xC7 == 0x04 {
        // INC r8; the carry flag is preserved
        let code = (opcode >> 3) & 7;
        let (v2, fl) = inc8(get_r8(cpu, code));
        let f2 = fl | (cpu.af.low & 0x10);
        set_r8(cpu, code, v2);
        cpu.af.low = f2;
        if code == 6 {
            Ok(12)
        } else {
            Ok(4)
        }
    } else if opcode & 0xC7 == 0x05 {
        // DEC r8; the carry flag is preserved
        let code = (opcode >> 3) & 7;
        let (v2, fl) = dec8(get_r8(cpu, code));
        let f2 = fl | (cpu.af.low & 0x10);
        set_r8(cpu, code, v2);
        cpu.af.low = f2;
        if code == 6 {
            Ok(12)
        } else {
            Ok(4)
        }
    } else if opcode & 0xC7 == 0x06 {
        // LD r8, imm8
        let v = match cpu.memory.fetch_byte() {
            Ok(b) => b,
            Err(e) => { return Err(e); },
        };
        let code = (opcode >> 3) & 7;
        set_r8(cpu, code, v);
        if code == 6 {
            Ok(12)
        } else {
            Ok(4)
        }
    } else if opcode == 0x07 {
        // RLCA; unlike the prefixed rotates, zero comes out clear
        let a = cpu.af.high;
        cpu.af.high = (a << 1) | (a >> 7);
        cpu.af.low = flags_byte(false, false, false, (a & 0x80) != 0);
        Ok(4)
    } else if opcode == 0x0F {
        // RRCA
        let a = cpu.af.high;
        cpu.af.high = (a >> 1) | (a << 7);
        cpu.af.low = flags_byte(false, false, false, (a & 1) != 0);
        Ok(4)
    } else if opcode == 0x17 {
        // RLA
        let a = cpu.af.high;
        let cin = (cpu.af.low & 0x10) != 0;
        cpu.af.high = (a << 1) | (if cin {
            1u8
        } else {
            0u8
        });
        cpu.af.low = flags_byte(false, false, false, (a & 0x80) != 0);
        Ok(4)
    } else if opcode == 0x1F {
        // RRA
        let a = cpu.af.high;
        let cin = (cpu.af.low & 0x10) != 0;
        cpu.af.high = (a >> 1) | (if cin {
            0x80u8
        } else {
            0u8
        });
        cpu.af.low = flags_byte(false, false, false, (a & 1) != 0);
        Ok(4)
    } else if opcode == 0x27 {
        // DAA: adjust the accumulator after BCD arithmetic
        let a = cpu.af.high;
        let f = cpu.af.low;
        if (f & 0x40) == 0 {
            let c2 = (f & 0x10) != 0 || a > 0x99;
            let low = (f & 0x20) != 0 || a % 16 > 9;
            let adj = (if low {
                6u8
            } else {
                0u8
            }) + (if c2 {
                0x60u8
            } else {
                0u8
            });
            let a2 = a.wrapping_add(adj);
            cpu.af.high = a2;
            cpu.af.low = flags_byte(a2 == 0, false, false, c2);
        } else {
            let adj = (if (f & 0x20) != 0 {
                6u8
            } else {
                0u8
            }) + (if (f & 0x10) != 0 {
                0x60u8
            } else {
                0u8
            });
            let a2 = a.wrapping_sub(adj);
            cpu.af.high = a2;
            cpu.af.low = flags_byte(a2 == 0, true, false, (f & 0x10) != 0);
        }
        Ok(4)
    } else if opcode == 0x2F {
        // CPL: complement the accumulator, set subtract and half-carry
        let f = cpu.af.low;
        cpu.af.high = !cpu.af.high;
        cpu.af.low = flags_byte((f & 0x80) != 0, true, true, (f & 0x10) != 0);
        Ok(4)
    } else if opcode == 0x37 {
        // SCF: set carry, clear subtract and half-carry
        let f = cpu.af.low;
        cpu.af.low = flags_byte((f & 0x80) != 0, false, false, true);
        Ok(4)
    } else if opcode == 0x3F {
        // CCF: toggle carry, clear subtract and half-carry
        let f = cpu.af.low;
        cpu.af.low = flags_byte((f & 0x80) != 0, false, false, !((f & 0x10) != 0));
        Ok(4)
    } else if opcode == 0x18 {
        // JR imm8
        let off = match cpu.memory.fetch_byte() {
            Ok(b) => b,
            Err(e) => { return Err(e); },
        };
        let t = rel_addr(cpu.memory.program_counter, off);
        cpu.memory.program_counter = t;
        Ok(12)
    } else if opcode & 0xE7 == 0x20 {
        // JR cond, imm8: taken costs one machine cycle more than not taken
        let off = match cpu.memory.fetch_byte() {
            Ok(b) => b,
            Err(e) => { return Err(e); },
        };
        if cond_exec((opcode >> 3) & 3, cpu.af.low) {
            let t = rel_addr(cpu.memory.program_counter, off);
            cpu.memory.program_counter = t;
            Ok(12)
        } else {
            Ok(8)
        }
    } else {
        Err(CoreError::UndefinedOpcode(opcode))
    }
}

/// Block 1, top bits `01`: the full 8 by 8 load matrix, except that the
/// slot where both codes select the byte under HL is HALT, a no-op
/// placeholder at this layer.
pub(crate) fn block1(cpu: &mut CPU, opcode: u8) -> (r: Result<u32, CoreError>)
    requires
        old(cpu).wf(),
    ensures
        final(cpu).wf(),
        final(cpu)@ == block1_spec(old(cpu)@, opcode).s,
        r == block1_spec(old(cpu)@, opcode).r,
{
    let dst = (opcode >> 3) & 7;
    let src = opcode & 7;
    if dst == 6 && src == 6 {
        // the slot a self-load through HL would occupy is HALT
        return Ok(4);
    }
    let v = get_r8(cpu, src);
    set_r8(cpu, dst, v);
    if dst == 6 || src == 6 {
        Ok(8)
    } else {
        Ok(4)
    }
}

/// Block 2, top bits `10`: accumulator arithmetic against the operand
/// selected by the low 3 bits, the operation selected by the middle 3.
pub(crate) fn block2(cpu: &mut CPU, opcode: u8) -> (r: Result<u32, CoreError>)
    requires
        old(cpu).wf(),
    ensures
        final(cpu).wf(),
        final(cpu)@ == block2_spec(old(cpu)@, opcode).s,
        r == block2_spec(old(cpu)@, opcode).r,
{
    let code = opcode & 7;
    let v = get_r8(cpu, code);
    let (a2, f2) = alu8_exec((opcode >> 3) & 7, cpu.af.high, v, cpu.af.low);
    cpu.af.high = a2;
    cpu.af.low = f2;
    if code == 6 {
        Ok(8)
    } else {
        Ok(4)
    }
}

/// Block 3, top bits `11`: immediate arithmetic, calls, returns, absolute
/// jumps, the stack instructions, the high-page loads, the
/// stack-pointer-relative forms, and interrupt enable and disable.  The
/// eleven byte values that match no pattern fail with `UndefinedOpcode`.
pub(crate) fn block3(cpu: &mut CPU, opcode: u8) -> (r: Result<u32, CoreError>)
    requires
        old(cpu).wf(),
    ensures
        final(cpu).wf(),
        final(cpu)@ == block3_spec(old(cpu)@, opcode).s,
        r == block3_spec(old(cpu)@, opcode).r,
{
    if opcode & 0xC7 == 0xC6 {
        // ALU A, imm8
        let v = match cpu.memory.fetch_byte() {
            Ok(b) => b,
            Err(e) => { return Err(e); },
        };
        let (a2, f2) = alu8_exec((opcode >> 3) & 7, cpu.af.high, v, cpu.af.low);
        cpu.af.high = a2;
        cpu.af.low = f2;
        Ok(8)
    } else if opcode & 0xE7 == 0xC0 {
        // RET cond
        if cond_exec((opcode >> 3) & 3, cpu.af.low) {
            let addr = match cpu.memory.pop_stack() {
                Ok(v) => v,
                Err(e) => { return Err(e); },
            };
            cpu.memory.program_counter = addr;
            Ok(20)
        } else {
            Ok(8)
        }
    } else if opcode == 0xC9 || opcode == 0xD9 {
        // RET; RETI also enables interrupts at once
        let addr = match cpu.memory.pop_stack() {
            Ok(v) => v,
            Err(e) => { return Err(e); },
        };
        cpu.memory.program_counter = addr;
        if opcode == 0xD9 {
            cpu.ime = true;
        }
        Ok(16)
    } else if opcode & 0xE7 == 0xC2 {
        // JP cond, imm16
        let addr = match cpu.memory.fetch_two_bytes() {
            Ok(v) => v,
            Err(e) => { return Err(e); },
        };
        if cond_exec((opcode >> 3) & 3, cpu.af.low) {
            cpu.memory.program_counter = addr;
            Ok(16)
        } else {
            Ok(12)
        }
    } else if opcode == 0xC3 {
        // JP imm16
        let addr = match cpu.memory.fetch_two_bytes() {
            Ok(v) => v,
            Err(e) => { return Err(e); },
        };
        cpu.memory.program_counter = addr;
        Ok(16)
    } else if opcode == 0xE9 {
        // JP HL
        cpu.memory.program_counter = cpu.hl.get_pair();
        Ok(4)
    } else if opcode & 0xE7 == 0xC4 {
        // CALL cond, imm16
        let addr = match cpu.memory.fetch_two_bytes() {
            Ok(v) => v,
            Err(e) => { return Err(e); },
        };
        if cond_exec((opcode >> 3) & 3, cpu.af.low) {
            match cpu.memory.push_stack(cpu.memory.program_counter) {
                Ok(()) => {},
                Err(e) => { return Err(e); },
            }
            cpu.memory.program_counter = addr;
            Ok(24)
        } else {
            Ok(12)
        }
    } else if opcode == 0xCD {
        // CALL imm16
        let addr = match cpu.memory.fetch_two_bytes() {
            Ok(v) => v,
            Err(e) => { return Err(e); },
        };
        match cpu.memory.push_stack(cpu.memory.program_counter) {
            Ok(()) => {},
            Err(e) => { return Err(e); },
        }
        cpu.memory.program_counter = addr;
        Ok(24)
    } else if opcode & 0xC7 == 0xC7 {
        // RST: call one of the eight fixed low-memory vectors
        match cpu.memory.push_stack(cpu.memory.program_counter) {
            Ok(()) => {},
            Err(e) => { return Err(e); },
        }
        cpu.memory.program_counter = (opcode & 0x38) as u16;
        Ok(16)
    } else if opcode & 0xCF == 0xC1 {
        // POP r16stk; restoring AF masks the undefined low nibble of the
        // flag byte to zero
        let v = match cpu.memory.pop_stack() {
            Ok(v) => v,
            Err(e) => { return Err(e); },
        };
        let code = (opcode >> 4) & 3;
        if code == 0 {
            cpu.bc.set_pair(v);
        } else if code == 1 {
            cpu.de.set_pair(v);
        } else if code == 2 {
            cpu.hl.set_pair(v);
        } else {
            cpu.af.high = (v >> 8) as u8;
            cpu.af.low = (v as u8) & 0xF0;
        }
        Ok(12)
    } else if opcode & 0xCF == 0xC5 {
        // PUSH r16stk
        let code = (opcode >> 4) & 3;
        let v = if code == 0 {
            cpu.bc.get_pair()
        } else if code == 1 {
            cpu.de.get_pair()
        } else if code == 2 {
            cpu.hl.get_pair()
        } else {
            cpu.af.get_pair()
        };
        match cpu.memory.push_stack(v) {
            Ok(()) => Ok(16),
            Err(e) => Err(e),
        }
    } else if opcode == 0xE2 {
        // LDH [C], A
        let addr = 0xFF00u16 + (cpu.bc.low as u16);
        let _ = cpu.memory.write_byte(addr, cpu.af.high);
        Ok(8)
    } else if opcode == 0xF2 {
        // LDH A, [C]
        let addr = 0xFF00u16 + (cpu.bc.low as u16);
        let v = match cpu.memory.read_byte(addr) {
            Ok(b) => b,
            // unreachable: the full space backs every address
            Err(_) => 0,
        };
        cpu.af.high = v;
        Ok(8)
    } else if opcode == 0xE0 {
        // LDH [imm8], A
        let n = match cpu.memory.fetch_byte() {
            Ok(b) => b,
            Err(e) => { return Err(e); },
        };
        let addr = 0xFF00u16 + (n as u16);
        let _ = cpu.memory.write_byte(addr, cpu.af.high);
        Ok(12)
    } else if opcode == 0xF0 {
        // LDH A, [imm8]
        let n = match cpu.memory.fetch_byte() {
            Ok(b) => b,
            Err(e) => { return Err(e); },
        };
        let addr = 0xFF00u16 + (n as u16);
        let v = match cpu.memory.read_byte(addr) {
            Ok(b) => b,
            // unreachable: the full space backs every address
            Err(_) => 0,
        };
        cpu.af.high = v;
        Ok(12)
    } else if opcode == 0xEA {
        // LD [imm16], A
        let addr = match cpu.memory.fetch_two_bytes() {
            Ok(v) => v,
            Err(e) => { return Err(e); },
        };
        let _ = cpu.memory.write_byte(addr, cpu.af.high);
        Ok(16)
    } else if opcode == 0xFA {
        // LD A, [imm16]
        let addr = match cpu.memory.fetch_two_bytes() {
            Ok(v) => v,
            Err(e) => { return Err(e); },
        };
        let v = match cpu.memory.read_byte(addr) {
            Ok(b) => b,
            // unreachable: the full space backs every address
            Err(_) => 0,
        };
        cpu.af.high = v;
        Ok(16)
    } else if opcode == 0xE8 {
        // ADD SP, imm8: signed offset, flags from the low byte of SP
        let off = match cpu.memory.fetch_byte() {
            Ok(b) => b,
            Err(e) => { return Err(e); },
        };
        let sp = cpu.memory.stack_pointer;
        let f2 = flags_byte(
            false,
            false,
            sp % 16 + ((off % 16) as u16) > 15,
            sp % 256 + (off as u16) > 255,
        );
        cpu.memory.stack_pointer = rel_addr(sp, off);
        cpu.af.low = f2;
        Ok(16)
    } else if opcode == 0xF8 {
        // LD HL, SP + imm8: signed offset, flags from the low byte of SP
        let off = match cpu.memory.fetch_byte() {
            Ok(b) => b,
            Err(e) => { return Err(e); },
        };
        let sp = cpu.memory.stack_pointer;
        let f2 = flags_byte(
            false,
            false,
            sp % 16 + ((off % 16) as u16) > 15,
            sp % 256 + (off as u16) > 255,
        );
        let t = rel_addr(sp, off);
        cpu.hl.set_pair(t);
        cpu.af.low = f2;
        Ok(12)
    } else if opcode == 0xF9 {
        // LD SP, HL
        cpu.memory.stack_pointer = cpu.hl.get_pair();
        Ok(8)
    } else if opcode == 0xF3 {
        // DI: disable at once and cancel any pending enable
        cpu.ime = false;
        cpu.set_ime = -1;
        Ok(4)
    } else if opcode == 0xFB {
        // EI: arm the one-instruction delay
        cpu.set_ime = 1;
        Ok(4)
    } else {
        Err(CoreError::UndefinedOpcode(opcode))
    }
}

/// Block CB, reached through the prefix byte: the rotate/shift family,
/// single-bit test, clear and set.
pub(crate) fn blockcb(cpu: &mut CPU, opcode: u8) -> (r: Result<u32, CoreError>)
    requires
        old(cpu).wf(),
    ensures
        final(cpu).wf(),
        final(cpu)@ == blockcb_spec(old(cpu)@, opcode).s,
        r == blockcb_spec(old(cpu)@, opcode).r,
{
    proof {
        assert((opcode >> 3) & 7 < 8) by (bit_vector);
    }
    let kind = opcode >> 6;
    let code = opcode & 7;
    let i = (opcode >> 3) & 7;
    if kind == 0 {
        let v = get_r8(cpu, code);
        let (v2, f2) = rot8_exec(i, v, cpu.af.low);
        set_r8(cpu, code, v2);
        cpu.af.low = f2;
        if code == 6 {
            Ok(16)
        } else {
            Ok(8)
        }
    } else if kind == 1 {
        // BIT: test one bit, set half-carry, preserve carry
        let v = get_r8(cpu, code);
        let z = v & (1u8 << i) == 0;
        cpu.af.low = flags_byte(z, false, true, (cpu.af.low & 0x10) != 0);
        if code == 6 {
            Ok(12)
        } else {
            Ok(8)
        }
    } else if kind == 2 {
        // RES: clear one bit, no flags
        let v = get_r8(cpu, code);
        set_r8(cpu, code, v & !(1u8 << i));
        if code == 6 {
            Ok(16)
        } else {
            Ok(8)
        }
    } else {
        // SET: set one bit, no flags
        let v = get_r8(cpu, code);
        set_r8(cpu, code, v | (1u8 << i));
        if code == 6 {
            Ok(16)
        } else {
            Ok(8)
        }
    }
}

} // verus!
