//! Pure arithmetic helpers: each returns the 8- or 16-bit result together
//! with the flag byte it produces.
//!
//! Centralizing these guarantees that every instruction performing the same
//! arithmetic produces bit-identical flags, whether the operand comes from a
//! register, memory, or an immediate byte.

use vstd::prelude::*;

verus! {

/// Bit 7 of the flag byte: the result was zero.
pub const ZERO_FLAG: u8 = 0x80;

/// Bit 6 of the flag byte: the last operation was a subtraction.
pub const SUB_FLAG: u8 = 0x40;

/// Bit 5 of the flag byte: carry out of bit 3 (8-bit) or bit 11 (16-bit).
pub const HALF_CARRY_FLAG: u8 = 0x20;

/// Bit 4 of the flag byte: carry or borrow out of bit 7 (8-bit) or bit 15
/// (16-bit).
pub const CARRY_FLAG: u8 = 0x10;

/// The flag byte assembled from its four meaningful bits; all others are
/// left clear.
pub open spec fn mk_flags(z: bool, n: bool, h: bool, c: bool) -> u8 {
    (if z {
        0x80u8
    } else {
        0u8
    }) | (if n {
        0x40u8
    } else {
        0u8
    }) | (if h {
        0x20u8
    } else {
        0u8
    }) | (if c {
        0x10u8
    } else {
        0u8
    })
}

/// Whether the zero flag is set in `f`.
pub open spec fn flag_z(f: u8) -> bool {
    f & 0x80 != 0
}

/// Whether the subtract flag is set in `f`.
pub open spec fn flag_n(f: u8) -> bool {
    f & 0x40 != 0
}

/// Whether the half-carry flag is set in `f`.
pub open spec fn flag_h(f: u8) -> bool {
    f & 0x20 != 0
}

/// Whether the carry flag is set in `f`.
pub open spec fn flag_c(f: u8) -> bool {
    f & 0x10 != 0
}

/// A freshly computed flag byte with its carry bit taken from an earlier
/// flag byte instead: 8-bit increment and decrement leave carry untouched.
pub open spec fn keep_carry(flags: u8, oldf: u8) -> u8 {
    flags | (oldf & 0x10)
}

/// Whether the condition encoded by the 2-bit field `cc` holds of the flag
/// byte `f`: not-zero, zero, no-carry, carry.
pub open spec fn cond_holds(cc: u8, f: u8) -> bool {
    if cc == 0 {
        !flag_z(f)
    } else if cc == 1 {
        flag_z(f)
    } else if cc == 2 {
        !flag_c(f)
    } else {
        flag_c(f)
    }
}

/// 8-bit addition wrapping at the byte boundary.
pub open spec fn wrap_add8(a: u8, b: u8) -> u8 {
    if a + b > 255 {
        (a + b - 256) as u8
    } else {
        (a + b) as u8
    }
}

/// 8-bit subtraction wrapping at the byte boundary.
pub open spec fn wrap_sub8(a: u8, b: u8) -> u8 {
    if a - b < 0 {
        (a - b + 256) as u8
    } else {
        (a - b) as u8
    }
}

/// What `add8` returns.
pub open spec fn spec_add8(a: u8, b: u8) -> (u8, u8) {
    let r = wrap_add8(a, b);
    (r, mk_flags(r == 0, false, a % 16 + b % 16 > 15, a + b > 255))
}

/// What `adc8` returns.
pub open spec fn spec_adc8(a: u8, b: u8, carry: u8) -> (u8, u8) {
    let r = wrap_add8(wrap_add8(a, b), carry);
    (r, mk_flags(r == 0, false, a % 16 + b % 16 + carry > 15, a + b + carry > 255))
}

/// What `sub8` returns.
pub open spec fn spec_sub8(a: u8, b: u8) -> (u8, u8) {
    let r = wrap_sub8(a, b);
    (r, mk_flags(r == 0, true, b % 16 > a % 16, b > a))
}

/// What `sbc8` returns.
pub open spec fn spec_sbc8(a: u8, b: u8, carry: u8) -> (u8, u8) {
    let r = wrap_sub8(wrap_sub8(a, b), carry);
    (r, mk_flags(r == 0, true, (b + carry) % 16 > a % 16, b + carry > a))
}

/// What `add16` returns: zero and subtract come out clear.
pub open spec fn spec_add16(a: u16, b: u16) -> (u16, u8) {
    let r = if a + b > 0xFFFF {
        (a + b - 0x10000) as u16
    } else {
        (a + b) as u16
    };
    (r, mk_flags(false, false, a % 4096 + b % 4096 > 4095, a + b > 0xFFFF))
}

/// What `inc8` returns: the carry bit comes out clear and the caller must
/// preserve the one already in force.
pub open spec fn spec_inc8(a: u8) -> (u8, u8) {
    let r = wrap_add8(a, 1);
    (r, mk_flags(r == 0, false, a % 16 == 15, false))
}

/// What `dec8` returns: the carry bit comes out clear and the caller must
/// preserve the one already in force.
pub open spec fn spec_dec8(a: u8) -> (u8, u8) {
    let r = wrap_sub8(a, 1);
    (r, mk_flags(r == 0, true, a % 16 == 0, false))
}

/// What the bitwise-AND instruction leaves: half-carry comes out set.
pub open spec fn spec_and8(a: u8, b: u8) -> (u8, u8) {
    (a & b, mk_flags(a & b == 0, false, true, false))
}

/// What the bitwise-XOR instruction leaves.
pub open spec fn spec_xor8(a: u8, b: u8) -> (u8, u8) {
    (a ^ b, mk_flags(a ^ b == 0, false, false, false))
}

/// What the bitwise-OR instruction leaves.
pub open spec fn spec_or8(a: u8, b: u8) -> (u8, u8) {
    (a | b, mk_flags(a | b == 0, false, false, false))
}

/// What the 8-bit accumulator operation selected by a 3-bit code leaves:
/// ADD, ADC, SUB, SBC, AND, XOR, OR, CP; CP keeps the accumulator and
/// takes only the flags of the subtraction.
pub open spec fn alu8(oper: u8, a: u8, v: u8, f: u8) -> (u8, u8) {
    let cin: u8 = if flag_c(f) {
        1
    } else {
        0
    };
    if oper == 0 {
        spec_add8(a, v)
    } else if oper == 1 {
        spec_adc8(a, v, cin)
    } else if oper == 2 {
        spec_sub8(a, v)
    } else if oper == 3 {
        spec_sbc8(a, v, cin)
    } else if oper == 4 {
        spec_and8(a, v)
    } else if oper == 5 {
        spec_xor8(a, v)
    } else if oper == 6 {
        spec_or8(a, v)
    } else {
        (a, spec_sub8(a, v).1)
    }
}

/// What the decimal-adjust instruction leaves, given the accumulator and
/// the flag byte of the preceding operation.
pub open spec fn spec_daa(a: u8, f: u8) -> (u8, u8) {
    if !flag_n(f) {
        let c2 = flag_c(f) || a > 0x99;
        let low = flag_h(f) || a % 16 > 9;
        let adj = ((if low {
            6int
        } else {
            0int
        }) + (if c2 {
            0x60int
        } else {
            0int
        })) as u8;
        let a2 = wrap_add8(a, adj);
        (a2, mk_flags(a2 == 0, false, false, c2))
    } else {
        let adj = ((if flag_h(f) {
            6int
        } else {
            0int
        }) + (if flag_c(f) {
            0x60int
        } else {
            0int
        })) as u8;
        let a2 = wrap_sub8(a, adj);
        (a2, mk_flags(a2 == 0, true, false, flag_c(f)))
    }
}

/// Assembles the flag byte from its four bits.
pub fn flags_byte(z: bool, n: bool, h: bool, c: bool) -> (f: u8)
    ensures
        f == mk_flags(z, n, h, c),
{
    (if z {
        0x80u8
    } else {
        0u8
    }) | (if n {
        0x40u8
    } else {
        0u8
    }) | (if h {
        0x20u8
    } else {
        0u8
    }) | (if c {
        0x10u8
    } else {
        0u8
    })
}

/// Adds two unsigned 8-bit values, returning the result and flags.
pub fn add8(lhs: u8, rhs: u8) -> (res: (u8, u8))
    ensures
        res == spec_add8(lhs, rhs),
{
    let result = lhs.wrapping_add(rhs);
    let h = lhs % 16 + rhs % 16 > 15;
    let c = (lhs as u16) + (rhs as u16) > 255;
    (result, flags_byte(result == 0, false, h, c))
}

/// Adds two unsigned 8-bit values and a carry-in of 0 or 1, returning the
/// result and flags.
pub fn adc8(lhs: u8, rhs: u8, carry: u8) -> (res: (u8, u8))
    requires
        carry <= 1,
    ensures
        res == spec_adc8(lhs, rhs, carry),
{
    let result = lhs.wrapping_add(rhs).wrapping_add(carry);
    let h = lhs % 16 + rhs % 16 + carry > 15;
    let c = (lhs as u16) + (rhs as u16) + (carry as u16) > 255;
    (result, flags_byte(result == 0, false, h, c))
}

/// Subtracts two unsigned 8-bit values, returning the result and flags.
pub fn sub8(lhs: u8, rhs: u8) -> (res: (u8, u8))
    ensures
        res == spec_sub8(lhs, rhs),
{
    let result = lhs.wrapping_sub(rhs);
    let h = rhs % 16 > lhs % 16;
    let c = rhs > lhs;
    (result, flags_byte(result == 0, true, h, c))
}

/// Subtracts an unsigned 8-bit value and a carry-in of 0 or 1, returning
/// the result and flags.
pub fn sbc8(lhs: u8, rhs: u8, carry: u8) -> (res: (u8, u8))
    requires
        carry <= 1,
    ensures
        res == spec_sbc8(lhs, rhs, carry),
{
    let result = lhs.wrapping_sub(rhs).wrapping_sub(carry);
    let taken = (rhs as u16) + (carry as u16);
    let h = taken % 16 > (lhs % 16) as u16;
    let c = taken > lhs as u16;
    (result, flags_byte(result == 0, true, h, c))
}

/// Adds two unsigned 16-bit values, returning the result and flags; zero
/// and subtract come out clear.
pub fn add16(lhs: u16, rhs: u16) -> (res: (u16, u8))
    ensures
        res == spec_add16(lhs, rhs),
{
    let result = lhs.wrapping_add(rhs);
    let h = lhs % 4096 + rhs % 4096 > 4095;
    let c = (lhs as u32) + (rhs as u32) > 0xFFFF;
    (result, flags_byte(false, false, h, c))
}

/// Increments an 8-bit value with wraparound, returning the result and
/// flags; the carry bit comes out clear and the caller preserves the prior
/// one.
pub fn inc8(arg: u8) -> (res: (u8, u8))
    ensures
        res == spec_inc8(arg),
{
    let result = arg.wrapping_add(1);
    let h = arg % 16 == 15;
    (result, flags_byte(result == 0, false, h, false))
}

/// Decrements an 8-bit value with wraparound, returning the result and
/// flags; the carry bit comes out clear and the caller preserves the prior
/// one.
pub fn dec8(arg: u8) -> (res: (u8, u8))
    ensures
        res == spec_dec8(arg),
{
    let result = arg.wrapping_sub(1);
    let h = arg % 16 == 0;
    (result, flags_byte(result == 0, true, h, false))
}

/// Each of the four meaningful bits of an assembled flag byte reads back
/// exactly as it was assembled, and merging a preserved carry bit equals
/// assembling with that carry.
pub proof fn lemma_flag_bits(z: bool, n: bool, h: bool, c: bool, f: u8)
    by (bit_vector)
    ensures
        flag_z(mk_flags(z, n, h, c)) <==> z,
        flag_n(mk_flags(z, n, h, c)) <==> n,
        flag_h(mk_flags(z, n, h, c)) <==> h,
        flag_c(mk_flags(z, n, h, c)) <==> c,
        keep_carry(mk_flags(z, n, h, false), f) == mk_flags(z, n, h, flag_c(f)),
{
}

/// The low nibble of a byte is its remainder modulo 16, and the low three
/// nibbles of a 16-bit value are its remainder modulo 4096.
pub proof fn lemma_low_nibble(x: u8, w: u16)
    ensures
        x & 0xF == x % 16,
        w & 0xFFF == w % 4096,
{
    assert(x & 0xF == x % 16) by (bit_vector);
    assert(w & 0xFFF == w % 4096) by (bit_vector);
}

/// Flag arithmetic law for `add8`: for all bytes `a` and `b`, the result is
/// `(a + b) mod 256`, carry is set iff `a + b >= 256`, half-carry iff the
/// low nibbles sum past 15, zero iff the result is 0, and subtract is
/// clear.
pub proof fn lemma_add8_law(a: u8, b: u8)
    ensures
        spec_add8(a, b).0 == (a + b) % 256,
        flag_c(spec_add8(a, b).1) <==> a + b >= 256,
        flag_h(spec_add8(a, b).1) <==> (a & 0xF) + (b & 0xF) >= 16,
        flag_z(spec_add8(a, b).1) <==> (a + b) % 256 == 0,
        !flag_n(spec_add8(a, b).1),
{
    let fl = spec_add8(a, b).1;
    lemma_flag_bits(spec_add8(a, b).0 == 0, false, a % 16 + b % 16 > 15, a + b > 255, 0);
    lemma_low_nibble(a, 0);
    lemma_low_nibble(b, 0);
}

/// Flag arithmetic law for `adc8`, with the carry-in folded into both the
/// result and the carry computations.
pub proof fn lemma_adc8_law(a: u8, b: u8, cin: u8)
    requires
        cin <= 1,
    ensures
        spec_adc8(a, b, cin).0 == (a + b + cin) % 256,
        flag_c(spec_adc8(a, b, cin).1) <==> a + b + cin >= 256,
        flag_h(spec_adc8(a, b, cin).1) <==> (a & 0xF) + (b & 0xF) + cin >= 16,
        flag_z(spec_adc8(a, b, cin).1) <==> (a + b + cin) % 256 == 0,
        !flag_n(spec_adc8(a, b, cin).1),
{
    lemma_flag_bits(
        spec_adc8(a, b, cin).0 == 0,
        false,
        a % 16 + b % 16 + cin > 15,
        a + b + cin > 255,
        0,
    );
    lemma_low_nibble(a, 0);
    lemma_low_nibble(b, 0);
}

/// Flag arithmetic law for `sub8`: the result is `(a - b) mod 256`, carry
/// means borrow, half-carry means low-nibble borrow, subtract is set.
pub proof fn lemma_sub8_law(a: u8, b: u8)
    ensures
        spec_sub8(a, b).0 == (a - b) % 256,
        flag_c(spec_sub8(a, b).1) <==> b > a,
        flag_h(spec_sub8(a, b).1) <==> (b & 0xF) > (a & 0xF),
        flag_z(spec_sub8(a, b).1) <==> a == b,
        flag_n(spec_sub8(a, b).1),
{
    lemma_flag_bits(spec_sub8(a, b).0 == 0, true, b % 16 > a % 16, b > a, 0);
    lemma_low_nibble(a, 0);
    lemma_low_nibble(b, 0);
}

/// Flag arithmetic law for `sbc8`, with the carry-in folded into both the
/// result and the borrow computations.
pub proof fn lemma_sbc8_law(a: u8, b: u8, cin: u8)
    requires
        cin <= 1,
    ensures
        spec_sbc8(a, b, cin).0 == (a - b - cin) % 256,
        flag_c(spec_sbc8(a, b, cin).1) <==> b + cin > a,
        flag_h(spec_sbc8(a, b, cin).1) <==> (b + cin) % 16 > (a & 0xF),
        flag_z(spec_sbc8(a, b, cin).1) <==> (a - b - cin) % 256 == 0,
        flag_n(spec_sbc8(a, b, cin).1),
{
    lemma_flag_bits(spec_sbc8(a, b, cin).0 == 0, true, (b + cin) % 16 > a % 16, b + cin > a, 0);
    lemma_low_nibble(a, 0);
    lemma_low_nibble(b, 0);
}

/// Flag arithmetic law for `add16`: carry from bit 15, half-carry from bit
/// 11, zero and subtract always clear.
pub proof fn lemma_add16_law(a: u16, b: u16)
    ensures
        spec_add16(a, b).0 == (a + b) % 0x10000,
        flag_c(spec_add16(a, b).1) <==> a + b >= 0x10000,
        flag_h(spec_add16(a, b).1) <==> (a & 0xFFF) + (b & 0xFFF) >= 4096,
        !flag_z(spec_add16(a, b).1),
        !flag_n(spec_add16(a, b).1),
{
    lemma_flag_bits(false, false, a % 4096 + b % 4096 > 4095, a + b > 0xFFFF, 0);
    lemma_low_nibble(0, a);
    lemma_low_nibble(0, b);
}

/// Flag arithmetic law for `inc8`: wraparound result, half-carry exactly
/// when the low nibble was 15, carry always clear in the returned byte.
pub proof fn lemma_inc8_law(a: u8)
    ensures
        spec_inc8(a).0 == (a + 1) % 256,
        flag_h(spec_inc8(a).1) <==> (a & 0xF) == 15,
        flag_z(spec_inc8(a).1) <==> a == 255,
        !flag_n(spec_inc8(a).1),
        !flag_c(spec_inc8(a).1),
{
    lemma_flag_bits(spec_inc8(a).0 == 0, false, a % 16 == 15, false, 0);
    lemma_low_nibble(a, 0);
}

/// Flag arithmetic law for `dec8`: wraparound result, half-carry exactly
/// when the low nibble was 0, subtract set, carry always clear in the
/// returned byte.
pub proof fn lemma_dec8_law(a: u8)
    ensures
        spec_dec8(a).0 == (a - 1) % 256,
        flag_h(spec_dec8(a).1) <==> (a & 0xF) == 0,
        flag_z(spec_dec8(a).1) <==> a == 1,
        flag_n(spec_dec8(a).1),
        !flag_c(spec_dec8(a).1),
{
    lemma_flag_bits(spec_dec8(a).0 == 0, true, a % 16 == 0, false, 0);
    lemma_low_nibble(a, 0);
}

} // verus!
