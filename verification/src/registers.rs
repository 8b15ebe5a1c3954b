//! A 16-bit register pair stored as two 8-bit lanes.

use vstd::prelude::*;

verus! {

/// Two 8-bit lanes; the combined 16-bit value is `high << 8 | low`.
///
/// BC, DE and HL are general-purpose pairs; in AF the high lane is the
/// accumulator and the low lane is the flag byte.
#[derive(Clone, Copy, Debug, PartialEq, Eq, Structural)]
pub struct RegisterPair {
    pub high: u8,
    pub low: u8,
}

impl RegisterPair {
    /// The combined 16-bit value of the pair.
    pub open spec fn val(&self) -> u16 {
        (self.high as u16) << 8 | (self.low as u16)
    }

    /// Creates a zero-valued pair.
    pub fn new() -> (r: Self)
        ensures
            r.high == 0,
            r.low == 0,
    {
        Self { high: 0, low: 0 }
    }

    /// Reads the combined 16-bit value.
    pub fn get_pair(&self) -> (r: u16)
        ensures
            r == self.val(),
    {
        ((self.high as u16) << 8) | (self.low as u16)
    }

    /// Writes the combined 16-bit value; `get_pair` afterwards returns it
    /// exactly.
    pub fn set_pair(&mut self, value: u16)
        ensures
            final(self).high == (value >> 8) as u8,
            final(self).low == value as u8,
            final(self).val() == value,
    {
        proof {
            lemma_pair_split(value);
        }
        self.high = (value >> 8) as u8;
        self.low = value as u8;
    }

    /// Increments the combined value, wrapping at the 16-bit boundary; no
    /// flags are affected.
    pub fn inc_pair(&mut self)
        ensures
            final(self).val() == (old(self).val() + 1) % 0x10000,
            final(self).high == ((((old(self).val() + 1) % 0x10000) as u16) >> 8) as u8,
            final(self).low == (((old(self).val() + 1) % 0x10000) as u16) as u8,
    {
        let val = self.get_pair();
        self.set_pair(val.wrapping_add(1));
    }

    /// Decrements the combined value, wrapping at the 16-bit boundary; no
    /// flags are affected.
    pub fn dec_pair(&mut self)
        ensures
            final(self).val() == (old(self).val() - 1 + 0x10000) % 0x10000,
            final(self).high == ((((old(self).val() - 1 + 0x10000) % 0x10000) as u16) >> 8) as u8,
            final(self).low == (((old(self).val() - 1 + 0x10000) % 0x10000) as u16) as u8,
    {
        let val = self.get_pair();
        self.set_pair(val.wrapping_sub(1));
    }

    /// Increments the high lane, wrapping at the 8-bit boundary.
    pub fn inc_high(&mut self)
        ensures
            final(self).high == (old(self).high + 1) % 0x100,
            final(self).low == old(self).low,
    {
        self.high = self.high.wrapping_add(1);
    }

    /// Decrements the high lane, wrapping at the 8-bit boundary.
    pub fn dec_high(&mut self)
        ensures
            final(self).high == (old(self).high - 1 + 0x100) % 0x100,
            final(self).low == old(self).low,
    {
        self.high = self.high.wrapping_sub(1);
    }

    /// Increments the low lane, wrapping at the 8-bit boundary.
    pub fn inc_low(&mut self)
        ensures
            final(self).low == (old(self).low + 1) % 0x100,
            final(self).high == old(self).high,
    {
        self.low = self.low.wrapping_add(1);
    }

    /// Decrements the low lane, wrapping at the 8-bit boundary.
    pub fn dec_low(&mut self)
        ensures
            final(self).low == (old(self).low - 1 + 0x100) % 0x100,
            final(self).high == old(self).high,
    {
        self.low = self.low.wrapping_sub(1);
    }
}

/// Splitting a 16-bit value into its bytes and recombining them yields the
/// value back: the two lanes are the only storage a pair needs.
pub proof fn lemma_pair_split(v: u16)
    ensures
        ((((v >> 8) as u8) as u16) << 8 | ((v as u8) as u16)) == v,
{
    assert(((((v >> 8) as u8) as u16) << 8 | ((v as u8) as u16)) == v) by (bit_vector);
}

/// For every 16-bit `v`, writing `v` with `set_pair` and reading with
/// `get_pair` returns `v` exactly.
pub proof fn lemma_pair_round_trip(v: u16)
    ensures
        (RegisterPair { high: (v >> 8) as u8, low: v as u8 }).val() == v,
{
    lemma_pair_split(v);
}

} // verus!
