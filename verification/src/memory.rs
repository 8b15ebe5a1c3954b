//! The flat 64 KiB addressable space with its two 16-bit cursors.
//!
//! Every address a 16-bit value can name is backed, so single-byte reads and
//! writes never fail.  The documented error conditions concern only cursor
//! arithmetic that would leave the 16-bit range and two-byte accesses whose
//! second byte would lie past the end of the space.

use vstd::prelude::*;

use crate::CoreError;

verus! {

/// The number of addressable bytes: every 16-bit address is backed.
pub const MEM_SIZE: usize = 0x10000;

/// The fixed origin at which an executable image is loaded.
pub const IMAGE_ORIGIN: u16 = 0x0100;

/// The mathematical model of the memory: its bytes and the two cursors.
#[verifier::ext_equal]
pub ghost struct MemView {
    pub ram: Seq<u8>,
    pub pc: u16,
    pub sp: u16,
}

impl MemView {
    /// A well-formed memory backs the full 16-bit address space.
    pub open spec fn wf(self) -> bool {
        self.ram.len() == MEM_SIZE
    }
}

/// The little-endian word whose low byte sits at `addr`; meaningful only
/// when `addr + 1` is still a 16-bit address.
pub open spec fn word_at(m: MemView, addr: u16) -> u16 {
    ((m.ram[addr as int + 1] as u16) << 8) | (m.ram[addr as int] as u16)
}

/// One byte written at `addr`; the cursors do not move.
pub open spec fn write8_spec(m: MemView, addr: u16, data: u8) -> MemView {
    MemView { ram: m.ram.update(addr as int, data), ..m }
}

/// A little-endian word written at `addr` and `addr + 1`, or `OutOfBounds`
/// with the memory unchanged when the high byte would fall past the end of
/// the space.
pub open spec fn write2_spec(m: MemView, addr: u16, data: u16) -> (Result<
    (),
    CoreError,
>, MemView) {
    if addr == 0xFFFF {
        (Err(CoreError::OutOfBounds), m)
    } else {
        (Ok(()), write8_spec(write8_spec(m, addr, data as u8), (addr + 1) as u16, (data >> 8) as u8))
    }
}

/// A little-endian word read from `addr` and `addr + 1`, or `OutOfBounds`
/// when the high byte would fall past the end of the space.
pub open spec fn read2_spec(m: MemView, addr: u16) -> Result<u16, CoreError> {
    if addr == 0xFFFF {
        Err(CoreError::OutOfBounds)
    } else {
        Ok(word_at(m, addr))
    }
}

/// The byte under the program counter together with the advanced counter,
/// or `CounterOverflow` with everything unchanged when advancing would
/// leave the 16-bit range.
pub open spec fn fetch_spec(m: MemView) -> (Result<u8, CoreError>, MemView) {
    if m.pc == 0xFFFF {
        (Err(CoreError::CounterOverflow), m)
    } else {
        (Ok(m.ram[m.pc as int]), MemView { pc: (m.pc + 1) as u16, ..m })
    }
}

/// Two consecutive fetches combined little-endian, low byte first.  A
/// failure of the second fetch leaves the counter where the first fetch
/// put it.
pub open spec fn fetch2_spec(m: MemView) -> (Result<u16, CoreError>, MemView) {
    let (r1, m1) = fetch_spec(m);
    match r1 {
        Err(e) => (Err(e), m1),
        Ok(lo) => {
            let (r2, m2) = fetch_spec(m1);
            match r2 {
                Err(e) => (Err(e), m2),
                Ok(hi) => (Ok(((hi as u16) << 8) | (lo as u16)), m2),
            }
        },
    }
}

/// The stack pointer moved down by two and the word stored there, or
/// `StackOverflow` with everything unchanged when the pointer would leave
/// the 16-bit range.
pub open spec fn push_spec(m: MemView, data: u16) -> (Result<(), CoreError>, MemView) {
    if m.sp < 2 {
        (Err(CoreError::StackOverflow), m)
    } else {
        let sp2 = (m.sp - 2) as u16;
        let m2 = MemView { sp: sp2, ..m };
        write2_spec(m2, sp2, data)
    }
}

/// The word under the stack pointer together with the pointer moved up by
/// two, or `StackOverflow` with everything unchanged when the pointer would
/// leave the 16-bit range.
pub open spec fn pop_spec(m: MemView) -> (Result<u16, CoreError>, MemView) {
    if m.sp > 0xFFFD {
        (Err(CoreError::StackOverflow), m)
    } else {
        (Ok(word_at(m, m.sp)), MemView { sp: (m.sp + 2) as u16, ..m })
    }
}

/// The image `buf` copied in starting at `start` and the program counter
/// reset to `start`, or `CapacityExceeded` with everything unchanged when
/// the image does not fit below the end of the space.
pub open spec fn load_spec(m: MemView, buf: Seq<u8>, start: u16) -> (Result<
    (),
    CoreError,
>, MemView) {
    if buf.len() > MEM_SIZE - start {
        (Err(CoreError::CapacityExceeded), m)
    } else {
        (
            Ok(()),
            MemView {
                ram: m.ram.subrange(0, start as int).add(buf).add(
                    m.ram.subrange(start + buf.len(), MEM_SIZE as int),
                ),
                pc: start,
                ..m
            },
        )
    }
}

/// A flat byte array spanning the whole 16-bit address space, a program
/// counter naming the next instruction byte, and a stack pointer naming the
/// top of a descending stack.
pub struct Memory {
    pub ram: Vec<u8>,
    pub program_counter: u16,
    pub stack_pointer: u16,
}

impl View for Memory {
    type V = MemView;

    open spec fn view(&self) -> MemView {
        MemView { ram: self.ram@, pc: self.program_counter, sp: self.stack_pointer }
    }
}

impl Default for Memory {
    /// A zero-filled memory with both cursors at zero.
    fn default() -> (r: Self)
        ensures
            r.wf(),
            r@.pc == 0,
            r@.sp == 0,
            forall|i: int| 0 <= i < MEM_SIZE ==> r@.ram[i] == 0,
    {
        Self::new(0, 0)
    }
}

impl Memory {
    /// A well-formed memory backs the full 16-bit address space; every
    /// operation preserves this.
    pub open spec fn wf(&self) -> bool {
        self@.wf()
    }

    /// Allocates the zero-filled space with the given cursor values.
    pub fn new(program_counter: u16, stack_pointer: u16) -> (r: Self)
        ensures
            r.wf(),
            r@.pc == program_counter,
            r@.sp == stack_pointer,
            forall|i: int| 0 <= i < MEM_SIZE ==> r@.ram[i] == 0,
    {
        let ram: Vec<u8> = vec![0u8; MEM_SIZE];
        Self { ram, program_counter, stack_pointer }
    }

    /// Copies `buffer` into place starting at `start_addr` and resets the
    /// program counter there; fails with `CapacityExceeded`, changing
    /// nothing, exactly when the buffer does not fit.
    pub fn load_memory(&mut self, buffer: &[u8], start_addr: u16) -> (r: Result<(), CoreError>)
        requires
            old(self).wf(),
        ensures
            final(self).wf(),
            r == load_spec(old(self)@, buffer@, start_addr).0,
            final(self)@ == load_spec(old(self)@, buffer@, start_addr).1,
    {
        if buffer.len() > MEM_SIZE - (start_addr as usize) {
            return Err(CoreError::CapacityExceeded);
        }
        let start = start_addr as usize;
        let mut i: usize = 0;
        while i < buffer.len()
            invariant
                old(self).wf(),
                self.ram@.len() == MEM_SIZE,
                i <= buffer@.len(),
                buffer@.len() <= MEM_SIZE - start,
                start == start_addr as int,
                self.program_counter == old(self).program_counter,
                self.stack_pointer == old(self).stack_pointer,
                forall|j: int|
                    0 <= j < MEM_SIZE && !(start <= j < start + i) ==> self.ram@[j] == old(
                        self,
                    ).ram@[j],
                forall|j: int| 0 <= j < i ==> self.ram@[start + j] == buffer@[j],
            decreases buffer@.len() - i,
        {
            let b = buffer[i];
            self.ram[start + i] = b;
            i += 1;
        }
        self.program_counter = start_addr;
        proof {
            let m2 = load_spec(old(self)@, buffer@, start_addr).1;
            assert(self@.ram =~= m2.ram);
            assert(self@ =~= m2);
        }
        Ok(())
    }

    /// Reads the byte under the program counter, then advances the counter
    /// by one; fails with `CounterOverflow`, changing nothing, exactly when
    /// the counter already names the last address.
    pub fn fetch_byte(&mut self) -> (r: Result<u8, CoreError>)
        requires
            old(self).wf(),
        ensures
            final(self).wf(),
            r == fetch_spec(old(self)@).0,
            final(self)@ == fetch_spec(old(self)@).1,
    {
        let byte = self.ram[self.program_counter as usize];
        match self.program_counter.checked_add(1) {
            Some(x) => {
                self.program_counter = x;
                Ok(byte)
            },
            None => Err(CoreError::CounterOverflow),
        }
    }

    /// Two consecutive `fetch_byte` calls combined little-endian, low byte
    /// first.
    pub fn fetch_two_bytes(&mut self) -> (r: Result<u16, CoreError>)
        requires
            old(self).wf(),
        ensures
            final(self).wf(),
            r == fetch2_spec(old(self)@).0,
            final(self)@ == fetch2_spec(old(self)@).1,
    {
        let data_low = match self.fetch_byte() {
            Ok(b) => b,
            Err(e) => { return Err(e); },
        };
        let data_high = match self.fetch_byte() {
            Ok(b) => b,
            Err(e) => { return Err(e); },
        };
        Ok(((data_high as u16) << 8) | (data_low as u16))
    }

    /// Random read of one byte; never fails, since the space backs every
    /// 16-bit address.
    pub fn read_byte(&self, address: u16) -> (r: Result<u8, CoreError>)
        requires
            self.wf(),
        ensures
            r == Ok::<u8, CoreError>(self@.ram[address as int]),
    {
        Ok(self.ram[address as usize])
    }

    /// Random read of a little-endian word; fails with `OutOfBounds`
    /// exactly when the high byte would lie past the end of the space.
    pub fn read_two_bytes(&self, address: u16) -> (r: Result<u16, CoreError>)
        requires
            self.wf(),
        ensures
            r == read2_spec(self@, address),
    {
        if address == 0xFFFF {
            return Err(CoreError::OutOfBounds);
        }
        let data_low = self.ram[address as usize];
        let data_high = self.ram[address as usize + 1];
        Ok(((data_high as u16) << 8) | (data_low as u16))
    }

    /// Random write of one byte; never fails, since the space backs every
    /// 16-bit address.
    pub fn write_byte(&mut self, address: u16, data: u8) -> (r: Result<(), CoreError>)
        requires
            old(self).wf(),
        ensures
            final(self).wf(),
            r == Ok::<(), CoreError>(()),
            final(self)@ == write8_spec(old(self)@, address, data),
    {
        self.ram[address as usize] = data;
        Ok(())
    }

    /// Random write of a little-endian word, low byte at `address`; fails
    /// with `OutOfBounds`, changing nothing, exactly when the high byte
    /// would lie past the end of the space.
    pub fn write_two_bytes(&mut self, address: u16, data: u16) -> (r: Result<(), CoreError>)
        requires
            old(self).wf(),
        ensures
            final(self).wf(),
            r == write2_spec(old(self)@, address, data).0,
            final(self)@ == write2_spec(old(self)@, address, data).1,
    {
        if address == 0xFFFF {
            return Err(CoreError::OutOfBounds);
        }
        self.ram[address as usize] = data as u8;
        self.ram[address as usize + 1] = (data >> 8) as u8;
        Ok(())
    }

    /// Reads the word under the stack pointer, then moves the pointer up by
    /// two; fails with `StackOverflow`, changing nothing, exactly when the
    /// pointer would leave the 16-bit range.
    pub fn pop_stack(&mut self) -> (r: Result<u16, CoreError>)
        requires
            old(self).wf(),
        ensures
            final(self).wf(),
            r == pop_spec(old(self)@).0,
            final(self)@ == pop_spec(old(self)@).1,
    {
        if self.stack_pointer > 0xFFFD {
            return Err(CoreError::StackOverflow);
        }
        let data_low = self.ram[self.stack_pointer as usize];
        let data_high = self.ram[self.stack_pointer as usize + 1];
        self.stack_pointer = self.stack_pointer + 2;
        Ok(((data_high as u16) << 8) | (data_low as u16))
    }

    /// Moves the stack pointer down by two, then writes the word there;
    /// fails with `StackOverflow`, changing nothing, exactly when the
    /// pointer would leave the 16-bit range.
    pub fn push_stack(&mut self, data: u16) -> (r: Result<(), CoreError>)
        requires
            old(self).wf(),
        ensures
            final(self).wf(),
            r == push_spec(old(self)@, data).0,
            final(self)@ == push_spec(old(self)@, data).1,
    {
        match self.stack_pointer.checked_sub(2) {
            Some(x) => {
                self.stack_pointer = x;
            },
            None => { return Err(CoreError::StackOverflow); },
        }
        self.write_two_bytes(self.stack_pointer, data)
    }
}

/// Pushing any word and immediately popping yields the word back and
/// restores the stack pointer, whenever the push has headroom.
pub proof fn lemma_stack_round_trip(m: MemView, data: u16)
    requires
        m.wf(),
        m.sp >= 2,
    ensures
        push_spec(m, data).0 == Ok::<(), CoreError>(()),
        pop_spec(push_spec(m, data).1).0 == Ok::<u16, CoreError>(data),
        pop_spec(push_spec(m, data).1).1.sp == m.sp,
        pop_spec(push_spec(m, data).1).1.pc == m.pc,
{
    let m1 = push_spec(m, data).1;
    assert((((data >> 8) as u8 as u16) << 8 | (data as u8 as u16)) == data) by (bit_vector);
    assert(word_at(m1, m1.sp) == data);
}

} // verus!
