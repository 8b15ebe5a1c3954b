//! Instruction-execution core for the Sharp SM83, the CPU of the Game Boy
//! family: an interpreter that fetches opcodes from a flat 64 KiB address
//! space, decodes them, mutates the register file and memory accordingly,
//! and reports elapsed timing in machine cycles.
//!
//! A front end is expected to supply the program bytes and drive the
//! fetch-execute loop; cartridge banking, video, audio and other peripherals
//! are outside this core, which treats every address as plain RAM.

use vstd::prelude::*;

pub mod arith;
pub mod instructions;
pub mod memory;
pub mod model;
pub mod registers;

use crate::memory::{IMAGE_ORIGIN, Memory, load_spec};
use crate::model::{CpuView, cv_wf, execute_spec, step_spec};
use crate::registers::RegisterPair;

verus! {

/// The failure conditions of the core.
///
/// Every fallible operation reports one of these; none are silently
/// swallowed, and each step either completes fully or returns one of them.
#[derive(Clone, Copy, Debug, PartialEq, Eq, Structural)]
pub enum CoreError {
    /// A loaded image does not fit between its origin and the end of the
    /// address space.
    CapacityExceeded,
    /// Advancing the program counter would leave the 16-bit range.
    CounterOverflow,
    /// Moving the stack pointer would leave the 16-bit range.
    StackOverflow,
    /// A two-byte access would touch an address beyond the 16-bit range.
    OutOfBounds,
    /// The byte is not a recognized opcode; carries the raw byte.
    UndefinedOpcode(u8),
}

/// All components of the CPU: the four register pairs, the addressable
/// memory, and the interrupt-master-enable state with its deferred-enable
/// counter.
pub struct CPU {
    pub af: RegisterPair,
    pub bc: RegisterPair,
    pub de: RegisterPair,
    pub hl: RegisterPair,
    pub memory: Memory,
    pub ime: bool,
    /// The pending interrupt-enable counter: -1 none, 1 just armed by EI,
    /// 0 fires after the current instruction.  Kept distinct from `ime`
    /// itself so that DI can cancel an in-flight EI.
    pub set_ime: i32,
}

impl View for CPU {
    type V = CpuView;

    open spec fn view(&self) -> CpuView {
        CpuView {
            a: self.af.high,
            f: self.af.low,
            b: self.bc.high,
            c: self.bc.low,
            d: self.de.high,
            e: self.de.low,
            h: self.hl.high,
            l: self.hl.low,
            m: self.memory@,
            ime: self.ime,
            ei: self.set_ime,
        }
    }
}

impl Default for CPU {
    /// The same state `new` constructs: everything zeroed, interrupts
    /// disabled with nothing pending.
    fn default() -> (r: Self)
        ensures
            r.wf(),
            r@.ime == false,
            r@.ei == -1,
    {
        Self::new()
    }
}

impl CPU {
    /// A well-formed CPU backs the full address space and keeps the
    /// deferred-enable counter in its three-valued range; every operation
    /// preserves this.
    pub open spec fn wf(&self) -> bool {
        cv_wf(self@)
    }

    /// Constructs a CPU with zeroed registers, zero-filled memory, both
    /// cursors at zero, and interrupts disabled with nothing pending.
    pub fn new() -> (r: Self)
        ensures
            r.wf(),
            r@.a == 0 && r@.f == 0 && r@.b == 0 && r@.c == 0,
            r@.d == 0 && r@.e == 0 && r@.h == 0 && r@.l == 0,
            r@.m.pc == 0 && r@.m.sp == 0,
            forall|i: int| 0 <= i < 0x10000 ==> r@.m.ram[i] == 0,
            r@.ime == false,
            r@.ei == -1,
    {
        Self {
            af: RegisterPair::new(),
            bc: RegisterPair::new(),
            de: RegisterPair::new(),
            hl: RegisterPair::new(),
            memory: Memory::new(0, 0),
            ime: false,
            set_ime: -1,
        }
    }

    /// Loads an executable image into memory at the fixed origin 0x0100 and
    /// resets the program counter there; fails with `CapacityExceeded`,
    /// changing nothing, exactly when the image does not fit.
    pub fn load_rom(&mut self, buffer: &[u8]) -> (r: Result<(), CoreError>)
        requires
            old(self).wf(),
        ensures
            final(self).wf(),
            r == load_spec(old(self)@.m, buffer@, IMAGE_ORIGIN).0,
            final(self)@ == (CpuView {
                m: load_spec(old(self)@.m, buffer@, IMAGE_ORIGIN).1,
                ..old(self)@
            }),
    {
        self.memory.load_memory(buffer, IMAGE_ORIGIN)
    }

    /// Performs one fetch-execute step, routing the opcode to its group
    /// and applying the deferred interrupt-enable transition afterwards.
    /// Returns the elapsed machine cycles, one per four clock ticks, and
    /// fails exactly as `step_spec` describes: `CounterOverflow` when a
    /// fetch runs off the address space, `StackOverflow` when a stack
    /// access or a stack-pointer step would, `OutOfBounds` when a two-byte
    /// write would, and `UndefinedOpcode` for the bytes no pattern
    /// recognizes.
    pub fn cycle(&mut self) -> (r: Result<i32, CoreError>)
        requires
            old(self).wf(),
        ensures
            final(self).wf(),
            r == step_spec(old(self)@).r,
            final(self)@ == step_spec(old(self)@).s,
    {
        let opcode = match self.memory.fetch_byte() {
            Ok(b) => b,
            Err(e) => { return Err(e); },
        };
        let ticks = match self.execute(opcode) {
            Ok(t) => t,
            Err(e) => { return Err(e); },
        };
        let cycles = (ticks / 4) as i32;

        // EI does not set IME during its own step: executing EI arms the
        // counter at 1, this hook moves it to 0, and the next step's hook
        // flips IME.  DI clears IME at once and parks the counter at the
        // sentinel so that nothing pending fires.
        if self.set_ime > 0 {
            self.set_ime = self.set_ime - 1;
        } else if self.set_ime == 0 {
            self.ime = true;
            self.set_ime = -1;
        }

        Ok(cycles)
    }

    /// Routes one opcode to its instruction group, fetching the second
    /// byte first when it is the CB prefix, and returns the elapsed clock
    /// ticks.
    fn execute(&mut self, opcode: u8) -> (r: Result<u32, CoreError>)
        requires
            old(self).wf(),
        ensures
            final(self).wf(),
            r == execute_spec(old(self)@, opcode).r,
            final(self)@ == execute_spec(old(self)@, opcode).s,
    {
        if opcode == 0xCB {
            let opcode2 = match self.memory.fetch_byte() {
                Ok(b) => b,
                Err(e) => { return Err(e); },
            };
            return instructions::blockcb(self, opcode2);
        }

        let block_code = opcode >> 6;
        if block_code == 0 {
            instructions::block0(self, opcode)
        } else if block_code == 1 {
            instructions::block1(self, opcode)
        } else if block_code == 2 {
            instructions::block2(self, opcode)
        } else {
            instructions::block3(self, opcode)
        }
    }
}

} // verus!
