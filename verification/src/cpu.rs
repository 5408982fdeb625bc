//! The processor core: register file, reset, fetch primitives, and the
//! decode/execute engine.
//!
//! The stack pointer is modeled as a full 16-bit address, initialized to the
//! stack-page base, that grows upward by 2 per subroutine push. This is a
//! deliberate, documented deviation from the real architecture's
//! downward-counting 8-bit stack offset.

use vstd::prelude::*;

use crate::arith::add_wrap16;
use crate::arith::add_wrap8;
use crate::arith::charge;
use crate::arith::spend;
use crate::arith::sub_wrap16;
use crate::arith::wrap_add16;
use crate::flags::flags_after_load;
use crate::flags::negative_flag_set;
use crate::flags::zero_flag_set;
use crate::flags::FLAG_N;
use crate::flags::FLAG_Z;
use crate::isa::decode;
use crate::isa::Instruction;
use crate::machine::run;
use crate::machine::step;
use crate::machine::State;
use crate::machine::UnknownOpcode;
use crate::memory::word_at;
use crate::memory::zero_mem;
use crate::memory::Memory;

verus! {

/// The fixed reset-vector address: execution starts here after a reset.
pub const RESET_VECTOR: u16 = 0xFFFC;

/// The fixed stack-page base address the stack pointer is reset to.
pub const STACK_BASE: u16 = 0x0100;

/// The processor's register file.
#[derive(Clone, Copy, PartialEq, Eq, Structural, Debug)]
pub struct CPU {
    /// Program counter: address of the next instruction byte.
    pub pc: u16,
    /// Stack pointer: a full 16-bit address into the stack page.
    pub sp: u16,
    /// Accumulator.
    pub a: u8,
    /// Index register X.
    pub x: u8,
    /// Index register Y.
    pub y: u8,
    /// Processor status flags.
    pub ps: u8,
}

/// The register file with the program counter replaced.
pub open spec fn with_pc(c: CPU, pc: u16) -> CPU {
    CPU { pc, sp: c.sp, a: c.a, x: c.x, y: c.y, ps: c.ps }
}

/// The register file after a load of `value` into the accumulator, with the
/// load flag-update policy applied to the status byte.
pub open spec fn with_load(c: CPU, value: u8) -> CPU {
    CPU { pc: c.pc, sp: c.sp, a: value, x: c.x, y: c.y, ps: flags_after_load(c.ps, value) }
}

impl Default for CPU {
    /// An all-zero register file; `reset` must still run before execution.
    fn default() -> (c: CPU)
        ensures
            c == (CPU { pc: 0, sp: 0, a: 0, x: 0, y: 0, ps: 0 }),
    {
        CPU { pc: 0, sp: 0, a: 0, x: 0, y: 0, ps: 0 }
    }
}

impl CPU {
    /// Power-on reset: the program counter is set to the reset vector, the
    /// stack pointer to the stack-page base, every other register to zero,
    /// and the whole memory is cleared. Always succeeds.
    pub fn reset(&mut self, memory: &mut Memory)
        ensures
            final(self).pc == RESET_VECTOR,
            final(self).sp == STACK_BASE,
            final(self).a == 0,
            final(self).x == 0,
            final(self).y == 0,
            final(self).ps == 0,
            final(memory).wf(),
            final(memory)@ == zero_mem(),
    {
        self.pc = RESET_VECTOR;
        self.sp = STACK_BASE;
        self.a = 0;
        self.x = 0;
        self.y = 0;
        self.ps = 0;

        memory.initialize();
    }

    /// True iff the Zero flag is set in the status byte.
    pub fn is_zero_set(&self) -> (r: bool)
        ensures
            r == zero_flag_set(self.ps),
    {
        self.ps & FLAG_Z != 0
    }

    /// True iff the Negative flag is set in the status byte.
    pub fn is_negative_set(&self) -> (r: bool)
        ensures
            r == negative_flag_set(self.ps),
    {
        self.ps & FLAG_N != 0
    }

    /// Fetches the byte at the program counter, advances the program counter
    /// by 1 (wrapping), and charges 1 cycle.
    pub fn fetch_byte(&mut self, cycles: &mut u8, memory: &mut Memory) -> (data: u8)
        requires
            old(memory).wf(),
        ensures
            data == old(memory)@[old(self).pc as int],
            *final(self) == with_pc(*old(self), wrap_add16(old(self).pc, 1)),
            final(memory).wf(),
            final(memory)@ == old(memory)@,
            *final(cycles) == charge(*old(cycles), 1),
    {
        let data: u8 = memory.read(self.pc);
        self.pc = add_wrap16(self.pc, 1);
        spend(cycles, 1);

        data
    }

    /// Fetches the 16-bit little-endian word at the program counter, advances
    /// the program counter by 2 (wrapping), and charges 2 cycles.
    pub fn fetch_word(&mut self, cycles: &mut u8, memory: &mut Memory) -> (data: u16)
        requires
            old(memory).wf(),
        ensures
            data == word_at(old(memory)@, old(self).pc),
            *final(self) == with_pc(*old(self), wrap_add16(old(self).pc, 2)),
            final(memory).wf(),
            final(memory)@ == old(memory)@,
            *final(cycles) == charge(*old(cycles), 2),
    {
        let lo: u8 = memory.read(self.pc);
        self.pc = add_wrap16(self.pc, 1);

        let hi: u8 = memory.read(self.pc);
        self.pc = add_wrap16(self.pc, 1);

        spend(cycles, 2);

        lo as u16 + (hi as u16) * 256
    }

    /// Reads the byte at the given zero-page address, charging 1 cycle. Does
    /// not move the program counter.
    pub fn read_byte(&mut self, cycles: &mut u8, memory: &mut Memory, addr: u8) -> (data: u8)
        requires
            old(memory).wf(),
        ensures
            data == old(memory)@[addr as int],
            *final(self) == *old(self),
            final(memory).wf(),
            final(memory)@ == old(memory)@,
            *final(cycles) == charge(*old(cycles), 1),
    {
        let data: u8 = memory.read(addr as u16);
        spend(cycles, 1);

        data
    }

    /// The decode/execute engine: drains the cycle budget one instruction at
    /// a time. Each loop pass fetches one opcode byte (1 cycle) and runs the
    /// dispatched instruction to completion, saturating the budget at zero
    /// if the instruction overruns it. The returned report lists every
    /// fetched byte that matched no implemented instruction, with the
    /// address it was fetched from; an unhandled opcode is a diagnostic, not
    /// a fatal condition.
    ///
    /// The final registers, memory and report are exactly those of the
    /// specification machine `run`, started from the current state with an
    /// empty report.
    pub fn execute(&mut self, cycles: u8, memory: &mut Memory) -> (report: Vec<UnknownOpcode>)
        requires
            old(memory).wf(),
        ensures
            final(memory).wf(),
            ({
                let end = run(
                    State { cpu: *old(self), mem: old(memory)@, cycles, diags: Seq::empty() },
                );
                &&& *final(self) == end.cpu
                &&& final(memory)@ == end.mem
                &&& report@ == end.diags
            }),
    {
        let ghost start = State { cpu: *self, mem: memory@, cycles, diags: Seq::empty() };
        let mut cycles: u8 = cycles;
        let mut report: Vec<UnknownOpcode> = Vec::new();
        while cycles > 0
            invariant
                memory.wf(),
                run(start) == run(State { cpu: *self, mem: memory@, cycles, diags: report@ }),
            decreases cycles,
        {
            let ghost pre = State { cpu: *self, mem: memory@, cycles, diags: report@ };
            let pc0: u16 = self.pc;
            let opcode: u8 = self.fetch_byte(&mut cycles, memory);
            match decode(opcode) {
                Some(Instruction::LdaImmediate) => {
                    let value: u8 = self.fetch_byte(&mut cycles, memory);
                    self.a = value;
                    self.lda_set_status();
                },
                Some(Instruction::LdaZeroPage) => {
                    let zp_addr: u8 = self.fetch_byte(&mut cycles, memory);
                    let value: u8 = self.read_byte(&mut cycles, memory, zp_addr);
                    self.a = value;
                    self.lda_set_status();
                },
                Some(Instruction::LdaZeroPageX) => {
                    let zp_addr: u8 = self.fetch_byte(&mut cycles, memory);
                    let eff_addr: u8 = add_wrap8(zp_addr, self.x);
                    spend(&mut cycles, 1);
                    let value: u8 = self.read_byte(&mut cycles, memory, eff_addr);
                    self.a = value;
                    self.lda_set_status();
                },
                Some(Instruction::JsrAbsolute) => {
                    let sub_addr: u16 = self.fetch_word(&mut cycles, memory);
                    let ret_addr: u16 = sub_wrap16(self.pc, 1);
                    memory.write_word(&mut cycles, ret_addr, self.sp);
                    self.sp = add_wrap16(self.sp, 2);
                    self.pc = sub_addr;
                    spend(&mut cycles, 1);
                },
                None => {
                    report.push(UnknownOpcode { addr: pc0, opcode });
                },
            }
            proof {
                let post = State { cpu: *self, mem: memory@, cycles, diags: report@ };
                assert(post =~= step(pre));
                assert(run(pre) == run(post));
            }
        }
        report
    }

    /// Applies the load flag-update policy to the status byte, from the value
    /// currently in the accumulator.
    pub fn lda_set_status(&mut self)
        ensures
            final(self).ps == flags_after_load(old(self).ps, old(self).a),
            final(self).pc == old(self).pc,
            final(self).sp == old(self).sp,
            final(self).a == old(self).a,
            final(self).x == old(self).x,
            final(self).y == old(self).y,
    {
        if self.a == 0 {
            self.ps = self.ps | FLAG_Z;
        }
        if self.a & 0x80 > 0 {
            self.ps = self.ps | FLAG_N;
        }
    }
}

} // verus!
