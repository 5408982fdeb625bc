//! The small-step specification of the decode/execute engine.
//!
//! A `State` bundles everything an instruction can touch: the register file,
//! the memory contents, the remaining cycle budget, and the diagnostics
//! emitted for unhandled opcodes. `step` gives the exact effect of fetching
//! and executing one instruction; `run` drains the budget to zero. The
//! engine's `execute` method is proved to realize `run` exactly.

use vstd::prelude::*;

use crate::arith::charge;
use crate::arith::wrap_add16;
use crate::arith::wrap_add8;
use crate::arith::wrap_sub16;
use crate::cpu::with_load;
use crate::cpu::with_pc;
use crate::cpu::CPU;
use crate::isa::decode_spec;
use crate::isa::Instruction;
use crate::memory::word_at;
use crate::memory::word_write;
use crate::memory::MAX_MEM;

verus! {

/// One diagnostic record: an opcode byte that matched no implemented
/// instruction, and the address it was fetched from.
#[derive(Clone, Copy, PartialEq, Eq, Structural, Debug)]
pub struct UnknownOpcode {
    /// Address the opcode byte was fetched from.
    pub addr: u16,
    /// The unhandled opcode byte.
    pub opcode: u8,
}

/// The whole machine as the specification sees it: register file, memory
/// contents, remaining cycle budget, and diagnostics emitted so far.
#[verifier::ext_equal]
pub struct State {
    /// The register file.
    pub cpu: CPU,
    /// The memory contents.
    pub mem: Seq<u8>,
    /// The remaining cycle budget.
    pub cycles: u8,
    /// Diagnostics for unhandled opcodes, in fetch order.
    pub diags: Seq<UnknownOpcode>,
}

impl State {
    /// Well-formedness: the memory covers the whole address space.
    pub open spec fn wf(&self) -> bool {
        self.mem.len() == MAX_MEM
    }
}

/// The effect of fetching and executing exactly one instruction: the opcode
/// is fetched at the program counter (1 cycle), dispatched through the decode
/// mapping, and its addressing-mode-specific accesses and register updates
/// are applied. An unhandled opcode only records a diagnostic; the fetch
/// cycle is still charged. Cycle charges saturate at zero, so a dispatched
/// instruction always runs to completion.
pub open spec fn step(s: State) -> State
    recommends
        s.cycles > 0,
        s.wf(),
{
    let pc0 = s.cpu.pc;
    let opcode = s.mem[pc0 as int];
    let fetched = with_pc(s.cpu, wrap_add16(pc0, 1));
    let c1 = charge(s.cycles, 1);
    match decode_spec(opcode) {
        Some(Instruction::LdaImmediate) => {
            // Operand is the next byte: 1 more cycle.
            let value = s.mem[fetched.pc as int];
            let cpu = with_load(with_pc(fetched, wrap_add16(fetched.pc, 1)), value);
            State { cpu, mem: s.mem, cycles: charge(c1, 1), diags: s.diags }
        },
        Some(Instruction::LdaZeroPage) => {
            // Operand byte is a zero-page address: 1 cycle to fetch it,
            // 1 more to read the cell it names.
            let zp_addr = s.mem[fetched.pc as int];
            let cpu2 = with_pc(fetched, wrap_add16(fetched.pc, 1));
            let c2 = charge(c1, 1);
            let value = s.mem[zp_addr as int];
            State { cpu: with_load(cpu2, value), mem: s.mem, cycles: charge(c2, 1), diags: s.diags }
        },
        Some(Instruction::LdaZeroPageX) => {
            // Like zero-page, with the fetched address offset by X (wrapping
            // within the zero page); the offset addition costs 1 extra cycle.
            let zp_addr = s.mem[fetched.pc as int];
            let cpu2 = with_pc(fetched, wrap_add16(fetched.pc, 1));
            let c2 = charge(c1, 1);
            let eff_addr = wrap_add8(zp_addr, s.cpu.x);
            let c3 = charge(c2, 1);
            let value = s.mem[eff_addr as int];
            State { cpu: with_load(cpu2, value), mem: s.mem, cycles: charge(c3, 1), diags: s.diags }
        },
        Some(Instruction::JsrAbsolute) => {
            // Fetch the 16-bit target (2 cycles), push the return address
            // (program counter minus one) at the stack pointer (2 cycles),
            // advance the stack pointer by 2, jump, and charge 1 fixed cycle.
            let target = word_at(s.mem, fetched.pc);
            let cpu2 = with_pc(fetched, wrap_add16(fetched.pc, 2));
            let c2 = charge(c1, 2);
            let ret_addr = wrap_sub16(cpu2.pc, 1);
            let mem2 = word_write(s.mem, s.cpu.sp, ret_addr);
            let c3 = charge(c2, 2);
            let cpu3 = CPU {
                pc: target,
                sp: wrap_add16(cpu2.sp, 2),
                a: cpu2.a,
                x: cpu2.x,
                y: cpu2.y,
                ps: cpu2.ps,
            };
            State { cpu: cpu3, mem: mem2, cycles: charge(c3, 1), diags: s.diags }
        },
        None => {
            // Unhandled opcode: record it and re-enter the fetch state; only
            // the fetch cycle is consumed.
            State {
                cpu: fetched,
                mem: s.mem,
                cycles: c1,
                diags: s.diags.push(UnknownOpcode { addr: pc0, opcode }),
            }
        },
    }
}

/// The engine run to completion: while the budget is strictly positive,
/// execute one instruction; stop when it reaches zero.
pub open spec fn run(s: State) -> State
    decreases s.cycles,
{
    if s.cycles == 0 {
        s
    } else {
        run(step(s))
    }
}

/// Law: one step never increases the budget, and consumes at least the fetch
/// cycle when any budget remains.
pub proof fn lemma_step_consumes(s: State)
    requires
        s.cycles > 0,
    ensures
        step(s).cycles < s.cycles,
{
}

/// Law: a finished run has drained the budget exactly to zero — the cycle
/// counter never stops on a positive value and never wraps around.
pub proof fn lemma_run_exhausts_budget(s: State)
    ensures
        run(s).cycles == 0,
    decreases s.cycles,
{
    if s.cycles > 0 {
        lemma_step_consumes(s);
        lemma_run_exhausts_budget(step(s));
    }
}

/// Law: an immediate-mode load costs exactly 2 cycles (opcode fetch plus
/// operand fetch) whenever the budget covers them.
pub proof fn lemma_lda_immediate_cost(s: State)
    requires
        s.cycles >= 2,
        decode_spec(s.mem[s.cpu.pc as int]) == Some(Instruction::LdaImmediate),
    ensures
        step(s).cycles == s.cycles - 2,
{
}

/// Law: a zero-page load costs exactly 3 cycles whenever the budget covers
/// them.
pub proof fn lemma_lda_zero_page_cost(s: State)
    requires
        s.cycles >= 3,
        decode_spec(s.mem[s.cpu.pc as int]) == Some(Instruction::LdaZeroPage),
    ensures
        step(s).cycles == s.cycles - 3,
{
}

/// Law: a zero-page-X load costs exactly 4 cycles whenever the budget covers
/// them.
pub proof fn lemma_lda_zero_page_x_cost(s: State)
    requires
        s.cycles >= 4,
        decode_spec(s.mem[s.cpu.pc as int]) == Some(Instruction::LdaZeroPageX),
    ensures
        step(s).cycles == s.cycles - 4,
{
}

/// Law: a jump-to-subroutine costs exactly 6 cycles whenever the budget
/// covers them.
pub proof fn lemma_jsr_cost(s: State)
    requires
        s.cycles >= 6,
        decode_spec(s.mem[s.cpu.pc as int]) == Some(Instruction::JsrAbsolute),
    ensures
        step(s).cycles == s.cycles - 6,
{
}

/// Law: an unhandled opcode consumes exactly the 1 fetch cycle, changes no
/// register besides the program-counter advance, leaves memory untouched,
/// and appends one diagnostic naming the value and its address.
pub proof fn lemma_unknown_opcode_effect(s: State)
    requires
        s.cycles >= 1,
        decode_spec(s.mem[s.cpu.pc as int]) is None,
    ensures
        step(s).cycles == s.cycles - 1,
        step(s).cpu == with_pc(s.cpu, wrap_add16(s.cpu.pc, 1)),
        step(s).mem == s.mem,
        step(s).diags == s.diags.push(
            UnknownOpcode { addr: s.cpu.pc, opcode: s.mem[s.cpu.pc as int] },
        ),
{
}

} // verus!
