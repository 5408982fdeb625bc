//! Instruction set: opcode byte values and the decode mapping.
//!
//! Dispatch is modeled as a mapping from the opcode byte to an instruction
//! variant keyed by addressing-mode family, so extending the instruction set
//! is a matter of adding variants rather than growing one flat branch.

use vstd::prelude::*;

verus! {

/// Load accumulator, immediate addressing.
pub const LDA_IM: u8 = 0xA9;

/// Load accumulator, zero-page addressing.
pub const LDA_ZP: u8 = 0xA5;

/// Load accumulator, zero-page addressing indexed by X.
pub const LDA_ZPX: u8 = 0xB5;

/// Jump to subroutine, absolute addressing.
pub const JSR_ABS: u8 = 0x20;

/// The implemented instructions, keyed by addressing-mode family.
#[derive(Clone, Copy, PartialEq, Eq, Structural, Debug)]
pub enum Instruction {
    LdaImmediate,
    LdaZeroPage,
    LdaZeroPageX,
    JsrAbsolute,
}

/// The decode mapping: which instruction, if any, an opcode byte selects.
pub open spec fn decode_spec(opcode: u8) -> Option<Instruction> {
    if opcode == LDA_IM {
        Some(Instruction::LdaImmediate)
    } else if opcode == LDA_ZP {
        Some(Instruction::LdaZeroPage)
    } else if opcode == LDA_ZPX {
        Some(Instruction::LdaZeroPageX)
    } else if opcode == JSR_ABS {
        Some(Instruction::JsrAbsolute)
    } else {
        None
    }
}

/// Decodes an opcode byte; `None` means the value matches no implemented
/// instruction.
pub fn decode(opcode: u8) -> (r: Option<Instruction>)
    ensures
        r == decode_spec(opcode),
{
    if opcode == LDA_IM {
        Some(Instruction::LdaImmediate)
    } else if opcode == LDA_ZP {
        Some(Instruction::LdaZeroPage)
    } else if opcode == LDA_ZPX {
        Some(Instruction::LdaZeroPageX)
    } else if opcode == JSR_ABS {
        Some(Instruction::JsrAbsolute)
    } else {
        None
    }
}

} // verus!
