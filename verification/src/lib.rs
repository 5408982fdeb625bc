//! A cycle-counted emulator core for a classic 8-bit microprocessor.
//!
//! The crate models the processor's register file, its status flags, a
//! 64 KiB byte-addressable memory, and a fetch/decode/execute engine with
//! per-instruction cycle accounting. The execute engine's behaviour is
//! specified exactly by a small-step machine (`machine::step` / `machine::run`)
//! over the registers, the memory contents, the remaining cycle budget and
//! the diagnostics emitted for unhandled opcodes.

pub mod arith;
pub mod cpu;
pub mod flags;
pub mod machine;
pub mod isa;
pub mod memory;
