//! Wraparound address arithmetic and saturating cycle accounting.
//!
//! Addresses wrap modulo the address-space size, matching the modeled
//! architecture's 16-bit program counter and the zero-page's 8-bit range.
//! The cycle budget saturates at zero: an instruction that is already in
//! flight runs to completion, and the budget never wraps to a large value.

use vstd::prelude::*;

verus! {

/// 16-bit sum with wraparound at the top of the 64 KiB address space.
pub open spec fn wrap_add16(a: u16, b: u16) -> u16 {
    if a + b > 0xFFFF {
        (a + b - 0x10000) as u16
    } else {
        (a + b) as u16
    }
}

/// 16-bit difference with wraparound below zero.
pub open spec fn wrap_sub16(a: u16, b: u16) -> u16 {
    if a >= b {
        (a - b) as u16
    } else {
        (a + 0x10000 - b) as u16
    }
}

/// 8-bit sum with wraparound, as used for zero-page indexing.
pub open spec fn wrap_add8(a: u8, b: u8) -> u8 {
    if a + b > 0xFF {
        (a + b - 0x100) as u8
    } else {
        (a + b) as u8
    }
}

/// Cycle budget left after charging `k` cycles: saturates at zero.
pub open spec fn charge(cycles: u8, k: u8) -> u8 {
    if cycles >= k {
        (cycles - k) as u8
    } else {
        0
    }
}

/// Executable counterpart of `wrap_add16`.
pub fn add_wrap16(a: u16, b: u16) -> (r: u16)
    ensures
        r == wrap_add16(a, b),
{
    let s: u32 = a as u32 + b as u32;
    if s > 0xFFFF {
        (s - 0x10000) as u16
    } else {
        s as u16
    }
}

/// Executable counterpart of `wrap_sub16`.
pub fn sub_wrap16(a: u16, b: u16) -> (r: u16)
    ensures
        r == wrap_sub16(a, b),
{
    if a >= b {
        a - b
    } else {
        (a as u32 + 0x10000 - b as u32) as u16
    }
}

/// Executable counterpart of `wrap_add8`.
pub fn add_wrap8(a: u8, b: u8) -> (r: u8)
    ensures
        r == wrap_add8(a, b),
{
    let s: u16 = a as u16 + b as u16;
    if s > 0xFF {
        (s - 0x100) as u8
    } else {
        s as u8
    }
}

/// Charges `k` cycles against the budget, saturating at zero.
pub fn spend(cycles: &mut u8, k: u8)
    ensures
        *final(cycles) == charge(*old(cycles), k),
{
    if *cycles >= k {
        *cycles = *cycles - k;
    } else {
        *cycles = 0;
    }
}

} // verus!
