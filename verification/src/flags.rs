//! The processor status byte and the load-instruction flag-update policy.
//!
//! Only the Zero and Negative flags are driven by the instructions modeled
//! here; the remaining bit positions are reserved for future instructions.
//! Loads set their flags by bitwise OR onto the status byte, so a bit that
//! was already set is never cleared by a load.

use vstd::prelude::*;

verus! {

/// Carry flag bit position (reserved: no modeled instruction drives it).
pub const FLAG_C: u8 = 0x01;

/// Zero flag bit position.
pub const FLAG_Z: u8 = 0x02;

/// Interrupt-disable flag bit position (reserved).
pub const FLAG_I: u8 = 0x04;

/// Decimal-mode flag bit position (reserved).
pub const FLAG_D: u8 = 0x08;

/// Break flag bit position (reserved).
pub const FLAG_B: u8 = 0x10;

/// Overflow flag bit position (reserved).
pub const FLAG_V: u8 = 0x40;

/// Negative flag bit position.
pub const FLAG_N: u8 = 0x80;

/// True iff the Zero flag is set in the status byte.
pub open spec fn zero_flag_set(ps: u8) -> bool {
    ps & FLAG_Z != 0
}

/// True iff the Negative flag is set in the status byte.
pub open spec fn negative_flag_set(ps: u8) -> bool {
    ps & FLAG_N != 0
}

/// The status byte after a load instruction stored `value` in the
/// accumulator: the Zero flag is OR'd in when the value is zero, and the
/// Negative flag is OR'd in when bit 7 of the value is set.
pub open spec fn flags_after_load(ps: u8, value: u8) -> u8 {
    let with_z = if value == 0 {
        ps | FLAG_Z
    } else {
        ps
    };
    if value & 0x80 > 0 {
        with_z | FLAG_N
    } else {
        with_z
    }
}

/// Law: starting from a status byte with Zero and Negative clear, a load
/// sets the Zero flag iff the loaded value is zero, and the Negative flag
/// iff bit 7 of the loaded value is set.
///
/// The clean-slate premise is needed because loads OR their flags onto the
/// status byte: a Zero flag left over from an earlier instruction stays set
/// even when the new value is nonzero.
pub proof fn lemma_load_flags_exact(ps: u8, value: u8)
    requires
        ps & FLAG_Z == 0,
        ps & FLAG_N == 0,
    ensures
        zero_flag_set(flags_after_load(ps, value)) <==> value == 0,
        negative_flag_set(flags_after_load(ps, value)) <==> value & 0x80 != 0,
{
    assert((ps & 0x02 == 0 && ps & 0x80 == 0) ==> {
        let with_z = if value == 0 {
            ps | 0x02
        } else {
            ps
        };
        let f = if value & 0x80 > 0 {
            with_z | 0x80
        } else {
            with_z
        };
        &&& ((f & 0x02 != 0) <==> value == 0)
        &&& ((f & 0x80 != 0) <==> value & 0x80 != 0)
    }) by (bit_vector);
}

/// Law: a load changes no status bit outside the Zero and Negative
/// positions; every other masked slice of the status byte is unchanged.
pub proof fn lemma_load_preserves_other_flags(ps: u8, value: u8, mask: u8)
    requires
        mask & FLAG_Z == 0,
        mask & FLAG_N == 0,
    ensures
        flags_after_load(ps, value) & mask == ps & mask,
{
    assert((mask & 0x02 == 0 && mask & 0x80 == 0) ==> {
        let with_z = if value == 0 {
            ps | 0x02
        } else {
            ps
        };
        let f = if value & 0x80 > 0 {
            with_z | 0x80
        } else {
            with_z
        };
        f & mask == ps & mask
    }) by (bit_vector);
}

/// Law: a load never clears a status bit: any set of bits already set in the
/// status byte is still set afterwards.
pub proof fn lemma_load_never_clears(ps: u8, value: u8, mask: u8)
    requires
        ps & mask == mask,
    ensures
        flags_after_load(ps, value) & mask == mask,
{
    assert(ps & mask == mask ==> {
        let with_z = if value == 0 {
            ps | 0x02
        } else {
            ps
        };
        let f = if value & 0x80 > 0 {
            with_z | 0x80
        } else {
            with_z
        };
        f & mask == mask
    }) by (bit_vector);
}

} // verus!
