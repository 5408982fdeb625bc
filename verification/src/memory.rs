//! Byte-addressable memory: a fixed 64 KiB array of cells.
//!
//! The word-write primitive stores little-endian (low byte first) and, at the
//! very top of the address space, wraps the high byte around to address zero;
//! that wraparound rule is applied uniformly to every address computation in
//! this crate.

use vstd::prelude::*;

use crate::arith::add_wrap16;
use crate::arith::charge;
use crate::arith::spend;
use crate::arith::wrap_add16;

verus! {

/// Number of addressable byte cells: the full 16-bit address space.
pub const MAX_MEM: usize = 1024 * 64;

/// The all-zero memory contents.
pub open spec fn zero_mem() -> Seq<u8> {
    Seq::new(MAX_MEM as nat, |i: int| 0u8)
}

/// The 16-bit value stored little-endian at `addr` (high byte wraps around).
pub open spec fn word_at(mem: Seq<u8>, addr: u16) -> u16 {
    (mem[addr as int] + 256 * mem[wrap_add16(addr, 1) as int]) as u16
}

/// Memory contents after a little-endian word write at `addr`.
pub open spec fn word_write(mem: Seq<u8>, addr: u16, value: u16) -> Seq<u8> {
    mem.update(addr as int, (value % 256) as u8).update(
        wrap_add16(addr, 1) as int,
        (value / 256) as u8,
    )
}

/// A fixed-size byte-addressable memory; every address in range is always
/// defined.
pub struct Memory {
    data: Vec<u8>,
}

impl View for Memory {
    type V = Seq<u8>;

    closed spec fn view(&self) -> Seq<u8> {
        self.data@
    }
}

impl Memory {
    /// Well-formedness: the storage covers the whole address space, so every
    /// 16-bit address is in range.
    pub open spec fn wf(&self) -> bool {
        self@.len() == MAX_MEM
    }

    /// A fresh, zero-initialized memory.
    pub fn new() -> (m: Memory)
        ensures
            m.wf(),
            m@ == zero_mem(),
    {
        let mut m = Memory { data: Vec::new() };
        m.initialize();
        m
    }

    /// Sets every cell to zero.
    pub fn initialize(&mut self)
        ensures
            final(self).wf(),
            final(self)@ == zero_mem(),
    {
        let mut data: Vec<u8> = Vec::new();
        while data.len() < MAX_MEM
            invariant
                data@.len() <= MAX_MEM,
                forall|i: int| 0 <= i < data@.len() ==> data@[i] == 0u8,
            decreases MAX_MEM - data@.len(),
        {
            data.push(0u8);
        }
        proof {
            assert(data@ =~= zero_mem());
        }
        self.data = data;
    }

    /// Returns the cell value at `addr`. Pure; cycle cost is charged by the
    /// caller.
    pub fn read(&self, addr: u16) -> (b: u8)
        requires
            self.wf(),
        ensures
            b == self@[addr as int],
    {
        self.data[addr as usize]
    }

    /// Stores one byte at `addr`.
    pub fn write(&mut self, addr: u16, value: u8)
        requires
            old(self).wf(),
        ensures
            final(self).wf(),
            final(self)@ == old(self)@.update(addr as int, value),
    {
        self.data[addr as usize] = value;
    }

    /// Stores a 16-bit value little-endian: the low byte at `addr`, the high
    /// byte at `addr + 1` (wrapping around at the top of the address space),
    /// and charges 2 cycles against the budget.
    pub fn write_word(&mut self, cycles: &mut u8, data: u16, addr: u16)
        requires
            old(self).wf(),
        ensures
            final(self).wf(),
            final(self)@ == word_write(old(self)@, addr, data),
            *final(cycles) == charge(*old(cycles), 2),
    {
        let lo: u8 = (data % 256) as u8;
        let hi: u8 = (data / 256) as u8;
        self.write(addr, lo);
        let hi_addr: u16 = add_wrap16(addr, 1);
        self.write(hi_addr, hi);
        spend(cycles, 2);
    }
}

impl Default for Memory {
    /// A fresh, zero-initialized memory.
    fn default() -> (m: Memory)
        ensures
            m.wf(),
            m@ == zero_mem(),
    {
        Memory::new()
    }
}

/// Law: writing a 16-bit value with the word-write primitive and then
/// recombining the two constituent cells little-endian reproduces the value.
pub proof fn lemma_word_round_trip(mem: Seq<u8>, addr: u16, value: u16)
    requires
        mem.len() == MAX_MEM,
    ensures
        word_at(word_write(mem, addr, value), addr) == value,
{
    let written = word_write(mem, addr, value);
    assert(wrap_add16(addr, 1) != addr);
    assert(written[addr as int] == value % 256);
    assert(written[wrap_add16(addr, 1) as int] == value / 256);
    assert(value == 256 * (value / 256) + value % 256) by (nonlinear_arith);
}

} // verus!
