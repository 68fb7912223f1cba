//! The MCPWM register block, as the driver core needs it. The block's full
//! bit layout is out of scope: only the fields the core writes are modeled,
//! together with the order in which it writes them, so that contracts can
//! state that initialization touches each field exactly once.

use vstd::prelude::*;

verus! {

/// One write to an MCPWM register block.
#[derive(Clone, Copy, PartialEq, Eq, Structural, Debug)]
pub enum RegWrite {
    /// The clock-configuration register: the eight-bit prescaler field.
    Prescale(u8),
    /// The clock register: the enable bit set.
    ClockEnable,
    /// One operator unit's comparator-configuration register: the unit index,
    /// then the update-method bits of its A and B comparators, both sub-fields
    /// written together.
    UpdateMethod(u8, u8, u8),
}

/// A register block of one MCPWM instance: its fixed base address and the
/// writes made to it, oldest first.
pub struct RegisterBlock {
    addr: usize,
    writes: Vec<RegWrite>,
}

impl RegisterBlock {
    /// The fixed base address of the block.
    pub closed spec fn base_address(self) -> usize {
        self.addr
    }

    /// The writes made so far, oldest first.
    pub closed spec fn log(self) -> Seq<RegWrite> {
        self.writes@
    }

    /// The register block at the given base address, with nothing written yet.
    pub fn at(addr: usize) -> (r: RegisterBlock)
        ensures
            r.base_address() == addr,
            r.log() == Seq::<RegWrite>::empty(),
    {
        RegisterBlock { addr, writes: Vec::new() }
    }

    /// Writes the prescaler field of the clock-configuration register.
    pub fn write_prescale(&mut self, bits: u8)
        ensures
            final(self).base_address() == old(self).base_address(),
            final(self).log() == old(self).log().push(RegWrite::Prescale(bits)),
    {
        self.writes.push(RegWrite::Prescale(bits));
    }

    /// Sets the enable bit of the clock register.
    pub fn write_clock_enable(&mut self)
        ensures
            final(self).base_address() == old(self).base_address(),
            final(self).log() == old(self).log().push(RegWrite::ClockEnable),
    {
        self.writes.push(RegWrite::ClockEnable);
    }

    /// Writes one operator unit's comparator-configuration register: the
    /// update-method sub-fields of its A and B comparators, in one write.
    pub fn write_update_method(&mut self, unit: u8, a_bits: u8, b_bits: u8)
        requires
            unit < 3,
        ensures
            final(self).base_address() == old(self).base_address(),
            final(self).log() == old(self).log().push(
                RegWrite::UpdateMethod(unit, a_bits, b_bits),
            ),
    {
        self.writes.push(RegWrite::UpdateMethod(unit, a_bits, b_bits));
    }

    /// The base address of the block.
    pub fn base(&self) -> (r: usize)
        ensures
            r == self.base_address(),
    {
        self.addr
    }

    /// The writes made so far, oldest first.
    pub fn writes(&self) -> (r: &Vec<RegWrite>)
        ensures
            r@ == self.log(),
    {
        &self.writes
    }
}

} // verus!
