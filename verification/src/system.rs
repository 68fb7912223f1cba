//! The system-wide clock-control unit, as the driver core needs it: one
//! operation that powers and clock-gates a named peripheral. The unit records
//! every enable it is asked for, in order, so that contracts can state that
//! construction enables an instance exactly once.

use vstd::prelude::*;

verus! {

/// A peripheral that the system clock controller can gate.
#[derive(Clone, Copy, PartialEq, Eq, Structural, Debug)]
pub enum Peripheral {
    /// The first MCPWM instance.
    Mcpwm0,
    /// The second MCPWM instance.
    Mcpwm1,
}

/// The system clock-control unit, recording every clock-gate enable issued
/// through it, oldest first.
pub struct PeripheralClockControl {
    enabled: Vec<Peripheral>,
}

impl PeripheralClockControl {
    /// The enables issued so far, oldest first.
    pub closed spec fn log(self) -> Seq<Peripheral> {
        self.enabled@
    }

    /// A clock controller that has enabled nothing yet.
    pub fn new() -> (r: PeripheralClockControl)
        ensures
            r.log() == Seq::<Peripheral>::empty(),
    {
        PeripheralClockControl { enabled: Vec::new() }
    }

    /// Powers and clock-gates the given peripheral.
    pub fn enable(&mut self, peripheral: Peripheral)
        ensures
            final(self).log() == old(self).log().push(peripheral),
    {
        self.enabled.push(peripheral);
    }

    /// The enables issued so far, oldest first.
    pub fn enables(&self) -> (r: &Vec<Peripheral>)
        ensures
            r@ == self.log(),
    {
        &self.enabled
    }
}

} // verus!
