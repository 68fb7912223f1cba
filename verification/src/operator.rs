//! The operator sub-units of an MCPWM instance. Their comparator/generator
//! logic is out of scope here: the container only constructs them and fixes,
//! through the type system, which instance and which operator slot each one
//! belongs to.

use core::marker::PhantomData;

use vstd::prelude::*;

verus! {

/// Operator unit `O` (0, 1 or 2) of the MCPWM instance `PWM`.
pub struct Operator<const O: u8, PWM> {
    phantom: PhantomData<PWM>,
}

impl<const O: u8, PWM> Operator<O, PWM> {
    /// The operator unit, as constructed by the container.
    pub fn new() -> Operator<O, PWM> {
        Operator { phantom: PhantomData }
    }
}

} // verus!
