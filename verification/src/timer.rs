//! The timer sub-units of an MCPWM instance. Their waveform logic is out of
//! scope here: the container only constructs them and fixes, through the type
//! system, which instance and which timer slot each one belongs to.

use core::marker::PhantomData;

use vstd::prelude::*;

verus! {

/// How a hardware timer counts, defining the PWM period.
#[derive(Clone, Copy, PartialEq, Eq, Structural, Debug)]
pub enum PwmWorkingMode {
    /// Count up from zero to the period, then wrap to zero.
    Increase,
    /// Count down from the period to zero, then wrap to the period.
    Decrease,
    /// Count up from zero to the period, then back down to zero.
    UpDown,
}

/// Timer unit `TIM` (0, 1 or 2) of the MCPWM instance `PWM`.
pub struct Timer<const TIM: u8, PWM> {
    phantom: PhantomData<PWM>,
}

impl<const TIM: u8, PWM> Timer<TIM, PWM> {
    /// The timer unit, as constructed by the container.
    pub fn new() -> Timer<TIM, PWM> {
        Timer { phantom: PhantomData }
    }
}

} // verus!
