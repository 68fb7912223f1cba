//! Clock derivation: the pure computation turning a source clock and an
//! integer prescaler into the peripheral's internal tick rate.

use vstd::prelude::*;

verus! {

/// Read-only access to the authoritative system clock frequencies, in hertz.
///
/// The MCPWM peripheral derives its internal tick rate from the dedicated
/// crypto/PWM clock, normally 160 MHz.
pub struct Clocks {
    /// The crypto/PWM clock frequency in hertz.
    pub crypto_pwm_clock: u32,
}

/// The tick rate, in hertz, that an eight-bit prescaler derives from a source
/// clock: the source divided by (prescaler + 1), truncating toward zero, as
/// the hardware divider does.
pub open spec fn derived_frequency(source_hz: u32, prescaler: u8) -> int {
    source_hz as int / (prescaler as int + 1)
}

/// The derived internal clock of one MCPWM instance: created once, during
/// construction, from the source clock and the prescaler; never mutated.
pub struct PwmClock {
    hz: u32,
}

impl PwmClock {
    /// The frequency in hertz that this clock stands for.
    pub closed spec fn freq(self) -> int {
        self.hz as int
    }

    /// Derives the internal clock from a source frequency and a prescaler.
    pub fn from_source(source_hz: u32, prescaler: u8) -> (r: PwmClock)
        ensures
            r.freq() == derived_frequency(source_hz, prescaler),
    {
        PwmClock { hz: source_hz / (prescaler as u32 + 1) }
    }

    /// The frequency in hertz.
    pub fn freq_hz(&self) -> (r: u32)
        ensures
            r as int == self.freq(),
    {
        self.hz
    }
}

} // verus!
