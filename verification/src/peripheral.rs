//! The capability contract that one physical MCPWM instance implements: how
//! to enable its clock gate, where its register block lives, and how a
//! (unit, channel) pair maps to a GPIO output signal. Two instances exist,
//! with disjoint enable targets and disjoint signal tables but identical
//! shape; the rest of the driver is instance-agnostic.

use vstd::prelude::*;

use crate::system::{Peripheral, PeripheralClockControl};

verus! {

/// A logical GPIO output signal of the MCPWM peripherals, routed to a
/// physical pin by the (out-of-scope) GPIO output multiplexer.
#[allow(non_camel_case_types)]
#[derive(Clone, Copy, PartialEq, Eq, Structural, Debug)]
pub enum OutputSignal {
    /// First instance, operator unit 0, comparator channel A.
    PWM0_0A,
    /// First instance, operator unit 0, comparator channel B.
    PWM0_0B,
    /// First instance, operator units 1 and 2, comparator channel A.
    PWM0_1A,
    /// First instance, operator units 1 and 2, comparator channel B.
    PWM0_1B,
    /// Second instance, operator unit 0, comparator channel A.
    PWM1_0A,
    /// Second instance, operator unit 0, comparator channel B.
    PWM1_0B,
    /// Second instance, operator units 1 and 2, comparator channel A.
    PWM1_1A,
    /// Second instance, operator units 1 and 2, comparator channel B.
    PWM1_1B,
}

/// Base address of the first MCPWM instance's register block.
pub const MCPWM0_BASE: usize = 0x6001_E000;

/// Base address of the second MCPWM instance's register block.
pub const MCPWM1_BASE: usize = 0x6002_C000;

/// A MCPWM peripheral: the capability set of one physical instance.
///
/// Holding a value of an implementing type stands for exclusive ownership of
/// that instance; [`crate::MCPWM::new`] consumes it, so a second container
/// over the same registers cannot be built without a second token, and the
/// platform hands out only one.
pub trait PwmPeripheral: Sized {
    /// The clock-gate line this instance is enabled through.
    spec fn spec_peripheral_id() -> Peripheral;

    /// The fixed base address of this instance's register block.
    spec fn spec_block_address() -> usize;

    /// The GPIO output signal of one generator output: operator unit `unit`,
    /// comparator channel A when `is_a`, channel B otherwise.
    spec fn spec_output_signal(unit: u8, is_a: bool) -> OutputSignal;

    /// Enable peripheral: asks the clock controller to power and clock-gate
    /// this instance, exactly once.
    fn enable(system: &mut PeripheralClockControl)
        ensures
            final(system).log() == old(system).log().push(Self::spec_peripheral_id()),
    ;

    /// The base address of this instance's register block.
    fn block_address() -> (r: usize)
        ensures
            r == Self::spec_block_address(),
    ;

    /// Get operator GPIO mux output signal: unit `O` in {0, 1, 2}, channel A
    /// when `IS_A`, channel B otherwise.
    fn output_signal<const O: u8, const IS_A: bool>() -> (r: OutputSignal)
        requires
            O < 3,
        ensures
            r == Self::spec_output_signal(O, IS_A),
    ;
}

/// The first physical MCPWM instance.
pub struct PWM0;

impl PwmPeripheral for PWM0 {
    open spec fn spec_peripheral_id() -> Peripheral {
        Peripheral::Mcpwm0
    }

    open spec fn spec_block_address() -> usize {
        MCPWM0_BASE
    }

    open spec fn spec_output_signal(unit: u8, is_a: bool) -> OutputSignal {
        if is_a {
            if unit == 0 {
                OutputSignal::PWM0_0A
            } else {
                OutputSignal::PWM0_1A
            }
        } else {
            if unit == 0 {
                OutputSignal::PWM0_0B
            } else {
                OutputSignal::PWM0_1B
            }
        }
    }

    fn enable(system: &mut PeripheralClockControl) {
        system.enable(Peripheral::Mcpwm0)
    }

    fn block_address() -> usize {
        MCPWM0_BASE
    }

    fn output_signal<const O: u8, const IS_A: bool>() -> OutputSignal {
        if IS_A {
            if O == 0 {
                OutputSignal::PWM0_0A
            } else {
                OutputSignal::PWM0_1A
            }
        } else {
            if O == 0 {
                OutputSignal::PWM0_0B
            } else {
                OutputSignal::PWM0_1B
            }
        }
    }
}

/// The second physical MCPWM instance.
pub struct PWM1;

impl PwmPeripheral for PWM1 {
    open spec fn spec_peripheral_id() -> Peripheral {
        Peripheral::Mcpwm1
    }

    open spec fn spec_block_address() -> usize {
        MCPWM1_BASE
    }

    open spec fn spec_output_signal(unit: u8, is_a: bool) -> OutputSignal {
        if is_a {
            if unit == 0 {
                OutputSignal::PWM1_0A
            } else {
                OutputSignal::PWM1_1A
            }
        } else {
            if unit == 0 {
                OutputSignal::PWM1_0B
            } else {
                OutputSignal::PWM1_1B
            }
        }
    }

    fn enable(system: &mut PeripheralClockControl) {
        system.enable(Peripheral::Mcpwm1)
    }

    fn block_address() -> usize {
        MCPWM1_BASE
    }

    fn output_signal<const O: u8, const IS_A: bool>() -> OutputSignal {
        if IS_A {
            if O == 0 {
                OutputSignal::PWM1_0A
            } else {
                OutputSignal::PWM1_1A
            }
        } else {
            if O == 0 {
                OutputSignal::PWM1_0B
            } else {
                OutputSignal::PWM1_1B
            }
        }
    }
}

/// Law: on the first instance, two (unit, channel) pairs map to the same
/// output signal exactly when they are on the same channel and either name
/// the same unit or both name a unit in {1, 2} — the hardware reuses the
/// unit-1 signals for unit 2, and no other pairs alias.
pub proof fn lemma_pwm0_signal_aliasing(u1: u8, a1: bool, u2: u8, a2: bool)
    requires
        u1 < 3,
        u2 < 3,
    ensures
        (PWM0::spec_output_signal(u1, a1) == PWM0::spec_output_signal(u2, a2)) <==> (a1 == a2
            && (u1 == u2 || (u1 >= 1 && u2 >= 1))),
{
}

/// Law: on the second instance, output signals alias exactly as on the first:
/// same channel, and same unit or both units in {1, 2}.
pub proof fn lemma_pwm1_signal_aliasing(u1: u8, a1: bool, u2: u8, a2: bool)
    requires
        u1 < 3,
        u2 < 3,
    ensures
        (PWM1::spec_output_signal(u1, a1) == PWM1::spec_output_signal(u2, a2)) <==> (a1 == a2
            && (u1 == u2 || (u1 >= 1 && u2 >= 1))),
{
}

/// Law: the two instances' output-signal tables are disjoint: no generator
/// output of the first instance shares a signal with one of the second.
pub proof fn lemma_instance_signals_disjoint(u0: u8, a0: bool, u1: u8, a1: bool)
    ensures
        PWM0::spec_output_signal(u0, a0) != PWM1::spec_output_signal(u1, a1),
{
}

} // verus!
