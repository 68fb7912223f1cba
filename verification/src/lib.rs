//! Driver core for a motor-control pulse-width-modulation (MCPWM) peripheral.
//!
//! The peripheral owns three timer units and three operator units that share
//! one internal clock, derived from a source clock by an eight-bit prescaler.
//! Construction is the only operation: [`MCPWM::new`] consumes a
//! peripheral-ownership token, enables the instance's clock gate, writes the
//! prescaler, enables the PWM clock, selects the comparator update method and
//! computes the derived clock. After that, frequency queries are pure
//! computations against the stored clock.

pub mod clock;
pub mod operator;
pub mod peripheral;
pub mod reg;
pub mod system;
pub mod timer;

use core::marker::PhantomData;

use vstd::prelude::*;

use crate::clock::{derived_frequency, Clocks, PwmClock};
use crate::operator::Operator;
use crate::peripheral::PwmPeripheral;
use crate::reg::{RegWrite, RegisterBlock};
use crate::system::PeripheralClockControl;
use crate::timer::{PwmWorkingMode, Timer};

verus! {

/// The effective number of counter ticks in one PWM period: `period + 1`
/// when counting one way (the timer visits `period + 1` distinct values
/// before wrapping), `period * 2` when counting up then down (the cycle
/// length doubles).
pub open spec fn effective_period(mode: PwmWorkingMode, period: u16) -> int {
    match mode {
        PwmWorkingMode::Increase => period as int + 1,
        PwmWorkingMode::Decrease => period as int + 1,
        PwmWorkingMode::UpDown => period as int * 2,
    }
}

/// The PWM output frequency: the internal clock divided by the timer's own
/// prescaler plus one, then by the effective period, each division an
/// unsigned integer division truncating toward zero, as the hardware does.
pub open spec fn spec_timer_frequency(
    clock_hz: int,
    mode: PwmWorkingMode,
    prescaler: u8,
    period: u16,
) -> int {
    clock_hz / (prescaler as int + 1) / effective_period(mode, period)
}

/// The sequence of register writes that constructing a container makes to
/// its instance's register block: the prescaler, then the clock enable, then
/// one comparator update-method write per operator unit.
pub open spec fn spec_init_writes(prescaler: u8, sync_bits: u8) -> Seq<RegWrite> {
    seq![
        RegWrite::Prescale(prescaler),
        RegWrite::ClockEnable,
        RegWrite::UpdateMethod(0, sync_bits, sync_bits),
        RegWrite::UpdateMethod(1, sync_bits, sync_bits),
        RegWrite::UpdateMethod(2, sync_bits, sync_bits),
    ]
}

/// Update-method bits selecting "latch the compare value when the timer
/// counter equals zero".
pub const SYNC_ON_ZERO: u8 = 0b0001;

/// One fully initialized MCPWM instance: three timer units, three operator
/// units, the derived internal clock, and the instance's register block.
pub struct MCPWM<'a, PWM> {
    pub timer0: Timer<0, PWM>,
    pub timer1: Timer<1, PWM>,
    pub timer2: Timer<2, PWM>,
    pub operator0: Operator<0, PWM>,
    pub operator1: Operator<1, PWM>,
    pub operator2: Operator<2, PWM>,
    pub pwm_clk: PwmClock,
    pub block: RegisterBlock,
    phantom: PhantomData<(&'a Clocks, PWM)>,
}

impl<'a, PWM> MCPWM<'a, PWM> {
    /// The derived internal clock the container stores.
    pub closed spec fn spec_clock(self) -> PwmClock {
        self.pwm_clk
    }

    /// The register block the container drives.
    pub closed spec fn spec_block(self) -> RegisterBlock {
        self.block
    }
}

impl<'a, PWM: PwmPeripheral> MCPWM<'a, PWM> {
    /// `pwm_clk = clocks.crypto_pwm_clock / (prescaler + 1)`
    // clocks.crypto_pwm_clock normally is 160 MHz
    pub fn new(
        peripheral: PWM,
        clocks: &'a Clocks,
        prescaler: u8,
        system: &mut PeripheralClockControl,
    ) -> (r: Self)
        ensures
            final(system).log() == old(system).log().push(PWM::spec_peripheral_id()),
            r.spec_block().base_address() == PWM::spec_block_address(),
            r.spec_block().log() == spec_init_writes(prescaler, SYNC_ON_ZERO),
            r.spec_clock().freq() == derived_frequency(clocks.crypto_pwm_clock, prescaler),
    {
        let _ = peripheral;

        PWM::enable(system);

        let mut block = RegisterBlock::at(PWM::block_address());
        // set prescaler
        block.write_prescale(prescaler);
        // enable clock
        block.write_clock_enable();

        // sync comparator updates when timer counter is equal to zero.
        Self::set_comparator_update_method(&mut block, SYNC_ON_ZERO);

        proof {
            assert(block.log() =~= spec_init_writes(prescaler, SYNC_ON_ZERO));
        }

        let pwm_clk = PwmClock::from_source(clocks.crypto_pwm_clock, prescaler);

        MCPWM {
            timer0: Timer::new(),
            timer1: Timer::new(),
            timer2: Timer::new(),
            operator0: Operator::new(),
            operator1: Operator::new(),
            operator2: Operator::new(),
            pwm_clk,
            block,
            phantom: PhantomData,
        }
    }

    /// The PWM output frequency for a timer in the given counting mode, with
    /// the given timer prescaler and period. In up-down mode the period must
    /// be nonzero: a zero period would mean a zero-length cycle.
    pub fn timer_freq(&self, mode: PwmWorkingMode, prescaler: u8, period: u16) -> (r: u32)
        requires
            mode == PwmWorkingMode::UpDown ==> period > 0,
        ensures
            r as int == spec_timer_frequency(self.spec_clock().freq(), mode, prescaler, period),
    {
        let period: u32 = match mode {
            PwmWorkingMode::Increase | PwmWorkingMode::Decrease => period as u32 + 1,
            PwmWorkingMode::UpDown => period as u32 * 2,
        };
        self.pwm_clk.freq_hz() / (prescaler as u32 + 1) / period
    }

    /// Writes, for each of the three operator units, the update-method
    /// sub-fields of its A and B comparators, all to the same value.
    fn set_comparator_update_method(block: &mut RegisterBlock, bits: u8)
        ensures
            final(block).base_address() == old(block).base_address(),
            final(block).log() == old(block).log().push(
                RegWrite::UpdateMethod(0, bits, bits),
            ).push(RegWrite::UpdateMethod(1, bits, bits)).push(
                RegWrite::UpdateMethod(2, bits, bits),
            ),
    {
        block.write_update_method(0, bits, bits);
        block.write_update_method(1, bits, bits);
        block.write_update_method(2, bits, bits);
    }
}

} // verus!
