use mcpwm::clock::{Clocks, PwmClock};
use mcpwm::peripheral::{PWM0, PWM1};
use mcpwm::system::PeripheralClockControl;
use mcpwm::timer::PwmWorkingMode;
use mcpwm::MCPWM;

#[test]
fn derived_clock_exact_truncation() {
    let f: u32 = 160_000_000;
    assert_eq!(PwmClock::from_source(f, 0).freq_hz(), 160_000_000);
    assert_eq!(PwmClock::from_source(f, 1).freq_hz(), 80_000_000);
    assert_eq!(PwmClock::from_source(f, 3).freq_hz(), 40_000_000);
}

#[test]
fn derived_clock_truncates_toward_zero() {
    // 10 / 3 = 3 in the hardware divider; the remainder is discarded.
    assert_eq!(PwmClock::from_source(10, 2).freq_hz(), 3);
    assert_eq!(PwmClock::from_source(0, 17).freq_hz(), 0);
}

#[test]
fn derived_clock_extreme_prescaler() {
    assert_eq!(PwmClock::from_source(160_000_000, 255).freq_hz(), 625_000);
    assert_eq!(PwmClock::from_source(u32::MAX, 255).freq_hz(), u32::MAX / 256);
}

#[test]
fn container_stores_derived_clock() {
    let clocks = Clocks { crypto_pwm_clock: 160_000_000 };
    let mut system = PeripheralClockControl::new();
    let m = MCPWM::new(PWM0, &clocks, 1, &mut system);
    assert_eq!(m.pwm_clk.freq_hz(), 80_000_000);

    let mut system1 = PeripheralClockControl::new();
    let m1 = MCPWM::new(PWM1, &clocks, 3, &mut system1);
    assert_eq!(m1.pwm_clk.freq_hz(), 40_000_000);
}

#[test]
fn timer_freq_increase_mode() {
    let clocks = Clocks { crypto_pwm_clock: 1_000_000 };
    let mut system = PeripheralClockControl::new();
    let m = MCPWM::new(PWM0, &clocks, 0, &mut system);
    // 1_000_000 / 1 / (999 + 1) = 1000
    assert_eq!(m.timer_freq(PwmWorkingMode::Increase, 0, 999), 1000);
}

#[test]
fn timer_freq_decrease_mode() {
    let clocks = Clocks { crypto_pwm_clock: 1_000_000 };
    let mut system = PeripheralClockControl::new();
    let m = MCPWM::new(PWM0, &clocks, 0, &mut system);
    assert_eq!(m.timer_freq(PwmWorkingMode::Decrease, 0, 999), 1000);
}

#[test]
fn timer_freq_updown_mode() {
    let clocks = Clocks { crypto_pwm_clock: 1_000_000 };
    let mut system = PeripheralClockControl::new();
    let m = MCPWM::new(PWM0, &clocks, 0, &mut system);
    // Up-down counting doubles the cycle: 1_000_000 / 1 / (500 * 2) = 1000.
    assert_eq!(m.timer_freq(PwmWorkingMode::UpDown, 0, 500), 1000);
}

#[test]
fn timer_freq_modes_differ_on_same_period() {
    let clocks = Clocks { crypto_pwm_clock: 1_000_000 };
    let mut system = PeripheralClockControl::new();
    let m = MCPWM::new(PWM0, &clocks, 0, &mut system);
    // period + 1 = 501 ticks one way, period * 2 = 1000 ticks up-down.
    assert_eq!(m.timer_freq(PwmWorkingMode::Increase, 0, 500), 1996);
    assert_eq!(m.timer_freq(PwmWorkingMode::UpDown, 0, 500), 1000);
}

#[test]
fn timer_freq_second_prescaler_stacks() {
    let clocks = Clocks { crypto_pwm_clock: 160_000_000 };
    let mut system = PeripheralClockControl::new();
    let m = MCPWM::new(PWM0, &clocks, 3, &mut system);
    // Internal clock 40 MHz, timer prescaler 4, period 999:
    // 40_000_000 / 5 / 1000 = 8000.
    assert_eq!(m.timer_freq(PwmWorkingMode::Increase, 4, 999), 8000);
}

#[test]
fn timer_freq_extremes() {
    let clocks = Clocks { crypto_pwm_clock: u32::MAX };
    let mut system = PeripheralClockControl::new();
    let m = MCPWM::new(PWM0, &clocks, 0, &mut system);
    assert_eq!(
        m.timer_freq(PwmWorkingMode::Increase, 255, u16::MAX),
        u32::MAX / 256 / 65536
    );
    assert_eq!(m.timer_freq(PwmWorkingMode::UpDown, 255, u16::MAX), u32::MAX / 256 / 131070);
    // The smallest nonzero up-down cycle is two ticks.
    assert_eq!(m.timer_freq(PwmWorkingMode::UpDown, 0, 1), u32::MAX / 2);
}
