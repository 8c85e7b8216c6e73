//! Clock configuration: the default clock tree, its validation, and the delay
//! source bound to the resulting tick rate.

use vstd::prelude::*;
use stm32_hal2::clocks::Clocks;

verus! {

#[verifier::external_type_specification]
#[verifier::external_body]
pub struct ExClocks(stm32_hal2::clocks::Clocks);

#[verifier::external_type_specification]
#[verifier::external_body]
pub struct ExHalError(stm32_hal2::Error);

/// Frequency of the system clock, the systick and both peripheral buses under
/// the default settings on this part, in hertz.
pub const DEFAULT_CLOCK_HZ: u32 = 80_000_000;

/// The part's default clock settings. The field is private and only
/// `hal_default_clocks` builds a value, so every value holds exactly what
/// `Clocks::default` returns.
pub struct DefaultClocks {
    clocks: Clocks,
}

impl DefaultClocks {
    /// The settings, to be applied to the hardware.
    pub fn hal(&self) -> &Clocks {
        &self.clocks
    }
}

/// Relies on `Clocks::default`: internal 16 MHz oscillator through the PLL
/// (divided by 4, multiplied by 40, divided by 2), all prescalers at 1. Builds
/// a value; touches no register.
#[verifier::external_body]
fn hal_default_clocks() -> (r: DefaultClocks) {
    DefaultClocks { clocks: Clocks::default() }
}

/// Relies on `Clocks::validate_speeds`: on the default settings the PLL
/// multiplier (40) lies in 7..=86, no P divider is 1, and every derived clock
/// is 80 MHz, at the part's limit, so the check passes. Reads no register.
#[verifier::external_body]
fn hal_validate_speeds(c: &DefaultClocks) -> (r: Result<(), stm32_hal2::Error>)
    ensures
        r is Ok,
{
    c.clocks.validate_speeds()
}

/// Relies on `Clocks::systick`: the systick core clock, equal to HCLK, which is
/// 16 MHz / 4 * 40 / 2 with the AHB prescaler at 1 on the default settings.
#[verifier::external_body]
fn hal_systick(c: &DefaultClocks) -> (r: u32)
    ensures
        r == DEFAULT_CLOCK_HZ,
{
    c.clocks.systick()
}

/// Relies on `Clocks::apb2`: HCLK divided by the APB2 prescaler, which is 1 on
/// the default settings.
#[verifier::external_body]
fn hal_apb2(c: &DefaultClocks) -> (r: u32)
    ensures
        r == DEFAULT_CLOCK_HZ,
{
    c.clocks.apb2()
}

/// The clock configuration cannot be reached on this part.
#[derive(Clone, Copy, Debug, PartialEq, Eq, Structural)]
pub enum ClockError {
    /// A speed or a divider lies outside what the hardware accepts.
    SpeedRejected,
}

/// A blocking delay bound to the tick rate of an applied clock configuration.
#[derive(Clone, Copy, Debug, PartialEq, Eq, Structural)]
pub struct DelaySource {
    pub tick_hz: u32,
}

/// Default clock settings with the frequencies they give, once validated.
pub struct ClockSettings {
    pub clocks: DefaultClocks,
    /// Systick frequency, in hertz.
    pub tick_hz: u32,
    /// Peripheral bus frequency feeding the sensor's serial bus, in hertz.
    pub bus_hz: u32,
}

/// Maps the outcome of a speed check, or of applying settings, to this
/// library's error.
pub fn speed_outcome(check: Result<(), stm32_hal2::Error>) -> (r: Result<(), ClockError>)
    ensures
        r is Ok <==> check is Ok,
        r is Err ==> r == Err::<(), ClockError>(ClockError::SpeedRejected),
{
    match check {
        Ok(()) => Ok(()),
        Err(_) => Err(ClockError::SpeedRejected),
    }
}

/// The delay source that follows from applying clock settings: bound to their
/// tick rate when they were applied, the error otherwise.
pub fn delay_source(applied: Result<(), ClockError>, tick_hz: u32) -> (r: Result<
    DelaySource,
    ClockError,
>)
    ensures
        r is Ok <==> applied is Ok,
        r is Ok ==> r == Ok::<DelaySource, ClockError>(DelaySource { tick_hz }),
        applied is Err ==> r == Err::<DelaySource, ClockError>(applied->Err_0),
{
    match applied {
        Ok(()) => Ok(DelaySource { tick_hz }),
        Err(e) => Err(e),
    }
}

/// Builds the default clock settings and checks them against the part's
/// limits before anything is written to hardware. They always pass on this
/// part, and come back with the same systick and peripheral bus frequencies on
/// every call; a delay source built from them after `setup` ticks at that
/// systick rate.
pub fn configure() -> (r: Result<ClockSettings, ClockError>)
    ensures
        r is Ok,
        r->Ok_0.tick_hz == DEFAULT_CLOCK_HZ,
        r->Ok_0.bus_hz == DEFAULT_CLOCK_HZ,
{
    let clocks = hal_default_clocks();
    match speed_outcome(hal_validate_speeds(&clocks)) {
        Ok(()) => {
            let tick_hz = hal_systick(&clocks);
            let bus_hz = hal_apb2(&clocks);
            Ok(ClockSettings { clocks, tick_hz, bus_hz })
        },
        Err(e) => Err(e),
    }
}

} // verus!
