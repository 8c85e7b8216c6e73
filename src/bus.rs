//! The serial bus session towards the absolute-position sensor: bus mode,
//! baud divisor, and the chip-select line.

use vstd::prelude::*;
use crate::pin::{Level, ToggleableOutputPin};

verus! {

/// Level of the bus clock line while idle.
#[derive(Clone, Copy, Debug, PartialEq, Eq, Structural)]
pub enum ClockPolarity {
    IdleLow,
    IdleHigh,
}

/// Clock edge on which data is sampled.
#[derive(Clone, Copy, Debug, PartialEq, Eq, Structural)]
pub enum ClockPhase {
    CaptureOnFirstTransition,
    CaptureOnSecondTransition,
}

/// A pairing of clock polarity and phase.
#[derive(Clone, Copy, Debug, PartialEq, Eq, Structural)]
pub struct BusMode {
    pub polarity: ClockPolarity,
    pub phase: ClockPhase,
}

impl BusMode {
    /// Clock idles low, data sampled on the leading edge.
    pub fn mode0() -> (r: BusMode)
        ensures
            r.polarity == ClockPolarity::IdleLow,
            r.phase == ClockPhase::CaptureOnFirstTransition,
    {
        BusMode { polarity: ClockPolarity::IdleLow, phase: ClockPhase::CaptureOnFirstTransition }
    }

    /// Clock idles high, data sampled on the trailing edge: the mode the
    /// sensor family expects.
    pub fn mode3() -> (r: BusMode)
        ensures
            r.polarity == ClockPolarity::IdleHigh,
            r.phase == ClockPhase::CaptureOnSecondTransition,
    {
        BusMode { polarity: ClockPolarity::IdleHigh, phase: ClockPhase::CaptureOnSecondTransition }
    }
}

/// Divider from the peripheral bus clock to the communication clock.
#[derive(Clone, Copy, Debug, PartialEq, Eq, Structural)]
pub enum BaudDivisor {
    Div2,
    Div4,
    Div8,
    Div16,
    Div32,
    Div64,
    Div128,
    Div256,
}

/// The number a divisor divides by.
pub open spec fn divisor_value(d: BaudDivisor) -> nat {
    match d {
        BaudDivisor::Div2 => 2,
        BaudDivisor::Div4 => 4,
        BaudDivisor::Div8 => 8,
        BaudDivisor::Div16 => 16,
        BaudDivisor::Div32 => 32,
        BaudDivisor::Div64 => 64,
        BaudDivisor::Div128 => 128,
        BaudDivisor::Div256 => 256,
    }
}

impl BaudDivisor {
    pub fn value(&self) -> (r: u32)
        ensures
            r == divisor_value(*self),
    {
        match self {
            BaudDivisor::Div2 => 2,
            BaudDivisor::Div4 => 4,
            BaudDivisor::Div8 => 8,
            BaudDivisor::Div16 => 16,
            BaudDivisor::Div32 => 32,
            BaudDivisor::Div64 => 64,
            BaudDivisor::Div128 => 128,
            BaudDivisor::Div256 => 256,
        }
    }
}

/// Electrical configuration of the bus.
#[derive(Clone, Copy, Debug, PartialEq, Eq, Structural)]
pub struct BusConfig {
    pub mode: BusMode,
    pub divisor: BaudDivisor,
}

impl BusConfig {
    /// The sensor's configuration: clock idling high, sampling on the trailing
    /// edge, peripheral bus clock divided by 32.
    pub fn sensor_default() -> (r: BusConfig)
        ensures
            r.mode.polarity == ClockPolarity::IdleHigh,
            r.mode.phase == ClockPhase::CaptureOnSecondTransition,
            r.divisor == BaudDivisor::Div32,
    {
        BusConfig { mode: BusMode::mode3(), divisor: BaudDivisor::Div32 }
    }

    /// Communication clock frequency, in hertz, obtained from a peripheral bus
    /// clock of `bus_hz` hertz.
    pub fn comm_clock_hz(&self, bus_hz: u32) -> (r: u32)
        ensures
            r == bus_hz as nat / divisor_value(self.divisor),
    {
        bus_hz / self.divisor.value()
    }
}

/// A bus transaction did not complete.
#[derive(Clone, Copy, Debug, PartialEq, Eq, Structural)]
pub enum BusError {
    /// Overrun, mode fault, checksum fault or a stalled transfer on the bus.
    Transaction,
}

/// A session with the sensor: the bus handle, the configuration that handle
/// was set up with, and the sensor's chip-select line, which this session owns
/// alone.
pub struct Aksim2<S, P> {
    spi: S,
    cs: P,
    config: BusConfig,
}

impl<S, P: ToggleableOutputPin> Aksim2<S, P> {
    /// The bus handle of this session.
    pub closed spec fn spi_spec(&self) -> S {
        self.spi
    }

    /// The chip-select line of this session.
    pub closed spec fn cs_spec(&self) -> P {
        self.cs
    }

    /// The configuration the bus handle was set up with.
    pub closed spec fn config_spec(&self) -> BusConfig {
        self.config
    }

    /// Takes over a bus already set up with `config`, and the chip-select line.
    /// The line becomes an output driven high, so the sensor stays deselected,
    /// and is raised to the fast output speed. The bus handle is kept as it
    /// is: nothing is reconfigured and no transaction happens here.
    pub fn new(spi: S, cs: P, config: BusConfig) -> (r: Self)
        ensures
            r.spi_spec() == spi,
            r.config_spec() == config,
            r.cs_spec().is_output(),
            r.cs_spec().level() == Level::High,
            r.cs_spec().is_fast(),
    {
        let mut cs = cs;
        cs.make_output();
        cs.set_high();
        cs.set_speed_fast();
        Aksim2 { spi, cs, config }
    }

    pub fn cs(&self) -> (r: &P)
        ensures
            *r == self.cs_spec(),
    {
        &self.cs
    }

    pub fn spi(&self) -> (r: &S)
        ensures
            *r == self.spi_spec(),
    {
        &self.spi
    }

    /// The bus handle, for transactions; the line and configuration stay.
    pub fn spi_mut(&mut self) -> (r: &mut S)
        ensures
            *r == old(self).spi_spec(),
    {
        &mut self.spi
    }

    pub fn config(&self) -> (r: BusConfig)
        ensures
            r == self.config_spec(),
    {
        self.config
    }

    /// Communication clock of this session, in hertz, over a peripheral bus
    /// clock of `bus_hz` hertz.
    pub fn comm_clock_hz(&self, bus_hz: u32) -> (r: u32)
        ensures
            r == bus_hz as nat / divisor_value(self.config_spec().divisor),
    {
        self.config.comm_clock_hz(bus_hz)
    }

    /// Gives back the bus handle and the chip-select line.
    pub fn release(self) -> (r: (S, P))
        ensures
            r.0 == self.spi_spec(),
            r.1 == self.cs_spec(),
    {
        (self.spi, self.cs)
    }

    /// The liveness probe: a fixed-value read that stands in for the sensor's
    /// position read until a framing layer exists.
    pub fn read() -> (r: Result<u8, BusError>)
        ensures
            r == Ok::<u8, BusError>(1),
    {
        Ok(1)
    }
}

} // verus!
