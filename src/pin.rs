//! Digital output lines: electrical levels and the toggle capability.

use vstd::prelude::*;

verus! {

/// Electrical level of a digital line.
#[derive(Clone, Copy, Debug, PartialEq, Eq, Structural)]
pub enum Level {
    Low,
    High,
}

/// The opposite level.
pub open spec fn flipped(l: Level) -> Level {
    match l {
        Level::Low => Level::High,
        Level::High => Level::Low,
    }
}

/// Level of a line that started at `start` after `n` toggles.
pub open spec fn level_after(start: Level, n: nat) -> Level
    decreases n,
{
    if n == 0 {
        start
    } else {
        flipped(level_after(start, (n - 1) as nat))
    }
}

/// A line that can read back and drive its own level, configured as an output.
///
/// `toggle` is written once here for every such line: hardware pins and
/// simulated ones alike.
pub trait ToggleableOutputPin {
    /// The level the line is driven to.
    spec fn level(&self) -> Level;

    /// Whether the line is configured as a push-pull output.
    spec fn is_output(&self) -> bool;

    /// Whether the line's output speed is at its fastest setting.
    spec fn is_fast(&self) -> bool;

    fn is_high(&self) -> (r: bool)
        ensures
            r == (self.level() == Level::High),
    ;

    fn set_low(&mut self)
        ensures
            final(self).level() == Level::Low,
            final(self).is_output() == old(self).is_output(),
            final(self).is_fast() == old(self).is_fast(),
    ;

    fn set_high(&mut self)
        ensures
            final(self).level() == Level::High,
            final(self).is_output() == old(self).is_output(),
            final(self).is_fast() == old(self).is_fast(),
    ;

    /// Configures the line as a push-pull output; the level is kept.
    fn make_output(&mut self)
        ensures
            final(self).is_output(),
            final(self).level() == old(self).level(),
            final(self).is_fast() == old(self).is_fast(),
    ;

    /// Raises the output speed to its fastest setting; the level is kept.
    fn set_speed_fast(&mut self)
        ensures
            final(self).is_fast(),
            final(self).level() == old(self).level(),
            final(self).is_output() == old(self).is_output(),
    ;

    /// Reads the level and drives the opposite one. Never fails.
    fn toggle(&mut self) -> (r: Result<(), core::convert::Infallible>)
        ensures
            r is Ok,
            final(self).level() == flipped(old(self).level()),
            final(self).is_output() == old(self).is_output(),
            final(self).is_fast() == old(self).is_fast(),
    {
        if self.is_high() {
            self.set_low();
        } else {
            self.set_high();
        }
        Ok(())
    }
}

/// A line held in memory: it stands for a GPIO pin where no hardware is
/// attached.
#[derive(Clone, Copy, Debug, PartialEq, Eq, Structural)]
pub struct SimPin {
    level: Level,
    output: bool,
    fast: bool,
}

impl SimPin {
    /// A line at `level`, not yet configured as an output, at the slow speed.
    pub fn new(level: Level) -> (r: SimPin)
        ensures
            r.level() == level,
            !r.is_output(),
            !r.is_fast(),
    {
        SimPin { level, output: false, fast: false }
    }

    pub fn current_level(&self) -> (r: Level)
        ensures
            r == self.level(),
    {
        self.level
    }

    pub fn output_enabled(&self) -> (r: bool)
        ensures
            r == self.is_output(),
    {
        self.output
    }

    pub fn fast_speed(&self) -> (r: bool)
        ensures
            r == self.is_fast(),
    {
        self.fast
    }
}

impl ToggleableOutputPin for SimPin {
    closed spec fn level(&self) -> Level {
        self.level
    }

    closed spec fn is_output(&self) -> bool {
        self.output
    }

    closed spec fn is_fast(&self) -> bool {
        self.fast
    }

    fn is_high(&self) -> (r: bool) {
        self.level == Level::High
    }

    fn set_low(&mut self) {
        self.level = Level::Low;
    }

    fn set_high(&mut self) {
        self.level = Level::High;
    }

    fn make_output(&mut self) {
        self.output = true;
    }

    fn set_speed_fast(&mut self) {
        self.fast = true;
    }
}

/// Prepares the heartbeat line once, before the loop: output mode, a known
/// low level, fastest output speed.
pub fn init_heartbeat<P: ToggleableOutputPin>(pin: &mut P)
    ensures
        final(pin).is_output(),
        final(pin).level() == Level::Low,
        final(pin).is_fast(),
{
    pin.make_output();
    pin.set_low();
    pin.set_speed_fast();
}

/// Toggles `pin` `n` times.
pub fn toggle_times<P: ToggleableOutputPin>(pin: &mut P, n: u64)
    ensures
        final(pin).level() == level_after(old(pin).level(), n as nat),
        final(pin).is_output() == old(pin).is_output(),
        final(pin).is_fast() == old(pin).is_fast(),
{
    let mut i: u64 = 0;
    while i < n
        invariant
            i <= n,
            pin.level() == level_after(old(pin).level(), i as nat),
            pin.is_output() == old(pin).is_output(),
            pin.is_fast() == old(pin).is_fast(),
        decreases n - i,
    {
        let _ = pin.toggle();
        i = i + 1;
    }
}

/// A line that starts low is low after an even number of toggles and high
/// after an odd number; two toggles in a row give back the level they started
/// from.
pub proof fn toggle_parity(start: Level, n: nat)
    ensures
        level_after(Level::Low, n) == (if n % 2 == 0 { Level::Low } else { Level::High }),
        level_after(start, n + 2) == level_after(start, n),
    decreases n,
{
    if n > 0 {
        toggle_parity(start, (n - 1) as nat);
    }
    assert(level_after(start, n + 1) == flipped(level_after(start, n)));
    assert(level_after(start, n + 2) == flipped(level_after(start, n + 1)));
}

} // verus!
