use aksim2::bus::{Aksim2, BaudDivisor, BusConfig, BusError, BusMode, ClockPhase, ClockPolarity};
use aksim2::clock::{configure, delay_source, speed_outcome, ClockError, DelaySource, DEFAULT_CLOCK_HZ};
use aksim2::pin::{init_heartbeat, toggle_times, Level, SimPin, ToggleableOutputPin};
use aksim2::startup::{Action, Event, LoopStep, Phase, Startup, HEARTBEAT_HALF_PERIOD_MS};
use stm32_hal2::clocks::RccError;

fn heartbeat_line() -> SimPin {
    let mut pin = SimPin::new(Level::High);
    init_heartbeat(&mut pin);
    pin
}

#[test]
fn toggle_parity_from_low() {
    for n in 0u64..9 {
        let mut pin = heartbeat_line();
        toggle_times(&mut pin, n);
        let expected = if n % 2 == 0 { Level::Low } else { Level::High };
        assert_eq!(pin.current_level(), expected);
    }
}

#[test]
fn double_toggle_restores_level() {
    let mut pin = SimPin::new(Level::High);
    assert!(pin.toggle().is_ok());
    assert_eq!(pin.current_level(), Level::Low);
    assert!(pin.toggle().is_ok());
    assert_eq!(pin.current_level(), Level::High);
}

#[test]
fn heartbeat_init_is_low_fast_output() {
    let pin = heartbeat_line();
    assert_eq!(pin.current_level(), Level::Low);
    assert!(pin.output_enabled());
    assert!(pin.fast_speed());
}

#[test]
fn default_clocks_configure_deterministically() {
    let first = configure().expect("default clock settings are valid");
    let second = configure().expect("default clock settings are valid");
    assert_eq!(first.tick_hz, 80_000_000);
    assert_eq!(first.bus_hz, 80_000_000);
    assert_eq!(DEFAULT_CLOCK_HZ, 80_000_000);
    assert!(first.clocks.hal().validate_speeds().is_ok());
    assert_eq!(first.clocks.hal().systick(), first.tick_hz);
    assert_eq!(first.tick_hz, second.tick_hz);
    assert_eq!(first.bus_hz, second.bus_hz);
}

#[test]
fn speed_check_failure_maps_to_clock_error() {
    let err = stm32_hal2::Error::RccError(RccError::Speed);
    assert_eq!(speed_outcome(Err(err)), Err(ClockError::SpeedRejected));
    assert_eq!(speed_outcome(Ok(())), Ok(()));
}

#[test]
fn delay_source_follows_applied_clocks() {
    assert_eq!(delay_source(Ok(()), 80_000_000), Ok(DelaySource { tick_hz: 80_000_000 }));
    assert_eq!(delay_source(Err(ClockError::SpeedRejected), 80_000_000), Err(ClockError::SpeedRejected));
}

#[test]
fn bus_session_deselects_sensor_on_creation() {
    let mut session = Aksim2::new(7u32, SimPin::new(Level::Low), BusConfig::sensor_default());
    assert_eq!(session.cs().current_level(), Level::High);
    assert!(session.cs().output_enabled());
    assert!(session.cs().fast_speed());
    assert_eq!(*session.spi(), 7);
    *session.spi_mut() += 1;
    assert_eq!(session.cs().current_level(), Level::High);
    let (spi, cs) = session.release();
    assert_eq!(spi, 8);
    assert_eq!(cs.current_level(), Level::High);
}

#[test]
fn probe_read_returns_fixed_value() {
    assert_eq!(Aksim2::<(), SimPin>::read(), Ok(1));
}

#[test]
fn mode3_divisor_32_clock() {
    let cfg = BusConfig::sensor_default();
    assert_eq!(cfg.mode, BusMode::mode3());
    assert_eq!(cfg.mode.polarity, ClockPolarity::IdleHigh);
    assert_eq!(cfg.mode.phase, ClockPhase::CaptureOnSecondTransition);
    assert_eq!(cfg.comm_clock_hz(80_000_000), 2_500_000);
    let other = BusConfig { mode: BusMode::mode0(), divisor: BaudDivisor::Div256 };
    assert_eq!(other.comm_clock_hz(80_000_000), 312_500);
    let session = Aksim2::new((), SimPin::new(Level::High), cfg);
    assert_eq!(session.config(), cfg);
    assert_eq!(session.comm_clock_hz(DEFAULT_CLOCK_HZ), 2_500_000);
    assert_eq!(BaudDivisor::Div2.value(), 2);
    assert_eq!(BaudDivisor::Div128.value(), 128);
}

/// Performs the machine's actions on a simulated pin and a delay that only
/// records what it was asked for, feeding back `clock` as the clock outcome.
fn simulate(clock: Result<DelaySource, ClockError>, steps: usize) -> (Startup, SimPin, Vec<Action>) {
    let mut machine = Startup::new();
    let mut pin = SimPin::new(Level::High);
    let mut trace = Vec::new();
    let mut event = Event::PowerOn;
    for _ in 0..steps {
        let action = machine.step(event);
        trace.push(action);
        event = match action {
            Action::ConfigureClocks => Event::ClockConfigured(clock),
            Action::InitPeripherals => {
                init_heartbeat(&mut pin);
                Event::PeripheralsInitialized
            }
            Action::ProbeSensor => Event::SensorProbed(Aksim2::<(), SimPin>::read()),
            Action::ToggleHeartbeat => {
                pin.toggle().unwrap();
                Event::Done
            }
            Action::Delay { .. } => Event::Done,
            Action::Halt => Event::Done,
        };
    }
    (machine, pin, trace)
}

#[test]
fn clock_failure_halts_before_loop() {
    let (machine, pin, trace) = simulate(Err(ClockError::SpeedRejected), 10);
    assert_eq!(machine.phase, Phase::Halted);
    assert!(!trace.contains(&Action::ToggleHeartbeat));
    assert!(!trace.contains(&Action::InitPeripherals));
    assert_eq!(trace[0], Action::ConfigureClocks);
    assert_eq!(trace[1], Action::Halt);
    assert_eq!(pin.current_level(), Level::High);
    assert!(!pin.output_enabled());
}

#[test]
fn loop_alternates_toggle_and_delay() {
    let delay = DelaySource { tick_hz: 80_000_000 };
    let iterations = 5;
    let (machine, pin, trace) = simulate(Ok(delay), 3 + 2 * iterations);
    assert_eq!(&trace[..3], &[Action::ConfigureClocks, Action::InitPeripherals, Action::ProbeSensor]);
    let looped = &trace[3..];
    let toggles = looped.iter().filter(|a| **a == Action::ToggleHeartbeat).count();
    assert_eq!(toggles, iterations);
    for (i, a) in looped.iter().enumerate() {
        if i % 2 == 0 {
            assert_eq!(*a, Action::ToggleHeartbeat);
        } else {
            assert_eq!(*a, Action::Delay { ms: HEARTBEAT_HALF_PERIOD_MS });
            assert_eq!(HEARTBEAT_HALF_PERIOD_MS, 1000);
        }
    }
    assert_eq!(pin.current_level(), Level::High);
    assert!(machine.sensor_responded);
    assert_eq!(machine.phase, Phase::Running { delay, next: LoopStep::Toggle });
}

#[test]
fn probe_failure_does_not_stop_heartbeat() {
    let mut machine = Startup::new();
    let events = vec![
        Event::PowerOn,
        Event::ClockConfigured(Ok(DelaySource { tick_hz: 1_000_000 })),
        Event::PeripheralsInitialized,
        Event::SensorProbed(Err(BusError::Transaction)),
        Event::Done,
    ];
    let actions = machine.run_events(&events);
    assert_eq!(
        actions,
        vec![
            Action::ConfigureClocks,
            Action::InitPeripherals,
            Action::ProbeSensor,
            Action::ToggleHeartbeat,
            Action::Delay { ms: 1000 },
        ]
    );
    assert!(!machine.sensor_responded);
}

#[test]
fn out_of_order_event_halts() {
    let mut machine = Startup::new();
    assert_eq!(machine.step(Event::Done), Action::Halt);
    assert_eq!(machine.phase, Phase::Halted);
    assert_eq!(machine.step(Event::PowerOn), Action::Halt);
    assert_eq!(machine.step(Event::ClockConfigured(Ok(DelaySource { tick_hz: 8 }))), Action::Halt);
}
