use soil_control::classify::PumpAction;
use soil_control::config::{CalibrationConfig, ConfigError, ControllerConfig, ThresholdConfig};
use soil_control::control::{run_finite, ControlLoop, LoopState};
use soil_control::sensor::{MockSoilSensor, Regime, SensorError};

fn reference_config(cycle_limit: Option<usize>) -> ControllerConfig {
    ControllerConfig {
        calibration: CalibrationConfig { dry_reference: 3000, wet_reference: 1200 },
        thresholds: ThresholdConfig { low: 25, high: 75 },
        reading_interval_ms: 2000,
        cycle_limit,
        calibration_mode: false,
    }
}

#[test]
fn inverted_calibration_window_is_refused() {
    let mut config = reference_config(Some(1));
    config.calibration = CalibrationConfig { dry_reference: 1200, wet_reference: 3000 };
    assert_eq!(ControlLoop::new(config).err(), Some(ConfigError::InvalidConfiguration));
    config.calibration = CalibrationConfig { dry_reference: 1200, wet_reference: 1200 };
    assert_eq!(ControlLoop::new(config).err(), Some(ConfigError::InvalidConfiguration));
}

#[test]
fn inverted_thresholds_are_refused() {
    let mut config = reference_config(Some(1));
    config.thresholds = ThresholdConfig { low: 75, high: 25 };
    assert_eq!(ControlLoop::new(config).err(), Some(ConfigError::InvalidConfiguration));
    config.thresholds = ThresholdConfig { low: 50, high: 50 };
    assert_eq!(ControlLoop::new(config).err(), Some(ConfigError::InvalidConfiguration));
}

#[test]
fn valid_configuration_starts_in_starting() {
    let lp = ControlLoop::new(reference_config(Some(3))).unwrap();
    assert_eq!(lp.state, LoopState::Starting);
    assert_eq!(lp.cycles_done, 0);
}

#[test]
fn successful_reading_yields_the_cycle_record() {
    let mut lp = ControlLoop::new(reference_config(Some(3))).unwrap();
    lp.begin_sampling();
    assert_eq!(lp.state, LoopState::Sampling);
    let record = lp.process_reading(Ok(2100)).unwrap();
    assert_eq!(record.raw, 2100);
    assert_eq!(record.percent, 50);
    assert!(!record.command.indicator_on);
    assert_eq!(record.command.pump_action, PumpAction::NoChange);
    assert_eq!(lp.state, LoopState::Sleeping);
    assert_eq!(lp.cycles_done, 1);
}

#[test]
fn failed_reading_is_passed_through_and_the_cycle_counts() {
    let mut lp = ControlLoop::new(reference_config(Some(3))).unwrap();
    lp.begin_sampling();
    let record = lp.process_reading(Err(SensorError::ReadFailure));
    assert_eq!(record, Err(SensorError::ReadFailure));
    assert_eq!(lp.state, LoopState::Sleeping);
    assert_eq!(lp.cycles_done, 1);
    // The loop is not stopped by the failure: the next cycle proceeds.
    lp.advance_after_sleep();
    assert_eq!(lp.state, LoopState::Sampling);
}

#[test]
fn finite_mode_stops_at_the_cycle_limit() {
    let mut lp = ControlLoop::new(reference_config(Some(2))).unwrap();
    lp.begin_sampling();
    lp.process_reading(Ok(2100)).unwrap();
    lp.advance_after_sleep();
    assert_eq!(lp.state, LoopState::Sampling);
    lp.process_reading(Ok(2100)).unwrap();
    lp.advance_after_sleep();
    assert_eq!(lp.state, LoopState::Stopped);
    assert_eq!(lp.cycles_done, 2);
}

#[test]
fn continuous_mode_never_stops() {
    let mut lp = ControlLoop::new(reference_config(None)).unwrap();
    lp.begin_sampling();
    let mut i: u32 = 0;
    while i < 100 {
        lp.process_reading(Ok(2100)).unwrap();
        lp.advance_after_sleep();
        assert_eq!(lp.state, LoopState::Sampling);
        i += 1;
    }
    assert_eq!(lp.cycles_done, 100);
}

#[test]
fn zero_cycle_run_stops_immediately() {
    let mut sensor = MockSoilSensor::new(9);
    let (lp, commands) = run_finite(&mut sensor, reference_config(Some(0))).unwrap();
    assert_eq!(lp.state, LoopState::Stopped);
    assert_eq!(commands.len(), 0);
}

#[test]
fn finite_run_emits_exactly_one_command_per_cycle() {
    let mut sensor = MockSoilSensor::new(31);
    let (lp, commands) = run_finite(&mut sensor, reference_config(Some(7))).unwrap();
    assert_eq!(lp.state, LoopState::Stopped);
    assert_eq!(lp.cycles_done, 7);
    assert_eq!(commands.len(), 7);
}

#[test]
fn finite_run_refuses_an_invalid_configuration() {
    let mut config = reference_config(Some(4));
    config.thresholds = ThresholdConfig { low: 90, high: 10 };
    let mut sensor = MockSoilSensor::new(31);
    assert_eq!(run_finite(&mut sensor, config).err(), Some(ConfigError::InvalidConfiguration));
}

#[test]
fn finite_run_in_the_wet_regime_deactivates_the_pump() {
    let mut sensor = MockSoilSensor::new(77);
    sensor.set_soil_condition(Regime::Wet);
    let (_, commands) = run_finite(&mut sensor, reference_config(Some(10))).unwrap();
    assert_eq!(commands.len(), 10);
    for command in commands {
        assert!(!command.indicator_on);
        assert_eq!(command.pump_action, PumpAction::Deactivate);
    }
}

#[test]
fn finite_run_matches_the_stepped_loop() {
    let config = reference_config(Some(5));
    let mut sensor_a = MockSoilSensor::new(4242);
    let (_, commands) = run_finite(&mut sensor_a, config).unwrap();

    let mut sensor_b = MockSoilSensor::new(4242);
    let mut lp = ControlLoop::new(config).unwrap();
    lp.begin_sampling();
    let mut stepped: Vec<soil_control::classify::ActuatorCommand> = Vec::new();
    while lp.state == LoopState::Sampling {
        let reading = sensor_b.read_averaged(5);
        let record = lp.process_reading(reading).unwrap();
        stepped.push(record.command);
        lp.advance_after_sleep();
    }
    assert_eq!(stepped, commands);
    assert_eq!(lp.state, LoopState::Stopped);
}
