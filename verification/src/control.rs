use vstd::prelude::*;
use crate::calibration::{raw_to_moisture_percent, spec_moisture_percent};
use crate::classify::{
    derive_command, get_soil_condition, spec_classify, spec_command, ActuatorCommand,
    SoilCondition,
};
use crate::config::{ConfigError, ControllerConfig};
use crate::sensor::{spec_rng_nth, spec_sim_reading, MockSoilSensor, SensorError};

verus! {

/// How many samples each averaged read requests from the source.
pub const SAMPLES_PER_READ: usize = 5;

/// The control loop's phase.
#[derive(Clone, Copy, Debug, PartialEq, Eq, Structural)]
pub enum LoopState {
    Starting,
    Sampling,
    Sleeping,
    Stopped,
}

/// The structured record of one successful cycle, as handed to the log sink.
#[derive(Clone, Copy, Debug, PartialEq, Eq, Structural)]
pub struct CycleRecord {
    pub raw: u16,
    pub percent: u8,
    pub condition: SoilCondition,
    pub command: ActuatorCommand,
}

/// The record a cycle must produce for raw value `raw` under configuration
/// `cfg`: the calibrated percentage, its condition, and the actuation
/// decision derived from it.
pub open spec fn spec_cycle_record(raw: u16, cfg: ControllerConfig) -> CycleRecord
    recommends
        cfg.wf(),
{
    CycleRecord {
        raw,
        percent: spec_moisture_percent(raw, cfg.calibration) as u8,
        condition: spec_classify(spec_moisture_percent(raw, cfg.calibration), cfg.thresholds),
        command: spec_command(spec_moisture_percent(raw, cfg.calibration), cfg.thresholds),
    }
}

/// The periodic sampling controller: owns the configuration and tracks the
/// loop phase and how many cycles have completed. It decides; the caller
/// performs the reads, the sleeps and the emission of commands.
pub struct ControlLoop {
    pub config: ControllerConfig,
    pub state: LoopState,
    pub cycles_done: usize,
}

impl ControlLoop {
    pub open spec fn wf(self) -> bool {
        self.config.wf()
    }

    /// Construction validates the configuration: an inverted calibration
    /// window or inverted thresholds is refused and the loop never starts.
    pub fn new(config: ControllerConfig) -> (result: Result<ControlLoop, ConfigError>)
        ensures
            config.wf() <==> result is Ok,
            result matches Ok(lp) ==> lp.config == config && lp.state is Starting
                && lp.cycles_done == 0,
            result matches Err(e) ==> e == ConfigError::InvalidConfiguration,
    {
        if config.calibration.dry_reference > config.calibration.wet_reference
            && config.thresholds.low < config.thresholds.high {
            Ok(ControlLoop { config, state: LoopState::Starting, cycles_done: 0 })
        } else {
            Err(ConfigError::InvalidConfiguration)
        }
    }

    /// Leave the startup phase: begin sampling, or stop at once if the
    /// configured cycle limit is already met (a zero-cycle finite run). The
    /// startup blink sequence is cosmetic and is performed by the caller
    /// while the loop is still `Starting`.
    pub fn begin_sampling(&mut self)
        requires
            old(self).state is Starting,
        ensures
            final(self).config == old(self).config,
            final(self).cycles_done == old(self).cycles_done,
            final(self).state == (match old(self).config.cycle_limit {
                Some(limit) => if old(self).cycles_done >= limit {
                    LoopState::Stopped
                } else {
                    LoopState::Sampling
                },
                None => LoopState::Sampling,
            }),
    {
        match self.config.cycle_limit {
            Some(limit) => {
                if self.cycles_done >= limit {
                    self.state = LoopState::Stopped;
                } else {
                    self.state = LoopState::Sampling;
                }
            },
            None => {
                self.state = LoopState::Sampling;
            },
        }
    }

    /// One sampling step: turn the incoming read result into the cycle's
    /// record, or pass the sensor error through for the caller to log.
    /// Either way the cycle counts and the loop moves to its sleeping phase:
    /// a failed read is never fatal and is not retried within the cycle.
    pub fn process_reading(&mut self, reading: Result<u16, SensorError>) -> (record: Result<
        CycleRecord,
        SensorError,
    >)
        requires
            old(self).wf(),
            old(self).state is Sampling,
            old(self).cycles_done < usize::MAX,
        ensures
            final(self).state is Sleeping,
            final(self).config == old(self).config,
            final(self).cycles_done == old(self).cycles_done + 1,
            reading matches Ok(raw) ==> record == Ok::<CycleRecord, SensorError>(
                spec_cycle_record(raw, old(self).config),
            ),
            reading matches Err(e) ==> record == Err::<CycleRecord, SensorError>(e),
    {
        self.cycles_done = self.cycles_done + 1;
        self.state = LoopState::Sleeping;
        match reading {
            Ok(raw) => {
                let percent: u8 = raw_to_moisture_percent(raw, &self.config.calibration);
                let condition = get_soil_condition(percent, &self.config.thresholds);
                let command = derive_command(percent, &self.config.thresholds);
                Ok(CycleRecord { raw, percent, condition, command })
            },
            Err(e) => Err(e),
        }
    }

    /// Leave the sleeping phase: stop once a configured cycle limit is
    /// reached, otherwise sample again. Without a limit the loop never stops.
    pub fn advance_after_sleep(&mut self)
        requires
            old(self).state is Sleeping,
        ensures
            final(self).config == old(self).config,
            final(self).cycles_done == old(self).cycles_done,
            final(self).state == (match old(self).config.cycle_limit {
                Some(limit) => if old(self).cycles_done >= limit {
                    LoopState::Stopped
                } else {
                    LoopState::Sampling
                },
                None => LoopState::Sampling,
            }),
    {
        match self.config.cycle_limit {
            Some(limit) => {
                if self.cycles_done >= limit {
                    self.state = LoopState::Stopped;
                } else {
                    self.state = LoopState::Sampling;
                }
            },
            None => {
                self.state = LoopState::Sampling;
            },
        }
    }
}

/// Run the finite demonstration mode to completion against the simulated
/// source: with a cycle limit of `n`, exactly `n` cycles run, exactly `n`
/// actuator commands are produced — each the decision for the value the
/// source returned that cycle — and the loop ends `Stopped`.
pub fn run_finite(sensor: &mut MockSoilSensor, config: ControllerConfig) -> (result: Result<
    (ControlLoop, Vec<ActuatorCommand>),
    ConfigError,
>)
    requires
        old(sensor).wf(),
        config.cycle_limit is Some,
    ensures
        config.wf() <==> result is Ok,
        result is Err ==> *final(sensor) == *old(sensor),
        result matches Err(e) ==> e == ConfigError::InvalidConfiguration,
        result matches Ok(out) ==> (config.cycle_limit matches Some(n) ==> {
            &&& out.0.state is Stopped
            &&& out.0.config == config
            &&& out.0.cycles_done == n
            &&& out.1@.len() == n
            &&& forall|j: int|
                0 <= j < n as int ==> out.1@[j] == spec_command(
                    spec_moisture_percent(
                        spec_sim_reading(
                            old(sensor).base_value as int,
                            spec_rng_nth(old(sensor).rng_state as int, j as nat),
                        ) as u16,
                        config.calibration,
                    ),
                    config.thresholds,
                )
            &&& final(sensor).wf()
            &&& final(sensor).base_value == old(sensor).base_value
            &&& final(sensor).rng_state as int == spec_rng_nth(
                old(sensor).rng_state as int,
                n as nat,
            )
        }),
{
    let mut lp = match ControlLoop::new(config) {
        Ok(lp) => lp,
        Err(e) => {
            return Err(e);
        },
    };
    lp.begin_sampling();
    let n: usize = match config.cycle_limit {
        Some(limit) => limit,
        None => 0,  // unreachable: the precondition fixes a cycle limit
    };
    let ghost base: int = sensor.base_value as int;
    let ghost s0: int = sensor.rng_state as int;
    let mut commands: Vec<ActuatorCommand> = Vec::new();
    let mut i: usize = 0;
    while i < n
        invariant
            lp.wf(),
            lp.config == config,
            config.cycle_limit == Some(n),
            i <= n,
            lp.cycles_done == i,
            lp.state == (if i < n {
                LoopState::Sampling
            } else {
                LoopState::Stopped
            }),
            commands@.len() == i,
            sensor.wf(),
            sensor.base_value as int == base,
            sensor.rng_state as int == spec_rng_nth(s0, i as nat),
            forall|j: int|
                0 <= j < i as int ==> commands@[j] == spec_command(
                    spec_moisture_percent(
                        spec_sim_reading(base, spec_rng_nth(s0, j as nat)) as u16,
                        config.calibration,
                    ),
                    config.thresholds,
                ),
        decreases n - i,
    {
        let reading = sensor.read_averaged(SAMPLES_PER_READ);
        let record = lp.process_reading(reading);
        match record {
            Ok(rec) => {
                commands.push(rec.command);
            },
            Err(_) => {
                // unreachable: the simulated source always succeeds
                proof {
                    assert(false);
                }
            },
        }
        i = i + 1;
        lp.advance_after_sleep();
    }
    Ok((lp, commands))
}

} // verus!
