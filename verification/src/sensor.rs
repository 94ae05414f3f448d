use vstd::prelude::*;

verus! {

/// A failed sensor read. Raised only by a hardware-backed source; the
/// simulated source never raises it.
#[derive(Clone, Copy, Debug, PartialEq, Eq, Structural)]
pub enum SensorError {
    ReadFailure,
}

/// A named baseline profile for the simulated source.
#[derive(Clone, Copy, Debug, PartialEq, Eq, Structural)]
pub enum Regime {
    Dry,
    Optimal,
    Wet,
    Default,
}

/// Multiplier of the Lehmer pseudo-random step.
pub const RNG_MULTIPLIER: u32 = 48271;

/// Modulus of the Lehmer pseudo-random step (a Mersenne prime).
pub const RNG_MODULUS: u32 = 0x7FFF_FFFF;

/// Half the width of the simulated noise band: a reading stays within this
/// distance of the baseline.
pub const NOISE_SPAN: u16 = 100;

/// One step of the simulated source's pseudo-random state.
pub open spec fn spec_rng_next(state: int) -> int {
    (state * (RNG_MULTIPLIER as int)) % (RNG_MODULUS as int)
}

/// The pseudo-random state after `k` steps from `state`.
pub open spec fn spec_rng_nth(state: int, k: nat) -> int
    decreases k,
{
    if k == 0 {
        state
    } else {
        spec_rng_next(spec_rng_nth(state, (k - 1) as nat))
    }
}

/// The noise offset drawn when stepping from state `state`:
/// always in `[0, 2 * NOISE_SPAN)`.
pub open spec fn spec_noise(state: int) -> int {
    spec_rng_next(state) % (2 * (NOISE_SPAN as int))
}

/// The raw value the simulated source returns from baseline `base` when its
/// pseudo-random state is `state`: the baseline shifted by a bounded,
/// deterministic noise term.
pub open spec fn spec_sim_reading(base: int, state: int) -> int {
    base - (NOISE_SPAN as int) + spec_noise(state)
}

/// The baseline constant of each simulated regime.
pub open spec fn spec_baseline(regime: Regime) -> int {
    match regime {
        Regime::Dry => 2800,
        Regime::Optimal => 2000,
        Regime::Wet => 1400,
        Regime::Default => 2400,
    }
}

/// Simulated soil-moisture source: a fixed baseline per regime plus a bounded
/// deterministic noise term drawn from a seeded pseudo-random state. Stands in
/// for a hardware ADC source so the pipeline can be exercised without one.
pub struct MockSoilSensor {
    pub base_value: u16,
    pub rng_state: u32,
}

impl MockSoilSensor {
    /// The source invariant: the baseline keeps a full noise band inside the
    /// `u16` range, so a reading can never wrap into a different calibration
    /// regime.
    pub open spec fn wf(self) -> bool {
        NOISE_SPAN <= self.base_value && self.base_value + NOISE_SPAN <= u16::MAX
    }

    /// A fresh simulated source at the default baseline, with an explicit
    /// seed so noise sequences are reproducible.
    pub fn new(seed: u32) -> (sensor: MockSoilSensor)
        ensures
            sensor.wf(),
            sensor.base_value as int == spec_baseline(Regime::Default),
            sensor.rng_state == seed,
    {
        MockSoilSensor { base_value: 2400, rng_state: seed }
    }

    /// One simulated averaged read: advance the pseudo-random state once and
    /// return the baseline shifted by the drawn noise. Always succeeds; the
    /// `Result` exists so a hardware-backed source can report failures
    /// without changing the control loop's contract. The `_samples` parameter
    /// is accepted for interface parity with an averaging driver and does not
    /// affect the simulated value.
    pub fn read_averaged(&mut self, _samples: usize) -> (reading: Result<u16, SensorError>)
        requires
            old(self).wf(),
        ensures
            final(self).wf(),
            final(self).base_value == old(self).base_value,
            final(self).rng_state as int == spec_rng_next(old(self).rng_state as int),
            reading == Ok::<u16, SensorError>(
                spec_sim_reading(old(self).base_value as int, old(self).rng_state as int) as u16,
            ),
            (reading matches Ok(value) && old(self).base_value - NOISE_SPAN <= value
                && value < old(self).base_value + NOISE_SPAN),
    {
        let next64: u64 = (self.rng_state as u64 * RNG_MULTIPLIER as u64) % (RNG_MODULUS as u64);
        let next: u32 = next64 as u32;
        self.rng_state = next;
        let noise: u16 = (next % (2 * NOISE_SPAN as u32)) as u16;
        let value: u16 = self.base_value - NOISE_SPAN + noise;
        Ok(value)
    }

    /// Move the baseline to the named regime's constant; the pseudo-random
    /// state is untouched. Used only by test and demonstration orchestration.
    pub fn set_soil_condition(&mut self, regime: Regime)
        ensures
            final(self).wf(),
            final(self).base_value as int == spec_baseline(regime),
            final(self).rng_state == old(self).rng_state,
    {
        self.base_value = match regime {
            Regime::Dry => 2800,
            Regime::Optimal => 2000,
            Regime::Wet => 1400,
            Regime::Default => 2400,
        };
    }
}

} // verus!
