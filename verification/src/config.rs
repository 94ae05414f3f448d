use vstd::prelude::*;

verus! {

/// Calibration endpoints for the analog moisture channel. A higher raw value
/// means drier soil, so the dry reference lies strictly above the wet one.
#[derive(Clone, Copy, Debug, PartialEq, Eq, Structural)]
pub struct CalibrationConfig {
    pub dry_reference: u16,
    pub wet_reference: u16,
}

impl CalibrationConfig {
    /// The configuration invariant: the dry endpoint strictly exceeds the wet
    /// endpoint, so the calibration window is non-empty.
    pub open spec fn wf(self) -> bool {
        self.dry_reference > self.wet_reference
    }
}

/// Thresholds, in percent, separating the dry, optimal and wet conditions.
#[derive(Clone, Copy, Debug, PartialEq, Eq, Structural)]
pub struct ThresholdConfig {
    pub low: u8,
    pub high: u8,
}

impl ThresholdConfig {
    /// The configuration invariant: the low threshold lies strictly below the
    /// high one.
    pub open spec fn wf(self) -> bool {
        self.low < self.high
    }
}

/// Everything the control loop is configured with at construction.
#[derive(Clone, Copy, Debug)]
pub struct ControllerConfig {
    pub calibration: CalibrationConfig,
    pub thresholds: ThresholdConfig,
    /// Milliseconds between cycles; the caller sleeps for this long.
    pub reading_interval_ms: u64,
    /// `Some(n)`: stop after `n` cycles; `None`: run forever.
    pub cycle_limit: Option<usize>,
    /// Advisory only: when set, the caller additionally prints calibration
    /// guidance. It has no effect on any computed value.
    pub calibration_mode: bool,
}

impl ControllerConfig {
    pub open spec fn wf(self) -> bool {
        self.calibration.wf() && self.thresholds.wf()
    }
}

/// A configuration rejected at construction time: an inverted calibration
/// window or inverted thresholds.
#[derive(Clone, Copy, Debug, PartialEq, Eq, Structural)]
pub enum ConfigError {
    InvalidConfiguration,
}

} // verus!
