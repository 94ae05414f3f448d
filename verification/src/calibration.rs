use vstd::prelude::*;
use vstd::arithmetic::div_mod::{lemma_div_is_ordered, lemma_div_pos_is_pos, lemma_multiply_divide_lt};
use crate::config::CalibrationConfig;

verus! {

/// The calibrated moisture percentage of a raw sample: 0 at or above the dry
/// reference, 100 at or below the wet reference, and linear (with integer
/// truncation toward zero) in between.
pub open spec fn spec_moisture_percent(raw: u16, cfg: CalibrationConfig) -> int
    recommends
        cfg.wf(),
{
    if raw >= cfg.dry_reference {
        0
    } else if raw <= cfg.wet_reference {
        100
    } else {
        (cfg.dry_reference - raw) * 100 / (cfg.dry_reference - cfg.wet_reference)
    }
}

/// Any raw sample at or below the wet reference reads as fully wet.
pub proof fn lemma_wet_raw_is_full(raw: u16, cfg: CalibrationConfig)
    requires
        cfg.wf(),
        raw <= cfg.wet_reference,
    ensures
        spec_moisture_percent(raw, cfg) == 100,
{
}

/// Any raw sample at or above the dry reference reads as fully dry.
pub proof fn lemma_dry_raw_is_zero(raw: u16, cfg: CalibrationConfig)
    requires
        cfg.wf(),
        raw >= cfg.dry_reference,
    ensures
        spec_moisture_percent(raw, cfg) == 0,
{
}

/// The percentage is always within `[0, 100]`, for every raw sample.
pub proof fn lemma_percent_in_range(raw: u16, cfg: CalibrationConfig)
    requires
        cfg.wf(),
    ensures
        0 <= spec_moisture_percent(raw, cfg) <= 100,
{
    if raw < cfg.dry_reference && raw > cfg.wet_reference {
        let offset: int = cfg.dry_reference - raw;
        let range: int = cfg.dry_reference - cfg.wet_reference;
        lemma_div_pos_is_pos(offset * 100, range);
        lemma_multiply_divide_lt(offset * 100, range, 100);
    }
}

/// Within the calibration window the mapping is antitone: a higher (drier)
/// raw sample never yields a higher percentage.
pub proof fn lemma_percent_antitone(raw1: u16, raw2: u16, cfg: CalibrationConfig)
    requires
        cfg.wf(),
        cfg.wet_reference < raw1,
        raw1 < raw2,
        raw2 < cfg.dry_reference,
    ensures
        spec_moisture_percent(raw1, cfg) >= spec_moisture_percent(raw2, cfg),
{
    let range: int = cfg.dry_reference - cfg.wet_reference;
    lemma_div_is_ordered((cfg.dry_reference - raw2) * 100, (cfg.dry_reference - raw1) * 100, range);
}

/// Convert a raw analog reading to a moisture percentage, using the
/// calibration endpoints. Total and free of overflow: the intermediate
/// product is computed in 32 bits.
pub fn raw_to_moisture_percent(raw: u16, cfg: &CalibrationConfig) -> (percent: u8)
    requires
        cfg.wf(),
    ensures
        percent as int == spec_moisture_percent(raw, *cfg),
        percent <= 100,
{
    let computed: u8 = if raw >= cfg.dry_reference {
        0
    } else if raw <= cfg.wet_reference {
        100
    } else {
        let range: u32 = (cfg.dry_reference - cfg.wet_reference) as u32;
        let offset: u32 = (cfg.dry_reference - raw) as u32;
        let scaled: u32 = offset * 100 / range;
        proof {
            lemma_div_pos_is_pos(offset as int * 100, range as int);
            lemma_multiply_divide_lt(offset as int * 100, range as int, 100);
        }
        scaled as u8
    };
    // Defensive clamp; the branches above already guarantee the range.
    if computed > 100 {
        100
    } else {
        computed
    }
}

} // verus!
