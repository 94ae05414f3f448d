use soil_control::calibration::raw_to_moisture_percent;
use soil_control::config::CalibrationConfig;

fn reference_config() -> CalibrationConfig {
    CalibrationConfig { dry_reference: 3000, wet_reference: 1200 }
}

#[test]
fn dry_reference_reads_zero() {
    let cfg = reference_config();
    assert_eq!(raw_to_moisture_percent(3000, &cfg), 0);
}

#[test]
fn wet_reference_reads_full() {
    let cfg = reference_config();
    assert_eq!(raw_to_moisture_percent(1200, &cfg), 100);
}

#[test]
fn midpoint_reads_half() {
    let cfg = reference_config();
    assert_eq!(raw_to_moisture_percent(2100, &cfg), 50);
}

#[test]
fn below_wet_reference_saturates_at_full() {
    let cfg = reference_config();
    assert_eq!(raw_to_moisture_percent(500, &cfg), 100);
    assert_eq!(raw_to_moisture_percent(0, &cfg), 100);
}

#[test]
fn above_dry_reference_saturates_at_zero() {
    let cfg = reference_config();
    assert_eq!(raw_to_moisture_percent(4095, &cfg), 0);
    assert_eq!(raw_to_moisture_percent(u16::MAX, &cfg), 0);
}

#[test]
fn interpolation_truncates_toward_zero() {
    let cfg = reference_config();
    // (3000 - 2999) * 100 / 1800 == 0, (3000 - 1201) * 100 / 1800 == 99
    assert_eq!(raw_to_moisture_percent(2999, &cfg), 0);
    assert_eq!(raw_to_moisture_percent(1201, &cfg), 99);
}

#[test]
fn quartile_points_match_formula() {
    let cfg = reference_config();
    // (3000 - 2550) * 100 / 1800 == 25, (3000 - 1650) * 100 / 1800 == 75
    assert_eq!(raw_to_moisture_percent(2550, &cfg), 25);
    assert_eq!(raw_to_moisture_percent(1650, &cfg), 75);
}

#[test]
fn drier_sample_never_reads_wetter() {
    let cfg = reference_config();
    let mut previous: u8 = 100;
    let mut raw: u16 = 1200;
    while raw <= 3000 {
        let percent: u8 = raw_to_moisture_percent(raw, &cfg);
        assert!(percent <= previous);
        previous = percent;
        raw += 60;
    }
}

#[test]
fn every_input_stays_in_percent_range() {
    let cfg = CalibrationConfig { dry_reference: 4000, wet_reference: 1 };
    let mut raw: u16 = 0;
    loop {
        let percent: u8 = raw_to_moisture_percent(raw, &cfg);
        assert!(percent <= 100);
        if raw == u16::MAX {
            break;
        }
        raw += 1;
    }
}

#[test]
fn other_calibration_window_interpolates() {
    let cfg = CalibrationConfig { dry_reference: 4000, wet_reference: 1000 };
    assert_eq!(raw_to_moisture_percent(2500, &cfg), 50);
    assert_eq!(raw_to_moisture_percent(4000, &cfg), 0);
    assert_eq!(raw_to_moisture_percent(1000, &cfg), 100);
}
