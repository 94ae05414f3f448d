//! Sensor-to-actuation decision pipeline for an automated plant-watering
//! controller: calibrated analog-to-percentage conversion, condition
//! classification, a simulated sensor source, and the periodic control loop.

pub mod calibration;
pub mod classify;
pub mod config;
pub mod control;
pub mod sensor;
