//! Bring-up sequencing for a Wi-Fi radio module and a register-level driver
//! for a MAX30100 pulse-oximetry sensor.

pub mod bringup;
pub mod max30100;
