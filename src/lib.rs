//! Inert-gas uptake and elimination in tissue compartments during a dive.
//!
//! All quantities are exact fixed-point integers:
//! gas fractions in units of 1/10 000, ambient pressure in 10^-4 atm,
//! partial pressures in 10^-8 atm, half-times in 10^-4 minutes, depths in
//! centimetres and exposure in seconds (profiles are given in minutes).
pub mod algorithm;
pub mod dsat;
pub mod gas;
pub mod kinetics;
pub mod profile;
pub mod recipe;
pub mod runner;
pub mod tables;
pub mod tissue;
pub mod utils;
pub mod zhl16;
