//! Decoder for a single-wire, self-clocked humidity and temperature sensor.
//!
//! The host resets the sensor by pulsing the signal line, then times the
//! level changes of the sensor's answer to recover forty bits: four data
//! bytes and their checksum. This crate holds the protocol as a state machine
//! that tells its driver which line or delay operation comes next, the
//! packing and validation of the captured bits, and the conversion of a
//! validated frame into a temperature and humidity reading.

pub mod bits;
pub mod capture;
pub mod decoder;
pub mod frame;
pub mod line;
pub mod reading;
pub mod schedule;
pub mod timing;
