//! Decision logic of a two-sensor monitor: the event codes and their log,
//! the persistent event log kept in EEPROM, sensor health, the alarm state
//! machine that drives the main loop, and the buzzer sound patterns.

pub mod log;
pub mod alarm;
pub mod sensor;
pub mod program;
