//! Verified core of a mixed-signal data-acquisition firmware: sample packets,
//! calibration, health reporting, telemetry conversion and protocol fault
//! injection for SPI, I2C, UART, CAN and 1-Wire buses.

pub mod shared;
pub mod analog;
pub mod fault;
pub mod health;
pub mod telemetry;
pub mod transport;
