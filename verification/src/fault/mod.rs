//! Fault injection: bit manipulation, pseudo-random decisions, the command
//! engine, the per-protocol injectors and the framing of the bit-banged
//! control line.

pub mod bitbang;
pub mod bits;
pub mod can;
pub mod engine;
pub mod i2c;
pub mod inject;
pub mod lfsr_period;
pub mod onewire;
pub mod spi;
pub mod uart;

pub use bits::{bit_clear, bit_flip, bit_set, should_inject, Lfsr};
pub use can::{CanBus, CanFaultInjector};
pub use engine::FaultEngine;
pub use i2c::I2cFaultInjector;
pub use onewire::OneWireFaultInjector;
pub use spi::SpiFaultInjector;
pub use uart::{UartBus, UartFaultInjector};
