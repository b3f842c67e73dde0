//! Data types shared between the firmware and the host side.

pub mod calibration;
pub mod dma;
pub mod faults;
pub mod health;
pub mod packet;
pub mod protocol;
pub mod telemetry;

pub use calibration::{AcquisitionConfig, AdcCalibration};
pub use dma::DmaBuf;
pub use faults::{FaultCommand, FaultConfig, FaultInjector, FaultResult, FaultType, Protocol};
pub use health::{HealthError, HealthStatus};
pub use packet::{ChannelId, Sample, SamplePacket, SAMPLES_PER_PACKET};
pub use protocol::{Command, Response};
pub use telemetry::{TelemetryBus, TelemetryChannel, TelemetryFrame, TelemetryReader};
