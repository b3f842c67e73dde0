use vstd::prelude::*;

verus! {

/// Cause of a failed self-test.
#[derive(Debug, Clone, Copy, PartialEq, Eq, Structural)]
pub enum HealthError {
    StackCanary,
    RamTest,
    FlashCRC,
    TimerNotTicking,
    ClockOutOfRange,
    ClockHclkNotRunning,
    AdcCalibration,
    I2cInitFailed,
    SpiInitFailed,
    UartInitFailed,
    DmaInitFailed,
}

/// Outcome of the power-on self-test.
#[derive(Debug, Clone, Copy, PartialEq, Eq, Structural)]
pub enum HealthStatus {
    Ready,
    Fail(HealthError),
}

/// Status line reported for a self-test outcome.
pub open spec fn status_line(s: HealthStatus) -> Seq<char> {
    match s {
        HealthStatus::Ready => "READY\n"@,
        HealthStatus::Fail(e) => match e {
            HealthError::AdcCalibration => "FAIL:adc\n"@,
            HealthError::TimerNotTicking => "FAIL:tim\n"@,
            HealthError::ClockOutOfRange => "FAIL:clk\n"@,
            HealthError::ClockHclkNotRunning => "FAIL:hclk\n"@,
            HealthError::StackCanary => "FAIL:stack\n"@,
            HealthError::RamTest => "FAIL:ram\n"@,
            HealthError::FlashCRC => "FAIL:flash\n"@,
            HealthError::I2cInitFailed => "FAIL:i2c\n"@,
            HealthError::SpiInitFailed => "FAIL:spi\n"@,
            HealthError::UartInitFailed => "FAIL:uart\n"@,
            HealthError::DmaInitFailed => "FAIL:dma\n"@,
        },
    }
}

impl HealthStatus {
    /// The status line sent to the host: "READY\n", or "FAIL:" and a short
    /// name of the failed check followed by a newline.
    pub fn as_str(&self) -> (r: &'static str)
        ensures
            r@ == status_line(*self),
    {
        match self {
            HealthStatus::Ready => "READY\n",
            HealthStatus::Fail(HealthError::AdcCalibration) => "FAIL:adc\n",
            HealthStatus::Fail(HealthError::TimerNotTicking) => "FAIL:tim\n",
            HealthStatus::Fail(HealthError::ClockOutOfRange) => "FAIL:clk\n",
            HealthStatus::Fail(HealthError::ClockHclkNotRunning) => "FAIL:hclk\n",
            HealthStatus::Fail(HealthError::StackCanary) => "FAIL:stack\n",
            HealthStatus::Fail(HealthError::RamTest) => "FAIL:ram\n",
            HealthStatus::Fail(HealthError::FlashCRC) => "FAIL:flash\n",
            HealthStatus::Fail(HealthError::I2cInitFailed) => "FAIL:i2c\n",
            HealthStatus::Fail(HealthError::SpiInitFailed) => "FAIL:spi\n",
            HealthStatus::Fail(HealthError::UartInitFailed) => "FAIL:uart\n",
            HealthStatus::Fail(HealthError::DmaInitFailed) => "FAIL:dma\n",
        }
    }
}

} // verus!
