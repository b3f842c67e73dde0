use vstd::prelude::*;

verus! {

/// Bus protocol a fault configuration targets.
#[derive(Debug, Clone, Copy, PartialEq, Eq, Structural)]
pub enum Protocol {
    Spi,
    I2c,
    Uart,
    Can,
    OneWire,
}

/// Kind of fault to inject.
#[derive(Debug, Clone, Copy, PartialEq, Eq, Structural)]
pub enum FaultType {
    BitFlip,
    StuckAtZero,
    StuckAtOne,
    BitDelay,
    ClockGlitch,
    Timeout,
    CrcCorrupt,
    NackInjection,
    BusLockup,
    ParityError,
    FrameCorrupt,
    Overrun,
}

/// Target bit value meaning "no fixed bit: pick one pseudo-randomly".
pub const RANDOM_BIT: u8 = 0xFF;

/// Probability (per mille) at or above which a fault is injected every time.
pub const ALWAYS_PERMILLE: u16 = 1000;

/// Default duration of delay-style faults, in microseconds.
pub const DEFAULT_DURATION_US: u32 = 100;

/// Description of one fault: where, what, which bit, how often, how long.
#[derive(Debug, Clone, Copy, PartialEq, Eq, Structural)]
pub struct FaultConfig {
    pub protocol: Protocol,
    pub fault_type: FaultType,
    pub target_bit: u8,
    pub probability_permille: u16,
    pub duration_us: u32,
}

impl FaultConfig {
    /// A configuration that always injects `fault_type` on `protocol`, on a
    /// pseudo-randomly chosen bit, with the default duration.
    #[verifier::allow_in_spec]
    pub fn new(protocol: Protocol, fault_type: FaultType) -> FaultConfig
        returns
            (FaultConfig {
                protocol,
                fault_type,
                target_bit: RANDOM_BIT,
                probability_permille: ALWAYS_PERMILLE,
                duration_us: DEFAULT_DURATION_US,
            }),
    {
        FaultConfig {
            protocol,
            fault_type,
            target_bit: RANDOM_BIT,
            probability_permille: ALWAYS_PERMILLE,
            duration_us: DEFAULT_DURATION_US,
        }
    }

    /// The same configuration, aimed at bit `bit`.
    #[verifier::allow_in_spec]
    pub fn at_bit(self, bit: u8) -> FaultConfig
        returns
            (FaultConfig { target_bit: bit, ..self }),
    {
        FaultConfig { target_bit: bit, ..self }
    }

    /// The same configuration, injecting with probability `permille` / 1000.
    #[verifier::allow_in_spec]
    pub fn probability(self, permille: u16) -> FaultConfig
        returns
            (FaultConfig { probability_permille: permille, ..self }),
    {
        FaultConfig { probability_permille: permille, ..self }
    }
}

/// Command understood by the fault engine.
#[derive(Debug, Clone, Copy, PartialEq, Eq, Structural)]
pub enum FaultCommand {
    Arm,
    Disarm,
    Fire,
    Status,
    Reset,
}

impl FaultCommand {
    /// Decodes a command byte received on the control line: 0x01 to 0x05 are
    /// Arm, Disarm, Fire, Status and Reset; any other byte is no command.
    pub fn from_byte(b: u8) -> (r: Option<FaultCommand>)
        ensures
            r == spec_command_from_byte(b),
    {
        match b {
            0x01 => Some(FaultCommand::Arm),
            0x02 => Some(FaultCommand::Disarm),
            0x03 => Some(FaultCommand::Fire),
            0x04 => Some(FaultCommand::Status),
            0x05 => Some(FaultCommand::Reset),
            _ => None,
        }
    }
}

pub open spec fn spec_command_from_byte(b: u8) -> Option<FaultCommand> {
    if b == 0x01 {
        Some(FaultCommand::Arm)
    } else if b == 0x02 {
        Some(FaultCommand::Disarm)
    } else if b == 0x03 {
        Some(FaultCommand::Fire)
    } else if b == 0x04 {
        Some(FaultCommand::Status)
    } else if b == 0x05 {
        Some(FaultCommand::Reset)
    } else {
        None
    }
}

/// Answer of the fault engine to a command.
#[derive(Debug, Clone, Copy, PartialEq, Eq, Structural)]
pub enum FaultResult {
    Armed,
    Disarmed,
    Fired,
    Completed,
    Error,
}

pub open spec fn spec_result_code(r: FaultResult) -> u8 {
    match r {
        FaultResult::Armed => 0,
        FaultResult::Disarmed => 1,
        FaultResult::Fired => 2,
        FaultResult::Completed => 3,
        FaultResult::Error => 4,
    }
}

impl FaultResult {
    /// The byte sent back on the control line for this result: its position
    /// in declaration order.
    pub fn code(&self) -> (r: u8)
        ensures
            r == spec_result_code(*self),
    {
        match self {
            FaultResult::Armed => 0,
            FaultResult::Disarmed => 1,
            FaultResult::Fired => 2,
            FaultResult::Completed => 3,
            FaultResult::Error => 4,
        }
    }
}

/// A fault injector for bus type `B`: configured, armed, fired against a bus
/// transaction, and counting the faults it injected.
pub trait FaultInjector<'d, B> {
    type Error;

    /// Whether `fire` can run on this injector without its fault counter
    /// overflowing.
    spec fn can_fire(&self) -> bool;

    fn configure(&mut self, config: &FaultConfig) -> Result<(), Self::Error>;

    fn arm(&mut self) -> Result<(), Self::Error>;

    fn disarm(&mut self) -> Result<(), Self::Error>;

    fn fire(&mut self, bus: &mut B) -> Result<FaultResult, Self::Error>
        requires
            old(self).can_fire(),
    ;

    fn is_armed(&self) -> bool;

    fn injected_count(&self) -> u32;

    fn reset_stats(&mut self);
}

/// Exactly the bytes 1 to 5 decode to a command, and no two bytes decode to
/// the same command.
pub proof fn lemma_command_bytes(a: u8, b: u8)
    ensures
        spec_command_from_byte(a) is Some <==> 1 <= a <= 5,
        spec_command_from_byte(a) is Some && spec_command_from_byte(a) == spec_command_from_byte(b) ==> a == b,
{
}

/// Result codes are the numbers 0 to 4, one per result.
pub proof fn lemma_result_codes(x: FaultResult, y: FaultResult)
    ensures
        spec_result_code(x) < 5,
        spec_result_code(x) == spec_result_code(y) ==> x == y,
{
}

} // verus!
