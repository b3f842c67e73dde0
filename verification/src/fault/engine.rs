use vstd::prelude::*;

use crate::shared::faults::{
    spec_command_from_byte, spec_result_code, FaultCommand, FaultConfig, FaultResult, FaultType,
    Protocol,
};

verus! {

/// Abstract state of a fault engine.
pub struct EngineState {
    pub config: FaultConfig,
    pub armed: bool,
    pub fired: bool,
    pub fire_count: u32,
}

/// Command state machine of the fault injector: arm, disarm, fire, report,
/// reset. It drives no hardware.
pub struct FaultEngine {
    config: FaultConfig,
    armed: bool,
    fired: bool,
    fire_count: u32,
}

impl View for FaultEngine {
    type V = EngineState;

    closed spec fn view(&self) -> EngineState {
        EngineState {
            config: self.config,
            armed: self.armed,
            fired: self.fired,
            fire_count: self.fire_count,
        }
    }
}

/// State after `cmd` and the answer to it.
pub open spec fn engine_step(s: EngineState, cmd: FaultCommand) -> (EngineState, FaultResult) {
    match cmd {
        FaultCommand::Arm => (EngineState { armed: true, fired: false, fire_count: 0, ..s }, FaultResult::Armed),
        FaultCommand::Disarm => (EngineState { armed: false, ..s }, FaultResult::Disarmed),
        FaultCommand::Fire => if !s.armed {
            (s, FaultResult::Error)
        } else {
            (EngineState { fired: true, fire_count: (s.fire_count + 1) as u32, ..s }, FaultResult::Fired)
        },
        FaultCommand::Status => (s, if s.fired {
            FaultResult::Completed
        } else if s.armed {
            FaultResult::Armed
        } else {
            FaultResult::Disarmed
        }),
        FaultCommand::Reset => (EngineState { armed: false, fired: false, fire_count: 0, ..s }, FaultResult::Disarmed),
    }
}

/// Whether `cmd` can be handled in state `s` without the fire counter overflowing.
pub open spec fn can_handle(s: EngineState, cmd: FaultCommand) -> bool {
    cmd == FaultCommand::Fire && s.armed ==> s.fire_count < u32::MAX
}

impl FaultEngine {
    /// A disarmed engine with a bit-flip configuration on SPI.
    pub fn new() -> (r: FaultEngine)
        ensures
            r@ == (EngineState {
                config: FaultConfig::new(Protocol::Spi, FaultType::BitFlip),
                armed: false,
                fired: false,
                fire_count: 0,
            }),
    {
        FaultEngine {
            config: FaultConfig::new(Protocol::Spi, FaultType::BitFlip),
            armed: false,
            fired: false,
            fire_count: 0,
        }
    }

    /// The same engine with `config` in place of its configuration.
    pub fn with_config(self, config: FaultConfig) -> (r: FaultEngine)
        ensures
            r@ == (EngineState { config, ..self@ }),
    {
        let mut s = self;
        s.config = config;
        s
    }

    /// Handles one command and answers it.
    pub fn handle_command(&mut self, cmd: FaultCommand) -> (r: FaultResult)
        requires
            can_handle(old(self)@, cmd),
        ensures
            (final(self)@, r) == engine_step(old(self)@, cmd),
    {
        match cmd {
            FaultCommand::Arm => {
                self.armed = true;
                self.fired = false;
                self.fire_count = 0;
                FaultResult::Armed
            },
            FaultCommand::Disarm => {
                self.armed = false;
                FaultResult::Disarmed
            },
            FaultCommand::Fire => {
                if !self.armed {
                    return FaultResult::Error;
                }
                self.fired = true;
                self.fire_count += 1;
                FaultResult::Fired
            },
            FaultCommand::Status => {
                if self.fired {
                    FaultResult::Completed
                } else if self.armed {
                    FaultResult::Armed
                } else {
                    FaultResult::Disarmed
                }
            },
            FaultCommand::Reset => {
                self.armed = false;
                self.fired = false;
                self.fire_count = 0;
                FaultResult::Disarmed
            },
        }
    }

    /// Handles one byte of the control line: a command byte is handled and
    /// answered with its result code; any other byte is ignored (no change,
    /// no answer).
    pub fn handle_byte(&mut self, byte: u8) -> (r: Option<u8>)
        requires
            spec_command_from_byte(byte) matches Some(cmd) ==> can_handle(old(self)@, cmd),
        ensures
            match spec_command_from_byte(byte) {
                None => r is None && final(self)@ == old(self)@,
                Some(cmd) => r == Some(spec_result_code(engine_step(old(self)@, cmd).1))
                    && final(self)@ == engine_step(old(self)@, cmd).0,
            },
    {
        match FaultCommand::from_byte(byte) {
            None => None,
            Some(cmd) => {
                let res = self.handle_command(cmd);
                Some(res.code())
            },
        }
    }

    pub fn is_armed(&self) -> (r: bool)
        ensures
            r == self@.armed,
    {
        self.armed
    }

    /// Whether a fault is due: the engine is armed and has been fired.
    pub fn should_inject(&self) -> (r: bool)
        ensures
            r == (self@.armed && self@.fired),
    {
        self.armed && self.fired
    }

    pub fn config(&self) -> (r: &FaultConfig)
        ensures
            *r == self@.config,
    {
        &self.config
    }

    pub fn fire_count(&self) -> (r: u32)
        ensures
            r == self@.fire_count,
    {
        self.fire_count
    }

    /// Zeroes the fire counter and changes nothing else.
    pub fn reset_stats(&mut self)
        ensures
            final(self)@ == (EngineState { fire_count: 0, ..old(self)@ }),
    {
        self.fire_count = 0;
    }
}

/// Reset always disarms, forgets the firing and zeroes the counter, keeping
/// the configuration, and is answered Disarmed.
pub proof fn lemma_reset_clears(s: EngineState)
    ensures
        engine_step(s, FaultCommand::Reset) == (
            EngineState { config: s.config, armed: false, fired: false, fire_count: 0 },
            FaultResult::Disarmed,
        ),
        !(engine_step(s, FaultCommand::Reset).0.armed && engine_step(s, FaultCommand::Reset).0.fired),
{
}

/// Asking for the status never changes the engine, and the answer is
/// Completed once fired, else Armed when armed, else Disarmed.
pub proof fn lemma_status_is_pure(s: EngineState)
    ensures
        engine_step(s, FaultCommand::Status).0 == s,
        engine_step(s, FaultCommand::Status).1 == (if s.fired {
            FaultResult::Completed
        } else if s.armed {
            FaultResult::Armed
        } else {
            FaultResult::Disarmed
        }),
{
}

/// Firing a disarmed engine is refused with Error and changes nothing.
pub proof fn lemma_fire_needs_arming(s: EngineState)
    requires
        !s.armed,
    ensures
        engine_step(s, FaultCommand::Fire) == (s, FaultResult::Error),
{
}

/// From any state, Arm then Fire is answered Armed then Fired, leaves the
/// engine armed, fired (a fault is due) with a count of one.
pub proof fn lemma_arm_then_fire(s: EngineState)
    ensures
        ({
            let (a, ra) = engine_step(s, FaultCommand::Arm);
            let (f, rf) = engine_step(a, FaultCommand::Fire);
            &&& ra == FaultResult::Armed
            &&& rf == FaultResult::Fired
            &&& f.armed && f.fired
            &&& f.fire_count == 1
            &&& f.config == s.config
        }),
{
}

/// Each accepted Fire adds exactly one to the counter, and no other command
/// increases it.
pub proof fn lemma_fire_count_steps(s: EngineState, cmd: FaultCommand)
    requires
        can_handle(s, cmd),
    ensures
        engine_step(s, cmd).0.fire_count == (if cmd == FaultCommand::Fire && s.armed {
            s.fire_count + 1
        } else if cmd == FaultCommand::Arm || cmd == FaultCommand::Reset {
            0
        } else {
            s.fire_count as int
        }),
        engine_step(s, cmd).0.config == s.config,
{
}

/// State after handling `cmds` in order, starting from `s`.
pub open spec fn engine_run(s: EngineState, cmds: Seq<FaultCommand>) -> EngineState
    decreases cmds.len(),
{
    if cmds.len() == 0 {
        s
    } else {
        engine_step(engine_run(s, cmds.drop_last()), cmds.last()).0
    }
}

/// Whether each command of `cmds` can be handled in turn from `s`.
pub open spec fn run_ok(s: EngineState, cmds: Seq<FaultCommand>) -> bool
    decreases cmds.len(),
{
    cmds.len() == 0 || (run_ok(s, cmds.drop_last()) && can_handle(engine_run(s, cmds.drop_last()), cmds.last()))
}

/// Whether the last of Arm, Disarm and Reset in `cmds` is Arm; `armed`
/// when `cmds` holds none of them.
pub open spec fn armed_after(armed: bool, cmds: Seq<FaultCommand>) -> bool
    decreases cmds.len(),
{
    if cmds.len() == 0 {
        armed
    } else if cmds.last() == FaultCommand::Arm {
        true
    } else if cmds.last() == FaultCommand::Disarm || cmds.last() == FaultCommand::Reset {
        false
    } else {
        armed_after(armed, cmds.drop_last())
    }
}

/// Number of Fires in `cmds` sent while armed since the last Arm or Reset;
/// counted on from `count` when there is no Arm or Reset.
pub open spec fn fires_after(armed: bool, count: int, cmds: Seq<FaultCommand>) -> int
    decreases cmds.len(),
{
    if cmds.len() == 0 {
        count
    } else if cmds.last() == FaultCommand::Arm || cmds.last() == FaultCommand::Reset {
        0
    } else if cmds.last() == FaultCommand::Fire && armed_after(armed, cmds.drop_last()) {
        fires_after(armed, count, cmds.drop_last()) + 1
    } else {
        fires_after(armed, count, cmds.drop_last())
    }
}

/// Over any sequence of commands that never overflows the counter: the engine
/// is armed exactly when the last Arm, Disarm or Reset was an Arm; the fire
/// counter is the number of Fires sent while armed since the last Arm or
/// Reset; the configuration never changes; and a fault is due (fired) exactly
/// when that count is not zero, provided it was so at the start (as for a new
/// engine). The next Status is then answered Completed when the count is not
/// zero, else Armed when armed, else Disarmed; the next Fire is answered Fired
/// exactly when armed.
pub proof fn lemma_command_sequence(s: EngineState, cmds: Seq<FaultCommand>)
    requires
        run_ok(s, cmds),
        s.fired <==> s.fire_count > 0,
    ensures
        engine_run(s, cmds).armed == armed_after(s.armed, cmds),
        engine_run(s, cmds).fire_count == fires_after(s.armed, s.fire_count as int, cmds),
        engine_run(s, cmds).config == s.config,
        engine_run(s, cmds).fired <==> engine_run(s, cmds).fire_count > 0,
        engine_step(engine_run(s, cmds), FaultCommand::Status).1 == (if engine_run(s, cmds).fire_count > 0 {
            FaultResult::Completed
        } else if engine_run(s, cmds).armed {
            FaultResult::Armed
        } else {
            FaultResult::Disarmed
        }),
        (engine_step(engine_run(s, cmds), FaultCommand::Fire).1 == FaultResult::Fired) == engine_run(s, cmds).armed,
    decreases cmds.len(),
{
    if cmds.len() > 0 {
        lemma_command_sequence(s, cmds.drop_last());
    }
}

} // verus!
