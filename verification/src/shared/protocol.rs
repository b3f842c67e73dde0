use vstd::prelude::*;

verus! {

/// Host-to-device command of the acquisition protocol.
#[derive(Debug, Clone, Copy, PartialEq, Eq, Structural)]
pub enum Command {
    StartStream,
    StopStream,
    SetRate,
    Calibrate,
    Ping,
    QueryConfig,
}

/// Device-to-host response of the acquisition protocol.
#[derive(Debug, Clone, Copy, PartialEq, Eq, Structural)]
pub enum Response {
    Ack,
    Nak,
    Data,
    Config,
    Pong,
}

pub open spec fn spec_command_code(c: Command) -> u8 {
    match c {
        Command::StartStream => 0x01,
        Command::StopStream => 0x02,
        Command::SetRate => 0x03,
        Command::Calibrate => 0x04,
        Command::Ping => 0x05,
        Command::QueryConfig => 0x06,
    }
}

pub open spec fn spec_response_code(r: Response) -> u8 {
    match r {
        Response::Ack => 0x81,
        Response::Nak => 0x82,
        Response::Data => 0x83,
        Response::Config => 0x84,
        Response::Pong => 0x85,
    }
}

impl Command {
    /// Wire code of the command: 0x01 to 0x06.
    pub fn code(&self) -> (r: u8)
        ensures
            r == spec_command_code(*self),
    {
        match self {
            Command::StartStream => 0x01,
            Command::StopStream => 0x02,
            Command::SetRate => 0x03,
            Command::Calibrate => 0x04,
            Command::Ping => 0x05,
            Command::QueryConfig => 0x06,
        }
    }
}

impl Response {
    /// Wire code of the response: 0x81 to 0x85.
    pub fn code(&self) -> (r: u8)
        ensures
            r == spec_response_code(*self),
    {
        match self {
            Response::Ack => 0x81,
            Response::Nak => 0x82,
            Response::Data => 0x83,
            Response::Config => 0x84,
            Response::Pong => 0x85,
        }
    }
}

/// Command codes are 0x01 to 0x06 and response codes 0x81 to 0x85, one per
/// command or response, so that a response code never reads as a command.
pub proof fn lemma_protocol_codes(c: Command, d: Command, r: Response, q: Response)
    ensures
        1 <= spec_command_code(c) <= 6,
        0x81 <= spec_response_code(r) <= 0x85,
        spec_command_code(c) == spec_command_code(d) ==> c == d,
        spec_response_code(r) == spec_response_code(q) ==> r == q,
        spec_command_code(c) != spec_response_code(r),
{
}

} // verus!
