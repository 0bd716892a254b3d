//! The five management commands an originator can issue, and the PDU each
//! one sends.

use vstd::prelude::*;
use vstd::string::*;
use crate::pdu::{EntityIdentifier, PduBody, PduTypeTag, StopReason};

verus! {

/// Action id of an ActionRequest that asks the peer to initialize its
/// internal parameters.
pub const INITIALIZE_INTERNAL_PARAMETERS: u32 = 39;

/// A management command, validated once from its name.
#[derive(Clone, Copy, Debug, PartialEq, Eq, Structural)]
pub enum Command {
    Initialize,
    Startup,
    Terminate,
    Standby,
    Reset,
}

/// The command name was none of the five known names.
#[derive(Clone, Copy, Debug, PartialEq, Eq, Structural)]
pub enum CommandError {
    InvalidCommand,
}

/// The request-id counter that a command family draws from.
#[derive(Clone, Copy, Debug, PartialEq, Eq, Structural)]
pub enum RequestFamily {
    StartResume,
    StopFreeze,
    ActionRequest,
}

/// The command that a name stands for.
pub open spec fn command_named(s: Seq<char>) -> Result<Command, CommandError> {
    if s == "initialize"@ {
        Ok(Command::Initialize)
    } else if s == "startup"@ {
        Ok(Command::Startup)
    } else if s == "terminate"@ {
        Ok(Command::Terminate)
    } else if s == "standby"@ {
        Ok(Command::Standby)
    } else if s == "reset"@ {
        Ok(Command::Reset)
    } else {
        Err(CommandError::InvalidCommand)
    }
}

pub open spec fn command_family(c: Command) -> RequestFamily {
    match c {
        Command::Initialize => RequestFamily::ActionRequest,
        Command::Startup => RequestFamily::StartResume,
        _ => RequestFamily::StopFreeze,
    }
}

/// The family of the reply that a command waits for.
pub open spec fn command_reply_tag(c: Command) -> PduTypeTag {
    match c {
        Command::Initialize => PduTypeTag::ActionResponse,
        _ => PduTypeTag::Acknowledge,
    }
}

/// The body a command sends from `local` to every receiver, under `request_id`.
pub open spec fn command_body(c: Command, local: EntityIdentifier, request_id: u32) -> PduBody {
    let all = EntityIdentifier { site_id: 0xffff, application_id: 0xffff, entity_id: 0xffff };
    match c {
        Command::Initialize => PduBody::ActionRequest {
            originating: local,
            receiving: all,
            request_id,
            action_id: INITIALIZE_INTERNAL_PARAMETERS,
        },
        Command::Startup => PduBody::StartResume { originating: local, receiving: all, request_id },
        Command::Terminate => PduBody::StopFreeze {
            originating: local,
            receiving: all,
            request_id,
            reason: StopReason::Termination,
        },
        Command::Standby => PduBody::StopFreeze {
            originating: local,
            receiving: all,
            request_id,
            reason: StopReason::Recess,
        },
        Command::Reset => PduBody::StopFreeze {
            originating: local,
            receiving: all,
            request_id,
            reason: StopReason::StopForRestart,
        },
    }
}

/// Whether two strings hold the same characters.
fn same_text(a: &str, b: &str) -> (r: bool)
    ensures
        r == (a@ == b@),
{
    let n = a.unicode_len();
    if n != b.unicode_len() {
        return false;
    }
    let mut i: usize = 0;
    while i < n
        invariant
            n == a@.len(),
            n == b@.len(),
            i <= n,
            forall|k: int| 0 <= k < i ==> a@[k] == b@[k],
        decreases n - i,
    {
        if a.get_char(i) != b.get_char(i) {
            return false;
        }
        i += 1;
    }
    assert(a@ =~= b@);
    true
}

impl Command {
    /// Parses a command name; anything but the five names is rejected.
    pub fn from_name(name: &str) -> (r: Result<Command, CommandError>)
        ensures
            r == command_named(name@),
    {
        if same_text(name, "initialize") {
            Ok(Command::Initialize)
        } else if same_text(name, "startup") {
            Ok(Command::Startup)
        } else if same_text(name, "terminate") {
            Ok(Command::Terminate)
        } else if same_text(name, "standby") {
            Ok(Command::Standby)
        } else if same_text(name, "reset") {
            Ok(Command::Reset)
        } else {
            Err(CommandError::InvalidCommand)
        }
    }

    pub fn family(self) -> (r: RequestFamily)
        ensures
            r == command_family(self),
    {
        match self {
            Command::Initialize => RequestFamily::ActionRequest,
            Command::Startup => RequestFamily::StartResume,
            _ => RequestFamily::StopFreeze,
        }
    }

    pub fn reply_tag(self) -> (r: PduTypeTag)
        ensures
            r == command_reply_tag(self),
    {
        match self {
            Command::Initialize => PduTypeTag::ActionResponse,
            _ => PduTypeTag::Acknowledge,
        }
    }

    /// The body this command sends from `local` to every receiver.
    pub fn body(self, local: EntityIdentifier, request_id: u32) -> (r: PduBody)
        ensures
            r == command_body(self, local, request_id),
    {
        let all = EntityIdentifier::receive_all();
        match self {
            Command::Initialize => PduBody::ActionRequest {
                originating: local,
                receiving: all,
                request_id,
                action_id: INITIALIZE_INTERNAL_PARAMETERS,
            },
            Command::Startup => PduBody::StartResume { originating: local, receiving: all, request_id },
            Command::Terminate => PduBody::StopFreeze {
                originating: local,
                receiving: all,
                request_id,
                reason: StopReason::Termination,
            },
            Command::Standby => PduBody::StopFreeze {
                originating: local,
                receiving: all,
                request_id,
                reason: StopReason::Recess,
            },
            Command::Reset => PduBody::StopFreeze {
                originating: local,
                receiving: all,
                request_id,
                reason: StopReason::StopForRestart,
            },
        }
    }
}

} // verus!
