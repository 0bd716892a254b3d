//! The responder embedded in a simulation process: its run state and how each
//! inbound datagram moves it and what goes back to the sender.

use vstd::prelude::*;
use crate::pdu::{
    decode_datagram, decode_datagram_spec, standard_header, body_tag, body_originating, body_request_id, EntityIdentifier, Pdu,
    PduBody, StopReason, ACKNOWLEDGE_START_RESUME, RESPONSE_ABLE_TO_COMPLY,
};

verus! {

/// The run state of the simulation process.
#[derive(Clone, Copy, Debug, PartialEq, Eq, Structural)]
pub enum RunState {
    Preinit,
    Initialized,
    Standby,
    Running,
    Terminated,
}

/// What the responder records about one datagram.
#[derive(Clone, Copy, Debug, PartialEq, Eq, Structural)]
pub enum Note {
    /// Left `Preinit` for `Initialized`.
    Initializing,
    /// A StartResume came while already `Initialized`.
    AlreadyInitialized,
    /// Left `Initialized` for `Standby`.
    EnteringStandby,
    /// Left `Initialized` for `Terminated`.
    ShuttingDown,
    /// A StartResume or StopFreeze that the current state cannot honor.
    InvalidTransition,
    /// An ActionRequest, answered without a change of state.
    ActionAnswered,
    /// A well-formed PDU of a family the responder does not act on.
    Ignored,
    /// The datagram did not decode and was dropped.
    Dropped,
}

/// The responder's answer to one datagram: the PDU to send back to its
/// source, if any, what to record, and whether the process is to exit.
#[derive(Clone, Copy, Debug, PartialEq, Eq, Structural)]
pub struct Reaction {
    pub reply: Option<Pdu>,
    pub note: Note,
    pub exit: bool,
}

/// The state after an inbound body.
pub open spec fn next_state(s: RunState, b: PduBody) -> RunState {
    match b {
        PduBody::StartResume { .. } => if s == RunState::Preinit {
            RunState::Initialized
        } else {
            s
        },
        PduBody::StopFreeze { reason, .. } => if s == RunState::Initialized {
            match reason {
                StopReason::Recess => RunState::Standby,
                StopReason::Termination => RunState::Terminated,
                _ => s,
            }
        } else {
            s
        },
        _ => s,
    }
}

/// What is recorded for an inbound body.
pub open spec fn note_for(s: RunState, b: PduBody) -> Note {
    match b {
        PduBody::StartResume { .. } => if s == RunState::Preinit {
            Note::Initializing
        } else if s == RunState::Initialized {
            Note::AlreadyInitialized
        } else {
            Note::InvalidTransition
        },
        PduBody::StopFreeze { reason, .. } => if s == RunState::Initialized && reason
            == StopReason::Recess {
            Note::EnteringStandby
        } else if s == RunState::Initialized && reason == StopReason::Termination {
            Note::ShuttingDown
        } else {
            Note::InvalidTransition
        },
        PduBody::ActionRequest { .. } => Note::ActionAnswered,
        _ => Note::Ignored,
    }
}

/// A body wrapped in the header this library sends.
pub open spec fn framed(b: PduBody) -> Pdu {
    Pdu { header: standard_header(body_tag(b)), body: b }
}

/// The reply to an inbound body, sent from `local` back to its originator
/// under the same request id. Every StartResume and StopFreeze is
/// acknowledged as able to comply, whatever became of the transition.
pub open spec fn reply_for(local: EntityIdentifier, b: PduBody) -> Option<Pdu> {
    match b {
        PduBody::StartResume { originating, request_id, .. } => Some(
            framed(
                PduBody::Acknowledge {
                    originating: local,
                    receiving: originating,
                    request_id,
                    acknowledge_flag: ACKNOWLEDGE_START_RESUME,
                    response_flag: RESPONSE_ABLE_TO_COMPLY,
                },
            ),
        ),
        PduBody::StopFreeze { originating, request_id, .. } => Some(
            framed(
                PduBody::Acknowledge {
                    originating: local,
                    receiving: originating,
                    request_id,
                    acknowledge_flag: ACKNOWLEDGE_START_RESUME,
                    response_flag: RESPONSE_ABLE_TO_COMPLY,
                },
            ),
        ),
        PduBody::ActionRequest { originating, request_id, .. } => Some(
            framed(PduBody::ActionResponse { originating: local, receiving: originating, request_id }),
        ),
        _ => None,
    }
}

/// The reaction to an inbound body in state `s`.
pub open spec fn reaction_for(s: RunState, local: EntityIdentifier, b: PduBody) -> Reaction {
    Reaction {
        reply: reply_for(local, b),
        note: note_for(s, b),
        exit: next_state(s, b) == RunState::Terminated && s != RunState::Terminated,
    }
}

/// The run state together with the identifier the responder answers from.
pub struct ResponderState {
    pub state: RunState,
    pub local_id: EntityIdentifier,
}

impl ResponderState {
    /// A responder in `Preinit`.
    pub fn new(local_id: EntityIdentifier) -> (r: ResponderState)
        ensures
            r.state == RunState::Preinit,
            r.local_id == local_id,
    {
        ResponderState { state: RunState::Preinit, local_id }
    }

    /// Applies one decoded inbound body.
    pub fn step(&mut self, b: &PduBody) -> (r: Reaction)
        ensures
            final(self).state == next_state(old(self).state, *b),
            final(self).local_id == old(self).local_id,
            r == reaction_for(old(self).state, old(self).local_id, *b),
    {
        let s = self.state;
        let local = self.local_id;
        let (next, note) = match b {
            PduBody::StartResume { .. } => match s {
                RunState::Preinit => (RunState::Initialized, Note::Initializing),
                RunState::Initialized => (s, Note::AlreadyInitialized),
                _ => (s, Note::InvalidTransition),
            },
            PduBody::StopFreeze { reason, .. } => match (s, reason) {
                (RunState::Initialized, StopReason::Recess) => (RunState::Standby, Note::EnteringStandby),
                (RunState::Initialized, StopReason::Termination) => (RunState::Terminated, Note::ShuttingDown),
                _ => (s, Note::InvalidTransition),
            },
            PduBody::ActionRequest { .. } => (s, Note::ActionAnswered),
            _ => (s, Note::Ignored),
        };
        let reply = match b {
            PduBody::StartResume { originating, request_id, .. } | PduBody::StopFreeze {
                originating,
                request_id,
                ..
            } => Some(
                Pdu::from_body(
                    PduBody::Acknowledge {
                        originating: local,
                        receiving: *originating,
                        request_id: *request_id,
                        acknowledge_flag: ACKNOWLEDGE_START_RESUME,
                        response_flag: RESPONSE_ABLE_TO_COMPLY,
                    },
                ),
            ),
            PduBody::ActionRequest { originating, request_id, .. } => Some(
                Pdu::from_body(
                    PduBody::ActionResponse {
                        originating: local,
                        receiving: *originating,
                        request_id: *request_id,
                    },
                ),
            ),
            _ => None,
        };
        let exit = next == RunState::Terminated && s != RunState::Terminated;
        self.state = next;
        Reaction { reply, note, exit }
    }

    /// Decodes one inbound datagram and applies it. A datagram that does not
    /// decode is dropped: no reply, no change of state.
    pub fn handle_datagram(&mut self, bytes: &[u8]) -> (r: Reaction)
        ensures
            final(self).local_id == old(self).local_id,
            decode_datagram_spec(bytes@) is Err ==> final(self).state == old(self).state && r == (Reaction {
                reply: None,
                note: Note::Dropped,
                exit: false,
            }),
            decode_datagram_spec(bytes@) matches Ok(p) ==> final(self).state == next_state(
                old(self).state,
                p.body,
            ) && r == reaction_for(old(self).state, old(self).local_id, p.body),
    {
        match decode_datagram(bytes) {
            Err(_) => Reaction { reply: None, note: Note::Dropped, exit: false },
            Ok(p) => self.step(&p.body),
        }
    }
}

/// The run-state machine is total and follows its table. From `Preinit` a
/// StartResume leads to `Initialized`; in `Initialized` a StartResume changes
/// nothing, a StopFreeze for recess leads to `Standby` and one for
/// termination to `Terminated`, which alone asks the process to exit. Every
/// other pair leaves the state as it was and is recorded. Every StartResume
/// and StopFreeze is acknowledged as able to comply, and every ActionRequest
/// answered with an ActionResponse, each sent from the responder to the
/// command's originator under the command's request id; nothing else gets a
/// reply.
pub proof fn lemma_transition_table(s: RunState, local: EntityIdentifier, b: PduBody)
    ensures
        b is StartResume && s == RunState::Preinit ==> next_state(s, b) == RunState::Initialized
            && note_for(s, b) == Note::Initializing,
        b is StartResume && s == RunState::Initialized ==> next_state(s, b) == RunState::Initialized
            && note_for(s, b) == Note::AlreadyInitialized,
        b matches PduBody::StopFreeze { reason: StopReason::Recess, .. } && s == RunState::Initialized
            ==> next_state(s, b) == RunState::Standby && note_for(s, b) == Note::EnteringStandby,
        b matches PduBody::StopFreeze { reason: StopReason::Termination, .. } && s
            == RunState::Initialized ==> next_state(s, b) == RunState::Terminated && note_for(s, b)
            == Note::ShuttingDown,
        reaction_for(s, local, b).exit <==> (s == RunState::Initialized && b matches PduBody::StopFreeze {
            reason: StopReason::Termination,
            ..
        }),
        !(b is StartResume && s == RunState::Preinit) && !(s == RunState::Initialized && ((
        b matches PduBody::StopFreeze { reason: StopReason::Recess, .. }) || (
        b matches PduBody::StopFreeze { reason: StopReason::Termination, .. }))) ==> next_state(s, b)
            == s,
        (b is StartResume || b is StopFreeze) && !(s == RunState::Preinit || s == RunState::Initialized)
            ==> note_for(s, b) == Note::InvalidTransition,
        (b is StartResume || b is StopFreeze) ==> reply_for(local, b) == Some(
            framed(
                PduBody::Acknowledge {
                    originating: local,
                    receiving: body_originating(b),
                    request_id: body_request_id(b),
                    acknowledge_flag: ACKNOWLEDGE_START_RESUME,
                    response_flag: RESPONSE_ABLE_TO_COMPLY,
                },
            ),
        ),
        b is ActionRequest ==> reply_for(local, b) == Some(
            framed(
                PduBody::ActionResponse {
                    originating: local,
                    receiving: body_originating(b),
                    request_id: body_request_id(b),
                },
            ),
        ) && note_for(s, b) == Note::ActionAnswered,
        (b is Acknowledge || b is ActionResponse) ==> reply_for(local, b) is None && note_for(s, b)
            == Note::Ignored,
{
}

} // verus!
