//! The originator's side of one command channel: per-family request-id
//! counters, building the datagram of a command, and judging what came back.
//!
//! The socket work itself happens outside: `prepare_command` hands out the
//! datagram to send and the pending request, and `finish_command` turns what
//! the transport observed into the command's outcome.

use vstd::prelude::*;
use crate::command::{
    command_body, command_family, command_named, command_reply_tag, Command, CommandError,
    RequestFamily,
};
use crate::pdu::{
    body_request_id, body_tag, decode_datagram, decode_datagram_spec, encode, pdu_bytes,
    standard_header, EntityIdentifier, Pdu, PduBody, PduTypeTag, RESPONSE_ABLE_TO_COMPLY,
};

verus! {

/// Read timeout used when the caller configures none, in milliseconds.
pub const DEFAULT_TIMEOUT_MS: u64 = 2000;

/// One request-id counter per command family.
#[derive(Clone, Copy, Debug, PartialEq, Eq, Structural)]
pub struct RequestIds {
    pub start_resume: u32,
    pub stop_freeze: u32,
    pub action_request: u32,
}

/// The counter of family `f`.
pub open spec fn counter(ids: RequestIds, f: RequestFamily) -> u32 {
    match f {
        RequestFamily::StartResume => ids.start_resume,
        RequestFamily::StopFreeze => ids.stop_freeze,
        RequestFamily::ActionRequest => ids.action_request,
    }
}

/// `v + 1`, wrapping to 0 after `u32::MAX`.
pub open spec fn wrapping_next(v: u32) -> u32 {
    ((v as int + 1) % 0x1_0000_0000) as u32
}

/// The counters after one id of family `f` was issued.
pub open spec fn advance(ids: RequestIds, f: RequestFamily) -> RequestIds {
    match f {
        RequestFamily::StartResume => RequestIds { start_resume: wrapping_next(ids.start_resume), ..ids },
        RequestFamily::StopFreeze => RequestIds { stop_freeze: wrapping_next(ids.stop_freeze), ..ids },
        RequestFamily::ActionRequest => RequestIds {
            action_request: wrapping_next(ids.action_request),
            ..ids
        },
    }
}

impl RequestIds {
    /// Every counter at 0.
    pub fn new() -> (r: RequestIds)
        ensures
            r.start_resume == 0,
            r.stop_freeze == 0,
            r.action_request == 0,
    {
        RequestIds { start_resume: 0, stop_freeze: 0, action_request: 0 }
    }

    /// Issues the current id of family `f` and advances that counter alone.
    pub fn next_id(&mut self, f: RequestFamily) -> (r: u32)
        ensures
            r == counter(*old(self), f),
            *final(self) == advance(*old(self), f),
    {
        match f {
            RequestFamily::StartResume => {
                let id = self.start_resume;
                self.start_resume = id.wrapping_add(1);
                id
            },
            RequestFamily::StopFreeze => {
                let id = self.stop_freeze;
                self.stop_freeze = id.wrapping_add(1);
                id
            },
            RequestFamily::ActionRequest => {
                let id = self.action_request;
                self.action_request = id.wrapping_add(1);
                id
            },
        }
    }
}

/// The counters after issuing one id for each family of `fams`, in order.
pub open spec fn advance_all(ids: RequestIds, fams: Seq<RequestFamily>) -> RequestIds
    decreases fams.len(),
{
    if fams.len() == 0 {
        ids
    } else {
        advance(advance_all(ids, fams.drop_last()), fams.last())
    }
}

/// The ids issued for the families of `fams`, in order.
pub open spec fn issued(ids: RequestIds, fams: Seq<RequestFamily>) -> Seq<u32>
    decreases fams.len(),
{
    if fams.len() == 0 {
        Seq::empty()
    } else {
        issued(ids, fams.drop_last()).push(counter(advance_all(ids, fams.drop_last()), fams.last()))
    }
}

/// How many times `f` occurs in `fams`.
pub open spec fn occurrences(fams: Seq<RequestFamily>, f: RequestFamily) -> nat
    decreases fams.len(),
{
    if fams.len() == 0 {
        0
    } else {
        occurrences(fams.drop_last(), f) + if fams.last() == f { 1nat } else { 0nat }
    }
}

proof fn lemma_advance_all(ids: RequestIds, fams: Seq<RequestFamily>, f: RequestFamily)
    ensures
        counter(advance_all(ids, fams), f) == (counter(ids, f) + occurrences(fams, f)) % 0x1_0000_0000,
    decreases fams.len(),
{
    if fams.len() > 0 {
        lemma_advance_all(ids, fams.drop_last(), f);
        let c = counter(ids, f) as int;
        let k = occurrences(fams.drop_last(), f) as int;
        assert((((c + k) % 0x1_0000_0000) + 1) % 0x1_0000_0000 == (c + k + 1) % 0x1_0000_0000)
            by (nonlinear_arith);
    }
}

/// Request ids advance per family: over any sequence of calls, the id issued
/// by the `i`-th call is its family's starting counter plus the number of
/// earlier calls of that same family, modulo 2^32. So consecutive calls of
/// one family get consecutive ids (wrapping after `u32::MAX`), and calls of
/// other families in between never touch its counter.
pub proof fn lemma_request_ids_per_family(ids: RequestIds, fams: Seq<RequestFamily>)
    ensures
        issued(ids, fams).len() == fams.len(),
        forall|i: int|
            0 <= i < fams.len() ==> issued(ids, fams)[i] as int == (counter(ids, fams[i]) + occurrences(
                fams.subrange(0, i),
                fams[i],
            )) % 0x1_0000_0000,
        forall|f: RequestFamily|
            counter(#[trigger] advance_all(ids, fams), f) == (counter(ids, f) + occurrences(fams, f))
                % 0x1_0000_0000,
    decreases fams.len(),
{
    assert forall|f: RequestFamily|
        counter(#[trigger] advance_all(ids, fams), f) == (counter(ids, f) + occurrences(fams, f))
            % 0x1_0000_0000 by {
        lemma_advance_all(ids, fams, f);
    }
    if fams.len() > 0 {
        let init = fams.drop_last();
        lemma_request_ids_per_family(ids, init);
        assert forall|i: int| 0 <= i < fams.len() implies issued(ids, fams)[i] as int == (counter(
            ids,
            fams[i],
        ) + occurrences(fams.subrange(0, i), fams[i])) % 0x1_0000_0000 by {
            if i < init.len() {
                assert(fams.subrange(0, i) =~= init.subrange(0, i));
                assert(fams[i] == init[i]);
            } else {
                assert(fams.subrange(0, i) =~= init);
                lemma_advance_all(ids, init, fams[i]);
            }
        }
    }
}

proof fn lemma_occurrences_append(a: Seq<RequestFamily>, b: Seq<RequestFamily>, f: RequestFamily)
    ensures
        occurrences(a + b, f) == occurrences(a, f) + occurrences(b, f),
    decreases b.len(),
{
    if b.len() > 0 {
        lemma_occurrences_append(a, b.drop_last(), f);
        assert((a + b).drop_last() =~= a + b.drop_last());
    } else {
        assert(a + b =~= a);
    }
}

proof fn lemma_occurrences_absent(s: Seq<RequestFamily>, f: RequestFamily)
    requires
        forall|k: int| 0 <= k < s.len() ==> s[k] != f,
    ensures
        occurrences(s, f) == 0,
    decreases s.len(),
{
    if s.len() > 0 {
        lemma_occurrences_absent(s.drop_last(), f);
    }
}

/// Two consecutive calls of one family, with only calls of other families
/// between them, are issued consecutive ids: the later one is the earlier
/// one plus 1, wrapping after `u32::MAX`.
pub proof fn lemma_consecutive_ids(ids: RequestIds, fams: Seq<RequestFamily>, i: int, j: int)
    requires
        0 <= i < j < fams.len(),
        fams[i] == fams[j],
        forall|k: int| i < k < j ==> fams[k] != fams[i],
    ensures
        issued(ids, fams)[j] == wrapping_next(issued(ids, fams)[i]),
{
    let f = fams[i];
    lemma_request_ids_per_family(ids, fams);
    let between = fams.subrange(i + 1, j);
    assert forall|k: int| 0 <= k < between.len() implies between[k] != f by {
        assert(between[k] == fams[i + 1 + k]);
    }
    lemma_occurrences_absent(between, f);
    let upto_i = fams.subrange(0, i);
    let with_i = fams.subrange(0, i + 1);
    assert(with_i.drop_last() =~= upto_i);
    assert(occurrences(with_i, f) == occurrences(upto_i, f) + 1);
    lemma_occurrences_append(with_i, between, f);
    assert(fams.subrange(0, j) =~= with_i + between);
    let c = counter(ids, f) as int;
    let n = occurrences(upto_i, f) as int;
    assert(((c + n) % 0x1_0000_0000 + 1) % 0x1_0000_0000 == (c + n + 1) % 0x1_0000_0000)
        by (nonlinear_arith);
}

/// The request that an originator waits on: at most one per session at a
/// time, since the session hands it out by value and takes it back.
#[derive(Clone, Copy, Debug, PartialEq, Eq, Structural)]
pub struct PendingRequest {
    pub request_id: u32,
    pub expected_reply: PduTypeTag,
}

/// What the transport observed after sending a command's datagram.
#[derive(Clone, Debug)]
pub enum Exchange {
    /// One datagram came back.
    Received(Vec<u8>),
    /// Nothing came back within the read timeout.
    TimedOut,
    /// The datagram could not be sent.
    SendFailed,
}

/// Why a command failed on the wire.
#[derive(Clone, Copy, Debug, PartialEq, Eq, Structural)]
pub enum TransportError {
    Timeout,
    UnexpectedReply,
    SendFailed,
}

/// A correlated reply. `able_to_comply` is false when an acknowledgment
/// carries any response flag other than "able to comply": a warning for the
/// caller, not a failure.
#[derive(Clone, Copy, Debug, PartialEq, Eq, Structural)]
pub struct CommandReply {
    pub pdu: Pdu,
    pub able_to_comply: bool,
}

/// Whether a reply reports compliance.
pub open spec fn reply_complies(b: PduBody) -> bool {
    match b {
        PduBody::Acknowledge { response_flag, .. } => response_flag == RESPONSE_ABLE_TO_COMPLY,
        _ => true,
    }
}

/// The outcome of a command, given what the transport observed.
pub open spec fn exchange_outcome(pending: PendingRequest, observed: Exchange) -> Result<
    CommandReply,
    TransportError,
> {
    match observed {
        Exchange::TimedOut => Err(TransportError::Timeout),
        Exchange::SendFailed => Err(TransportError::SendFailed),
        Exchange::Received(bytes) => match decode_datagram_spec(bytes@) {
            Err(_) => Err(TransportError::UnexpectedReply),
            Ok(p) => if body_tag(p.body) == pending.expected_reply && body_request_id(p.body)
                == pending.request_id {
                Ok(CommandReply { pdu: p, able_to_comply: reply_complies(p.body) })
            } else {
                Err(TransportError::UnexpectedReply)
            },
        },
    }
}

/// The datagram that command `c` sends from `local` under `request_id`.
pub open spec fn command_datagram(c: Command, local: EntityIdentifier, request_id: u32) -> Seq<u8> {
    let body = command_body(c, local, request_id);
    pdu_bytes(Pdu { header: standard_header(body_tag(body)), body })
}

/// The originator's command channel: its counters, its own identifier, its
/// peer and its read timeout.
pub struct TransportSession {
    pub request_ids: RequestIds,
    pub local_id: EntityIdentifier,
    pub peer_address: String,
    pub timeout_ms: u64,
}

impl TransportSession {
    /// A session with every counter at 0 and the default timeout.
    pub fn new(local_id: EntityIdentifier, peer_address: String) -> (r: TransportSession)
        ensures
            r.request_ids == (RequestIds { start_resume: 0, stop_freeze: 0, action_request: 0 }),
            r.local_id == local_id,
            r.peer_address@ == peer_address@,
            r.timeout_ms == DEFAULT_TIMEOUT_MS,
    {
        TransportSession { request_ids: RequestIds::new(), local_id, peer_address, timeout_ms: DEFAULT_TIMEOUT_MS }
    }

    /// The same session with another read timeout.
    pub fn with_timeout(self, timeout_ms: u64) -> (r: TransportSession)
        ensures
            r.request_ids == self.request_ids,
            r.local_id == self.local_id,
            r.peer_address@ == self.peer_address@,
            r.timeout_ms == timeout_ms,
    {
        TransportSession { timeout_ms, ..self }
    }

    /// Issues the next id of the command's family and builds its datagram.
    /// The counter moves exactly once, whatever later becomes of the send.
    pub fn start_command(&mut self, c: Command) -> (r: (PendingRequest, Vec<u8>))
        ensures
            final(self).request_ids == advance(old(self).request_ids, command_family(c)),
            final(self).local_id == old(self).local_id,
            final(self).peer_address@ == old(self).peer_address@,
            final(self).timeout_ms == old(self).timeout_ms,
            r.0.request_id == counter(old(self).request_ids, command_family(c)),
            r.0.expected_reply == command_reply_tag(c),
            r.1@ == command_datagram(c, old(self).local_id, r.0.request_id),
    {
        let request_id = self.request_ids.next_id(c.family());
        let pdu = Pdu::from_body(c.body(self.local_id, request_id));
        let bytes = encode(&pdu);
        (PendingRequest { request_id, expected_reply: c.reply_tag() }, bytes)
    }

    /// Parses a command name, then starts that command. An unknown name is
    /// rejected before any counter moves.
    pub fn prepare_command(&mut self, name: &str) -> (r: Result<(PendingRequest, Vec<u8>), CommandError>)
        ensures
            command_named(name@) is Err ==> r == Err::<(PendingRequest, Vec<u8>), CommandError>(
                CommandError::InvalidCommand,
            ) && *final(self) == *old(self),
            command_named(name@) matches Ok(c) ==> {
                &&& r is Ok
                &&& final(self).request_ids == advance(old(self).request_ids, command_family(c))
                &&& final(self).local_id == old(self).local_id
                &&& final(self).peer_address@ == old(self).peer_address@
                &&& final(self).timeout_ms == old(self).timeout_ms
                &&& r->Ok_0.0.request_id == counter(old(self).request_ids, command_family(c))
                &&& r->Ok_0.0.expected_reply == command_reply_tag(c)
                &&& r->Ok_0.1@ == command_datagram(c, old(self).local_id, r->Ok_0.0.request_id)
            },
    {
        match Command::from_name(name) {
            Err(e) => Err(e),
            Ok(c) => Ok(self.start_command(c)),
        }
    }
}

/// Judges what the transport observed for a pending request: a timeout or a
/// failed send is passed on, and a datagram is accepted only if it decodes,
/// is of the expected reply family, and echoes the request id.
pub fn finish_command(pending: &PendingRequest, observed: &Exchange) -> (r: Result<CommandReply, TransportError>)
    ensures
        r == exchange_outcome(*pending, *observed),
{
    match observed {
        Exchange::TimedOut => Err(TransportError::Timeout),
        Exchange::SendFailed => Err(TransportError::SendFailed),
        Exchange::Received(bytes) => match decode_datagram(bytes.as_slice()) {
            Err(_) => Err(TransportError::UnexpectedReply),
            Ok(p) => {
                if p.body.tag() == pending.expected_reply && p.body.request_id() == pending.request_id {
                    let able_to_comply = match p.body {
                        PduBody::Acknowledge { response_flag, .. } => response_flag == RESPONSE_ABLE_TO_COMPLY,
                        _ => true,
                    };
                    Ok(CommandReply { pdu: p, able_to_comply })
                } else {
                    Err(TransportError::UnexpectedReply)
                }
            },
        },
    }
}

} // verus!
