//! The simulation-management PDUs and their byte codec.
//!
//! A datagram is a 12-byte header followed by a fixed-width body whose layout
//! depends on the header's type tag. Every integer is big-endian.

use vstd::prelude::*;
use crate::wire::{
    lemma_u16_be_bytes, lemma_u32_be_bytes, push_u16, push_u32, read_u16, read_u32, u16_at, u16_be,
    u32_at, u32_be,
};

verus! {

/// Bytes taken by the shared header.
pub const HEADER_LEN: usize = 12;

/// Protocol version written into headers built by this library.
pub const PROTOCOL_VERSION: u8 = 7;

/// Exercise number written into headers built by this library.
pub const EXERCISE_ID: u8 = 1;

/// Protocol family of the simulation-management PDUs.
pub const SIMULATION_MANAGEMENT_FAMILY: u8 = 5;

/// Acknowledge flag: the acknowledged command was a StartResume.
pub const ACKNOWLEDGE_START_RESUME: u8 = 3;


/// Response flag: the responder is able to comply.
pub const RESPONSE_ABLE_TO_COMPLY: u8 = 1;

/// Identifies a simulation participant.
#[derive(Clone, Copy, Debug, PartialEq, Eq, Structural)]
pub struct EntityIdentifier {
    pub site_id: u16,
    pub application_id: u16,
    pub entity_id: u16,
}

impl EntityIdentifier {
    pub fn new(site_id: u16, application_id: u16, entity_id: u16) -> (r: EntityIdentifier)
        ensures
            r.site_id == site_id,
            r.application_id == application_id,
            r.entity_id == entity_id,
    {
        EntityIdentifier { site_id, application_id, entity_id }
    }

    /// The broadcast identifier: every field at its largest value.
    pub fn receive_all() -> (r: EntityIdentifier)
        ensures
            r.site_id == 0xffff,
            r.application_id == 0xffff,
            r.entity_id == 0xffff,
    {
        EntityIdentifier { site_id: 0xffff, application_id: 0xffff, entity_id: 0xffff }
    }
}

/// The five management PDU families.
#[derive(Clone, Copy, Debug, PartialEq, Eq, Structural)]
pub enum PduTypeTag {
    StartResume,
    StopFreeze,
    Acknowledge,
    ActionRequest,
    ActionResponse,
}

/// The wire number of each family.
pub open spec fn tag_code(t: PduTypeTag) -> u8 {
    match t {
        PduTypeTag::StartResume => 13,
        PduTypeTag::StopFreeze => 14,
        PduTypeTag::Acknowledge => 15,
        PduTypeTag::ActionRequest => 16,
        PduTypeTag::ActionResponse => 17,
    }
}

/// The family that a wire number stands for, if any.
pub open spec fn tag_of_code(c: u8) -> Option<PduTypeTag> {
    if c == 13 {
        Some(PduTypeTag::StartResume)
    } else if c == 14 {
        Some(PduTypeTag::StopFreeze)
    } else if c == 15 {
        Some(PduTypeTag::Acknowledge)
    } else if c == 16 {
        Some(PduTypeTag::ActionRequest)
    } else if c == 17 {
        Some(PduTypeTag::ActionResponse)
    } else {
        None
    }
}

/// Bytes taken by the body of each family.
pub open spec fn body_len(t: PduTypeTag) -> nat {
    match t {
        PduTypeTag::StartResume => 16,
        PduTypeTag::StopFreeze => 17,
        PduTypeTag::Acknowledge => 18,
        PduTypeTag::ActionRequest => 20,
        PduTypeTag::ActionResponse => 16,
    }
}

impl PduTypeTag {
    pub fn code(self) -> (r: u8)
        ensures
            r == tag_code(self),
    {
        match self {
            PduTypeTag::StartResume => 13,
            PduTypeTag::StopFreeze => 14,
            PduTypeTag::Acknowledge => 15,
            PduTypeTag::ActionRequest => 16,
            PduTypeTag::ActionResponse => 17,
        }
    }

    pub fn from_code(c: u8) -> (r: Option<PduTypeTag>)
        ensures
            r == tag_of_code(c),
    {
        if c == 13 {
            Some(PduTypeTag::StartResume)
        } else if c == 14 {
            Some(PduTypeTag::StopFreeze)
        } else if c == 15 {
            Some(PduTypeTag::Acknowledge)
        } else if c == 16 {
            Some(PduTypeTag::ActionRequest)
        } else if c == 17 {
            Some(PduTypeTag::ActionResponse)
        } else {
            None
        }
    }

    pub fn body_len(self) -> (r: usize)
        ensures
            r == body_len(self),
    {
        match self {
            PduTypeTag::StartResume => 16,
            PduTypeTag::StopFreeze => 17,
            PduTypeTag::Acknowledge => 18,
            PduTypeTag::ActionRequest => 20,
            PduTypeTag::ActionResponse => 16,
        }
    }
}

/// Why a StopFreeze was sent. A code outside the known three is kept as is.
#[derive(Clone, Copy, Debug, PartialEq, Eq, Structural)]
pub enum StopReason {
    Termination,
    Recess,
    StopForRestart,
    Unknown(u8),
}

pub open spec fn reason_code(r: StopReason) -> u8 {
    match r {
        StopReason::Recess => 1,
        StopReason::Termination => 2,
        StopReason::StopForRestart => 7,
        StopReason::Unknown(c) => c,
    }
}

pub open spec fn reason_of_code(c: u8) -> StopReason {
    if c == 1 {
        StopReason::Recess
    } else if c == 2 {
        StopReason::Termination
    } else if c == 7 {
        StopReason::StopForRestart
    } else {
        StopReason::Unknown(c)
    }
}

impl StopReason {
    pub fn code(self) -> (r: u8)
        ensures
            r == reason_code(self),
    {
        match self {
            StopReason::Recess => 1,
            StopReason::Termination => 2,
            StopReason::StopForRestart => 7,
            StopReason::Unknown(c) => c,
        }
    }

    pub fn from_code(c: u8) -> (r: StopReason)
        ensures
            r == reason_of_code(c),
    {
        if c == 1 {
            StopReason::Recess
        } else if c == 2 {
            StopReason::Termination
        } else if c == 7 {
            StopReason::StopForRestart
        } else {
            StopReason::Unknown(c)
        }
    }

    /// `Unknown` holds only codes that no named reason uses.
    pub open spec fn is_canonical(self) -> bool {
        match self {
            StopReason::Unknown(c) => c != 1 && c != 2 && c != 7,
            _ => true,
        }
    }
}

/// The shared header. Only `pdu_type` is interpreted; the other fields are
/// carried through unchanged.
#[derive(Clone, Copy, Debug, PartialEq, Eq, Structural)]
pub struct PduHeader {
    pub protocol_version: u8,
    pub exercise_id: u8,
    pub pdu_type: u8,
    pub protocol_family: u8,
    pub timestamp: u32,
    pub length: u16,
    pub padding: u16,
}

/// The body of one management PDU.
#[derive(Clone, Copy, Debug, PartialEq, Eq, Structural)]
pub enum PduBody {
    StartResume { originating: EntityIdentifier, receiving: EntityIdentifier, request_id: u32 },
    StopFreeze {
        originating: EntityIdentifier,
        receiving: EntityIdentifier,
        request_id: u32,
        reason: StopReason,
    },
    Acknowledge {
        originating: EntityIdentifier,
        receiving: EntityIdentifier,
        request_id: u32,
        acknowledge_flag: u8,
        response_flag: u8,
    },
    ActionRequest {
        originating: EntityIdentifier,
        receiving: EntityIdentifier,
        request_id: u32,
        action_id: u32,
    },
    ActionResponse { originating: EntityIdentifier, receiving: EntityIdentifier, request_id: u32 },
}

/// The family of a body.
pub open spec fn body_tag(b: PduBody) -> PduTypeTag {
    match b {
        PduBody::StartResume { .. } => PduTypeTag::StartResume,
        PduBody::StopFreeze { .. } => PduTypeTag::StopFreeze,
        PduBody::Acknowledge { .. } => PduTypeTag::Acknowledge,
        PduBody::ActionRequest { .. } => PduTypeTag::ActionRequest,
        PduBody::ActionResponse { .. } => PduTypeTag::ActionResponse,
    }
}

/// The request id that every body carries.
pub open spec fn body_request_id(b: PduBody) -> u32 {
    match b {
        PduBody::StartResume { request_id, .. } => request_id,
        PduBody::StopFreeze { request_id, .. } => request_id,
        PduBody::Acknowledge { request_id, .. } => request_id,
        PduBody::ActionRequest { request_id, .. } => request_id,
        PduBody::ActionResponse { request_id, .. } => request_id,
    }
}

/// The sender that every body names.
pub open spec fn body_originating(b: PduBody) -> EntityIdentifier {
    match b {
        PduBody::StartResume { originating, .. } => originating,
        PduBody::StopFreeze { originating, .. } => originating,
        PduBody::Acknowledge { originating, .. } => originating,
        PduBody::ActionRequest { originating, .. } => originating,
        PduBody::ActionResponse { originating, .. } => originating,
    }
}

impl PduBody {
    pub fn tag(&self) -> (r: PduTypeTag)
        ensures
            r == body_tag(*self),
    {
        match self {
            PduBody::StartResume { .. } => PduTypeTag::StartResume,
            PduBody::StopFreeze { .. } => PduTypeTag::StopFreeze,
            PduBody::Acknowledge { .. } => PduTypeTag::Acknowledge,
            PduBody::ActionRequest { .. } => PduTypeTag::ActionRequest,
            PduBody::ActionResponse { .. } => PduTypeTag::ActionResponse,
        }
    }

    pub fn request_id(&self) -> (r: u32)
        ensures
            r == body_request_id(*self),
    {
        match self {
            PduBody::StartResume { request_id, .. } => *request_id,
            PduBody::StopFreeze { request_id, .. } => *request_id,
            PduBody::Acknowledge { request_id, .. } => *request_id,
            PduBody::ActionRequest { request_id, .. } => *request_id,
            PduBody::ActionResponse { request_id, .. } => *request_id,
        }
    }
}

/// A header together with the body it announces.
#[derive(Clone, Copy, Debug, PartialEq, Eq, Structural)]
pub struct Pdu {
    pub header: PduHeader,
    pub body: PduBody,
}

impl Pdu {
    /// The header names the body's family, and a stop reason uses its own code.
    pub open spec fn wf(self) -> bool {
        &&& self.header.pdu_type == tag_code(body_tag(self.body))
        &&& (self.body matches PduBody::StopFreeze { reason, .. } ==> reason.is_canonical())
    }

    /// Wraps a body in the header this library sends: protocol version 7,
    /// exercise 1, the management family, time stamp 0, and the datagram's
    /// full length.
    pub fn from_body(body: PduBody) -> (r: Pdu)
        ensures
            r.body == body,
            r.header == standard_header(body_tag(body)),
    {
        let tag = body.tag();
        let length = (HEADER_LEN + tag.body_len()) as u16;
        Pdu {
            header: PduHeader {
                protocol_version: PROTOCOL_VERSION,
                exercise_id: EXERCISE_ID,
                pdu_type: tag.code(),
                protocol_family: SIMULATION_MANAGEMENT_FAMILY,
                timestamp: 0,
                length,
                padding: 0,
            },
            body,
        }
    }
}

/// The header that `Pdu::from_body` writes for a family.
pub open spec fn standard_header(t: PduTypeTag) -> PduHeader {
    PduHeader {
        protocol_version: PROTOCOL_VERSION,
        exercise_id: EXERCISE_ID,
        pdu_type: tag_code(t),
        protocol_family: SIMULATION_MANAGEMENT_FAMILY,
        timestamp: 0,
        length: (HEADER_LEN + body_len(t)) as u16,
        padding: 0,
    }
}

/// Why a byte buffer is not a management PDU.
#[derive(Clone, Copy, Debug, PartialEq, Eq, Structural)]
pub enum DecodeError {
    /// Fewer bytes than the layout of the family requires.
    Truncated,
    /// The header's type tag is none of the five management families.
    UnknownTag,
}

// ---- bytes of each part ----

pub open spec fn entity_bytes(e: EntityIdentifier) -> Seq<u8> {
    u16_be(e.site_id) + u16_be(e.application_id) + u16_be(e.entity_id)
}

pub open spec fn header_bytes(h: PduHeader) -> Seq<u8> {
    seq![h.protocol_version, h.exercise_id, h.pdu_type, h.protocol_family] + u32_be(h.timestamp)
        + u16_be(h.length) + u16_be(h.padding)
}

pub open spec fn body_bytes(b: PduBody) -> Seq<u8> {
    match b {
        PduBody::StartResume { originating, receiving, request_id } => entity_bytes(originating)
            + entity_bytes(receiving) + u32_be(request_id),
        PduBody::StopFreeze { originating, receiving, request_id, reason } => entity_bytes(
            originating,
        ) + entity_bytes(receiving) + u32_be(request_id) + seq![reason_code(reason)],
        PduBody::Acknowledge {
            originating,
            receiving,
            request_id,
            acknowledge_flag,
            response_flag,
        } => entity_bytes(originating) + entity_bytes(receiving) + u32_be(request_id) + seq![
            acknowledge_flag,
            response_flag,
        ],
        PduBody::ActionRequest { originating, receiving, request_id, action_id } => entity_bytes(
            originating,
        ) + entity_bytes(receiving) + u32_be(request_id) + u32_be(action_id),
        PduBody::ActionResponse { originating, receiving, request_id } => entity_bytes(originating)
            + entity_bytes(receiving) + u32_be(request_id),
    }
}

/// The datagram of a PDU. The header's type tag is always the body's family.
pub open spec fn pdu_bytes(p: Pdu) -> Seq<u8> {
    header_bytes(PduHeader { pdu_type: tag_code(body_tag(p.body)), ..p.header }) + body_bytes(p.body)
}

// ---- reading each part ----

pub open spec fn entity_at(s: Seq<u8>, i: int) -> EntityIdentifier {
    EntityIdentifier {
        site_id: u16_at(s, i),
        application_id: u16_at(s, i + 2),
        entity_id: u16_at(s, i + 4),
    }
}

pub open spec fn header_at(s: Seq<u8>) -> PduHeader {
    PduHeader {
        protocol_version: s[0],
        exercise_id: s[1],
        pdu_type: s[2],
        protocol_family: s[3],
        timestamp: u32_at(s, 4),
        length: u16_at(s, 8),
        padding: u16_at(s, 10),
    }
}

/// The body of family `t` that starts at byte `i` of `s`.
pub open spec fn body_at(t: PduTypeTag, s: Seq<u8>, i: int) -> PduBody {
    let originating = entity_at(s, i);
    let receiving = entity_at(s, i + 6);
    let request_id = u32_at(s, i + 12);
    match t {
        PduTypeTag::StartResume => PduBody::StartResume { originating, receiving, request_id },
        PduTypeTag::StopFreeze => PduBody::StopFreeze {
            originating,
            receiving,
            request_id,
            reason: reason_of_code(s[i + 16]),
        },
        PduTypeTag::Acknowledge => PduBody::Acknowledge {
            originating,
            receiving,
            request_id,
            acknowledge_flag: s[i + 16],
            response_flag: s[i + 17],
        },
        PduTypeTag::ActionRequest => PduBody::ActionRequest {
            originating,
            receiving,
            request_id,
            action_id: u32_at(s, i + 16),
        },
        PduTypeTag::ActionResponse => PduBody::ActionResponse { originating, receiving, request_id },
    }
}

/// Decoding a body that starts at byte `start` of `s`, under `header`.
pub open spec fn decode_at(header: PduHeader, s: Seq<u8>, start: int) -> Result<Pdu, DecodeError> {
    match tag_of_code(header.pdu_type) {
        None => Err(DecodeError::UnknownTag),
        Some(t) => if s.len() < start + body_len(t) {
            Err(DecodeError::Truncated)
        } else {
            Ok(Pdu { header, body: body_at(t, s, start) })
        },
    }
}

/// Decoding a whole datagram: the header, then the body it announces.
pub open spec fn decode_datagram_spec(s: Seq<u8>) -> Result<Pdu, DecodeError> {
    if s.len() < HEADER_LEN {
        Err(DecodeError::Truncated)
    } else {
        decode_at(header_at(s), s, HEADER_LEN as int)
    }
}

// ---- encoding ----

fn push_entity(out: &mut Vec<u8>, e: EntityIdentifier)
    ensures
        final(out)@ == old(out)@ + entity_bytes(e),
{
    let ghost start = out@;
    push_u16(out, e.site_id);
    push_u16(out, e.application_id);
    push_u16(out, e.entity_id);
    assert(out@ =~= start + entity_bytes(e));
}

fn push_header(out: &mut Vec<u8>, h: &PduHeader)
    ensures
        final(out)@ == old(out)@ + header_bytes(*h),
{
    let ghost start = out@;
    out.push(h.protocol_version);
    out.push(h.exercise_id);
    out.push(h.pdu_type);
    out.push(h.protocol_family);
    push_u32(out, h.timestamp);
    push_u16(out, h.length);
    push_u16(out, h.padding);
    assert(out@ =~= start + header_bytes(*h));
}

fn push_body(out: &mut Vec<u8>, b: &PduBody)
    ensures
        final(out)@ == old(out)@ + body_bytes(*b),
{
    let ghost start = out@;
    match b {
        PduBody::StartResume { originating, receiving, request_id } => {
            push_entity(out, *originating);
            push_entity(out, *receiving);
            push_u32(out, *request_id);
        },
        PduBody::StopFreeze { originating, receiving, request_id, reason } => {
            push_entity(out, *originating);
            push_entity(out, *receiving);
            push_u32(out, *request_id);
            out.push(reason.code());
        },
        PduBody::Acknowledge {
            originating,
            receiving,
            request_id,
            acknowledge_flag,
            response_flag,
        } => {
            push_entity(out, *originating);
            push_entity(out, *receiving);
            push_u32(out, *request_id);
            out.push(*acknowledge_flag);
            out.push(*response_flag);
        },
        PduBody::ActionRequest { originating, receiving, request_id, action_id } => {
            push_entity(out, *originating);
            push_entity(out, *receiving);
            push_u32(out, *request_id);
            push_u32(out, *action_id);
        },
        PduBody::ActionResponse { originating, receiving, request_id } => {
            push_entity(out, *originating);
            push_entity(out, *receiving);
            push_u32(out, *request_id);
        },
    }
    assert(out@ =~= start + body_bytes(*b));
}

/// The datagram of `pdu`: its header, with the body's family as type tag,
/// then its body.
pub fn encode(pdu: &Pdu) -> (r: Vec<u8>)
    ensures
        r@ == pdu_bytes(*pdu),
{
    let header = PduHeader { pdu_type: pdu.body.tag().code(), ..pdu.header };
    let mut out: Vec<u8> = Vec::new();
    push_header(&mut out, &header);
    push_body(&mut out, &pdu.body);
    assert(out@ =~= pdu_bytes(*pdu));
    out
}

// ---- decoding ----

fn read_entity(b: &[u8], i: usize) -> (r: EntityIdentifier)
    requires
        i + 6 <= b@.len() <= usize::MAX,
    ensures
        r == entity_at(b@, i as int),
{
    EntityIdentifier {
        site_id: read_u16(b, i),
        application_id: read_u16(b, i + 2),
        entity_id: read_u16(b, i + 4),
    }
}

fn read_body(t: PduTypeTag, b: &[u8], i: usize) -> (r: PduBody)
    requires
        i + body_len(t) <= b@.len() <= usize::MAX,
    ensures
        r == body_at(t, b@, i as int),
{
    let originating = read_entity(b, i);
    let receiving = read_entity(b, i + 6);
    let request_id = read_u32(b, i + 12);
    match t {
        PduTypeTag::StartResume => PduBody::StartResume { originating, receiving, request_id },
        PduTypeTag::StopFreeze => PduBody::StopFreeze {
            originating,
            receiving,
            request_id,
            reason: StopReason::from_code(b[i + 16]),
        },
        PduTypeTag::Acknowledge => PduBody::Acknowledge {
            originating,
            receiving,
            request_id,
            acknowledge_flag: b[i + 16],
            response_flag: b[i + 17],
        },
        PduTypeTag::ActionRequest => PduBody::ActionRequest {
            originating,
            receiving,
            request_id,
            action_id: read_u32(b, i + 16),
        },
        PduTypeTag::ActionResponse => PduBody::ActionResponse { originating, receiving, request_id },
    }
}

fn decode_from(header: &PduHeader, b: &[u8], start: usize) -> (r: Result<Pdu, DecodeError>)
    ensures
        r == decode_at(*header, b@, start as int),
{
    match PduTypeTag::from_code(header.pdu_type) {
        None => Err(DecodeError::UnknownTag),
        Some(t) => {
            if b.len() < start || b.len() - start < t.body_len() {
                Err(DecodeError::Truncated)
            } else {
                Ok(Pdu { header: *header, body: read_body(t, b, start) })
            }
        },
    }
}

/// Decodes the body in `bytes` under an already decoded header. Bytes past
/// the family's layout are ignored.
pub fn decode(header: &PduHeader, bytes: &[u8]) -> (r: Result<Pdu, DecodeError>)
    ensures
        r == decode_at(*header, bytes@, 0),
{
    decode_from(header, bytes, 0)
}

/// Decodes the header at the start of a datagram.
pub fn decode_header(bytes: &[u8]) -> (r: Result<PduHeader, DecodeError>)
    ensures
        bytes@.len() < HEADER_LEN ==> r == Err::<PduHeader, DecodeError>(DecodeError::Truncated),
        bytes@.len() >= HEADER_LEN ==> r == Ok::<PduHeader, DecodeError>(header_at(bytes@)),
{
    if bytes.len() < HEADER_LEN {
        Err(DecodeError::Truncated)
    } else {
        Ok(
            PduHeader {
                protocol_version: bytes[0],
                exercise_id: bytes[1],
                pdu_type: bytes[2],
                protocol_family: bytes[3],
                timestamp: read_u32(bytes, 4),
                length: read_u16(bytes, 8),
                padding: read_u16(bytes, 10),
            },
        )
    }
}

/// Decodes a whole datagram: header, then the body it announces.
pub fn decode_datagram(bytes: &[u8]) -> (r: Result<Pdu, DecodeError>)
    ensures
        r == decode_datagram_spec(bytes@),
{
    match decode_header(bytes) {
        Err(e) => Err(e),
        Ok(header) => decode_from(&header, bytes, HEADER_LEN),
    }
}

// ---- laws ----

proof fn lemma_tag_code_inverse(t: PduTypeTag)
    ensures
        tag_of_code(tag_code(t)) == Some(t),
{
}

proof fn lemma_body_round_trip(b: PduBody, pre: Seq<u8>)
    requires
        b matches PduBody::StopFreeze { reason, .. } ==> reason.is_canonical(),
    ensures
        body_at(body_tag(b), pre + body_bytes(b), pre.len() as int) == b,
        (pre + body_bytes(b)).len() == pre.len() + body_len(body_tag(b)),
{
    let s = pre + body_bytes(b);
    let n = pre.len() as int;
    let bb = body_bytes(b);
    assert forall|k: int| 0 <= k < bb.len() implies s[n + k] == bb[k] by {}
    match b {
        PduBody::StartResume { originating: o, receiving: r, request_id } => {
            lemma_entity_bytes(o);
            lemma_entity_bytes(r);
            lemma_u32_be_bytes(request_id);
        },
        PduBody::StopFreeze { originating: o, receiving: r, request_id, reason } => {
            lemma_entity_bytes(o);
            lemma_entity_bytes(r);
            lemma_u32_be_bytes(request_id);
        },
        PduBody::Acknowledge { originating: o, receiving: r, request_id, .. } => {
            lemma_entity_bytes(o);
            lemma_entity_bytes(r);
            lemma_u32_be_bytes(request_id);
        },
        PduBody::ActionRequest { originating: o, receiving: r, request_id, action_id } => {
            lemma_entity_bytes(o);
            lemma_entity_bytes(r);
            lemma_u32_be_bytes(request_id);
            lemma_u32_be_bytes(action_id);
        },
        PduBody::ActionResponse { originating: o, receiving: r, request_id } => {
            lemma_entity_bytes(o);
            lemma_entity_bytes(r);
            lemma_u32_be_bytes(request_id);
        },
    }
    assert(body_at(body_tag(b), s, n) == b);
}

proof fn lemma_entity_bytes(e: EntityIdentifier)
    ensures
        entity_bytes(e).len() == 6,
        entity_at(entity_bytes(e), 0) == e,
{
    lemma_u16_be_bytes(e.site_id);
    lemma_u16_be_bytes(e.application_id);
    lemma_u16_be_bytes(e.entity_id);
}

/// Decoding inverts encoding, for every family and every field value: the
/// datagram of a well-formed PDU decodes to that PDU, and so does its body
/// under its header.
pub proof fn lemma_round_trip(p: Pdu)
    requires
        p.wf(),
    ensures
        decode_datagram_spec(pdu_bytes(p)) == Ok::<Pdu, DecodeError>(p),
        decode_at(p.header, body_bytes(p.body), 0) == Ok::<Pdu, DecodeError>(p),
{
    let h = p.header;
    assert(PduHeader { pdu_type: tag_code(body_tag(p.body)), ..h } == h);
    let hb = header_bytes(h);
    lemma_u32_be_bytes(h.timestamp);
    lemma_u16_be_bytes(h.length);
    lemma_u16_be_bytes(h.padding);
    assert(hb.len() == HEADER_LEN);
    assert(header_at(hb) == h);
    let s = pdu_bytes(p);
    assert(s == hb + body_bytes(p.body));
    assert forall|k: int| 0 <= k < HEADER_LEN implies s[k] == hb[k] by {}
    assert(header_at(s) == header_at(hb));
    lemma_tag_code_inverse(body_tag(p.body));
    lemma_body_round_trip(p.body, hb);
    lemma_body_round_trip(p.body, Seq::empty());
    assert(Seq::<u8>::empty() + body_bytes(p.body) =~= body_bytes(p.body));
}

/// Decoding is total: a datagram fails exactly when it is shorter than the
/// header, names no management family, or is shorter than that family's
/// layout, and each failure has its own error.
pub proof fn lemma_decode_rejects_malformed(s: Seq<u8>)
    ensures
        s.len() < HEADER_LEN ==> decode_datagram_spec(s) == Err::<Pdu, DecodeError>(DecodeError::Truncated),
        s.len() >= HEADER_LEN && tag_of_code(s[2]) is None ==> decode_datagram_spec(s) == Err::<Pdu, DecodeError>(DecodeError::UnknownTag),
        s.len() >= HEADER_LEN && tag_of_code(s[2]) is Some && s.len() < HEADER_LEN + body_len(tag_of_code(s[2])->0)
            ==> decode_datagram_spec(s) == Err::<Pdu, DecodeError>(DecodeError::Truncated),
        decode_datagram_spec(s) is Ok <==> (s.len() >= HEADER_LEN && tag_of_code(s[2]) is Some && s.len()
            >= HEADER_LEN + body_len(tag_of_code(s[2])->0)),
{
}

/// Every proper prefix of an encoded PDU, of any family, is rejected as
/// truncated.
pub proof fn lemma_prefix_truncated(p: Pdu, k: int)
    requires
        p.wf(),
        0 <= k < pdu_bytes(p).len(),
    ensures
        decode_datagram_spec(pdu_bytes(p).subrange(0, k)) == Err::<Pdu, DecodeError>(DecodeError::Truncated),
{
    let s = pdu_bytes(p);
    let hb = header_bytes(p.header);
    lemma_u32_be_bytes(p.header.timestamp);
    lemma_u16_be_bytes(p.header.length);
    lemma_u16_be_bytes(p.header.padding);
    assert(PduHeader { pdu_type: tag_code(body_tag(p.body)), ..p.header } == p.header);
    lemma_body_round_trip(p.body, hb);
    lemma_tag_code_inverse(body_tag(p.body));
    let t = s.subrange(0, k);
    if k >= HEADER_LEN {
        assert(t[2] == s[2]);
        assert(s[2] == hb[2]);
    }
}

} // verus!
