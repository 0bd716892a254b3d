use centurion::command::{Command, CommandError, RequestFamily, INITIALIZE_INTERNAL_PARAMETERS};
use centurion::pdu::{decode_datagram, encode, EntityIdentifier, Pdu, PduBody, PduTypeTag, StopReason};
use centurion::session::{
    finish_command, Exchange, RequestIds, TransportError, TransportSession, DEFAULT_TIMEOUT_MS,
};

fn local() -> EntityIdentifier {
    EntityIdentifier::new(1, 50, 1)
}

fn session() -> TransportSession {
    TransportSession::new(local(), "127.0.0.1:3000".to_string())
}

fn ack(request_id: u32, response_flag: u8) -> Vec<u8> {
    encode(&Pdu::from_body(PduBody::Acknowledge {
        originating: EntityIdentifier::new(1, 10, 1),
        receiving: local(),
        request_id,
        acknowledge_flag: 3,
        response_flag,
    }))
}

#[test]
fn request_ids_start_at_zero() {
    let ids = RequestIds::new();
    assert_eq!((ids.start_resume, ids.stop_freeze, ids.action_request), (0, 0, 0));
}

#[test]
fn consecutive_ids_of_one_family_increase_by_one() {
    let mut ids = RequestIds::new();
    let issued: Vec<u32> = (0..10).map(|_| ids.next_id(RequestFamily::StopFreeze)).collect();
    assert_eq!(issued, (0..10).collect::<Vec<u32>>());
    assert_eq!(ids.stop_freeze, 10);
    assert_eq!(ids.start_resume, 0);
    assert_eq!(ids.action_request, 0);
}

#[test]
fn interleaved_families_keep_separate_counters() {
    let mut ids = RequestIds::new();
    let order = [
        RequestFamily::StartResume,
        RequestFamily::StopFreeze,
        RequestFamily::StartResume,
        RequestFamily::ActionRequest,
        RequestFamily::StopFreeze,
        RequestFamily::StartResume,
    ];
    let issued: Vec<u32> = order.iter().map(|f| ids.next_id(*f)).collect();
    assert_eq!(issued, vec![0, 0, 1, 0, 1, 2]);
    assert_eq!((ids.start_resume, ids.stop_freeze, ids.action_request), (3, 2, 1));
}

#[test]
fn counter_wraps_after_its_largest_value() {
    let mut ids = RequestIds { start_resume: u32::MAX - 1, stop_freeze: 5, action_request: 6 };
    assert_eq!(ids.next_id(RequestFamily::StartResume), u32::MAX - 1);
    assert_eq!(ids.next_id(RequestFamily::StartResume), u32::MAX);
    assert_eq!(ids.next_id(RequestFamily::StartResume), 0);
    assert_eq!(ids.start_resume, 1);
    assert_eq!((ids.stop_freeze, ids.action_request), (5, 6));
}

#[test]
fn command_names_map_to_commands() {
    assert_eq!(Command::from_name("initialize"), Ok(Command::Initialize));
    assert_eq!(Command::from_name("startup"), Ok(Command::Startup));
    assert_eq!(Command::from_name("terminate"), Ok(Command::Terminate));
    assert_eq!(Command::from_name("standby"), Ok(Command::Standby));
    assert_eq!(Command::from_name("reset"), Ok(Command::Reset));
    assert_eq!(Command::from_name("Startup"), Err(CommandError::InvalidCommand));
    assert_eq!(Command::from_name(""), Err(CommandError::InvalidCommand));
    assert_eq!(Command::from_name("restart"), Err(CommandError::InvalidCommand));
}

#[test]
fn command_table_gives_family_body_and_reply() {
    let all = EntityIdentifier::receive_all();
    assert_eq!(Command::Initialize.family(), RequestFamily::ActionRequest);
    assert_eq!(Command::Initialize.reply_tag(), PduTypeTag::ActionResponse);
    assert_eq!(
        Command::Initialize.body(local(), 4),
        PduBody::ActionRequest {
            originating: local(),
            receiving: all,
            request_id: 4,
            action_id: INITIALIZE_INTERNAL_PARAMETERS,
        }
    );
    assert_eq!(Command::Startup.family(), RequestFamily::StartResume);
    assert_eq!(Command::Startup.reply_tag(), PduTypeTag::Acknowledge);
    for (c, reason) in [
        (Command::Terminate, StopReason::Termination),
        (Command::Standby, StopReason::Recess),
        (Command::Reset, StopReason::StopForRestart),
    ] {
        assert_eq!(c.family(), RequestFamily::StopFreeze);
        assert_eq!(c.reply_tag(), PduTypeTag::Acknowledge);
        assert_eq!(
            c.body(local(), 8),
            PduBody::StopFreeze { originating: local(), receiving: all, request_id: 8, reason }
        );
    }
}

#[test]
fn startup_datagram_carries_the_next_start_resume_id() {
    let mut s = session();
    assert_eq!(s.timeout_ms, DEFAULT_TIMEOUT_MS);
    let (pending, bytes) = s.start_command(Command::Startup);
    assert_eq!(pending.request_id, 0);
    assert_eq!(pending.expected_reply, PduTypeTag::Acknowledge);
    let sent = decode_datagram(&bytes).unwrap();
    assert_eq!(
        sent.body,
        PduBody::StartResume { originating: local(), receiving: EntityIdentifier::receive_all(), request_id: 0 }
    );
    let (second, _) = s.start_command(Command::Startup);
    assert_eq!(second.request_id, 1);
    assert_eq!(s.request_ids.start_resume, 2);
}

#[test]
fn timeout_still_counts_the_request_once() {
    let mut s = session().with_timeout(50);
    assert_eq!(s.timeout_ms, 50);
    let (pending, _) = s.start_command(Command::Startup);
    assert_eq!(finish_command(&pending, &Exchange::TimedOut), Err(TransportError::Timeout));
    assert_eq!(s.request_ids.start_resume, 1);
    assert_eq!(s.request_ids.stop_freeze, 0);
    assert_eq!(s.request_ids.action_request, 0);
}

#[test]
fn failed_send_is_reported() {
    let mut s = session();
    let (pending, _) = s.start_command(Command::Terminate);
    assert_eq!(finish_command(&pending, &Exchange::SendFailed), Err(TransportError::SendFailed));
    assert_eq!(s.request_ids.stop_freeze, 1);
}

#[test]
fn matching_acknowledge_is_accepted() {
    let mut s = session();
    let (pending, _) = s.start_command(Command::Standby);
    let reply = finish_command(&pending, &Exchange::Received(ack(0, 1))).unwrap();
    assert!(reply.able_to_comply);
    assert_eq!(reply.pdu.body.request_id(), 0);
}

#[test]
fn other_response_flag_is_a_warning_not_an_error() {
    let mut s = session();
    let (pending, _) = s.start_command(Command::Reset);
    let reply = finish_command(&pending, &Exchange::Received(ack(0, 2))).unwrap();
    assert!(!reply.able_to_comply);
}

#[test]
fn reply_with_another_id_is_rejected() {
    let mut s = session();
    let (pending, _) = s.start_command(Command::Startup);
    assert_eq!(
        finish_command(&pending, &Exchange::Received(ack(1, 1))),
        Err(TransportError::UnexpectedReply)
    );
}

#[test]
fn reply_of_another_family_is_rejected() {
    let mut s = session();
    let (pending, _) = s.start_command(Command::Initialize);
    assert_eq!(
        finish_command(&pending, &Exchange::Received(ack(0, 1))),
        Err(TransportError::UnexpectedReply)
    );
    let response = encode(&Pdu::from_body(PduBody::ActionResponse {
        originating: EntityIdentifier::new(1, 10, 1),
        receiving: local(),
        request_id: 0,
    }));
    let reply = finish_command(&pending, &Exchange::Received(response)).unwrap();
    assert!(reply.able_to_comply);
}

#[test]
fn undecodable_reply_is_rejected() {
    let mut s = session();
    let (pending, _) = s.start_command(Command::Startup);
    assert_eq!(
        finish_command(&pending, &Exchange::Received(vec![1, 2, 3])),
        Err(TransportError::UnexpectedReply)
    );
}

#[test]
fn invalid_command_name_leaves_counters_alone() {
    let mut s = session();
    assert_eq!(s.prepare_command("launch").map(|_| ()), Err(CommandError::InvalidCommand));
    assert_eq!(s.request_ids, RequestIds::new());
    let (pending, _) = s.prepare_command("initialize").unwrap();
    assert_eq!(pending.expected_reply, PduTypeTag::ActionResponse);
    assert_eq!(s.request_ids.action_request, 1);
}
