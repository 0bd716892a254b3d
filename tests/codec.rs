use centurion::pdu::{
    decode, decode_datagram, decode_header, encode, DecodeError, EntityIdentifier, Pdu, PduBody,
    PduHeader, PduTypeTag, StopReason, HEADER_LEN,
};

fn zeros() -> EntityIdentifier {
    EntityIdentifier::new(0, 0, 0)
}

fn maxed() -> EntityIdentifier {
    EntityIdentifier::receive_all()
}

fn sample_bodies(o: EntityIdentifier, r: EntityIdentifier, id: u32) -> Vec<PduBody> {
    vec![
        PduBody::StartResume { originating: o, receiving: r, request_id: id },
        PduBody::StopFreeze { originating: o, receiving: r, request_id: id, reason: StopReason::Termination },
        PduBody::StopFreeze { originating: o, receiving: r, request_id: id, reason: StopReason::Recess },
        PduBody::StopFreeze { originating: o, receiving: r, request_id: id, reason: StopReason::StopForRestart },
        PduBody::StopFreeze { originating: o, receiving: r, request_id: id, reason: StopReason::Unknown(9) },
        PduBody::Acknowledge { originating: o, receiving: r, request_id: id, acknowledge_flag: 3, response_flag: 1 },
        PduBody::ActionRequest { originating: o, receiving: r, request_id: id, action_id: 39 },
        PduBody::ActionResponse { originating: o, receiving: r, request_id: id },
    ]
}

#[test]
fn round_trip_every_family_with_boundary_identifiers() {
    for (o, r, id) in [
        (zeros(), zeros(), 0u32),
        (maxed(), maxed(), u32::MAX),
        (EntityIdentifier::new(1, 50, 1), maxed(), 7),
        (zeros(), maxed(), 0x0102_0304),
    ] {
        for body in sample_bodies(o, r, id) {
            let pdu = Pdu::from_body(body);
            let bytes = encode(&pdu);
            assert_eq!(decode_datagram(&bytes), Ok(pdu));
            let header = decode_header(&bytes).unwrap();
            assert_eq!(header, pdu.header);
            assert_eq!(decode(&header, &bytes[HEADER_LEN..]), Ok(pdu));
        }
    }
}

#[test]
fn round_trip_keeps_pass_through_header_fields() {
    let body = PduBody::StartResume { originating: maxed(), receiving: zeros(), request_id: 5 };
    let pdu = Pdu {
        header: PduHeader {
            protocol_version: 6,
            exercise_id: 200,
            pdu_type: 13,
            protocol_family: 5,
            timestamp: 0xdead_beef,
            length: 1234,
            padding: 0xffff,
        },
        body,
    };
    assert_eq!(decode_datagram(&encode(&pdu)), Ok(pdu));
}

#[test]
fn start_resume_layout_is_big_endian_and_fixed_width() {
    let body = PduBody::StartResume {
        originating: EntityIdentifier::new(1, 50, 1),
        receiving: maxed(),
        request_id: 0x0102_0304,
    };
    let bytes = encode(&Pdu::from_body(body));
    assert_eq!(
        bytes,
        vec![
            7, 1, 13, 5, 0, 0, 0, 0, 0, 28, 0, 0, // header
            0, 1, 0, 50, 0, 1, // originating
            0xff, 0xff, 0xff, 0xff, 0xff, 0xff, // receiving
            1, 2, 3, 4, // request id
        ]
    );
}

#[test]
fn family_bodies_have_their_documented_lengths() {
    let o = zeros();
    let expected = [16usize, 17, 17, 17, 17, 18, 20, 16];
    for (body, len) in sample_bodies(o, o, 1).into_iter().zip(expected) {
        assert_eq!(encode(&Pdu::from_body(body)).len(), HEADER_LEN + len);
        assert_eq!(body.tag().body_len(), len);
    }
}

#[test]
fn stop_freeze_reason_follows_the_request_id() {
    let body = PduBody::StopFreeze {
        originating: zeros(),
        receiving: zeros(),
        request_id: 3,
        reason: StopReason::Recess,
    };
    let bytes = encode(&Pdu::from_body(body));
    assert_eq!(&bytes[HEADER_LEN + 12..], &[0, 0, 0, 3, 1]);
}

#[test]
fn tag_codes_are_stable() {
    assert_eq!(PduTypeTag::StartResume.code(), 13);
    assert_eq!(PduTypeTag::StopFreeze.code(), 14);
    assert_eq!(PduTypeTag::Acknowledge.code(), 15);
    assert_eq!(PduTypeTag::ActionRequest.code(), 16);
    assert_eq!(PduTypeTag::ActionResponse.code(), 17);
    assert_eq!(PduTypeTag::from_code(15), Some(PduTypeTag::Acknowledge));
    assert_eq!(PduTypeTag::from_code(1), None);
}

#[test]
fn unknown_stop_reason_decodes_to_unknown() {
    assert_eq!(StopReason::from_code(2), StopReason::Termination);
    assert_eq!(StopReason::from_code(1), StopReason::Recess);
    assert_eq!(StopReason::from_code(7), StopReason::StopForRestart);
    assert_eq!(StopReason::from_code(0), StopReason::Unknown(0));
    assert_eq!(StopReason::from_code(250), StopReason::Unknown(250));
}

#[test]
fn every_proper_prefix_is_truncated() {
    for body in sample_bodies(maxed(), zeros(), 42) {
        let bytes = encode(&Pdu::from_body(body));
        for k in 0..bytes.len() {
            assert_eq!(decode_datagram(&bytes[..k]), Err(DecodeError::Truncated));
        }
    }
}

#[test]
fn short_body_under_known_header_is_truncated() {
    let header = decode_header(&encode(&Pdu::from_body(PduBody::ActionRequest {
        originating: zeros(),
        receiving: zeros(),
        request_id: 1,
        action_id: 2,
    })))
    .unwrap();
    assert_eq!(decode(&header, &[0u8; 19]), Err(DecodeError::Truncated));
    assert_eq!(decode(&header, &[]), Err(DecodeError::Truncated));
    assert!(decode(&header, &[0u8; 20]).is_ok());
}

#[test]
fn header_shorter_than_twelve_bytes_is_truncated() {
    assert_eq!(decode_header(&[]), Err(DecodeError::Truncated));
    assert_eq!(decode_header(&[0u8; 11]), Err(DecodeError::Truncated));
    assert!(decode_header(&[0u8; 12]).is_ok());
}

#[test]
fn unknown_tag_is_rejected_whatever_follows() {
    let mut bytes = vec![7u8, 1, 1, 5, 0, 0, 0, 0, 0, 28, 0, 0];
    bytes.extend_from_slice(&[0u8; 40]);
    assert_eq!(decode_datagram(&bytes), Err(DecodeError::UnknownTag));
    let header = decode_header(&bytes).unwrap();
    assert_eq!(decode(&header, &[]), Err(DecodeError::UnknownTag));
    bytes[2] = 18;
    assert_eq!(decode_datagram(&bytes), Err(DecodeError::UnknownTag));
}

#[test]
fn trailing_bytes_are_ignored() {
    let pdu = Pdu::from_body(PduBody::ActionResponse { originating: zeros(), receiving: maxed(), request_id: 9 });
    let mut bytes = encode(&pdu);
    bytes.extend_from_slice(&[0xaa; 1000]);
    assert_eq!(decode_datagram(&bytes), Ok(pdu));
}

#[test]
fn pseudo_random_buffers_never_panic() {
    let mut state: u32 = 0x1234_5678;
    for len in 0..64usize {
        for _ in 0..50 {
            let mut buf = Vec::with_capacity(len);
            for _ in 0..len {
                state = state.wrapping_mul(1_664_525).wrapping_add(1_013_904_223);
                buf.push((state >> 24) as u8);
            }
            match decode_datagram(&buf) {
                Ok(pdu) => {
                    assert!(len >= HEADER_LEN + pdu.body.tag().body_len());
                    assert_eq!(pdu.header.pdu_type, pdu.body.tag().code());
                }
                Err(DecodeError::Truncated) => {}
                Err(DecodeError::UnknownTag) => assert!(len >= HEADER_LEN),
            }
        }
    }
}
