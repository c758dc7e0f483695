use pomobridge::decode::DecodeError;
use pomobridge::decode::decode_message;
use pomobridge::decode::decode_status_payload;
use pomobridge::decode::state_from_code;
use pomobridge::decode::status_from_fields;
use pomobridge::status::Status;
use pomobridge::status::TimerState;

/// Wraps a payload the way the timer sends it: base64, then quoted as a JSON
/// string envelope.
fn envelope_of(payload: &[u8]) -> String {
    format!("\"{}\"", base64::encode(payload))
}

#[test]
fn decodes_a_well_formed_message() {
    let msg = envelope_of(
        b"{\"state\":1,\"remaining\":3600000000000,\"count\":2,\"n_pomodoros\":8}",
    );
    let status = decode_message(&msg).expect("decodes");
    assert_eq!(
        status,
        Status {
            state: TimerState::Running,
            remaining: 3_600_000_000_000,
            count: 2,
            n_pomodoros: 8,
        }
    );
}

#[test]
fn decodes_negative_remaining() {
    let msg = envelope_of(b"{\"state\":3,\"remaining\":-1,\"count\":0,\"n_pomodoros\":4}");
    let status = decode_message(&msg).expect("decodes");
    assert_eq!(status.state, TimerState::Complete);
    assert_eq!(status.remaining, -1);
    assert_eq!(status.remaining_minutes(), 0);
}

#[test]
fn unknown_wire_code_decodes_to_unknown() {
    let msg = envelope_of(b"{\"state\":9,\"remaining\":0,\"count\":0,\"n_pomodoros\":0}");
    let status = decode_message(&msg).expect("decodes");
    assert_eq!(status.state, TimerState::Unknown);
}

#[test]
fn payload_decodes_without_the_envelope() {
    let inner = base64::encode(b"{\"state\":4,\"remaining\":90000000000,\"count\":1,\"n_pomodoros\":4}");
    let status = decode_status_payload(&inner).expect("decodes");
    assert_eq!(
        status,
        Status {
            state: TimerState::Paused,
            remaining: 90_000_000_000,
            count: 1,
            n_pomodoros: 4,
        }
    );
}

#[test]
fn envelope_must_be_json() {
    assert_eq!(decode_message("not json at all"), Err(DecodeError::Envelope));
}

#[test]
fn envelope_must_be_a_json_string() {
    assert_eq!(decode_message("123"), Err(DecodeError::Envelope));
    assert_eq!(decode_message("{\"state\":1}"), Err(DecodeError::Envelope));
}

#[test]
fn content_must_be_base64() {
    assert_eq!(decode_message("\"!!!not base64!!!\""), Err(DecodeError::Base64));
    assert_eq!(decode_status_payload("!!!not base64!!!"), Err(DecodeError::Base64));
}

#[test]
fn decoded_bytes_must_be_utf8() {
    let msg = envelope_of(&[0xff, 0xfe, 0x00]);
    assert_eq!(decode_message(&msg), Err(DecodeError::Utf8));
}

#[test]
fn payload_must_be_json_with_all_fields() {
    assert_eq!(decode_message(&envelope_of(b"hello")), Err(DecodeError::Payload));
    assert_eq!(decode_message(&envelope_of(b"{\"state\":1}")), Err(DecodeError::Payload));
    assert_eq!(
        decode_message(&envelope_of(b"{\"state\":1,\"remaining\":0,\"count\":0}")),
        Err(DecodeError::Payload)
    );
}

#[test]
fn payload_fields_must_have_the_right_type() {
    assert_eq!(
        decode_message(
            &envelope_of(b"{\"state\":-1,\"remaining\":0,\"count\":0,\"n_pomodoros\":0}")
        ),
        Err(DecodeError::Payload)
    );
    assert_eq!(
        decode_message(
            &envelope_of(b"{\"state\":\"x\",\"remaining\":0,\"count\":0,\"n_pomodoros\":0}")
        ),
        Err(DecodeError::Payload)
    );
}

#[test]
fn counters_must_fit_in_a_byte() {
    assert_eq!(
        decode_message(
            &envelope_of(b"{\"state\":1,\"remaining\":0,\"count\":300,\"n_pomodoros\":0}")
        ),
        Err(DecodeError::Payload)
    );
    assert_eq!(status_from_fields(1, 0, 0, 256), Err(DecodeError::Payload));
    assert_eq!(
        status_from_fields(1, 5, 255, 255),
        Ok(Status { state: TimerState::Running, remaining: 5, count: 255, n_pomodoros: 255 })
    );
}

#[test]
fn wire_codes_map_to_the_closed_enumeration() {
    assert_eq!(state_from_code(0), TimerState::Unknown);
    assert_eq!(state_from_code(1), TimerState::Running);
    assert_eq!(state_from_code(2), TimerState::Breaking);
    assert_eq!(state_from_code(3), TimerState::Complete);
    assert_eq!(state_from_code(4), TimerState::Paused);
    assert_eq!(state_from_code(5), TimerState::Unknown);
    assert_eq!(state_from_code(u64::MAX), TimerState::Unknown);
}
