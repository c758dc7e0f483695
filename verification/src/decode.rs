//! The status decoder: one inbound message is a JSON string (the envelope)
//! holding base64 of a UTF-8 JSON object with the four status fields. The
//! pipeline is strict and ordered - envelope, base64, UTF-8, structured
//! payload - and any stage failing yields that stage's error; no partial
//! snapshot is ever produced.

use vstd::prelude::*;

use crate::status::Status;
use crate::status::TimerState;

verus! {

/// Why a message failed to decode: one variant per pipeline stage.
#[derive(Debug, Clone, Copy, PartialEq, Eq, Structural)]
pub enum DecodeError {
    /// The outer envelope is not a JSON string.
    Envelope,
    /// The envelope's content is not valid base64.
    Base64,
    /// The base64-decoded bytes are not valid UTF-8.
    Utf8,
    /// The payload is not a JSON object with the four fields in range.
    Payload,
}

/// What parsing the envelope yields: the content of the JSON string the
/// message is, or `None` where the message is not one JSON string. A
/// deterministic function of the message text alone.
pub uninterp spec fn spec_envelope_inner(msg: Seq<char>) -> Option<Seq<char>>;

/// What `base64::decode` yields on a given input: `None` where the input is
/// rejected, otherwise the decoded bytes. A deterministic function of the
/// input alone.
pub uninterp spec fn spec_base64_decoded(s: Seq<char>) -> Option<Seq<u8>>;

/// What extracting the payload's four fields yields: the values under
/// "state", "remaining", "count" and "n_pomodoros" where the text is a JSON
/// object carrying all four as integers in range, `None` otherwise. A
/// deterministic function of the payload text alone.
pub uninterp spec fn spec_payload_fields(s: Seq<char>) -> Option<(u64, i64, u64, u64)>;

/// Relies on `serde_json::from_str::<String>`: a JSON document parses as a
/// `String` exactly when it is one JSON string, yielding its content - a
/// deterministic function of the text, named `spec_envelope_inner`.
#[verifier::external_body]
fn envelope_inner(msg: &str) -> (r: Option<String>)
    ensures
        match r {
            Some(inner) => spec_envelope_inner(msg@) == Some(inner@),
            None => spec_envelope_inner(msg@) is None,
        },
{
    serde_json::from_str::<String>(msg).ok()
}

/// Relies on `base64::decode` (the standard alphabet): a deterministic
/// function of the input, named `spec_base64_decoded`.
#[verifier::external_body]
fn base64_decode(s: &str) -> (r: Option<Vec<u8>>)
    ensures
        match r {
            Some(bytes) => spec_base64_decoded(s@) == Some(bytes@),
            None => spec_base64_decoded(s@) is None,
        },
{
    base64::decode(s).ok()
}

/// Relies on `String::from_utf8`: succeeds exactly on valid UTF-8, yielding
/// its decoding (both as vstd's model of UTF-8 states them).
#[verifier::external_body]
fn string_from_utf8(bytes: Vec<u8>) -> (r: Option<String>)
    ensures
        r is Some <==> vstd::utf8::valid_utf8(bytes@),
        r matches Some(s) ==> s@ == vstd::utf8::decode_utf8(bytes@),
{
    String::from_utf8(bytes).ok()
}

/// Relies on `serde_json::from_str::<Value>` and `Value::get` / `as_u64` /
/// `as_i64`: the payload's "state", "remaining", "count" and "n_pomodoros"
/// fields - one composed extraction, a deterministic function of the text,
/// named `spec_payload_fields`.
#[verifier::external_body]
fn payload_fields(s: &str) -> (r: Option<(u64, i64, u64, u64)>)
    ensures
        match r {
            Some(fields) => spec_payload_fields(s@) == Some(fields),
            None => spec_payload_fields(s@) is None,
        },
{
    let v: serde_json::Value = serde_json::from_str(s).ok()?;
    let state = v.get("state")?.as_u64()?;
    let remaining = v.get("remaining")?.as_i64()?;
    let count = v.get("count")?.as_u64()?;
    let n_pomodoros = v.get("n_pomodoros")?.as_u64()?;
    Some((state, remaining, count, n_pomodoros))
}

/// The closed decoding of the wire phase code: 1 through 4 are the known
/// phases, everything else decodes to `Unknown` rather than erroring, so an
/// unrecognized raw value never propagates past this boundary.
pub open spec fn spec_state_from_code(code: int) -> TimerState {
    if code == 1 {
        TimerState::Running
    } else if code == 2 {
        TimerState::Breaking
    } else if code == 3 {
        TimerState::Complete
    } else if code == 4 {
        TimerState::Paused
    } else {
        TimerState::Unknown
    }
}

/// Maps a wire phase code to the phase enumeration, per
/// `spec_state_from_code`.
pub fn state_from_code(code: u64) -> (r: TimerState)
    ensures
        r == spec_state_from_code(code as int),
{
    if code == 1 {
        TimerState::Running
    } else if code == 2 {
        TimerState::Breaking
    } else if code == 3 {
        TimerState::Complete
    } else if code == 4 {
        TimerState::Paused
    } else {
        TimerState::Unknown
    }
}

/// The snapshot built from the four raw payload fields: `Ok` exactly when
/// both counters fit in a byte, `Err(Payload)` otherwise.
pub open spec fn spec_status_from_fields(
    state_code: u64,
    remaining: i64,
    count: u64,
    n_pomodoros: u64,
) -> Result<Status, DecodeError> {
    if count <= 255 && n_pomodoros <= 255 {
        Ok(
            Status {
                state: spec_state_from_code(state_code as int),
                remaining,
                count: count as u8,
                n_pomodoros: n_pomodoros as u8,
            },
        )
    } else {
        Err(DecodeError::Payload)
    }
}

/// Builds a snapshot from the four raw payload fields, per
/// `spec_status_from_fields`.
pub fn status_from_fields(state_code: u64, remaining: i64, count: u64, n_pomodoros: u64) -> (r:
    Result<Status, DecodeError>)
    ensures
        r == spec_status_from_fields(state_code, remaining, count, n_pomodoros),
{
    if count <= 255 && n_pomodoros <= 255 {
        Ok(
            Status {
                state: state_from_code(state_code),
                remaining,
                count: count as u8,
                n_pomodoros: n_pomodoros as u8,
            },
        )
    } else {
        Err(DecodeError::Payload)
    }
}

/// What decoding the envelope's content must yield: the error of the first
/// failing stage - base64, then UTF-8, then the payload's field extraction -
/// and otherwise exactly the snapshot the four fields build.
pub open spec fn is_payload_decode(inner: Seq<char>, r: Result<Status, DecodeError>) -> bool {
    match spec_base64_decoded(inner) {
        None => r == Err::<Status, DecodeError>(DecodeError::Base64),
        Some(bytes) => {
            if !vstd::utf8::valid_utf8(bytes) {
                r == Err::<Status, DecodeError>(DecodeError::Utf8)
            } else {
                match spec_payload_fields(vstd::utf8::decode_utf8(bytes)) {
                    None => r == Err::<Status, DecodeError>(DecodeError::Payload),
                    Some(fields) => r == spec_status_from_fields(
                        fields.0,
                        fields.1,
                        fields.2,
                        fields.3,
                    ),
                }
            }
        },
    }
}

/// Decodes everything inside the envelope: base64, then UTF-8, then the
/// structured payload, per `is_payload_decode`.
pub fn decode_status_payload(inner: &str) -> (r: Result<Status, DecodeError>)
    ensures
        is_payload_decode(inner@, r),
{
    let bytes = match base64_decode(inner) {
        Some(b) => b,
        None => {
            return Err(DecodeError::Base64);
        },
    };
    let payload = match string_from_utf8(bytes) {
        Some(s) => s,
        None => {
            return Err(DecodeError::Utf8);
        },
    };
    let fields = match payload_fields(payload.as_str()) {
        Some(f) => f,
        None => {
            return Err(DecodeError::Payload);
        },
    };
    status_from_fields(fields.0, fields.1, fields.2, fields.3)
}

/// Decodes one inbound message: a message that is not one JSON string fails
/// as `Envelope`; otherwise the string's content decodes per
/// `is_payload_decode`. No partial snapshot is ever produced; the caller
/// decides what a failure is fatal to.
pub fn decode_message(msg: &str) -> (r: Result<Status, DecodeError>)
    ensures
        match spec_envelope_inner(msg@) {
            None => r == Err::<Status, DecodeError>(DecodeError::Envelope),
            Some(inner) => is_payload_decode(inner, r),
        },
{
    let inner = match envelope_inner(msg) {
        Some(s) => s,
        None => {
            return Err(DecodeError::Envelope);
        },
    };
    decode_status_payload(inner.as_str())
}

} // verus!
