use vstd::prelude::*;
use vstd::string::StringExecFns;
use crate::numtext::{is_json_number, check_json_number};
use crate::strutil::str_eq;
use crate::rawjson::{
    envelope_kind_of, heartbeat_ts_of, status_fields_of, control_vals_of, probe_envelope_kind,
    probe_heartbeat_ts, probe_status_fields, probe_control_vals,
};

verus! {

/// The wire envelope: every frame is one JSON object
/// `{"message_type": <kind>, "payload": <kind-specific shape>}`.
/// Decoding is two-phase: first the envelope is parsed and routed on its
/// kind, then the payload is held to the kind's shape; a frame that fails
/// either phase is reported as an error for the caller to drop. The whole
/// decode is pinned to [`spec_decode`], a spec-level decoder over the named
/// parse results of the text. Encoding builds the envelope text directly,
/// so the exact frame layout is part of each encoder's contract.

#[derive(Clone, Copy, PartialEq, Eq, Structural, Debug)]
pub enum MessageKind {
    Command,
    Heartbeat,
    ControlInput,
    Status,
}

/// The kind a tag names, if any.
pub open spec fn kind_of(s: Seq<char>) -> Option<MessageKind> {
    if s == "Command"@ {
        Some(MessageKind::Command)
    } else if s == "Heartbeat"@ {
        Some(MessageKind::Heartbeat)
    } else if s == "ControlInput"@ {
        Some(MessageKind::ControlInput)
    } else if s == "Status"@ {
        Some(MessageKind::Status)
    } else {
        None
    }
}

pub fn kind_of_str(s: &str) -> (r: Option<MessageKind>)
    ensures
        r == kind_of(s@),
{
    if str_eq(s, "Command") {
        Some(MessageKind::Command)
    } else if str_eq(s, "Heartbeat") {
        Some(MessageKind::Heartbeat)
    } else if str_eq(s, "ControlInput") {
        Some(MessageKind::ControlInput)
    } else if str_eq(s, "Status") {
        Some(MessageKind::Status)
    } else {
        None
    }
}

/// Mathematical value of a [`StatusFields`].
pub struct StatusFieldsView {
    pub water_detected: bool,
    pub pitch: Seq<char>,
    pub roll: Seq<char>,
    pub desired_pitch: Seq<char>,
    pub desired_roll: Seq<char>,
}

/// The telemetry carried by a `Status` frame. The four axis values are
/// carried as JSON number text, never interpreted numerically here.
pub struct StatusFields {
    pub water_detected: bool,
    pub pitch: String,
    pub roll: String,
    pub desired_pitch: String,
    pub desired_roll: String,
}

impl View for StatusFields {
    type V = StatusFieldsView;

    open spec fn view(&self) -> StatusFieldsView {
        StatusFieldsView {
            water_detected: self.water_detected,
            pitch: self.pitch@,
            roll: self.roll@,
            desired_pitch: self.desired_pitch@,
            desired_roll: self.desired_roll@,
        }
    }
}

pub open spec fn status_fields_wf(f: &StatusFields) -> bool {
    &&& is_json_number(f.pitch@)
    &&& is_json_number(f.roll@)
    &&& is_json_number(f.desired_pitch@)
    &&& is_json_number(f.desired_roll@)
}

/// Mathematical value of a [`WireMessage`].
pub enum WireMessageView {
    Command,
    Heartbeat { timestamp: Option<i64> },
    ControlInput { values: Seq<Seq<char>> },
    Status { fields: StatusFieldsView },
}

/// One decoded frame.
pub enum WireMessage {
    /// Handshake carrier; its payload is opaque and ignored inbound.
    Command,
    /// Keep-alive, optionally carrying the sender's epoch seconds.
    Heartbeat { timestamp: Option<i64> },
    /// Six axis values as JSON number text.
    ControlInput { values: Vec<String> },
    /// Telemetry snapshot.
    Status { fields: StatusFields },
}

impl View for WireMessage {
    type V = WireMessageView;

    open spec fn view(&self) -> WireMessageView {
        match self {
            WireMessage::Command => WireMessageView::Command,
            WireMessage::Heartbeat { timestamp } => WireMessageView::Heartbeat {
                timestamp: *timestamp,
            },
            WireMessage::ControlInput { values } => WireMessageView::ControlInput {
                values: values.deep_view(),
            },
            WireMessage::Status { fields } => WireMessageView::Status { fields: fields@ },
        }
    }
}

pub open spec fn wire_message_wf(m: &WireMessage) -> bool {
    match m {
        WireMessage::ControlInput { values } => {
            &&& values@.len() == 6
            &&& forall|i: int| 0 <= i < 6 ==> is_json_number(values@[i]@)
        },
        WireMessage::Status { fields } => status_fields_wf(fields),
        _ => true,
    }
}

#[derive(Clone, Copy, PartialEq, Eq, Structural, Debug)]
pub enum DecodeError {
    /// Not a JSON object with a string `message_type` and a `payload`.
    Malformed,
    /// The envelope parsed but its kind tag names no known kind.
    UnknownKind,
    /// The kind is known and the payload fails the kind's shape.
    BadPayload,
}

/// What decoding `s` must yield, over the named parse results of the text:
/// no envelope is malformed, an unrecognized kind tag is unknown, and a
/// known kind stands or falls with its payload probe.
pub open spec fn spec_decode(s: Seq<char>) -> Result<WireMessageView, DecodeError> {
    match envelope_kind_of(s) {
        Option::None => Err(DecodeError::Malformed),
        Option::Some(k) => match kind_of(k) {
            Option::None => Err(DecodeError::UnknownKind),
            Option::Some(MessageKind::Command) => Ok(WireMessageView::Command),
            Option::Some(MessageKind::Heartbeat) => match heartbeat_ts_of(s) {
                Option::None => Err(DecodeError::BadPayload),
                Option::Some(ts) => Ok(WireMessageView::Heartbeat { timestamp: ts }),
            },
            Option::Some(MessageKind::ControlInput) => match control_vals_of(s) {
                Option::None => Err(DecodeError::BadPayload),
                Option::Some(vs) => Ok(WireMessageView::ControlInput { values: vs }),
            },
            Option::Some(MessageKind::Status) => match status_fields_of(s) {
                Option::None => Err(DecodeError::BadPayload),
                Option::Some(t) => Ok(
                    WireMessageView::Status {
                        fields: StatusFieldsView {
                            water_detected: t.0,
                            pitch: t.1,
                            roll: t.2,
                            desired_pitch: t.3,
                            desired_roll: t.4,
                        },
                    },
                ),
            },
        },
    }
}

/// A decode result, seen mathematically.
pub open spec fn decode_result_view(r: Result<WireMessage, DecodeError>) -> Result<
    WireMessageView,
    DecodeError,
> {
    match r {
        Ok(m) => Ok(m@),
        Err(e) => Err(e),
    }
}

/// The handshake frame sent right after the transport opens.
pub open spec fn handshake_text() -> Seq<char> {
    "{\"message_type\":\"Command\",\"payload\":\"connect\"}"@
}

pub fn encode_handshake() -> (r: String)
    ensures
        r@ == handshake_text(),
{
    String::from_str("{\"message_type\":\"Command\",\"payload\":\"connect\"}")
}

/// The pure acknowledgment sent in answer to an inbound heartbeat.
pub open spec fn heartbeat_reply_text() -> Seq<char> {
    "{\"message_type\":\"Heartbeat\",\"payload\":{\"timestamp\":null}}"@
}

pub fn encode_heartbeat_reply() -> (r: String)
    ensures
        r@ == heartbeat_reply_text(),
{
    String::from_str("{\"message_type\":\"Heartbeat\",\"payload\":{\"timestamp\":null}}")
}

/// The control frame carrying six axis values.
pub open spec fn control_frame_text(vals: Seq<Seq<char>>) -> Seq<char>
    recommends
        vals.len() == 6,
{
    "{\"message_type\":\"ControlInput\",\"payload\":["@ + vals[0] + ","@ + vals[1] + ","@
        + vals[2] + ","@ + vals[3] + ","@ + vals[4] + ","@ + vals[5] + "]}"@
}

/// Encode six validated axis values. The caller owes the validity of each
/// value; `checked_control_frame` performs that check.
pub fn encode_control_input(vals: &Vec<String>) -> (r: String)
    requires
        vals@.len() == 6,
        forall|i: int| 0 <= i < 6 ==> is_json_number(vals@[i]@),
    ensures
        r@ == control_frame_text(vals.deep_view()),
{
    let mut r = String::from_str("{\"message_type\":\"ControlInput\",\"payload\":[");
    r.append(vals[0].as_str());
    r.append(",");
    r.append(vals[1].as_str());
    r.append(",");
    r.append(vals[2].as_str());
    r.append(",");
    r.append(vals[3].as_str());
    r.append(",");
    r.append(vals[4].as_str());
    r.append(",");
    r.append(vals[5].as_str());
    r.append("]}");
    proof {
        assert(r@ =~= control_frame_text(vals.deep_view()));
    }
    r
}

/// Encode six axis values if each is one JSON number, else decline.
pub fn checked_control_frame(vals: &Vec<String>) -> (r: Option<String>)
    ensures
        r matches Some(t) ==> vals@.len() == 6 && t@ == control_frame_text(vals.deep_view()),
        r is None ==> !(vals@.len() == 6 && forall|i: int|
            0 <= i < 6 ==> is_json_number(vals@[i]@)),
{
    if vals.len() != 6 {
        return None;
    }
    let mut i: usize = 0;
    while i < 6
        invariant
            i <= 6,
            vals@.len() == 6,
            forall|j: int| 0 <= j < i ==> is_json_number(vals@[j]@),
        decreases 6 - i,
    {
        if !check_json_number(vals[i].as_str()) {
            return None;
        }
        i = i + 1;
    }
    Some(encode_control_input(vals))
}

/// Decode one frame: parse the envelope, route on its kind, then hold the
/// payload to the kind's shape. The result is exactly [`spec_decode`] of
/// the text, and an `Ok` frame is well formed.
pub fn decode_frame(text: &str) -> (r: Result<WireMessage, DecodeError>)
    ensures
        decode_result_view(r) == spec_decode(text@),
        r matches Ok(m) ==> wire_message_wf(&m),
{
    let kind_tag = match probe_envelope_kind(text) {
        Some(k) => k,
        None => {
            return Err(DecodeError::Malformed);
        },
    };
    let kind = match kind_of_str(kind_tag.as_str()) {
        Some(k) => k,
        None => {
            return Err(DecodeError::UnknownKind);
        },
    };
    match kind {
        MessageKind::Command => Ok(WireMessage::Command),
        MessageKind::Heartbeat => match probe_heartbeat_ts(text) {
            Some(timestamp) => Ok(WireMessage::Heartbeat { timestamp }),
            None => Err(DecodeError::BadPayload),
        },
        MessageKind::ControlInput => match probe_control_vals(text) {
            Some(values) => Ok(WireMessage::ControlInput { values }),
            None => Err(DecodeError::BadPayload),
        },
        MessageKind::Status => match probe_status_fields(text) {
            Some(fields) => Ok(WireMessage::Status { fields }),
            None => Err(DecodeError::BadPayload),
        },
    }
}

} // verus!
