use vstd::prelude::*;
use crate::codec::{StatusFields, status_fields_wf};
use crate::numtext::is_json_number;

verus! {

/// The wire speaks JSON, and `serde_json` does the parsing and the number
/// formatting for this crate. Parsing is a function of the text alone, so
/// each probe's result is given a name: an uninterpreted spec function of
/// the text, applied by the contract of the one trusted wrapper that
/// computes it. The decode contracts in the other modules are stated over
/// these names, which ties every decode outcome to its input text; what a
/// name yields on a given text only the wrapper can tell.

/// The kind tag of `s`: `Some` exactly when `s` is one JSON object with a
/// string `message_type` member and a `payload` member.
pub uninterp spec fn envelope_kind_of(s: Seq<char>) -> Option<Seq<char>>;

/// The heartbeat reading of `s`'s payload: `Some` exactly when the payload
/// is an object; inside, the carried epoch seconds, or `None` for an
/// absent or null `timestamp`. A `timestamp` that is not an integer fitting
/// `i64` fails the shape.
pub uninterp spec fn heartbeat_ts_of(s: Seq<char>) -> Option<Option<i64>>;

/// The telemetry reading of `s`'s payload: water flag and the four axis
/// values as JSON number text, `Some` exactly when all five members are
/// present with those shapes.
pub uninterp spec fn status_fields_of(s: Seq<char>) -> Option<
    (bool, Seq<char>, Seq<char>, Seq<char>, Seq<char>),
>;

/// The control reading of `s`'s payload: six JSON number texts, `Some`
/// exactly when the payload is an array of six numbers.
pub uninterp spec fn control_vals_of(s: Seq<char>) -> Option<Seq<Seq<char>>>;

/// The configuration reading of `s`: address string, wide port integer and
/// update flag, `Some` exactly when the three members are present with
/// those shapes.
pub uninterp spec fn config_values_of(s: Seq<char>) -> Option<(Seq<char>, i64, bool)>;

/// Relies on serde_json::from_str::<Value>, Value::get and Value::as_str:
/// the envelope probe named by `envelope_kind_of`.
#[verifier::external_body]
pub(crate) fn probe_envelope_kind(text: &str) -> (r: Option<String>)
    ensures
        r matches Some(k) ==> envelope_kind_of(text@) == Some(k@),
        r is None ==> envelope_kind_of(text@) is None,
{
    let v: serde_json::Value = serde_json::from_str(text).ok()?;
    if v.get("payload").is_none() {
        return None;
    }
    Some(v.get("message_type")?.as_str()?.to_string())
}

/// Relies on serde_json::from_str::<Value>, Value::get, Value::is_object,
/// Value::is_null and Value::as_i64: the heartbeat payload probe named by
/// `heartbeat_ts_of`.
#[verifier::external_body]
pub(crate) fn probe_heartbeat_ts(text: &str) -> (r: Option<Option<i64>>)
    ensures
        r matches Some(ts) ==> heartbeat_ts_of(text@) == Some(ts),
        r is None ==> heartbeat_ts_of(text@) is None,
{
    let v: serde_json::Value = serde_json::from_str(text).ok()?;
    let p = v.get("payload")?;
    if !p.is_object() {
        return None;
    }
    match p.get("timestamp") {
        None => Some(None),
        Some(t) if t.is_null() => Some(None),
        Some(t) => t.as_i64().map(Some),
    }
}

/// Relies on serde_json::from_str::<Value>, Value::get, Value::as_bool and
/// serde_json::to_string on number values (integers through itoa, finite
/// floats through the shortest-float formatter, both inside the JSON number
/// grammar): the telemetry payload probe named by `status_fields_of`.
#[verifier::external_body]
pub(crate) fn probe_status_fields(text: &str) -> (r: Option<StatusFields>)
    ensures
        r matches Some(f) ==> status_fields_of(text@) == Some(
            (f.water_detected, f.pitch@, f.roll@, f.desired_pitch@, f.desired_roll@),
        ) && status_fields_wf(&f),
        r is None ==> status_fields_of(text@) is None,
{
    let v: serde_json::Value = serde_json::from_str(text).ok()?;
    let p = v.get("payload")?;
    let num = |k: &str| -> Option<String> {
        let x = p.get(k)?;
        if x.is_number() { serde_json::to_string(x).ok() } else { None }
    };
    Some(StatusFields {
        water_detected: p.get("water_detected")?.as_bool()?,
        pitch: num("pitch")?,
        roll: num("roll")?,
        desired_pitch: num("desired_pitch")?,
        desired_roll: num("desired_roll")?,
    })
}

/// Relies on serde_json::from_str::<Value>, Value::get, Value::as_array,
/// Value::is_number and serde_json::to_string on number values (as above):
/// the control payload probe named by `control_vals_of`.
#[verifier::external_body]
pub(crate) fn probe_control_vals(text: &str) -> (r: Option<Vec<String>>)
    ensures
        r matches Some(vs) ==> control_vals_of(text@) == Some(vs.deep_view()) && vs@.len() == 6
            && forall|i: int| 0 <= i < 6 ==> is_json_number(vs@[i]@),
        r is None ==> control_vals_of(text@) is None,
{
    let v: serde_json::Value = serde_json::from_str(text).ok()?;
    let arr = v.get("payload")?.as_array()?;
    if arr.len() != 6 {
        return None;
    }
    let mut out: Vec<String> = Vec::new();
    for e in arr {
        if !e.is_number() {
            return None;
        }
        out.push(serde_json::to_string(e).ok()?);
    }
    Some(out)
}

/// Relies on serde_json::from_str::<Value>, Value::get, Value::as_str,
/// Value::as_i64 (`Some` exactly for integers representable in `i64`) and
/// Value::as_bool: the configuration probe named by `config_values_of`.
#[verifier::external_body]
pub(crate) fn probe_config_values(text: &str) -> (r: Option<(String, i64, bool)>)
    ensures
        r matches Some(t) ==> config_values_of(text@) == Some((t.0@, t.1, t.2)),
        r is None ==> config_values_of(text@) is None,
{
    let v: serde_json::Value = serde_json::from_str(text).ok()?;
    let address = v.get("ip_address")?.as_str()?.to_string();
    let port_wide = v.get("web_socket_port")?.as_i64()?;
    let auto_update = v.get("auto_update")?.as_bool()?;
    Some((address, port_wide, auto_update))
}

} // verus!
