use manafish_core::codec::{
    DecodeError, WireMessage, checked_control_frame, decode_frame, encode_handshake,
    encode_heartbeat_reply,
};
use manafish_core::numtext::{check_json_number, u16_dec_string};

#[test]
fn handshake_frame_is_exact() {
    assert_eq!(
        encode_handshake(),
        "{\"message_type\":\"Command\",\"payload\":\"connect\"}"
    );
}

#[test]
fn heartbeat_reply_frame_is_exact() {
    assert_eq!(
        encode_heartbeat_reply(),
        "{\"message_type\":\"Heartbeat\",\"payload\":{\"timestamp\":null}}"
    );
}

fn six(vals: [&str; 6]) -> Vec<String> {
    vals.iter().map(|s| s.to_string()).collect()
}

#[test]
fn control_frame_is_exact() {
    let vals = six(["1.0", "-2.5", "0.0", "3.25", "0.5", "9"]);
    let frame = checked_control_frame(&vals).unwrap();
    assert_eq!(
        frame,
        "{\"message_type\":\"ControlInput\",\"payload\":[1.0,-2.5,0.0,3.25,0.5,9]}"
    );
}

#[test]
fn control_frame_needs_six_values() {
    let five = six(["1", "2", "3", "4", "5", "6"])[..5].to_vec();
    assert!(checked_control_frame(&five).is_none());
    let seven: Vec<String> = (0..7).map(|i| i.to_string()).collect();
    assert!(checked_control_frame(&seven).is_none());
}

#[test]
fn control_frame_rejects_non_numbers() {
    for bad in ["abc", "01", "1.", "--1", "", "1e", "+1", "NaN"] {
        let vals = six(["1.0", "2.0", "3.0", bad, "5.0", "6.0"]);
        assert!(checked_control_frame(&vals).is_none(), "accepted {:?}", bad);
    }
}

#[test]
fn json_number_grammar_accepts() {
    for good in [
        "0", "-0", "7", "-0.5", "1e3", "1.5E-7", "123.456", "1e+3", "20.0", "9000",
        "1.7976931348623157e308",
    ] {
        assert!(check_json_number(good), "rejected {:?}", good);
    }
}

#[test]
fn json_number_grammar_rejects() {
    for bad in [
        "", "-", "01", "1.", ".5", "1e", "+1", "1e+", "abc", "0x10", "1,5", " 1", "1 ", "--2",
        "1.2.3", "Infinity", "null",
    ] {
        assert!(!check_json_number(bad), "accepted {:?}", bad);
    }
}

#[test]
fn port_digits() {
    assert_eq!(u16_dec_string(0), "0");
    assert_eq!(u16_dec_string(9), "9");
    assert_eq!(u16_dec_string(10), "10");
    assert_eq!(u16_dec_string(9000), "9000");
    assert_eq!(u16_dec_string(65535), "65535");
}

#[test]
fn decode_heartbeat_with_timestamp() {
    let r = decode_frame("{\"message_type\":\"Heartbeat\",\"payload\":{\"timestamp\":1700000000}}");
    match r {
        Ok(WireMessage::Heartbeat { timestamp }) => assert_eq!(timestamp, Some(1700000000)),
        _ => panic!("wrong decode"),
    }
}

#[test]
fn decode_heartbeat_without_timestamp() {
    for text in [
        "{\"message_type\":\"Heartbeat\",\"payload\":{}}",
        "{\"message_type\":\"Heartbeat\",\"payload\":{\"timestamp\":null}}",
    ] {
        match decode_frame(text) {
            Ok(WireMessage::Heartbeat { timestamp }) => assert_eq!(timestamp, None),
            _ => panic!("wrong decode for {:?}", text),
        }
    }
}

#[test]
fn decode_heartbeat_bad_timestamp() {
    let r = decode_frame("{\"message_type\":\"Heartbeat\",\"payload\":{\"timestamp\":1.5}}");
    assert_eq!(r.err(), Some(DecodeError::BadPayload));
    let r = decode_frame("{\"message_type\":\"Heartbeat\",\"payload\":\"hello\"}");
    assert_eq!(r.err(), Some(DecodeError::BadPayload));
}

#[test]
fn decode_status_full() {
    let text = "{\"message_type\":\"Status\",\"payload\":{\"water_detected\":true,\
                 \"pitch\":1.5,\"roll\":-2.25,\"desired_pitch\":0,\"desired_roll\":0}}";
    match decode_frame(text) {
        Ok(WireMessage::Status { fields }) => {
            assert!(fields.water_detected);
            assert_eq!(fields.pitch, "1.5");
            assert_eq!(fields.roll, "-2.25");
            assert_eq!(fields.desired_pitch, "0");
            assert_eq!(fields.desired_roll, "0");
        }
        _ => panic!("wrong decode"),
    }
}

#[test]
fn decode_status_bad_shapes() {
    // missing member
    let r = decode_frame(
        "{\"message_type\":\"Status\",\"payload\":{\"water_detected\":true,\"pitch\":1.5}}",
    );
    assert_eq!(r.err(), Some(DecodeError::BadPayload));
    // wrong member type
    let r = decode_frame(
        "{\"message_type\":\"Status\",\"payload\":{\"water_detected\":\"yes\",\
         \"pitch\":1.5,\"roll\":1,\"desired_pitch\":0,\"desired_roll\":0}}",
    );
    assert_eq!(r.err(), Some(DecodeError::BadPayload));
    // number where object is owed
    let r = decode_frame("{\"message_type\":\"Status\",\"payload\":3}");
    assert_eq!(r.err(), Some(DecodeError::BadPayload));
}

#[test]
fn decode_control_input_round() {
    let text = "{\"message_type\":\"ControlInput\",\"payload\":[1.0,2.0,3.0,4.0,5.5,-6.0]}";
    match decode_frame(text) {
        Ok(WireMessage::ControlInput { values }) => {
            assert_eq!(values, six(["1.0", "2.0", "3.0", "4.0", "5.5", "-6.0"]));
        }
        _ => panic!("wrong decode"),
    }
}

#[test]
fn decode_control_input_bad_shapes() {
    let r = decode_frame("{\"message_type\":\"ControlInput\",\"payload\":[1,2,3,4,5]}");
    assert_eq!(r.err(), Some(DecodeError::BadPayload));
    let r = decode_frame("{\"message_type\":\"ControlInput\",\"payload\":[1,2,3,4,5,true]}");
    assert_eq!(r.err(), Some(DecodeError::BadPayload));
    let r = decode_frame("{\"message_type\":\"ControlInput\",\"payload\":{}}");
    assert_eq!(r.err(), Some(DecodeError::BadPayload));
}

#[test]
fn decode_command_is_recognized() {
    match decode_frame("{\"message_type\":\"Command\",\"payload\":\"connect\"}") {
        Ok(WireMessage::Command) => {}
        _ => panic!("wrong decode"),
    }
}

#[test]
fn decode_unknown_kind() {
    let r = decode_frame("{\"message_type\":\"Nonsense\",\"payload\":{}}");
    assert_eq!(r.err(), Some(DecodeError::UnknownKind));
}

#[test]
fn decode_malformed_envelopes() {
    for text in [
        "not json at all",
        "{\"payload\":{}}",
        "{\"message_type\":7,\"payload\":{}}",
        "{\"message_type\":\"Heartbeat\"}",
        "[1,2,3]",
        "",
    ] {
        let r = decode_frame(text);
        assert_eq!(r.err(), Some(DecodeError::Malformed), "text {:?}", text);
    }
}

#[test]
fn status_round_trip_through_serde() {
    // Build the frame with serde_json itself, as the peer would.
    let mut payload = serde_json::Map::new();
    payload.insert("water_detected".to_string(), serde_json::Value::from(true));
    payload.insert("pitch".to_string(), serde_json::Value::from(1.5));
    payload.insert("roll".to_string(), serde_json::Value::from(-2.25));
    payload.insert("desired_pitch".to_string(), serde_json::Value::from(0));
    payload.insert("desired_roll".to_string(), serde_json::Value::from(0));
    let mut doc = serde_json::Map::new();
    doc.insert(
        "message_type".to_string(),
        serde_json::Value::from("Status"),
    );
    doc.insert("payload".to_string(), serde_json::Value::Object(payload));
    let text = serde_json::to_string(&serde_json::Value::Object(doc)).unwrap();

    match decode_frame(&text) {
        Ok(WireMessage::Status { fields }) => {
            assert!(fields.water_detected);
            assert_eq!(fields.pitch, "1.5");
            assert_eq!(fields.roll, "-2.25");
            assert_eq!(fields.desired_pitch, "0");
            assert_eq!(fields.desired_roll, "0");
            assert_eq!(fields.pitch.parse::<f32>().unwrap(), 1.5f32);
            assert_eq!(fields.roll.parse::<f32>().unwrap(), -2.25f32);
        }
        _ => panic!("wrong decode"),
    }
}
