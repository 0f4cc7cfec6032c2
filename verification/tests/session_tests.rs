use manafish_core::heartbeat::{
    monitor_step, monitor_tick, TickOutcome, HEARTBEAT_CHECK_INTERVAL_SECS, SILENCE_THRESHOLD_SECS,
};
use manafish_core::session::{session_close, session_opened, session_step, SessionEvent};
use manafish_core::state::{ConnectionConfig, StateStore};

fn fresh_store() -> StateStore {
    StateStore::new(ConnectionConfig::default())
}

fn six(vals: [&str; 6]) -> Vec<String> {
    vals.iter().map(|s| s.to_string()).collect()
}

#[test]
fn opening_a_session_connects_and_shakes_hands() {
    let mut store = fresh_store();
    let mut hb: i64 = 0;
    let r = session_opened(&mut store, &mut hb, 1700000000);
    assert_eq!(hb, 1700000000);
    assert!(!r.close);
    assert_eq!(
        r.send.as_deref(),
        Some("{\"message_type\":\"Command\",\"payload\":\"connect\"}")
    );
    let n = r.notify.unwrap();
    assert!(n.is_connected);
    assert!(!n.water_detected);
    assert_eq!(n.pitch, "0.0");
    assert!(store.get_status().is_connected);
}

#[test]
fn garbage_frames_change_nothing() {
    let mut store = fresh_store();
    let mut hb: i64 = 50;
    session_opened(&mut store, &mut hb, 50);
    for text in [
        "garbage",
        "{\"message_type\":\"Nonsense\",\"payload\":{}}",
        "{\"message_type\":\"Status\",\"payload\":{\"water_detected\":1}}",
        "{\"message_type\":\"Heartbeat\",\"payload\":{\"timestamp\":\"x\"}}",
    ] {
        let r = session_step(
            &mut store,
            &mut hb,
            60,
            &SessionEvent::Frame(text.to_string()),
        );
        assert!(!r.close, "closed on {:?}", text);
        assert!(r.send.is_none(), "sent on {:?}", text);
        assert!(r.notify.is_none(), "notified on {:?}", text);
        assert_eq!(hb, 50, "heartbeat moved on {:?}", text);
        let s = store.get_status();
        assert!(s.is_connected);
        assert_eq!(s.pitch, "0.0");
    }
}

#[test]
fn heartbeat_frame_updates_reference_and_replies() {
    let mut store = fresh_store();
    let mut hb: i64 = 0;
    session_opened(&mut store, &mut hb, 100);
    let r = session_step(
        &mut store,
        &mut hb,
        105,
        &SessionEvent::Frame(
            "{\"message_type\":\"Heartbeat\",\"payload\":{\"timestamp\":104}}".to_string(),
        ),
    );
    assert_eq!(hb, 104);
    assert_eq!(
        r.send.as_deref(),
        Some("{\"message_type\":\"Heartbeat\",\"payload\":{\"timestamp\":null}}")
    );
    // still connected: no duplicate connect notification
    assert!(r.notify.is_none());

    // a bare heartbeat takes the local clock
    let r = session_step(
        &mut store,
        &mut hb,
        110,
        &SessionEvent::Frame("{\"message_type\":\"Heartbeat\",\"payload\":{}}".to_string()),
    );
    assert_eq!(hb, 110);
    assert!(r.send.is_some());
}

#[test]
fn heartbeat_after_monitor_timeout_reconnects_once() {
    let mut store = fresh_store();
    let mut hb: i64 = 0;
    session_opened(&mut store, &mut hb, 100);
    // silence: the monitor flags the session down
    let (out, notify) = monitor_step(&mut store, 100 + SILENCE_THRESHOLD_SECS + 1, hb);
    assert_eq!(out, TickOutcome::TimedOut);
    assert!(!notify.unwrap().is_connected);
    // a late heartbeat flips the status back up, with one notification
    let r = session_step(
        &mut store,
        &mut hb,
        120,
        &SessionEvent::Frame("{\"message_type\":\"Heartbeat\",\"payload\":{}}".to_string()),
    );
    assert!(r.notify.unwrap().is_connected);
    assert!(store.get_status().is_connected);
}

#[test]
fn status_frame_copies_telemetry_and_keeps_flag() {
    let mut store = fresh_store();
    let mut hb: i64 = 0;
    session_opened(&mut store, &mut hb, 100);
    let text = "{\"message_type\":\"Status\",\"payload\":{\"water_detected\":true,\
                 \"pitch\":1.5,\"roll\":-2.25,\"desired_pitch\":0,\"desired_roll\":0}}";
    let r = session_step(&mut store, &mut hb, 101, &SessionEvent::Frame(text.to_string()));
    assert!(!r.close);
    assert!(r.send.is_none());
    assert_eq!(hb, 100, "telemetry must not move the heartbeat reference");
    let n = r.notify.unwrap();
    assert!(n.is_connected, "connection flag must be kept");
    assert!(n.water_detected);
    assert_eq!(n.pitch, "1.5");
    assert_eq!(n.roll, "-2.25");
    assert_eq!(n.desired_pitch, "0");
    assert_eq!(n.desired_roll, "0");
}

#[test]
fn control_value_goes_out_verbatim() {
    let mut store = fresh_store();
    let mut hb: i64 = 0;
    // the producer put a value on the channel before any session existed;
    // the first session to come up receives it as its first control event
    let pending = six(["0.1", "-0.2", "0.3", "0.0", "0.0", "1.0"]);
    session_opened(&mut store, &mut hb, 100);
    let r = session_step(&mut store, &mut hb, 100, &SessionEvent::Control(pending));
    assert!(!r.close);
    assert!(r.notify.is_none());
    assert_eq!(
        r.send.as_deref(),
        Some("{\"message_type\":\"ControlInput\",\"payload\":[0.1,-0.2,0.3,0.0,0.0,1.0]}")
    );
}

#[test]
fn ending_events_close_the_session() {
    for ev in [
        SessionEvent::CloseFrame,
        SessionEvent::ReadError,
        SessionEvent::SendFailed,
        SessionEvent::ControlClosed,
    ] {
        let mut store = fresh_store();
        let mut hb: i64 = 0;
        session_opened(&mut store, &mut hb, 100);
        let r = session_step(&mut store, &mut hb, 101, &ev);
        assert!(r.close);
        assert!(r.send.is_none());
        assert!(r.notify.is_none());
        // the status flip happens in the teardown, not in the step
        assert!(store.get_status().is_connected);
        let notify = session_close(&mut store);
        assert!(!notify.unwrap().is_connected);
        assert!(!store.get_status().is_connected);
        // a second teardown owes no second notification
        assert!(session_close(&mut store).is_none());
    }
}

#[test]
fn monitor_times_out_after_silence_exactly_once() {
    let mut store = fresh_store();
    let mut hb: i64 = 0;
    session_opened(&mut store, &mut hb, 1000);
    // within the threshold: nothing happens
    for now in 1001..=1005 {
        let (out, notify) = monitor_step(&mut store, now, hb);
        assert_eq!(out, TickOutcome::KeepWatching);
        assert!(notify.is_none());
        assert!(store.get_status().is_connected);
    }
    // past the threshold: flagged down, one notification
    let (out, notify) = monitor_step(&mut store, 1006, hb);
    assert_eq!(out, TickOutcome::TimedOut);
    assert!(!notify.unwrap().is_connected);
    assert!(!store.get_status().is_connected);
    // were a stray check to run again, it would not notify again
    let (out, notify) = monitor_step(&mut store, 1007, hb);
    assert_eq!(out, TickOutcome::TimedOut);
    assert!(notify.is_none());
}

#[test]
fn fresh_heartbeats_keep_the_monitor_quiet() {
    // heartbeats arriving within the threshold of one another
    let mut hb: i64 = 2000;
    for step in 0..20 {
        let now = 2000 + step * 4;
        assert_eq!(monitor_tick(now, hb), TickOutcome::KeepWatching);
        hb = now; // the session refreshes the reference
    }
}

#[test]
fn monitor_tick_edges() {
    // an unusable clock never times out
    assert_eq!(monitor_tick(0, -100), TickOutcome::KeepWatching);
    assert_eq!(monitor_tick(-5, 0), TickOutcome::KeepWatching);
    // the boundary: silence must exceed the threshold
    assert_eq!(monitor_tick(1005, 1000), TickOutcome::KeepWatching);
    assert_eq!(monitor_tick(1006, 1000), TickOutcome::TimedOut);
    // a peer timestamp from the future masks the timeout
    assert_eq!(monitor_tick(1000, 5000), TickOutcome::KeepWatching);
    // extreme values must not overflow
    assert_eq!(monitor_tick(i64::MAX, i64::MIN), TickOutcome::TimedOut);
    assert_eq!(monitor_tick(i64::MIN, i64::MAX), TickOutcome::KeepWatching);
    assert_eq!(HEARTBEAT_CHECK_INTERVAL_SECS, 1);
    assert_eq!(SILENCE_THRESHOLD_SECS, 5);
}
