use vstd::prelude::*;
use crate::codec::{
    DecodeError, WireMessage, WireMessageView, decode_frame, decode_result_view, spec_decode,
    encode_handshake, encode_heartbeat_reply, checked_control_frame, handshake_text,
    heartbeat_reply_text, control_frame_text,
};
use crate::numtext::is_json_number;
use crate::state::{StateStore, ConnectionStatus, StatusView, StoreView, connected_status_view,
    with_connected, with_telemetry, with_disconnected};

verus! {

/// One session: a successfully opened transport connection, its handshake,
/// its multiplexing of inbound frames against outbound control input, and
/// its teardown. The embedding program owns the transport and the timers;
/// every decision — what to send, what to store, when to leave the session —
/// is made here, one event at a time.

/// What the session multiplexer observes while active.
pub enum SessionEvent {
    /// A text frame arrived.
    Frame(String),
    /// The peer sent a close frame.
    CloseFrame,
    /// Reading from the transport failed.
    ReadError,
    /// Writing to the transport failed.
    SendFailed,
    /// The producer put six axis values, as JSON number text, on the
    /// control channel.
    Control(Vec<String>),
    /// The control channel is closed for good: the producer is gone.
    ControlClosed,
}

/// What the embedding program must do after one step.
pub struct StepResult {
    /// A frame to write to the transport.
    pub send: Option<String>,
    /// A status snapshot to push to the status sink.
    pub notify: Option<ConnectionStatus>,
    /// Leave the active state and tear the session down.
    pub close: bool,
}

/// A frame to send, seen mathematically.
pub open spec fn sent_text(o: Option<String>) -> Option<Seq<char>> {
    match o {
        Option::Some(t) => Option::Some(t@),
        Option::None => Option::None,
    }
}

/// A notification to push, seen mathematically.
pub open spec fn pushed_status(o: Option<ConnectionStatus>) -> Option<StatusView> {
    match o {
        Option::Some(n) => Option::Some(n@),
        Option::None => Option::None,
    }
}

/// The exact effect of one inbound frame on the session, as a relation
/// between the state before, the decode result of the frame, and the state
/// and outputs after.
///
/// - A heartbeat moves the heartbeat reference to the carried timestamp, or
///   to `now` when none is carried; it reconnects the status if the monitor
///   had flagged it down (pushing exactly one notification in that case),
///   and it is answered by the fixed heartbeat reply.
/// - Telemetry is copied into the status, the connection flag untouched,
///   and always pushed.
/// - Any other kind, and any frame that failed decoding, changes nothing,
///   sends nothing and pushes nothing.
pub open spec fn frame_transition(
    pre: StoreView,
    pre_hb: i64,
    now: i64,
    d: Result<WireMessageView, DecodeError>,
    post: StoreView,
    post_hb: i64,
    send: Option<Seq<char>>,
    notify: Option<StatusView>,
) -> bool {
    &&& post.config == pre.config
    &&& match d {
        Ok(WireMessageView::Heartbeat { timestamp }) => {
            &&& post_hb == (if timestamp is Some {
                timestamp.unwrap()
            } else {
                now
            })
            &&& post.status == with_connected(pre.status)
            &&& send == Option::Some(heartbeat_reply_text())
            &&& notify == (if pre.status.is_connected {
                Option::<StatusView>::None
            } else {
                Option::Some(post.status)
            })
        },
        Ok(WireMessageView::Status { fields }) => {
            &&& post.status == with_telemetry(pre.status, fields)
            &&& post_hb == pre_hb
            &&& send is None
            &&& notify == Option::Some(post.status)
        },
        _ => {
            &&& post == pre
            &&& post_hb == pre_hb
            &&& send is None
            &&& notify is None
        },
    }
}

/// The event asks the session to leave its active state.
pub open spec fn closing_event(ev: &SessionEvent) -> bool {
    match ev {
        SessionEvent::CloseFrame => true,
        SessionEvent::ReadError => true,
        SessionEvent::SendFailed => true,
        SessionEvent::ControlClosed => true,
        _ => false,
    }
}

/// Entering a session, right after the transport opened at `now` epoch
/// seconds: the status becomes connected with zeroed telemetry and is
/// always pushed, the heartbeat reference starts at `now`, and the one
/// frame to send is the fixed handshake. The caller then spawns the
/// heartbeat monitor.
pub fn session_opened(store: &mut StateStore, last_heartbeat: &mut i64, now: i64) -> (r: StepResult)
    ensures
        final(store)@.status == connected_status_view(),
        final(store)@.config == old(store)@.config,
        *final(last_heartbeat) == now,
        (r.notify matches Some(n) && n@ == connected_status_view()),
        (r.send matches Some(t) && t@ == handshake_text()),
        !r.close,
{
    let notify = store.mark_opened();
    *last_heartbeat = now;
    StepResult { send: Some(encode_handshake()), notify: Some(notify), close: false }
}

/// Apply one decoded inbound frame, observed at `now` epoch seconds: the
/// exact case split of [`frame_transition`], and no inbound frame ever
/// closes the session.
pub fn session_apply_inbound(
    store: &mut StateStore,
    last_heartbeat: &mut i64,
    now: i64,
    decoded: &Result<WireMessage, DecodeError>,
) -> (r: StepResult)
    ensures
        !r.close,
        frame_transition(
            old(store)@,
            *old(last_heartbeat),
            now,
            decode_result_view(*decoded),
            final(store)@,
            *final(last_heartbeat),
            sent_text(r.send),
            pushed_status(r.notify),
        ),
{
    match decoded {
        Ok(WireMessage::Heartbeat { timestamp }) => {
            let t = match timestamp {
                Some(t) => *t,
                None => now,
            };
            *last_heartbeat = t;
            let notify = store.mark_connected();
            StepResult { send: Some(encode_heartbeat_reply()), notify, close: false }
        },
        Ok(WireMessage::Status { fields }) => {
            let notify = store.apply_telemetry(fields);
            StepResult { send: None, notify: Some(notify), close: false }
        },
        _ => StepResult { send: None, notify: None, close: false },
    }
}

/// One step of the active session's multiplexer. An inbound frame decodes
/// as [`spec_decode`] of its text and then takes effect exactly as
/// [`frame_transition`] says — in particular it never closes the session; a
/// control event sends exactly the encoded control frame for its six
/// values and touches nothing else; and every ending event closes the
/// session without touching anything.
pub fn session_step(
    store: &mut StateStore,
    last_heartbeat: &mut i64,
    now: i64,
    ev: &SessionEvent,
) -> (r: StepResult)
    ensures
        final(store)@.config == old(store)@.config,
        closing_event(ev) ==> {
            &&& r.close
            &&& r.send is None
            &&& r.notify is None
            &&& final(store)@ == old(store)@
            &&& *final(last_heartbeat) == *old(last_heartbeat)
        },
        ev matches SessionEvent::Frame(text) ==> {
            &&& !r.close
            &&& frame_transition(
                old(store)@,
                *old(last_heartbeat),
                now,
                spec_decode(text@),
                final(store)@,
                *final(last_heartbeat),
                sent_text(r.send),
                pushed_status(r.notify),
            )
        },
        ev matches SessionEvent::Control(vals) ==> {
            &&& !r.close
            &&& final(store)@ == old(store)@
            &&& *final(last_heartbeat) == *old(last_heartbeat)
            &&& r.notify is None
            &&& ((vals@.len() == 6 && forall|i: int| 0 <= i < 6 ==> is_json_number(vals@[i]@))
                ==> (r.send matches Some(t) && t@ == control_frame_text(vals.deep_view())))
            &&& (r.send matches Some(t) ==> vals@.len() == 6 && t@ == control_frame_text(
                vals.deep_view()))
        },
{
    match ev {
        SessionEvent::Frame(text) => {
            let decoded = decode_frame(text.as_str());
            session_apply_inbound(store, last_heartbeat, now, &decoded)
        },
        SessionEvent::Control(vals) => {
            let send = checked_control_frame(vals);
            StepResult { send, notify: None, close: false }
        },
        _ => StepResult { send: None, notify: None, close: true },
    }
}

/// Leave the session: the caller has already cancelled the heartbeat
/// monitor. If the status is still marked connected it is flipped down and
/// pushed once; a session that the monitor already flagged down leaves the
/// status alone, so the sink never sees a duplicate disconnect.
pub fn session_close(store: &mut StateStore) -> (notify: Option<ConnectionStatus>)
    ensures
        final(store)@.status == with_disconnected(old(store)@.status),
        final(store)@.config == old(store)@.config,
        !final(store)@.status.is_connected,
        old(store)@.status.is_connected ==> (notify matches Some(n) && n@
            == final(store)@.status),
        !old(store)@.status.is_connected ==> notify is None && final(store)@ == old(store)@,
{
    store.mark_disconnected()
}

} // verus!
