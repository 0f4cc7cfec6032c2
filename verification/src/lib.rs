//! The connection core of a remote-vehicle client: the wire codec for the
//! `{kind, payload}` envelope, the shared status and configuration store,
//! the heartbeat liveness monitor, the per-session protocol state machine,
//! and the reconnection-loop decisions. The embedding program owns the
//! socket, the timers and the file system; every rule of the protocol lives
//! here, stated in the contracts and checked by Verus.

pub mod codec;
pub mod configfile;
pub mod heartbeat;
pub mod numtext;
pub mod rawjson;
pub mod reconnect;
pub mod session;
pub mod state;
pub mod strutil;
