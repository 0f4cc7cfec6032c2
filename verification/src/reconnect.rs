use vstd::prelude::*;
use vstd::string::StringExecFns;
use crate::numtext::{dec_rep, u16_dec_string};
use crate::state::{StateStore, ConnectionStatus, ConnectionConfig, default_status_view};
use crate::strutil::{contains_seq, str_contains};

verus! {

/// The outer driver: each iteration resets the shared status, snapshots the
/// cached configuration, builds the connection target from it, runs one
/// session to completion, classifies the outcome, and retries after a fixed
/// delay — forever. The delay is fixed on purpose: no backoff, no jitter.

/// Seconds to wait after a session ends before the next attempt.
pub const RETRY_DELAY_SECS: u64 = 3;

/// Absolute bound on one connection attempt.
pub const CONNECT_TIMEOUT_SECS: u64 = 5;

/// The connect target for an address and a port.
pub open spec fn target_text(address: Seq<char>, port: u16) -> Seq<char> {
    "ws://"@ + address + ":"@ + dec_rep(port as int)
}

pub fn connect_target(address: &str, port: u16) -> (r: String)
    ensures
        r@ == target_text(address@, port),
{
    let mut r = String::from_str("ws://");
    r.append(address);
    r.append(":");
    let digits = u16_dec_string(port);
    r.append(digits.as_str());
    proof {
        assert(r@ =~= target_text(address@, port));
    }
    r
}

/// Start one reconnection iteration: reset the status to its default — the
/// snapshot is always pushed — and take the configuration this attempt
/// will use. A configuration pushed while a session was running is picked
/// up here and not before.
pub fn begin_iteration(store: &mut StateStore) -> (r: (ConnectionStatus, ConnectionConfig))
    ensures
        final(store)@.status == default_status_view(),
        final(store)@.config == old(store)@.config,
        r.0@ == default_status_view(),
        r.1@ == old(store)@.config,
{
    let notify = store.reset_status();
    let config = store.get_config();
    (notify, config)
}

/// The transport failures expected on an unreliable network. A session
/// ending in one of these is logged quietly; anything else is surfaced as
/// an unexpected error. Either way the loop retries identically.
pub open spec fn benign_error(e: Seq<char>) -> bool {
    ||| contains_seq(e, "Connection reset by peer"@)
    ||| contains_seq(e, "Connection refused"@)
    ||| contains_seq(e, "timed out"@)
    ||| contains_seq(e, "No route to host"@)
    ||| contains_seq(e, "Network is unreachable"@)
}

pub fn is_benign_disconnect(e: &str) -> (r: bool)
    ensures
        r == benign_error(e@),
{
    str_contains(e, "Connection reset by peer") || str_contains(e, "Connection refused")
        || str_contains(e, "timed out") || str_contains(e, "No route to host")
        || str_contains(e, "Network is unreachable")
}

} // verus!
