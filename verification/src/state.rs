use vstd::prelude::*;
use vstd::string::StringExecFns;
use crate::codec::{StatusFields, StatusFieldsView};

verus! {

/// The shared state store: the last-known connection status and the cached
/// connection configuration. The store is built once at startup and handed
/// to the reconnection loop and the session handler; the embedding program
/// serializes access to it and pushes every returned snapshot to its status
/// sink. Every mutator says exactly what the new state is and which
/// snapshot, if any, is owed to the sink.

/// Mathematical value of a [`ConnectionStatus`].
pub struct StatusView {
    pub is_connected: bool,
    pub water_detected: bool,
    pub pitch: Seq<char>,
    pub roll: Seq<char>,
    pub desired_pitch: Seq<char>,
    pub desired_roll: Seq<char>,
}

/// Last-known vehicle state. Axis values are carried as JSON number text,
/// exactly as they appeared on the wire.
pub struct ConnectionStatus {
    pub is_connected: bool,
    pub water_detected: bool,
    pub pitch: String,
    pub roll: String,
    pub desired_pitch: String,
    pub desired_roll: String,
}

impl View for ConnectionStatus {
    type V = StatusView;

    open spec fn view(&self) -> StatusView {
        StatusView {
            is_connected: self.is_connected,
            water_detected: self.water_detected,
            pitch: self.pitch@,
            roll: self.roll@,
            desired_pitch: self.desired_pitch@,
            desired_roll: self.desired_roll@,
        }
    }
}

/// The disconnected, zeroed status every reconnection attempt starts from.
pub open spec fn default_status_view() -> StatusView {
    StatusView {
        is_connected: false,
        water_detected: false,
        pitch: "0.0"@,
        roll: "0.0"@,
        desired_pitch: "0.0"@,
        desired_roll: "0.0"@,
    }
}

/// The connected status right after a successful open: all telemetry still
/// zeroed, only the connection flag set.
pub open spec fn connected_status_view() -> StatusView {
    StatusView { is_connected: true, ..default_status_view() }
}

/// `s` with only its connection flag cleared.
pub open spec fn with_disconnected(s: StatusView) -> StatusView {
    StatusView { is_connected: false, ..s }
}

/// `s` with only its connection flag set.
pub open spec fn with_connected(s: StatusView) -> StatusView {
    StatusView { is_connected: true, ..s }
}

/// `s` with the telemetry of `f` copied in and the connection flag kept.
pub open spec fn with_telemetry(s: StatusView, f: StatusFieldsView) -> StatusView {
    StatusView {
        is_connected: s.is_connected,
        water_detected: f.water_detected,
        pitch: f.pitch,
        roll: f.roll,
        desired_pitch: f.desired_pitch,
        desired_roll: f.desired_roll,
    }
}

/// Law: copying telemetry into a status never touches its connection flag —
/// only the heartbeat paths and the teardown move it.
pub proof fn lemma_telemetry_keeps_connection_flag(s: StatusView, f: StatusFieldsView)
    ensures
        with_telemetry(s, f).is_connected == s.is_connected,
{
}

impl ConnectionStatus {
    /// An owned copy with the same value.
    pub fn snapshot(&self) -> (r: ConnectionStatus)
        ensures
            r@ == self@,
    {
        let r = ConnectionStatus {
            is_connected: self.is_connected,
            water_detected: self.water_detected,
            pitch: self.pitch.clone(),
            roll: self.roll.clone(),
            desired_pitch: self.desired_pitch.clone(),
            desired_roll: self.desired_roll.clone(),
        };
        proof {
            assert(r@ =~= self@);
        }
        r
    }
}

impl Default for ConnectionStatus {
    fn default() -> (r: Self)
        ensures
            r@ == default_status_view(),
    {
        let r = ConnectionStatus {
            is_connected: false,
            water_detected: false,
            pitch: String::from_str("0.0"),
            roll: String::from_str("0.0"),
            desired_pitch: String::from_str("0.0"),
            desired_roll: String::from_str("0.0"),
        };
        proof {
            assert(r@ =~= default_status_view());
        }
        r
    }
}

/// Mathematical value of a [`ConnectionConfig`].
pub struct ConfigView {
    pub address: Seq<char>,
    pub port: u16,
    pub auto_update: bool,
}

/// The connection parameters the core consumes, cached from the external
/// configuration store.
pub struct ConnectionConfig {
    pub address: String,
    pub port: u16,
    pub auto_update: bool,
}

impl View for ConnectionConfig {
    type V = ConfigView;

    open spec fn view(&self) -> ConfigView {
        ConfigView { address: self.address@, port: self.port, auto_update: self.auto_update }
    }
}

/// The built-in fallback used when no stored configuration is available.
pub open spec fn default_config_view() -> ConfigView {
    ConfigView { address: "127.0.0.1"@, port: 9000, auto_update: false }
}

impl ConnectionConfig {
    /// An owned copy with the same value.
    pub fn snapshot(&self) -> (r: ConnectionConfig)
        ensures
            r@ == self@,
    {
        let r = ConnectionConfig {
            address: self.address.clone(),
            port: self.port,
            auto_update: self.auto_update,
        };
        proof {
            assert(r@ =~= self@);
        }
        r
    }
}

impl Default for ConnectionConfig {
    fn default() -> (r: Self)
        ensures
            r@ == default_config_view(),
    {
        let r = ConnectionConfig {
            address: String::from_str("127.0.0.1"),
            port: 9000,
            auto_update: false,
        };
        proof {
            assert(r@ =~= default_config_view());
        }
        r
    }
}

/// Mathematical value of a [`StateStore`].
pub struct StoreView {
    pub status: StatusView,
    pub config: ConfigView,
}

/// The one piece of state that outlives a single session.
pub struct StateStore {
    status: ConnectionStatus,
    config: ConnectionConfig,
}

impl View for StateStore {
    type V = StoreView;

    closed spec fn view(&self) -> StoreView {
        StoreView { status: self.status@, config: self.config@ }
    }
}

impl StateStore {
    pub fn new(config: ConnectionConfig) -> (r: StateStore)
        ensures
            r@.status == default_status_view(),
            r@.config == config@,
    {
        StateStore { status: ConnectionStatus::default(), config }
    }

    /// The current status, copied out.
    pub fn get_status(&self) -> (r: ConnectionStatus)
        ensures
            r@ == self@.status,
    {
        self.status.snapshot()
    }

    /// The cached configuration, copied out.
    pub fn get_config(&self) -> (r: ConnectionConfig)
        ensures
            r@ == self@.config,
    {
        self.config.snapshot()
    }

    /// Reset the status to its default at the start of a reconnection
    /// attempt. A notification is always owed.
    pub fn reset_status(&mut self) -> (notify: ConnectionStatus)
        ensures
            final(self)@.status == default_status_view(),
            final(self)@.config == old(self)@.config,
            notify@ == default_status_view(),
    {
        self.status = ConnectionStatus::default();
        self.status.snapshot()
    }

    /// Record a successful open: connected, telemetry zeroed. A notification
    /// is always owed.
    pub fn mark_opened(&mut self) -> (notify: ConnectionStatus)
        ensures
            final(self)@.status == connected_status_view(),
            final(self)@.config == old(self)@.config,
            notify@ == connected_status_view(),
    {
        let mut s = ConnectionStatus::default();
        s.is_connected = true;
        proof {
            assert(s@ =~= connected_status_view());
        }
        self.status = s;
        self.status.snapshot()
    }

    /// Copy a telemetry snapshot into the status, keeping the connection
    /// flag as it is. A notification is always owed.
    pub fn apply_telemetry(&mut self, f: &StatusFields) -> (notify: ConnectionStatus)
        ensures
            final(self)@.status == with_telemetry(old(self)@.status, f@),
            final(self)@.config == old(self)@.config,
            notify@ == final(self)@.status,
    {
        let s = ConnectionStatus {
            is_connected: self.status.is_connected,
            water_detected: f.water_detected,
            pitch: f.pitch.clone(),
            roll: f.roll.clone(),
            desired_pitch: f.desired_pitch.clone(),
            desired_roll: f.desired_roll.clone(),
        };
        proof {
            assert(s@ =~= with_telemetry(old(self)@.status, f@));
        }
        self.status = s;
        self.status.snapshot()
    }

    /// Set the connection flag if it is clear. A notification is owed
    /// exactly when the flag actually flipped.
    pub fn mark_connected(&mut self) -> (notify: Option<ConnectionStatus>)
        ensures
            final(self)@.status == with_connected(old(self)@.status),
            final(self)@.config == old(self)@.config,
            old(self)@.status.is_connected ==> notify is None && final(self)@ == old(self)@,
            !old(self)@.status.is_connected ==> (notify matches Some(n) && n@ == final(self)@.status),
    {
        if self.status.is_connected {
            proof {
                assert(with_connected(self@.status) =~= self@.status);
                assert(final(self)@ =~= old(self)@);
            }
            None
        } else {
            self.status.is_connected = true;
            proof {
                assert(self@.status =~= with_connected(old(self)@.status));
            }
            Some(self.status.snapshot())
        }
    }

    /// Clear the connection flag if it is set. A notification is owed
    /// exactly when the flag actually flipped, so the sink never sees a
    /// duplicate disconnect.
    pub fn mark_disconnected(&mut self) -> (notify: Option<ConnectionStatus>)
        ensures
            final(self)@.status == with_disconnected(old(self)@.status),
            final(self)@.config == old(self)@.config,
            !old(self)@.status.is_connected ==> notify is None && final(self)@ == old(self)@,
            old(self)@.status.is_connected ==> (notify matches Some(n) && n@ == final(self)@.status),
    {
        if self.status.is_connected {
            self.status.is_connected = false;
            proof {
                assert(self@.status =~= with_disconnected(old(self)@.status));
            }
            Some(self.status.snapshot())
        } else {
            proof {
                assert(with_disconnected(self@.status) =~= self@.status);
                assert(final(self)@ =~= old(self)@);
            }
            None
        }
    }
}

/// Replace the cached configuration; the running session, and so the
/// status, is untouched. Takes effect on the next reconnection attempt.
pub fn update_config(store: &mut StateStore, new_config: &ConnectionConfig)
    ensures
        final(store)@.config == new_config@,
        final(store)@.status == old(store)@.status,
{
    store.config = new_config.snapshot();
}

} // verus!
