//! How to reach a TV: by host or by discovered device, with connection settings.

use vstd::prelude::*;

use crate::discovery::{opt_string_view, LgTvDevice};
use crate::ssap_payloads::clone_opt_string;

verus! {

/// Connection type.
#[derive(Debug, Clone, PartialEq)]
pub enum Connection {
    /// Connection to a TV using a network name or IP address.
    Host(String, ConnectionSettings),
    /// Connection to a TV using a previously-discovered [`LgTvDevice`].
    Device(LgTvDevice, ConnectionSettings),
}

/// Settings to use when connecting to a TV. Can be created with [`ConnectionSettingsBuilder`].
#[derive(Debug, Clone, PartialEq, Eq)]
pub struct ConnectionSettings {
    pub is_tls: bool,
    pub force_pairing: bool,
    /// Retry a failed connect until the first connection of the session succeeds.
    pub initial_connect_retries: bool,
    /// Reconnect when an established connection is lost.
    pub auto_reconnect: bool,
    /// A client key to use in place of the persisted one.
    pub client_key: Option<String>,
}

/// Mathematical view of [`ConnectionSettings`].
pub struct ConnectionSettingsView {
    pub is_tls: bool,
    pub force_pairing: bool,
    pub initial_connect_retries: bool,
    pub auto_reconnect: bool,
    pub client_key: Option<Seq<char>>,
}

impl View for ConnectionSettings {
    type V = ConnectionSettingsView;

    open spec fn view(&self) -> ConnectionSettingsView {
        ConnectionSettingsView {
            is_tls: self.is_tls,
            force_pairing: self.force_pairing,
            initial_connect_retries: self.initial_connect_retries,
            auto_reconnect: self.auto_reconnect,
            client_key: opt_string_view(self.client_key),
        }
    }
}

impl ConnectionSettings {
    /// A copy of these settings, equal to them.
    pub fn copy(&self) -> (r: ConnectionSettings)
        ensures
            r == *self,
    {
        ConnectionSettings {
            is_tls: self.is_tls,
            force_pairing: self.force_pairing,
            initial_connect_retries: self.initial_connect_retries,
            auto_reconnect: self.auto_reconnect,
            client_key: clone_opt_string(&self.client_key),
        }
    }
}

impl Default for ConnectionSettings {
    fn default() -> (r: Self)
        ensures
            r.is_tls,
            !r.force_pairing,
            !r.initial_connect_retries,
            !r.auto_reconnect,
            r.client_key is None,
    {
        ConnectionSettingsBuilder::new().build()
    }
}

/// Build a [`ConnectionSettings`] instance: TLS on, no forced pairing, no connect retries,
/// no automatic reconnects and the persisted client key, unless overridden.
pub struct ConnectionSettingsBuilder {
    is_tls: bool,
    force_pairing: bool,
    initial_connect_retries: bool,
    auto_reconnect: bool,
    client_key: Option<String>,
}

impl Default for ConnectionSettingsBuilder {
    fn default() -> (r: Self)
        ensures
            r.spec_is_tls(),
            !r.spec_force_pairing(),
            !r.spec_initial_connect_retries(),
            !r.spec_auto_reconnect(),
            r.spec_client_key() is None,
    {
        Self::new()
    }
}

impl ConnectionSettingsBuilder {
    /// Whether the settings built will use TLS.
    pub closed spec fn spec_is_tls(&self) -> bool {
        self.is_tls
    }

    /// Whether the settings built will force pairing.
    pub closed spec fn spec_force_pairing(&self) -> bool {
        self.force_pairing
    }

    /// Whether the settings built will retry a failed initial connect.
    pub closed spec fn spec_initial_connect_retries(&self) -> bool {
        self.initial_connect_retries
    }

    /// Whether the settings built will reconnect automatically.
    pub closed spec fn spec_auto_reconnect(&self) -> bool {
        self.auto_reconnect
    }

    /// The client key the settings built will use, if any.
    pub closed spec fn spec_client_key(&self) -> Option<Seq<char>> {
        opt_string_view(self.client_key)
    }

    /// A builder for the default settings.
    pub fn new() -> (r: Self)
        ensures
            r.spec_is_tls(),
            !r.spec_force_pairing(),
            !r.spec_initial_connect_retries(),
            !r.spec_auto_reconnect(),
            r.spec_client_key() is None,
    {
        Self {
            is_tls: true,
            force_pairing: false,
            initial_connect_retries: false,
            auto_reconnect: false,
            client_key: None,
        }
    }

    /// Connect without TLS (plain `ws`).
    pub fn with_no_tls(self) -> (r: Self)
        ensures
            !r.spec_is_tls(),
            r.spec_force_pairing() == self.spec_force_pairing(),
            r.spec_initial_connect_retries() == self.spec_initial_connect_retries(),
            r.spec_auto_reconnect() == self.spec_auto_reconnect(),
            r.spec_client_key() == self.spec_client_key(),
    {
        Self { is_tls: false, ..self }
    }

    /// Have the TV prompt for pairing even when a client key is known.
    pub fn with_forced_pairing(self) -> (r: Self)
        ensures
            r.spec_is_tls() == self.spec_is_tls(),
            r.spec_force_pairing(),
            r.spec_initial_connect_retries() == self.spec_initial_connect_retries(),
            r.spec_auto_reconnect() == self.spec_auto_reconnect(),
            r.spec_client_key() == self.spec_client_key(),
    {
        Self { force_pairing: true, ..self }
    }

    /// Retry a failed connect until the first connection of the session succeeds.
    pub fn with_initial_connect_retries(self) -> (r: Self)
        ensures
            r.spec_is_tls() == self.spec_is_tls(),
            r.spec_force_pairing() == self.spec_force_pairing(),
            r.spec_initial_connect_retries(),
            r.spec_auto_reconnect() == self.spec_auto_reconnect(),
            r.spec_client_key() == self.spec_client_key(),
    {
        Self { initial_connect_retries: true, ..self }
    }

    /// Reconnect automatically when an established connection is lost.
    pub fn with_auto_reconnect(self) -> (r: Self)
        ensures
            r.spec_is_tls() == self.spec_is_tls(),
            r.spec_force_pairing() == self.spec_force_pairing(),
            r.spec_initial_connect_retries() == self.spec_initial_connect_retries(),
            r.spec_auto_reconnect(),
            r.spec_client_key() == self.spec_client_key(),
    {
        Self { auto_reconnect: true, ..self }
    }

    /// Use `client_key` in place of the persisted client key.
    pub fn with_client_key(self, client_key: &str) -> (r: Self)
        ensures
            r.spec_is_tls() == self.spec_is_tls(),
            r.spec_force_pairing() == self.spec_force_pairing(),
            r.spec_initial_connect_retries() == self.spec_initial_connect_retries(),
            r.spec_auto_reconnect() == self.spec_auto_reconnect(),
            r.spec_client_key() == Some(client_key@),
    {
        Self { client_key: Some(String::from_str(client_key)), ..self }
    }

    /// The settings chosen so far.
    pub fn build(&mut self) -> (r: ConnectionSettings)
        ensures
            r.is_tls == old(self).spec_is_tls(),
            r.force_pairing == old(self).spec_force_pairing(),
            r.initial_connect_retries == old(self).spec_initial_connect_retries(),
            r.auto_reconnect == old(self).spec_auto_reconnect(),
            opt_string_view(r.client_key) == old(self).spec_client_key(),
            *final(self) == *old(self),
    {
        ConnectionSettings {
            is_tls: self.is_tls,
            force_pairing: self.force_pairing,
            initial_connect_retries: self.initial_connect_retries,
            auto_reconnect: self.auto_reconnect,
            client_key: clone_opt_string(&self.client_key),
        }
    }
}

impl Connection {
    /// The settings of this connection.
    pub fn settings(&self) -> (r: ConnectionSettings)
        ensures
            r == connection_settings(*self),
    {
        match self {
            Connection::Host(_, s) => s.copy(),
            Connection::Device(_, s) => s.copy(),
        }
    }

    /// A copy of this connection.
    pub fn copy(&self) -> (r: Connection)
        ensures
            r == *self,
    {
        match self {
            Connection::Host(h, s) => Connection::Host(h.clone(), s.copy()),
            Connection::Device(d, s) => Connection::Device(d.copy(), s.copy()),
        }
    }
}

/// The settings of a connection.
pub open spec fn connection_settings(c: Connection) -> ConnectionSettings {
    match c {
        Connection::Host(_, s) => s,
        Connection::Device(_, s) => s,
    }
}

/// Mathematical view of a [`Connection`].
pub enum ConnectionView {
    Host(Seq<char>, ConnectionSettingsView),
    Device(crate::discovery::LgTvDeviceView, ConnectionSettingsView),
}

impl View for Connection {
    type V = ConnectionView;

    open spec fn view(&self) -> ConnectionView {
        match self {
            Connection::Host(h, s) => ConnectionView::Host(h@, s@),
            Connection::Device(d, s) => ConnectionView::Device(d@, s@),
        }
    }
}

} // verus!
