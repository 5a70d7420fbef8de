//! Asynchronous control manager for LG TVs supporting the webOS SSAP WebSocket protocol: the
//! verified core.
//!
//! The library holds the protocol's request texts, the connection state machine, URL
//! handling, discovery filtering and the manager's decisions. A runner owns the channels,
//! tasks, timers, sockets and files, feeds events to [`ManagerCore`] and performs the
//! [`ManagerAction`]s it returns.

pub mod text;
pub mod json;
pub mod ssap_request;
pub mod commands;
pub mod state_machine;
pub mod connection_settings;
pub mod discovery;
pub mod url_parts;
pub mod helpers;
pub mod net;
pub mod ssap_payloads;
pub mod state;
pub mod register;
pub mod websocket;
pub mod manager;
pub mod manager_core;
pub mod manager_events;
pub mod manager_dispatch;
pub mod manager_laws;

pub use commands::TvCommand;
pub use connection_settings::{Connection, ConnectionSettings, ConnectionSettingsBuilder};
pub use discovery::LgTvDevice;
pub use manager::{
    ManagerAction, ManagerEnv, ManagerError, ManagerMessage, ManagerOutputMessage,
    PersistedState, ReconnectFlowStatus, TestStatus,
};
pub use manager_core::ManagerCore;
pub use ssap_payloads::{CurrentSwInfoPayload as TvSoftwareInfo, ExternalInput as TvInput};
pub use state::{LastSeenTv, TvInfo, TvState};
pub use state_machine::{ReconnectDetails, State as ManagerStatus};
