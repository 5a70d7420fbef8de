//! The manager's decisions: from its state and an event to its next state and the actions to
//! perform.
//!
//! A runner (outside this library) owns the channels, tasks, timers and files. It feeds each
//! event to a [`ManagerCore`] method, together with a [`ManagerEnv`] describing what it knows
//! of the network checker and the persisted state, and performs the returned actions in order.

use vstd::prelude::*;

use crate::commands::{command_json, is_hyphenated_uuid, TvCommand};
use crate::connection_settings::{connection_settings, Connection};
use crate::helpers::{spec_url_ip_addr, spec_websocket_url_for_connection};
use crate::register::{json_parse_object, register_request_text};
use crate::discovery::opt_string_view;
use crate::manager::{opt_inputs_view, actions_view, push_action, ActionView, ManagerAction, ManagerEnv, ManagerErrorView, ManagerMessage, ManagerOutputMessage, OutputView, PersistedStateView, ReconnectFlowStatus, TestStatus, WsMessageView};
use crate::net::{mac_parse, mac_text, parse_mac, MacAddress};
use crate::ssap_payloads::{copy_inputs, clone_opt_string, CurrentSwInfoPayload, ExternalInput};
use crate::state::{spec_tv_info, opt_tv_info_view, LastSeenTv, LastSeenTvView, TvInfo, TvInfoView, TvState};
use crate::state_machine::{state_debug, str_debug, Input, InputView, Output, State, StateMachineUpdateMessage, StateView};
use crate::websocket::{WsCommand, WsMessage, WsStatus, WsUpdateMessage};
use crate::ssap_payloads::{LgTvResponse, LgTvResponsePayload};
use crate::text::contains_seq;

verus! {

/// The manager's state.
pub struct ManagerCore {
    /// The manager status: the state machine's state (or `Zombie`).
    pub manager_status: State,
    pub tv_info: Option<TvInfo>,
    pub tv_inputs: Option<Vec<ExternalInput>>,
    pub tv_software_info: Option<CurrentSwInfoPayload>,
    pub tv_state: TvState,
    /// Unique LG client key, provided by the TV after pairing.
    pub client_key: Option<String>,
    /// MAC address of the TV.
    pub mac_addr: Option<MacAddress>,
    /// The current connection (only one at a time).
    pub connection_details: Option<Connection>,
    pub last_good_connection: Option<Connection>,
    /// The TV connection is made and the initial setup commands are sent.
    pub is_connection_initialized: bool,
    /// The caller asked for the current disconnect; no reconnect follows it.
    pub is_manual_disconnect_requested: bool,
    pub reconnect_flow_status: ReconnectFlowStatus,
    pub reconnect_attempts: u64,
    pub session_connection_count: u64,
    pub ws_url: Option<String>,
    /// The state machine's input channel exists.
    pub has_state_machine: bool,
    /// The WebSocket handler's input channel exists.
    pub has_websocket_channel: bool,
    /// A WebSocket handler task is running.
    pub has_websocket_task: bool,
    /// The TV was on the network at the last network check.
    pub was_on_network: bool,
    /// The base registration payload (a JSON object).
    pub register_payload: String,
}


/// Mathematical view of a [`ManagerCore`]: texts as sequences, lists as sequences, the
/// status by its view.
pub struct CoreView {
    pub manager_status: StateView,
    pub tv_info: Option<TvInfoView>,
    pub tv_inputs: Option<Seq<ExternalInput>>,
    pub tv_software_info: Option<CurrentSwInfoPayload>,
    pub tv_state: TvState,
    pub client_key: Option<Seq<char>>,
    pub mac_addr: Option<MacAddress>,
    pub connection_details: Option<Connection>,
    pub last_good_connection: Option<Connection>,
    pub is_connection_initialized: bool,
    pub is_manual_disconnect_requested: bool,
    pub reconnect_flow_status: ReconnectFlowStatus,
    pub reconnect_attempts: u64,
    pub session_connection_count: u64,
    pub ws_url: Option<Seq<char>>,
    pub has_state_machine: bool,
    pub has_websocket_channel: bool,
    pub has_websocket_task: bool,
    pub was_on_network: bool,
    pub register_payload: Seq<char>,
}

impl View for ManagerCore {
    type V = CoreView;

    open spec fn view(&self) -> CoreView {
        CoreView {
            manager_status: self.manager_status@,
            tv_info: opt_tv_info_view(self.tv_info),
            tv_inputs: opt_inputs_view(self.tv_inputs),
            tv_software_info: self.tv_software_info,
            tv_state: self.tv_state,
            client_key: opt_string_view(self.client_key),
            mac_addr: self.mac_addr,
            connection_details: self.connection_details,
            last_good_connection: self.last_good_connection,
            is_connection_initialized: self.is_connection_initialized,
            is_manual_disconnect_requested: self.is_manual_disconnect_requested,
            reconnect_flow_status: self.reconnect_flow_status,
            reconnect_attempts: self.reconnect_attempts,
            session_connection_count: self.session_connection_count,
            ws_url: opt_string_view(self.ws_url),
            has_state_machine: self.has_state_machine,
            has_websocket_channel: self.has_websocket_channel,
            has_websocket_task: self.has_websocket_task,
            was_on_network: self.was_on_network,
            register_payload: self.register_payload@,
        }
    }
}

/// The action that emits `m`.
pub open spec fn emit(m: OutputView) -> ActionView {
    ActionView::Emit(m)
}

/// The details of the last-seen TV as the manager knows them.
pub open spec fn last_seen_of(c: CoreView) -> LastSeenTvView {
    LastSeenTvView { websocket_url: c.ws_url, client_key: c.client_key, mac_addr: c.mac_addr }
}

/// Whether waking the last-seen TV is possible: it is on the network and its MAC is known.
pub open spec fn wake_available(c: CoreView, env: ManagerEnv) -> bool {
    env.is_tv_on_network && c.mac_addr is Some
}

/// The messages that announce every known TV detail.
pub open spec fn tv_details(c: CoreView, env: ManagerEnv) -> Seq<ActionView> {
    seq![
        emit(OutputView::LastSeenTv(last_seen_of(c))),
        emit(OutputView::TvInfo(c.tv_info)),
        emit(OutputView::TvInputs(c.tv_inputs)),
        emit(OutputView::TvSoftwareInfo(c.tv_software_info)),
        emit(OutputView::TvState(c.tv_state)),
        emit(OutputView::IsWakeLastSeenTvAvailable(wake_available(c, env))),
    ]
}

/// Setting the manager status: announced when it changes; entering `Communicating` also
/// announces the last-seen TV.
pub open spec fn spec_set_status(c: CoreView, s: StateView) -> (CoreView, Seq<ActionView>) {
    if s == c.manager_status {
        (c, Seq::empty())
    } else {
        let c2 = CoreView { manager_status: s, ..c };
        (
            c2,
            seq![emit(OutputView::Status(s))] + if s is Communicating {
                seq![emit(OutputView::LastSeenTv(last_seen_of(c2)))]
            } else {
                Seq::empty()
            },
        )
    }
}

/// Setting the reconnect flow status: announced; the attempt count restarts unless the flow
/// was active.
pub open spec fn spec_set_flow(c: CoreView, f: ReconnectFlowStatus) -> (CoreView, Seq<ActionView>) {
    (
        CoreView {
            reconnect_flow_status: f,
            reconnect_attempts: if c.reconnect_flow_status != ReconnectFlowStatus::Active {
                0
            } else {
                c.reconnect_attempts
            },
            ..c
        },
        seq![emit(OutputView::ReconnectFlowStatus(f))],
    )
}

/// Sending an input to the state machine, when its channel exists.
pub open spec fn to_fsm(c: CoreView, i: InputView) -> Seq<ActionView> {
    if c.has_state_machine {
        seq![ActionView::SendToStateMachine(i)]
    } else {
        Seq::empty()
    }
}

/// Sending a message to the WebSocket handler, when its channel exists.
pub open spec fn to_ws(c: CoreView, m: WsMessageView) -> Seq<ActionView> {
    if c.has_websocket_channel {
        seq![ActionView::SendToWebSocket(m)]
    } else {
        Seq::empty()
    }
}

/// A MAC address parsed from an optional text.
pub open spec fn opt_mac_parse(o: Option<String>) -> Option<MacAddress> {
    match o {
        Some(s) => mac_parse(s@),
        None => None,
    }
}

/// Taking on the persisted WebSocket URL, client key and MAC address, when they could be
/// read.
pub open spec fn spec_import_persisted(c: CoreView, env: ManagerEnv) -> CoreView {
    match env.persisted {
        Ok(p) => CoreView {
            ws_url: opt_string_view(p.ws_url),
            client_key: opt_string_view(p.client_key),
            mac_addr: opt_mac_parse(p.mac_addr),
            ..c
        },
        Err(_) => c,
    }
}

/// A TV state that knows nothing.
pub open spec fn unknown_tv_state() -> TvState {
    TvState {
        power_state: None,
        volume: None,
        is_muted: None,
        is_screen_on: None,
        is_volume_settable: None,
    }
}

/// Whether the reconnect flow keeps the connection details across a reset.
pub open spec fn flow_retains_connection(f: ReconnectFlowStatus) -> bool {
    f == ReconnectFlowStatus::Active || f == ReconnectFlowStatus::WaitingForTvOnNetwork
}

/// Returning to the "no TV seen" state: TV details are forgotten; outside a reconnect flow
/// the connection is forgotten too; a cancelled flow becomes inactive; persisted details are
/// taken on again; a network check is requested and everything is announced.
#[verifier::opaque]
pub open spec fn spec_initialize(c: CoreView, env: ManagerEnv) -> (CoreView, Seq<ActionView>) {
    let c1 = CoreView {
        tv_info: None,
        tv_inputs: None,
        tv_software_info: None,
        tv_state: unknown_tv_state(),
        is_connection_initialized: false,
        ..c
    };
    let c2 = if !flow_retains_connection(c.reconnect_flow_status) {
        CoreView {
            connection_details: None,
            ws_url: None,
            mac_addr: None,
            session_connection_count: 0,
            ..c1
        }
    } else {
        c1
    };
    let (c3, a3) = if c2.reconnect_flow_status == ReconnectFlowStatus::Cancelled {
        spec_set_flow(c2, ReconnectFlowStatus::Inactive)
    } else {
        (c2, Seq::empty())
    };
    let c4 = spec_import_persisted(c3, env);
    (
        c4,
        a3 + seq![ActionView::RequestNetworkCheck] + tv_details(c4, env) + seq![
            emit(OutputView::ConnectionTestStatus(TestStatus::Unknown)),
            emit(OutputView::TvOnNetworkTestStatus(TestStatus::Unknown)),
        ],
    )
}

/// A forced reset: announce it, stop the WebSocket handler, return to the initial state,
/// reset the state machine and announce the status.
#[verifier::opaque]
pub open spec fn spec_force_reset(c: CoreView, reason: Seq<char>, env: ManagerEnv) -> (
    CoreView,
    Seq<ActionView>,
) {
    let c0 = CoreView { has_websocket_task: false, ..c };
    let (c1, a1) = spec_initialize(c0, env);
    (
        c1,
        seq![emit(OutputView::Resetting(reason)), ActionView::StopWebSocket] + a1 + to_fsm(
            c1,
            InputView::Reset,
        ) + seq![emit(OutputView::Status(c1.manager_status))],
    )
}


/// The state of a manager that knows nothing yet.
pub open spec fn initial_core(register_payload: Seq<char>) -> CoreView {
    CoreView {
        manager_status: StateView::Disconnected,
        tv_info: None,
        tv_inputs: None,
        tv_software_info: None,
        tv_state: unknown_tv_state(),
        client_key: None,
        mac_addr: None,
        connection_details: None,
        last_good_connection: None,
        is_connection_initialized: false,
        is_manual_disconnect_requested: false,
        reconnect_flow_status: ReconnectFlowStatus::Inactive,
        reconnect_attempts: 0,
        session_connection_count: 0,
        ws_url: None,
        has_state_machine: false,
        has_websocket_channel: false,
        has_websocket_task: false,
        was_on_network: false,
        register_payload,
    }
}

/// The frame of an action list: `out` grew by `added`.
pub open spec fn grew(before: Seq<ManagerAction>, after: Seq<ManagerAction>, added: Seq<ActionView>) -> bool {
    actions_view(after) == actions_view(before) + added
}

/// Whether every id in `ids` is a fresh message id.
pub open spec fn fresh_ids(ids: Seq<Seq<char>>) -> bool {
    forall|i: int| 0 <= i < ids.len() ==> is_hyphenated_uuid(#[trigger] ids[i])
}

/// `n + 1`, wrapping at `u64::MAX` as the counter's addition does in release builds.
pub open spec fn inc_wrapping(n: u64) -> u64 {
    if n == u64::MAX {
        0
    } else {
        (n + 1) as u64
    }
}

/// Asking the state machine for its error flow and reporting the error.
pub open spec fn fsm_error(c: CoreView, e: ManagerErrorView) -> Seq<ActionView> {
    to_fsm(c, InputView::Error) + seq![emit(OutputView::Error(e))]
}

/// Whether the current connection uses TLS: a host connection as its settings say; a device
/// connection, or none, always.
pub open spec fn connection_is_tls(c: CoreView) -> bool {
    match c.connection_details {
        Some(Connection::Host(_, s)) => s.is_tls,
        _ => true,
    }
}

/// Whether the current connection retries a failed initial connect (not when there is none).
pub open spec fn retries_enabled(c: CoreView) -> bool {
    match c.connection_details {
        Some(conn) => connection_settings(conn).initial_connect_retries,
        None => false,
    }
}

/// Whether the current connection reconnects automatically (not when there is none).
pub open spec fn auto_reconnect_enabled(c: CoreView) -> bool {
    match c.connection_details {
        Some(conn) => connection_settings(conn).auto_reconnect,
        None => false,
    }
}

/// Whether the current connection forces pairing (it does not when there is none).
pub open spec fn connection_forces_pairing(c: CoreView) -> bool {
    match c.connection_details {
        Some(conn) => connection_settings(conn).force_pairing,
        None => false,
    }
}

/// The reconnect flow a new connect starts with.
pub open spec fn connect_flow(c: CoreView) -> ReconnectFlowStatus {
    if retries_enabled(c) {
        ReconnectFlowStatus::Active
    } else {
        ReconnectFlowStatus::Inactive
    }
}

/// The MAC address for a new connection: a device's own; for a host, the persisted one when
/// the persisted URL is the same.
pub open spec fn connect_mac(conn: Connection, url: Seq<char>, env: ManagerEnv) -> Option<
    MacAddress,
> {
    match conn {
        Connection::Host(_, _) => match env.persisted {
            Ok(p) => if opt_string_view(p.ws_url) == Some(url) {
                opt_mac_parse(p.mac_addr)
            } else {
                None
            },
            Err(_) => None,
        },
        Connection::Device(d, _) => opt_mac_parse(d.mac_addr),
    }
}

/// Pointing the network checker at the connection's IP, unless it already pings it.
pub open spec fn checker_ip_actions(url: Seq<char>, env: ManagerEnv) -> Seq<ActionView> {
    match spec_url_ip_addr(url) {
        Some(ip) => if env.network_checker_ip == Some(ip) {
            Seq::empty()
        } else {
            seq![ActionView::SetNetworkCheckIp(ip)]
        },
        None => Seq::empty(),
    }
}

/// The manager with the connection's client key, if its settings give one, taken on as its
/// client key.
pub open spec fn key_override_applied(c: CoreView, conn: Connection) -> CoreView {
    match connection_settings(conn).client_key {
        Some(k) => CoreView { client_key: Some(k@), ..c },
        None => c,
    }
}

/// Initiating a connection: the connection's client key, if its settings give one, is taken
/// on first (see `spec_connect_checked` for the rest).
pub open spec fn spec_connect(c: CoreView, conn: Connection, env: ManagerEnv) -> (
    CoreView,
    Seq<ActionView>,
    Result<(), Seq<char>>,
) {
    spec_connect_checked(key_override_applied(c, conn), conn, env)
}

/// A connection is initiated only from `Disconnected` and with a state machine; the URL is
/// generated from the connection. On success the connection and its URL and MAC address are
/// kept, the network checker is pointed at the TV, the reconnect flow is set and the state
/// machine is told to connect.
#[verifier::opaque]
pub open spec fn spec_connect_checked(c: CoreView, conn: Connection, env: ManagerEnv) -> (
    CoreView,
    Seq<ActionView>,
    Result<(), Seq<char>>,
) {
    if !(c.manager_status is Disconnected) {
        (
            c,
            Seq::empty(),
            Err(
                "Cannot connect while not in Disconnected state (current state: "@ + state_debug(
                    c.manager_status,
                ) + ")"@,
            ),
        )
    } else if !c.has_state_machine {
        (c, Seq::empty(), Err("Cannot connect before state machine channel is available"@))
    } else {
        match spec_websocket_url_for_connection(conn@) {
            Err(e) => (c, Seq::empty(), Err("Error determining TV URL: "@ + e)),
            Ok(url) => {
                let c1 = CoreView {
                    connection_details: Some(conn),
                    is_manual_disconnect_requested: false,
                    ..c
                };
                let (c2, a2) = spec_set_flow(c1, connect_flow(c1));
                let c3 = CoreView { ws_url: Some(url), mac_addr: connect_mac(conn, url, env), ..c2 };
                (
                    c3,
                    checker_ip_actions(url, env) + a2 + to_fsm(c2, InputView::Connect(url)),
                    Ok(()),
                )
            },
        }
    }
}

/// The error report for a failed connect.
pub open spec fn connect_error_actions(r: Result<(), Seq<char>>) -> Seq<ActionView> {
    match r {
        Ok(_) => Seq::empty(),
        Err(e) => seq![emit(OutputView::Error(ManagerErrorView::Connection(e)))],
    }
}

/// Connecting, and reporting a failure as a connection error.
#[verifier::opaque]
pub open spec fn spec_connect_reporting(c: CoreView, conn: Connection, env: ManagerEnv) -> (
    CoreView,
    Seq<ActionView>,
) {
    let (c2, a2, r) = spec_connect(c, conn, env);
    (c2, a2 + connect_error_actions(r))
}

/// The next reconnect attempt: counted, then a connect with the kept connection details.
#[verifier::opaque]
pub open spec fn spec_reconnect_now(c: CoreView, env: ManagerEnv) -> (CoreView, Seq<ActionView>) {
    let c1 = CoreView { reconnect_attempts: inc_wrapping(c.reconnect_attempts), ..c };
    match c1.connection_details {
        Some(conn) => spec_connect_reporting(c1, conn, env),
        None => (c1, Seq::empty()),
    }
}

/// Initiating a reconnect: not while the TV is known to be off the network; the flow becomes
/// active; without a URL the flow ends and the manager resets; with kept connection details
/// the reconnect happens now (`immediate`) or after a countdown.
#[verifier::opaque]
pub open spec fn spec_initiate_reconnect(c: CoreView, immediate: bool, env: ManagerEnv) -> (
    CoreView,
    Seq<ActionView>,
) {
    if !env.is_tv_on_network && env.network_checker_operational {
        (c, Seq::empty())
    } else {
        let (c1, a1) = spec_set_flow(c, ReconnectFlowStatus::Active);
        match c1.ws_url {
            None => {
                let (c2, a2) = spec_set_flow(c1, ReconnectFlowStatus::Inactive);
                let (c3, a3) = spec_force_reset(
                    c2,
                    "Unable to initiate reconnect: cannot determine URL to re-connect to"@,
                    env,
                );
                (c3, a1 + a2 + a3)
            },
            Some(_) => if c1.connection_details is Some {
                if immediate {
                    let (c2, a2) = spec_reconnect_now(c1, env);
                    (c2, a1 + a2)
                } else {
                    (c1, a1 + seq![ActionView::StartReconnectCountdown])
                }
            } else {
                (c1, a1)
            },
        }
    }
}

/// Preparing for a reconnect after a lost connection: nothing after a manual disconnect or a
/// cancelled flow; otherwise the flow becomes active (or waits for the TV to be on the
/// network, when the network checker runs and says it is not) if auto reconnect is on, and
/// inactive if not.
#[verifier::opaque]
pub open spec fn spec_prepare_reconnect(c: CoreView, env: ManagerEnv) -> (CoreView, Seq<ActionView>) {
    if c.is_manual_disconnect_requested || c.reconnect_flow_status == ReconnectFlowStatus::Cancelled {
        (c, Seq::empty())
    } else {
        spec_set_flow(
            c,
            if auto_reconnect_enabled(c) {
                if env.is_tv_on_network || !env.network_checker_operational {
                    ReconnectFlowStatus::Active
                } else {
                    ReconnectFlowStatus::WaitingForTvOnNetwork
                }
            } else {
                ReconnectFlowStatus::Inactive
            },
        )
    }
}

/// Whether a failed connect is retried: before any connection of this session with initial
/// connect retries on, or after one with auto reconnect on.
pub open spec fn should_retry(c: CoreView) -> bool {
    (retries_enabled(c) && c.session_connection_count == 0) || (auto_reconnect_enabled(c)
        && c.session_connection_count > 0)
}

/// Starting a disconnect: the WebSocket handler is told to shut down, if one runs.
pub open spec fn spec_initiate_disconnect(c: CoreView) -> Seq<ActionView> {
    if c.has_websocket_task {
        to_ws(c, WsMessageView::Command(WsCommand::ShutDown))
    } else {
        Seq::empty()
    }
}

/// After a clean disconnect: wait for the WebSocket handler, return to the initial state, and
/// reconnect if the reconnect flow is active.
#[verifier::opaque]
pub open spec fn spec_successful_disconnect(c: CoreView, env: ManagerEnv) -> (
    CoreView,
    Seq<ActionView>,
) {
    let a0: Seq<ActionView> = if c.has_websocket_task {
        seq![ActionView::AwaitWebSocket]
    } else {
        Seq::empty()
    };
    let c0 = CoreView { has_websocket_task: false, ..c };
    let (c1, a1) = spec_initialize(c0, env);
    if c1.reconnect_flow_status == ReconnectFlowStatus::Active {
        let (c2, a2) = spec_initiate_reconnect(c1, false, env);
        (c2, a0 + a1 + a2)
    } else {
        (c1, a0 + a1)
    }
}

/// Sending the registration request, or resetting when it cannot be generated.
#[verifier::opaque]
pub open spec fn spec_send_register(c: CoreView, env: ManagerEnv, id: Seq<char>) -> (
    CoreView,
    Seq<ActionView>,
) {
    match json_parse_object(c.register_payload) {
        Err(e) => spec_force_reset(c, "Could not create register payload: "@ + e, env),
        Ok(None) => spec_force_reset(c, "Could not create register payload"@, env),
        Ok(Some(base)) => (
            c,
            to_ws(
                c,
                WsMessageView::Payload(
                    register_request_text(base, c.client_key, connection_forces_pairing(c), id),
                ),
            ),
        ),
    }
}

/// Initializing a new connection: ask for the TV's software, inputs, power state and system
/// information, subscribe to volume and power state updates, and keep the connection as the
/// last good one.
#[verifier::opaque]
pub open spec fn spec_initialize_connection(c: CoreView, ids: Seq<Seq<char>>) -> (
    CoreView,
    Seq<ActionView>,
) {
    (
        CoreView {
            last_good_connection: if c.connection_details is Some {
                c.connection_details
            } else {
                c.last_good_connection
            },
            ..c
        },
        to_ws(c, WsMessageView::Payload(command_json(TvCommand::GetCurrentSWInfo, ids[0])))
            + to_ws(c, WsMessageView::Payload(command_json(TvCommand::GetExternalInputList, ids[1])))
            + to_ws(c, WsMessageView::Payload(command_json(TvCommand::GetPowerState, ids[2])))
            + to_ws(c, WsMessageView::Payload(command_json(TvCommand::GetSystemInfo, ids[3])))
            + to_ws(c, WsMessageView::Payload(command_json(TvCommand::SubscribeGetVolume, ids[4])))
            + to_ws(
            c,
            WsMessageView::Payload(command_json(TvCommand::SubscribeGetPowerState, ids[5])),
        ),
    )
}

/// Reacting to an output of the state machine. `ids` are the fresh message ids used, in
/// order, by the requests it sends.
pub open spec fn spec_output_event(c: CoreView, o: Output, env: ManagerEnv, ids: Seq<Seq<char>>) -> (
    CoreView,
    Seq<ActionView>,
) {
    match o {
        Output::ConnectToTv(host) => (
            CoreView { has_websocket_channel: true, has_websocket_task: true, ..c },
            seq![ActionView::StartWebSocket(host@, connection_is_tls(c))],
        ),
        Output::SendRegisterPayload => {
            let (c1, a1) = spec_set_flow(c, ReconnectFlowStatus::Inactive);
            let c2 = CoreView {
                session_connection_count: inc_wrapping(c1.session_connection_count),
                ..c1
            };
            let (c3, a3) = spec_send_register(c2, env, ids[0]);
            (c3, a1 + a3)
        },
        Output::PairWithTv => (c, Seq::empty()),
        Output::InitializeConnection => spec_initialize_connection(c, ids),
        Output::SendCommand(cmd) => (
            c,
            to_ws(c, WsMessageView::Payload(command_json(cmd, ids[0]))),
        ),
        Output::DisconnectFromTv => {
            let (c1, a1) = spec_prepare_reconnect(c, env);
            (c1, a1 + spec_initiate_disconnect(c1))
        },
        Output::HandleSuccessfulDisconnect => spec_successful_disconnect(c, env),
        Output::HandleConnectError => {
            let (c1, a1) = spec_force_reset(c, "A WebSocket connection error occurred"@, env);
            if should_retry(c1) {
                if c1.reconnect_flow_status == ReconnectFlowStatus::Active {
                    let (c2, a2) = spec_initiate_reconnect(c1, false, env);
                    (c2, a1 + a2)
                } else if c1.reconnect_flow_status == ReconnectFlowStatus::Cancelled {
                    let (c2, a2) = spec_set_flow(c1, ReconnectFlowStatus::Inactive);
                    (c2, a1 + a2)
                } else {
                    (c1, a1)
                }
            } else {
                (c1, a1)
            }
        },
        Output::HandleDisconnectError => spec_force_reset(
            c,
            "A WebSocket disconnect error occurred"@,
            env,
        ),
    }
}

/// Reacting to a message from the state machine task.
pub open spec fn spec_state_machine_update(
    c: CoreView,
    u: StateMachineUpdateMessage,
    env: ManagerEnv,
    ids: Seq<Seq<char>>,
) -> (CoreView, Seq<ActionView>) {
    match u {
        StateMachineUpdateMessage::State(s) => spec_set_status(c, s@),
        StateMachineUpdateMessage::Output(o) => spec_output_event(c, o, env, ids),
        StateMachineUpdateMessage::TransitionError(e) => (
            c,
            seq![emit(OutputView::Error(ManagerErrorView::Action(e@)))],
        ),
    }
}

/// A WebSocket failure: prepare for a reconnect, then start the state machine's error flow.
pub open spec fn spec_ws_error(c: CoreView, msg: Seq<char>, env: ManagerEnv) -> (
    CoreView,
    Seq<ActionView>,
) {
    let (c1, a1) = spec_prepare_reconnect(c, env);
    (c1, a1 + fsm_error(c1, ManagerErrorView::Connection(msg)))
}

/// Reacting to a message from the WebSocket handler (text payloads are parsed by the runner
/// and handed to `ManagerCore::handle_tv_response`).
pub open spec fn spec_ws_update(c: CoreView, u: WsUpdateMessage, env: ManagerEnv) -> (
    CoreView,
    Seq<ActionView>,
) {
    match u {
        WsUpdateMessage::Status(st) => match st {
            WsStatus::Idle => (c, Seq::empty()),
            WsStatus::Connected => (c, to_fsm(c, InputView::AttemptRegister)),
            WsStatus::Disconnected => (c, to_fsm(c, InputView::DisconnectionComplete)),
            WsStatus::ConnectError(e) => spec_ws_error(
                c,
                "WebSocket connect error: "@ + str_debug(e@),
                env,
            ),
            WsStatus::MessageReadError(e) => spec_ws_error(
                c,
                "WebSocket message read error: "@ + str_debug(e@),
                env,
            ),
            WsStatus::ServerClosedConnection => spec_ws_error(c, "Server closed connection"@, env),
        },
        WsUpdateMessage::Payload(_) => (c, Seq::empty()),
        WsUpdateMessage::IsConnectionOk(ok) => (
            c,
            seq![
                emit(
                    OutputView::ConnectionTestStatus(
                        if ok {
                            TestStatus::Passed
                        } else {
                            TestStatus::Failed
                        },
                    ),
                ),
            ] + if ok {
                Seq::empty()
            } else {
                fsm_error(c, ManagerErrorView::Connection("WebSocket connection test failed"@))
            },
        ),
    }
}

/// Recording the TV's host IP from the WebSocket URL, when the URL's host is an IP.
pub open spec fn host_ip_actions(c: CoreView) -> Seq<ActionView> {
    match c.ws_url {
        Some(u) => match spec_url_ip_addr(u) {
            Some(ip) => seq![ActionView::SetHostIp(ip)],
            None => Seq::empty(),
        },
        None => Seq::empty(),
    }
}

/// A volume report: the first one completes the connection's initialization (the state
/// machine starts communicating and the host IP is recorded); the TV state takes on the
/// volume, mute and settable flags and is announced.
pub open spec fn spec_volume_report(c: CoreView, volume: u8, muted: bool, settable: bool) -> (
    CoreView,
    Seq<ActionView>,
) {
    let (c1, a1) = if !c.is_connection_initialized {
        (
            CoreView { is_connection_initialized: true, ..c },
            to_fsm(c, InputView::StartCommunication) + host_ip_actions(c),
        )
    } else {
        (c, Seq::empty())
    };
    let st = TvState {
        volume: Some(volume),
        is_muted: Some(muted),
        is_volume_settable: Some(settable),
        ..c1.tv_state
    };
    (CoreView { tv_state: st, ..c1 }, a1 + seq![emit(OutputView::TvState(st))])
}

/// The state the manager persists: URL, client key and MAC address text.
pub open spec fn persisted_of(c: CoreView) -> PersistedStateView {
    PersistedStateView {
        ws_url: c.ws_url,
        client_key: c.client_key,
        mac_addr: match c.mac_addr {
            Some(m) => Some(mac_text(m)),
            None => None,
        },
    }
}

/// Whether a TV error is about pairing.
pub open spec fn is_pairing_error(e: Option<Seq<char>>) -> bool {
    match e {
        Some(s) => contains_seq(s, "pairing"@) || contains_seq(s, "403 cancelled"@),
        None => false,
    }
}

/// Reacting to a command response payload.
pub open spec fn spec_command_payload(c: CoreView, p: LgTvResponsePayload) -> (
    CoreView,
    Seq<ActionView>,
) {
    match p {
        LgTvResponsePayload::CurrentSwInfo(sw) => (
            CoreView { tv_software_info: Some(sw), ..c },
            seq![emit(OutputView::TvSoftwareInfo(Some(sw)))],
        ),
        LgTvResponsePayload::GetExternalInputList(list) => (
            CoreView { tv_inputs: Some(list.devices@), ..c },
            seq![emit(OutputView::TvInputs(Some(list.devices@)))],
        ),
        LgTvResponsePayload::GetPowerState(ps) => {
            let st = TvState { power_state: Some(ps.state), ..c.tv_state };
            (CoreView { tv_state: st, ..c }, seq![emit(OutputView::TvState(st))])
        },
        LgTvResponsePayload::GetSystemInfo(si) => (
            CoreView { tv_info: Some(spec_tv_info(si)), ..c },
            seq![emit(OutputView::TvInfo(Some(spec_tv_info(si))))],
        ),
        LgTvResponsePayload::GetVolumeVariantA(v) => spec_volume_report(
            c,
            v.volume_status.volume,
            v.volume_status.mute_status,
            v.volume_status.adjust_volume,
        ),
        LgTvResponsePayload::GetVolumeVariantB(v) => spec_volume_report(
            c,
            v.volume,
            v.muted,
            v.supportvolume,
        ),
        LgTvResponsePayload::Pair(pair) => if pair.pairing_type@ == "PROMPT"@ {
            (c, to_fsm(c, InputView::Pair))
        } else {
            (
                c,
                fsm_error(
                    c,
                    ManagerErrorView::Pair("Unexpected pair type: "@ + pair.pairing_type@),
                ),
            )
        },
        LgTvResponsePayload::SetScreenOn(so) => {
            let st = TvState { is_screen_on: Some(so.state@ == "Active"@), ..c.tv_state };
            (CoreView { tv_state: st, ..c }, seq![emit(OutputView::TvState(st))])
        },
        _ => (c, Seq::empty()),
    }
}

/// Reacting to a message from the TV. Without a state machine it is refused.
///
/// A registration stores the client key, persists it and moves on to initializing. An error
/// is reported to the caller; a pairing error also starts the state machine's error flow.
pub open spec fn spec_tv_response(c: CoreView, resp: LgTvResponse) -> (
    CoreView,
    Seq<ActionView>,
    Result<(), Seq<char>>,
) {
    if !c.has_state_machine {
        (c, Seq::empty(), Err("Cannot handle LG response payload without a FSM tx channel"@))
    } else {
        match resp {
            LgTvResponse::Command(cr) => {
                let (c1, a1) = spec_command_payload(c, cr.payload);
                (c1, a1, Ok(()))
            },
            LgTvResponse::Registered(reg) => {
                let c1 = CoreView { client_key: Some(reg.client_key@), ..c };
                (
                    c1,
                    seq![ActionView::WritePersistedState(persisted_of(c1))] + to_fsm(
                        c1,
                        InputView::Initialize,
                    ),
                    Ok(()),
                )
            },
            LgTvResponse::Error(err) => {
                let shown = match err.error {
                    Some(s) => s@,
                    None => "Unknown TV error"@,
                };
                (
                    c,
                    seq![emit(OutputView::TvError(shown))] + if is_pairing_error(
                        opt_string_view(err.error),
                    ) {
                        to_fsm(c, InputView::Error)
                    } else {
                        Seq::empty()
                    },
                    Ok(()),
                )
            },
        }
    }
}

/// The Wake-on-LAN request for the persisted TV, or the error reported instead.
pub open spec fn spec_wake(env: ManagerEnv) -> Seq<ActionView> {
    match env.persisted {
        Err(e) => seq![
            emit(
                OutputView::Error(
                    ManagerErrorView::Action(
                        "Cannot send Wake-on-LAN: Cannot read persisted data: "@ + e@,
                    ),
                ),
            ),
        ],
        Ok(p) => match (p.ws_url, p.mac_addr) {
            (Some(u), Some(m)) => match (spec_url_ip_addr(u@), mac_parse(m@)) {
                (Some(ip), Some(MacAddress::V6(bytes))) => seq![
                    ActionView::SendWakeOnLan(ip, bytes@),
                ],
                _ => seq![
                    emit(
                        OutputView::Error(
                            ManagerErrorView::Action(
                                "Cannot send Wake-on-LAN: Cannot determine host IP and MAC from URL: "@
                                    + u@ + " MAC: "@ + m@,
                            ),
                        ),
                    ),
                ],
            },
            _ => seq![
                emit(
                    OutputView::Error(
                        ManagerErrorView::Action(
                            "Cannot send Wake-on-LAN: Missing WebSocket URL or MAC address"@,
                        ),
                    ),
                ),
            ],
        },
    }
}

/// Reacting to a message from the caller.
pub open spec fn spec_manager_message(c: CoreView, msg: ManagerMessage, env: ManagerEnv) -> (
    CoreView,
    Seq<ActionView>,
) {
    match msg {
        ManagerMessage::CancelReconnect => if c.reconnect_flow_status
            == ReconnectFlowStatus::Active {
            spec_set_flow(c, ReconnectFlowStatus::Cancelled)
        } else {
            (c, Seq::empty())
        },
        ManagerMessage::Connect(conn) => spec_connect_reporting(c, conn, env),
        ManagerMessage::ConnectLastGoodConnection => match c.last_good_connection {
            Some(conn) => spec_connect_reporting(c, conn, env),
            None => (c, Seq::empty()),
        },
        ManagerMessage::Disconnect => (
            CoreView { is_manual_disconnect_requested: true, ..c },
            to_fsm(c, InputView::Disconnect),
        ),
        ManagerMessage::Discover => (c, seq![ActionView::StartDiscovery]),
        ManagerMessage::EmitAllState => (
            c,
            seq![emit(OutputView::Status(c.manager_status))] + tv_details(c, env),
        ),
        ManagerMessage::SendTvCommand(cmd) => (c, to_fsm(c, InputView::SendCommand(cmd))),
        ManagerMessage::ShutDown => (
            c,
            seq![ActionView::StopStateMachine] + spec_initiate_disconnect(c) + seq![
                ActionView::Exit,
            ],
        ),
        ManagerMessage::TestConnection => if c.is_connection_initialized {
            (
                c,
                seq![emit(OutputView::ConnectionTestStatus(TestStatus::InProgress))] + to_ws(
                    c,
                    WsMessageView::TestConnection,
                ),
            )
        } else {
            (c, seq![emit(OutputView::ConnectionTestStatus(TestStatus::Failed))])
        },
        ManagerMessage::TestTvOnNetwork => (c, seq![ActionView::RequestNetworkCheck]),
        ManagerMessage::WakeLastSeenTv => (c, spec_wake(env)),
    }
}

/// Reacting to a network check result (`env.is_tv_on_network`): report it and whether waking
/// is possible; when the TV went off the network, wait for it (if disconnected) or start the
/// error flow; when it came back while awaited, reconnect at once.
pub open spec fn spec_tv_on_network(c: CoreView, env: ManagerEnv) -> (CoreView, Seq<ActionView>) {
    let on = env.is_tv_on_network;
    let a0 = seq![
        emit(
            OutputView::TvOnNetworkTestStatus(
                if on {
                    TestStatus::Passed
                } else {
                    TestStatus::Failed
                },
            ),
        ),
        emit(OutputView::IsWakeLastSeenTvAvailable(wake_available(c, env))),
    ];
    let (c1, a1) = if c.was_on_network && !on {
        if c.manager_status is Disconnected {
            spec_set_flow(
                c,
                if auto_reconnect_enabled(c) {
                    ReconnectFlowStatus::WaitingForTvOnNetwork
                } else {
                    ReconnectFlowStatus::Inactive
                },
            )
        } else {
            (
                c,
                fsm_error(
                    c,
                    ManagerErrorView::Connection("TV host is not available on the network"@),
                ),
            )
        }
    } else {
        (c, Seq::empty())
    };
    let (c2, a2) = if !c.was_on_network && on && c1.reconnect_flow_status
        == ReconnectFlowStatus::WaitingForTvOnNetwork {
        spec_initiate_reconnect(c1, true, env)
    } else {
        (c1, Seq::empty())
    };
    (CoreView { was_on_network: on, ..c2 }, a0 + a1 + a2)
}

/// Starting up, once the state machine runs: return to the initial state, record the host IP,
/// announce the status and an inactive reconnect flow.
pub open spec fn spec_startup(c: CoreView, env: ManagerEnv) -> (CoreView, Seq<ActionView>) {
    let c0 = CoreView { has_state_machine: true, ..c };
    let (c1, a1) = spec_initialize(c0, env);
    let (c2, a2) = spec_set_flow(c1, ReconnectFlowStatus::Inactive);
    (
        c2,
        a1 + host_ip_actions(c1) + seq![emit(OutputView::Status(c1.manager_status))] + a2,
    )
}

/// Entering the zombie state: report the fatal error and announce the `Zombie` status.
pub open spec fn spec_zombie(c: CoreView, reason: Seq<char>) -> (CoreView, Seq<ActionView>) {
    let (c1, a1) = spec_set_status(c, StateView::Zombie);
    (c1, seq![emit(OutputView::Error(ManagerErrorView::Fatal(reason)))] + a1)
}

impl ManagerCore {
    /// A manager that knows nothing yet, with the given base registration payload.
    pub fn new(register_payload: String) -> (r: ManagerCore)
        ensures
            r@ == initial_core(register_payload@),
    {
        ManagerCore {
            manager_status: State::Disconnected,
            tv_info: None,
            tv_inputs: None,
            tv_software_info: None,
            tv_state: TvState {
                power_state: None,
                volume: None,
                is_muted: None,
                is_screen_on: None,
                is_volume_settable: None,
            },
            client_key: None,
            mac_addr: None,
            connection_details: None,
            last_good_connection: None,
            is_connection_initialized: false,
            is_manual_disconnect_requested: false,
            reconnect_flow_status: ReconnectFlowStatus::Inactive,
            reconnect_attempts: 0,
            session_connection_count: 0,
            ws_url: None,
            has_state_machine: false,
            has_websocket_channel: false,
            has_websocket_task: false,
            was_on_network: false,
            register_payload,
        }
    }

    pub(crate) fn last_seen(&self) -> (r: LastSeenTv)
        ensures
            r@ == last_seen_of(self@),
    {
        LastSeenTv {
            websocket_url: clone_opt_string(&self.ws_url),
            client_key: clone_opt_string(&self.client_key),
            mac_addr: self.mac_addr,
        }
    }

    pub(crate) fn emit_tv_details(&self, env: &ManagerEnv, out: &mut Vec<ManagerAction>)
        ensures
            grew(old(out)@, final(out)@, tv_details(self@, *env)),
    {
        let ghost start = out@;
        push_action(out, ManagerAction::Emit(ManagerOutputMessage::LastSeenTv(self.last_seen())));
        let info = match &self.tv_info {
            Some(i) => Some(i.copy()),
            None => None,
        };
        push_action(out, ManagerAction::Emit(ManagerOutputMessage::TvInfo(info)));
        let inputs = match &self.tv_inputs {
            Some(v) => Some(copy_inputs(v)),
            None => None,
        };
        push_action(out, ManagerAction::Emit(ManagerOutputMessage::TvInputs(inputs)));
        let sw = match &self.tv_software_info {
            Some(i) => Some(i.copy()),
            None => None,
        };
        push_action(out, ManagerAction::Emit(ManagerOutputMessage::TvSoftwareInfo(Box::new(sw))));
        push_action(out, ManagerAction::Emit(ManagerOutputMessage::TvState(self.tv_state.copy())));
        push_action(
            out,
            ManagerAction::Emit(
                ManagerOutputMessage::IsWakeLastSeenTvAvailable(
                    env.is_tv_on_network && self.mac_addr.is_some(),
                ),
            ),
        );
        assert(actions_view(out@) =~= actions_view(start) + tv_details(self@, *env));
    }

    pub(crate) fn set_status(&mut self, s: State, out: &mut Vec<ManagerAction>)
        ensures
            ({
                let (c2, a) = spec_set_status(old(self)@, s@);
                final(self)@ == c2 && grew(old(out)@, final(out)@, a)
            }),
    {
        let ghost start = out@;
        if s.same_as(&self.manager_status) {
            assert(actions_view(out@) =~= actions_view(start) + Seq::<ActionView>::empty());
            return;
        }
        let communicating = s.is_communicating();
        let announced = s.copy();
        self.manager_status = s;
        push_action(out, ManagerAction::Emit(ManagerOutputMessage::Status(announced)));
        if communicating {
            push_action(out, ManagerAction::Emit(ManagerOutputMessage::LastSeenTv(self.last_seen())));
        }
        let ghost (c2, a) = spec_set_status(old(self)@, s@);
        assert(actions_view(out@) =~= actions_view(start) + a);
    }

    pub(crate) fn set_flow(&mut self, f: ReconnectFlowStatus, out: &mut Vec<ManagerAction>)
        ensures
            ({
                let (c2, a) = spec_set_flow(old(self)@, f);
                final(self)@ == c2 && grew(old(out)@, final(out)@, a)
            }),
    {
        let ghost start = out@;
        if self.reconnect_flow_status != ReconnectFlowStatus::Active {
            self.reconnect_attempts = 0;
        }
        self.reconnect_flow_status = f;
        push_action(out, ManagerAction::Emit(ManagerOutputMessage::ReconnectFlowStatus(f)));
        assert(actions_view(out@) =~= actions_view(start) + seq![emit(OutputView::ReconnectFlowStatus(f))]);
    }

    pub(crate) fn send_to_fsm(&self, i: Input, out: &mut Vec<ManagerAction>)
        ensures
            grew(old(out)@, final(out)@, to_fsm(self@, i@)),
    {
        let ghost start = out@;
        let ghost iv = i@;
        if self.has_state_machine {
            push_action(out, ManagerAction::SendToStateMachine(i));
        }
        assert(actions_view(out@) =~= actions_view(start) + to_fsm(self@, iv));
    }

    pub(crate) fn send_to_ws(&self, m: WsMessage, out: &mut Vec<ManagerAction>)
        ensures
            grew(old(out)@, final(out)@, to_ws(self@, m@)),
    {
        let ghost start = out@;
        let ghost mv = m@;
        if self.has_websocket_channel {
            push_action(out, ManagerAction::SendToWebSocket(m));
        }
        assert(actions_view(out@) =~= actions_view(start) + to_ws(self@, mv));
    }

    pub(crate) fn import_persisted(&mut self, env: &ManagerEnv)
        ensures
            final(self)@ == spec_import_persisted(old(self)@, *env),
    {
        match &env.persisted {
            Ok(p) => {
                self.ws_url = clone_opt_string(&p.ws_url);
                self.client_key = clone_opt_string(&p.client_key);
                self.mac_addr = match &p.mac_addr {
                    Some(m) => parse_mac(m.as_str()),
                    None => None,
                };
            },
            Err(_) => {},
        }
    }

    pub(crate) fn initialize(&mut self, env: &ManagerEnv, out: &mut Vec<ManagerAction>)
        ensures
            ({
                let (c2, a) = spec_initialize(old(self)@, *env);
                final(self)@ == c2 && grew(old(out)@, final(out)@, a)
            }),
    {
        let ghost start = out@;
        self.tv_info = None;
        self.tv_inputs = None;
        self.tv_software_info = None;
        self.tv_state = TvState {
            power_state: None,
            volume: None,
            is_muted: None,
            is_screen_on: None,
            is_volume_settable: None,
        };
        self.is_connection_initialized = false;
        if self.reconnect_flow_status != ReconnectFlowStatus::Active
            && self.reconnect_flow_status != ReconnectFlowStatus::WaitingForTvOnNetwork {
            self.connection_details = None;
            self.ws_url = None;
            self.mac_addr = None;
            self.session_connection_count = 0;
        }
        let ghost mid = out@;
        if self.reconnect_flow_status == ReconnectFlowStatus::Cancelled {
            self.set_flow(ReconnectFlowStatus::Inactive, out);
        }
        let ghost after_flow = out@;
        self.import_persisted(env);
        push_action(out, ManagerAction::RequestNetworkCheck);
        self.emit_tv_details(env, out);
        push_action(out, ManagerAction::Emit(ManagerOutputMessage::ConnectionTestStatus(TestStatus::Unknown)));
        push_action(out, ManagerAction::Emit(ManagerOutputMessage::TvOnNetworkTestStatus(TestStatus::Unknown)));
        proof {
            reveal(spec_initialize);
        }
        let ghost (c2, a) = spec_initialize(old(self)@, *env);
        assert(actions_view(out@) =~= actions_view(start) + a);
    }

    #[verifier::rlimit(40)]
    pub(crate) fn force_reset(&mut self, reason: &str, env: &ManagerEnv, out: &mut Vec<ManagerAction>)
        ensures
            ({
                let (c2, a) = spec_force_reset(old(self)@, reason@, *env);
                final(self)@ == c2 && grew(old(out)@, final(out)@, a)
            }),
    {
        let ghost start = out@;
        push_action(out, ManagerAction::Emit(ManagerOutputMessage::Resetting(String::from_str(reason))));
        push_action(out, ManagerAction::StopWebSocket);
        self.has_websocket_task = false;
        let ghost before_init = out@;
        self.initialize(env, out);
        let ghost after_init = out@;
        self.send_to_fsm(Input::Reset, out);
        let ghost after_fsm = out@;
        push_action(out, ManagerAction::Emit(ManagerOutputMessage::Status(self.manager_status.copy())));
        proof {
            reveal(spec_force_reset);
        }
        let ghost (c2, a) = spec_force_reset(old(self)@, reason@, *env);
        assert(actions_view(out@) =~= actions_view(start) + a);
    }
}

} // verus!
