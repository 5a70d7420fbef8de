//! Messages between the caller and the manager, and what the manager is told of its
//! surroundings.

use vstd::prelude::*;

use crate::discovery::{opt_string_view, LgTvDevice};
use crate::connection_settings::Connection;
use crate::commands::TvCommand;

use crate::ssap_payloads::{CurrentSwInfoPayload, ExternalInput};
use crate::state::{opt_tv_info_view, LastSeenTv, LastSeenTvView, TvInfo, TvInfoView, TvState};
use crate::state_machine::{Input, InputView, State, StateView};
use crate::url_parts::IpAddress;
use crate::websocket::{WsCommand, WsMessage};

verus! {

/// Messages sent from the caller to the manager.
#[derive(Debug, Clone, PartialEq)]
pub enum ManagerMessage {
    /// Stop attempting to reconnect to the TV. Takes effect after the current retry cycle.
    CancelReconnect,
    /// Connect to an LG TV using either a host/IP or a UPnP device.
    Connect(Connection),
    /// Connect with the details of the last good connection of this session.
    ConnectLastGoodConnection,
    /// Disconnect from the TV.
    Disconnect,
    /// Perform UPnP discovery for LG TVs on the network.
    Discover,
    /// Send all currently-known manager and TV state.
    EmitAllState,
    /// Send the given [`TvCommand`] to the connected TV.
    SendTvCommand(TvCommand),
    /// Shut down the manager: disconnect from the TV and stop.
    ShutDown,
    /// Test the active connection to the TV.
    TestConnection,
    /// Test whether the TV is visible on the network.
    TestTvOnNetwork,
    /// Send a Wake-on-LAN request to the last-seen TV.
    WakeLastSeenTv,
}

/// Messages sent from the manager back to the caller.
#[derive(Debug)]
pub enum ManagerOutputMessage {
    /// Status of the current connection to the TV.
    ConnectionTestStatus(TestStatus),
    /// Any LG TVs discovered via UPnP discovery.
    DiscoveredDevices(Vec<LgTvDevice>),
    /// A manager error occurred.
    Error(ManagerError),
    /// Is UPnP discovery being performed.
    IsDiscovering(bool),
    /// The manager's current reconnect flow status.
    ReconnectFlowStatus(ReconnectFlowStatus),
    /// Is it possible to wake the last-seen TV from standby.
    IsWakeLastSeenTvAvailable(bool),
    /// Information on the TV last connected to.
    LastSeenTv(LastSeenTv),
    /// The manager is resetting, for the given reason.
    Resetting(String),
    /// Current manager status.
    Status(State),
    /// Whether the last-seen TV is on the network.
    TvOnNetworkTestStatus(TestStatus),
    /// TV information (model name, etc).
    TvInfo(Option<TvInfo>),
    /// TV inputs (HDMI, etc).
    TvInputs(Option<Vec<ExternalInput>>),
    /// TV software information.
    TvSoftwareInfo(Box<Option<CurrentSwInfoPayload>>),
    /// TV state (current volume and mute settings, etc).
    TvState(TvState),
    /// A TV error occurred.
    TvError(String),
}

/// Errors sent from the manager back to the caller.
#[derive(Debug, Clone, PartialEq, Eq, Hash)]
pub enum ManagerError {
    /// A received message could not be acted on.
    Action(String),
    /// An error occurred with the connection to a TV.
    Connection(String),
    /// An error occurred during UPnP discovery.
    Discovery(String),
    /// An unrecoverable error; the manager should be considered unavailable.
    Fatal(String),
    /// An error occurred during pairing.
    Pair(String),
}

/// General test status.
#[derive(Debug, Clone, Copy, PartialEq, Eq, Structural)]
pub enum TestStatus {
    Unknown,
    InProgress,
    Passed,
    Failed,
}

/// TV reconnect flow status.
#[derive(Debug, Clone, Copy, PartialEq, Eq, Structural)]
pub enum ReconnectFlowStatus {
    /// Attempting to reconnect at regular intervals.
    Active,
    /// The reconnect flow has been cancelled by the caller.
    Cancelled,
    /// Not attempting to reconnect.
    Inactive,
    /// Waiting for the TV to reappear on the network.
    WaitingForTvOnNetwork,
}

/// Manager details kept between sessions.
#[derive(Debug, Clone, PartialEq)]
pub struct PersistedState {
    pub ws_url: Option<String>,
    pub client_key: Option<String>,
    pub mac_addr: Option<String>,
}

/// What the manager is told of its surroundings when it handles an event.
pub struct ManagerEnv {
    /// Whether the network check last found the TV on the network.
    pub is_tv_on_network: bool,
    /// Whether the network checker is running.
    pub network_checker_operational: bool,
    /// The IP address the network checker currently pings.
    pub network_checker_ip: Option<IpAddress>,
    /// The persisted state as it is now, or the reason it could not be read.
    pub persisted: Result<PersistedState, String>,
}

/// An action the manager asks its runner to perform, in order.
#[derive(Debug)]
pub enum ManagerAction {
    /// Send a message to the caller.
    Emit(ManagerOutputMessage),
    /// Send an input to the state machine. If the state machine's channel is closed, the
    /// runner reports it with `ManagerCore::on_state_machine_channel_closed`.
    SendToStateMachine(Input),
    /// Send a message to the WebSocket handler. If its channel is closed, the runner reports
    /// it with `ManagerCore::on_websocket_channel_closed`.
    SendToWebSocket(WsMessage),
    /// Start a new WebSocket handler that connects to `url`.
    StartWebSocket(String, bool),
    /// Tell the WebSocket handler to shut down (ignoring a closed channel) and wait for it.
    StopWebSocket,
    /// Wait for the WebSocket handler to finish.
    AwaitWebSocket,
    /// Write the persisted state; on success the runner calls
    /// `ManagerCore::on_persisted_state_written`.
    WritePersistedState(PersistedState),
    /// Have the network checker ping this IP address (and check now).
    SetNetworkCheckIp(IpAddress),
    /// Have the network checker check now.
    RequestNetworkCheck,
    /// Record the TV's host IP address.
    SetHostIp(IpAddress),
    /// Start UPnP discovery in the background.
    StartDiscovery,
    /// Send a Wake-on-LAN packet to the IP address for the 6-byte MAC address; on failure
    /// the runner calls `ManagerCore::on_wake_on_lan_failed`.
    SendWakeOnLan(IpAddress, [u8; 6]),
    /// Count down to a reconnect: each second emit
    /// `ManagerCore::reconnect_countdown_message`, then call `ManagerCore::reconnect_now`.
    StartReconnectCountdown,
    /// Stop the state machine task and wait for it.
    StopStateMachine,
    /// Leave the manager's loop.
    Exit,
}


/// Mathematical view of a [`ManagerError`].
pub enum ManagerErrorView {
    Action(Seq<char>),
    Connection(Seq<char>),
    Discovery(Seq<char>),
    Fatal(Seq<char>),
    Pair(Seq<char>),
}

impl View for ManagerError {
    type V = ManagerErrorView;

    open spec fn view(&self) -> ManagerErrorView {
        match self {
            ManagerError::Action(s) => ManagerErrorView::Action(s@),
            ManagerError::Connection(s) => ManagerErrorView::Connection(s@),
            ManagerError::Discovery(s) => ManagerErrorView::Discovery(s@),
            ManagerError::Fatal(s) => ManagerErrorView::Fatal(s@),
            ManagerError::Pair(s) => ManagerErrorView::Pair(s@),
        }
    }
}

/// Mathematical view of a [`ManagerOutputMessage`]: texts as sequences, vectors as
/// sequences, the manager status by its view.
pub enum OutputView {
    ConnectionTestStatus(TestStatus),
    DiscoveredDevices(Seq<LgTvDevice>),
    Error(ManagerErrorView),
    IsDiscovering(bool),
    ReconnectFlowStatus(ReconnectFlowStatus),
    IsWakeLastSeenTvAvailable(bool),
    LastSeenTv(LastSeenTvView),
    Resetting(Seq<char>),
    Status(StateView),
    TvOnNetworkTestStatus(TestStatus),
    TvInfo(Option<TvInfoView>),
    TvInputs(Option<Seq<ExternalInput>>),
    TvSoftwareInfo(Option<CurrentSwInfoPayload>),
    TvState(TvState),
    TvError(Seq<char>),
}

/// The view of an optional list of inputs.
pub open spec fn opt_inputs_view(o: Option<Vec<ExternalInput>>) -> Option<Seq<ExternalInput>> {
    match o {
        Some(v) => Some(v@),
        None => None,
    }
}

impl View for ManagerOutputMessage {
    type V = OutputView;

    open spec fn view(&self) -> OutputView {
        match self {
            ManagerOutputMessage::ConnectionTestStatus(t) => OutputView::ConnectionTestStatus(*t),
            ManagerOutputMessage::DiscoveredDevices(d) => OutputView::DiscoveredDevices(d@),
            ManagerOutputMessage::Error(e) => OutputView::Error(e@),
            ManagerOutputMessage::IsDiscovering(b) => OutputView::IsDiscovering(*b),
            ManagerOutputMessage::ReconnectFlowStatus(f) => OutputView::ReconnectFlowStatus(*f),
            ManagerOutputMessage::IsWakeLastSeenTvAvailable(b) => OutputView::IsWakeLastSeenTvAvailable(
                *b,
            ),
            ManagerOutputMessage::LastSeenTv(l) => OutputView::LastSeenTv(l@),
            ManagerOutputMessage::Resetting(s) => OutputView::Resetting(s@),
            ManagerOutputMessage::Status(s) => OutputView::Status(s@),
            ManagerOutputMessage::TvOnNetworkTestStatus(t) => OutputView::TvOnNetworkTestStatus(*t),
            ManagerOutputMessage::TvInfo(i) => OutputView::TvInfo(opt_tv_info_view(*i)),
            ManagerOutputMessage::TvInputs(i) => OutputView::TvInputs(opt_inputs_view(*i)),
            ManagerOutputMessage::TvSoftwareInfo(i) => OutputView::TvSoftwareInfo(**i),
            ManagerOutputMessage::TvState(s) => OutputView::TvState(*s),
            ManagerOutputMessage::TvError(s) => OutputView::TvError(s@),
        }
    }
}

/// Mathematical view of a [`WsMessage`].
pub enum WsMessageView {
    Command(WsCommand),
    Payload(Seq<char>),
    TestConnection,
}

impl View for WsMessage {
    type V = WsMessageView;

    open spec fn view(&self) -> WsMessageView {
        match self {
            WsMessage::Command(c) => WsMessageView::Command(*c),
            WsMessage::Payload(p) => WsMessageView::Payload(p@),
            WsMessage::TestConnection => WsMessageView::TestConnection,
        }
    }
}

/// Mathematical view of a [`PersistedState`].
pub struct PersistedStateView {
    pub ws_url: Option<Seq<char>>,
    pub client_key: Option<Seq<char>>,
    pub mac_addr: Option<Seq<char>>,
}

impl View for PersistedState {
    type V = PersistedStateView;

    open spec fn view(&self) -> PersistedStateView {
        PersistedStateView {
            ws_url: opt_string_view(self.ws_url),
            client_key: opt_string_view(self.client_key),
            mac_addr: opt_string_view(self.mac_addr),
        }
    }
}

/// Mathematical view of a [`ManagerAction`].
pub enum ActionView {
    Emit(OutputView),
    SendToStateMachine(InputView),
    SendToWebSocket(WsMessageView),
    StartWebSocket(Seq<char>, bool),
    StopWebSocket,
    AwaitWebSocket,
    WritePersistedState(PersistedStateView),
    SetNetworkCheckIp(IpAddress),
    RequestNetworkCheck,
    SetHostIp(IpAddress),
    StartDiscovery,
    SendWakeOnLan(IpAddress, Seq<u8>),
    StartReconnectCountdown,
    StopStateMachine,
    Exit,
}

impl View for ManagerAction {
    type V = ActionView;

    open spec fn view(&self) -> ActionView {
        match self {
            ManagerAction::Emit(m) => ActionView::Emit(m@),
            ManagerAction::SendToStateMachine(i) => ActionView::SendToStateMachine(i@),
            ManagerAction::SendToWebSocket(m) => ActionView::SendToWebSocket(m@),
            ManagerAction::StartWebSocket(u, t) => ActionView::StartWebSocket(u@, *t),
            ManagerAction::StopWebSocket => ActionView::StopWebSocket,
            ManagerAction::AwaitWebSocket => ActionView::AwaitWebSocket,
            ManagerAction::WritePersistedState(p) => ActionView::WritePersistedState(p@),
            ManagerAction::SetNetworkCheckIp(ip) => ActionView::SetNetworkCheckIp(*ip),
            ManagerAction::RequestNetworkCheck => ActionView::RequestNetworkCheck,
            ManagerAction::SetHostIp(ip) => ActionView::SetHostIp(*ip),
            ManagerAction::StartDiscovery => ActionView::StartDiscovery,
            ManagerAction::SendWakeOnLan(ip, mac) => ActionView::SendWakeOnLan(*ip, mac@),
            ManagerAction::StartReconnectCountdown => ActionView::StartReconnectCountdown,
            ManagerAction::StopStateMachine => ActionView::StopStateMachine,
            ManagerAction::Exit => ActionView::Exit,
        }
    }
}

/// The views of a sequence of actions.
pub open spec fn actions_view(s: Seq<ManagerAction>) -> Seq<ActionView> {
    s.map_values(|a: ManagerAction| a@)
}

/// Appends an action.
pub fn push_action(out: &mut Vec<ManagerAction>, a: ManagerAction)
    ensures
        actions_view(final(out)@) == actions_view(old(out)@).push(a@),
{
    let ghost before = out@;
    let ghost v = a@;
    out.push(a);
    assert(actions_view(out@) =~= actions_view(before).push(v));
}

} // verus!
