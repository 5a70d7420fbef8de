//! Properties of the manager's decisions that hold across its events.

use vstd::prelude::*;

use crate::connection_settings::Connection;
use crate::manager::{ActionView, ManagerEnv, ManagerErrorView, ManagerMessage, OutputView, ReconnectFlowStatus, TestStatus};
use crate::manager_core::{connection_is_tls, emit, key_override_applied, last_seen_of, persisted_of, spec_connect, spec_force_reset, spec_initialize, spec_manager_message, spec_output_event, spec_send_register, spec_set_flow, spec_set_status, spec_tv_response, spec_volume_report, spec_ws_update, unknown_tv_state, CoreView};
use crate::discovery::opt_string_view;
use crate::helpers::spec_websocket_url_for_connection;
use crate::manager::WsMessageView;
use crate::manager_core::{
    connection_forces_pairing, opt_mac_parse, spec_connect_checked, spec_connect_reporting,
    spec_import_persisted, spec_initiate_reconnect, spec_reconnect_now, spec_startup,
    spec_successful_disconnect, spec_tv_on_network,
};
use crate::register::{json_parse_object, register_request_text};
use crate::ssap_payloads::{LgTvRegisteredResponse, LgTvResponse};
use crate::state_machine::{InputView, Output, StateView};
use crate::websocket::{WsStatus, WsUpdateMessage};

verus! {

/// A status update is announced exactly when it changes the status, and the status is then
/// the new one.
pub proof fn law_status_announced_on_change(c: CoreView, s: StateView)
    ensures
        ({
            let (c2, a) = spec_set_status(c, s);
            &&& c2.manager_status == s
            &&& (s == c.manager_status ==> c2 == c && a.len() == 0)
            &&& (s != c.manager_status ==> a.len() >= 1 && a[0] == emit(OutputView::Status(s)))
        }),
{
}

/// Entering `Communicating` announces the last-seen TV right after the status.
pub proof fn law_communicating_announces_last_seen(c: CoreView, url: Seq<char>)
    requires
        c.manager_status != StateView::Communicating(url),
    ensures
        ({
            let (c2, a) = spec_set_status(c, StateView::Communicating(url));
            a == seq![
                emit(OutputView::Status(StateView::Communicating(url))),
                emit(OutputView::LastSeenTv(last_seen_of(c2))),
            ]
        }),
{
    let (c2, a) = spec_set_status(c, StateView::Communicating(url));
    assert(a =~= seq![
        emit(OutputView::Status(StateView::Communicating(url))),
        emit(OutputView::LastSeenTv(last_seen_of(c2))),
    ]);
}

/// The manager handles one connection at a time: a connect outside `Disconnected` is refused
/// with no action, and changes nothing but taking on the client key override.
pub proof fn law_connect_only_when_disconnected(c: CoreView, conn: Connection, env: ManagerEnv)
    requires
        !(c.manager_status is Disconnected),
    ensures
        ({
            let (c2, a, r) = spec_connect(c, conn, env);
            c2 == key_override_applied(c, conn) && a.len() == 0 && r is Err
        }),
{
    reveal(crate::manager_core::spec_connect_checked);
}

/// The reconnect attempt count restarts whenever the flow is set from anything but active,
/// and the announced flow is the one set.
pub proof fn law_flow_restarts_attempts(c: CoreView, f: ReconnectFlowStatus)
    ensures
        ({
            let (c2, a) = spec_set_flow(c, f);
            &&& c2.reconnect_flow_status == f
            &&& (c.reconnect_flow_status != ReconnectFlowStatus::Active ==> c2.reconnect_attempts == 0)
            &&& (c.reconnect_flow_status == ReconnectFlowStatus::Active ==> c2.reconnect_attempts
                == c.reconnect_attempts)
            &&& a == seq![emit(OutputView::ReconnectFlowStatus(f))]
        }),
{
}

/// A reset forgets every TV detail, resets the state machine when there is one, and ends by
/// announcing the status.
pub proof fn law_reset_forgets_tv(c: CoreView, reason: Seq<char>, env: ManagerEnv)
    ensures
        ({
            let (c2, a) = spec_force_reset(c, reason, env);
            &&& c2.tv_info is None
            &&& c2.tv_inputs is None
            &&& c2.tv_software_info is None
            &&& c2.tv_state == unknown_tv_state()
            &&& !c2.is_connection_initialized
            &&& !c2.has_websocket_task
            &&& a[0] == emit(OutputView::Resetting(reason))
            &&& a.last() == emit(OutputView::Status(c2.manager_status))
            &&& (c.has_state_machine ==> a.contains(ActionView::SendToStateMachine(InputView::Reset)))
        }),
{
    reveal(spec_force_reset);
    reveal(spec_initialize);
    let c0 = CoreView { has_websocket_task: false, ..c };
    let (c1, a1) = spec_initialize(c0, env);
    let prefix = seq![emit(OutputView::Resetting(reason)), ActionView::StopWebSocket] + a1;
    let (c2, a) = spec_force_reset(c, reason, env);
    if c.has_state_machine {
        assert(a[prefix.len() as int] == ActionView::SendToStateMachine(InputView::Reset));
    }
}

/// A completed registration stores the client key, persists it with the URL and MAC address,
/// and moves the state machine on to initializing.
pub proof fn law_registration_persists_client_key(c: CoreView, reg: LgTvRegisteredResponse)
    requires
        c.has_state_machine,
    ensures
        ({
            let (c2, a, r) = spec_tv_response(c, LgTvResponse::Registered(reg));
            &&& r is Ok
            &&& c2.client_key == Some(reg.client_key@)
            &&& a == seq![
                ActionView::WritePersistedState(persisted_of(c2)),
                ActionView::SendToStateMachine(InputView::Initialize),
            ]
            &&& persisted_of(c2).client_key == Some(reg.client_key@)
        }),
{
    let (c2, a, r) = spec_tv_response(c, LgTvResponse::Registered(reg));
    assert(a =~= seq![
        ActionView::WritePersistedState(persisted_of(c2)),
        ActionView::SendToStateMachine(InputView::Initialize),
    ]);
}

/// Reaching the TV ends the reconnect flow: once the registration is due, the flow is
/// inactive.
pub proof fn law_connection_ends_reconnect_flow(c: CoreView, env: ManagerEnv, ids: Seq<Seq<char>>)
    ensures
        spec_output_event(c, Output::SendRegisterPayload, env, ids).0.reconnect_flow_status
            == ReconnectFlowStatus::Inactive,
{
    reveal(spec_send_register);
    reveal(spec_force_reset);
    reveal(spec_initialize);
}

/// A reconnect flow can be cancelled only while it is active, and cancelling it is announced.
pub proof fn law_cancel_only_active_flow(c: CoreView, env: ManagerEnv)
    ensures
        ({
            let (c2, a) = spec_manager_message(c, ManagerMessage::CancelReconnect, env);
            if c.reconnect_flow_status == ReconnectFlowStatus::Active {
                c2.reconnect_flow_status == ReconnectFlowStatus::Cancelled && a == seq![
                    emit(OutputView::ReconnectFlowStatus(ReconnectFlowStatus::Cancelled)),
                ]
            } else {
                c2 == c && a.len() == 0
            }
        }),
{
}

/// When the TV closes the connection, the state machine's error flow starts (when it runs)
/// and the caller hears of a connection error.
pub proof fn law_server_close_starts_error_flow(c: CoreView, env: ManagerEnv)
    ensures
        ({
            let (c2, a) = spec_ws_update(
                c,
                WsUpdateMessage::Status(WsStatus::ServerClosedConnection),
                env,
            );
            &&& a.last() == emit(
                OutputView::Error(ManagerErrorView::Connection("Server closed connection"@)),
            )
            &&& (c.has_state_machine ==> a.contains(ActionView::SendToStateMachine(InputView::Error)))
        }),
{
    reveal(crate::manager_core::spec_prepare_reconnect);
    let (c2, a) = spec_ws_update(c, WsUpdateMessage::Status(WsStatus::ServerClosedConnection), env);
    if c.has_state_machine {
        assert(a[a.len() - 2] == ActionView::SendToStateMachine(InputView::Error));
    }
}

/// A connection test reports `Passed` when the TV answered the ping and `Failed` otherwise; a
/// failure also starts the error flow.
pub proof fn law_connection_test_reported(c: CoreView, env: ManagerEnv, ok: bool)
    ensures
        ({
            let (c2, a) = spec_ws_update(c, WsUpdateMessage::IsConnectionOk(ok), env);
            &&& c2 == c
            &&& a[0] == emit(
                OutputView::ConnectionTestStatus(
                    if ok {
                        TestStatus::Passed
                    } else {
                        TestStatus::Failed
                    },
                ),
            )
            &&& (ok ==> a.len() == 1)
        }),
{
}

/// After a volume report the TV state holds the reported volume, mute and settable flags
/// (other parts unchanged), and exactly that state is announced last.
pub proof fn law_volume_report_updates_state(c: CoreView, volume: u8, muted: bool, settable: bool)
    ensures
        ({
            let (c2, a) = spec_volume_report(c, volume, muted, settable);
            &&& c2.tv_state.volume == Some(volume)
            &&& c2.tv_state.is_muted == Some(muted)
            &&& c2.tv_state.is_volume_settable == Some(settable)
            &&& c2.tv_state.power_state == c.tv_state.power_state
            &&& c2.tv_state.is_screen_on == c.tv_state.is_screen_on
            &&& c2.is_connection_initialized
            &&& a.last() == emit(OutputView::TvState(c2.tv_state))
        }),
{
}

/// The WebSocket handler is started with TLS exactly when a host connection's settings ask
/// for it; a device connection (or none) always uses TLS.
pub proof fn law_websocket_tls_follows_settings(c: CoreView, host: String, env: ManagerEnv, ids: Seq<Seq<char>>)
    ensures
        ({
            let (c2, a) = spec_output_event(c, Output::ConnectToTv(host), env, ids);
            &&& a == seq![ActionView::StartWebSocket(host@, connection_is_tls(c))]
            &&& (c.connection_details matches Some(Connection::Host(_, s)) ==> connection_is_tls(c)
                == s.is_tls)
            &&& (c.connection_details matches Some(Connection::Device(_, _)) ==> connection_is_tls(c))
            &&& c2.has_websocket_task
        }),
{
}

/// Shutting down stops the state machine first and always leaves the loop last.
pub proof fn law_shutdown_exits(c: CoreView, env: ManagerEnv)
    ensures
        ({
            let (c2, a) = spec_manager_message(c, ManagerMessage::ShutDown, env);
            c2 == c && a[0] == ActionView::StopStateMachine && a.last() == ActionView::Exit
        }),
{
}

/// Startup takes on the URL, client key and MAC address persisted by an earlier session, and
/// leaves the reconnect flow inactive.
pub proof fn law_startup_takes_persisted_details(c: CoreView, env: ManagerEnv)
    requires
        env.persisted is Ok,
    ensures
        ({
            let p = env.persisted->Ok_0;
            let (c2, a) = spec_startup(c, env);
            &&& c2.ws_url == opt_string_view(p.ws_url)
            &&& c2.client_key == opt_string_view(p.client_key)
            &&& c2.mac_addr == opt_mac_parse(p.mac_addr)
            &&& c2.has_state_machine
            &&& c2.reconnect_flow_status == ReconnectFlowStatus::Inactive
            &&& a.last() == emit(OutputView::ReconnectFlowStatus(ReconnectFlowStatus::Inactive))
        }),
{
    reveal(spec_initialize);
}

/// The registration request carries the client key the manager knows (or `null`) and the
/// connection's pairing choice, and is the last action of the registration step.
pub proof fn law_registration_carries_client_key(
    c: CoreView,
    env: ManagerEnv,
    ids: Seq<Seq<char>>,
    base: Map<Seq<char>, Seq<char>>,
)
    requires
        c.has_websocket_channel,
        json_parse_object(c.register_payload) == Ok::<Option<Map<Seq<char>, Seq<char>>>, Seq<char>>(
            Some(base),
        ),
    ensures
        ({
            let (c2, a) = spec_output_event(c, Output::SendRegisterPayload, env, ids);
            &&& c2.client_key == c.client_key
            &&& a.last() == ActionView::SendToWebSocket(
                WsMessageView::Payload(
                    register_request_text(base, c.client_key, connection_forces_pairing(c), ids[0]),
                ),
            )
        }),
{
    reveal(spec_send_register);
}

/// Every network check result is reported, with whether waking the TV is possible, and
/// remembered as the TV's last known presence on the network.
pub proof fn law_network_check_reported(c: CoreView, env: ManagerEnv)
    ensures
        ({
            let (c2, a) = spec_tv_on_network(c, env);
            &&& a[0] == emit(
                OutputView::TvOnNetworkTestStatus(
                    if env.is_tv_on_network {
                        TestStatus::Passed
                    } else {
                        TestStatus::Failed
                    },
                ),
            )
            &&& a[1] == emit(
                OutputView::IsWakeLastSeenTvAvailable(env.is_tv_on_network && c.mac_addr is Some),
            )
            &&& c2.was_on_network == env.is_tv_on_network
        }),
{
}

/// When the TV reappears on the network while the manager waits for it, the manager reconnects
/// at once: the attempt is counted and the state machine is told to connect to the URL of the
/// kept connection.
pub proof fn law_tv_back_on_network_reconnects(c: CoreView, env: ManagerEnv, conn: Connection, url: Seq<char>)
    requires
        !c.was_on_network,
        env.is_tv_on_network,
        c.reconnect_flow_status == ReconnectFlowStatus::WaitingForTvOnNetwork,
        c.ws_url is Some,
        c.connection_details == Some(conn),
        c.manager_status is Disconnected,
        c.has_state_machine,
        spec_websocket_url_for_connection(conn@) == Ok::<Seq<char>, Seq<char>>(url),
    ensures
        ({
            let (c2, a) = spec_tv_on_network(c, env);
            &&& a.last() == ActionView::SendToStateMachine(InputView::Connect(url))
            &&& c2.reconnect_attempts == 1
            &&& c2.ws_url == Some(url)
            &&& c2.was_on_network
        }),
{
    reveal(spec_initiate_reconnect);
    reveal(spec_reconnect_now);
    reveal(spec_connect_reporting);
    reveal(spec_connect_checked);
    let (c1, a1) = spec_set_flow(c, ReconnectFlowStatus::Active);
    let c1b = CoreView { reconnect_attempts: 1, ..c1 };
    let (c3, a3, r3) = spec_connect(c1b, conn, env);
    let (c2, a) = spec_tv_on_network(c, env);
    assert(a3.last() == ActionView::SendToStateMachine(InputView::Connect(url)));
    assert(a.last() == ActionView::SendToStateMachine(InputView::Connect(url)));
}

/// The client key that the TV hands out at pairing is used in later sessions: when the
/// persisted state reads back what the registration wrote, startup takes on that key and the
/// URL of the connection it was paired on.
pub proof fn law_client_key_survives_sessions(
    c: CoreView,
    reg: LgTvRegisteredResponse,
    later: CoreView,
    env: ManagerEnv,
)
    requires
        c.has_state_machine,
        env.persisted is Ok,
        env.persisted->Ok_0@ == persisted_of(spec_tv_response(c, LgTvResponse::Registered(reg)).0),
    ensures
        spec_startup(later, env).0.client_key == Some(reg.client_key@),
        spec_startup(later, env).0.ws_url == c.ws_url,
{
    reveal(spec_initialize);
}

/// A lost connection is re-established: once the disconnect completes while the reconnect
/// flow is active (and the TV is not known to be off the network), the flow stays active, the
/// connection details are kept and a reconnect countdown starts.
pub proof fn law_lost_connection_schedules_reconnect(c: CoreView, env: ManagerEnv)
    requires
        c.reconnect_flow_status == ReconnectFlowStatus::Active,
        c.connection_details is Some,
        env.is_tv_on_network || !env.network_checker_operational,
        spec_import_persisted(c, env).ws_url is Some,
    ensures
        ({
            let (c2, a) = spec_successful_disconnect(c, env);
            &&& c2.reconnect_flow_status == ReconnectFlowStatus::Active
            &&& c2.connection_details == c.connection_details
            &&& a.last() == ActionView::StartReconnectCountdown
        }),
{
    reveal(spec_successful_disconnect);
    reveal(spec_initialize);
    reveal(spec_initiate_reconnect);
}

/// Every connection test is answered: `InProgress` (and the test is sent to the TV) when a
/// connection is initialized, `Failed` when there is none to test.
pub proof fn law_connection_test_always_answered(c: CoreView, env: ManagerEnv)
    ensures
        ({
            let (c2, a) = spec_manager_message(c, ManagerMessage::TestConnection, env);
            &&& c2 == c
            &&& a.len() >= 1
            &&& a[0] == emit(
                OutputView::ConnectionTestStatus(
                    if c.is_connection_initialized {
                        TestStatus::InProgress
                    } else {
                        TestStatus::Failed
                    },
                ),
            )
        }),
{
}

/// A successful connect follows the connection's own settings: the reconnect flow is active
/// exactly when they ask for initial connect retries, and their client key, if any, replaces
/// the one the manager knew.
pub proof fn law_connect_follows_connection_settings(
    c: CoreView,
    conn: Connection,
    env: ManagerEnv,
    url: Seq<char>,
)
    requires
        c.manager_status is Disconnected,
        c.has_state_machine,
        spec_websocket_url_for_connection(conn@) == Ok::<Seq<char>, Seq<char>>(url),
    ensures
        ({
            let (c2, a, r) = spec_connect(c, conn, env);
            let s = crate::connection_settings::connection_settings(conn);
            &&& r is Ok
            &&& c2.connection_details == Some(conn)
            &&& c2.ws_url == Some(url)
            &&& c2.reconnect_flow_status == (if s.initial_connect_retries {
                ReconnectFlowStatus::Active
            } else {
                ReconnectFlowStatus::Inactive
            })
            &&& c2.client_key == (match s.client_key {
                Some(k) => Some(k@),
                None => c.client_key,
            })
            &&& a.last() == ActionView::SendToStateMachine(InputView::Connect(url))
        }),
{
    reveal(crate::manager_core::spec_connect_checked);
}

/// A screen on/off reply sets the screen state to whether the TV says `Active`, keeps the
/// rest of the TV state, and announces exactly that state.
pub proof fn law_screen_state_follows_reply(
    c: CoreView,
    id: String,
    so: crate::ssap_payloads::SetScreenOnPayload,
)
    requires
        c.has_state_machine,
    ensures
        ({
            let resp = LgTvResponse::Command(
                crate::ssap_payloads::LgTvCommandResponse {
                    id,
                    payload: crate::ssap_payloads::LgTvResponsePayload::SetScreenOn(so),
                },
            );
            let (c2, a, r) = spec_tv_response(c, resp);
            &&& r is Ok
            &&& c2.tv_state.is_screen_on == Some(so.state@ == "Active"@)
            &&& c2.tv_state.volume == c.tv_state.volume
            &&& c2.tv_state.is_muted == c.tv_state.is_muted
            &&& c2.tv_state.power_state == c.tv_state.power_state
            &&& c2.tv_state.is_volume_settable == c.tv_state.is_volume_settable
            &&& a == seq![emit(OutputView::TvState(c2.tv_state))]
        }),
{
}

/// A TV error is always reported with its text; when the text mentions `pairing` or
/// `403 cancelled`, the state machine's error flow starts right after.
pub proof fn law_pairing_error_starts_error_flow(
    c: CoreView,
    id: String,
    e: String,
)
    requires
        c.has_state_machine,
    ensures
        ({
            let resp = LgTvResponse::Error(
                crate::ssap_payloads::LgTvErrorResponse { id, error: Some(e) },
            );
            let (c2, a, r) = spec_tv_response(c, resp);
            let pairing = (exists|i: int| crate::text::occurs_at(e@, "pairing"@, i)) || (exists|
                i: int,
            | crate::text::occurs_at(e@, "403 cancelled"@, i));
            &&& r is Ok
            &&& c2 == c
            &&& a[0] == emit(OutputView::TvError(e@))
            &&& (pairing ==> a == seq![
                emit(OutputView::TvError(e@)),
                ActionView::SendToStateMachine(InputView::Error),
            ])
            &&& (!pairing ==> a == seq![emit(OutputView::TvError(e@))])
        }),
{
    let resp = LgTvResponse::Error(crate::ssap_payloads::LgTvErrorResponse { id, error: Some(e) });
    let (c2, a, r) = spec_tv_response(c, resp);
    assert(a =~= seq![emit(OutputView::TvError(e@))] + (if crate::manager_core::is_pairing_error(
        Some(e@),
    ) {
        seq![ActionView::SendToStateMachine(InputView::Error)]
    } else {
        Seq::empty()
    }));
}

/// Waking the last-seen TV: when the persisted URL's host is an IP address (of either family)
/// and the persisted MAC address is a 6-byte one, the only action is the Wake-on-LAN packet to
/// that IP for that MAC.
pub proof fn law_wake_sends_to_persisted_ip(
    c: CoreView,
    env: ManagerEnv,
    u: String,
    m: String,
    ip: crate::url_parts::IpAddress,
    bytes: [u8; 6],
)
    requires
        env.persisted matches Ok(p) && p.ws_url == Some(u) && p.mac_addr == Some(m),
        crate::helpers::spec_url_ip_addr(u@) == Some(ip),
        crate::net::mac_parse(m@) == Some(crate::net::MacAddress::V6(bytes)),
    ensures
        ({
            let (c2, a) = spec_manager_message(c, ManagerMessage::WakeLastSeenTv, env);
            &&& c2 == c
            &&& a == seq![ActionView::SendWakeOnLan(ip, bytes@)]
        }),
{
}

} // verus!
