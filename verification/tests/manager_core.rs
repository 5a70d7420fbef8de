use lgtv_manager::commands::TvCommand;
use lgtv_manager::connection_settings::{Connection, ConnectionSettings, ConnectionSettingsBuilder};
use lgtv_manager::discovery::LgTvDevice;
use lgtv_manager::manager::{
    ManagerAction, ManagerEnv, ManagerError, ManagerMessage, ManagerOutputMessage,
    PersistedState, ReconnectFlowStatus, TestStatus,
};
use lgtv_manager::manager_core::ManagerCore;
use lgtv_manager::manager_dispatch::{discovery_result_messages, discovery_started_message};
use lgtv_manager::net::MacAddress;
use lgtv_manager::ssap_payloads::{
    GetVolumePayloadVariantB, LgTvCommandResponse, LgTvErrorResponse, LgTvRegisteredResponse,
    LgTvResponse, LgTvResponsePayload, PairPayload,
};
use lgtv_manager::state_machine::{Input, Output, State, StateMachineUpdateMessage};
use lgtv_manager::url_parts::IpAddress;
use lgtv_manager::websocket::{WsCommand, WsMessage, WsStatus, WsUpdateMessage};

const REGISTER_PAYLOAD: &str = r#"{"forcePairing":false,"pairingType":"PROMPT","manifest":{"appVersion":"1.1"}}"#;
const URL: &str = "wss://10.0.0.1:3001/";

fn env() -> ManagerEnv {
    ManagerEnv {
        is_tv_on_network: true,
        network_checker_operational: true,
        network_checker_ip: None,
        persisted: Ok(PersistedState {
            ws_url: None,
            client_key: None,
            mac_addr: None,
        }),
    }
}

fn started() -> ManagerCore {
    let mut core = ManagerCore::new(REGISTER_PAYLOAD.to_string());
    core.startup(&env());
    core
}

fn host(h: &str) -> Connection {
    Connection::Host(h.to_string(), ConnectionSettings::default())
}

fn auto_host(h: &str) -> Connection {
    Connection::Host(h.to_string(), ConnectionSettingsBuilder::new().with_auto_reconnect().build())
}

fn is_status(a: &ManagerAction, f: impl Fn(&State) -> bool) -> bool {
    matches!(a, ManagerAction::Emit(ManagerOutputMessage::Status(s)) if f(s))
}

#[test]
fn new_manager_knows_nothing() {
    let core = ManagerCore::new(REGISTER_PAYLOAD.to_string());
    assert!(core.manager_status.is_disconnected());
    assert!(core.client_key.is_none());
    assert!(core.ws_url.is_none());
    assert_eq!(core.reconnect_flow_status, ReconnectFlowStatus::Inactive);
    assert!(!core.has_state_machine);
}

#[test]
fn startup_announces_everything() {
    let mut core = ManagerCore::new(REGISTER_PAYLOAD.to_string());
    let actions = core.startup(&env());
    assert!(core.has_state_machine);
    assert_eq!(actions.len(), 11);
    assert!(matches!(actions[0], ManagerAction::RequestNetworkCheck));
    assert!(matches!(actions[1], ManagerAction::Emit(ManagerOutputMessage::LastSeenTv(_))));
    assert!(matches!(
        actions[7],
        ManagerAction::Emit(ManagerOutputMessage::ConnectionTestStatus(TestStatus::Unknown))
    ));
    assert!(is_status(&actions[9], |s| s.is_disconnected()));
    assert!(matches!(
        actions[10],
        ManagerAction::Emit(ManagerOutputMessage::ReconnectFlowStatus(ReconnectFlowStatus::Inactive))
    ));
}

#[test]
fn startup_takes_on_persisted_details() {
    let mut core = ManagerCore::new(REGISTER_PAYLOAD.to_string());
    let e = ManagerEnv {
        persisted: Ok(PersistedState {
            ws_url: Some(URL.to_string()),
            client_key: Some("key".to_string()),
            mac_addr: Some("AA:BB:CC:DD:EE:FF".to_string()),
        }),
        ..env()
    };
    let actions = core.startup(&e);
    assert_eq!(core.ws_url.as_deref(), Some(URL));
    assert_eq!(core.client_key.as_deref(), Some("key"));
    assert_eq!(core.mac_addr, Some(MacAddress::V6([0xAA, 0xBB, 0xCC, 0xDD, 0xEE, 0xFF])));
    assert!(actions
        .iter()
        .any(|a| matches!(a, ManagerAction::SetHostIp(IpAddress::V4(0x0a00_0001)))));
    assert!(actions.iter().any(|a| matches!(
        a,
        ManagerAction::Emit(ManagerOutputMessage::IsWakeLastSeenTvAvailable(true))
    )));
}

#[test]
fn connect_sends_connect_to_state_machine() {
    let mut core = started();
    let actions = core.handle_manager_message(ManagerMessage::Connect(host("10.0.0.1")), &env());
    assert_eq!(actions.len(), 3);
    assert!(matches!(actions[0], ManagerAction::SetNetworkCheckIp(IpAddress::V4(0x0a00_0001))));
    assert!(matches!(
        actions[1],
        ManagerAction::Emit(ManagerOutputMessage::ReconnectFlowStatus(ReconnectFlowStatus::Inactive))
    ));
    assert!(matches!(&actions[2], ManagerAction::SendToStateMachine(Input::Connect(u)) if u == URL));
    assert_eq!(core.ws_url.as_deref(), Some(URL));
    assert!(core.connection_details.is_some());
}

#[test]
fn connect_skips_known_checker_ip() {
    let mut core = started();
    let e = ManagerEnv {
        network_checker_ip: Some(IpAddress::V4(0x0a00_0001)),
        ..env()
    };
    let actions = core.handle_manager_message(ManagerMessage::Connect(host("10.0.0.1")), &e);
    assert_eq!(actions.len(), 2);
}

#[test]
fn connect_refused_when_not_disconnected() {
    let mut core = started();
    core.manager_status = State::Connecting(URL.to_string());
    let actions = core.handle_manager_message(ManagerMessage::Connect(host("10.0.0.1")), &env());
    assert_eq!(actions.len(), 1);
    match &actions[0] {
        ManagerAction::Emit(ManagerOutputMessage::Error(ManagerError::Connection(m))) => assert_eq!(
            m,
            "Cannot connect while not in Disconnected state (current state: Connecting(\"wss://10.0.0.1:3001/\"))"
        ),
        other => panic!("unexpected {:?}", other),
    }
}

#[test]
fn connect_refused_without_state_machine() {
    let mut core = ManagerCore::new(REGISTER_PAYLOAD.to_string());
    let mut out = Vec::new();
    let r = core.initiate_connect_to_tv(host("10.0.0.1"), &env(), &mut out);
    assert_eq!(r, Err("Cannot connect before state machine channel is available".to_string()));
    assert!(out.is_empty());
}

#[test]
fn connect_with_bad_host_reports_url_error() {
    let mut core = started();
    let actions = core.handle_manager_message(ManagerMessage::Connect(host("")), &env());
    match &actions[..] {
        [ManagerAction::Emit(ManagerOutputMessage::Error(ManagerError::Connection(m)))] => {
            assert_eq!(m, "Error determining TV URL: No host specified")
        },
        other => panic!("unexpected {:?}", other),
    }
}

#[test]
fn connect_output_starts_websocket() {
    let mut core = started();
    core.handle_manager_message(ManagerMessage::Connect(host("10.0.0.1")), &env());
    let actions = core.handle_state_machine_update(
        StateMachineUpdateMessage::Output(Output::ConnectToTv(URL.to_string())),
        &env(),
    );
    assert!(matches!(&actions[..], [ManagerAction::StartWebSocket(u, true)] if u == URL));
    assert!(core.has_websocket_task);
}

#[test]
fn register_request_goes_to_websocket() {
    let mut core = started();
    core.handle_manager_message(ManagerMessage::Connect(host("10.0.0.1")), &env());
    core.handle_state_machine_update(
        StateMachineUpdateMessage::Output(Output::ConnectToTv(URL.to_string())),
        &env(),
    );
    let actions = core.handle_state_machine_update(
        StateMachineUpdateMessage::Output(Output::SendRegisterPayload),
        &env(),
    );
    assert_eq!(core.session_connection_count, 1);
    let payload = actions
        .iter()
        .find_map(|a| match a {
            ManagerAction::SendToWebSocket(WsMessage::Payload(p)) => Some(p.clone()),
            _ => None,
        })
        .expect("register payload sent");
    let v: serde_json::Value = serde_json::from_str(&payload).unwrap();
    assert_eq!(v["type"], "register");
    assert_eq!(v["payload"]["client-key"], serde_json::Value::Null);
    assert_eq!(v["payload"]["forcePairing"], false);
    assert_eq!(v["payload"]["manifest"]["appVersion"], "1.1");
}

#[test]
fn bad_register_payload_resets() {
    let mut core = ManagerCore::new("not json".to_string());
    core.startup(&env());
    let actions = core.handle_state_machine_update(
        StateMachineUpdateMessage::Output(Output::SendRegisterPayload),
        &env(),
    );
    assert!(matches!(
        &actions[1],
        ManagerAction::Emit(ManagerOutputMessage::Resetting(r)) if r.starts_with("Could not create register payload: ")
    ));
    assert!(actions.iter().any(|a| matches!(a, ManagerAction::SendToStateMachine(Input::Reset))));
}

#[test]
fn registered_response_persists_client_key() {
    let mut core = started();
    core.handle_manager_message(ManagerMessage::Connect(host("10.0.0.1")), &env());
    let actions = core
        .handle_tv_response(LgTvResponse::Registered(LgTvRegisteredResponse {
            id: "register_0".to_string(),
            client_key: "abc".to_string(),
        }))
        .unwrap();
    assert_eq!(core.client_key.as_deref(), Some("abc"));
    assert_eq!(actions.len(), 2);
    match &actions[0] {
        ManagerAction::WritePersistedState(p) => assert_eq!(
            p,
            &PersistedState {
                ws_url: Some(URL.to_string()),
                client_key: Some("abc".to_string()),
                mac_addr: None,
            }
        ),
        other => panic!("unexpected {:?}", other),
    }
    assert!(matches!(actions[1], ManagerAction::SendToStateMachine(Input::Initialize)));
}

#[test]
fn tv_response_without_state_machine_is_refused() {
    let mut core = ManagerCore::new(REGISTER_PAYLOAD.to_string());
    let r = core.handle_tv_response(LgTvResponse::Registered(LgTvRegisteredResponse {
        id: "x".to_string(),
        client_key: "abc".to_string(),
    }));
    assert!(r.is_err());
    assert!(core.client_key.is_none());
}

#[test]
fn pairing_error_starts_error_flow() {
    let mut core = started();
    let actions = core
        .handle_tv_response(LgTvResponse::Error(LgTvErrorResponse {
            id: "register_0".to_string(),
            error: Some("403 cancelled".to_string()),
        }))
        .unwrap();
    assert!(matches!(&actions[0], ManagerAction::Emit(ManagerOutputMessage::TvError(e)) if e == "403 cancelled"));
    assert!(matches!(actions[1], ManagerAction::SendToStateMachine(Input::Error)));

    let actions = core
        .handle_tv_response(LgTvResponse::Error(LgTvErrorResponse {
            id: "x".to_string(),
            error: None,
        }))
        .unwrap();
    assert_eq!(actions.len(), 1);
    assert!(matches!(&actions[0], ManagerAction::Emit(ManagerOutputMessage::TvError(e)) if e == "Unknown TV error"));
}

#[test]
fn pair_prompt_and_unexpected_pair_type() {
    let mut core = started();
    let actions = core
        .handle_tv_response(LgTvResponse::Command(LgTvCommandResponse {
            id: "register_0".to_string(),
            payload: LgTvResponsePayload::Pair(PairPayload {
                pairing_type: "PROMPT".to_string(),
                return_value: true,
            }),
        }))
        .unwrap();
    assert!(matches!(&actions[..], [ManagerAction::SendToStateMachine(Input::Pair)]));

    let actions = core
        .handle_tv_response(LgTvResponse::Command(LgTvCommandResponse {
            id: "register_0".to_string(),
            payload: LgTvResponsePayload::Pair(PairPayload {
                pairing_type: "PIN".to_string(),
                return_value: true,
            }),
        }))
        .unwrap();
    assert!(matches!(actions[0], ManagerAction::SendToStateMachine(Input::Error)));
    assert!(matches!(
        &actions[1],
        ManagerAction::Emit(ManagerOutputMessage::Error(ManagerError::Pair(m))) if m == "Unexpected pair type: PIN"
    ));
}

#[test]
fn volume_report_updates_state() {
    let mut core = started();
    let actions = core
        .handle_tv_response(LgTvResponse::Command(LgTvCommandResponse {
            id: "get_volume_subscription".to_string(),
            payload: LgTvResponsePayload::GetVolumeVariantB(GetVolumePayloadVariantB {
                return_value: true,
                volume_max: 100,
                ringtonewithvibration: None,
                scenario: None,
                muted: true,
                hac: None,
                subscribed: Some(true),
                volume: 17,
                action: None,
                supportvolume: true,
                ringer_switch: None,
                slider: None,
                active: None,
            }),
        }))
        .unwrap();
    assert_eq!(core.tv_state.volume, Some(17));
    assert_eq!(core.tv_state.is_muted, Some(true));
    assert_eq!(core.tv_state.is_volume_settable, Some(true));
    assert!(core.is_connection_initialized);
    assert!(matches!(
        &actions[..],
        [
            ManagerAction::SendToStateMachine(Input::StartCommunication),
            ManagerAction::Emit(ManagerOutputMessage::TvState(s))
        ] if s.volume == Some(17)
    ));
}

#[test]
fn initialize_connection_sends_six_requests() {
    let mut core = started();
    core.handle_manager_message(ManagerMessage::Connect(host("10.0.0.1")), &env());
    core.handle_state_machine_update(
        StateMachineUpdateMessage::Output(Output::ConnectToTv(URL.to_string())),
        &env(),
    );
    let actions = core.handle_state_machine_update(
        StateMachineUpdateMessage::Output(Output::InitializeConnection),
        &env(),
    );
    assert_eq!(actions.len(), 6);
    let uris = [
        "ssap://com.webos.service.update/getCurrentSWInformation",
        "ssap://tv/getExternalInputList",
        "ssap://com.webos.service.tvpower/power/getPowerState",
        "ssap://system/getSystemInfo",
        "ssap://audio/getVolume",
        "ssap://com.webos.service.tvpower/power/getPowerState",
    ];
    for (a, uri) in actions.iter().zip(uris.iter()) {
        match a {
            ManagerAction::SendToWebSocket(WsMessage::Payload(p)) => {
                let v: serde_json::Value = serde_json::from_str(p).unwrap();
                assert_eq!(v["uri"], *uri);
            },
            other => panic!("unexpected {:?}", other),
        }
    }
    assert!(core.last_good_connection.is_some());
}

#[test]
fn communicating_status_announces_last_seen() {
    let mut core = started();
    core.handle_manager_message(ManagerMessage::Connect(host("10.0.0.1")), &env());
    let actions = core.handle_state_machine_update(
        StateMachineUpdateMessage::State(State::Communicating(URL.to_string())),
        &env(),
    );
    assert_eq!(actions.len(), 2);
    assert!(is_status(&actions[0], |s| s.is_communicating()));
    assert!(matches!(
        &actions[1],
        ManagerAction::Emit(ManagerOutputMessage::LastSeenTv(l)) if l.websocket_url.as_deref() == Some(URL)
    ));
    // The same status again is not announced.
    let again = core.handle_state_machine_update(
        StateMachineUpdateMessage::State(State::Communicating(URL.to_string())),
        &env(),
    );
    assert!(again.is_empty());
}

#[test]
fn send_command_goes_through_state_machine() {
    let mut core = started();
    let actions =
        core.handle_manager_message(ManagerMessage::SendTvCommand(TvCommand::VolumeUp), &env());
    assert!(matches!(
        &actions[..],
        [ManagerAction::SendToStateMachine(Input::SendCommand(TvCommand::VolumeUp))]
    ));
}

#[test]
fn wake_last_seen_tv() {
    let core_env = ManagerEnv {
        persisted: Ok(PersistedState {
            ws_url: Some(URL.to_string()),
            client_key: None,
            mac_addr: Some("AA:BB:CC:DD:EE:FF".to_string()),
        }),
        ..env()
    };
    let mut core = started();
    let actions = core.handle_manager_message(ManagerMessage::WakeLastSeenTv, &core_env);
    assert!(matches!(
        &actions[..],
        [ManagerAction::SendWakeOnLan(IpAddress::V4(0x0a00_0001), [0xAA, 0xBB, 0xCC, 0xDD, 0xEE, 0xFF])]
    ));

    let missing = core.handle_manager_message(ManagerMessage::WakeLastSeenTv, &env());
    assert!(matches!(
        &missing[..],
        [ManagerAction::Emit(ManagerOutputMessage::Error(ManagerError::Action(m)))]
            if m == "Cannot send Wake-on-LAN: Missing WebSocket URL or MAC address"
    ));

    let unreadable = ManagerEnv {
        persisted: Err("boom".to_string()),
        ..env()
    };
    let failed = core.handle_manager_message(ManagerMessage::WakeLastSeenTv, &unreadable);
    assert!(matches!(
        &failed[..],
        [ManagerAction::Emit(ManagerOutputMessage::Error(ManagerError::Action(m)))]
            if m == "Cannot send Wake-on-LAN: Cannot read persisted data: boom"
    ));

    let eui64 = ManagerEnv {
        persisted: Ok(PersistedState {
            ws_url: Some(URL.to_string()),
            client_key: None,
            mac_addr: Some("AA:BB:CC:DD:EE:FF:00:11".to_string()),
        }),
        ..env()
    };
    let refused = core.handle_manager_message(ManagerMessage::WakeLastSeenTv, &eui64);
    assert!(matches!(
        &refused[..],
        [ManagerAction::Emit(ManagerOutputMessage::Error(ManagerError::Action(m)))]
            if m.starts_with("Cannot send Wake-on-LAN: Cannot determine host IP and MAC from URL: ")
    ));
}

#[test]
fn wake_failure_is_reported() {
    let core = started();
    let actions = core.on_wake_on_lan_failed("no route");
    assert!(matches!(
        &actions[..],
        [ManagerAction::Emit(ManagerOutputMessage::Error(ManagerError::Action(m)))]
            if m == "Cannot send Wake-on-LAN: Send error: no route"
    ));
}

#[test]
fn cancel_reconnect_only_when_active() {
    let mut core = started();
    assert!(core
        .handle_manager_message(ManagerMessage::CancelReconnect, &env())
        .is_empty());
    core.reconnect_flow_status = ReconnectFlowStatus::Active;
    let actions = core.handle_manager_message(ManagerMessage::CancelReconnect, &env());
    assert_eq!(core.reconnect_flow_status, ReconnectFlowStatus::Cancelled);
    assert!(matches!(
        &actions[..],
        [ManagerAction::Emit(ManagerOutputMessage::ReconnectFlowStatus(ReconnectFlowStatus::Cancelled))]
    ));
}

#[test]
fn shut_down_stops_and_exits() {
    let mut core = started();
    let actions = core.handle_manager_message(ManagerMessage::ShutDown, &env());
    assert!(matches!(&actions[..], [ManagerAction::StopStateMachine, ManagerAction::Exit]));

    core.handle_manager_message(ManagerMessage::Connect(host("10.0.0.1")), &env());
    core.handle_state_machine_update(
        StateMachineUpdateMessage::Output(Output::ConnectToTv(URL.to_string())),
        &env(),
    );
    let actions = core.handle_manager_message(ManagerMessage::ShutDown, &env());
    assert!(matches!(
        &actions[..],
        [
            ManagerAction::StopStateMachine,
            ManagerAction::SendToWebSocket(WsMessage::Command(WsCommand::ShutDown)),
            ManagerAction::Exit
        ]
    ));
}

#[test]
fn disconnect_is_manual() {
    let mut core = started();
    let actions = core.handle_manager_message(ManagerMessage::Disconnect, &env());
    assert!(core.is_manual_disconnect_requested);
    assert!(matches!(&actions[..], [ManagerAction::SendToStateMachine(Input::Disconnect)]));
}

#[test]
fn test_connection_always_answered() {
    let mut core = started();
    assert!(matches!(
        &core.handle_manager_message(ManagerMessage::TestConnection, &env())[..],
        [ManagerAction::Emit(ManagerOutputMessage::ConnectionTestStatus(TestStatus::Failed))]
    ));
    core.is_connection_initialized = true;
    core.has_websocket_channel = true;
    let actions = core.handle_manager_message(ManagerMessage::TestConnection, &env());
    assert!(matches!(
        &actions[..],
        [
            ManagerAction::Emit(ManagerOutputMessage::ConnectionTestStatus(TestStatus::InProgress)),
            ManagerAction::SendToWebSocket(WsMessage::TestConnection)
        ]
    ));
}

#[test]
fn connection_test_results() {
    let mut core = started();
    let ok = core.handle_websocket_update(WsUpdateMessage::IsConnectionOk(true), &env());
    assert!(matches!(
        &ok[..],
        [ManagerAction::Emit(ManagerOutputMessage::ConnectionTestStatus(TestStatus::Passed))]
    ));
    let failed = core.handle_websocket_update(WsUpdateMessage::IsConnectionOk(false), &env());
    assert!(matches!(
        &failed[..],
        [
            ManagerAction::Emit(ManagerOutputMessage::ConnectionTestStatus(TestStatus::Failed)),
            ManagerAction::SendToStateMachine(Input::Error),
            ManagerAction::Emit(ManagerOutputMessage::Error(ManagerError::Connection(_)))
        ]
    ));
}

#[test]
fn server_close_with_auto_reconnect_activates_flow() {
    let mut core = started();
    core.handle_manager_message(ManagerMessage::Connect(auto_host("10.0.0.1")), &env());
    let actions = core.handle_websocket_update(
        WsUpdateMessage::Status(WsStatus::ServerClosedConnection),
        &env(),
    );
    assert_eq!(core.reconnect_flow_status, ReconnectFlowStatus::Active);
    assert!(matches!(
        &actions[..],
        [
            ManagerAction::Emit(ManagerOutputMessage::ReconnectFlowStatus(ReconnectFlowStatus::Active)),
            ManagerAction::SendToStateMachine(Input::Error),
            ManagerAction::Emit(ManagerOutputMessage::Error(ManagerError::Connection(m)))
        ] if m == "Server closed connection"
    ));
}

#[test]
fn websocket_connected_attempts_register() {
    let mut core = started();
    let actions = core.handle_websocket_update(WsUpdateMessage::Status(WsStatus::Connected), &env());
    assert!(matches!(&actions[..], [ManagerAction::SendToStateMachine(Input::AttemptRegister)]));
    let idle = core.handle_websocket_update(WsUpdateMessage::Status(WsStatus::Idle), &env());
    assert!(idle.is_empty());
}

#[test]
fn tv_leaving_network_while_connected_is_an_error() {
    let mut core = started();
    core.handle_tv_on_network(&env());
    assert!(core.was_on_network);
    core.manager_status = State::Communicating(URL.to_string());
    let off = ManagerEnv {
        is_tv_on_network: false,
        ..env()
    };
    let actions = core.handle_tv_on_network(&off);
    assert!(matches!(
        actions[0],
        ManagerAction::Emit(ManagerOutputMessage::TvOnNetworkTestStatus(TestStatus::Failed))
    ));
    assert!(matches!(actions[2], ManagerAction::SendToStateMachine(Input::Error)));
    assert!(!core.was_on_network);
}

#[test]
fn tv_returning_to_network_reconnects() {
    let mut core = started();
    core.handle_manager_message(ManagerMessage::Connect(auto_host("10.0.0.1")), &env());
    let off = ManagerEnv {
        is_tv_on_network: false,
        ..env()
    };
    core.handle_tv_on_network(&env());
    core.handle_tv_on_network(&off);
    assert_eq!(core.reconnect_flow_status, ReconnectFlowStatus::WaitingForTvOnNetwork);
    let actions = core.handle_tv_on_network(&env());
    assert_eq!(core.reconnect_attempts, 1);
    assert!(actions
        .iter()
        .any(|a| matches!(a, ManagerAction::SendToStateMachine(Input::Connect(u)) if u == URL)));
}

#[test]
fn testing_tv_on_network_in_progress() {
    let core = started();
    assert!(matches!(
        &core.handle_testing_tv_on_network(true)[..],
        [ManagerAction::Emit(ManagerOutputMessage::TvOnNetworkTestStatus(TestStatus::InProgress))]
    ));
    assert!(core.handle_testing_tv_on_network(false).is_empty());
}

#[test]
fn state_machine_channel_closed_makes_zombie() {
    let mut core = started();
    let actions = core.on_state_machine_channel_closed();
    assert!(matches!(core.manager_status, State::Zombie));
    assert!(matches!(
        &actions[0],
        ManagerAction::Emit(ManagerOutputMessage::Error(ManagerError::Fatal(_)))
    ));
    assert!(is_status(&actions[1], |s| matches!(s, State::Zombie)));
}

#[test]
fn websocket_channel_closed_resets() {
    let mut core = started();
    let actions = core.on_websocket_channel_closed(&env());
    assert!(matches!(
        &actions[0],
        ManagerAction::Emit(ManagerOutputMessage::Resetting(r))
            if r == "Cannot send message to WebSocket handler: channel unexpectedly closed"
    ));
    assert!(matches!(actions[1], ManagerAction::StopWebSocket));
}

#[test]
fn reconnect_countdown() {
    let mut core = started();
    assert!(core.reconnect_countdown_message(0).is_none());
    core.ws_url = Some(URL.to_string());
    core.reconnect_attempts = 2;
    match core.reconnect_countdown_message(1) {
        Some(ManagerOutputMessage::Status(State::Reconnecting(d))) => {
            assert_eq!(d.url, URL);
            assert_eq!(d.attempts, 2);
            assert_eq!(d.next_attempt_secs, 4);
        },
        other => panic!("unexpected {:?}", other),
    }
    assert!(core.reconnect_countdown_message(5).is_none());
}

#[test]
fn discovery_messages() {
    assert!(matches!(discovery_started_message(), ManagerOutputMessage::IsDiscovering(true)));
    let ok = discovery_result_messages(Ok(vec![LgTvDevice {
        friendly_name: "TV".to_string(),
        model: "m".to_string(),
        model_number: None,
        serial_number: None,
        url: "http://10.0.0.1:1234/".to_string(),
        udn: "uuid:1".to_string(),
        mac_addr: None,
    }]));
    assert!(matches!(&ok[0], ManagerOutputMessage::DiscoveredDevices(d) if d.len() == 1));
    assert!(matches!(ok[1], ManagerOutputMessage::IsDiscovering(false)));
    let err = discovery_result_messages(Err("timeout".to_string()));
    assert!(matches!(
        &err[0],
        ManagerOutputMessage::Error(ManagerError::Discovery(m)) if m == "Discovery failed: timeout"
    ));
}

#[test]
fn reload_persisted_state_replaces_details() {
    let mut core = started();
    core.client_key = Some("old".to_string());
    core.reload_persisted_state(&ManagerEnv {
        persisted: Ok(PersistedState {
            ws_url: Some(URL.to_string()),
            client_key: None,
            mac_addr: Some("not a mac".to_string()),
        }),
        ..env()
    });
    assert_eq!(core.ws_url.as_deref(), Some(URL));
    assert!(core.client_key.is_none());
    assert!(core.mac_addr.is_none());
}

#[test]
fn persisted_state_written_announces_wake() {
    let mut core = started();
    core.mac_addr = Some(MacAddress::V6([1, 2, 3, 4, 5, 6]));
    assert!(matches!(
        &core.on_persisted_state_written(&env())[..],
        [ManagerAction::Emit(ManagerOutputMessage::IsWakeLastSeenTvAvailable(true))]
    ));
}

#[test]
fn retry_decision() {
    let mut core = started();
    assert!(!core.should_retry_connect_failure());
    core.connection_details = Some(Connection::Host(
        "10.0.0.1".to_string(),
        ConnectionSettingsBuilder::new().with_initial_connect_retries().build(),
    ));
    assert!(core.should_retry_connect_failure());
    core.session_connection_count = 1;
    assert!(!core.should_retry_connect_failure());
    core.connection_details = Some(auto_host("10.0.0.1"));
    assert!(core.should_retry_connect_failure());
}

#[test]
fn client_key_override_is_taken_on_connect() {
    let mut core = started();
    let keyed = Connection::Host(
        "10.0.0.1".to_string(),
        ConnectionSettingsBuilder::new().with_client_key("manual").build(),
    );
    core.client_key = Some("persisted".to_string());
    core.manager_status = State::Connected(URL.to_string());
    // Taken on even when the connect is refused.
    core.handle_manager_message(ManagerMessage::Connect(keyed.clone()), &env());
    assert_eq!(core.client_key.as_deref(), Some("manual"));

    let mut core = started();
    core.handle_manager_message(ManagerMessage::Connect(keyed), &env());
    core.handle_state_machine_update(
        StateMachineUpdateMessage::Output(Output::ConnectToTv(URL.to_string())),
        &env(),
    );
    let actions = core.handle_state_machine_update(
        StateMachineUpdateMessage::Output(Output::SendRegisterPayload),
        &env(),
    );
    let payload = actions
        .iter()
        .find_map(|a| match a {
            ManagerAction::SendToWebSocket(WsMessage::Payload(p)) => Some(p.clone()),
            _ => None,
        })
        .expect("register payload sent");
    let v: serde_json::Value = serde_json::from_str(&payload).unwrap();
    assert_eq!(v["payload"]["client-key"], "manual");
}

#[test]
fn client_key_survives_sessions() {
    let mut core = started();
    core.handle_manager_message(ManagerMessage::Connect(host("10.0.0.1")), &env());
    let actions = core
        .handle_tv_response(LgTvResponse::Registered(LgTvRegisteredResponse {
            id: "register_0".to_string(),
            client_key: "paired-key".to_string(),
        }))
        .unwrap();
    let written = match &actions[0] {
        ManagerAction::WritePersistedState(p) => p.clone(),
        other => panic!("unexpected {:?}", other),
    };

    let mut next_session = ManagerCore::new(REGISTER_PAYLOAD.to_string());
    next_session.startup(&ManagerEnv {
        persisted: Ok(written),
        ..env()
    });
    assert_eq!(next_session.client_key.as_deref(), Some("paired-key"));
    assert_eq!(next_session.ws_url.as_deref(), Some(URL));
}

#[test]
fn lost_connection_schedules_reconnect() {
    let mut core = started();
    core.handle_manager_message(ManagerMessage::Connect(auto_host("10.0.0.1")), &env());
    core.handle_state_machine_update(
        StateMachineUpdateMessage::Output(Output::ConnectToTv(URL.to_string())),
        &env(),
    );
    let persisted_env = ManagerEnv {
        persisted: Ok(PersistedState {
            ws_url: Some(URL.to_string()),
            client_key: None,
            mac_addr: None,
        }),
        ..env()
    };
    core.handle_websocket_update(
        WsUpdateMessage::Status(WsStatus::ServerClosedConnection),
        &persisted_env,
    );
    assert_eq!(core.reconnect_flow_status, ReconnectFlowStatus::Active);
    let actions = core.handle_state_machine_update(
        StateMachineUpdateMessage::Output(Output::HandleSuccessfulDisconnect),
        &persisted_env,
    );
    assert!(matches!(actions[0], ManagerAction::AwaitWebSocket));
    assert!(matches!(actions.last(), Some(ManagerAction::StartReconnectCountdown)));
    assert_eq!(core.reconnect_flow_status, ReconnectFlowStatus::Active);
    assert!(core.connection_details.is_some());

    let actions = core.reconnect_now(&persisted_env);
    assert_eq!(core.reconnect_attempts, 1);
    assert!(actions
        .iter()
        .any(|a| matches!(a, ManagerAction::SendToStateMachine(Input::Connect(u)) if u == URL)));
}

#[test]
fn initial_connect_retries_follow_the_connection() {
    let mut core = started();
    let retrying = Connection::Host(
        "10.0.0.1".to_string(),
        ConnectionSettingsBuilder::new().with_initial_connect_retries().build(),
    );
    core.handle_manager_message(ManagerMessage::Connect(retrying), &env());
    assert_eq!(core.reconnect_flow_status, ReconnectFlowStatus::Active);

    let mut core = started();
    core.handle_manager_message(ManagerMessage::Connect(host("10.0.0.1")), &env());
    assert_eq!(core.reconnect_flow_status, ReconnectFlowStatus::Inactive);
}

#[test]
fn device_connection_uses_tls() {
    let mut core = started();
    let device = LgTvDevice {
        friendly_name: "TV".to_string(),
        model: "m".to_string(),
        model_number: None,
        serial_number: None,
        url: "http://10.0.0.5:1234/".to_string(),
        udn: "uuid:1".to_string(),
        mac_addr: None,
    };
    let plain = ConnectionSettingsBuilder::new().with_no_tls().build();
    let actions = core.handle_manager_message(ManagerMessage::Connect(Connection::Device(device, plain)), &env());
    assert!(matches!(
        actions.last(),
        Some(ManagerAction::SendToStateMachine(Input::Connect(u))) if u == "wss://10.0.0.5:3001/"
    ));
    let actions = core.handle_state_machine_update(
        StateMachineUpdateMessage::Output(Output::ConnectToTv("wss://10.0.0.5:3001/".to_string())),
        &env(),
    );
    assert!(matches!(&actions[..], [ManagerAction::StartWebSocket(_, true)]));
}
