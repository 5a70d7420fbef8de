use lgtv_manager::commands::TvCommand;
use lgtv_manager::connection_settings::{ConnectionSettings, ConnectionSettingsBuilder};
use lgtv_manager::discovery::LgTvDevice;
use lgtv_manager::ssap_payloads::{Features, GetSystemInfoPayload};
use lgtv_manager::state::{LastSeenTv, TvInfo, TvState};
use lgtv_manager::state_machine::{ReconnectDetails, State};

#[test]
fn connection_settings_default() {
    assert_eq!(
        ConnectionSettings::default(),
        ConnectionSettings {
            is_tls: true,
            force_pairing: false,
            initial_connect_retries: false,
            auto_reconnect: false,
            client_key: None,
        }
    );
}

#[test]
fn connection_settings_builder() {
    assert_eq!(
        ConnectionSettingsBuilder::new()
            .with_no_tls()
            .with_forced_pairing()
            .build(),
        ConnectionSettings {
            is_tls: false,
            force_pairing: true,
            initial_connect_retries: false,
            auto_reconnect: false,
            client_key: None,
        }
    );
}

#[test]
fn connection_settings_builder_defaults() {
    assert_eq!(ConnectionSettingsBuilder::new().build(), ConnectionSettings::default());
    assert_eq!(
        ConnectionSettingsBuilder::default().with_no_tls().build(),
        ConnectionSettings {
            is_tls: false,
            force_pairing: false,
            initial_connect_retries: false,
            auto_reconnect: false,
            client_key: None,
        }
    );
}

#[test]
fn connection_settings_builder_options() {
    assert_eq!(
        ConnectionSettingsBuilder::new()
            .with_initial_connect_retries()
            .with_auto_reconnect()
            .with_client_key("key")
            .build(),
        ConnectionSettings {
            is_tls: true,
            force_pairing: false,
            initial_connect_retries: true,
            auto_reconnect: true,
            client_key: Some("key".to_string()),
        }
    );
}

#[test]
fn lgtvdevice_display() {
    assert_eq!(
        LgTvDevice {
            friendly_name: "LG WebOS TV".to_string(),
            model: "model".to_string(),
            model_number: None,
            serial_number: None,
            url: "http://38.0.101.76:3000".to_string(),
            udn: "uuid:00000000-0000-0000-0000-000000000000".to_string(),
            mac_addr: None,
        }
        .to_display_string(),
        "LG WebOS TV (model) [uuid:00000000-0000-0000-0000-000000000000]"
    )
}

#[test]
fn tv_state_default() {
    assert_eq!(
        TvState::default(),
        TvState {
            power_state: None,
            volume: None,
            is_muted: None,
            is_screen_on: None,
            is_volume_settable: None,
        }
    );
}

#[test]
fn last_seen_tv_default() {
    assert_eq!(
        LastSeenTv::default(),
        LastSeenTv {
            websocket_url: None,
            client_key: None,
            mac_addr: None,
        }
    );
}

#[test]
fn tv_info_from_get_system_info_payload() {
    let system_info_payload = GetSystemInfoPayload {
        return_value: true,
        features: Some(Features {
            three_d: None,
            dvr: Some(false),
        }),
        receiver_type: "TEST_RECEIVER_TYPE".to_string(),
        model_name: "TEST_MODEL_NAME".to_string(),
        serial_number: Some("TEST_SERIAL_NUMBER".to_string()),
        program_mode: true,
    };

    assert_eq!(
        TvInfo::from_system_info(system_info_payload),
        TvInfo {
            receiver_type: "TEST_RECEIVER_TYPE".to_string(),
            model_name: "TEST_MODEL_NAME".to_string(),
            serial_number: "TEST_SERIAL_NUMBER".to_string(),
            program_mode: true,
        }
    );
}

#[test]
fn tv_info_without_serial_number() {
    let payload = GetSystemInfoPayload {
        return_value: true,
        features: None,
        receiver_type: "r".to_string(),
        model_name: "m".to_string(),
        serial_number: None,
        program_mode: false,
    };
    assert_eq!(
        TvInfo::from_system_info(payload),
        TvInfo {
            receiver_type: "r".to_string(),
            model_name: "m".to_string(),
            serial_number: String::new(),
            program_mode: false,
        }
    );
}

#[test]
fn state_display() {
    assert_eq!(TvCommand::GetCurrentSWInfo.to_display_string(), "GetCurrentSWInfo");

    assert_eq!(State::Disconnected.to_display_string(), "Disconnected");
    assert_eq!(
        State::Connecting("wss://127.0.0.1:3001/".into()).to_display_string(),
        "Connecting(wss://127.0.0.1:3001/)"
    );
    assert_eq!(
        State::Connected("wss://127.0.0.1:3001/".into()).to_display_string(),
        "Connected(wss://127.0.0.1:3001/)"
    );
    assert_eq!(
        State::Pairing("wss://127.0.0.1:3001/".into()).to_display_string(),
        "Pairing(wss://127.0.0.1:3001/)"
    );
    assert_eq!(
        State::Initializing("wss://127.0.0.1:3001/".into()).to_display_string(),
        "Initializing(wss://127.0.0.1:3001/)"
    );
    assert_eq!(
        State::Communicating("wss://127.0.0.1:3001/".into()).to_display_string(),
        "Communicating(wss://127.0.0.1:3001/)"
    );
    assert_eq!(
        State::Disconnecting("wss://127.0.0.1:3001/".into()).to_display_string(),
        "Disconnecting(wss://127.0.0.1:3001/)"
    );
    assert_eq!(State::Zombie.to_display_string(), "Zombie");
}

#[test]
fn state_debug_text_quotes_the_url() {
    assert_eq!(State::Disconnected.to_debug_string(), "Disconnected");
    assert_eq!(
        State::Connecting("ws://h:3000/".into()).to_debug_string(),
        "Connecting(\"ws://h:3000/\")"
    );
    assert_eq!(State::Zombie.to_debug_string(), "Zombie");
}

#[test]
fn reconnecting_state_copies() {
    let s = State::Reconnecting(ReconnectDetails {
        url: "ws://h:3000/".to_string(),
        attempts: 3,
        next_attempt_secs: 5,
    });
    assert_eq!(
        s.to_display_string(),
        "Reconnecting(ReconnectDetails { url: \"ws://h:3000/\", attempts: 3, next_attempt_secs: 5 })"
    );
    let c = s.copy();
    assert!(c.same_as(&s));
    assert!(!c.same_as(&State::Disconnected));
    assert!(State::Disconnected.is_disconnected());
    assert!(!s.is_disconnected());
    assert!(State::Communicating("u".into()).is_communicating());
}
