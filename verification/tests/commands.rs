use lgtv_manager::commands::TvCommand;

#[test]
fn payload_get_current_sw_information() {
    let payload: String = TvCommand::GetCurrentSWInfo.to_payload_with_id("test-id");

    assert_eq!(
        payload,
        r#"{"type":"request","id":"test-id","uri":"ssap://com.webos.service.update/getCurrentSWInformation","payload":null}"#
    );
}

#[test]
fn payload_get_power_status() {
    let payload: String = TvCommand::GetPowerState.to_payload_with_id("test-id");

    assert_eq!(
        payload,
        r#"{"type":"request","id":"test-id","uri":"ssap://com.webos.service.tvpower/power/getPowerState","payload":null}"#
    );
}

#[test]
fn payload_get_system_info() {
    let payload: String = TvCommand::GetSystemInfo.to_payload_with_id("test-id");

    assert_eq!(
        payload,
        r#"{"type":"request","id":"test-id","uri":"ssap://system/getSystemInfo","payload":null}"#
    );
}

#[test]
fn payload_get_volume() {
    let payload: String = TvCommand::GetVolume.to_payload_with_id("test-id");

    assert_eq!(
        payload,
        r#"{"type":"request","id":"test-id","uri":"ssap://audio/getVolume","payload":null}"#
    );
}

#[test]
fn payload_set_mute() {
    let payload_true: String = TvCommand::SetMute(true).to_payload_with_id("test-id");

    assert_eq!(
        payload_true,
        r#"{"type":"request","id":"test-id","uri":"ssap://audio/setMute","payload":{"mute":true}}"#
    );

    let payload_false: String = TvCommand::SetMute(false).to_payload_with_id("test-id");

    assert_eq!(
        payload_false,
        r#"{"type":"request","id":"test-id","uri":"ssap://audio/setMute","payload":{"mute":false}}"#
    );
}

#[test]
fn payload_set_screen_on() {
    let payload_true: String = TvCommand::SetScreenOn(true).to_payload_with_id("test-id");

    assert_eq!(
        payload_true,
        r#"{"type":"request","id":"test-id","uri":"ssap://com.webos.service.tvpower/power/turnOnScreen","payload":{"standbyMode":"active"}}"#
    );

    let payload_false: String = TvCommand::SetScreenOn(false).to_payload_with_id("test-id");

    assert_eq!(
        payload_false,
        r#"{"type":"request","id":"test-id","uri":"ssap://com.webos.service.tvpower/power/turnOffScreen","payload":{"standbyMode":"active"}}"#
    );
}

#[test]
fn payload_set_volume() {
    let payload: String = TvCommand::SetVolume(10).to_payload_with_id("test-id");

    assert_eq!(
        payload,
        r#"{"type":"request","id":"test-id","uri":"ssap://audio/setVolume","payload":{"volume":10}}"#
    );
}

#[test]
fn payload_subscribe_get_volume() {
    let payload: String = TvCommand::SubscribeGetVolume.to_payload_with_id("test-id");

    assert_eq!(
        payload,
        r#"{"type":"subscribe","id":"get_volume_subscription","uri":"ssap://audio/getVolume","payload":null}"#
    );
}

#[test]
fn payload_turn_off() {
    let payload: String = TvCommand::TurnOff.to_payload_with_id("test-id");

    assert_eq!(
        payload,
        r#"{"type":"request","id":"test-id","uri":"ssap://system/turnOff","payload":null}"#
    );
}

#[test]
fn payload_volume_down() {
    let payload: String = TvCommand::VolumeDown.to_payload_with_id("test-id");

    assert_eq!(
        payload,
        r#"{"type":"request","id":"test-id","uri":"ssap://audio/volumeDown","payload":null}"#
    );
}

#[test]
fn payload_volume_up() {
    let payload: String = TvCommand::VolumeUp.to_payload_with_id("test-id");

    assert_eq!(
        payload,
        r#"{"type":"request","id":"test-id","uri":"ssap://audio/volumeUp","payload":null}"#
    );
}

#[test]
fn payload_get_external_input_list() {
    assert_eq!(
        TvCommand::GetExternalInputList.to_payload_with_id("test-id"),
        r#"{"type":"request","id":"test-id","uri":"ssap://tv/getExternalInputList","payload":null}"#
    );
    assert_eq!(TvCommand::GetExternalInputList.to_display_string(), "GetExternalInputList");
}

#[test]
fn payload_subscribe_get_power_state() {
    assert_eq!(
        TvCommand::SubscribeGetPowerState.to_payload_with_id("test-id"),
        r#"{"type":"subscribe","id":"get_power_state_subscription","uri":"ssap://com.webos.service.tvpower/power/getPowerState","payload":null}"#
    );
    assert_eq!(TvCommand::SubscribeGetPowerState.to_display_string(), "SubscribeGetPowerState");
}

#[test]
fn tvcommand_display() {
    assert_eq!(TvCommand::GetCurrentSWInfo.to_display_string(), "GetCurrentSWInfo");
    assert_eq!(TvCommand::GetPowerState.to_display_string(), "GetPowerState");
    assert_eq!(TvCommand::GetSystemInfo.to_display_string(), "GetSystemInfo");
    assert_eq!(TvCommand::GetVolume.to_display_string(), "GetVolume");
    assert_eq!(TvCommand::SetMute(true).to_display_string(), "SetMute(true)");
    assert_eq!(TvCommand::SetMute(false).to_display_string(), "SetMute(false)");
    assert_eq!(TvCommand::SetScreenOn(true).to_display_string(), "SetScreenOn(true)");
    assert_eq!(TvCommand::SetScreenOn(false).to_display_string(), "SetScreenOn(false)");
    assert_eq!(TvCommand::SetVolume(10).to_display_string(), "SetVolume(10)");
    assert_eq!(TvCommand::SubscribeGetVolume.to_display_string(), "SubscribeGetVolume");
    assert_eq!(TvCommand::TurnOff.to_display_string(), "TurnOff");
    assert_eq!(TvCommand::VolumeDown.to_display_string(), "VolumeDown");
    assert_eq!(TvCommand::VolumeUp.to_display_string(), "VolumeUp");
}

fn is_hyphenated_uuid(s: &str) -> bool {
    let chars: Vec<char> = s.chars().collect();
    chars.len() == 36
        && chars.iter().enumerate().all(|(i, c)| {
            if i == 8 || i == 13 || i == 18 || i == 23 {
                *c == '-'
            } else {
                c.is_ascii_digit() || ('a'..='f').contains(c)
            }
        })
}

#[test]
fn payload_with_fresh_id_has_uuid_shape() {
    let payload = TvCommand::VolumeUp.into_payload();
    let prefix = r#"{"type":"request","id":""#;
    let suffix = r#"","uri":"ssap://audio/volumeUp","payload":null}"#;
    assert!(payload.starts_with(prefix));
    assert!(payload.ends_with(suffix));
    let id = &payload[prefix.len()..payload.len() - suffix.len()];
    assert!(is_hyphenated_uuid(id), "not a uuid: {}", id);
}

#[test]
fn fresh_ids_differ_between_requests() {
    let a = TvCommand::GetVolume.into_payload();
    let b = TvCommand::GetVolume.into_payload();
    assert_ne!(a, b);
}

#[test]
fn subscription_ignores_the_given_id() {
    assert_eq!(
        TvCommand::SubscribeGetVolume.to_payload_with_id("other"),
        TvCommand::SubscribeGetVolume.into_payload()
    );
}

#[test]
fn volume_payload_edges() {
    assert_eq!(
        TvCommand::SetVolume(0).to_payload_with_id("x"),
        r#"{"type":"request","id":"x","uri":"ssap://audio/setVolume","payload":{"volume":0}}"#
    );
    assert_eq!(
        TvCommand::SetVolume(255).to_payload_with_id("x"),
        r#"{"type":"request","id":"x","uri":"ssap://audio/setVolume","payload":{"volume":255}}"#
    );
    assert_eq!(TvCommand::SetVolume(0).to_display_string(), "SetVolume(0)");
}

#[test]
fn message_id_is_escaped() {
    assert_eq!(
        TvCommand::TurnOff.to_payload_with_id("a\"b\\c\n"),
        r#"{"type":"request","id":"a\"b\\c\n","uri":"ssap://system/turnOff","payload":null}"#
    );
}
