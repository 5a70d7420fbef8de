use lgtv_manager::discovery::{
    lgtv_device, mac_from_arp_output, DiscoveryDecision, DiscoveryFilter, UpnpDeviceInfo,
};
use lgtv_manager::json::json_quote;
use lgtv_manager::net::MacAddress;
use lgtv_manager::register::generate_register_request;
use lgtv_manager::ssap_request::{request_json, LgTvRequestType};
use lgtv_manager::text::{contains_str, starts_with_str, str_eq, u64_to_decimal};
use lgtv_manager::websocket::{
    io_connect_error, WsCommand, WsIncoming, WsMessage, WsReaction, WsSession, WsStatus,
    WsUpdateMessage, TEST_CONNECTION_MILLIS,
};

#[test]
fn discovery_filter_reports_each_udn_once() {
    let mut f = DiscoveryFilter::new();
    assert_eq!(
        f.classify("uuid:1", "LG Electronics", "WEBOS TV 2020"),
        DiscoveryDecision::LgTv
    );
    assert_eq!(
        f.classify("uuid:1", "LG Electronics", "WEBOS TV 2020"),
        DiscoveryDecision::Duplicate
    );
    assert_eq!(f.classify("uuid:2", "Sony", "BRAVIA TV"), DiscoveryDecision::NotLgTv);
    assert_eq!(f.classify("uuid:3", "LG Electronics", "Soundbar"), DiscoveryDecision::NotLgTv);
    assert_eq!(f.classify("uuid:2", "LG Electronics", "TV"), DiscoveryDecision::Duplicate);
    assert_eq!(f.classify("uuid:4", "Made by LG Electronics", "TV"), DiscoveryDecision::NotLgTv);
}

#[test]
fn lgtv_device_from_upnp_info() {
    let info = UpnpDeviceInfo {
        friendly_name: "Living room".to_string(),
        manufacturer: "LG Electronics".to_string(),
        model_name: "OLED55".to_string(),
        model_number: Some("55".to_string()),
        serial_number: None,
        url: "http://10.0.0.5:1234/".to_string(),
        udn: "uuid:abc".to_string(),
    };
    let d = lgtv_device(&info, Some("AA:BB:CC:DD:EE:FF".to_string()));
    assert_eq!(d.friendly_name, "Living room");
    assert_eq!(d.model, "OLED55");
    assert_eq!(d.model_number.as_deref(), Some("55"));
    assert_eq!(d.url, "http://10.0.0.5:1234/");
    assert_eq!(d.udn, "uuid:abc");
    assert_eq!(d.mac_addr.as_deref(), Some("AA:BB:CC:DD:EE:FF"));
    assert_eq!(d.to_display_string(), "Living room (OLED55) [uuid:abc]");
}

#[test]
fn arp_output_mac() {
    let output = "Address                  HWtype  HWaddress           Flags Mask            Iface\n\
                  10.0.0.5                 ether   a1:b2:c3:d4:e5:f6   C                     eth0\n";
    assert_eq!(
        mac_from_arp_output(output, "10.0.0.5"),
        Some("a1:b2:c3:d4:e5:f6".to_string())
    );
    assert_eq!(mac_from_arp_output(output, "10.0.0.9"), None);
    assert_eq!(
        mac_from_arp_output("10.0.0.5 (incomplete)\n", "10.0.0.5"),
        None
    );
    assert_eq!(mac_from_arp_output("", "10.0.0.5"), None);
}

#[test]
fn mac_parse_and_text() {
    // Parsing is seen through the arp lookup: a dashed EUI-64 address is a MAC address too.
    assert_eq!(
        mac_from_arp_output("10.0.0.7 ether AB-0D-EF-12-34-56-78-9A C eth0\n", "10.0.0.7"),
        Some("AB-0D-EF-12-34-56-78-9A".to_string())
    );
    assert_eq!(mac_from_arp_output("10.0.0.7 ether nope C eth0\n", "10.0.0.7"), None);
    assert_eq!(
        MacAddress::V6([0xab, 0x0d, 0xef, 0x12, 0x34, 0x56]).to_text(),
        "AB:0D:EF:12:34:56"
    );
    assert_eq!(
        MacAddress::V8([0, 1, 2, 3, 4, 5, 6, 0xff]).to_text(),
        "00:01:02:03:04:05:06:FF"
    );
}

#[test]
fn json_string_escapes() {
    assert_eq!(json_quote("plain"), "\"plain\"");
    assert_eq!(json_quote("a\"b\\c"), "\"a\\\"b\\\\c\"");
    assert_eq!(json_quote("\n\t\r\u{8}\u{c}"), "\"\\n\\t\\r\\b\\f\"");
    assert_eq!(json_quote("\u{1}\u{1f}"), "\"\\u0001\\u001f\"");
    assert_eq!(json_quote("é/<"), "\"é/<\"");
    for s in ["x\u{0}y", "quote\"", "tab\there", "ünïcödé", "\u{7f}"] {
        assert_eq!(json_quote(s), serde_json::to_string(s).unwrap());
    }
}

#[test]
fn request_rendering() {
    assert_eq!(
        request_json(LgTvRequestType::Register, "r1", None, Some("{\"a\":1}")),
        r#"{"type":"register","id":"r1","uri":null,"payload":{"a":1}}"#
    );
    assert_eq!(
        request_json(LgTvRequestType::Subscribe, "s", Some("ssap://x"), None),
        r#"{"type":"subscribe","id":"s","uri":"ssap://x","payload":null}"#
    );
}

#[test]
fn register_request_injects_key_and_pairing() {
    let base = r#"{"pairingType":"PROMPT","client-key":"stale","manifest":{"v":1}}"#;
    let r = generate_register_request(base, Some("KEY".to_string()), true, "register_0").unwrap();
    let v: serde_json::Value = serde_json::from_str(&r).unwrap();
    assert_eq!(v["type"], "register");
    assert_eq!(v["id"], "register_0");
    assert_eq!(v["uri"], serde_json::Value::Null);
    assert_eq!(v["payload"]["client-key"], "KEY");
    assert_eq!(v["payload"]["forcePairing"], true);
    assert_eq!(v["payload"]["pairingType"], "PROMPT");
    assert_eq!(v["payload"]["manifest"]["v"], 1);

    let r = generate_register_request(base, None, false, "register_0").unwrap();
    let v: serde_json::Value = serde_json::from_str(&r).unwrap();
    assert_eq!(v["payload"]["client-key"], serde_json::Value::Null);
    assert_eq!(v["payload"]["forcePairing"], false);
}

#[test]
fn register_request_errors() {
    assert_eq!(
        generate_register_request("[1,2]", None, false, "x").unwrap_err(),
        "Could not create register payload"
    );
    let e = generate_register_request("{oops", None, false, "x").unwrap_err();
    assert!(e.starts_with("Could not create register payload: "), "{}", e);
}

#[test]
fn text_helpers() {
    assert_eq!(u64_to_decimal(0), "0");
    assert_eq!(u64_to_decimal(1234567890), "1234567890");
    assert_eq!(u64_to_decimal(u64::MAX), "18446744073709551615");
    assert!(contains_str("Host is down (os error 64)", "Host is down"));
    assert!(!contains_str("Host", "Host is down"));
    assert!(contains_str("abc", ""));
    assert!(starts_with_str("LG Electronics", "LG Elec"));
    assert!(!starts_with_str("LG", "LG Elec"));
    assert!(str_eq("ws", "ws"));
    assert!(!str_eq("ws", "wss"));
}

#[test]
fn io_connect_errors() {
    assert_eq!(
        io_connect_error("Host is down (os error 64)"),
        "Failed to connect to TV: Host is down"
    );
    assert_eq!(
        io_connect_error("Connection refused (os error 111)"),
        "Failed to connect to TV: Connection refused (os error 111)"
    );
}

#[test]
fn websocket_session_connection_test() {
    let mut s = WsSession::new();
    assert!(matches!(s.on_caller_message(Some(WsMessage::TestConnection), 1000), WsReaction::SendPing));
    assert_eq!(s.connection_test_start, Some(1000));
    // A second test while one runs does nothing.
    assert!(matches!(s.on_caller_message(Some(WsMessage::TestConnection), 1200), WsReaction::Nothing));
    assert!(matches!(s.on_tick(1000 + TEST_CONNECTION_MILLIS), WsReaction::Nothing));
    assert!(matches!(
        s.on_tick(1001 + TEST_CONNECTION_MILLIS),
        WsReaction::Report(WsUpdateMessage::IsConnectionOk(false))
    ));
    assert!(matches!(
        s.on_incoming(WsIncoming::Pong),
        WsReaction::Report(WsUpdateMessage::IsConnectionOk(true))
    ));
    assert_eq!(s.connection_test_start, None);
    assert!(matches!(s.on_incoming(WsIncoming::Pong), WsReaction::Nothing));
    assert!(matches!(s.on_tick(99_999), WsReaction::Nothing));
}

#[test]
fn websocket_session_messages() {
    let mut s = WsSession::new();
    assert!(matches!(
        s.on_caller_message(Some(WsMessage::Payload("p".to_string())), 0),
        WsReaction::SendText(p) if p == "p"
    ));
    assert!(matches!(
        s.on_caller_message(Some(WsMessage::Command(WsCommand::ShutDown)), 0),
        WsReaction::CloseAndStop
    ));
    assert!(matches!(s.on_caller_message(None, 0), WsReaction::CloseAndStop));
    assert!(matches!(
        s.on_incoming(WsIncoming::Text("t".to_string())),
        WsReaction::Report(WsUpdateMessage::Payload(t)) if t == "t"
    ));
    assert!(matches!(
        s.on_incoming(WsIncoming::Close),
        WsReaction::ReportAndStop(WsUpdateMessage::Status(WsStatus::ServerClosedConnection))
    ));
    assert!(matches!(
        s.on_incoming(WsIncoming::ReadError("e".to_string())),
        WsReaction::ReportAndStop(WsUpdateMessage::Status(WsStatus::MessageReadError(e))) if e == "e"
    ));
    assert!(matches!(s.on_incoming(WsIncoming::Ping), WsReaction::Nothing));
    assert!(matches!(s.on_incoming(WsIncoming::Other), WsReaction::Nothing));
}
