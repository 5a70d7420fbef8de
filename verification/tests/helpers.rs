use lgtv_manager::connection_settings::{Connection, ConnectionSettings};
use lgtv_manager::discovery::LgTvDevice;
use lgtv_manager::helpers::{
    device_host, generate_possible_websocket_url, reconnect_falloff, url_ip_addr,
    websocket_url_for_connection,
};
use lgtv_manager::url_parts::IpAddress;

#[test]
fn valid_websocket_url_generation() {
    // Does not alter fully-qualified WebSocket url
    assert_eq!(
        generate_possible_websocket_url("ws://127.0.0.1:8080", false).unwrap(),
        "ws://127.0.0.1:8080/"
    );

    assert_eq!(
        generate_possible_websocket_url("wss://127.0.0.1:8080", true).unwrap(),
        "wss://127.0.0.1:8080/"
    );

    // Adds scheme and port if missing
    assert_eq!(
        generate_possible_websocket_url("127.0.0.1", true).unwrap(),
        "wss://127.0.0.1:3001/"
    );

    assert_eq!(
        generate_possible_websocket_url("something", true).unwrap(),
        "wss://something:3001/"
    );

    assert_eq!(
        generate_possible_websocket_url("127.0.0.1", false).unwrap(),
        "ws://127.0.0.1:3000/"
    );

    assert_eq!(
        generate_possible_websocket_url("something", false).unwrap(),
        "ws://something:3000/"
    );

    assert_eq!(
        generate_possible_websocket_url("[fd12:3456:789a:1::1]", true).unwrap(),
        "wss://[fd12:3456:789a:1::1]:3001/"
    );

    assert_eq!(
        generate_possible_websocket_url("[fd12:3456:789a:1::1]", false).unwrap(),
        "ws://[fd12:3456:789a:1::1]:3000/"
    );

    // Allows for path retention
    assert_eq!(
        generate_possible_websocket_url("wss://127.0.0.1:8080/foo", true).unwrap(),
        "wss://127.0.0.1:8080/foo"
    );

    assert_eq!(
        generate_possible_websocket_url("127.0.0.1/foo", true).unwrap(),
        "wss://127.0.0.1:3001/foo"
    );

    assert_eq!(
        generate_possible_websocket_url("[fd12:3456:789a:1::1]/foo", false).unwrap(),
        "ws://[fd12:3456:789a:1::1]:3000/foo"
    );
}

#[test]
fn invalid_websocket_url_generation() {
    // Invalid scheme
    assert!(generate_possible_websocket_url("http://127.0.0.1", true).is_err(),);
    assert!(generate_possible_websocket_url("http://127.0.0.1", false).is_err(),);

    // Empty
    assert!(generate_possible_websocket_url("", true).is_err(),);
    assert!(generate_possible_websocket_url("", false).is_err(),);

    // Invalid WebSocket scheme for given is_tls
    assert!(generate_possible_websocket_url("ws://127.0.0.1:8080", true).is_err(),);

    assert!(generate_possible_websocket_url("wss://127.0.0.1:8080", false).is_err(),);
}

#[test]
fn websocket_url_error_messages() {
    assert_eq!(
        generate_possible_websocket_url("", true).unwrap_err(),
        "No host specified"
    );
    assert_eq!(
        generate_possible_websocket_url("http://127.0.0.1", true).unwrap_err(),
        "Invalid scheme: http (must be 'wss' or 'ws')"
    );
    assert_eq!(
        generate_possible_websocket_url("ws://127.0.0.1:8080", true).unwrap_err(),
        "Cannot use 'ws' scheme with TLS (must be wss)"
    );
    assert_eq!(
        generate_possible_websocket_url("wss://127.0.0.1:8080", false).unwrap_err(),
        "Cannot use 'wss' scheme without TLS (must be ws)"
    );
    let err = generate_possible_websocket_url("ws://[::1", false).unwrap_err();
    assert!(err.starts_with("Could not parse host: "), "{}", err);
}

#[test]
fn websocket_url_keeps_an_explicit_port() {
    assert_eq!(
        generate_possible_websocket_url("10.0.0.101:3333", true).unwrap(),
        "wss://10.0.0.101:3333/"
    );
    assert_eq!(
        generate_possible_websocket_url("ws://10.0.0.101", false).unwrap(),
        "ws://10.0.0.101:3000/"
    );
}

#[test]
fn reconnect_falloff_results() {
    assert_eq!(reconnect_falloff(0, 250, 10_000), 250);
    assert_eq!(reconnect_falloff(1, 250, 10_000), 250);
    assert_eq!(reconnect_falloff(2, 250, 10_000), 256);
    assert_eq!(reconnect_falloff(3, 250, 10_000), 512);
    assert_eq!(reconnect_falloff(10_000, 250, 10_000), 10_000);
}

#[test]
fn reconnect_falloff_edges() {
    assert_eq!(reconnect_falloff(4, 250, 10_000), 1024);
    assert_eq!(reconnect_falloff(7, 250, 10_000), 8192);
    assert_eq!(reconnect_falloff(8, 250, 10_000), 10_000);
    assert_eq!(reconnect_falloff(57, 0, u64::MAX), 1u128 << 63);
    assert_eq!(reconnect_falloff(58, 0, u64::MAX), u64::MAX as u128);
    assert_eq!(reconnect_falloff(u64::MAX - 6, 0, 7), 7);
    // A minimum above the maximum wins.
    assert_eq!(reconnect_falloff(10, 500, 100), 500);
}

#[test]
fn url_ip_addr_results() {
    assert_eq!(url_ip_addr("ws://10.0.0.1:3000/"), Some(IpAddress::V4(0x0a00_0001)));
    assert_eq!(url_ip_addr("wss://[::1]:3001/"), Some(IpAddress::V6(1)));
    assert_eq!(url_ip_addr("wss://something:3001/"), None);
    assert_eq!(url_ip_addr("not a url"), None);
}

#[test]
fn url_parts_through_generated_urls() {
    // The scheme and host are normalised by the URL parser; a default port is not kept.
    assert_eq!(
        generate_possible_websocket_url("WS://Example.com:81/x", false).unwrap(),
        "ws://example.com:81/x"
    );
    assert_eq!(
        generate_possible_websocket_url("ws://example.com:80/", false).unwrap(),
        "ws://example.com:3000/"
    );
    assert_eq!(
        generate_possible_websocket_url("nothing", false).unwrap(),
        "ws://nothing:3000/"
    );
}

fn device(url: &str) -> LgTvDevice {
    LgTvDevice {
        friendly_name: "LG WebOS TV".to_string(),
        model: "model".to_string(),
        model_number: None,
        serial_number: None,
        url: url.to_string(),
        udn: "uuid:1".to_string(),
        mac_addr: None,
    }
}

#[test]
fn device_host_results() {
    assert_eq!(device_host(&device("http://38.0.101.76:3000")).unwrap(), "38.0.101.76");
    let err = device_host(&device("bad")).unwrap_err();
    assert!(
        err.starts_with("Could not determine hostname for UPnP device 'LG WebOS TV': "),
        "{}",
        err
    );
}

#[test]
fn websocket_url_for_connections() {
    let tls = ConnectionSettings::default();
    let plain = ConnectionSettings {
        is_tls: false,
        ..ConnectionSettings::default()
    };
    assert_eq!(
        websocket_url_for_connection(&Connection::Host("10.0.0.2".to_string(), tls.clone())).unwrap(),
        "wss://10.0.0.2:3001/"
    );
    assert_eq!(
        websocket_url_for_connection(&Connection::Host("10.0.0.2".to_string(), plain.clone()))
            .unwrap(),
        "ws://10.0.0.2:3000/"
    );
    // A device always uses wss on port 3001, whatever its settings say.
    assert_eq!(
        websocket_url_for_connection(&Connection::Device(device("http://38.0.101.76:3000"), plain.clone()))
            .unwrap(),
        "wss://38.0.101.76:3001/"
    );
    assert_eq!(
        websocket_url_for_connection(&Connection::Device(device("http://10.0.0.5:1234/"), tls))
            .unwrap(),
        "wss://10.0.0.5:3001/"
    );
    assert!(websocket_url_for_connection(&Connection::Device(device("bad"), plain)).is_err());
}
