use device_bridge::interpret_status_recv;
use device_bridge::parse_status_text;
use device_bridge::probe_message;
use device_bridge::process_probe_reply;
use device_bridge::status_query_message;
use device_bridge::status_target;
use device_bridge::BridgeError;
use device_bridge::GoveeSender;
use device_bridge::RecvOutcome;

fn json(text: &str) -> serde_json::Value {
    serde_json::from_str(text).unwrap()
}

#[test]
fn wire_messages() {
    assert_eq!(
        probe_message(),
        "{\"msg\":{\"cmd\":\"scan\",\"data\":{\"account_topic\":\"reserve\"}}}"
    );
    assert_eq!(
        status_query_message(),
        "{\"msg\":{\"cmd\":\"devStatus\",\"data\":{}}}"
    );
}

#[test]
fn send_rejects_blank_host() {
    let sender = GoveeSender::default();
    let body = json("\"turn on\"");
    let err = sender.prepare("   ", None, &body).unwrap_err();
    match err {
        BridgeError::Invalid(m) => assert_eq!(m, "Missing host"),
        BridgeError::Network(m) => panic!("unexpected network error: {}", m),
    }
}

#[test]
fn send_passes_string_payload_verbatim() {
    let sender = GoveeSender::default();
    let body = json("\"hello device\"");
    let datagram = sender.prepare(" 192.168.1.9 ", None, &body).unwrap();
    assert_eq!(datagram.host, "192.168.1.9");
    assert_eq!(datagram.port, 4003);
    assert_eq!(datagram.message, "hello device");
}

#[test]
fn send_encodes_structured_payload() {
    let sender = GoveeSender::default();
    let body = json("{\"msg\":{\"cmd\":\"turn\",\"data\":{\"value\":1}}}");
    let datagram = sender.prepare("192.168.1.9", Some(4010), &body).unwrap();
    assert_eq!(datagram.port, 4010);
    assert_eq!(
        datagram.message,
        "{\"msg\":{\"cmd\":\"turn\",\"data\":{\"value\":1}}}"
    );
}

#[test]
fn status_target_validation() {
    assert!(matches!(
        status_target("", None),
        Err(BridgeError::Invalid(_))
    ));
    let (host, port) = status_target(" 10.0.0.3 ", None).unwrap();
    assert_eq!(host, "10.0.0.3");
    assert_eq!(port, 4003);
    let (_, port2) = status_target("10.0.0.3", Some(1234)).unwrap();
    assert_eq!(port2, 1234);
}

#[test]
fn status_reply_full() {
    let reply = "{\"msg\":{\"cmd\":\"devStatus\",\"data\":{\"onOff\":1,\"brightness\":76,\"color\":{\"r\":12,\"g\":200,\"b\":3}}}}";
    let status = parse_status_text(reply).unwrap();
    assert!(status.online);
    assert_eq!(status.power, Some(true));
    assert_eq!(status.brightness, Some(76));
    let color = status.color.unwrap();
    assert_eq!((color.r, color.g, color.b), (12, 200, 3));
}

#[test]
fn status_reply_partial_color_is_dropped() {
    let reply = "{\"msg\":{\"cmd\":\"devStatus\",\"data\":{\"onOff\":0,\"color\":{\"r\":12,\"g\":200}}}}";
    let status = parse_status_text(reply).unwrap();
    assert!(status.online);
    assert_eq!(status.power, Some(false));
    assert_eq!(status.brightness, None);
    assert!(status.color.is_none());
}

#[test]
fn status_timeout_is_offline_not_error() {
    let status = interpret_status_recv(RecvOutcome::TimedOut).unwrap();
    assert!(!status.online);
    assert!(status.power.is_none());
    assert!(status.brightness.is_none());
    assert!(status.color.is_none());
}

#[test]
fn status_unparsable_reply_is_invalid_error() {
    let outcome = RecvOutcome::Data("not json at all".to_string());
    let err = interpret_status_recv(outcome).unwrap_err();
    match err {
        BridgeError::Invalid(m) => assert!(m.starts_with("Invalid response: ")),
        BridgeError::Network(m) => panic!("timeout case must differ: {}", m),
    }
}

#[test]
fn status_transport_failure_is_network_error() {
    let outcome = RecvOutcome::Failed("connection refused".to_string());
    let err = interpret_status_recv(outcome).unwrap_err();
    match err {
        BridgeError::Network(m) => {
            assert_eq!(m, "Failed to receive response: connection refused")
        }
        BridgeError::Invalid(m) => panic!("expected network error: {}", m),
    }
}

#[test]
fn probe_reply_exposes_all_fields_and_raw() {
    let reply = "{\"msg\":{\"cmd\":\"scan\",\"data\":{\"ip\":\"192.168.1.7\",\"device\":\"AA:BB:CC\",\"sku\":\"H6159\",\"deviceName\":\"Desk\",\"bleVersionHard\":\"3.01\",\"wifiVersionHard\":\"1.02\"}}}";
    let device = process_probe_reply("192.168.1.7".to_string(), 4002, reply).unwrap();
    assert_eq!(device.source_ip, "192.168.1.7");
    assert_eq!(device.source_port, 4002);
    assert_eq!(device.ip, Some("192.168.1.7".to_string()));
    assert_eq!(device.device_id, Some("AA:BB:CC".to_string()));
    assert_eq!(device.model, Some("H6159".to_string()));
    assert_eq!(device.name, Some("Desk".to_string()));
    assert_eq!(device.ble_version, Some("3.01".to_string()));
    assert_eq!(device.wifi_version, Some("1.02".to_string()));
    assert_eq!(device.raw_response, json(reply));
}

#[test]
fn probe_reply_with_missing_fields() {
    let reply = "{\"msg\":{\"cmd\":\"scan\",\"data\":{\"sku\":\"H6159\"}}}";
    let device = process_probe_reply("10.0.0.2".to_string(), 4002, reply).unwrap();
    assert_eq!(device.model, Some("H6159".to_string()));
    assert_eq!(device.ip, None);
    assert_eq!(device.device_id, None);
    assert_eq!(device.raw_response, json(reply));
}

#[test]
fn malformed_probe_reply_is_discarded() {
    assert!(process_probe_reply("10.0.0.2".to_string(), 4002, "{{nope").is_none());
}

#[test]
fn status_brightness_and_color_use_low_byte() {
    let reply = "{\"msg\":{\"cmd\":\"devStatus\",\"data\":{\"onOff\":1,\"brightness\":300,\"color\":{\"r\":0,\"g\":255,\"b\":256}}}}";
    let status = parse_status_text(reply).unwrap();
    assert_eq!(status.brightness, Some(44));
    let color = status.color.unwrap();
    assert_eq!((color.r, color.g, color.b), (0, 255, 0));
}
