use device_bridge::dec_str_u16;
use device_bridge::interpret_cloud_response;
use device_bridge::interpret_command_response;
use device_bridge::scan;
use device_bridge::BridgeError;
use device_bridge::GoveeCloudClient;
use device_bridge::HttpMethod;

fn json(text: &str) -> serde_json::Value {
    serde_json::from_str(text).unwrap()
}

#[test]
fn decimal_rendering() {
    assert_eq!(dec_str_u16(0), "0");
    assert_eq!(dec_str_u16(7), "7");
    assert_eq!(dec_str_u16(404), "404");
    assert_eq!(dec_str_u16(65535), "65535");
}

#[test]
fn list_request_shape() {
    let client = GoveeCloudClient::default();
    let request = client.get_devices_request("SECRET-REDACTED".to_string());
    assert_eq!(request.method, HttpMethod::Get);
    assert_eq!(request.url, "https://developer-api.govee.com/v1/devices");
    assert_eq!(request.api_key, "SECRET-REDACTED");
    assert!(request.body.is_none());
}

#[test]
fn command_request_shape() {
    let client = GoveeCloudClient::default();
    let cmd = json("{\"name\":\"turn\",\"value\":\"on\"}");
    let request = client.send_command_request("k".to_string(), "AA:BB", "H6159", cmd);
    assert_eq!(request.method, HttpMethod::Put);
    assert_eq!(
        request.url,
        "https://developer-api.govee.com/v1/devices/control"
    );
    let body = request.body.unwrap();
    assert_eq!(
        body,
        json("{\"cmd\":{\"name\":\"turn\",\"value\":\"on\"},\"device\":\"AA:BB\",\"model\":\"H6159\"}")
    );
}

#[test]
fn state_request_shape() {
    let client = GoveeCloudClient::default();
    let request = client.get_device_state_request("k".to_string(), "AA:BB", "H6159");
    assert_eq!(request.method, HttpMethod::Get);
    assert_eq!(
        request.url,
        "https://developer-api.govee.com/v1/devices/state?device=AA:BB&model=H6159"
    );
    assert!(request.body.is_none());
}

#[test]
fn non_success_wraps_status_and_body() {
    let err = interpret_cloud_response(404, "device missing").unwrap_err();
    match err {
        BridgeError::Network(m) => assert_eq!(m, "API returned error 404: device missing"),
        BridgeError::Invalid(m) => panic!("expected network error: {}", m),
    }
}

#[test]
fn success_with_bad_json_is_invalid() {
    let err = interpret_cloud_response(200, "<html>oops</html>").unwrap_err();
    assert!(matches!(err, BridgeError::Invalid(_)));
}

#[test]
fn success_with_good_json_is_ok() {
    let value = interpret_cloud_response(200, "{\"data\":{\"devices\":[]}}").unwrap();
    assert_eq!(value, json("{\"data\":{\"devices\":[]}}"));
}

#[test]
fn command_reply_tolerates_plain_text_body() {
    let err = interpret_command_response(400, "rate limited").unwrap_err();
    match err {
        BridgeError::Network(m) => {
            assert!(m.starts_with("API returned error 400: "));
            assert!(m.contains("rate limited"));
            assert!(m.contains("400"));
        }
        BridgeError::Invalid(m) => panic!("expected network error: {}", m),
    }
}

#[test]
fn command_reply_success_passes_json_through() {
    let value = interpret_command_response(200, "{\"code\":200,\"message\":\"Success\"}").unwrap();
    assert_eq!(value, json("{\"code\":200,\"message\":\"Success\"}"));
}

#[test]
fn command_reply_success_wraps_plain_text() {
    let value = interpret_command_response(200, "OK").unwrap();
    assert_eq!(value, json("{\"raw_response\":\"OK\",\"status_code\":200}"));
}

#[test]
fn ble_scan_returns_single_notice() {
    let records = scan(Some(5000)).unwrap();
    assert_eq!(records.len(), 1);
    assert_eq!(records[0].get("type").and_then(|v| v.as_str()), Some("info"));
    assert!(records[0].get("note").is_some());
}
