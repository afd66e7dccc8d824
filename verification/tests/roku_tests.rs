use device_bridge::apply_device_info;
use device_bridge::extract_ip_from_url;
use device_bridge::extract_xml_tag;
use device_bridge::parse_device_info;
use device_bridge::parse_ssdp_response;
use device_bridge::process_ssdp_datagram;
use device_bridge::ssdp_search_message;
use device_bridge::RokuDevice;

fn ssdp_reply(location: &str, usn: &str) -> String {
    format!(
        "HTTP/1.1 200 OK\r\nCache-Control: max-age=3600\r\nST: roku:ecp\r\nLocation: {}\r\nUSN: {}\r\n\r\n",
        location, usn
    )
}

#[test]
fn search_message_shape() {
    let msg = ssdp_search_message();
    assert_eq!(
        msg,
        "M-SEARCH * HTTP/1.1\r\nHOST: 239.255.255.250:1900\r\nMAN: \"ssdp:discover\"\r\nMX: 3\r\nST: roku:ecp\r\n\r\n"
    );
}

#[test]
fn extract_ip_variants() {
    assert_eq!(
        extract_ip_from_url("http://192.168.1.100:8060/"),
        Some("192.168.1.100")
    );
    assert_eq!(
        extract_ip_from_url("http://192.168.1.100/path"),
        Some("192.168.1.100")
    );
    assert_eq!(extract_ip_from_url("http://hostname"), None);
    assert_eq!(extract_ip_from_url("http://a/b:c"), Some("a"));
    assert_eq!(extract_ip_from_url("192.168.1.100:8060"), None);
}

#[test]
fn xml_tag_extraction() {
    let xml = "<root><serial-number> X0123 </serial-number><empty></empty></root>";
    assert_eq!(
        extract_xml_tag(xml, "serial-number"),
        Some("X0123".to_string())
    );
    assert_eq!(extract_xml_tag(xml, "empty"), Some(String::new()));
    assert_eq!(extract_xml_tag(xml, "missing"), None);
    assert_eq!(extract_xml_tag("<open>no close", "open"), None);
}

#[test]
fn device_info_parsing_with_fallback() {
    let xml = "<device-info><serial-number>S1</serial-number><device-id>D1</device-id>\
               <model-name>Ultra</model-name><friendly-device-name>Den</friendly-device-name></device-info>";
    let info = parse_device_info(xml).unwrap();
    assert_eq!(info.serial_number, Some("S1".to_string()));
    assert_eq!(info.device_id, Some("D1".to_string()));
    assert_eq!(info.model_name, Some("Ultra".to_string()));
    assert_eq!(info.friendly_name, Some("Den".to_string()));

    let xml2 = "<device-info><user-device-name>Upstairs</user-device-name>\
                <friendly-device-name>Den</friendly-device-name></device-info>";
    let info2 = parse_device_info(xml2).unwrap();
    assert_eq!(info2.friendly_name, Some("Upstairs".to_string()));
    assert_eq!(info2.serial_number, None);
}

#[test]
fn ssdp_reply_parsing() {
    let text = ssdp_reply("http://192.168.1.42:8060/", "uuid:roku:ecp:X004");
    let device = parse_ssdp_response(&text).unwrap();
    assert_eq!(device.ip, "192.168.1.42");
    assert_eq!(device.location, "http://192.168.1.42:8060/");
    assert_eq!(device.usn, Some("uuid:roku:ecp:X004".to_string()));
    assert!(device.serial_number.is_none());
    assert!(device.friendly_name.is_none());
}

#[test]
fn ssdp_reply_needs_token_and_location() {
    let no_token =
        "HTTP/1.1 200 OK\r\nLocation: http://192.168.1.42:8060/\r\nUSN: uuid:X\r\n\r\n";
    assert!(parse_ssdp_response(no_token).is_none());
    let no_location = "HTTP/1.1 200 OK\r\nST: roku:ecp\r\nUSN: uuid:X\r\n\r\n";
    assert!(parse_ssdp_response(no_location).is_none());
}

#[test]
fn ssdp_headers_are_case_insensitive() {
    let text = "HTTP/1.1 200 OK\r\nST: roku:ecp\r\nLOCATION: http://10.0.0.9:8060/\r\nusn: uuid:Y\r\n\r\n";
    let device = parse_ssdp_response(text).unwrap();
    assert_eq!(device.ip, "10.0.0.9");
    assert_eq!(device.usn, Some("uuid:Y".to_string()));
}

#[test]
fn dedup_keeps_first_seen() {
    let mut devices: Vec<RokuDevice> = Vec::new();
    let first = ssdp_reply("http://192.168.1.42:8060/", "uuid:first");
    let second = ssdp_reply("http://192.168.1.42:9000/", "uuid:second");
    let other = ssdp_reply("http://192.168.1.50:8060/", "uuid:other");
    process_ssdp_datagram(&mut devices, &first);
    process_ssdp_datagram(&mut devices, &second);
    process_ssdp_datagram(&mut devices, &other);
    assert_eq!(devices.len(), 2);
    assert_eq!(devices[0].ip, "192.168.1.42");
    assert_eq!(devices[0].usn, Some("uuid:first".to_string()));
    assert_eq!(devices[0].location, "http://192.168.1.42:8060/");
    assert_eq!(devices[1].ip, "192.168.1.50");
}

#[test]
fn malformed_datagram_changes_nothing() {
    let mut devices: Vec<RokuDevice> = Vec::new();
    process_ssdp_datagram(&mut devices, "not an ssdp reply at all");
    assert!(devices.is_empty());
}

#[test]
fn enrichment_fills_fields_and_keeps_address() {
    let text = ssdp_reply("http://192.168.1.42:8060/", "uuid:first");
    let mut device = parse_ssdp_response(&text).unwrap();
    let info = parse_device_info(
        "<device-info><serial-number>S9</serial-number><model-name>Express</model-name></device-info>",
    )
    .unwrap();
    apply_device_info(&mut device, info);
    assert_eq!(device.ip, "192.168.1.42");
    assert_eq!(device.location, "http://192.168.1.42:8060/");
    assert_eq!(device.serial_number, Some("S9".to_string()));
    assert_eq!(device.model_name, Some("Express".to_string()));
    assert_eq!(device.device_id, None);
}
