//! Local-device discovery and control bridge.
//!
//! Finds consumer IoT devices on the local network over lossy UDP
//! broadcast/multicast protocols, queries and commands them over unicast
//! datagrams, and falls back to an authenticated cloud API when local
//! control is unavailable. Socket and HTTP transport live outside this
//! crate; the protocol logic here — what to send, how to read the lossy
//! replies, deduplication, and the offline-versus-error distinction — is
//! verified.

mod cloud;
mod error;
mod govee;
mod json;
mod network;
mod roku;
mod roomsense;
mod text;

pub use cloud::api_error_prefix;
pub use cloud::command_body_value;
pub use cloud::control_body_model;
pub use cloud::wrapped_body_model;
pub use cloud::api_key_header;
pub use cloud::interpret_cloud_response;
pub use cloud::interpret_command_response;
pub use cloud::is_success_status;
pub use cloud::status_success;
pub use cloud::CloudRequest;
pub use cloud::GoveeCloudClient;
pub use cloud::HttpMethod;
pub use cloud::CLOUD_TIMEOUT_SECS;
pub use error::BridgeError;
pub use error::BridgeResult;
pub use govee::data_field;
pub use govee::data_str;
pub use govee::data_u64;
pub use govee::descriptor_from_fields;
pub use govee::msg_data;
pub use govee::status_color_of;
pub use govee::status_fields_of;
pub use govee::status_of_fields;
pub use govee::interpret_status_recv;
pub use govee::parse_status_text;
pub use govee::port_or_default;
pub use govee::probe_message;
pub use govee::process_probe_reply;
pub use govee::status_from_fields;
pub use govee::status_query_message;
pub use govee::status_target;
pub use govee::Datagram;
pub use govee::DeviceFields;
pub use govee::GoveeColor;
pub use govee::GoveeDevice;
pub use govee::GoveeSender;
pub use govee::GoveeStatus;
pub use govee::RecvOutcome;
pub use govee::StatusFields;
pub use govee::DEFAULT_TIMEOUT_MS;
pub use govee::DEFAULT_UDP_PORT;
pub use govee::DISCOVER_LISTEN_PORT;
pub use govee::DISCOVER_READ_TIMEOUT_MS;
pub use govee::DISCOVER_REQUEST_PORT;
pub use govee::DISCOVER_TIMEOUT_MS;
pub use json::empty_json_map;
pub use json::json_field;
pub use json::json_map_model;
pub use json::json_of_object;
pub use json::json_of_string;
pub use json::json_of_u64;
pub use json::json_parsed;
pub use json::json_str_value;
pub use json::json_text;
pub use json::json_u64_value;
pub use network::is_private_ipv4;
pub use network::local_network_verdict;
pub use network::private_ipv4;
pub use roku::apply_device_info;
pub use roku::device_info_path;
pub use roku::extract_ip_from_url;
pub use roku::extract_xml_tag;
pub use roku::fold_headers;
pub use roku::has_ip;
pub use roku::header_step;
pub use roku::ip_of_url;
pub use roku::lemma_ssdp_first_seen_wins;
pub use roku::parse_device_info;
pub use roku::parse_ssdp_response;
pub use roku::process_ssdp_datagram;
pub use roku::ssdp_accepts;
pub use roku::ssdp_headers;
pub use roku::ssdp_search_message;
pub use roku::ssdp_step_rel;
pub use roku::unique_ips;
pub use text::view_opt;
pub use roku::xml_tag_value;
pub use roku::RokuDevice;
pub use roku::RokuDeviceInfo;
pub use roku::SsdpHeaders;
pub use roku::DEVICE_INFO_PORT;
pub use roomsense::scan;
pub use roomsense::scan_notice_model;
pub use text::contains_seq;
pub use text::contains_str;
pub use text::dec_seq;
pub use text::dec_str_u16;
pub use text::find_from;
pub use text::find_seq;
pub use text::header_match;
pub use text::lines_spec;
pub use text::split_lines;
pub use text::trim_seq;
pub use text::trim_str;
