//! Local control of smart lights over unicast UDP, and multicast-probe
//! discovery of them.
//!
//! The transport layer binds the sockets, sends the datagrams prepared
//! here, and hands every received datagram back as text; what to send,
//! how to read a reply, and how a missing reply differs from a transport
//! failure are decided here.

use vstd::prelude::*;
use vstd::string::*;

use crate::error::BridgeError;
use crate::error::BridgeResult;
use crate::json::json_as_str;
use crate::json::json_as_u64;
use crate::json::json_error_text;
use crate::json::json_field;
use crate::json::json_get;
use crate::json::json_parsed;
use crate::json::json_str_value;
use crate::json::json_text;
use crate::json::json_u64_value;
use crate::json::parse_json;
use crate::json::to_json_string;
use crate::text::trim_seq;
use crate::text::trim_str;
use crate::text::view_opt;

verus! {

/// The well-known port a device listens on for control and status
/// datagrams, used when the caller names none.
pub const DEFAULT_UDP_PORT: u16 = 4003;

/// The read/write timeout for one status exchange, in milliseconds.
pub const DEFAULT_TIMEOUT_MS: u64 = 1500;

/// The default overall discovery window, in milliseconds.
pub const DISCOVER_TIMEOUT_MS: u64 = 3000;

/// The short per-receive read timeout inside the discovery loop, in
/// milliseconds, so that the loop can notice the deadline.
pub const DISCOVER_READ_TIMEOUT_MS: u64 = 100;

/// The well-known port discovery replies arrive on.
pub const DISCOVER_LISTEN_PORT: u16 = 4002;

/// The well-known multicast port discovery probes are sent to.
pub const DISCOVER_REQUEST_PORT: u16 = 4001;

/// The port to use when the caller names none.
pub open spec fn port_or_default(port: Option<u16>) -> u16 {
    match port {
        Some(p) => p,
        None => DEFAULT_UDP_PORT,
    }
}

/// A prepared unicast datagram: where to send it and what to send.
#[derive(Debug, Clone)]
pub struct Datagram {
    pub host: String,
    pub port: u16,
    pub message: String,
}

/// Prepares fire-and-forget control datagrams. Success of a send means
/// only "datagram dispatched": UDP carries no acknowledgment, so no
/// contract here speaks of receipt.
#[derive(Default)]
pub struct GoveeSender;

impl GoveeSender {
    /// Validates the target and serializes the payload into the one
    /// datagram to dispatch: a string payload is passed through verbatim,
    /// any other payload is encoded as JSON text.
    pub fn prepare(&self, host: &str, port: Option<u16>, body: &serde_json::Value) -> (r:
        BridgeResult<Datagram>)
        ensures
            trim_seq(host@).len() == 0 <==> (r matches Err(e) && e is Invalid
                && e.message_spec() == "Missing host"@),
            r is Ok <==> trim_seq(host@).len() > 0,
            r matches Ok(d) ==> {
                &&& d.host@ == trim_seq(host@)
                &&& d.port == port_or_default(port)
                &&& (json_str_value(*body) matches Some(t) ==> d.message@ == t)
                &&& (json_str_value(*body) is None ==> d.message@ == json_text(*body))
            },
    {
        let trimmed = trim_str(host);
        if trimmed.as_str().unicode_len() == 0 {
            return Err(BridgeError::Invalid(String::from_str("Missing host")));
        }
        let message = match json_as_str(body) {
            Some(s) => s,
            None => match to_json_string(body) {
                Ok(s) => s,
                Err(e) => {
                    let mut m = String::from_str("Invalid payload: ");
                    m.append(json_error_text(&e).as_str());
                    return Err(BridgeError::Invalid(m));
                },
            },
        };
        let port_num = match port {
            Some(p) => p,
            None => DEFAULT_UDP_PORT,
        };
        Ok(Datagram { host: trimmed, port: port_num, message })
    }
}

/// Validates and resolves the target of one status query.
pub fn status_target(host: &str, port: Option<u16>) -> (r: BridgeResult<(String, u16)>)
    ensures
        trim_seq(host@).len() == 0 <==> (r matches Err(e) && e is Invalid && e.message_spec()
            == "Missing host"@),
        r matches Ok(t) ==> (t.0@ == trim_seq(host@) && t.1 == port_or_default(port)),
{
    let trimmed = trim_str(host);
    if trimmed.as_str().unicode_len() == 0 {
        return Err(BridgeError::Invalid(String::from_str("Missing host")));
    }
    let port_num = match port {
        Some(p) => p,
        None => DEFAULT_UDP_PORT,
    };
    Ok((trimmed, port_num))
}

/// The probe datagram of multicast discovery: a scan command in the
/// devices' JSON envelope.
pub fn probe_message() -> (r: String)
    ensures
        r@ == "{\"msg\":{\"cmd\":\"scan\",\"data\":{\"account_topic\":\"reserve\"}}}"@,
{
    String::from_str("{\"msg\":{\"cmd\":\"scan\",\"data\":{\"account_topic\":\"reserve\"}}}")
}

/// The status query datagram: a devStatus command with empty data.
pub fn status_query_message() -> (r: String)
    ensures
        r@ == "{\"msg\":{\"cmd\":\"devStatus\",\"data\":{}}}"@,
{
    String::from_str("{\"msg\":{\"cmd\":\"devStatus\",\"data\":{}}}")
}

/// The status of one device. When the device did not answer within the
/// window, `online` is false and every other field is absent — never
/// defaulted to a misleading value.
#[derive(Debug, Clone)]
pub struct GoveeStatus {
    pub online: bool,
    pub power: Option<bool>,
    pub brightness: Option<u8>,
    pub color: Option<GoveeColor>,
}

/// An RGB color, one byte per channel.
#[derive(Debug, Clone)]
pub struct GoveeColor {
    pub r: u8,
    pub g: u8,
    pub b: u8,
}

impl GoveeStatus {
    /// The invariant every produced status satisfies: an offline device
    /// reports nothing but its unreachability.
    pub open spec fn wf(&self) -> bool {
        !self.online ==> self.power is None && self.brightness is None && self.color is None
    }
}

/// The optional integer fields looked up in a status reply; a color is
/// present only when all three channels are.
pub struct StatusFields {
    pub on_off: Option<u64>,
    pub brightness: Option<u64>,
    pub color: Option<(u64, u64, u64)>,
}

/// The `msg.data` object of a reply envelope, if both levels are there.
pub open spec fn msg_data(v: serde_json::Value) -> Option<serde_json::Value> {
    match json_field(v, "msg"@) {
        Some(m) => json_field(m, "data"@),
        None => None,
    }
}

/// A field of an optional object.
pub open spec fn data_field(d: Option<serde_json::Value>, key: Seq<char>) -> Option<
    serde_json::Value,
> {
    match d {
        Some(dd) => json_field(dd, key),
        None => None,
    }
}

/// An integer field of an optional object.
pub open spec fn data_u64(d: Option<serde_json::Value>, key: Seq<char>) -> Option<u64> {
    match data_field(d, key) {
        Some(x) => json_u64_value(x),
        None => None,
    }
}

/// A string field of an optional object.
pub open spec fn data_str(d: Option<serde_json::Value>, key: Seq<char>) -> Option<Seq<char>> {
    match data_field(d, key) {
        Some(x) => json_str_value(x),
        None => None,
    }
}

/// The color triple of a status reply: all three channels of
/// `msg.data.color`, or nothing if any is missing.
pub open spec fn status_color_of(v: serde_json::Value) -> Option<(u64, u64, u64)> {
    let c = data_field(msg_data(v), "color"@);
    match (data_u64(c, "r"@), data_u64(c, "g"@), data_u64(c, "b"@)) {
        (Some(red), Some(green), Some(blue)) => Some((red, green, blue)),
        _ => None,
    }
}

/// The status fields a parsed reply carries.
pub open spec fn status_fields_of(v: serde_json::Value) -> StatusFields {
    StatusFields {
        on_off: data_u64(msg_data(v), "onOff"@),
        brightness: data_u64(msg_data(v), "brightness"@),
        color: status_color_of(v),
    }
}

/// The status that given fields denote: answered means online; power is
/// on exactly when `onOff` is 1; brightness and color pass through with
/// each channel's low byte.
pub open spec fn status_of_fields(f: StatusFields) -> GoveeStatus {
    GoveeStatus {
        online: true,
        power: match f.on_off {
            Some(x) => Some(x == 1),
            None => None,
        },
        brightness: match f.brightness {
            Some(b) => Some(b as u8),
            None => None,
        },
        color: match f.color {
            Some(c) => Some(GoveeColor { r: c.0 as u8, g: c.1 as u8, b: c.2 as u8 }),
            None => None,
        },
    }
}

/// Looks up the status fields under `msg.data` of a parsed reply:
/// `onOff`, `brightness`, and the three channels of `color`. Absence of
/// any field is not an error.
fn extract_status_fields(reply: &serde_json::Value) -> (r: StatusFields)
    ensures
        r == status_fields_of(*reply),
{
    let mut fields = StatusFields { on_off: None, brightness: None, color: None };
    if let Some(msg) = json_get(reply, "msg") {
        if let Some(data) = json_get(&msg, "data") {
            fields.on_off = match json_get(&data, "onOff") {
                Some(v) => json_as_u64(&v),
                None => None,
            };
            fields.brightness = match json_get(&data, "brightness") {
                Some(v) => json_as_u64(&v),
                None => None,
            };
            if let Some(color) = json_get(&data, "color") {
                let cr = match json_get(&color, "r") {
                    Some(v) => json_as_u64(&v),
                    None => None,
                };
                let cg = match json_get(&color, "g") {
                    Some(v) => json_as_u64(&v),
                    None => None,
                };
                let cb = match json_get(&color, "b") {
                    Some(v) => json_as_u64(&v),
                    None => None,
                };
                if let (Some(red), Some(green), Some(blue)) = (cr, cg, cb) {
                    fields.color = Some((red, green, blue));
                }
            }
        }
    }
    fields
}

/// Builds the status a parsable reply denotes: the device answered, so it
/// is online; power is on exactly when `onOff` is 1; brightness is passed
/// through; a color needs all three channels, else none is reported.
pub fn status_from_fields(fields: &StatusFields) -> (s: GoveeStatus)
    ensures
        s == status_of_fields(*fields),
        s.online && s.wf(),
{
    let power = match fields.on_off {
        Some(x) => Some(x == 1),
        None => None,
    };
    let brightness = match fields.brightness {
        Some(b) => Some(#[verifier::truncate] (b as u8)),
        None => None,
    };
    let color = match fields.color {
        Some((cr, cg, cb)) => Some(
            GoveeColor {
                r: #[verifier::truncate] (cr as u8),
                g: #[verifier::truncate] (cg as u8),
                b: #[verifier::truncate] (cb as u8),
            },
        ),
        None => None,
    };
    GoveeStatus { online: true, power, brightness, color }
}

/// Parses the text of a received status reply. A reply that was received
/// but cannot be parsed is an `Invalid` error — the device clearly exists
/// and responded, which differs from a timeout.
pub fn parse_status_text(text: &str) -> (r: BridgeResult<GoveeStatus>)
    ensures
        r is Err <==> json_parsed(text@) is None,
        r matches Err(e) ==> (e is Invalid && "Invalid response: "@.is_prefix_of(
            e.message_spec(),
        )),
        r matches Ok(s) ==> (json_parsed(text@) matches Some(v) && s == status_of_fields(
            status_fields_of(v),
        ) && s.online && s.wf()),
{
    match parse_json(text) {
        Ok(v) => {
            let fields = extract_status_fields(&v);
            Ok(status_from_fields(&fields))
        },
        Err(e) => {
            let mut m = String::from_str("Invalid response: ");
            m.append(json_error_text(&e).as_str());
            Err(BridgeError::Invalid(m))
        },
    }
}

/// What one receive attempt on the status socket came to: a datagram's
/// text, no datagram within the window, or a transport failure.
pub enum RecvOutcome {
    Data(String),
    TimedOut,
    Failed(String),
}

/// Decides the status result from one receive outcome: a timeout is not
/// an error but an offline device with every other field unset; a
/// received datagram is parsed, and unparsable bytes are an `Invalid`
/// error; any other transport failure is a `Network` error.
pub fn interpret_status_recv(outcome: RecvOutcome) -> (r: BridgeResult<GoveeStatus>)
    ensures
        outcome is TimedOut ==> (r matches Ok(s) && s.online == false && s.power is None
            && s.brightness is None && s.color is None),
        outcome matches RecvOutcome::Failed(m) ==> (r matches Err(e) && e is Network
            && e.message_spec() == "Failed to receive response: "@ + m@),
        outcome matches RecvOutcome::Data(t) ==> (match json_parsed(t@) {
            Some(v) => r matches Ok(s) && s == status_of_fields(status_fields_of(v)),
            None => r matches Err(e) && e is Invalid,
        }),
        r matches Ok(s) ==> s.wf(),
{
    match outcome {
        RecvOutcome::Data(text) => parse_status_text(text.as_str()),
        RecvOutcome::TimedOut => Ok(
            GoveeStatus { online: false, power: None, brightness: None, color: None },
        ),
        RecvOutcome::Failed(m) => {
            let mut msg = String::from_str("Failed to receive response: ");
            msg.append(m.as_str());
            Err(BridgeError::Network(msg))
        },
    }
}

/// One device discovered by a multicast probe: the reply's source
/// address, the well-known fields of its payload, and the full raw reply,
/// always retained for forward-compatibility.
#[derive(Debug)]
pub struct GoveeDevice {
    pub source_ip: String,
    pub source_port: u16,
    pub ip: Option<String>,
    pub device_id: Option<String>,
    pub model: Option<String>,
    pub name: Option<String>,
    pub ble_version: Option<String>,
    pub wifi_version: Option<String>,
    pub raw_response: serde_json::Value,
}

/// The optional string fields looked up in a discovery reply, named after
/// the wire fields under `msg.data`.
pub struct DeviceFields {
    pub ip: Option<String>,
    pub device: Option<String>,
    pub sku: Option<String>,
    pub device_name: Option<String>,
    pub ble_version_hard: Option<String>,
    pub wifi_version_hard: Option<String>,
}

/// Looks up the well-known fields under `msg.data` of a parsed discovery
/// reply. Absence of any field is not an error.
fn extract_device_fields(reply: &serde_json::Value) -> (r: DeviceFields)
    ensures
        view_opt(r.ip) == data_str(msg_data(*reply), "ip"@),
        view_opt(r.device) == data_str(msg_data(*reply), "device"@),
        view_opt(r.sku) == data_str(msg_data(*reply), "sku"@),
        view_opt(r.device_name) == data_str(msg_data(*reply), "deviceName"@),
        view_opt(r.ble_version_hard) == data_str(msg_data(*reply), "bleVersionHard"@),
        view_opt(r.wifi_version_hard) == data_str(msg_data(*reply), "wifiVersionHard"@),
{
    let mut fields = DeviceFields {
        ip: None,
        device: None,
        sku: None,
        device_name: None,
        ble_version_hard: None,
        wifi_version_hard: None,
    };
    if let Some(msg) = json_get(reply, "msg") {
        if let Some(data) = json_get(&msg, "data") {
            fields.ip = match json_get(&data, "ip") {
                Some(v) => json_as_str(&v),
                None => None,
            };
            fields.device = match json_get(&data, "device") {
                Some(v) => json_as_str(&v),
                None => None,
            };
            fields.sku = match json_get(&data, "sku") {
                Some(v) => json_as_str(&v),
                None => None,
            };
            fields.device_name = match json_get(&data, "deviceName") {
                Some(v) => json_as_str(&v),
                None => None,
            };
            fields.ble_version_hard = match json_get(&data, "bleVersionHard") {
                Some(v) => json_as_str(&v),
                None => None,
            };
            fields.wifi_version_hard = match json_get(&data, "wifiVersionHard") {
                Some(v) => json_as_str(&v),
                None => None,
            };
        }
    }
    fields
}

/// Builds the descriptor for one reply: every extracted field is exposed
/// unchanged in its normalized place, and the raw reply is retained
/// verbatim beside them.
pub fn descriptor_from_fields(
    source_ip: String,
    source_port: u16,
    fields: DeviceFields,
    raw: serde_json::Value,
) -> (d: GoveeDevice)
    ensures
        d.source_ip == source_ip,
        d.source_port == source_port,
        d.ip == fields.ip,
        d.device_id == fields.device,
        d.model == fields.sku,
        d.name == fields.device_name,
        d.ble_version == fields.ble_version_hard,
        d.wifi_version == fields.wifi_version_hard,
        d.raw_response == raw,
{
    GoveeDevice {
        source_ip,
        source_port,
        ip: fields.ip,
        device_id: fields.device,
        model: fields.sku,
        name: fields.device_name,
        ble_version: fields.ble_version_hard,
        wifi_version: fields.wifi_version_hard,
        raw_response: raw,
    }
}

/// Processes one discovery reply datagram: a reply that parses as JSON
/// becomes a descriptor carrying its source address; a malformed reply is
/// discarded without failing the session. Duplicate replies are appended
/// as they arrive; a device that does not resend from a new address
/// produces no duplicate source address.
pub fn process_probe_reply(source_ip: String, source_port: u16, text: &str) -> (r: Option<
    GoveeDevice,
>)
    ensures
        r is Some <==> json_parsed(text@) is Some,
        r matches Some(d) ==> (json_parsed(text@) matches Some(v) && {
            &&& d.source_ip@ == source_ip@
            &&& d.source_port == source_port
            &&& d.raw_response == v
            &&& view_opt(d.ip) == data_str(msg_data(v), "ip"@)
            &&& view_opt(d.device_id) == data_str(msg_data(v), "device"@)
            &&& view_opt(d.model) == data_str(msg_data(v), "sku"@)
            &&& view_opt(d.name) == data_str(msg_data(v), "deviceName"@)
            &&& view_opt(d.ble_version) == data_str(msg_data(v), "bleVersionHard"@)
            &&& view_opt(d.wifi_version) == data_str(msg_data(v), "wifiVersionHard"@)
        }),
{
    match parse_json(text) {
        Ok(v) => {
            let fields = extract_device_fields(&v);
            Some(descriptor_from_fields(source_ip, source_port, fields, v))
        },
        Err(_) => None,
    }
}

} // verus!
