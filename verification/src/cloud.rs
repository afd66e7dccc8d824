//! The authenticated cloud API client.
//!
//! Each operation is one HTTP call with a fixed timeout and an API-key
//! header. The requests are built here; the transport layer performs the
//! exchange and hands back the status code and body text, whose
//! interpretation — including the wrapping of non-success statuses into
//! descriptive errors — is decided here.

use vstd::prelude::*;
use vstd::string::*;

use crate::error::BridgeError;
use crate::error::BridgeResult;
use crate::json::empty_json_map;
use crate::json::json_error_text;
use crate::json::json_map_insert;
use crate::json::json_map_new;
use crate::json::json_object;
use crate::json::json_of_object;
use crate::json::json_of_string;
use crate::json::json_of_u64;
use crate::json::json_parsed;
use crate::json::json_string;
use crate::json::json_text;
use crate::json::json_u64;
use crate::json::parse_json;
use crate::json::to_json_string;
use crate::text::dec_seq;
use crate::text::dec_str_u16;

verus! {

/// The timeout of every cloud HTTP call, in seconds.
pub const CLOUD_TIMEOUT_SECS: u64 = 10;

/// The name of the header carrying the API key.
pub fn api_key_header() -> (r: &'static str)
    ensures
        r@ == "Govee-API-Key"@,
{
    "Govee-API-Key"
}

/// The HTTP method of a cloud request.
#[derive(Debug, Clone, PartialEq, Eq, Structural)]
pub enum HttpMethod {
    Get,
    Put,
}

/// One prepared cloud request: method, full URL, the API key for the
/// auth header, and an optional JSON body.
#[derive(Debug)]
pub struct CloudRequest {
    pub method: HttpMethod,
    pub url: String,
    pub api_key: String,
    pub body: Option<serde_json::Value>,
}

/// Whether an HTTP status code is a success status.
pub open spec fn status_success(status: int) -> bool {
    200 <= status < 300
}

/// The message of the error a non-success cloud reply yields, up to the
/// body: the status code in decimal, framed by fixed text.
pub open spec fn api_error_prefix(status: int) -> Seq<char> {
    "API returned error "@ + dec_seq(status) + ": "@
}

/// The client for the cloud API. It holds no state: every call carries
/// its own key, and every request is independent.
#[derive(Default)]
pub struct GoveeCloudClient;

impl GoveeCloudClient {
    /// The request that lists the account's devices.
    pub fn get_devices_request(&self, api_key: String) -> (r: CloudRequest)
        ensures
            r.method is Get,
            r.url@ == "https://developer-api.govee.com/v1/devices"@,
            r.api_key == api_key,
            r.body is None,
    {
        CloudRequest {
            method: HttpMethod::Get,
            url: String::from_str("https://developer-api.govee.com/v1/devices"),
            api_key,
            body: None,
        }
    }

    /// The request that sends a control command: a PUT whose JSON body
    /// combines the device, its model, and the command, the command
    /// forwarded verbatim.
    pub fn send_command_request(
        &self,
        api_key: String,
        device: &str,
        model: &str,
        cmd: serde_json::Value,
    ) -> (r: CloudRequest)
        ensures
            r.method is Put,
            r.url@ == "https://developer-api.govee.com/v1/devices/control"@,
            r.api_key == api_key,
            r.body matches Some(b) && b == json_of_object(
                control_body_model(device@, model@, cmd),
            ),
    {
        let mut payload = json_map_new();
        json_map_insert(&mut payload, "device", json_string(device));
        json_map_insert(&mut payload, "model", json_string(model));
        json_map_insert(&mut payload, "cmd", cmd);
        CloudRequest {
            method: HttpMethod::Put,
            url: String::from_str("https://developer-api.govee.com/v1/devices/control"),
            api_key,
            body: Some(json_object(payload)),
        }
    }

    /// The request that queries a device's cloud-synced state: a GET with
    /// the device and model as query parameters.
    pub fn get_device_state_request(&self, api_key: String, device: &str, model: &str) -> (r:
        CloudRequest)
        ensures
            r.method is Get,
            r.url@ == "https://developer-api.govee.com/v1/devices/state?device="@ + device@
                + "&model="@ + model@,
            r.api_key == api_key,
            r.body is None,
    {
        let mut url = String::from_str("https://developer-api.govee.com/v1/devices/state?device=");
        url.append(device);
        url.append("&model=");
        url.append(model);
        proof {
            assert(url@ =~= "https://developer-api.govee.com/v1/devices/state?device="@ + device@
                + "&model="@ + model@);
        }
        CloudRequest { method: HttpMethod::Get, url, api_key, body: None }
    }
}

/// Whether `status` is a success status.
pub fn is_success_status(status: u16) -> (r: bool)
    ensures
        r == status_success(status as int),
{
    200 <= status && status < 300
}

/// Interprets the reply of a listing or state query: a non-success status
/// is a `Network` error whose message carries the status code and the raw
/// body text; a success reply must parse as JSON — it then yields the
/// parsed value — else it is an `Invalid` error.
pub fn interpret_cloud_response(status: u16, body: &str) -> (r: BridgeResult<serde_json::Value>)
    ensures
        !status_success(status as int) ==> (r matches Err(e) && e is Network
            && e.message_spec() == api_error_prefix(status as int) + body@),
        status_success(status as int) ==> (match json_parsed(body@) {
            Some(v) => r matches Ok(rv) && rv == v,
            None => r matches Err(e) && e is Invalid && "Invalid JSON response: "@.is_prefix_of(
                e.message_spec(),
            ),
        }),
{
    if !is_success_status(status) {
        let mut m = String::from_str("API returned error ");
        m.append(dec_str_u16(status).as_str());
        m.append(": ");
        m.append(body);
        proof {
            assert(m@ =~= api_error_prefix(status as int) + body@);
        }
        return Err(BridgeError::Network(m));
    }
    match parse_json(body) {
        Ok(v) => Ok(v),
        Err(e) => {
            let mut m = String::from_str("Invalid JSON response: ");
            m.append(json_error_text(&e).as_str());
            Err(BridgeError::Invalid(m))
        },
    }
}

/// Interprets the reply of the command call — the one place where a
/// non-JSON body is tolerated: the body is parsed best-effort, an
/// unparsable body being wrapped with the status code instead, and a
/// non-success status yields a `Network` error carrying the status code
/// and the (possibly wrapped) body.
pub fn interpret_command_response(status: u16, body: &str) -> (r: BridgeResult<serde_json::Value>)
    ensures
        status_success(status as int) ==> (r matches Ok(v) && v == command_body_value(
            status,
            body@,
        )),
        !status_success(status as int) ==> (r matches Err(e) && e is Network
            && e.message_spec() == api_error_prefix(status as int) + json_text(
            command_body_value(status, body@),
        )),
{
    let parsed = match parse_json(body) {
        Ok(v) => v,
        Err(_) => wrapped_raw_body(status, body),
    };
    if is_success_status(status) {
        return Ok(parsed);
    }
    let rendered = match to_json_string(&parsed) {
        Ok(s) => s,
        Err(_) => String::new(),
    };
    let mut m = String::from_str("API returned error ");
    m.append(dec_str_u16(status).as_str());
    m.append(": ");
    proof {
        assert(m@ =~= api_error_prefix(status as int));
    }
    m.append(rendered.as_str());
    Err(BridgeError::Network(m))
}

/// The contents of the command call's JSON body: the device, its model,
/// and the command under their fixed field names.
pub open spec fn control_body_model(device: Seq<char>, model: Seq<char>, cmd: serde_json::Value) -> Map<
    Seq<char>,
    serde_json::Value,
> {
    empty_json_map().insert("device"@, json_of_string(device)).insert(
        "model"@,
        json_of_string(model),
    ).insert("cmd"@, cmd)
}

/// The contents of the wrapper object for a non-JSON reply body: the raw
/// text and the status code under fixed field names.
pub open spec fn wrapped_body_model(status: u16, body: Seq<char>) -> Map<
    Seq<char>,
    serde_json::Value,
> {
    empty_json_map().insert("raw_response"@, json_of_string(body)).insert(
        "status_code"@,
        json_of_u64(status as u64),
    )
}

/// What the command call yields for a reply body: the parsed JSON when
/// the body is valid JSON, else the raw text wrapped with the status
/// code — the one place a non-JSON body is tolerated.
pub open spec fn command_body_value(status: u16, body: Seq<char>) -> serde_json::Value {
    match json_parsed(body) {
        Some(v) => v,
        None => json_of_object(wrapped_body_model(status, body)),
    }
}

/// The wrapper object for a non-JSON reply body: the raw text and the
/// status code, under fixed field names.
fn wrapped_raw_body(status: u16, body: &str) -> (r: serde_json::Value)
    ensures
        r == json_of_object(wrapped_body_model(status, body@)),
{
    let mut m = json_map_new();
    json_map_insert(&mut m, "raw_response", json_string(body));
    json_map_insert(&mut m, "status_code", json_u64(status as u64));
    json_object(m)
}

} // verus!
