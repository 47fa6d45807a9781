//! Device management: the requests that register a device, update it,
//! report its status and list devices.

use crate::auth::AuthError;
use crate::clock::unix_time_or_zero;
use crate::communication::http::{request_failure, HttpClient, HttpMethod, HttpRequest};
use crate::json::{
    json_quote, json_string_text, member, members_view, object_text, write_object, JsonMember,
};
use crate::models::{
    optional_string_json, optional_string_text, quoted_values, DeviceInfo, DeviceStatus, TextMap,
};
use crate::text::{decimal_string, decimal_text, opt_view};
use vstd::prelude::*;
use vstd::string::*;

verus! {

/// Device manager for handling IoT devices.
pub struct DeviceManager {
    http_client: HttpClient,
}

/// Device registration response.
#[derive(Debug, Clone)]
pub struct DeviceRegistrationResponse {
    pub device_id: String,
    pub status: String,
    pub api_key: Option<String>,
}

/// Device update request.
#[derive(Debug, Clone)]
pub struct DeviceUpdateRequest {
    pub name: Option<String>,
    pub metadata: Option<TextMap>,
    pub firmware_version: Option<String>,
}

/// The JSON text of optional metadata: an object of strings, or `null`.
pub open spec fn optional_metadata_text(metadata: Option<TextMap>) -> Seq<char> {
    match metadata {
        Some(m) => object_text(quoted_values(m@)),
        None => "null"@,
    }
}

/// The body that registers a device: its id and what is known of it.
pub open spec fn registration_body(device_id: Seq<char>, info: DeviceInfo) -> Seq<char> {
    object_text(
        seq![
            ("device_id"@, json_string_text(device_id)),
            ("device_type"@, json_string_text(info.device_type@)),
            ("firmware_version"@, json_string_text(info.firmware_version@)),
            ("metadata"@, object_text(quoted_values(info.metadata@))),
            ("name"@, json_string_text(info.name@)),
        ],
    )
}

/// The body that reports a status at a time.
pub open spec fn status_body(status: DeviceStatus, timestamp: u64) -> Seq<char> {
    object_text(
        seq![
            ("status"@, "\""@ + status.tag() + "\""@),
            ("timestamp"@, decimal_text(timestamp as nat)),
        ],
    )
}

/// The path of one device.
pub open spec fn device_path(device_id: Seq<char>) -> Seq<char> {
    "/devices/"@ + device_id
}

/// The path of the status of one device.
pub open spec fn device_status_path(device_id: Seq<char>) -> Seq<char> {
    "/devices/"@ + device_id + "/status"@
}

/// The `limit` parameter of the device list, with the `&` behind it.
pub open spec fn limit_parameter(limit: Option<u32>) -> Seq<char> {
    match limit {
        Some(n) => "limit="@ + decimal_text(n as nat) + "&"@,
        None => Seq::empty(),
    }
}

/// The `offset` parameter of the device list.
pub open spec fn offset_parameter(offset: Option<u32>) -> Seq<char> {
    match offset {
        Some(n) => "offset="@ + decimal_text(n as nat),
        None => Seq::empty(),
    }
}

/// The path of the device list.
pub open spec fn device_list_path(limit: Option<u32>, offset: Option<u32>) -> Seq<char> {
    "/devices?"@ + limit_parameter(limit) + offset_parameter(offset)
}

impl DeviceUpdateRequest {
    /// The JSON object of the request: `name`, `metadata` and
    /// `firmware_version`, each `null` where it is not set.
    pub open spec fn json_text(&self) -> Seq<char> {
        object_text(
            seq![
                ("name"@, optional_string_text(opt_view(self.name))),
                ("metadata"@, optional_metadata_text(self.metadata)),
                ("firmware_version"@, optional_string_text(opt_view(self.firmware_version))),
            ],
        )
    }

    /// Writes the request as a JSON object.
    pub fn to_json(&self) -> (r: String)
        ensures
            r@ == self.json_text(),
    {
        let metadata = match &self.metadata {
            Some(m) => m.to_json_strings(),
            None => String::from_str("null"),
        };
        let mut members: Vec<JsonMember> = Vec::new();
        members.push(member("name", optional_string_json(&self.name)));
        members.push(member("metadata", metadata));
        members.push(member("firmware_version", optional_string_json(&self.firmware_version)));
        assert(members_view(members@) =~= seq![
            ("name"@, optional_string_text(opt_view(self.name))),
            ("metadata"@, optional_metadata_text(self.metadata)),
            ("firmware_version"@, optional_string_text(opt_view(self.firmware_version))),
        ]);
        write_object(&members)
    }
}

/// Writes the body that registers a device.
pub fn registration_json(device_id: &str, info: &DeviceInfo) -> (r: String)
    ensures
        r@ == registration_body(device_id@, *info),
{
    let mut members: Vec<JsonMember> = Vec::new();
    members.push(member("device_id", json_quote(device_id)));
    members.push(member("device_type", json_quote(info.device_type.as_str())));
    members.push(member("firmware_version", json_quote(info.firmware_version.as_str())));
    members.push(member("metadata", info.metadata.to_json_strings()));
    members.push(member("name", json_quote(info.name.as_str())));
    assert(members_view(members@) =~= seq![
        ("device_id"@, json_string_text(device_id@)),
        ("device_type"@, json_string_text(info.device_type@)),
        ("firmware_version"@, json_string_text(info.firmware_version@)),
        ("metadata"@, object_text(quoted_values(info.metadata@))),
        ("name"@, json_string_text(info.name@)),
    ]);
    write_object(&members)
}

/// Writes the body that reports a status at a time.
pub fn status_json(status: &DeviceStatus, timestamp: u64) -> (r: String)
    ensures
        r@ == status_body(*status, timestamp),
{
    let mut tag = String::from_str("\"");
    tag.append(status.as_str());
    tag.append("\"");
    let mut members: Vec<JsonMember> = Vec::new();
    members.push(member("status", tag));
    members.push(member("timestamp", decimal_string(timestamp)));
    assert(members_view(members@) =~= seq![
        ("status"@, "\""@ + status.tag() + "\""@),
        ("timestamp"@, decimal_text(timestamp as nat)),
    ]);
    write_object(&members)
}

/// Writes the path of the device list.
pub fn list_path(limit: Option<u32>, offset: Option<u32>) -> (r: String)
    ensures
        r@ == device_list_path(limit, offset),
{
    let mut path = String::from_str("/devices?");
    match limit {
        Some(n) => {
            path.append("limit=");
            let text = decimal_string(n as u64);
            path.append(text.as_str());
            path.append("&");
        },
        None => {},
    }
    match offset {
        Some(n) => {
            path.append("offset=");
            let text = decimal_string(n as u64);
            path.append(text.as_str());
        },
        None => {},
    }
    path
}

impl DeviceManager {
    /// The client that makes the requests.
    pub closed spec fn client(&self) -> HttpClient {
        self.http_client
    }

    /// The client that makes the requests.
    pub fn http_client(&self) -> (r: &HttpClient)
        ensures
            *r == self.client(),
    {
        &self.http_client
    }

    /// Create a new device manager.
    pub fn new(http_client: HttpClient) -> (r: DeviceManager)
        ensures
            r.client() == http_client,
    {
        DeviceManager { http_client }
    }

    /// Register a new device: a POST to `/devices` with the device's id and
    /// information.
    pub fn register_device(&self, device_id: &str, info: &DeviceInfo) -> (r: Result<
        HttpRequest,
        AuthError,
    >)
        ensures
            match r {
                Ok(request) => self.client().makes(
                    request@,
                    HttpMethod::Post,
                    "/devices"@,
                    Some(registration_body(device_id@, *info)),
                ),
                Err(e) => request_failure(e),
            },
    {
        let body = registration_json(device_id, info);
        self.http_client.post("/devices", body.as_str())
    }

    /// Update device information: a PUT to the device's path with the
    /// update.
    pub fn update_device(&self, device_id: &str, update: DeviceUpdateRequest) -> (r: Result<
        HttpRequest,
        AuthError,
    >)
        ensures
            match r {
                Ok(request) => self.client().makes(
                    request@,
                    HttpMethod::Put,
                    device_path(device_id@),
                    Some(update.json_text()),
                ),
                Err(e) => request_failure(e),
            },
    {
        let mut path = String::from_str("/devices/");
        path.append(device_id);
        let body = update.to_json();
        self.http_client.put(path.as_str(), body.as_str())
    }

    /// Send device data: a PUT to the device's status path with the status
    /// and the current time (0 where the system clock stands before the
    /// epoch).
    pub fn send_data(&self, device_id: &str, status: &DeviceStatus) -> (r: Result<
        HttpRequest,
        AuthError,
    >)
        ensures
            match r {
                Ok(request) => exists|timestamp: u64|
                    self.client().makes(
                        request@,
                        HttpMethod::Put,
                        device_status_path(device_id@),
                        Some(#[trigger] status_body(*status, timestamp)),
                    ),
                Err(e) => request_failure(e),
            },
    {
        let mut path = String::from_str("/devices/");
        path.append(device_id);
        path.append("/status");
        let timestamp = unix_time_or_zero();
        let body = status_json(status, timestamp);
        self.http_client.put(path.as_str(), body.as_str())
    }

    /// List devices: a GET of the device list, with the limit and the
    /// offset where they are given.
    pub fn list_devices(&self, limit: Option<u32>, offset: Option<u32>) -> (r: Result<
        HttpRequest,
        AuthError,
    >)
        ensures
            match r {
                Ok(request) => self.client().makes(
                    request@,
                    HttpMethod::Get,
                    device_list_path(limit, offset),
                    None,
                ),
                Err(e) => request_failure(e),
            },
    {
        let path = list_path(limit, offset);
        self.http_client.get(path.as_str())
    }
}

} // verus!
