//! Webhook management for real-time data updates.

use crate::auth::AuthError;
use crate::communication::http::{request_failure, HttpClient, HttpMethod, HttpRequest};
use crate::encoding::{hex_encode, hex_text};
use crate::json::{
    array_text, json_quote, json_string_text, member, members_view, object_text, strings_view,
    write_array, write_object, JsonMember,
};
use hmac::Mac;
use vstd::prelude::*;
use vstd::string::*;
use vstd::utf8::encode_utf8;

verus! {

/// A registered webhook.
#[derive(Debug, Clone)]
pub struct Webhook {
    /// Unique ID for the webhook.
    pub id: String,
    /// URL to call when events occur.
    pub url: String,
    /// Device ID this webhook is for.
    pub device_id: String,
    /// Secret used to sign webhook payloads.
    pub secret: String,
    /// Events this webhook should receive.
    pub events: Vec<WebhookEventType>,
}

/// The kinds of event that a webhook can receive.
#[derive(Debug, Clone, Copy, PartialEq, Eq, Structural)]
pub enum WebhookEventType {
    /// Device data updates.
    DataUpdate,
    /// Device status changes.
    StatusChange,
    /// Device alerts.
    Alert,
    /// Device configuration changes.
    ConfigChange,
}

/// Manager for handling webhooks.
pub struct WebhookManager {
    http_client: HttpClient,
}

/// The HMAC-SHA256 tag of a message under a key.
pub uninterp spec fn hmac_sha256(key: Seq<u8>, message: Seq<u8>) -> Seq<u8>;

/// `Mac::new_from_slice`, `update` and `finalize` of `Hmac<Sha256>`: the tag
/// of the message under the key. HMAC takes a key of any length, so the
/// tag always comes back.
#[verifier::external_body]
fn hmac_sha256_tag(key: &[u8], message: &[u8]) -> (r: Vec<u8>)
    ensures
        r@ == hmac_sha256(key@, message@),
{
    match hmac::Hmac::<sha2::Sha256>::new_from_slice(key) {
        Ok(mut mac) => {
            mac.update(message);
            mac.finalize().into_bytes().to_vec()
        },
        Err(_) => Vec::new(),
    }
}

impl WebhookEventType {
    /// The tag that stands for the kind on the wire.
    pub open spec fn tag(self) -> Seq<char> {
        match self {
            WebhookEventType::DataUpdate => "data_update"@,
            WebhookEventType::StatusChange => "status_change"@,
            WebhookEventType::Alert => "alert"@,
            WebhookEventType::ConfigChange => "config_change"@,
        }
    }

    /// The tag of this kind.
    pub fn as_str(&self) -> (r: &'static str)
        ensures
            r@ == self.tag(),
    {
        match self {
            WebhookEventType::DataUpdate => "data_update",
            WebhookEventType::StatusChange => "status_change",
            WebhookEventType::Alert => "alert",
            WebhookEventType::ConfigChange => "config_change",
        }
    }
}

/// The tags of the events, each as a JSON string.
pub open spec fn event_texts(events: Seq<WebhookEventType>) -> Seq<Seq<char>> {
    events.map_values(|e: WebhookEventType| "\""@ + e.tag() + "\""@)
}

/// The body that registers a webhook: the device, the events and the URL.
pub open spec fn webhook_body(
    url: Seq<char>,
    device_id: Seq<char>,
    events: Seq<WebhookEventType>,
) -> Seq<char> {
    object_text(
        seq![
            ("device_id"@, json_string_text(device_id)),
            ("events"@, array_text(event_texts(events))),
            ("url"@, json_string_text(url)),
        ],
    )
}

/// The path of the webhooks of one device.
pub open spec fn webhook_list_path(device_id: Seq<char>) -> Seq<char> {
    "/webhooks?device_id="@ + device_id
}

/// The path of one webhook.
pub open spec fn webhook_path(webhook_id: Seq<char>) -> Seq<char> {
    "/webhooks/"@ + webhook_id
}

/// The path that tests one webhook.
pub open spec fn webhook_test_path(webhook_id: Seq<char>) -> Seq<char> {
    "/webhooks/"@ + webhook_id + "/test"@
}

/// Writes the body that registers a webhook.
pub fn webhook_json(url: &str, device_id: &str, events: &Vec<WebhookEventType>) -> (r: String)
    ensures
        r@ == webhook_body(url@, device_id@, events@),
{
    let mut tags: Vec<String> = Vec::new();
    let mut i: usize = 0;
    while i < events.len()
        invariant
            i <= events.len(),
            strings_view(tags@) == event_texts(events@.take(i as int)),
        decreases events.len() - i,
    {
        let mut tag = String::from_str("\"");
        tag.append(events[i].as_str());
        tag.append("\"");
        let ghost done = strings_view(tags@);
        let ghost text = tag@;
        tags.push(tag);
        proof {
            assert(strings_view(tags@) =~= done.push(text));
        }
        i += 1;
    }
    assert(events@.take(i as int) =~= events@);
    let mut members: Vec<JsonMember> = Vec::new();
    members.push(member("device_id", json_quote(device_id)));
    members.push(member("events", write_array(&tags)));
    members.push(member("url", json_quote(url)));
    assert(members_view(members@) =~= seq![
        ("device_id"@, json_string_text(device_id@)),
        ("events"@, array_text(event_texts(events@))),
        ("url"@, json_string_text(url@)),
    ]);
    write_object(&members)
}

impl WebhookManager {
    /// The client that makes the requests.
    pub closed spec fn client(&self) -> HttpClient {
        self.http_client
    }

    /// The client that makes the requests.
    pub fn http_client(&self) -> (r: &HttpClient)
        ensures
            *r == self.client(),
    {
        &self.http_client
    }

    /// Create a new webhook manager.
    pub fn new(http_client: HttpClient) -> (r: WebhookManager)
        ensures
            r.client() == http_client,
    {
        WebhookManager { http_client }
    }

    /// Register a new webhook: a POST to `/webhooks` with the URL, the
    /// device and the events.
    pub fn register_webhook(&self, url: &str, device_id: &str, events: Vec<WebhookEventType>) -> (r:
        Result<HttpRequest, AuthError>)
        ensures
            match r {
                Ok(request) => self.client().makes(
                    request@,
                    HttpMethod::Post,
                    "/webhooks"@,
                    Some(webhook_body(url@, device_id@, events@)),
                ),
                Err(e) => request_failure(e),
            },
    {
        let body = webhook_json(url, device_id, &events);
        self.http_client.post("/webhooks", body.as_str())
    }

    /// List all webhooks for a device: a GET of the device's webhooks.
    pub fn list_webhooks(&self, device_id: &str) -> (r: Result<HttpRequest, AuthError>)
        ensures
            match r {
                Ok(request) => self.client().makes(
                    request@,
                    HttpMethod::Get,
                    webhook_list_path(device_id@),
                    None,
                ),
                Err(e) => request_failure(e),
            },
    {
        let mut path = String::from_str("/webhooks?device_id=");
        path.append(device_id);
        self.http_client.get(path.as_str())
    }

    /// Delete a webhook: a DELETE of the webhook's path.
    pub fn delete_webhook(&self, webhook_id: &str) -> (r: Result<HttpRequest, AuthError>)
        ensures
            match r {
                Ok(request) => self.client().makes(
                    request@,
                    HttpMethod::Delete,
                    webhook_path(webhook_id@),
                    None,
                ),
                Err(e) => request_failure(e),
            },
    {
        let mut path = String::from_str("/webhooks/");
        path.append(webhook_id);
        self.http_client.delete(path.as_str())
    }

    /// Test a webhook by sending a test event: a POST of an empty object to
    /// the webhook's test path.
    pub fn test_webhook(&self, webhook_id: &str) -> (r: Result<HttpRequest, AuthError>)
        ensures
            match r {
                Ok(request) => self.client().makes(
                    request@,
                    HttpMethod::Post,
                    webhook_test_path(webhook_id@),
                    Some("{}"@),
                ),
                Err(e) => request_failure(e),
            },
    {
        let mut path = String::from_str("/webhooks/");
        path.append(webhook_id);
        path.append("/test");
        self.http_client.post(path.as_str(), "{}")
    }

    /// Generate a signature for webhook payload validation: the HMAC-SHA256
    /// tag of the payload under the secret, in hexadecimal.
    pub fn generate_signature(secret: &str, payload: &[u8]) -> (r: String)
        ensures
            r@ == hex_text(hmac_sha256(encode_utf8(secret@), payload@)),
    {
        let tag = hmac_sha256_tag(secret.as_bytes(), payload);
        hex_encode(tag.as_slice())
    }
}

} // verus!
