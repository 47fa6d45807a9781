//! Configuration of the client: where the service lives and where the device
//! key comes from.

use vstd::prelude::*;
use vstd::string::*;

verus! {

/// Configuration for the IoT client.
#[derive(Debug, Clone)]
pub struct ClientConfig {
    /// Base URL for the API service.
    pub api_url: String,
    /// Path to the private key file for authentication.
    pub private_key_path: Option<String>,
    /// Private key as a base64 string (alternative to the file).
    pub private_key_base64: Option<String>,
    /// Device identifier.
    pub device_id: Option<String>,
    /// Timeout for API requests in seconds.
    pub request_timeout: Option<u64>,
    /// WebSocket endpoint URL.
    pub websocket_url: Option<String>,
}

/// The place that the device key is taken from.
#[derive(Debug, Clone, Copy, PartialEq, Eq, Structural)]
pub enum KeySource {
    /// The file that `private_key_path` names.
    File,
    /// The base64 text in `private_key_base64`.
    Inline,
    /// A freshly generated key.
    Generated,
}

/// The timeout that a new configuration starts with, in seconds.
pub const DEFAULT_REQUEST_TIMEOUT: u64 = 30;

impl ClientConfig {
    /// The one key source that is consulted: a key file wins over an inline
    /// key, which wins over generating a key.
    pub open spec fn spec_key_source(&self) -> KeySource {
        if self.private_key_path is Some {
            KeySource::File
        } else if self.private_key_base64 is Some {
            KeySource::Inline
        } else {
            KeySource::Generated
        }
    }

    /// Create a new configuration with minimal required parameters.
    pub fn new(api_url: &str) -> (r: Self)
        ensures
            r.api_url@ == api_url@,
            r.private_key_path is None,
            r.private_key_base64 is None,
            r.device_id is None,
            r.request_timeout == Some(DEFAULT_REQUEST_TIMEOUT),
            r.websocket_url is None,
    {
        ClientConfig {
            api_url: String::from_str(api_url),
            private_key_path: None,
            private_key_base64: None,
            device_id: None,
            request_timeout: Some(DEFAULT_REQUEST_TIMEOUT),
            websocket_url: None,
        }
    }

    /// Set the private key from a file path.
    pub fn with_private_key_file(self, path: &str) -> (r: Self)
        ensures
            r.private_key_path matches Some(p) && p@ == path@,
            r.api_url == self.api_url,
            r.private_key_base64 == self.private_key_base64,
            r.device_id == self.device_id,
            r.request_timeout == self.request_timeout,
            r.websocket_url == self.websocket_url,
    {
        let mut config = self;
        config.private_key_path = Some(String::from_str(path));
        config
    }

    /// Set the private key from a base64 encoded string.
    pub fn with_private_key_base64(self, key: &str) -> (r: Self)
        ensures
            r.private_key_base64 matches Some(k) && k@ == key@,
            r.api_url == self.api_url,
            r.private_key_path == self.private_key_path,
            r.device_id == self.device_id,
            r.request_timeout == self.request_timeout,
            r.websocket_url == self.websocket_url,
    {
        let mut config = self;
        config.private_key_base64 = Some(String::from_str(key));
        config
    }

    /// Set the device ID.
    pub fn with_device_id(self, device_id: &str) -> (r: Self)
        ensures
            r.device_id matches Some(d) && d@ == device_id@,
            r.api_url == self.api_url,
            r.private_key_path == self.private_key_path,
            r.private_key_base64 == self.private_key_base64,
            r.request_timeout == self.request_timeout,
            r.websocket_url == self.websocket_url,
    {
        let mut config = self;
        config.device_id = Some(String::from_str(device_id));
        config
    }

    /// Set the websocket URL.
    pub fn with_websocket_url(self, url: &str) -> (r: Self)
        ensures
            r.websocket_url matches Some(u) && u@ == url@,
            r.api_url == self.api_url,
            r.private_key_path == self.private_key_path,
            r.private_key_base64 == self.private_key_base64,
            r.device_id == self.device_id,
            r.request_timeout == self.request_timeout,
    {
        let mut config = self;
        config.websocket_url = Some(String::from_str(url));
        config
    }

    /// Which key source this configuration selects.
    pub fn key_source(&self) -> (r: KeySource)
        ensures
            r == self.spec_key_source(),
    {
        if self.private_key_path.is_some() {
            KeySource::File
        } else if self.private_key_base64.is_some() {
            KeySource::Inline
        } else {
            KeySource::Generated
        }
    }
}

} // verus!
