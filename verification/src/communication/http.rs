//! The authenticated requests that the device makes of the service API, and
//! what it makes of the answers.
//!
//! The library says what is to be sent; sending it is the caller's part.

use crate::auth::{AuthError, AuthManager};
use crate::clock::unix_time;
use crate::text::{decimal_string, decimal_text, opt_view};
use vstd::prelude::*;
use vstd::string::*;

verus! {

/// The HTTP method of a request.
#[derive(Debug, Clone, Copy, PartialEq, Eq, Structural)]
pub enum HttpMethod {
    Get,
    Put,
    Post,
    Delete,
}

/// One request to the service API. A request with a body carries JSON.
#[derive(Debug, Clone, PartialEq, Eq)]
pub struct HttpRequest {
    pub method: HttpMethod,
    /// The base URL followed by the path.
    pub url: String,
    /// The value of the `Authorization` header.
    pub authorization: String,
    /// The JSON text of the body, for a request that has one.
    pub body: Option<String>,
}

/// A request as plain values.
pub struct RequestView {
    pub method: HttpMethod,
    pub url: Seq<char>,
    pub authorization: Seq<char>,
    pub body: Option<Seq<char>>,
}

impl View for HttpRequest {
    type V = RequestView;

    open spec fn view(&self) -> RequestView {
        RequestView {
            method: self.method,
            url: self.url@,
            authorization: self.authorization@,
            body: opt_view(self.body),
        }
    }
}

/// The answer of the service to a request that it refused.
#[derive(Debug, Clone, PartialEq, Eq)]
pub struct ApiError {
    /// The HTTP status.
    pub status: u16,
    /// The text of the response body.
    pub body: String,
}

/// The lifetime of the token that each request carries, in seconds.
pub const REQUEST_TOKEN_LIFETIME: u64 = 300;

/// Whether an HTTP status reports success.
pub open spec fn is_success(status: u16) -> bool {
    200 <= status < 300
}

/// The `Authorization` header for a token.
pub open spec fn bearer(token: Seq<char>) -> Seq<char> {
    "Bearer "@ + token
}

/// The message of an API error.
pub open spec fn api_error_text(status: u16, body: Seq<char>) -> Seq<char> {
    "API error "@ + decimal_text(status as nat) + ":"@ + body
}

/// The view of an optional string slice.
pub open spec fn opt_str_view(s: Option<&str>) -> Option<Seq<char>> {
    match s {
        Some(t) => Some(t@),
        None => None,
    }
}

/// The errors with which making a request can fail.
pub open spec fn request_failure(e: AuthError) -> bool {
    e == AuthError::Clock || e == AuthError::TokenTooLong || e == AuthError::InvalidLifetime
}

impl ApiError {
    /// The message of the error: the status and the body text.
    pub fn message(&self) -> (r: String)
        ensures
            r@ == api_error_text(self.status, self.body@),
    {
        let mut s = String::from_str("API error ");
        let status = decimal_string(self.status as u64);
        s.append(status.as_str());
        s.append(":");
        s.append(self.body.as_str());
        s
    }
}

/// HTTP client for the IoT service API.
pub struct HttpClient {
    base_url: String,
    auth_manager: AuthManager,
    timeout_seconds: u64,
}

impl HttpClient {
    /// The base URL.
    pub closed spec fn spec_base_url(&self) -> Seq<char> {
        self.base_url@
    }

    /// The identity that signs the requests.
    pub closed spec fn spec_auth_manager(&self) -> AuthManager {
        self.auth_manager
    }

    /// The timeout of each request, in seconds.
    pub closed spec fn spec_timeout_seconds(&self) -> u64 {
        self.timeout_seconds
    }

    /// Whether `request` is the request made at `now`: it has the method
    /// and the body, goes to the base URL followed by the path, and carries
    /// the token that the identity issues at `now` for 300 seconds.
    pub open spec fn makes_at(
        &self,
        request: RequestView,
        method: HttpMethod,
        path: Seq<char>,
        body: Option<Seq<char>>,
        now: u64,
    ) -> bool {
        &&& request.method == method
        &&& request.url == self.spec_base_url() + path
        &&& request.body == body
        &&& self.spec_auth_manager().token_text_at(now, REQUEST_TOKEN_LIFETIME) matches Ok(token)
        &&& request.authorization == bearer(token)
    }

    /// Whether `request` is the request made at some time.
    pub open spec fn makes(
        &self,
        request: RequestView,
        method: HttpMethod,
        path: Seq<char>,
        body: Option<Seq<char>>,
    ) -> bool {
        exists|now: u64| #[trigger] self.makes_at(request, method, path, body, now)
    }

    /// Create a new HTTP client.
    pub fn new(base_url: &str, auth_manager: AuthManager, timeout_seconds: u64) -> (r: HttpClient)
        ensures
            r.spec_base_url() == base_url@,
            r.spec_auth_manager() == auth_manager,
            r.spec_timeout_seconds() == timeout_seconds,
    {
        HttpClient { base_url: String::from_str(base_url), auth_manager, timeout_seconds }
    }

    /// The identity that signs the requests.
    pub fn auth_manager(&self) -> (r: &AuthManager)
        ensures
            *r == self.spec_auth_manager(),
    {
        &self.auth_manager
    }

    /// The timeout to apply to each request, in seconds.
    pub fn timeout_seconds(&self) -> (r: u64)
        ensures
            r == self.spec_timeout_seconds(),
    {
        self.timeout_seconds
    }

    /// The request made at `now`, with a token issued at `now`.
    pub fn request_at(&self, method: HttpMethod, path: &str, body: Option<&str>, now: u64) -> (r:
        Result<HttpRequest, AuthError>)
        ensures
            match r {
                Ok(request) => self.makes_at(request@, method, path@, opt_str_view(body), now),
                Err(e) => self.spec_auth_manager().token_text_at(now, REQUEST_TOKEN_LIFETIME)
                    == Err::<Seq<char>, AuthError>(e),
            },
    {
        let token = match self.auth_manager.create_auth_token_at(now, REQUEST_TOKEN_LIFETIME) {
            Ok(t) => t,
            Err(e) => {
                return Err(e);
            },
        };
        let mut url = String::from_str(self.base_url.as_str());
        url.append(path);
        let mut authorization = String::from_str("Bearer ");
        authorization.append(token.as_str());
        let owned = match body {
            Some(b) => Some(String::from_str(b)),
            None => None,
        };
        Ok(HttpRequest { method, url, authorization, body: owned })
    }

    /// The request made now.
    pub fn request(&self, method: HttpMethod, path: &str, body: Option<&str>) -> (r: Result<
        HttpRequest,
        AuthError,
    >)
        ensures
            match r {
                Ok(request) => self.makes(request@, method, path@, opt_str_view(body)),
                Err(e) => request_failure(e),
            },
    {
        let now = match unix_time() {
            Some(t) => t,
            None => {
                return Err(AuthError::Clock);
            },
        };
        self.request_at(method, path, body, now)
    }

    /// Make an authenticated GET request.
    pub fn get(&self, path: &str) -> (r: Result<HttpRequest, AuthError>)
        ensures
            match r {
                Ok(request) => self.makes(request@, HttpMethod::Get, path@, None),
                Err(e) => request_failure(e),
            },
    {
        self.request(HttpMethod::Get, path, None)
    }

    /// Make an authenticated PUT request with a JSON body.
    pub fn put(&self, path: &str, body: &str) -> (r: Result<HttpRequest, AuthError>)
        ensures
            match r {
                Ok(request) => self.makes(request@, HttpMethod::Put, path@, Some(body@)),
                Err(e) => request_failure(e),
            },
    {
        self.request(HttpMethod::Put, path, Some(body))
    }

    /// Make an authenticated DELETE request.
    pub fn delete(&self, path: &str) -> (r: Result<HttpRequest, AuthError>)
        ensures
            match r {
                Ok(request) => self.makes(request@, HttpMethod::Delete, path@, None),
                Err(e) => request_failure(e),
            },
    {
        self.request(HttpMethod::Delete, path, None)
    }

    /// Make an authenticated POST request with a JSON body.
    pub fn post(&self, path: &str, body: &str) -> (r: Result<HttpRequest, AuthError>)
        ensures
            match r {
                Ok(request) => self.makes(request@, HttpMethod::Post, path@, Some(body@)),
                Err(e) => request_failure(e),
            },
    {
        self.request(HttpMethod::Post, path, Some(body))
    }

    /// Handle an API response: the body of an answer with a success status,
    /// and an API error with the status and the body text for any other.
    pub fn handle_response(&self, status: u16, body: String) -> (r: Result<String, ApiError>)
        ensures
            match r {
                Ok(text) => is_success(status) && text == body,
                Err(e) => !is_success(status) && e.status == status && e.body == body,
            },
    {
        if 200 <= status && status < 300 {
            Ok(body)
        } else {
            Err(ApiError { status, body })
        }
    }
}

} // verus!
