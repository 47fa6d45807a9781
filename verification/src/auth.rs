//! Device identity: the signing key, the device id, and the signed,
//! time-bounded tokens that authenticate the device to the service.

use crate::clock::unix_time;
use crate::config::{ClientConfig, KeySource};
use crate::encoding::{
    base64_decode, base64_decoded, base64_input_limit, base64_text, hex_encode, hex_text,
    lemma_base64_has_no_dot, to_base64,
};
use crate::json::{json_quote, json_string_text};
use crate::random::os_random_32;
use crate::text::{decimal_string, decimal_text};
use ring::signature::KeyPair;
use vstd::prelude::*;
use vstd::string::*;
use vstd::utf8::encode_utf8;

verus! {

/// Why an operation on the identity failed.
#[derive(Debug, Clone, Copy, PartialEq, Eq, Structural)]
pub enum AuthError {
    /// The configuration names a key file, and its content was not handed in.
    KeyFileMissing,
    /// The key material is not a valid signing key.
    KeyFormat,
    /// No new key could be generated.
    KeyGeneration,
    /// The operating system gave no random bytes for a device id.
    RandomSource,
    /// The system clock stands before the Unix epoch.
    Clock,
    /// The lifetime is zero, or the expiry lies beyond the 64-bit range.
    InvalidLifetime,
    /// The token is too long to be encoded.
    TokenTooLong,
    /// The signature does not belong to the message and the key.
    BadSignature,
}

/// The public key of the Ed25519 key pair in a PKCS#8 document; `None` where
/// the document is rejected.
pub uninterp spec fn pkcs8_public_key(document: Seq<u8>) -> Option<Seq<u8>>;

/// The Ed25519 signature that the key pair in a PKCS#8 document gives to a
/// message.
pub uninterp spec fn ed25519_signature(document: Seq<u8>, message: Seq<u8>) -> Seq<u8>;

/// Whether Ed25519 verification under `public_key` accepts `signature` for
/// `message`.
pub uninterp spec fn ed25519_accepts(
    public_key: Seq<u8>,
    message: Seq<u8>,
    signature: Seq<u8>,
) -> bool;

/// `Ed25519KeyPair::from_pkcs8`, and `KeyPair::public_key` on the pair that
/// it returns: the 32 bytes of the public key, or `None` where the document
/// is rejected.
#[verifier::external_body]
fn read_key_document(document: &[u8]) -> (r: Option<Vec<u8>>)
    ensures
        match r {
            Some(key) => pkcs8_public_key(document@) == Some(key@) && key@.len() == 32,
            None => pkcs8_public_key(document@) is None,
        },
{
    match ring::signature::Ed25519KeyPair::from_pkcs8(document) {
        Ok(pair) => Some(pair.public_key().as_ref().to_vec()),
        Err(_) => None,
    }
}

/// `Ed25519KeyPair::sign` with the key pair in the document: the 64 bytes of
/// the signature, which verification under the pair's public key accepts for
/// this message; `None` where the document is rejected.
#[verifier::external_body]
fn sign_with(document: &[u8], message: &[u8]) -> (r: Option<Vec<u8>>)
    ensures
        match r {
            Some(signature) => {
                &&& pkcs8_public_key(document@) matches Some(key)
                &&& signature@ == ed25519_signature(document@, message@)
                &&& signature@.len() == 64
                &&& ed25519_accepts(key, message@, signature@)
            },
            None => pkcs8_public_key(document@) is None,
        },
{
    match ring::signature::Ed25519KeyPair::from_pkcs8(document) {
        Ok(pair) => Some(pair.sign(message).as_ref().to_vec()),
        Err(_) => None,
    }
}

/// `UnparsedPublicKey::verify` for `ED25519`: whether the signature is
/// accepted for the message under the public key.
#[verifier::external_body]
fn verify_with(public_key: &[u8], message: &[u8], signature: &[u8]) -> (r: bool)
    ensures
        r == ed25519_accepts(public_key@, message@, signature@),
{
    ring::signature::UnparsedPublicKey::new(&ring::signature::ED25519, public_key).verify(
        message,
        signature,
    ).is_ok()
}

/// `Ed25519KeyPair::generate_pkcs8` with `SystemRandom`: the PKCS#8 document
/// of a new key pair, or `None` where the generator fails. Nothing is stated
/// of the document.
#[verifier::external_body]
fn generate_key_document() -> Option<Vec<u8>> {
    let rng = ring::rand::SystemRandom::new();
    match ring::signature::Ed25519KeyPair::generate_pkcs8(&rng) {
        Ok(document) => Some(document.as_ref().to_vec()),
        Err(_) => None,
    }
}

/// Whether `id` has the form of a generated device id: 32 bytes in
/// hexadecimal.
pub open spec fn is_generated_device_id(id: Seq<char>) -> bool {
    exists|bytes: Seq<u8>| bytes.len() == 32 && id == #[trigger] hex_text(bytes)
}

/// Generate a random device ID: 32 random bytes in hexadecimal. `None` where
/// the operating system gives no random bytes.
pub fn generate_device_id() -> (r: Option<String>)
    ensures
        r matches Some(id) ==> is_generated_device_id(id@),
{
    device_id_from(os_random_32())
}

/// The device id made of the bytes that the random source gave: their
/// hexadecimal text, and none where the source gave none.
pub fn device_id_from(random: Option<Vec<u8>>) -> (r: Option<String>)
    ensures
        match random {
            Some(bytes) => r matches Some(id) && id@ == hex_text(bytes@),
            None => r is None,
        },
{
    match random {
        Some(bytes) => Some(hex_encode(bytes.as_slice())),
        None => None,
    }
}

/// The view of an optional byte vector.
pub open spec fn opt_bytes_view(bytes: Option<Vec<u8>>) -> Option<Seq<u8>> {
    match bytes {
        Some(b) => Some(b@),
        None => None,
    }
}

/// The key document that the configuration supplies: that of the key file
/// where a path is set, else the decoded inline key. `None` where neither is
/// set and a key is generated.
pub open spec fn supplied_key_document(config: ClientConfig, key_file: Option<Seq<u8>>) -> Option<
    Result<Seq<u8>, AuthError>,
> {
    match config.spec_key_source() {
        KeySource::File => Some(
            match key_file {
                Some(bytes) => Ok(bytes),
                None => Err(AuthError::KeyFileMissing),
            },
        ),
        KeySource::Inline => Some(
            match base64_decoded(config.private_key_base64.unwrap()@) {
                Some(bytes) => Ok(bytes),
                None => Err(AuthError::KeyFormat),
            },
        ),
        KeySource::Generated => None,
    }
}

/// The canonical JSON text of a token payload: the members `device_id`,
/// `exp` and `iat`, in this order.
pub open spec fn token_payload_text(device_id: Seq<char>, issued_at: u64, expires_at: u64) -> Seq<
    char,
> {
    "{\"device_id\":"@ + json_string_text(device_id) + ",\"exp\":"@ + decimal_text(
        expires_at as nat,
    ) + ",\"iat\":"@ + decimal_text(issued_at as nat) + "}"@
}

/// A token as plain values.
pub struct TokenView {
    pub device_id: Seq<char>,
    pub issued_at: u64,
    pub expires_at: u64,
    pub signature: Seq<u8>,
}

impl TokenView {
    /// The canonical JSON text of the payload.
    pub open spec fn payload_text(self) -> Seq<char> {
        token_payload_text(self.device_id, self.issued_at, self.expires_at)
    }

    /// The bytes that are signed: the payload text in UTF-8.
    pub open spec fn payload_bytes(self) -> Seq<u8> {
        encode_utf8(self.payload_text())
    }

    /// The payload text, a dot, and the signature in base64.
    pub open spec fn inner_text(self) -> Seq<char> {
        self.payload_text() + "."@ + base64_text(self.signature)
    }

    /// The wire form: the inner text in base64 once more.
    pub open spec fn wire_text(self) -> Seq<char> {
        base64_text(encode_utf8(self.inner_text()))
    }

    /// What encoding gives: the wire form, or `TokenTooLong` where the inner
    /// text is too long for base64.
    pub open spec fn encoded(self) -> Result<Seq<char>, AuthError> {
        if encode_utf8(self.inner_text()).len() <= base64_input_limit() {
            Ok(self.wire_text())
        } else {
            Err(AuthError::TokenTooLong)
        }
    }
}

/// The view of a text or the error in its place.
pub open spec fn text_result_view(r: Result<String, AuthError>) -> Result<Seq<char>, AuthError> {
    match r {
        Ok(text) => Ok(text@),
        Err(e) => Err(e),
    }
}

/// The dot that parts the payload from the signature is the last dot of the
/// inner text: what stands behind it is the signature in base64, what
/// stands before it the payload.
pub proof fn lemma_signature_follows_last_dot(token: TokenView)
    ensures
        token.payload_text().len() < token.inner_text().len(),
        token.inner_text()[token.payload_text().len() as int] == '.',
        forall|i: int|
            token.payload_text().len() < i < token.inner_text().len() ==> token.inner_text()[i]
                != '.',
        token.inner_text().take(token.payload_text().len() as int) == token.payload_text(),
        token.inner_text().skip(token.payload_text().len() as int + 1) == base64_text(
            token.signature,
        ),
{
    reveal_strlit(".");
    lemma_base64_has_no_dot(token.signature);
}

/// A signed, time-bounded authentication token.
pub struct AuthToken {
    device_id: String,
    issued_at: u64,
    expires_at: u64,
    signature: Vec<u8>,
}

impl View for AuthToken {
    type V = TokenView;

    closed spec fn view(&self) -> TokenView {
        TokenView {
            device_id: self.device_id@,
            issued_at: self.issued_at,
            expires_at: self.expires_at,
            signature: self.signature@,
        }
    }
}

impl AuthToken {
    #[verifier::type_invariant]
    spec fn well_formed(self) -> bool {
        &&& self.expires_at > self.issued_at
        &&& self.signature@.len() == 64
    }

    /// The device that the token was issued to.
    pub fn device_id(&self) -> (r: &str)
        ensures
            r@ == self@.device_id,
    {
        self.device_id.as_str()
    }

    /// When the token was issued, in seconds since the Unix epoch.
    pub fn issued_at(&self) -> (r: u64)
        ensures
            r == self@.issued_at,
    {
        self.issued_at
    }

    /// When the token expires, in seconds since the Unix epoch.
    pub fn expires_at(&self) -> (r: u64)
        ensures
            r == self@.expires_at,
            r > self@.issued_at,
    {
        proof {
            use_type_invariant(self);
        }
        self.expires_at
    }

    /// The signature over the payload bytes.
    pub fn signature(&self) -> (r: &[u8])
        ensures
            r@ == self@.signature,
            r@.len() == 64,
    {
        proof {
            use_type_invariant(self);
        }
        self.signature.as_slice()
    }

    /// The canonical JSON text of the payload.
    pub fn payload(&self) -> (r: String)
        ensures
            r@ == self@.payload_text(),
    {
        payload_string(self.device_id.as_str(), self.issued_at, self.expires_at)
    }

    /// The wire form of the token: the payload text, a dot and the signature
    /// in base64, the whole in base64 once more. Fails where the inner text
    /// is too long to be encoded.
    pub fn encode(&self) -> (r: Result<String, AuthError>)
        ensures
            text_result_view(r) == self@.encoded(),
    {
        proof {
            use_type_invariant(self);
        }
        let mut inner = self.payload();
        let signature = match to_base64(self.signature.as_slice()) {
            Some(s) => s,
            None => {
                return Err(AuthError::TokenTooLong);
            },
        };
        inner.append(".");
        inner.append(signature.as_str());
        match to_base64(inner.as_str().as_bytes()) {
            Some(token) => Ok(token),
            None => Err(AuthError::TokenTooLong),
        }
    }
}

fn payload_string(device_id: &str, issued_at: u64, expires_at: u64) -> (r: String)
    ensures
        r@ == token_payload_text(device_id@, issued_at, expires_at),
{
    let mut s = String::from_str("{\"device_id\":");
    let quoted = json_quote(device_id);
    s.append(quoted.as_str());
    s.append(",\"exp\":");
    let exp = decimal_string(expires_at);
    s.append(exp.as_str());
    s.append(",\"iat\":");
    let iat = decimal_string(issued_at);
    s.append(iat.as_str());
    s.append("}");
    s
}

/// Manages authentication for the IoT client.
pub struct AuthManager {
    key_document: Vec<u8>,
    public_key: Vec<u8>,
    device_id: String,
}

impl AuthManager {
    #[verifier::type_invariant]
    spec fn key_is_consistent(self) -> bool {
        &&& pkcs8_public_key(self.key_document@) == Some(self.public_key@)
        &&& self.public_key@.len() == 32
    }

    /// The device id.
    pub closed spec fn spec_device_id(&self) -> Seq<char> {
        self.device_id@
    }

    /// The public key.
    pub closed spec fn spec_public_key(&self) -> Seq<u8> {
        self.public_key@
    }

    /// The PKCS#8 document that holds the key pair.
    pub closed spec fn spec_key_document(&self) -> Seq<u8> {
        self.key_document@
    }

    /// Whether the identity has the device id that the configuration asks
    /// for: the one it names, else a generated one.
    pub open spec fn has_device_id_of(&self, config: ClientConfig) -> bool {
        match config.device_id {
            Some(id) => self.spec_device_id() == id@,
            None => is_generated_device_id(self.spec_device_id()),
        }
    }

    /// An identity from a PKCS#8 key document and a device id. Fails where
    /// the document is not a valid signing key.
    pub fn from_parts(key_document: Vec<u8>, device_id: String) -> (r: Result<
        AuthManager,
        AuthError,
    >)
        ensures
            match r {
                Ok(m) => {
                    &&& m.spec_key_document() == key_document@
                    &&& pkcs8_public_key(key_document@) == Some(m.spec_public_key())
                    &&& m.spec_device_id() == device_id@
                },
                Err(e) => e == AuthError::KeyFormat && pkcs8_public_key(key_document@) is None,
            },
    {
        match read_key_document(key_document.as_slice()) {
            Some(public_key) => Ok(AuthManager { key_document, public_key, device_id }),
            None => Err(AuthError::KeyFormat),
        }
    }

    /// Create a new auth manager from the client configuration. Exactly one
    /// key source is consulted: the key file where the configuration names
    /// one (`key_file` is its content), else the inline base64 key, else a
    /// freshly generated key. The device id is the configured one, else a
    /// generated one.
    pub fn new(config: &ClientConfig, key_file: Option<Vec<u8>>) -> (r: Result<
        AuthManager,
        AuthError,
    >)
        ensures
            r matches Ok(m) ==> pkcs8_public_key(m.spec_key_document()) == Some(
                m.spec_public_key(),
            ),
            match supplied_key_document(*config, opt_bytes_view(key_file)) {
                Some(Err(reason)) => r matches Err(e) && e == reason,
                Some(Ok(document)) => match pkcs8_public_key(document) {
                    None => r matches Err(e) && e == AuthError::KeyFormat,
                    Some(key) => match r {
                        Ok(m) => {
                            &&& m.spec_key_document() == document
                            &&& m.spec_public_key() == key
                            &&& m.has_device_id_of(*config)
                        },
                        Err(e) => e == AuthError::RandomSource && config.device_id is None,
                    },
                },
                None => match r {
                    Ok(m) => m.has_device_id_of(*config),
                    Err(e) => e == AuthError::KeyGeneration || (e == AuthError::RandomSource
                        && config.device_id is None),
                },
            },
    {
        let source = config.key_source();
        let document = match source {
            KeySource::File => match key_file {
                Some(bytes) => bytes,
                None => {
                    return Err(AuthError::KeyFileMissing);
                },
            },
            KeySource::Inline => match &config.private_key_base64 {
                Some(text) => match base64_decode(text.as_str()) {
                    Some(bytes) => bytes,
                    None => {
                        return Err(AuthError::KeyFormat);
                    },
                },
                None => {
                    return Err(AuthError::KeyFormat);
                },
            },
            KeySource::Generated => match generate_key_document() {
                Some(bytes) => bytes,
                None => {
                    return Err(AuthError::KeyGeneration);
                },
            },
        };
        let public_key = match read_key_document(document.as_slice()) {
            Some(key) => key,
            None => {
                return Err(
                    match source {
                        KeySource::Generated => AuthError::KeyGeneration,
                        _ => AuthError::KeyFormat,
                    },
                );
            },
        };
        let device_id = match &config.device_id {
            Some(id) => id.clone(),
            None => match generate_device_id() {
                Some(id) => id,
                None => {
                    return Err(AuthError::RandomSource);
                },
            },
        };
        Ok(AuthManager { key_document: document, public_key, device_id })
    }

    /// Get the device ID.
    pub fn device_id(&self) -> (r: &str)
        ensures
            r@ == self.spec_device_id(),
    {
        self.device_id.as_str()
    }

    /// Get the public key for this device.
    pub fn public_key(&self) -> (r: &[u8])
        ensures
            r@ == self.spec_public_key(),
            r@.len() == 32,
    {
        proof {
            use_type_invariant(self);
        }
        self.public_key.as_slice()
    }

    /// Export the public key as base64.
    pub fn public_key_base64(&self) -> (r: String)
        ensures
            r@ == base64_text(self.spec_public_key()),
    {
        proof {
            use_type_invariant(self);
        }
        match to_base64(self.public_key.as_slice()) {
            Some(text) => text,
            None => String::new(),
        }
    }

    /// Sign a message with the device's private key. Verification under the
    /// device's public key accepts the signature for this message.
    pub fn sign(&self, message: &[u8]) -> (r: Vec<u8>)
        ensures
            r@ == ed25519_signature(self.spec_key_document(), message@),
            r@.len() == 64,
            ed25519_accepts(self.spec_public_key(), message@, r@),
    {
        proof {
            use_type_invariant(self);
        }
        match sign_with(self.key_document.as_slice(), message) {
            Some(signature) => signature,
            None => Vec::new(),
        }
    }

    /// Verify a signature: `Ok` where verification under the device's public
    /// key accepts it for the message, `BadSignature` where it does not.
    pub fn verify(&self, message: &[u8], signature: &[u8]) -> (r: Result<(), AuthError>)
        ensures
            r == if ed25519_accepts(self.spec_public_key(), message@, signature@) {
                Ok::<(), AuthError>(())
            } else {
                Err::<(), AuthError>(AuthError::BadSignature)
            },
    {
        if verify_with(self.public_key.as_slice(), message, signature) {
            Ok(())
        } else {
            Err(AuthError::BadSignature)
        }
    }

    /// Whether a token may be issued at `now` for `lifetime` seconds: the
    /// lifetime is not zero and the expiry fits 64 bits.
    pub open spec fn lifetime_valid(now: u64, lifetime: u64) -> bool {
        lifetime > 0 && now + lifetime <= u64::MAX
    }

    /// The token that this identity issues at `now` for `lifetime` seconds:
    /// it names the device, is issued at `now`, expires `lifetime` seconds
    /// later, and carries this identity's signature over the payload bytes.
    pub open spec fn token_at(&self, now: u64, lifetime: u64) -> TokenView {
        TokenView {
            device_id: self.spec_device_id(),
            issued_at: now,
            expires_at: (now + lifetime) as u64,
            signature: ed25519_signature(
                self.spec_key_document(),
                encode_utf8(
                    token_payload_text(self.spec_device_id(), now, (now + lifetime) as u64),
                ),
            ),
        }
    }

    /// The wire form of the token issued at `now` for `lifetime` seconds, or
    /// the reason why there is none.
    pub open spec fn token_text_at(&self, now: u64, lifetime: u64) -> Result<Seq<char>, AuthError> {
        if Self::lifetime_valid(now, lifetime) {
            self.token_at(now, lifetime).encoded()
        } else {
            Err(AuthError::InvalidLifetime)
        }
    }

    /// Issues the token for `lifetime` seconds from `now` on. Verification
    /// under the device's public key accepts its signature for its payload.
    pub fn issue_token(&self, now: u64, lifetime: u64) -> (r: Result<AuthToken, AuthError>)
        ensures
            match r {
                Ok(token) => {
                    &&& Self::lifetime_valid(now, lifetime)
                    &&& token@ == self.token_at(now, lifetime)
                    &&& token@.issued_at == now
                    &&& token@.expires_at - token@.issued_at == lifetime
                    &&& ed25519_accepts(
                        self.spec_public_key(),
                        token@.payload_bytes(),
                        token@.signature,
                    )
                },
                Err(e) => e == AuthError::InvalidLifetime && !Self::lifetime_valid(now, lifetime),
            },
    {
        if lifetime == 0 {
            return Err(AuthError::InvalidLifetime);
        }
        let expires_at = match now.checked_add(lifetime) {
            Some(t) => t,
            None => {
                return Err(AuthError::InvalidLifetime);
            },
        };
        let payload = payload_string(self.device_id.as_str(), now, expires_at);
        let signature = self.sign(payload.as_str().as_bytes());
        Ok(AuthToken { device_id: self.device_id.clone(), issued_at: now, expires_at, signature })
    }

    /// Create an authentication token at a given time: the wire form of the
    /// token issued at `now` for `expiration_seconds`.
    pub fn create_auth_token_at(&self, now: u64, expiration_seconds: u64) -> (r: Result<
        String,
        AuthError,
    >)
        ensures
            text_result_view(r) == self.token_text_at(now, expiration_seconds),
            r is Ok ==> ed25519_accepts(
                self.spec_public_key(),
                self.token_at(now, expiration_seconds).payload_bytes(),
                self.token_at(now, expiration_seconds).signature,
            ),
    {
        let token = match self.issue_token(now, expiration_seconds) {
            Ok(t) => t,
            Err(e) => {
                return Err(e);
            },
        };
        token.encode()
    }

    /// Create an authentication token for API requests: the wire form of the
    /// token issued at the current time for `expiration_seconds`. Fails
    /// where the system clock stands before the epoch.
    pub fn create_auth_token(&self, expiration_seconds: u64) -> (r: Result<String, AuthError>)
        ensures
            r == Err::<String, AuthError>(AuthError::Clock) || exists|now: u64|
                text_result_view(r) == #[trigger] self.token_text_at(now, expiration_seconds),
            expiration_seconds == 0 ==> r is Err,
    {
        let now = match unix_time() {
            Some(t) => t,
            None => {
                return Err(AuthError::Clock);
            },
        };
        self.create_auth_token_at(now, expiration_seconds)
    }
}

} // verus!
