//! Device-side SDK for an IoT dashboard service: device identity and signed
//! tokens, the message envelope, the connection life cycle and retry pacing.

pub mod auth;
pub mod clock;
pub mod communication;
pub mod config;
pub mod device;
pub mod encoding;
pub mod json;
pub mod models;
pub mod random;
pub mod text;
pub mod webhooks;
