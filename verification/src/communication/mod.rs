//! Communication with the service: the message envelope, the connection
//! life cycle, the API requests and retry pacing.

pub mod http;
pub mod message;
pub mod util;
pub mod websocket;

pub use http::HttpClient;
pub use message::{WebSocketMessage, WebSocketMessageType};
pub use websocket::WebSocketConnection;
