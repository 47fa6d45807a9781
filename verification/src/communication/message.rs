//! The message envelope exchanged over the persistent connection, and its
//! wire form.

use crate::json::{
    find_member, json_members, json_quote, json_string_text, json_string_value, json_u64_value,
    member_value, members_view, parse_members, parse_string, parse_u64, JsonMember,
};
use crate::text::{decimal_string, decimal_text, opt_view, str_eq};
use vstd::prelude::*;
use vstd::string::*;

verus! {

/// Message type for WebSocket communication.
#[derive(Debug, Clone, Copy, PartialEq, Eq, Structural)]
pub enum WebSocketMessageType {
    Data,
    Status,
    Command,
    Acknowledgement,
}

/// Why an inbound frame was discarded.
#[derive(Debug, Clone, Copy, PartialEq, Eq, Structural)]
pub enum DecodeError {
    /// The frame is not one JSON object.
    NotAnObject,
    /// `type` is missing or is none of the four tags.
    MessageType,
    /// `device_id` is missing or is not a string.
    DeviceId,
    /// `payload` is missing.
    Payload,
    /// `id` is present and is neither a string nor `null`.
    Id,
    /// `timestamp` is missing or is not a non-negative 64-bit integer.
    Timestamp,
}

/// Message structure for WebSocket communication. The payload is carried as
/// its compact JSON text.
#[derive(Debug, Clone, PartialEq, Eq)]
pub struct WebSocketMessage {
    pub message_type: WebSocketMessageType,
    pub device_id: String,
    pub payload: String,
    pub id: Option<String>,
    pub timestamp: u64,
}

/// What a message holds, as plain values.
pub struct MessageView {
    pub message_type: WebSocketMessageType,
    pub device_id: Seq<char>,
    pub payload: Seq<char>,
    pub id: Option<Seq<char>>,
    pub timestamp: u64,
}

impl WebSocketMessageType {
    /// The tag that stands for the type on the wire.
    pub open spec fn tag(self) -> Seq<char> {
        match self {
            WebSocketMessageType::Data => "data"@,
            WebSocketMessageType::Status => "status"@,
            WebSocketMessageType::Command => "command"@,
            WebSocketMessageType::Acknowledgement => "ack"@,
        }
    }

    /// The type that a tag stands for; `None` for any other text.
    pub open spec fn from_tag(tag: Seq<char>) -> Option<WebSocketMessageType> {
        if tag == "data"@ {
            Some(WebSocketMessageType::Data)
        } else if tag == "status"@ {
            Some(WebSocketMessageType::Status)
        } else if tag == "command"@ {
            Some(WebSocketMessageType::Command)
        } else if tag == "ack"@ {
            Some(WebSocketMessageType::Acknowledgement)
        } else {
            None
        }
    }

    /// The tag of this type.
    pub fn as_str(&self) -> (r: &'static str)
        ensures
            r@ == self.tag(),
    {
        match self {
            WebSocketMessageType::Data => "data",
            WebSocketMessageType::Status => "status",
            WebSocketMessageType::Command => "command",
            WebSocketMessageType::Acknowledgement => "ack",
        }
    }

    /// Reads a tag; any text but the four tags is refused.
    pub fn parse(tag: &str) -> (r: Option<WebSocketMessageType>)
        ensures
            r == Self::from_tag(tag@),
    {
        if str_eq(tag, "data") {
            Some(WebSocketMessageType::Data)
        } else if str_eq(tag, "status") {
            Some(WebSocketMessageType::Status)
        } else if str_eq(tag, "command") {
            Some(WebSocketMessageType::Command)
        } else if str_eq(tag, "ack") {
            Some(WebSocketMessageType::Acknowledgement)
        } else {
            None
        }
    }
}

/// Every type is read back from its own tag.
pub proof fn lemma_tag_round_trip(t: WebSocketMessageType)
    ensures
        WebSocketMessageType::from_tag(t.tag()) == Some(t),
{
    reveal_strlit("data");
    reveal_strlit("status");
    reveal_strlit("command");
    reveal_strlit("ack");
    assert("data"@.len() == 4);
    assert("status"@.len() == 6);
    assert("command"@.len() == 7);
}

/// The payload of every acknowledgement.
pub open spec fn ack_payload() -> Seq<char> {
    "{\"status\":\"received\"}"@
}

/// The `id` member of the wire form, with the comma before it; nothing where
/// the message has no id.
pub open spec fn id_member_text(id: Option<Seq<char>>) -> Seq<char> {
    match id {
        Some(s) => ",\"id\":"@ + json_string_text(s),
        None => Seq::empty(),
    }
}

impl MessageView {
    /// The wire form: one JSON object with the members `type`, `device_id`,
    /// `payload`, `id` (left out where there is none) and `timestamp`, in
    /// this order.
    pub open spec fn wire_text(self) -> Seq<char> {
        "{\"type\":\""@ + self.message_type.tag() + "\",\"device_id\":"@ + json_string_text(
            self.device_id,
        ) + ",\"payload\":"@ + self.payload + id_member_text(self.id) + ",\"timestamp\":"@
            + decimal_text(self.timestamp as nat) + "}"@
    }

    /// The acknowledgement that answers this message when `device_id`
    /// receives it at `now`: owed to a command that carries an id, and to
    /// nothing else.
    pub open spec fn acknowledgement(self, device_id: Seq<char>, now: u64) -> Option<MessageView> {
        if self.message_type == WebSocketMessageType::Command && self.id is Some {
            Some(
                MessageView {
                    message_type: WebSocketMessageType::Acknowledgement,
                    device_id: device_id,
                    payload: ack_payload(),
                    id: self.id,
                    timestamp: now,
                },
            )
        } else {
            None
        }
    }
}

/// The string held by a member that may be missing.
pub open spec fn string_member(text: Option<Seq<char>>) -> Option<Seq<char>> {
    match text {
        Some(t) => json_string_value(t),
        None => None,
    }
}

/// The number held by a member that may be missing.
pub open spec fn u64_member(text: Option<Seq<char>>) -> Option<u64> {
    match text {
        Some(t) => json_u64_value(t),
        None => None,
    }
}

/// The optional string held by the `id` member: a missing member and `null`
/// both stand for no id. The outer `None` marks a member of another kind.
pub open spec fn id_member(text: Option<Seq<char>>) -> Option<Option<Seq<char>>> {
    match text {
        None => Some(None),
        Some(t) => if t == "null"@ {
            Some(None)
        } else {
            match json_string_value(t) {
                Some(s) => Some(Some(s)),
                None => None,
            }
        },
    }
}

/// The message that the five members make, or the first of them, in wire
/// order, that is missing or of the wrong kind.
pub open spec fn assemble(
    tag: Option<Seq<char>>,
    device_id: Option<Seq<char>>,
    payload: Option<Seq<char>>,
    id: Option<Option<Seq<char>>>,
    timestamp: Option<u64>,
) -> Result<MessageView, DecodeError> {
    if tag is None || WebSocketMessageType::from_tag(tag.unwrap()) is None {
        Err(DecodeError::MessageType)
    } else if device_id is None {
        Err(DecodeError::DeviceId)
    } else if payload is None {
        Err(DecodeError::Payload)
    } else if id is None {
        Err(DecodeError::Id)
    } else if timestamp is None {
        Err(DecodeError::Timestamp)
    } else {
        Ok(
            MessageView {
                message_type: WebSocketMessageType::from_tag(tag.unwrap()).unwrap(),
                device_id: device_id.unwrap(),
                payload: payload.unwrap(),
                id: id.unwrap(),
                timestamp: timestamp.unwrap(),
            },
        )
    }
}

/// What decoding makes of a frame: strict on the five known members, blind
/// to any other member.
pub open spec fn decode_text(text: Seq<char>) -> Result<MessageView, DecodeError> {
    match json_members(text) {
        None => Err(DecodeError::NotAnObject),
        Some(members) => assemble(
            string_member(member_value(members, "type"@)),
            string_member(member_value(members, "device_id"@)),
            member_value(members, "payload"@),
            id_member(member_value(members, "id"@)),
            u64_member(member_value(members, "timestamp"@)),
        ),
    }
}

/// Whether a result of decoding holds what `expected` says.
pub open spec fn decoded_as(
    r: Result<WebSocketMessage, DecodeError>,
    expected: Result<MessageView, DecodeError>,
) -> bool {
    match r {
        Ok(m) => expected == Ok::<MessageView, DecodeError>(m@),
        Err(e) => expected == Err::<MessageView, DecodeError>(e),
    }
}

impl View for WebSocketMessage {
    type V = MessageView;

    open spec fn view(&self) -> MessageView {
        MessageView {
            message_type: self.message_type,
            device_id: self.device_id@,
            payload: self.payload@,
            id: opt_view(self.id),
            timestamp: self.timestamp,
        }
    }
}

fn read_string_member(members: &Vec<JsonMember>, name: &str) -> (r: Option<String>)
    ensures
        opt_view(r) == string_member(member_value(members_view(members@), name@)),
{
    match find_member(members, name) {
        Some(text) => parse_string(text),
        None => None,
    }
}

fn read_id_member(members: &Vec<JsonMember>) -> (r: Option<Option<String>>)
    ensures
        match r {
            Some(id) => id_member(member_value(members_view(members@), "id"@)) == Some(
                opt_view(id),
            ),
            None => id_member(member_value(members_view(members@), "id"@)) is None,
        },
{
    match find_member(members, "id") {
        None => Some(None),
        Some(text) => {
            if str_eq(text, "null") {
                Some(None)
            } else {
                match parse_string(text) {
                    Some(s) => Some(Some(s)),
                    None => None,
                }
            }
        },
    }
}

impl WebSocketMessage {
    /// A data message made on this device.
    pub fn data(device_id: &str, payload: String, id: String, now: u64) -> (r: WebSocketMessage)
        ensures
            r@ == (MessageView {
                message_type: WebSocketMessageType::Data,
                device_id: device_id@,
                payload: payload@,
                id: Some(id@),
                timestamp: now,
            }),
    {
        WebSocketMessage {
            message_type: WebSocketMessageType::Data,
            device_id: String::from_str(device_id),
            payload,
            id: Some(id),
            timestamp: now,
        }
    }

    /// A status message made on this device.
    pub fn status(device_id: &str, payload: String, id: String, now: u64) -> (r: WebSocketMessage)
        ensures
            r@ == (MessageView {
                message_type: WebSocketMessageType::Status,
                device_id: device_id@,
                payload: payload@,
                id: Some(id@),
                timestamp: now,
            }),
    {
        WebSocketMessage {
            message_type: WebSocketMessageType::Status,
            device_id: String::from_str(device_id),
            payload,
            id: Some(id),
            timestamp: now,
        }
    }

    /// The acknowledgement owed to this message, if any: a command with an
    /// id is answered under the same id.
    pub fn acknowledgement(&self, device_id: &str, now: u64) -> (r: Option<WebSocketMessage>)
        ensures
            match r {
                Some(ack) => self@.acknowledgement(device_id@, now) == Some(ack@),
                None => self@.acknowledgement(device_id@, now) is None,
            },
    {
        match self.message_type {
            WebSocketMessageType::Command => match &self.id {
                Some(id) => Some(
                    WebSocketMessage {
                        message_type: WebSocketMessageType::Acknowledgement,
                        device_id: String::from_str(device_id),
                        payload: String::from_str("{\"status\":\"received\"}"),
                        id: Some(id.clone()),
                        timestamp: now,
                    },
                ),
                None => None,
            },
            _ => None,
        }
    }

    /// Writes the wire form of the message.
    pub fn encode(&self) -> (r: String)
        ensures
            r@ == self@.wire_text(),
    {
        let mut s = String::from_str("{\"type\":\"");
        s.append(self.message_type.as_str());
        s.append("\",\"device_id\":");
        let device = json_quote(self.device_id.as_str());
        s.append(device.as_str());
        s.append(",\"payload\":");
        s.append(self.payload.as_str());
        match &self.id {
            Some(id) => {
                s.append(",\"id\":");
                let quoted = json_quote(id.as_str());
                s.append(quoted.as_str());
            },
            None => {},
        }
        s.append(",\"timestamp\":");
        let stamp = decimal_string(self.timestamp);
        s.append(stamp.as_str());
        s.append("}");
        s
    }

    /// Builds a message from the members read out of a frame. `id` holds
    /// `None` where the frame's `id` is neither a string nor `null`.
    pub fn from_fields(
        tag: Option<String>,
        device_id: Option<String>,
        payload: Option<String>,
        id: Option<Option<String>>,
        timestamp: Option<u64>,
    ) -> (r: Result<WebSocketMessage, DecodeError>)
        ensures
            decoded_as(
                r,
                assemble(
                    opt_view(tag),
                    opt_view(device_id),
                    opt_view(payload),
                    match id {
                        Some(i) => Some(opt_view(i)),
                        None => None,
                    },
                    timestamp,
                ),
            ),
    {
        let message_type = match tag {
            Some(t) => match WebSocketMessageType::parse(t.as_str()) {
                Some(k) => k,
                None => {
                    return Err(DecodeError::MessageType);
                },
            },
            None => {
                return Err(DecodeError::MessageType);
            },
        };
        let device_id = match device_id {
            Some(d) => d,
            None => {
                return Err(DecodeError::DeviceId);
            },
        };
        let payload = match payload {
            Some(p) => p,
            None => {
                return Err(DecodeError::Payload);
            },
        };
        let id = match id {
            Some(i) => i,
            None => {
                return Err(DecodeError::Id);
            },
        };
        let timestamp = match timestamp {
            Some(t) => t,
            None => {
                return Err(DecodeError::Timestamp);
            },
        };
        Ok(WebSocketMessage { message_type, device_id, payload, id, timestamp })
    }

    /// Decodes an inbound frame.
    pub fn decode(text: &str) -> (r: Result<WebSocketMessage, DecodeError>)
        ensures
            decoded_as(r, decode_text(text@)),
    {
        let members = match parse_members(text) {
            Some(m) => m,
            None => {
                return Err(DecodeError::NotAnObject);
            },
        };
        let tag = read_string_member(&members, "type");
        let device_id = read_string_member(&members, "device_id");
        let payload = match find_member(&members, "payload") {
            Some(p) => Some(String::from_str(p)),
            None => None,
        };
        let id = read_id_member(&members);
        let timestamp = match find_member(&members, "timestamp") {
            Some(t) => parse_u64(t),
            None => None,
        };
        Self::from_fields(tag, device_id, payload, id, timestamp)
    }
}

} // verus!
