//! The life cycle of the persistent connection.
//!
//! The connection is a state machine. Opening the transport, writing to it
//! and reading from it are the caller's part; it reports each outcome here,
//! and everything that follows from it is decided here: the target address,
//! the liveness flag, the queue of outbound frames, the acknowledgement of
//! commands.

use crate::clock::unix_time_or_zero;
pub use crate::communication::message::{WebSocketMessage, WebSocketMessageType};
use crate::communication::message::{ack_payload, decode_text, DecodeError, MessageView};
use crate::communication::util::{RetrySchedule, RetryStep};
use crate::encoding::{base64_text, to_base64};
use crate::json::{json_compact, parse_compact};
use crate::random::random_8;
use std::collections::VecDeque;
use vstd::prelude::*;
use vstd::string::*;

verus! {

/// Why an operation on the connection failed.
#[derive(Debug, Clone, Copy, PartialEq, Eq, Structural)]
pub enum ConnectionError {
    /// There is no live connection: none was ever established, or the
    /// current one has gone down.
    NotConnected,
    /// The transport failed.
    Transport,
    /// Reconnecting used up all its attempts.
    ReconnectExhausted,
    /// The payload is not one JSON value.
    Payload,
}

/// Where the connection stands.
#[derive(Debug, Clone, Copy, PartialEq, Eq, Structural)]
pub enum ConnectionState {
    Disconnected,
    Connecting,
    Connected,
}

/// The wait before the second attempt of a reconnection, in milliseconds.
pub const RECONNECT_INITIAL_DELAY_MS: u64 = 1000;

/// One established connection, as plain values: its number, its liveness
/// flag, the device it acknowledges for, and the frames that wait to be
/// written, oldest first.
pub struct HandleModel {
    pub instance: u64,
    pub connected: bool,
    pub device_id: Seq<char>,
    pub queue: Seq<Seq<char>>,
}

/// The connection as plain values.
pub struct ConnectionModel {
    /// A connect has begun and its outcome is not known yet.
    pub connecting: bool,
    /// The device that the pending connect was begun for.
    pub pending_device_id: Seq<char>,
    /// The connection established last, if any.
    pub handle: Option<HandleModel>,
    /// How many connections have been established so far.
    pub instances: u64,
}

/// What can happen to a connection.
pub enum ConnectionEvent {
    /// A connect begins.
    Connect { device_id: Seq<char> },
    /// The pending connect has opened the transport.
    Established,
    /// The pending connect has failed.
    ConnectFailed,
    /// A caller hands in a frame.
    Send { frame: Seq<char> },
    /// The receiver of a connection has read a text frame.
    Received { instance: u64, text: Seq<char>, now: u64 },
    /// The sender of a connection takes the next frame.
    Dequeued { instance: u64 },
    /// The sender or the receiver of a connection has stopped on a failure.
    WorkerStopped { instance: u64 },
    /// The caller shuts the connection down.
    Closed,
}

/// What the receiver made of one inbound frame.
#[derive(Debug, Clone, PartialEq, Eq)]
pub enum FrameOutcome {
    /// The frame could not be decoded and was dropped.
    Dropped(DecodeError),
    /// The frame was decoded; no answer is owed.
    Observed(WebSocketMessageType),
    /// The frame is a command with an id; this acknowledgement answers it.
    Acknowledged(String),
}

/// A frame's outcome as plain values.
pub enum FrameOutcomeView {
    Dropped(DecodeError),
    Observed(WebSocketMessageType),
    Acknowledged(Seq<char>),
}

impl View for FrameOutcome {
    type V = FrameOutcomeView;

    open spec fn view(&self) -> FrameOutcomeView {
        match self {
            FrameOutcome::Dropped(e) => FrameOutcomeView::Dropped(*e),
            FrameOutcome::Observed(t) => FrameOutcomeView::Observed(*t),
            FrameOutcome::Acknowledged(frame) => FrameOutcomeView::Acknowledged(frame@),
        }
    }
}

/// The address that a connect opens: the endpoint with the token and the
/// device id as query parameters.
pub open spec fn connection_url(url: Seq<char>, auth_token: Seq<char>, device_id: Seq<char>) -> Seq<
    char,
> {
    url + "?token="@ + auth_token + "&device_id="@ + device_id
}

/// What the receiver of `device_id` makes of the frame `text` at `now`: a
/// frame that does not decode is dropped, a command with an id is answered
/// by its acknowledgement, anything else is only observed.
pub open spec fn frame_outcome(text: Seq<char>, device_id: Seq<char>, now: u64) -> FrameOutcomeView {
    match decode_text(text) {
        Err(e) => FrameOutcomeView::Dropped(e),
        Ok(message) => match message.acknowledgement(device_id, now) {
            Some(ack) => FrameOutcomeView::Acknowledged(ack.wire_text()),
            None => FrameOutcomeView::Observed(message.message_type),
        },
    }
}

/// The views of the frames in a queue.
pub open spec fn frames_view(frames: Seq<String>) -> Seq<Seq<char>> {
    frames.map_values(|s: String| s@)
}

impl HandleModel {
    /// This connection with one more frame at the back of its queue.
    pub open spec fn with_frame(self, frame: Seq<char>) -> HandleModel {
        HandleModel {
            instance: self.instance,
            connected: self.connected,
            device_id: self.device_id,
            queue: self.queue.push(frame),
        }
    }

    /// This connection without the frame at the front of its queue.
    pub open spec fn without_front(self) -> HandleModel {
        HandleModel {
            instance: self.instance,
            connected: self.connected,
            device_id: self.device_id,
            queue: self.queue.drop_first(),
        }
    }

    /// This connection with its flag down.
    pub open spec fn down(self) -> HandleModel {
        HandleModel {
            instance: self.instance,
            connected: false,
            device_id: self.device_id,
            queue: self.queue,
        }
    }
}

impl ConnectionModel {
    /// A connection on which nothing has happened yet.
    pub open spec fn initial() -> ConnectionModel {
        ConnectionModel {
            connecting: false,
            pending_device_id: Seq::empty(),
            handle: None,
            instances: 0,
        }
    }

    /// The numbers of the connections are those handed out so far.
    pub open spec fn wf(self) -> bool {
        self.handle matches Some(h) ==> 1 <= h.instance <= self.instances
    }

    /// Whether the connection established last is live.
    pub open spec fn is_connected(self) -> bool {
        self.handle matches Some(h) && h.connected
    }

    /// Whether connection number `instance` is the current one and live.
    pub open spec fn instance_connected(self, instance: u64) -> bool {
        self.handle matches Some(h) && h.instance == instance && h.connected
    }

    /// Where the connection stands.
    pub open spec fn state(self) -> ConnectionState {
        if self.connecting {
            ConnectionState::Connecting
        } else if self.is_connected() {
            ConnectionState::Connected
        } else {
            ConnectionState::Disconnected
        }
    }

    /// This model with another current connection.
    pub open spec fn with_handle(self, handle: HandleModel) -> ConnectionModel {
        ConnectionModel {
            connecting: self.connecting,
            pending_device_id: self.pending_device_id,
            handle: Some(handle),
            instances: self.instances,
        }
    }

    /// A connect begins for `device_id`.
    pub open spec fn connect_begun(self, device_id: Seq<char>) -> ConnectionModel {
        ConnectionModel {
            connecting: true,
            pending_device_id: device_id,
            handle: self.handle,
            instances: self.instances,
        }
    }

    /// Whether a pending connect can become a connection.
    pub open spec fn can_establish(self) -> bool {
        self.connecting && self.instances < u64::MAX
    }

    /// The pending connect has opened the transport: a new connection with
    /// the next number, a raised flag and an empty queue takes the place of
    /// the old one. Without a pending connect nothing changes.
    pub open spec fn established(self) -> ConnectionModel {
        if self.can_establish() {
            ConnectionModel {
                connecting: false,
                pending_device_id: self.pending_device_id,
                handle: Some(
                    HandleModel {
                        instance: (self.instances + 1) as u64,
                        connected: true,
                        device_id: self.pending_device_id,
                        queue: Seq::empty(),
                    },
                ),
                instances: (self.instances + 1) as u64,
            }
        } else {
            self
        }
    }

    /// The pending connect has failed: what was there before stays.
    pub open spec fn connect_failed(self) -> ConnectionModel {
        ConnectionModel {
            connecting: false,
            pending_device_id: self.pending_device_id,
            handle: self.handle,
            instances: self.instances,
        }
    }

    /// A frame is handed in: it joins the queue of a live connection, and is
    /// refused otherwise.
    pub open spec fn enqueued(self, frame: Seq<char>) -> ConnectionModel {
        if self.is_connected() {
            self.with_handle(self.handle.unwrap().with_frame(frame))
        } else {
            self
        }
    }

    /// The receiver of connection `instance` has read `text` at `now`: where
    /// an acknowledgement is owed and that connection is live, the
    /// acknowledgement joins its queue.
    pub open spec fn received(self, instance: u64, text: Seq<char>, now: u64) -> ConnectionModel {
        if self.instance_connected(instance) {
            match frame_outcome(text, self.handle.unwrap().device_id, now) {
                FrameOutcomeView::Acknowledged(ack) => self.enqueued(ack),
                _ => self,
            }
        } else {
            self
        }
    }

    /// The frame that the sender of connection `instance` writes next: the
    /// oldest in the queue, while that connection is live.
    pub open spec fn next_frame(self, instance: u64) -> Option<Seq<char>> {
        if self.instance_connected(instance) && self.handle.unwrap().queue.len() > 0 {
            Some(self.handle.unwrap().queue[0])
        } else {
            None
        }
    }

    /// The sender of connection `instance` has taken the next frame.
    pub open spec fn dequeued(self, instance: u64) -> ConnectionModel {
        if self.next_frame(instance) is Some {
            self.with_handle(self.handle.unwrap().without_front())
        } else {
            self
        }
    }

    /// A worker of connection `instance` has stopped on a failure: the flag
    /// of that connection goes down. A worker of an earlier connection
    /// changes nothing.
    pub open spec fn worker_stopped(self, instance: u64) -> ConnectionModel {
        if self.handle matches Some(h) && h.instance == instance {
            self.with_handle(self.handle.unwrap().down())
        } else {
            self
        }
    }

    /// The caller shuts down: a pending connect is given up and the flag of
    /// the current connection goes down.
    pub open spec fn closed(self) -> ConnectionModel {
        ConnectionModel {
            connecting: false,
            pending_device_id: self.pending_device_id,
            handle: match self.handle {
                Some(h) => Some(h.down()),
                None => None,
            },
            instances: self.instances,
        }
    }

    /// The state after one event.
    pub open spec fn step(self, event: ConnectionEvent) -> ConnectionModel {
        match event {
            ConnectionEvent::Connect { device_id } => self.connect_begun(device_id),
            ConnectionEvent::Established => self.established(),
            ConnectionEvent::ConnectFailed => self.connect_failed(),
            ConnectionEvent::Send { frame } => self.enqueued(frame),
            ConnectionEvent::Received { instance, text, now } => self.received(
                instance,
                text,
                now,
            ),
            ConnectionEvent::Dequeued { instance } => self.dequeued(instance),
            ConnectionEvent::WorkerStopped { instance } => self.worker_stopped(instance),
            ConnectionEvent::Closed => self.closed(),
        }
    }

    /// The state after a sequence of events.
    pub open spec fn run(self, events: Seq<ConnectionEvent>) -> ConnectionModel
        decreases events.len(),
    {
        if events.len() == 0 {
            self
        } else {
            self.run(events.drop_last()).step(events.last())
        }
    }
}

/// Whether `id` has the form of a fresh message id: 8 bytes in base64.
pub open spec fn is_message_id(id: Seq<char>) -> bool {
    exists|bytes: Seq<u8>| bytes.len() == 8 && id == #[trigger] base64_text(bytes)
}

/// A message made on this device: it carries a fresh id.
pub open spec fn local_message(
    message_type: WebSocketMessageType,
    device_id: Seq<char>,
    payload: Seq<char>,
    id: Seq<char>,
    now: u64,
) -> MessageView {
    MessageView { message_type, device_id, payload, id: Some(id), timestamp: now }
}

/// Whether sending `payload` succeeds: a payload that is not JSON is refused
/// first, then a connection that is not live.
pub open spec fn sending_result(s: ConnectionModel, payload: Seq<char>) -> Result<
    (),
    ConnectionError,
> {
    if json_compact(payload) is None {
        Err(ConnectionError::Payload)
    } else if !s.is_connected() {
        Err(ConnectionError::NotConnected)
    } else {
        Ok(())
    }
}

/// One established connection: its number, its liveness flag, the device it
/// acknowledges for, and its queue of outbound frames.
pub struct ConnectionHandle {
    instance: u64,
    connected: bool,
    device_id: String,
    outbound: VecDeque<String>,
}

/// A WebSocket connection to the IoT service.
pub struct WebSocketConnection {
    connecting: bool,
    pending_device_id: String,
    handle: Option<ConnectionHandle>,
    instances: u64,
}

impl View for ConnectionHandle {
    type V = HandleModel;

    closed spec fn view(&self) -> HandleModel {
        HandleModel {
            instance: self.instance,
            connected: self.connected,
            device_id: self.device_id@,
            queue: frames_view(self.outbound@),
        }
    }
}

impl View for WebSocketConnection {
    type V = ConnectionModel;

    closed spec fn view(&self) -> ConnectionModel {
        ConnectionModel {
            connecting: self.connecting,
            pending_device_id: self.pending_device_id@,
            handle: match self.handle {
                Some(h) => Some(h@),
                None => None,
            },
            instances: self.instances,
        }
    }
}

/// Generate a random message ID: 8 random bytes in base64.
fn generate_message_id() -> (r: String)
    ensures
        is_message_id(r@),
{
    let bytes = random_8();
    match to_base64(bytes.as_slice()) {
        Some(id) => id,
        None => String::new(),
    }
}

impl WebSocketConnection {
    /// Create a new WebSocket connection (not connected yet).
    pub fn new() -> (r: WebSocketConnection)
        ensures
            r@ == ConnectionModel::initial(),
    {
        WebSocketConnection {
            connecting: false,
            pending_device_id: String::new(),
            handle: None,
            instances: 0,
        }
    }

    /// Begins to connect to the server: returns the address to open, with
    /// the token and the device id embedded. The caller opens the transport
    /// and reports the outcome with `connection_established` or
    /// `connection_failed`.
    pub fn connect(&mut self, url: &str, auth_token: &str, device_id: &str) -> (r: String)
        ensures
            r@ == connection_url(url@, auth_token@, device_id@),
            final(self)@ == old(self)@.connect_begun(device_id@),
    {
        let mut target = String::from_str(url);
        target.append("?token=");
        target.append(auth_token);
        target.append("&device_id=");
        target.append(device_id);
        self.connecting = true;
        self.pending_device_id = String::from_str(device_id);
        target
    }

    /// The pending connect has opened the transport. Returns the number of
    /// the new connection, under which its sender and its receiver report;
    /// `None`, and no change, where no connect is pending.
    pub fn connection_established(&mut self) -> (r: Option<u64>)
        ensures
            final(self)@ == old(self)@.established(),
            r == if old(self)@.can_establish() {
                Some((old(self)@.instances + 1) as u64)
            } else {
                None
            },
    {
        if self.connecting && self.instances < u64::MAX {
            let instance: u64 = self.instances + 1;
            let handle = ConnectionHandle {
                instance,
                connected: true,
                device_id: self.pending_device_id.clone(),
                outbound: VecDeque::new(),
            };
            assert(handle@.queue =~= Seq::empty());
            self.connecting = false;
            self.instances = instance;
            self.handle = Some(handle);
            Some(instance)
        } else {
            None
        }
    }

    /// The pending connect has failed: the caller gets a transport error,
    /// and what was there before the connect stays as it was.
    pub fn connection_failed(&mut self) -> (r: ConnectionError)
        ensures
            final(self)@ == old(self)@.connect_failed(),
            r == ConnectionError::Transport,
    {
        self.connecting = false;
        ConnectionError::Transport
    }

    /// Check if the WebSocket is connected.
    pub fn is_connected(&self) -> (r: bool)
        ensures
            r == self@.is_connected(),
    {
        match &self.handle {
            Some(h) => h.connected,
            None => false,
        }
    }

    /// Where the connection stands.
    pub fn state(&self) -> (r: ConnectionState)
        ensures
            r == self@.state(),
    {
        if self.connecting {
            ConnectionState::Connecting
        } else if self.is_connected() {
            ConnectionState::Connected
        } else {
            ConnectionState::Disconnected
        }
    }

    /// The number of the connection established last, if any.
    pub fn current_instance(&self) -> (r: Option<u64>)
        ensures
            r == match self@.handle {
                Some(h) => Some(h.instance),
                None => None,
            },
    {
        match &self.handle {
            Some(h) => Some(h.instance),
            None => None,
        }
    }

    /// How many frames wait to be written.
    pub fn pending_frames(&self) -> (r: usize)
        ensures
            r == match self@.handle {
                Some(h) => h.queue.len(),
                None => 0,
            },
    {
        match &self.handle {
            Some(h) => h.outbound.len(),
            None => 0,
        }
    }

    fn push_frame(&mut self, frame: String)
        requires
            old(self)@.is_connected(),
        ensures
            final(self)@ == old(self)@.enqueued(frame@),
    {
        match self.handle.take() {
            Some(h) => {
                let mut h = h;
                h.outbound.push_back(frame);
                assert(h@.queue =~= old(self)@.handle.unwrap().queue.push(frame@));
                self.handle = Some(h);
            },
            None => {},
        }
    }

    /// Send a formatted message over the WebSocket: its wire form joins the
    /// queue of outbound frames. Fails where the connection is not live.
    pub fn send_message(&mut self, message: &WebSocketMessage) -> (r: Result<(), ConnectionError>)
        ensures
            final(self)@ == old(self)@.enqueued(message@.wire_text()),
            r == if old(self)@.is_connected() {
                Ok::<(), ConnectionError>(())
            } else {
                Err::<(), ConnectionError>(ConnectionError::NotConnected)
            },
    {
        if !self.is_connected() {
            return Err(ConnectionError::NotConnected);
        }
        let frame = message.encode();
        self.push_frame(frame);
        Ok(())
    }

    /// Send a data message over the WebSocket. `payload` is the JSON text of
    /// the data; the message gets a fresh random id and the current time.
    pub fn send_data(&mut self, device_id: &str, payload: &str) -> (r: Result<(), ConnectionError>)
        ensures
            r == sending_result(old(self)@, payload@),
            r is Err ==> final(self)@ == old(self)@,
            r is Ok ==> exists|id: Seq<char>, now: u64|
                is_message_id(id) && final(self)@ == old(self)@.enqueued(
                    #[trigger] local_message(
                        WebSocketMessageType::Data,
                        device_id@,
                        json_compact(payload@).unwrap(),
                        id,
                        now,
                    ).wire_text(),
                ),
    {
        let compact = match parse_compact(payload) {
            Some(c) => c,
            None => {
                return Err(ConnectionError::Payload);
            },
        };
        let id = generate_message_id();
        let now = unix_time_or_zero();
        let message = WebSocketMessage::data(device_id, compact, id, now);
        assert(message@ == local_message(
            WebSocketMessageType::Data,
            device_id@,
            json_compact(payload@).unwrap(),
            id@,
            now,
        ));
        self.send_message(&message)
    }

    /// Send a status update over the WebSocket. `status` is the JSON text of
    /// the status; the message gets a fresh random id and the current time.
    pub fn send_status(&mut self, device_id: &str, status: &str) -> (r: Result<(), ConnectionError>)
        ensures
            r == sending_result(old(self)@, status@),
            r is Err ==> final(self)@ == old(self)@,
            r is Ok ==> exists|id: Seq<char>, now: u64|
                is_message_id(id) && final(self)@ == old(self)@.enqueued(
                    #[trigger] local_message(
                        WebSocketMessageType::Status,
                        device_id@,
                        json_compact(status@).unwrap(),
                        id,
                        now,
                    ).wire_text(),
                ),
    {
        let compact = match parse_compact(status) {
            Some(c) => c,
            None => {
                return Err(ConnectionError::Payload);
            },
        };
        let id = generate_message_id();
        let now = unix_time_or_zero();
        let message = WebSocketMessage::status(device_id, compact, id, now);
        assert(message@ == local_message(
            WebSocketMessageType::Status,
            device_id@,
            json_compact(status@).unwrap(),
            id@,
            now,
        ));
        self.send_message(&message)
    }

    /// The receiver of connection `instance` has read the text frame `text`
    /// at `now`. A frame that does not decode is dropped; a command with an
    /// id is acknowledged under the same id, the acknowledgement joining the
    /// queue; any other message is only observed. A frame read on a
    /// connection that is no longer current or live changes nothing.
    pub fn handle_frame_at(&mut self, instance: u64, text: &str, now: u64) -> (r: Option<
        FrameOutcome,
    >)
        ensures
            final(self)@ == old(self)@.received(instance, text@, now),
            match r {
                Some(outcome) => old(self)@.instance_connected(instance) && outcome@
                    == frame_outcome(text@, old(self)@.handle.unwrap().device_id, now),
                None => !old(self)@.instance_connected(instance),
            },
    {
        let live = match &self.handle {
            Some(h) => h.instance == instance && h.connected,
            None => false,
        };
        if !live {
            return None;
        }
        let message = match WebSocketMessage::decode(text) {
            Ok(m) => m,
            Err(e) => {
                return Some(FrameOutcome::Dropped(e));
            },
        };
        let ack = match &self.handle {
            Some(h) => message.acknowledgement(h.device_id.as_str(), now),
            None => None,
        };
        match ack {
            Some(a) => {
                let frame = a.encode();
                let copy = frame.clone();
                self.push_frame(frame);
                Some(FrameOutcome::Acknowledged(copy))
            },
            None => Some(FrameOutcome::Observed(message.message_type)),
        }
    }

    /// The receiver of connection `instance` has read the text frame `text`
    /// now: `handle_frame_at` with the current time, and with 0 where the
    /// system clock stands before the epoch.
    pub fn handle_frame(&mut self, instance: u64, text: &str) -> (r: Option<FrameOutcome>)
        ensures
            exists|now: u64|
                {
                    &&& final(self)@ == #[trigger] old(self)@.received(instance, text@, now)
                    &&& match r {
                        Some(outcome) => old(self)@.instance_connected(instance) && outcome@
                            == frame_outcome(text@, old(self)@.handle.unwrap().device_id, now),
                        None => !old(self)@.instance_connected(instance),
                    }
                },
    {
        let now = unix_time_or_zero();
        self.handle_frame_at(instance, text, now)
    }

    /// The sender of connection `instance` asks for the next frame to write:
    /// the oldest in the queue, which leaves it. `None` where the queue is
    /// empty or that connection is no longer current and live.
    pub fn next_outbound(&mut self, instance: u64) -> (r: Option<String>)
        ensures
            final(self)@ == old(self)@.dequeued(instance),
            match r {
                Some(frame) => old(self)@.next_frame(instance) == Some(frame@),
                None => old(self)@.next_frame(instance) is None,
            },
    {
        match self.handle.take() {
            Some(h) => {
                let mut h = h;
                if h.instance == instance && h.connected {
                    let ghost before = h.outbound@;
                    let front = h.outbound.pop_front();
                    proof {
                        if before.len() > 0 {
                            assert(frames_view(before).drop_first() =~= frames_view(h.outbound@));
                        }
                    }
                    self.handle = Some(h);
                    front
                } else {
                    self.handle = Some(h);
                    None
                }
            },
            None => None,
        }
    }

    fn stop(&mut self, instance: u64)
        ensures
            final(self)@ == old(self)@.worker_stopped(instance),
    {
        match self.handle.take() {
            Some(h) => {
                let mut h = h;
                if h.instance == instance {
                    h.connected = false;
                }
                self.handle = Some(h);
            },
            None => {},
        }
    }

    /// The sender of connection `instance` could not write a frame: the
    /// flag of that connection goes down and the sender stops.
    pub fn send_failed(&mut self, instance: u64)
        ensures
            final(self)@ == old(self)@.worker_stopped(instance),
    {
        self.stop(instance)
    }

    /// The receiver of connection `instance` could not read, or the stream
    /// has ended: the flag of that connection goes down and the receiver
    /// stops.
    pub fn receive_ended(&mut self, instance: u64)
        ensures
            final(self)@ == old(self)@.worker_stopped(instance),
    {
        self.stop(instance)
    }

    /// Shuts the connection down: the flag goes down; the caller closes the
    /// transport, on which both workers stop.
    pub fn close(&mut self)
        ensures
            final(self)@ == old(self)@.closed(),
    {
        self.connecting = false;
        match self.handle.take() {
            Some(h) => {
                let mut h = h;
                h.connected = false;
                self.handle = Some(h);
            },
            None => {},
        }
    }

    /// A connect of a reconnection has failed: the wait in milliseconds
    /// before the next connect, or `ReconnectExhausted` once `max_attempts`
    /// connects have failed.
    pub fn reconnect_failed(schedule: &mut RetrySchedule) -> (r: Result<u64, ConnectionError>)
        ensures
            *final(schedule) == old(schedule).after_failure(),
            r == match old(schedule).step_on_failure() {
                RetryStep::RetryAfter(wait) => Ok::<u64, ConnectionError>(wait),
                RetryStep::GiveUp => Err::<u64, ConnectionError>(
                    ConnectionError::ReconnectExhausted,
                ),
            },
    {
        match schedule.failed() {
            RetryStep::RetryAfter(wait) => Ok(wait),
            RetryStep::GiveUp => Err(ConnectionError::ReconnectExhausted),
        }
    }

    /// Reconnect with exponential backoff: the schedule of at most
    /// `max_attempts` connects, the first at once, each later one after a
    /// wait that starts at one second and doubles. After each failed connect
    /// `reconnect_failed` says whether to wait and connect again or to give
    /// up. With no attempt allowed the reconnection fails at once.
    pub fn reconnect_with_backoff(&self, max_attempts: usize) -> (r: Result<
        RetrySchedule,
        ConnectionError,
    >)
        ensures
            r == if max_attempts == 0 {
                Err::<RetrySchedule, ConnectionError>(ConnectionError::ReconnectExhausted)
            } else {
                Ok::<RetrySchedule, ConnectionError>(
                    RetrySchedule::fresh(max_attempts, RECONNECT_INITIAL_DELAY_MS),
                )
            },
    {
        if max_attempts == 0 {
            Err(ConnectionError::ReconnectExhausted)
        } else {
            Ok(RetrySchedule::new(max_attempts, RECONNECT_INITIAL_DELAY_MS))
        }
    }
}

/// A command that carries an id is answered by exactly one frame: the
/// acknowledgement with the same id, the device of the connection and the
/// time of receipt, at the back of the queue.
pub proof fn lemma_command_is_acknowledged_once(
    s: ConnectionModel,
    instance: u64,
    text: Seq<char>,
    now: u64,
)
    requires
        s.instance_connected(instance),
        decode_text(text) matches Ok(m) && m.message_type == WebSocketMessageType::Command
            && m.id is Some,
    ensures
        s.received(instance, text, now).handle.unwrap().queue == s.handle.unwrap().queue.push(
            (MessageView {
                message_type: WebSocketMessageType::Acknowledgement,
                device_id: s.handle.unwrap().device_id,
                payload: ack_payload(),
                id: decode_text(text).unwrap().id,
                timestamp: now,
            }).wire_text(),
        ),
        s.received(instance, text, now).is_connected(),
{
}

/// A frame that does not decode is dropped: it changes nothing, and the
/// connection stays as live as it was.
pub proof fn lemma_malformed_frame_changes_nothing(
    s: ConnectionModel,
    instance: u64,
    text: Seq<char>,
    now: u64,
)
    requires
        decode_text(text) is Err,
    ensures
        s.received(instance, text, now) == s,
{
}

/// After a worker of the current connection has stopped on a failure,
/// sending is refused with `NotConnected`, and nothing joins the queue.
pub proof fn lemma_send_after_stop_is_refused(
    s: ConnectionModel,
    instance: u64,
    payload: Seq<char>,
    frame: Seq<char>,
)
    requires
        s.handle matches Some(h) && h.instance == instance,
        json_compact(payload) is Some,
    ensures
        sending_result(s.worker_stopped(instance), payload) == Err::<(), ConnectionError>(
            ConnectionError::NotConnected,
        ),
        s.worker_stopped(instance).enqueued(frame) == s.worker_stopped(instance),
{
}

/// Once the flag of a connection is down it stays down, whatever happens:
/// no sequence of events makes connection `instance` live again. Where the
/// connection as a whole is live again afterwards, a connect has established
/// a new connection with a higher number.
pub proof fn lemma_flag_stays_down(s: ConnectionModel, instance: u64, events: Seq<ConnectionEvent>)
    requires
        s.wf(),
        instance <= s.instances,
        !s.instance_connected(instance),
    ensures
        s.run(events).wf(),
        s.run(events).instances >= s.instances,
        !s.run(events).instance_connected(instance),
        !s.is_connected() && s.run(events).is_connected() ==> s.run(events).handle.unwrap().instance
            > s.instances,
    decreases events.len(),
{
    if events.len() > 0 {
        lemma_flag_stays_down(s, instance, events.drop_last());
    }
    lemma_connected_is_new_or_old(s, events);
}

/// After any sequence of events, a live current connection is either the
/// one that was current and live at the start, or a newer one.
pub proof fn lemma_connected_is_new_or_old(s: ConnectionModel, events: Seq<ConnectionEvent>)
    requires
        s.wf(),
    ensures
        s.run(events).wf(),
        s.run(events).instances >= s.instances,
        s.run(events).is_connected() ==> s.run(events).handle.unwrap().instance > s.instances
            || s.instance_connected(s.run(events).handle.unwrap().instance),
    decreases events.len(),
{
    if events.len() > 0 {
        lemma_connected_is_new_or_old(s, events.drop_last());
    }
}

} // verus!
