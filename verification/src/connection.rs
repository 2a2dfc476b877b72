//! The protocol of one session, as a state machine.
//!
//! The machine never touches a socket. Whoever owns the socket asks the
//! machine what to do, does it, and reports what came of it: a `Step` tells
//! the owner to read a frame, to write one, to hand an event to the
//! application or to close; an `Incoming` tells the machine what a read
//! brought.

use vstd::prelude::*;
use vstd::string::*;
use crate::correlation::{uuid_from_str, uuid_text, uuid_to_string, uuid_value_of};
use crate::json::{json_text_of, json_value_of};
use crate::query::ConnectionDetails;
use crate::socket_message::{
    built_text, message_of, parse_spec, MessageView, SocketMessage, SocketMessageBuilder,
};

verus! {

/// What a session tells the application.
#[derive(Debug)]
pub enum Event {
    /// The session is open; comes once, before anything else.
    Connect(ConnectionDetails),
    /// The client sent a value.
    Update(serde_json::Value),
}

/// What a read on the socket brought.
#[derive(Debug)]
pub enum Incoming {
    /// A text frame.
    Text(String),
    /// A ping.
    Ping,
    /// A pong.
    Pong,
    /// The peer's close frame.
    Close,
    /// A frame of any other kind.
    Other,
    /// The read failed.
    Failed,
    /// The stream is at its end.
    Finished,
}

/// What the owner of the socket is to do next.
#[derive(Debug)]
pub enum Step {
    /// Read a frame and hand it to `receive`.
    Read,
    /// Write this text frame, whether or not that succeeds, then read.
    Write(String),
    /// Hand this event to the application.
    Deliver(Event),
    /// Send a close frame with the code for a normal closure and this
    /// reason, whether or not that succeeds, and report that the session
    /// is over.
    Close(String),
    /// Report that the session is over.
    Ended,
}

/// A step, with its texts as sequences of characters.
pub enum StepView {
    Read,
    Write(Seq<char>),
    Deliver(Event),
    Close(Seq<char>),
    Ended,
}

impl View for Step {
    type V = StepView;

    open spec fn view(&self) -> StepView {
        match *self {
            Step::Read => StepView::Read,
            Step::Write(frame) => StepView::Write(frame@),
            Step::Deliver(event) => StepView::Deliver(event),
            Step::Close(reason) => StepView::Close(reason@),
            Step::Ended => StepView::Ended,
        }
    }
}

/// Where a session is in its life.
#[derive(Debug)]
pub enum Phase {
    /// The application has not been told of the session yet.
    AwaitingConnectDelivery(ConnectionDetails),
    /// Frames are read and values are sent.
    Active,
    /// The session is over, for good.
    Ended,
}

/// What the context of an `event` message says of the correlation
/// identifier.
#[derive(Debug, Clone, Copy, PartialEq, Eq, Structural)]
pub enum Correlation {
    /// There is no context.
    Absent,
    /// The context is this identifier.
    Id(u128),
    /// There is a context and it is no identifier.
    Malformed,
}

/// The reason given when nothing arrived in time.
pub open spec fn inactivity_reason() -> Seq<char> {
    "Connection closed due to inactivity. When another operation is necessary, reconnect"@
}

/// The reason given for a frame that is neither text nor ping, pong or
/// close.
pub open spec fn invalid_frame_reason() -> Seq<char> {
    "Received invalid message"@
}

/// The reason given when a read fails.
pub open spec fn failed_read_reason() -> Seq<char> {
    "Error parsing incoming message"@
}

/// The reason given for a text that is no message.
pub open spec fn unparsable_reason() -> Seq<char> {
    "Failed to parse socket message"@
}

/// The reason given for an event whose context is no identifier.
pub open spec fn malformed_correlation_reason() -> Seq<char> {
    "Expected to receive a valid UUID a context to 'event' message"@
}

/// The reason given for an event without a JSON body.
pub open spec fn missing_body_reason() -> Seq<char> {
    "Expected to receive JSON body with 'event' message"@
}

/// The reason given for a message that is neither `sync` nor `event`.
pub open spec fn invalid_prefix_reason(prefix: Seq<char>) -> Seq<char> {
    "Invalid message prefix: "@ + prefix + ". Expected 'sync' or 'event'"@
}

/// What the context of a message says of the correlation identifier.
pub open spec fn correlation_of(context: Option<Seq<char>>) -> Correlation {
    match context {
        Some(text) => match uuid_value_of(text) {
            Some(id) => Correlation::Id(id),
            None => Correlation::Malformed,
        },
        None => Correlation::Absent,
    }
}

/// The JSON value of a message's body, where it has a body that is JSON.
pub open spec fn body_value_of(body: Option<Seq<char>>) -> Option<serde_json::Value> {
    match body {
        Some(text) => json_value_of(text),
        None => None,
    }
}

/// The state of a session.
pub struct SessionState {
    /// Where the session is in its life.
    pub phase: Phase,
    /// The value that was sent last, if any was.
    pub last_value: Option<serde_json::Value>,
    /// The identifier that the last event carried, if it carried one.
    pub correlation_id: Option<u128>,
}

impl SessionState {
    /// The state of a session that has just been opened.
    pub open spec fn fresh(details: ConnectionDetails) -> SessionState {
        SessionState {
            phase: Phase::AwaitingConnectDelivery(details),
            last_value: None,
            correlation_id: None,
        }
    }

    /// Frames are read in this state.
    pub open spec fn is_active(self) -> bool {
        self.phase is Active
    }

    /// The session is over in this state.
    pub open spec fn is_ended(self) -> bool {
        self.phase is Ended
    }

    /// This state, with the session over.
    pub open spec fn ended(self) -> SessionState {
        SessionState { phase: Phase::Ended, ..self }
    }

    /// The context of the frames that are sent in this state: the
    /// correlation identifier's text, or nothing.
    pub open spec fn context_text(self) -> Seq<char> {
        match self.correlation_id {
            Some(id) => uuid_text(id),
            None => Seq::empty(),
        }
    }

    /// The frame that carries a value to the client in this state.
    pub open spec fn model_frame(self, value: serde_json::Value) -> Seq<char> {
        built_text("model"@, Some(self.context_text()), Some(json_text_of(value)))
    }

    /// The start of a read: a session that was not announced yet is
    /// announced, and any other reads a frame.
    pub open spec fn begin(self) -> (SessionState, StepView) {
        match self.phase {
            Phase::AwaitingConnectDelivery(details) => (
                SessionState { phase: Phase::Active, ..self },
                StepView::Deliver(Event::Connect(details)),
            ),
            Phase::Active => (self, StepView::Read),
            Phase::Ended => (self, StepView::Ended),
        }
    }

    /// A value is sent: it goes out in a `model` frame and is kept.
    pub open spec fn send(self, value: serde_json::Value) -> (SessionState, Seq<char>) {
        (SessionState { last_value: Some(value), ..self }, self.model_frame(value))
    }

    /// The session is closed with a reason.
    pub open spec fn close(self, reason: Seq<char>) -> (SessionState, StepView) {
        (self.ended(), StepView::Close(reason))
    }

    /// Nothing arrived in time.
    pub open spec fn timed_out(self) -> (SessionState, StepView) {
        self.close(inactivity_reason())
    }

    /// A `sync` message arrived: the value that was sent last goes out
    /// again, if there is one.
    pub open spec fn resend(self) -> (SessionState, StepView) {
        match self.last_value {
            Some(value) => (self, StepView::Write(self.model_frame(value))),
            None => (self, StepView::Read),
        }
    }

    /// An `event` message arrived, with this to say of the correlation
    /// identifier and this JSON body.
    pub open spec fn receive_event(
        self,
        correlation: Correlation,
        body: Option<serde_json::Value>,
    ) -> (SessionState, StepView) {
        match correlation {
            Correlation::Malformed => self.close(malformed_correlation_reason()),
            _ => {
                let next = SessionState {
                    correlation_id: match correlation {
                        Correlation::Id(id) => Some(id),
                        _ => None,
                    },
                    ..self
                };
                match body {
                    Some(value) => (next, StepView::Deliver(Event::Update(value))),
                    None => next.close(missing_body_reason()),
                }
            },
        }
    }

    /// A message arrived.
    pub open spec fn receive_message(self, message: MessageView) -> (SessionState, StepView) {
        if message.prefix == "sync"@ {
            self.resend()
        } else if message.prefix == "event"@ {
            self.receive_event(correlation_of(message.context), body_value_of(message.body))
        } else {
            self.close(invalid_prefix_reason(message.prefix))
        }
    }

    /// A text frame arrived.
    pub open spec fn receive_text(self, text: Seq<char>) -> (SessionState, StepView) {
        match parse_spec(text) {
            Ok(layout) => self.receive_message(message_of(text, layout)),
            Err(_) => self.close(unparsable_reason()),
        }
    }

    /// A read brought this.
    pub open spec fn receive(self, incoming: Incoming) -> (SessionState, StepView) {
        match incoming {
            Incoming::Text(text) => self.receive_text(text@),
            Incoming::Ping | Incoming::Pong => (self, StepView::Read),
            Incoming::Close | Incoming::Finished => (self.ended(), StepView::Ended),
            Incoming::Other => self.close(invalid_frame_reason()),
            Incoming::Failed => self.close(failed_read_reason()),
        }
    }
}

/// One session: what the protocol has to remember of it.
#[derive(Debug)]
pub struct Connection {
    phase: Phase,
    last_value: Option<serde_json::Value>,
    client_pin: Option<u128>,
}

impl View for Connection {
    type V = SessionState;

    closed spec fn view(&self) -> SessionState {
        SessionState {
            phase: self.phase,
            last_value: self.last_value,
            correlation_id: self.client_pin,
        }
    }
}

impl Connection {
    /// A session that has just been opened by a request with these
    /// details.
    pub fn new(details: ConnectionDetails) -> (connection: Connection)
        ensures
            connection@ == SessionState::fresh(details),
    {
        Connection {
            phase: Phase::AwaitingConnectDelivery(details),
            last_value: None,
            client_pin: None,
        }
    }

    /// Whether frames are read in this state.
    pub fn is_active(&self) -> (active: bool)
        ensures
            active == self@.is_active(),
    {
        match &self.phase {
            Phase::Active => true,
            _ => false,
        }
    }

    /// Whether the session is over.
    pub fn is_ended(&self) -> (ended: bool)
        ensures
            ended == self@.is_ended(),
    {
        match &self.phase {
            Phase::Ended => true,
            _ => false,
        }
    }

    /// Starts a read. The first time it announces the session, without a
    /// frame being read; from then on it asks for a frame.
    pub fn next_socket_event(&mut self) -> (step: Step)
        requires
            !old(self)@.is_ended(),
        ensures
            (final(self)@, step@) == old(self)@.begin(),
    {
        let mut phase = Phase::Active;
        core::mem::swap(&mut self.phase, &mut phase);
        match phase {
            Phase::AwaitingConnectDelivery(details) => Step::Deliver(Event::Connect(details)),
            _ => Step::Read,
        }
    }

    /// Takes what a read brought and says what follows from it.
    pub fn receive(&mut self, incoming: Incoming) -> (step: Step)
        requires
            old(self)@.is_active(),
        ensures
            (final(self)@, step@) == old(self)@.receive(incoming),
    {
        match incoming {
            Incoming::Text(text) => match SocketMessage::parse_owned(text) {
                Ok(message) => self.receive_message(&message),
                Err(_) => self.close("Failed to parse socket message"),
            },
            Incoming::Ping | Incoming::Pong => Step::Read,
            Incoming::Close | Incoming::Finished => {
                self.phase = Phase::Ended;
                Step::Ended
            },
            Incoming::Other => self.close("Received invalid message"),
            Incoming::Failed => self.close("Error parsing incoming message"),
        }
    }

    /// Takes a message that arrived and says what follows from it.
    pub fn receive_message(&mut self, message: &SocketMessage) -> (step: Step)
        requires
            old(self)@.is_active(),
        ensures
            (final(self)@, step@) == old(self)@.receive_message(message@),
    {
        let prefix = message.get_prefix();
        if *prefix == *"sync" {
            self.resend()
        } else if *prefix == *"event" {
            let correlation = match message.get_context() {
                Some(context) => match uuid_from_str(context) {
                    Some(id) => Correlation::Id(id),
                    None => Correlation::Malformed,
                },
                None => Correlation::Absent,
            };
            match correlation {
                Correlation::Malformed => self.receive_event(correlation, None),
                _ => self.receive_event(correlation, message.get_body()),
            }
        } else {
            let reason = String::from_str("Invalid message prefix: ").concat(prefix).concat(
                ". Expected 'sync' or 'event'",
            );
            self.close(reason.as_str())
        }
    }

    /// Takes an `event` message by what it says of the correlation
    /// identifier and by its JSON body. The identifier replaces the
    /// session's, and the body becomes an update; a context that is no
    /// identifier, or a missing body, ends the session.
    pub fn receive_event(&mut self, correlation: Correlation, body: Option<serde_json::Value>) -> (step:
        Step)
        requires
            old(self)@.is_active(),
        ensures
            (final(self)@, step@) == old(self)@.receive_event(correlation, body),
    {
        match correlation {
            Correlation::Malformed => self.close(
                "Expected to receive a valid UUID a context to 'event' message",
            ),
            Correlation::Id(id) => {
                self.client_pin = Some(id);
                self.deliver_update(body)
            },
            Correlation::Absent => {
                self.client_pin = None;
                self.deliver_update(body)
            },
        }
    }

    /// Makes an update of an event's body, or ends the session for want of
    /// one.
    fn deliver_update(&mut self, body: Option<serde_json::Value>) -> (step: Step)
        requires
            old(self)@.is_active(),
        ensures
            (final(self)@, step@) == match body {
                Some(value) => (old(self)@, StepView::Deliver(Event::Update(value))),
                None => old(self)@.close(missing_body_reason()),
            },
    {
        match body {
            Some(value) => Step::Deliver(Event::Update(value)),
            None => self.close("Expected to receive JSON body with 'event' message"),
        }
    }

    /// Answers a `sync` message: the frame of the value that was sent last,
    /// where one was sent.
    fn resend(&mut self) -> (step: Step)
        requires
            old(self)@.is_active(),
        ensures
            (final(self)@, step@) == old(self)@.resend(),
    {
        match self.last_value.take() {
            Some(value) => Step::Write(self.send(value)),
            None => Step::Read,
        }
    }

    /// Takes a value for the client. It answers with the text frame to
    /// write: a `model` message whose context is the correlation
    /// identifier, or empty without one, and whose body is the value. The
    /// value is kept for a later `sync`.
    pub fn send(&mut self, state: serde_json::Value) -> (frame: String)
        requires
            !old(self)@.is_ended(),
        ensures
            (final(self)@, frame@) == old(self)@.send(state),
    {
        let pin_string = match self.client_pin {
            Some(pin) => uuid_to_string(pin),
            None => String::new(),
        };
        let built = SocketMessageBuilder::new("model").context(pin_string.as_str()).body(
            &state,
        ).build_string();
        let frame = match built {
            Ok(frame) => frame,
            Err(_) => vstd::pervasive::unreached(),
        };
        self.last_value = Some(state);
        frame
    }

    /// Ends the session and answers with the step that closes the socket
    /// with this reason.
    pub fn close(&mut self, reason: &str) -> (step: Step)
        requires
            !old(self)@.is_ended(),
        ensures
            (final(self)@, step@) == old(self)@.close(reason@),
    {
        self.phase = Phase::Ended;
        Step::Close(String::from_str(reason))
    }

    /// Ends the session because nothing arrived in time.
    pub fn timed_out(&mut self) -> (step: Step)
        requires
            old(self)@.is_active(),
        ensures
            (final(self)@, step@) == old(self)@.timed_out(),
    {
        self.close("Connection closed due to inactivity. When another operation is necessary, reconnect")
    }
}

} // verus!
