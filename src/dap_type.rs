//! The kind level of a message: requests, events and responses.
use serde_json::Value;
use vstd::prelude::*;

use crate::header::same_text;
use crate::json::{
    found_or_none, optional, optional_ok, read_bool, read_string, read_u64, read_value, required, slot_bool,
    slot_str, slot_u64, slot_value, to_usize, Slot,
};
use crate::request::{command_of, command_spec, known_ok, known_read, CommandKind, KnownRequest};
use crate::Error;

verus! {

/// The kinds of message that this library reads further.
pub enum MessageKind {
    Request,
    Event,
    Response,
}

/// The kind of a message whose `type` is `t`, if this library knows it.
pub open spec fn kind_spec(t: Seq<char>) -> Option<MessageKind> {
    if t == seq!['r', 'e', 'q', 'u', 'e', 's', 't'] {
        Some(MessageKind::Request)
    } else if t == seq!['e', 'v', 'e', 'n', 't'] {
        Some(MessageKind::Event)
    } else if t == seq!['r', 'e', 's', 'p', 'o', 'n', 's', 'e'] {
        Some(MessageKind::Response)
    } else {
        None
    }
}

/// The kind of a message whose `type` is `t`, if this library knows it.
pub fn kind_of(t: &str) -> (r: Option<MessageKind>)
    ensures
        r == kind_spec(t@),
{
    proof {
        reveal_strlit("request");
    }
    assert("request"@ =~= seq!['r', 'e', 'q', 'u', 'e', 's', 't']);
    if same_text(t, "request") {
        return Some(MessageKind::Request);
    }
    proof {
        reveal_strlit("event");
    }
    assert("event"@ =~= seq!['e', 'v', 'e', 'n', 't']);
    if same_text(t, "event") {
        return Some(MessageKind::Event);
    }
    proof {
        reveal_strlit("response");
    }
    assert("response"@ =~= seq!['r', 'e', 's', 'p', 'o', 'n', 's', 'e']);
    if same_text(t, "response") {
        return Some(MessageKind::Response);
    }
    None
}

/// The arguments of a request body `v`: its member `arguments`, unless it is
/// missing or `null`.
pub open spec fn request_args(v: Value) -> Option<Value> {
    match slot_value(v, "arguments"@) {
        Slot::Found(a) => Some(a),
        _ => None,
    }
}

/// Whether the body `v` has the members of a request: `command` a string,
/// `arguments` of any type, missing or `null`.
pub open spec fn request_kind_ok(v: Value) -> bool {
    slot_str(v, "command"@) is Found && optional_ok(slot_value(v, "arguments"@))
}

/// Whether the body `v` reads as a request, down to the arguments of a
/// known command.
pub open spec fn request_ok(v: Value) -> bool {
    &&& request_kind_ok(v)
    &&& match command_spec(slot_str(v, "command"@)->Found_0) {
        None => true,
        Some(k) => known_ok(k, request_args(v)),
    }
}

/// Whether the body `v` has the members of an event.
pub open spec fn event_ok(v: Value) -> bool {
    slot_str(v, "event"@) is Found && optional_ok(slot_value(v, "body"@))
}

/// Whether the body `v` has the members of a response.
pub open spec fn response_ok(v: Value) -> bool {
    &&& slot_u64(v, "request_seq"@) is Found
    &&& slot_u64(v, "request_seq"@)->Found_0 <= usize::MAX
    &&& slot_bool(v, "success"@) is Found
    &&& slot_str(v, "command"@) is Found
    &&& optional_ok(slot_str(v, "message"@))
    &&& optional_ok(slot_value(v, "body"@))
}

/// Whether the body `v` reads as a message of kind `kind`.
pub open spec fn kind_ok(kind: MessageKind, v: Value) -> bool {
    match kind {
        MessageKind::Request => request_ok(v),
        MessageKind::Event => event_ok(v),
        MessageKind::Response => response_ok(v),
    }
}

/// `m` holds what the body `v`, whose sequence number is `seq`, says at the
/// kind level, and at the command level for a request of a known command.
pub open spec fn kind_read(v: Value, seq: usize, m: Message) -> bool {
    match m {
        Message::Request(q) => {
            &&& q.spec_seq() == seq
            &&& q.spec_command() == slot_str(v, "command"@)->Found_0
            &&& q.spec_arguments() == request_args(v)
            &&& q.known_kind() == command_spec(q.spec_command())
            &&& q.spec_known() is Some ==> known_read(q.spec_arguments(), q.spec_known()->Some_0)
        },
        Message::Event(e) => {
            &&& e.spec_seq() == seq
            &&& e.spec_event() == slot_str(v, "event"@)->Found_0
            &&& e.spec_body() == found_or_none(slot_value(v, "body"@))
        },
        Message::Response(q) => {
            &&& q.spec_seq() == seq
            &&& q.spec_request_seq() == slot_u64(v, "request_seq"@)->Found_0
            &&& q.spec_success() == slot_bool(v, "success"@)->Found_0
            &&& q.spec_command() == slot_str(v, "command"@)->Found_0
            &&& q.spec_message() == found_or_none(slot_str(v, "message"@))
        },
    }
}

/// A dap protocol message, read as far as its kind.
pub enum Message {
    Request(Request),
    Event(Event),
    Response(Response),
}

impl Message {
    pub open spec fn kind(&self) -> MessageKind {
        match self {
            Message::Request(_) => MessageKind::Request,
            Message::Event(_) => MessageKind::Event,
            Message::Response(_) => MessageKind::Response,
        }
    }

    pub open spec fn spec_seq(&self) -> usize {
        match self {
            Message::Request(r) => r.spec_seq(),
            Message::Event(e) => e.spec_seq(),
            Message::Response(r) => r.spec_seq(),
        }
    }

    /// Reads the members that a message of kind `kind` must have, out of
    /// the body `v` whose sequence number is `seq`.
    pub fn from_json(kind: MessageKind, v: &Value, seq: usize) -> (r: Result<Message, Error>)
        ensures
            r is Ok <==> kind_ok(kind, *v),
            r matches Ok(m) ==> m.kind() == kind && m.spec_seq() == seq && kind_read(*v, seq, m),
            r is Err ==> r->Err_0 is InvalidMessage,
    {
        match kind {
            MessageKind::Request => match Request::from_json(v, seq) {
                Ok(r) => Ok(Message::Request(r)),
                Err(e) => Err(e),
            },
            MessageKind::Event => match Event::from_json(v, seq) {
                Ok(e) => Ok(Message::Event(e)),
                Err(e) => Err(e),
            },
            MessageKind::Response => match Response::from_json(v, seq) {
                Ok(r) => Ok(Message::Response(r)),
                Err(e) => Err(e),
            },
        }
    }

    /// Sequence number (also known as message ID).
    pub fn seq(&self) -> (r: usize)
        ensures
            r == self.spec_seq(),
    {
        match self {
            Message::Request(r) => r.seq(),
            Message::Event(e) => e.seq(),
            Message::Response(r) => r.seq(),
        }
    }
}

/// A client or debug adapter initiated request.
pub struct Request {
    /// Sequence number (also known as message ID). For protocol messages of type
    /// 'request' this ID can be used to cancel the request.
    seq: usize,
    /// The command to execute.
    command: String,
    /// Object containing arguments for the command, as it was received.
    arguments: Option<Value>,
    /// The arguments read, when the command is one that this library knows.
    known: Option<KnownRequest>,
}

impl Request {
    pub closed spec fn spec_seq(&self) -> usize {
        self.seq
    }

    pub closed spec fn spec_command(&self) -> Seq<char> {
        self.command@
    }

    pub closed spec fn spec_known(&self) -> Option<KnownRequest> {
        self.known
    }

    /// The command whose arguments were read, if they were.
    pub open spec fn known_kind(&self) -> Option<CommandKind> {
        match self.spec_known() {
            Some(kr) => Some(kr.kind()),
            None => None,
        }
    }

    pub closed spec fn spec_has_arguments(&self) -> bool {
        self.arguments is Some
    }

    pub closed spec fn spec_arguments(&self) -> Option<Value> {
        self.arguments
    }

    /// Reads a request out of the body `v`, as far as its kind: `command`
    /// is required, `arguments` may be missing. The arguments are not read
    /// further.
    pub fn read(v: &Value, seq: usize) -> (r: Result<Request, Error>)
        ensures
            r is Ok <==> request_kind_ok(*v),
            r matches Ok(q) ==> q.spec_seq() == seq && q.spec_known() is None && q.spec_command()
                == slot_str(*v, "command"@)->Found_0 && q.spec_arguments() == request_args(*v),
            r is Err ==> r->Err_0 is InvalidMessage,
    {
        Request::from_slots(seq, read_string(v, "command"), read_value(v, "arguments"))
    }

    /// A request at the kind level, from its members as they were read:
    /// `command` must be a string, `arguments` may be missing or `null`.
    pub fn from_slots(seq: usize, command: Slot<String>, arguments: Slot<Value>) -> (r: Result<
        Request,
        Error,
    >)
        ensures
            r is Ok <==> (command is Found && !(arguments is Mismatch)),
            r matches Ok(q) ==> q.spec_seq() == seq && q.spec_command() == command->Found_0@
                && q.spec_known() is None && q.spec_arguments() == match arguments {
                Slot::Found(a) => Some(a),
                _ => None,
            },
            r is Err ==> r->Err_0 is InvalidMessage,
    {
        let command = required(command)?;
        let arguments = optional(arguments)?;
        Ok(Request { seq, command, arguments, known: None })
    }

    /// Reads the arguments further when the command is one that this library
    /// knows; a known command whose arguments do not have the expected shape
    /// makes the message invalid. A request with another command is kept as
    /// it is.
    pub fn specialize(self) -> (r: Result<Request, Error>)
        ensures
            command_spec(self.spec_command()) is None ==> (r matches Ok(q) && q.spec_seq()
                == self.spec_seq() && q.spec_command() == self.spec_command() && q.spec_known()
                is None),
            r is Ok <==> match command_spec(self.spec_command()) {
                None => true,
                Some(k) => known_ok(k, self.spec_arguments()),
            },
            r matches Ok(q) ==> q.spec_arguments() == self.spec_arguments() && (q.spec_known() is Some
                ==> known_read(q.spec_arguments(), q.spec_known()->Some_0)),
            match command_spec(self.spec_command()) {
                None => true,
                Some(k) => (r matches Ok(q) ==> q.spec_seq() == self.spec_seq()
                    && q.spec_command() == self.spec_command() && q.known_kind() == Some(k))
                    && (r is Err ==> r->Err_0 is InvalidMessage) && (k
                    is Initialize && !self.spec_has_arguments() ==> r is Err) && (k
                    is ConfigurationDone ==> r is Ok) && ((k is Disconnect || k is Terminate)
                    && !self.spec_has_arguments() ==> r is Ok),
            },
    {
        match command_of(self.command.as_str()) {
            None => Ok(Request { known: None, ..self }),
            Some(kind) => match KnownRequest::from_arguments(kind, &self.arguments) {
                Ok(k) => Ok(Request { known: Some(k), ..self }),
                Err(e) => Err(e),
            },
        }
    }

    /// Reads a request out of the body `v`, and its arguments further when
    /// its command is known.
    pub fn from_json(v: &Value, seq: usize) -> (r: Result<Request, Error>)
        ensures
            r is Ok <==> request_ok(*v),
            r matches Ok(q) ==> q.spec_seq() == seq && q.spec_command() == slot_str(
                *v,
                "command"@,
            )->Found_0 && q.spec_arguments() == request_args(*v) && q.known_kind()
                == command_spec(q.spec_command()) && (q.spec_known() is Some ==> known_read(
                q.spec_arguments(),
                q.spec_known()->Some_0,
            )),
            r is Err ==> r->Err_0 is InvalidMessage,
    {
        let q = Request::read(v, seq)?;
        q.specialize()
    }

    pub fn seq(&self) -> (r: usize)
        ensures
            r == self.spec_seq(),
    {
        self.seq
    }

    /// The command to execute.
    pub fn command(&self) -> (r: &str)
        ensures
            r@ == self.spec_command(),
    {
        self.command.as_str()
    }

    /// The arguments of the command, as they were received.
    pub fn arguments(&self) -> (r: Option<&Value>)
        ensures
            match self.spec_arguments() {
                Some(a) => r is Some && *r->Some_0 == a,
                None => r is None,
            },
    {
        self.arguments.as_ref()
    }

    /// The arguments read, when the command is one that this library knows.
    pub fn known(&self) -> (r: Option<&KnownRequest>)
        ensures
            match self.spec_known() {
                Some(k) => r is Some && *r->Some_0 == k,
                None => r is None,
            },
    {
        self.known.as_ref()
    }
}

/// A debug adapter initiated event.
pub struct Event {
    /// Sequence number (also known as message ID).
    seq: usize,
    /// Type of event.
    event: String,
    /// Event-specific information, as it was received.
    body: Option<Value>,
}

impl Event {
    pub closed spec fn spec_seq(&self) -> usize {
        self.seq
    }

    /// Reads an event out of the body `v`: `event` is required, `body` may
    /// be missing.
    pub fn from_json(v: &Value, seq: usize) -> (r: Result<Event, Error>)
        ensures
            r is Ok <==> event_ok(*v),
            r matches Ok(e) ==> e.spec_seq() == seq && e.spec_event() == slot_str(*v, "event"@)->Found_0
                && e.spec_body() == match slot_value(*v, "body"@) {
                Slot::Found(b) => Some(b),
                _ => None,
            },
            r is Err ==> r->Err_0 is InvalidMessage,
    {
        Event::from_slots(seq, read_string(v, "event"), read_value(v, "body"))
    }

    pub closed spec fn spec_event(&self) -> Seq<char> {
        self.event@
    }

    pub closed spec fn spec_body(&self) -> Option<Value> {
        self.body
    }

    /// An event from its members as they were read: `event` must be a
    /// string, `body` may be missing or `null`.
    pub fn from_slots(seq: usize, event: Slot<String>, body: Slot<Value>) -> (r: Result<
        Event,
        Error,
    >)
        ensures
            r is Ok <==> (event is Found && !(body is Mismatch)),
            r matches Ok(e) ==> e.spec_seq() == seq && e.spec_event() == event->Found_0@
                && e.spec_body() == match body {
                Slot::Found(b) => Some(b),
                _ => None,
            },
            r is Err ==> r->Err_0 is InvalidMessage,
    {
        let event = required(event)?;
        let body = optional(body)?;
        Ok(Event { seq, event, body })
    }

    pub fn seq(&self) -> (r: usize)
        ensures
            r == self.spec_seq(),
    {
        self.seq
    }

    /// Type of event.
    pub fn event(&self) -> (r: &str)
        ensures
            r@ == self.spec_event(),
    {
        self.event.as_str()
    }

    pub fn body(&self) -> (r: Option<&Value>)
        ensures
            match self.spec_body() {
                Some(b) => r is Some && *r->Some_0 == b,
                None => r is None,
            },
    {
        self.body.as_ref()
    }
}

/// Response for a request.
pub struct Response {
    /// Sequence number (also known as message ID).
    seq: usize,
    /// Sequence number of the corresponding request.
    request_seq: usize,
    /// Outcome of the request.
    /// If true, the request was successful and the 'body' attribute may contain
    /// the result of the request.
    /// If the value is false, the attribute 'message' contains the error in short
    /// form and the 'body' may contain additional information (see
    /// 'ErrorResponse.body.error').
    success: bool,
    /// The command requested.
    command: String,
    /// Contains the raw error in short form if 'success' is false.
    /// This raw error might be interpreted by the frontend and is not shown in the
    /// UI.
    /// Some predefined values exist.
    /// Values:
    /// 'cancelled': request was cancelled.
    /// etc.
    message: Option<String>,
    /// The result of the request, as it was received.
    body: Option<Value>,
}

impl Response {
    pub closed spec fn spec_seq(&self) -> usize {
        self.seq
    }

    /// Reads a response out of the body `v`: `request_seq`, `success` and
    /// `command` are required; `message` and `body` may be missing.
    pub fn from_json(v: &Value, seq: usize) -> (r: Result<Response, Error>)
        ensures
            r is Ok <==> response_ok(*v),
            r matches Ok(q) ==> q.spec_seq() == seq && q.spec_request_seq() == slot_u64(
                *v,
                "request_seq"@,
            )->Found_0 && q.spec_success() == slot_bool(*v, "success"@)->Found_0
                && q.spec_command() == slot_str(*v, "command"@)->Found_0 && q.spec_message()
                == match slot_str(*v, "message"@) {
                Slot::Found(m) => Some(m),
                _ => None,
            },
            r is Err ==> r->Err_0 is InvalidMessage,
    {
        Response::from_slots(
            seq,
            read_u64(v, "request_seq"),
            read_bool(v, "success"),
            read_string(v, "command"),
            read_string(v, "message"),
            read_value(v, "body"),
        )
    }

    pub closed spec fn spec_request_seq(&self) -> usize {
        self.request_seq
    }

    pub closed spec fn spec_success(&self) -> bool {
        self.success
    }

    pub closed spec fn spec_command(&self) -> Seq<char> {
        self.command@
    }

    pub closed spec fn spec_message(&self) -> Option<Seq<char>> {
        match self.message {
            Some(m) => Some(m@),
            None => None,
        }
    }

    /// A response from its members as they were read: `request_seq` must be
    /// an unsigned integer that fits in a `usize`, `success` a boolean and
    /// `command` a string; `message` and `body` may be missing or `null`.
    pub fn from_slots(
        seq: usize,
        request_seq: Slot<u64>,
        success: Slot<bool>,
        command: Slot<String>,
        message: Slot<String>,
        body: Slot<Value>,
    ) -> (r: Result<Response, Error>)
        ensures
            r is Ok <==> (request_seq is Found && request_seq->Found_0 <= usize::MAX
                && success is Found && command is Found && !(message is Mismatch) && !(body is Mismatch)),
            r matches Ok(q) ==> q.spec_seq() == seq && q.spec_request_seq() == request_seq->Found_0
                && q.spec_success() == success->Found_0 && q.spec_command() == command->Found_0@
                && q.spec_message() == match message {
                Slot::Found(m) => Some(m@),
                _ => None,
            },
            r is Err ==> r->Err_0 is InvalidMessage,
    {
        let request_seq = to_usize(required(request_seq)?)?;
        let success = required(success)?;
        let command = required(command)?;
        let message = optional(message)?;
        let body = optional(body)?;
        Ok(Response { seq, request_seq, success, command, message, body })
    }

    pub fn seq(&self) -> (r: usize)
        ensures
            r == self.spec_seq(),
    {
        self.seq
    }

    pub fn request_seq(&self) -> (r: usize)
        ensures
            r == self.spec_request_seq(),
    {
        self.request_seq
    }

    pub fn success(&self) -> (r: bool)
        ensures
            r == self.spec_success(),
    {
        self.success
    }

    pub fn command(&self) -> (r: &str)
        ensures
            r@ == self.spec_command(),
    {
        self.command.as_str()
    }

    pub fn message(&self) -> (r: Option<&String>)
        ensures
            match self.spec_message() {
                Some(m) => r is Some && r->Some_0@ == m,
                None => r is None,
            },
    {
        self.message.as_ref()
    }
}

} // verus!
