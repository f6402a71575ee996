use headcrab_dap::adapter::Session;
use headcrab_dap::dap_type::{kind_of, Event, MessageKind, Request, Response};
use headcrab_dap::json::{optional, required, to_usize, Slot};
use headcrab_dap::message::GenericMessage;
use headcrab_dap::request::{command_of, CommandKind, InitializeArguments, InitializeArgumentsPathFormat};
use headcrab_dap::Error;

#[test]
fn message_kinds_by_type() {
    assert!(matches!(kind_of("request"), Some(MessageKind::Request)));
    assert!(matches!(kind_of("event"), Some(MessageKind::Event)));
    assert!(matches!(kind_of("response"), Some(MessageKind::Response)));
    assert!(kind_of("Request").is_none());
    assert!(kind_of("fake").is_none());
    assert!(kind_of("").is_none());
}

#[test]
fn known_commands_by_name() {
    assert!(matches!(command_of("initialize"), Some(CommandKind::Initialize)));
    assert!(matches!(
        command_of("configurationDone"),
        Some(CommandKind::ConfigurationDone)
    ));
    assert!(matches!(command_of("disconnect"), Some(CommandKind::Disconnect)));
    assert!(matches!(command_of("terminate"), Some(CommandKind::Terminate)));
    assert!(command_of("launch").is_none());
    assert!(command_of("initialized").is_none());
}

#[test]
fn path_format_names() {
    assert!(matches!(
        InitializeArgumentsPathFormat::from_name("path".to_string()),
        InitializeArgumentsPathFormat::Path
    ));
    assert!(matches!(
        InitializeArgumentsPathFormat::from_name("uri".to_string()),
        InitializeArgumentsPathFormat::Uri
    ));
    match InitializeArgumentsPathFormat::from_name("url".to_string()) {
        InitializeArgumentsPathFormat::Other(s) => assert_eq!(s, "url"),
        _ => panic!(),
    }
}

#[test]
fn slot_rules() {
    assert_eq!(required(Slot::Found(3u64)).unwrap(), 3);
    assert!(matches!(required::<u64>(Slot::Absent), Err(Error::InvalidMessage)));
    assert!(matches!(required::<u64>(Slot::Null), Err(Error::InvalidMessage)));
    assert!(matches!(required::<u64>(Slot::Mismatch), Err(Error::InvalidMessage)));
    assert_eq!(optional(Slot::Found(true)).unwrap(), Some(true));
    assert_eq!(optional::<bool>(Slot::Absent).unwrap(), None);
    assert_eq!(optional::<bool>(Slot::Null).unwrap(), None);
    assert!(matches!(optional::<bool>(Slot::Mismatch), Err(Error::InvalidMessage)));
    assert_eq!(to_usize(7).unwrap(), 7);
}

#[test]
fn envelope_from_slots() {
    let value: serde_json::Value = serde_json::from_str("{}").unwrap();
    let m = GenericMessage::from_slots(
        value.clone(),
        Slot::Found(5),
        Slot::Found("event".to_string()),
    )
    .unwrap();
    assert_eq!(m.seq(), 5);
    assert_eq!(m.message_type(), "event");
    assert!(m.kind().is_none());
    assert!(matches!(
        GenericMessage::from_slots(value.clone(), Slot::Absent, Slot::Found("x".to_string())),
        Err(Error::InvalidMessage)
    ));
    assert!(matches!(
        GenericMessage::from_slots(value, Slot::Found(1), Slot::Mismatch),
        Err(Error::InvalidMessage)
    ));
}

#[test]
fn kind_level_from_slots() {
    let q = Request::from_slots(2, Slot::Found("launch".to_string()), Slot::Absent).unwrap();
    assert_eq!(q.seq(), 2);
    assert_eq!(q.command(), "launch");
    assert!(q.arguments().is_none());
    assert!(matches!(
        Request::from_slots(2, Slot::Null, Slot::Absent),
        Err(Error::InvalidMessage)
    ));
    let e = Event::from_slots(3, Slot::Found("output".to_string()), Slot::Null).unwrap();
    assert_eq!(e.event(), "output");
    assert!(e.body().is_none());
    let r = Response::from_slots(
        4,
        Slot::Found(2),
        Slot::Found(true),
        Slot::Found("launch".to_string()),
        Slot::Absent,
        Slot::Absent,
    )
    .unwrap();
    assert_eq!(r.request_seq(), 2);
    assert!(r.success());
    assert!(r.message().is_none());
    assert!(matches!(
        Response::from_slots(4, Slot::Found(2), Slot::Mismatch, Slot::Found("x".to_string()), Slot::Absent, Slot::Absent),
        Err(Error::InvalidMessage)
    ));
}

#[test]
fn initialize_arguments_need_adapter_id() {
    let with: serde_json::Value =
        serde_json::from_str("{\"adapterID\":\"a\",\"locale\":null,\"linesStartAt1\":false}").unwrap();
    let args = InitializeArguments::from_json(&with).unwrap();
    assert_eq!(args.adapter_id(), "a");
    assert_eq!(args.lines_start_at1(), Some(false));
    let without: serde_json::Value = serde_json::from_str("{\"clientID\":\"c\"}").unwrap();
    assert!(matches!(
        InitializeArguments::from_json(&without),
        Err(Error::InvalidMessage)
    ));
    let wrong_type: serde_json::Value =
        serde_json::from_str("{\"adapterID\":\"a\",\"linesStartAt1\":\"yes\"}").unwrap();
    assert!(matches!(
        InitializeArguments::from_json(&wrong_type),
        Err(Error::InvalidMessage)
    ));
}

#[test]
fn error_descriptions() {
    assert_eq!(Error::BadMessage.describe(), "bad message");
    assert_eq!(Error::InvalidMessage.describe(), "invalid message");
    let io = Error::Io(std::io::Error::new(std::io::ErrorKind::Other, "gone"));
    assert_eq!(io.describe(), "gone");
}

#[test]
fn error_from_json_failure() {
    let syntax = serde_json::from_str::<serde_json::Value>("{").unwrap_err();
    assert!(matches!(Error::from_json(syntax), Error::BadMessage));
    let data = serde_json::from_str::<u8>("300").unwrap_err();
    assert!(matches!(Error::from_json(data), Error::InvalidMessage));
}

#[test]
fn envelope_alone_from_bytes() {
    let body = b"{\"seq\":1,\"type\":\"request\",\"command\":\"initialize\",\"arguments\":{\"clientID\":\"vscode\"}}";
    assert!(matches!(GenericMessage::classify(body), Err(Error::InvalidMessage)));
    let m = GenericMessage::parse(body).unwrap();
    assert_eq!(m.seq(), 1);
    assert_eq!(m.message_type(), "request");
    assert!(m.kind().is_none());
    let expected: serde_json::Value = serde_json::from_slice(body).unwrap();
    assert_eq!(m.value(), &expected);
    assert!(matches!(GenericMessage::parse(b"{}"), Err(Error::InvalidMessage)));
    assert!(matches!(GenericMessage::parse(b"abc"), Err(Error::BadMessage)));
}

#[test]
fn session_stops_at_first_error_or_end() {
    let ok = || GenericMessage::classify(b"{\"seq\":1,\"type\":\"fake\"}").map(headcrab_dap::message::Message::from);
    let mut session = Session::new();
    assert!(matches!(session.step(Some(ok())), Some(Ok(_))));
    assert!(!session.is_stopped());
    assert!(matches!(session.step(Some(Err(Error::BadMessage))), Some(Err(Error::BadMessage))));
    assert!(session.is_stopped());
    assert!(session.step(Some(ok())).is_none());
    let mut ended = Session::new();
    assert!(ended.step(None).is_none());
    assert!(ended.is_stopped());
}

#[test]
fn io_error_converts() {
    let e = Error::from(std::io::Error::new(std::io::ErrorKind::UnexpectedEof, "eof"));
    assert!(matches!(e, Error::Io(_)));
}

#[test]
fn parse_reads_the_generic_level_only() {
    let body = b"{\"seq\":4,\"type\":\"request\"}";
    let m = GenericMessage::parse(body).unwrap();
    assert_eq!(m.seq(), 4);
    assert_eq!(m.message_type(), "request");
    assert!(m.kind().is_none());
    assert!(matches!(GenericMessage::classify(body), Err(Error::InvalidMessage)));
    let value: serde_json::Value = serde_json::from_slice(body).unwrap();
    let g = GenericMessage::try_from(value.clone()).unwrap();
    assert_eq!(g.value(), &value);
    assert!(matches!(GenericMessage::classify_value(value), Err(Error::InvalidMessage)));
}

#[test]
fn io_error_kinds() {
    let mut input = "Content-Length:10\r\n\r\n{}";
    let err = headcrab_dap::message::Message::read_from(&mut input).err().unwrap();
    assert!(matches!(err.io_kind(), Some(headcrab_dap::IoKind::UnexpectedEof)));
    assert!(Error::BadMessage.io_kind().is_none());
    let other = Error::from(std::io::Error::new(std::io::ErrorKind::Other, "x"));
    assert!(matches!(other.io_kind(), Some(headcrab_dap::IoKind::Other)));
}

#[test]
fn json_error_converts() {
    let syntax = serde_json::from_str::<serde_json::Value>("[1,").unwrap_err();
    assert!(matches!(Error::from(syntax), Error::BadMessage));
}
