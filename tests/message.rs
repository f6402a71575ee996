use headcrab_dap::adapter::Listener;
use headcrab_dap::dap_type::{self, Request};
use headcrab_dap::header::Header;
use headcrab_dap::message::{GenericMessage, Message};
use headcrab_dap::request::KnownRequest;
use headcrab_dap::Error;

fn generate_raw_msg_body(seq: usize, message_type: &str) -> String {
    format!(
        "{{
            \"seq\": {},
            \"type\": \"{}\"
        }}",
        seq, message_type
    )
}

fn frame(body: &str) -> String {
    let mut raw_msg = Header::new(body.len()).into_string();
    raw_msg.push_str(body);
    raw_msg
}

#[test]
fn parse_generic_message_valid() {
    let body = generate_raw_msg_body(1, "fake");

    let header = Header::new(body.len()).into_string();

    let mut raw_msg = header;
    raw_msg.push_str(body.as_str());

    let msg = Message::read_from(&mut raw_msg.as_str()).unwrap();

    match msg {
        Message::Generic(msg) => {
            assert_eq!(msg.seq(), 1);
            assert_eq!(msg.message_type(), "fake");
        }
    }
}

#[test]
fn generic_message_from_value_valid() {
    let body = generate_raw_msg_body(10, "fake");
    let value: serde_json::Value = serde_json::from_str(body.as_str()).unwrap();

    let msg = GenericMessage::try_from(value).unwrap();
    assert_eq!(msg.seq(), 10);
    assert_eq!(msg.message_type(), "fake")
}

#[test]
fn unknown_type_stays_generic() {
    let body = "{\"seq\":1,\"type\":\"fake\"}";
    let raw = frame(body);
    let mut input = raw.as_str();
    let Message::Generic(msg) = Message::read_from(&mut input).unwrap();
    assert_eq!(msg.seq(), 1);
    assert_eq!(msg.message_type(), "fake");
    assert!(msg.kind().is_none());
    let expected: serde_json::Value = serde_json::from_str(body).unwrap();
    assert_eq!(msg.value(), &expected);
    assert_eq!(input, "");
}

const INITIALIZE: &str = "{\"seq\":3,\"type\":\"request\",\"command\":\"initialize\",\
\"arguments\":{\"clientID\":\"vscode\",\"adapterID\":\"headcrab\",\"linesStartAt1\":true,\
\"pathFormat\":\"path\"}}";

const INITIALIZE_WITHOUT_ADAPTER: &str = "{\"seq\":3,\"type\":\"request\",\
\"command\":\"initialize\",\"arguments\":{\"clientID\":\"vscode\"}}";

#[test]
fn initialize_request_reads_all_levels() {
    let msg = GenericMessage::classify(INITIALIZE.as_bytes()).unwrap();
    assert_eq!(msg.seq(), 3);
    assert_eq!(msg.message_type(), "request");
    let request = match msg.kind() {
        Some(dap_type::Message::Request(r)) => r,
        _ => panic!(),
    };
    assert_eq!(request.seq(), 3);
    assert_eq!(request.command(), "initialize");
    assert!(request.arguments().is_some());
    let args = match request.known() {
        Some(KnownRequest::Initialize(init)) => init.arguments(),
        _ => panic!(),
    };
    assert_eq!(args.adapter_id(), "headcrab");
    assert_eq!(args.client_id().map(|s| s.as_str()), Some("vscode"));
    assert_eq!(args.client_name(), None);
    assert_eq!(args.lines_start_at1(), Some(true));
    assert!(matches!(
        args.path_format(),
        Some(headcrab_dap::request::InitializeArgumentsPathFormat::Path)
    ));
}

#[test]
fn initialize_without_adapter_id_is_invalid() {
    let r = GenericMessage::classify(INITIALIZE_WITHOUT_ADAPTER.as_bytes());
    assert!(matches!(r, Err(Error::InvalidMessage)));

    let value: serde_json::Value = serde_json::from_str(INITIALIZE_WITHOUT_ADAPTER).unwrap();
    let generic = GenericMessage::try_from(value.clone()).unwrap();
    assert_eq!(generic.seq(), 3);
    assert_eq!(generic.message_type(), "request");
    assert!(generic.kind().is_none());
    let request = Request::read(&value, 3).unwrap();
    assert_eq!(request.command(), "initialize");
    assert!(request.known().is_none());
    assert!(matches!(request.specialize(), Err(Error::InvalidMessage)));
}

#[test]
fn unknown_command_stays_at_kind_level() {
    let body = "{\"seq\":4,\"type\":\"request\",\"command\":\"frobnicate\",\"arguments\":[1,2]}";
    let msg = GenericMessage::classify(body.as_bytes()).unwrap();
    let request = match msg.kind() {
        Some(dap_type::Message::Request(r)) => r,
        _ => panic!(),
    };
    assert_eq!(request.command(), "frobnicate");
    assert!(request.known().is_none());
    let expected: serde_json::Value = serde_json::from_str("[1,2]").unwrap();
    assert_eq!(request.arguments(), Some(&expected));
}

#[test]
fn known_commands_without_arguments() {
    let done = "{\"seq\":5,\"type\":\"request\",\"command\":\"configurationDone\"}";
    let msg = GenericMessage::classify(done.as_bytes()).unwrap();
    match msg.kind() {
        Some(dap_type::Message::Request(r)) => {
            assert!(matches!(r.known(), Some(KnownRequest::ConfigurationDone(_))))
        }
        _ => panic!(),
    }
    let disconnect = "{\"seq\":6,\"type\":\"request\",\"command\":\"disconnect\",\
\"arguments\":{\"terminateDebuggee\":true}}";
    let msg = GenericMessage::classify(disconnect.as_bytes()).unwrap();
    match msg.kind() {
        Some(dap_type::Message::Request(r)) => match r.known() {
            Some(KnownRequest::Disconnect(d)) => {
                assert_eq!(d.arguments().unwrap().terminate_debuggee(), Some(true))
            }
            _ => panic!(),
        },
        _ => panic!(),
    }
}

#[test]
fn request_without_command_is_invalid() {
    let body = "{\"seq\":1,\"type\":\"request\"}";
    assert!(matches!(
        GenericMessage::classify(body.as_bytes()),
        Err(Error::InvalidMessage)
    ));
}

#[test]
fn event_and_response_are_read() {
    let event = "{\"seq\":7,\"type\":\"event\",\"event\":\"stopped\",\"body\":{\"reason\":\"step\"}}";
    let msg = GenericMessage::classify(event.as_bytes()).unwrap();
    match msg.kind() {
        Some(dap_type::Message::Event(e)) => {
            assert_eq!(e.seq(), 7);
            assert_eq!(e.event(), "stopped");
            assert!(e.body().is_some());
        }
        _ => panic!(),
    }
    let response = "{\"seq\":8,\"type\":\"response\",\"request_seq\":3,\"success\":false,\
\"command\":\"initialize\",\"message\":\"cancelled\"}";
    let msg = GenericMessage::classify(response.as_bytes()).unwrap();
    match msg.kind() {
        Some(dap_type::Message::Response(r)) => {
            assert_eq!(r.seq(), 8);
            assert_eq!(r.request_seq(), 3);
            assert!(!r.success());
            assert_eq!(r.command(), "initialize");
            assert_eq!(r.message().map(|s| s.as_str()), Some("cancelled"));
        }
        _ => panic!(),
    }
    let no_success = "{\"seq\":8,\"type\":\"response\",\"request_seq\":3,\"command\":\"x\"}";
    assert!(matches!(
        GenericMessage::classify(no_success.as_bytes()),
        Err(Error::InvalidMessage)
    ));
}

#[test]
fn body_errors_are_told_apart() {
    assert!(matches!(
        GenericMessage::classify(b"{\"seq\":1,"),
        Err(Error::BadMessage)
    ));
    assert!(matches!(
        GenericMessage::classify(b"not json"),
        Err(Error::BadMessage)
    ));
    assert!(matches!(
        GenericMessage::classify(b"{\"type\":\"request\"}"),
        Err(Error::InvalidMessage)
    ));
    assert!(matches!(
        GenericMessage::classify(b"{\"seq\":-1,\"type\":\"event\"}"),
        Err(Error::InvalidMessage)
    ));
    assert!(matches!(GenericMessage::classify(b"[1]"), Err(Error::InvalidMessage)));
}

#[test]
fn short_body_is_an_io_error() {
    let mut input = "Content-Length:10\r\n\r\n{}";
    assert!(matches!(Message::read_from(&mut input), Err(Error::Io(_))));
}

#[test]
fn message_seq_reads_envelope() {
    let raw = frame("{\"seq\":12,\"type\":\"event\",\"event\":\"exited\"}");
    let msg = Message::read_from(&mut raw.as_str()).unwrap();
    assert_eq!(msg.seq(), 12);
}

#[test]
fn listener_yields_frames_in_order() {
    let mut raw = frame("{\"seq\":1,\"type\":\"event\",\"event\":\"initialized\"}");
    raw.push_str(&frame("{\"seq\":2,\"type\":\"fake\"}"));
    let mut listener = Listener::new(raw.as_str());
    let first = listener.poll().unwrap().unwrap();
    assert_eq!(first.seq(), 1);
    let second = listener.poll().unwrap().unwrap();
    assert_eq!(second.seq(), 2);
    assert!(listener.poll().is_none());
    assert!(listener.poll().is_none());
    assert!(!listener.is_stopped());
}

#[test]
fn listener_stops_after_corrupt_frame() {
    let mut raw = frame("{\"seq\":1,\"type\":\"fake\"}");
    raw.push_str("Content-Length:abc\r\n\r\n{\"seq\":2,\"type\":\"fake\"}");
    raw.push_str(&frame("{\"seq\":3,\"type\":\"fake\"}"));
    let mut listener = Listener::new(raw.as_str());
    assert_eq!(listener.poll().unwrap().unwrap().seq(), 1);
    assert!(matches!(listener.poll(), Some(Err(Error::BadMessage))));
    assert!(listener.is_stopped());
    assert!(listener.poll().is_none());
    assert!(listener.poll().is_none());
}
