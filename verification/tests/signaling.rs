use united_cinemas::codec::{encode, CodecError};
use united_cinemas::signaling::{
    frame_action, ClientPayload, ConnAction, ConnEvent, ConnState, Connection, ServerToClientMsg,
    MAX_MESSAGE_BYTES, REQUEST_QUEUE_DEPTH,
};

fn payload(action: &str, name: &str, sdp: &str) -> ClientPayload {
    ClientPayload { action: action.to_owned(), name: name.to_owned(), sdp: sdp.to_owned() }
}

fn awaiting() -> Connection {
    let mut connection = Connection::new();
    let action = connection.step(ConnEvent::Parsed(Some(payload("join", "room1", ""))));
    assert!(matches!(action, ConnAction::Forward(_)));
    assert_eq!(connection.state(), ConnState::AwaitingResponse);
    connection
}

#[test]
fn gateway_limits() {
    assert_eq!(MAX_MESSAGE_BYTES, 2usize.pow(20));
    assert_eq!(REQUEST_QUEUE_DEPTH, 1);
}

#[test]
fn a_connection_starts_open() {
    assert_eq!(Connection::new().state(), ConnState::Open);
}

#[test]
fn a_text_frame_is_decoded_and_handed_out_for_parsing() {
    let mut connection = Connection::new();
    let json = "{\"action\":\"join\",\"name\":\"room1\",\"sdp\":\"\"}";
    match connection.step(ConnEvent::Text(encode(json))) {
        ConnAction::Parse(text) => assert_eq!(text, json),
        _ => panic!("expected Parse"),
    }
    assert_eq!(connection.state(), ConnState::Open);
}

#[test]
fn a_parsed_request_is_forwarded() {
    let mut connection = Connection::new();
    match connection.step(ConnEvent::Parsed(Some(payload("broadcast", "room1", "c2Rw")))) {
        ConnAction::Forward(request) => {
            assert_eq!(request.action, "broadcast");
            assert_eq!(request.name, "room1");
            assert_eq!(request.sdp, "c2Rw");
        }
        _ => panic!("expected Forward"),
    }
    assert_eq!(connection.state(), ConnState::AwaitingResponse);
}

#[test]
fn a_frame_that_is_not_base64_is_discarded() {
    let mut connection = Connection::new();
    let action = connection.step(ConnEvent::Text("not base64!".to_owned()));
    assert!(matches!(action, ConnAction::Discard(CodecError::Base64)));
    assert_eq!(connection.state(), ConnState::Open);
}

#[test]
fn a_frame_that_is_not_utf8_is_discarded() {
    let mut connection = Connection::new();
    let action = connection.step(ConnEvent::Text("//4=".to_owned()));
    assert!(matches!(action, ConnAction::Discard(CodecError::Utf8)));
    assert_eq!(connection.state(), ConnState::Open);
}

#[test]
fn a_frame_that_is_not_a_request_is_discarded() {
    let mut connection = Connection::new();
    let action = connection.step(ConnEvent::Parsed(None));
    assert!(matches!(action, ConnAction::Discard(CodecError::Json)));
    assert_eq!(connection.state(), ConnState::Open);
}

#[test]
fn a_valid_frame_may_follow_a_malformed_one() {
    let mut connection = Connection::new();
    connection.step(ConnEvent::Text("%%%".to_owned()));
    connection.step(ConnEvent::Parsed(None));
    let action = connection.step(ConnEvent::Text(encode("{}")));
    assert!(matches!(action, ConnAction::Parse(_)));
    let action = connection.step(ConnEvent::Parsed(Some(payload("join", "room1", ""))));
    assert!(matches!(action, ConnAction::Forward(_)));
    assert_eq!(connection.state(), ConnState::AwaitingResponse);
}

#[test]
fn a_ping_is_answered_with_its_payload() {
    let mut connection = Connection::new();
    match connection.step(ConnEvent::Ping(vec![1, 2, 3])) {
        ConnAction::Pong(bytes) => assert_eq!(bytes, vec![1, 2, 3]),
        _ => panic!("expected Pong"),
    }
    assert_eq!(connection.state(), ConnState::Open);
}

#[test]
fn a_close_frame_terminates_an_open_connection() {
    let mut connection = Connection::new();
    assert!(matches!(connection.step(ConnEvent::Closed), ConnAction::Close));
    assert_eq!(connection.state(), ConnState::Terminated);
}

#[test]
fn a_stream_error_terminates_an_open_connection() {
    let mut connection = Connection::new();
    assert!(matches!(connection.step(ConnEvent::Failed), ConnAction::Close));
    assert_eq!(connection.state(), ConnState::Terminated);
}

#[test]
fn other_frames_are_ignored() {
    let mut connection = Connection::new();
    assert!(matches!(connection.step(ConnEvent::Other), ConnAction::Idle));
    assert_eq!(connection.state(), ConnState::Open);
    assert!(matches!(connection.step(ConnEvent::Answer(Some("x".to_owned()))), ConnAction::Idle));
    assert!(matches!(connection.step(ConnEvent::Answer(None)), ConnAction::Idle));
    assert_eq!(connection.state(), ConnState::Open);
}

#[test]
fn the_answer_is_sent_and_the_socket_closed() {
    let mut connection = awaiting();
    match connection.step(ConnEvent::Answer(Some("YW5zd2Vy".to_owned()))) {
        ConnAction::Reply(text) => assert_eq!(text, "YW5zd2Vy"),
        _ => panic!("expected Reply"),
    }
    assert_eq!(connection.state(), ConnState::Terminated);
}

#[test]
fn a_dropped_responder_closes_without_a_reply() {
    let mut connection = awaiting();
    assert!(matches!(connection.step(ConnEvent::Answer(None)), ConnAction::Close));
    assert_eq!(connection.state(), ConnState::Terminated);
}

#[test]
fn a_client_that_leaves_while_waiting_terminates_the_connection() {
    let mut connection = awaiting();
    assert!(matches!(connection.step(ConnEvent::Closed), ConnAction::Close));
    assert_eq!(connection.state(), ConnState::Terminated);
    let mut connection = awaiting();
    assert!(matches!(connection.step(ConnEvent::Failed), ConnAction::Close));
    assert_eq!(connection.state(), ConnState::Terminated);
}

#[test]
fn only_one_request_is_taken_per_connection() {
    let mut connection = awaiting();
    let events = vec![
        ConnEvent::Text(encode("{}")),
        ConnEvent::Parsed(Some(payload("join", "room2", ""))),
        ConnEvent::Parsed(None),
        ConnEvent::Ping(vec![9]),
        ConnEvent::Other,
        ConnEvent::Outbound(Some(ServerToClientMsg::Text("x".to_owned()))),
        ConnEvent::Outbound(Some(ServerToClientMsg::Close)),
        ConnEvent::Outbound(None),
    ];
    for event in events {
        assert!(matches!(connection.step(event), ConnAction::Idle));
        assert_eq!(connection.state(), ConnState::AwaitingResponse);
    }
}

#[test]
fn a_terminated_connection_does_nothing() {
    let mut connection = Connection::new();
    connection.step(ConnEvent::Closed);
    let events = vec![
        ConnEvent::Text(encode("{}")),
        ConnEvent::Parsed(Some(payload("join", "room1", ""))),
        ConnEvent::Parsed(None),
        ConnEvent::Ping(vec![]),
        ConnEvent::Closed,
        ConnEvent::Failed,
        ConnEvent::Other,
        ConnEvent::Answer(Some("x".to_owned())),
        ConnEvent::Answer(None),
        ConnEvent::Outbound(Some(ServerToClientMsg::Text("x".to_owned()))),
        ConnEvent::Outbound(None),
    ];
    for event in events {
        assert!(matches!(connection.step(event), ConnAction::Idle));
        assert_eq!(connection.state(), ConnState::Terminated);
    }
}

#[test]
fn server_messages_reach_an_open_connection() {
    let mut connection = Connection::new();
    match connection.step(ConnEvent::Outbound(Some(ServerToClientMsg::Text("hi".to_owned())))) {
        ConnAction::Send(text) => assert_eq!(text, "hi"),
        _ => panic!("expected Send"),
    }
    assert_eq!(connection.state(), ConnState::Open);
    assert!(matches!(
        connection.step(ConnEvent::Outbound(Some(ServerToClientMsg::Close))),
        ConnAction::Close
    ));
    assert_eq!(connection.state(), ConnState::Terminated);
    let mut connection = Connection::new();
    assert!(matches!(connection.step(ConnEvent::Outbound(None)), ConnAction::Close));
    assert_eq!(connection.state(), ConnState::Terminated);
}

#[test]
fn frame_action_follows_the_decoded_text() {
    match frame_action(Ok("{}".to_owned())) {
        ConnAction::Parse(json) => assert_eq!(json, "{}"),
        _ => panic!("expected Parse"),
    }
    assert!(matches!(frame_action(Err(CodecError::Base64)), ConnAction::Discard(CodecError::Base64)));
    assert!(matches!(frame_action(Err(CodecError::Utf8)), ConnAction::Discard(CodecError::Utf8)));
}

#[test]
fn a_megabyte_frame_is_taken() {
    let mut json = String::from("{\"action\":\"broadcast\",\"name\":\"room1\",\"sdp\":\"");
    while json.len() < MAX_MESSAGE_BYTES * 3 / 4 - 2 {
        json.push('A');
    }
    json.push_str("\"}");
    let frame = encode(&json);
    assert!(frame.len() <= MAX_MESSAGE_BYTES);
    assert!(frame.len() > MAX_MESSAGE_BYTES - 8);
    let mut connection = Connection::new();
    match connection.step(ConnEvent::Text(frame)) {
        ConnAction::Parse(text) => assert_eq!(text, json),
        _ => panic!("expected Parse"),
    }
    assert_eq!(connection.state(), ConnState::Open);
}
