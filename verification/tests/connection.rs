use serde_json::Value;
use socket_session::acceptor::{unqueued, READY_QUEUE_CAPACITY};
use socket_session::connection::{Connection, Correlation, Event, Incoming, Step};
use socket_session::query::ConnectionDetails;
use socket_session::socket_message::SocketMessage;

const INACTIVITY: &str = "Connection closed due to inactivity. When another operation is necessary, reconnect";
const ID: &str = "550e8400-e29b-41d4-a716-446655440000";

fn fresh() -> Connection {
    Connection::new(ConnectionDetails::new("/ws", Some("user=ann")))
}

fn active() -> Connection {
    let mut connection = fresh();
    let _ = connection.next_socket_event();
    connection
}

fn text(frame: &str) -> Incoming {
    Incoming::Text(frame.to_owned())
}

fn number(n: u64) -> Value {
    Value::Number(n.into())
}

fn expect_read(step: Step) {
    assert!(matches!(step, Step::Read), "{:?}", step);
}

fn expect_close(step: Step, reason: &str) {
    match step {
        Step::Close(given) => assert_eq!(given, reason),
        other => panic!("{:?}", other),
    }
}

fn expect_write(step: Step, frame: &str) {
    match step {
        Step::Write(given) => assert_eq!(given, frame),
        other => panic!("{:?}", other),
    }
}

fn expect_update(step: Step, value: Value) {
    match step {
        Step::Deliver(Event::Update(given)) => assert_eq!(given, value),
        other => panic!("{:?}", other),
    }
}

#[test]
fn first_read_announces_the_session() {
    let mut connection = fresh();
    assert!(!connection.is_active());
    assert!(!connection.is_ended());
    match connection.next_socket_event() {
        Step::Deliver(Event::Connect(details)) => {
            assert_eq!(details.path, "/ws");
            assert_eq!(details.query_params.get("user"), Some("ann"));
        }
        other => panic!("{:?}", other),
    }
    assert!(connection.is_active());
}

#[test]
fn later_reads_ask_for_a_frame() {
    let mut connection = active();
    expect_read(connection.next_socket_event());
    expect_read(connection.next_socket_event());
    assert!(connection.is_active());
}

#[test]
fn ping_and_pong_are_passed_over() {
    let mut connection = active();
    expect_read(connection.receive(Incoming::Ping));
    expect_read(connection.receive(Incoming::Pong));
    assert!(connection.is_active());
}

#[test]
fn peer_close_ends_the_session_without_a_frame() {
    let mut connection = active();
    assert!(matches!(connection.receive(Incoming::Close), Step::Ended));
    assert!(connection.is_ended());

    let mut connection = active();
    assert!(matches!(connection.receive(Incoming::Finished), Step::Ended));
    assert!(connection.is_ended());
}

#[test]
fn other_frames_close_the_session() {
    let mut connection = active();
    expect_close(connection.receive(Incoming::Other), "Received invalid message");
    assert!(connection.is_ended());
}

#[test]
fn failed_read_closes_the_session() {
    let mut connection = active();
    expect_close(connection.receive(Incoming::Failed), "Error parsing incoming message");
    assert!(connection.is_ended());
}

#[test]
fn unparsable_text_closes_the_session() {
    for frame in ["", "(", "(event) 1", "event(no closing"] {
        let mut connection = active();
        expect_close(connection.receive(text(frame)), "Failed to parse socket message");
        assert!(connection.is_ended());
    }
}

#[test]
fn sync_without_a_send_writes_nothing() {
    let mut connection = active();
    expect_read(connection.receive(text("sync")));
    expect_read(connection.receive(text("sync(ignored) [1]")));
    assert!(connection.is_active());
}

#[test]
fn send_writes_a_model_frame() {
    let mut connection = active();
    assert_eq!(connection.send(number(1)), "model() 1");
    assert_eq!(connection.send(Value::Array(vec![Value::Null, Value::Bool(true)])), "model() [null,true]");
    assert!(connection.is_active());
}

#[test]
fn send_is_allowed_before_the_announcement() {
    let mut connection = fresh();
    assert_eq!(connection.send(number(5)), "model() 5");
    assert!(matches!(connection.next_socket_event(), Step::Deliver(Event::Connect(_))));
    expect_write(connection.receive(text("sync")), "model() 5");
}

#[test]
fn sync_after_a_send_writes_that_value_again() {
    let mut connection = active();
    let _ = connection.send(number(1));
    let _ = connection.send(number(2));
    expect_write(connection.receive(text("sync")), "model() 2");
    expect_write(connection.receive(text("sync")), "model() 2");
    assert!(connection.is_active());
}

#[test]
fn event_delivers_its_body() {
    let mut connection = active();
    expect_update(connection.receive(text("event() [1, 2]")), Value::Array(vec![number(1), number(2)]));
    expect_update(connection.receive(text("event()\"x\"")), Value::String("x".to_owned()));
    assert!(connection.is_active());
}

#[test]
fn event_sets_the_correlation_id_of_later_frames() {
    let mut connection = active();
    let _ = connection.send(number(1));
    expect_update(connection.receive(text(&format!("event({}) true", ID))), Value::Bool(true));
    assert_eq!(connection.send(number(2)), format!("model({}) 2", ID));
    expect_write(connection.receive(text("sync")), &format!("model({}) 2", ID));

    expect_update(connection.receive(text("event() null")), Value::Null);
    assert_eq!(connection.send(number(3)), "model() 3");
}

#[test]
fn correlation_id_is_written_in_one_form() {
    for context in [
        "550E8400-E29B-41D4-A716-446655440000",
        "550e8400e29b41d4a716446655440000",
        "urn:uuid:550e8400-e29b-41d4-a716-446655440000",
        "{550e8400-e29b-41d4-a716-446655440000}",
    ] {
        let mut connection = active();
        expect_update(connection.receive(text(&format!("event({}) 0", context))), number(0));
        assert_eq!(connection.send(number(1)), format!("model({}) 1", ID));
    }
}

#[test]
fn correlation_id_is_written_in_lower_case_hex() {
    let mut connection = active();
    expect_update(connection.receive_event(Correlation::Id(0xa1a2a3a4b1b2c1c2d1d2d3d4d5d6d7d8), Some(Value::Null)), Value::Null);
    assert_eq!(connection.send(Value::Null), "model(a1a2a3a4-b1b2-c1c2-d1d2-d3d4d5d6d7d8) null");

    expect_update(connection.receive_event(Correlation::Id(0x0123456789abcdef), Some(Value::Null)), Value::Null);
    assert_eq!(connection.send(Value::Null), "model(00000000-0000-0000-0123-456789abcdef) null");

    expect_update(connection.receive_event(Correlation::Id(u128::MAX), Some(Value::Null)), Value::Null);
    assert_eq!(connection.send(Value::Null), "model(ffffffff-ffff-ffff-ffff-ffffffffffff) null");
}

#[test]
fn event_with_a_context_that_is_no_id_closes_the_session() {
    for frame in ["event(not-a-uuid) 1", "event(550e8400) 1", "event( ) 1"] {
        let mut connection = active();
        expect_close(
            connection.receive(text(frame)),
            "Expected to receive a valid UUID a context to 'event' message",
        );
        assert!(connection.is_ended());
    }
}

#[test]
fn event_without_a_body_closes_the_session() {
    for frame in ["event", "event()", "event() not json", "event()   ", &format!("event({})", ID), "event("] {
        let mut connection = active();
        expect_close(connection.receive(text(frame)), "Expected to receive JSON body with 'event' message");
        assert!(connection.is_ended());
    }
}

#[test]
fn other_prefixes_close_the_session() {
    let mut connection = active();
    expect_close(
        connection.receive(text("model() 1")),
        "Invalid message prefix: model. Expected 'sync' or 'event'",
    );
    assert!(connection.is_ended());

    let mut connection = active();
    expect_close(
        connection.receive(text(" sync")),
        "Invalid message prefix:  sync. Expected 'sync' or 'event'",
    );

    let mut connection = active();
    expect_close(
        connection.receive(text("event (x) 1")),
        "Invalid message prefix: event . Expected 'sync' or 'event'",
    );

    let mut connection = active();
    expect_close(
        connection.receive(text("event [1, 2]")),
        "Invalid message prefix: event [1, 2]. Expected 'sync' or 'event'",
    );
}

#[test]
fn receive_message_takes_a_parsed_message() {
    let mut connection = active();
    let message = SocketMessage::parse("event(").unwrap();
    expect_close(connection.receive_message(&message), "Expected to receive JSON body with 'event' message");

    let mut connection = active();
    let message = SocketMessage::parse("event() [true]").unwrap();
    expect_update(connection.receive_message(&message), Value::Array(vec![Value::Bool(true)]));
}

#[test]
fn receive_event_decides_by_context_and_body() {
    let mut connection = active();
    expect_update(connection.receive_event(Correlation::Absent, Some(number(1))), number(1));
    expect_update(connection.receive_event(Correlation::Id(1), Some(number(2))), number(2));
    expect_close(
        connection.receive_event(Correlation::Id(2), None),
        "Expected to receive JSON body with 'event' message",
    );

    let mut connection = active();
    expect_close(
        connection.receive_event(Correlation::Malformed, Some(number(1))),
        "Expected to receive a valid UUID a context to 'event' message",
    );
    assert!(connection.is_ended());
}

#[test]
fn timing_out_closes_the_session() {
    let mut connection = active();
    expect_close(connection.timed_out(), INACTIVITY);
    assert!(connection.is_ended());
    assert!(!connection.is_active());
}

#[test]
fn close_ends_the_session() {
    let mut connection = active();
    expect_close(connection.close("bye"), "bye");
    assert!(connection.is_ended());

    let mut connection = fresh();
    expect_close(connection.close(""), "");
    assert!(connection.is_ended());
}

#[test]
fn unqueued_session_is_closed() {
    let mut connection = fresh();
    expect_close(unqueued(&mut connection), "Failed to queue connection");
    assert!(connection.is_ended());
    assert_eq!(READY_QUEUE_CAPACITY, 100);
}

#[test]
fn announcement_comes_once_in_a_whole_life() {
    let mut connection = fresh();
    let mut announced = 0;
    let mut updates_before_announcement = 0;
    let frames = ["sync", "event() 1", "sync", "event(550e8400-e29b-41d4-a716-446655440000) 2", "bogus"];
    let mut next = 0;
    loop {
        let mut step = connection.next_socket_event();
        let mut over = false;
        loop {
            match step {
                Step::Deliver(Event::Connect(_)) => {
                    announced += 1;
                    break;
                }
                Step::Deliver(Event::Update(_)) => {
                    if announced == 0 {
                        updates_before_announcement += 1;
                    }
                    let _ = connection.send(Value::Null);
                    break;
                }
                Step::Read | Step::Write(_) => {
                    step = connection.receive(text(frames[next]));
                    next += 1;
                }
                Step::Close(_) | Step::Ended => {
                    over = true;
                    break;
                }
            }
        }
        if over {
            break;
        }
    }
    assert_eq!(announced, 1);
    assert_eq!(updates_before_announcement, 0);
    assert_eq!(next, frames.len());
    assert!(connection.is_ended());
}
