use websocket_service::connection::{Connection, TransportEvent};
use websocket_service::handle::{HandleError, WebSocketHandle};
use websocket_service::status::{WebSocketStatus, CLOSED_CODE, OPENED_CODE};

#[derive(Debug, PartialEq, Eq)]
enum Message {
    Data(String),
    Status(WebSocketStatus),
}

fn data(s: &str) -> Message {
    Message::Data(s.to_string())
}

fn connection() -> Connection<fn(String) -> Message, fn(WebSocketStatus) -> Message> {
    Connection::new(Message::Data, Message::Status)
}

#[test]
fn open_message_close_scenario() {
    let mut conn = connection();
    assert_eq!(conn.on_event(TransportEvent::Open), vec![Message::Status(WebSocketStatus::Opened)]);
    assert_eq!(conn.on_event(TransportEvent::Message("hello".to_string())), vec![data("hello")]);
    assert!(!conn.is_closed());
    assert_eq!(conn.on_event(TransportEvent::Close), vec![Message::Status(WebSocketStatus::Closed)]);
    assert!(conn.is_closed());
}

#[test]
fn lifecycle_stream_is_in_order() {
    let mut conn = connection();
    let events = vec![
        TransportEvent::Open,
        TransportEvent::Message("m1".to_string()),
        TransportEvent::Message("m2".to_string()),
        TransportEvent::Message("m3".to_string()),
        TransportEvent::Close,
    ];
    assert_eq!(
        conn.on_events(events),
        vec![
            Message::Status(WebSocketStatus::Opened),
            data("m1"),
            data("m2"),
            data("m3"),
            Message::Status(WebSocketStatus::Closed),
        ]
    );
    assert!(conn.is_closed());
}

#[test]
fn empty_batch_dispatches_nothing() {
    let mut conn = connection();
    assert_eq!(conn.on_events(Vec::new()), Vec::<Message>::new());
    assert!(!conn.is_closed());
}

#[test]
fn error_then_close_reports_closed_once() {
    let mut conn = connection();
    let events = vec![TransportEvent::Open, TransportEvent::Error, TransportEvent::Close];
    assert_eq!(
        conn.on_events(events),
        vec![Message::Status(WebSocketStatus::Opened), Message::Status(WebSocketStatus::Closed)]
    );
    assert!(conn.is_closed());
}

#[test]
fn nothing_dispatched_after_close() {
    let mut conn = connection();
    assert_eq!(conn.on_event(TransportEvent::Close), vec![Message::Status(WebSocketStatus::Closed)]);
    assert!(conn.on_event(TransportEvent::Message("late".to_string())).is_empty());
    assert!(conn.on_event(TransportEvent::Open).is_empty());
    assert!(conn.on_event(TransportEvent::Close).is_empty());
}

#[test]
fn decoder_sees_the_payload_unchanged() {
    let mut conn = Connection::new(|s: String| s.len(), |st: WebSocketStatus| match st {
        WebSocketStatus::Opened => 100,
        WebSocketStatus::Closed => 200,
    });
    assert_eq!(conn.on_event(TransportEvent::Open), vec![100]);
    assert_eq!(conn.on_event(TransportEvent::Message("abcd".to_string())), vec![4]);
    assert_eq!(conn.on_event(TransportEvent::Message(String::new())), vec![0]);
    assert_eq!(conn.on_event(TransportEvent::Error), vec![200]);
}

#[test]
fn same_payload_decodes_to_same_message() {
    let mut conn = connection();
    let first = conn.on_event(TransportEvent::Message("same".to_string()));
    conn.on_event(TransportEvent::Open);
    let second = conn.on_event(TransportEvent::Message("same".to_string()));
    assert_eq!(first, second);
    assert_eq!(first, vec![data("same")]);
}

#[test]
fn send_while_live_forwards_payload() {
    let handle = WebSocketHandle::new(7u32);
    assert!(handle.is_live());
    assert_eq!(*handle.socket(), 7);
    assert_eq!(handle.send(Some("ping".to_string())), Ok(Some("ping".to_string())));
    assert_eq!(handle.send(None), Ok(None));
    assert!(handle.is_live());
}

#[test]
fn cancel_releases_once_then_send_fails() {
    let mut handle = WebSocketHandle::new("socket".to_string());
    assert_eq!(handle.send(Some("ping".to_string())), Ok(Some("ping".to_string())));
    assert_eq!(handle.cancel(), Ok("socket".to_string()));
    assert!(!handle.is_live());
    assert_eq!(handle.send(Some("ping".to_string())), Err(HandleError::SendAfterClose));
    assert_eq!(handle.send(None), Err(HandleError::SendAfterClose));
}

#[test]
fn second_cancel_is_rejected() {
    let mut handle = WebSocketHandle::new(1u8);
    assert_eq!(handle.cancel(), Ok(1));
    assert_eq!(handle.cancel(), Err(HandleError::CloseTwice));
    assert!(!handle.is_live());
}

#[test]
fn status_codes_map_both_ways() {
    assert_eq!(WebSocketStatus::from_code(1), WebSocketStatus::Opened);
    assert_eq!(WebSocketStatus::from_code(0), WebSocketStatus::Closed);
    assert_eq!(OPENED_CODE, 1);
    assert_eq!(CLOSED_CODE, 0);
    assert_eq!(WebSocketStatus::Opened.code(), 1);
    assert_eq!(WebSocketStatus::Closed.code(), 0);
}

#[test]
fn unknown_status_code_is_rejected() {
    assert_eq!(WebSocketStatus::try_from_code(1), Some(WebSocketStatus::Opened));
    assert_eq!(WebSocketStatus::try_from_code(0), Some(WebSocketStatus::Closed));
    assert_eq!(WebSocketStatus::try_from_code(2), None);
    assert_eq!(WebSocketStatus::try_from_code(u32::MAX), None);
}

#[test]
fn status_codes_become_open_and_close_events() {
    assert_eq!(TransportEvent::from_status_code(1), Some(TransportEvent::Open));
    assert_eq!(TransportEvent::from_status_code(0), Some(TransportEvent::Close));
    assert_eq!(TransportEvent::from_status_code(3), None);
}
