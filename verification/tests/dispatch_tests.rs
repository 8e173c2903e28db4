use aws_iot_device_sdk::events::{
    dispatch_async_notification, dispatch_async_notifications, dispatch_notification,
    dispatch_notifications, Acknowledgement, IncomingEvent, Notification, PublishedMessage,
    RecordedCall, RecordingHandler,
};

fn connected() -> Notification {
    Notification::Event(IncomingEvent::Connected)
}

fn published(topic: &str, payload: Vec<u8>) -> Notification {
    Notification::Event(IncomingEvent::MessagePublished(PublishedMessage {
        topic: topic.to_string(),
        payload,
    }))
}

fn acknowledged(packet_id: u16) -> Notification {
    Notification::Event(IncomingEvent::PublishAcknowledged(Acknowledgement { packet_id }))
}

#[test]
fn async_dispatch_keeps_notification_order() {
    let mut handler = RecordingHandler::new();
    dispatch_async_notifications(
        &mut handler,
        vec![connected(), published("t", vec![1, 2, 3]), acknowledged(7)],
    );
    assert_eq!(handler.calls.len(), 3);
    assert!(matches!(handler.calls[0], RecordedCall::Connect));
    match &handler.calls[1] {
        RecordedCall::Publish(message) => {
            assert_eq!(message.topic.as_str(), "t");
            assert_eq!(message.payload, vec![1, 2, 3]);
        }
        other => panic!("expected a publish record, got {:?}", other),
    }
    assert!(matches!(handler.calls[2], RecordedCall::PubAck(7)));
}

#[test]
fn blocking_dispatch_ignores_acknowledgements() {
    let mut handler = RecordingHandler::new();
    dispatch_notifications(
        &mut handler,
        vec![connected(), published("t", vec![9]), acknowledged(7)],
    );
    assert_eq!(handler.calls.len(), 2);
    assert!(matches!(handler.calls[0], RecordedCall::Connect));
    assert!(matches!(handler.calls[1], RecordedCall::Publish(_)));
}

#[test]
fn empty_and_failed_notifications_are_ignored() {
    let mut handler = RecordingHandler::new();
    dispatch_async_notifications(
        &mut handler,
        vec![
            Notification::Empty,
            Notification::Failed,
            Notification::Event(IncomingEvent::Other),
        ],
    );
    assert!(handler.calls.is_empty());

    dispatch_notification(&mut handler, Notification::Empty);
    dispatch_notification(&mut handler, Notification::Failed);
    dispatch_notification(&mut handler, Notification::Event(IncomingEvent::Other));
    assert!(handler.calls.is_empty());
}

#[test]
fn malformed_notification_does_not_stop_later_dispatch() {
    let mut handler = RecordingHandler::new();
    dispatch_async_notifications(
        &mut handler,
        vec![Notification::Failed, Notification::Empty, connected()],
    );
    assert_eq!(handler.calls.len(), 1);
    assert!(matches!(handler.calls[0], RecordedCall::Connect));
}

#[test]
fn connect_is_dispatched_once_per_connected_event() {
    let mut handler = RecordingHandler::new();
    dispatch_async_notifications(
        &mut handler,
        vec![connected(), Notification::Empty, connected(), acknowledged(3)],
    );
    let connects = handler
        .calls
        .iter()
        .filter(|c| matches!(c, RecordedCall::Connect))
        .count();
    assert_eq!(connects, 2);
}

#[test]
fn no_puback_dispatch_without_acknowledgement() {
    let mut handler = RecordingHandler::new();
    dispatch_async_notifications(
        &mut handler,
        vec![
            connected(),
            published("a", vec![1]),
            Notification::Empty,
            published("b", vec![2]),
            Notification::Failed,
        ],
    );
    assert!(handler
        .calls
        .iter()
        .all(|c| !matches!(c, RecordedCall::PubAck(_))));

    let mut blocking = RecordingHandler::new();
    dispatch_notifications(&mut blocking, vec![acknowledged(1), acknowledged(2)]);
    assert!(blocking.calls.is_empty());
}

#[test]
fn single_async_dispatch_routes_each_kind() {
    let mut handler = RecordingHandler::new();
    dispatch_async_notification(&mut handler, connected());
    dispatch_async_notification(&mut handler, published("x", vec![]));
    dispatch_async_notification(&mut handler, acknowledged(42));
    assert_eq!(handler.calls.len(), 3);
    assert!(matches!(handler.calls[2], RecordedCall::PubAck(42)));
}
