use clipped_ipc::events::Subscriptions;
use clipped_ipc::server::{delivers_to, keeps_subscriber, Delivery, EVENT_QUEUE_DEPTH};
use clipped_ipc::{ErrorCode, Event, EventStream, ProtocolError, RecorderStatus};

fn failure() -> Event {
    Event::RecordingFailed {
        recording_id: "r-1".to_owned(),
        error: ProtocolError::new(ErrorCode::RecordingFailed, "the encoder went away".to_owned()),
    }
}

#[test]
fn events_reach_the_subscribers_of_their_own_stream_and_nobody_else() {
    let mut publisher = Subscriptions::new();
    let status = publisher.subscribe(vec![EventStream::Status]);
    let errors = publisher.subscribe(vec![EventStream::Errors]);

    let outcomes = publisher.publish(&failure());

    assert_eq!(errors.try_recv().expect("the errors stream gets it"), failure());
    assert!(
        status.try_recv().is_err(),
        "a status subscriber should not receive an error event"
    );
    assert_eq!(outcomes, vec![None, Some(Delivery::Queued)]);
    assert!(delivers_to(&failure(), &vec![EventStream::Errors]));
    assert!(!delivers_to(&failure(), &vec![EventStream::Status]));
}

#[test]
fn closing_the_publisher_ends_every_subscription() {
    let mut publisher = Subscriptions::new();
    let events = publisher.subscribe(vec![EventStream::Status]);
    publisher.close();

    assert!(
        events.recv().is_err(),
        "a closed publisher must let the threads writing its events finish"
    );
    assert_eq!(publisher.subscriber_count(), 0);
}

#[test]
fn a_subscriber_that_stops_reading_loses_events_rather_than_stalling_the_publisher() {
    let mut publisher = Subscriptions::new();
    let _events = publisher.subscribe(vec![EventStream::Status]);

    for round in 0..EVENT_QUEUE_DEPTH * 2 {
        let outcomes = publisher.publish(&Event::StatusChanged { status: RecorderStatus::Idle });
        let expected = if round < EVENT_QUEUE_DEPTH { Delivery::Queued } else { Delivery::QueueFull };
        assert_eq!(outcomes, vec![Some(expected)]);
    }
    assert_eq!(publisher.subscriber_count(), 1, "a slow subscriber stays subscribed");
    assert!(keeps_subscriber(Delivery::QueueFull));
}

#[test]
fn a_subscriber_that_has_gone_is_forgotten() {
    let mut publisher = Subscriptions::new();
    let gone = publisher.subscribe(vec![EventStream::Errors]);
    let _staying = publisher.subscribe(vec![EventStream::Errors]);
    drop(gone);

    let outcomes = publisher.publish(&failure());
    assert_eq!(outcomes, vec![Some(Delivery::Gone), Some(Delivery::Queued)]);
    assert_eq!(publisher.subscriber_count(), 1);
    assert!(!keeps_subscriber(Delivery::Gone));
}

#[test]
fn an_event_this_build_cannot_place_goes_to_nobody() {
    let mut publisher = Subscriptions::new();
    let events = publisher.subscribe(vec![EventStream::Status, EventStream::Errors]);
    let raw: serde_json::Value = serde_json::from_str(r#"{"event":"later"}"#).expect("json");
    let outcomes = publisher.publish(&Event::Other(raw));
    assert_eq!(outcomes, vec![None]);
    assert!(events.try_recv().is_err());
}
