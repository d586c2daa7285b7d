//! End-to-end broker scenarios over the in-memory driver: publish,
//! fan-out bookkeeping, failure rows, and the retry scheduler.

use ventrix::persistence::InMemoryDatabase;
use ventrix::queue_service::destination_url;
use ventrix::queue_service::DeliveryResponse;
use ventrix::queue_service::PublishOutcome;
use ventrix::queue_service::PublishRejection;
use ventrix::queue_service::VentrixQueue;
use ventrix::types::ListenToEventReq;
use ventrix::types::NewEventTypeRequest;
use ventrix::types::PublishEventRequest;
use ventrix::types::RegisterServiceRequest;

const NOW: i64 = 1_000_000;
const USER_CREATED_SCHEMA: &str =
    "{\"type\":\"object\",\"properties\":{\"name\":{\"type\":\"string\"}},\"required\":[\"name\"]}";

fn broker_with_subscription() -> VentrixQueue {
    let mut queue = VentrixQueue::new(InMemoryDatabase::new());
    queue
        .database
        .register_event_type(&NewEventTypeRequest {
            name: String::from("user.created"),
            description: String::from("a user was created"),
            payload_definition: String::from(USER_CREATED_SCHEMA),
        })
        .unwrap();
    queue
        .database
        .register_service(&RegisterServiceRequest {
            name: String::from("mailer"),
            url: String::from("http://mailer.local"),
        })
        .unwrap();
    queue
        .listen_to_event(&ListenToEventReq {
            service_name: String::from("mailer"),
            event_type: String::from("user.created"),
            endpoint: String::from("/on-user"),
        })
        .unwrap();
    queue
}

fn publish_ada(queue: &mut VentrixQueue) -> u128 {
    let outcome = queue.publish(&PublishEventRequest {
        event_type: String::from("user.created"),
        payload: String::from("{\"name\":\"Ada\"}"),
    });
    match outcome {
        PublishOutcome::PublishedAndSaved { id } => id,
        _ => panic!("expected the event to be published and enqueued"),
    }
}

#[test]
fn publish_then_successful_delivery_marks_fulfilled() {
    let mut queue = broker_with_subscription();
    let id = publish_ada(&mut queue);

    // exactly one published row with the returned id, not yet fulfilled
    let rows: Vec<_> = queue.database.published_events.iter().filter(|r| r.id == id).collect();
    assert_eq!(rows.len(), 1);
    assert_eq!(rows[0].event_type, "user.created");
    assert_eq!(rows[0].payload, "{\"name\":\"Ada\"}");
    assert!(rows[0].fulfilled_at.is_none());

    // the one subscriber is addressed at its base URL plus callback path
    let subscribers = queue.database.get_service_by_event_type(&String::from("user.created"));
    assert_eq!(subscribers.len(), 1);
    let target = destination_url(&subscribers[0].url, &subscribers[0].endpoint);
    assert_eq!(target, "http://mailer.local/on-user");

    let popped = queue.process_next_event(&vec![DeliveryResponse::Delivered], NOW);
    let event = popped.expect("one event was enqueued");
    assert_eq!(event.id, id);
    assert!(event.retry_details.is_none());

    assert_eq!(queue.database.published_events[0].fulfilled_at, Some(NOW));
    assert!(queue.database.failed_events.is_empty());
}

#[test]
fn first_failure_records_one_failed_row_due_in_a_minute() {
    let mut queue = broker_with_subscription();
    let id = publish_ada(&mut queue);

    queue.process_next_event(&vec![DeliveryResponse::ServerError], NOW);

    assert_eq!(queue.database.failed_events.len(), 1);
    let row = &queue.database.failed_events[0];
    assert_eq!(row.event_id, id);
    assert_eq!(row.retries, 0);
    assert_eq!(row.retry_time, NOW + 60);
    assert_eq!(row.created_at, NOW);
    assert!(row.resolved_at.is_none());
    // the event is not fulfilled
    assert!(queue.database.published_events[0].fulfilled_at.is_none());
    // and nothing is waiting on the dispatch channel until the scheduler runs
    assert_eq!(queue.queue.len(), 0);
}

#[test]
fn failed_event_succeeding_on_retry_is_resolved_and_fulfilled() {
    let mut queue = broker_with_subscription();
    let id = publish_ada(&mut queue);
    queue.process_next_event(&vec![DeliveryResponse::ServerError], NOW);

    // before the retry time nothing is re-injected
    assert_eq!(queue.enqueue_due_retries(NOW + 59), 0);
    // past the retry time the scheduler re-injects the event once
    assert_eq!(queue.enqueue_due_retries(NOW + 61), 1);

    let retry_now = NOW + 61;
    let popped = queue.process_next_event(&vec![DeliveryResponse::Delivered], retry_now);
    let event = popped.expect("the retry was enqueued");
    assert_eq!(event.id, id);
    let details = event.retry_details.expect("a retry carries its details");
    assert_eq!(details.retry_count, 0);
    assert_eq!(details.retry_time, NOW + 60);

    let row = &queue.database.failed_events[0];
    assert_eq!(row.resolved_at, Some(retry_now));
    assert_eq!(row.retries, 0);
    assert_eq!(queue.database.published_events[0].fulfilled_at, Some(retry_now));
    // a resolved event is never re-injected again
    assert_eq!(queue.enqueue_due_retries(NOW + 10_000), 0);
}

#[test]
fn payload_not_matching_schema_is_rejected_with_schema_echoed() {
    let mut queue = broker_with_subscription();
    let outcome = queue.publish(&PublishEventRequest {
        event_type: String::from("user.created"),
        payload: String::from("{\"age\":42}"),
    });
    match outcome {
        PublishOutcome::Rejected(PublishRejection::PayloadMismatch { expected_schema }) => {
            assert_eq!(expected_schema, USER_CREATED_SCHEMA);
        },
        _ => panic!("expected a payload-mismatch rejection"),
    }
    assert!(queue.database.published_events.is_empty());
    assert_eq!(queue.queue.len(), 0);
}

#[test]
fn publish_to_unknown_event_type_is_rejected_without_persistence() {
    let mut queue = VentrixQueue::new(InMemoryDatabase::new());
    let outcome = queue.publish(&PublishEventRequest {
        event_type: String::from("ghost"),
        payload: String::from("{}"),
    });
    match outcome {
        PublishOutcome::Rejected(PublishRejection::SchemaMissing(e)) => {
            assert_eq!(e.message, "EventType: \"ghost\" not found");
        },
        _ => panic!("expected a schema-missing rejection"),
    }
    assert!(queue.database.published_events.is_empty());
    assert_eq!(queue.queue.len(), 0);
}

#[test]
fn retry_revisits_every_subscriber_after_partial_failure() {
    let mut queue = VentrixQueue::new(InMemoryDatabase::new());
    queue
        .database
        .register_event_type(&NewEventTypeRequest {
            name: String::from("order.placed"),
            description: String::from("an order was placed"),
            payload_definition: String::from(
                "{\"type\":\"object\",\"properties\":{},\"required\":[]}",
            ),
        })
        .unwrap();
    for (name, url) in [("service-a", "http://a.local"), ("service-b", "http://b.local")] {
        queue
            .database
            .register_service(&RegisterServiceRequest {
                name: String::from(name),
                url: String::from(url),
            })
            .unwrap();
        queue
            .listen_to_event(&ListenToEventReq {
                service_name: String::from(name),
                event_type: String::from("order.placed"),
                endpoint: String::from("/on-order"),
            })
            .unwrap();
    }
    let outcome = queue.publish(&PublishEventRequest {
        event_type: String::from("order.placed"),
        payload: String::from("{}"),
    });
    let id = match outcome {
        PublishOutcome::PublishedAndSaved { id } => id,
        _ => panic!("expected the event to be published and enqueued"),
    };

    // first attempt: A answers 200, B answers 500 -> one failed row
    queue.process_next_event(
        &vec![DeliveryResponse::Delivered, DeliveryResponse::ServerError],
        NOW,
    );
    assert_eq!(queue.database.failed_events.len(), 1);
    assert_eq!(queue.database.failed_events[0].event_id, id);

    // the retry addresses the whole event: both subscribers again
    assert_eq!(queue.enqueue_due_retries(NOW + 61), 1);
    let subscribers = queue.database.get_service_by_event_type(&String::from("order.placed"));
    assert_eq!(subscribers.len(), 2);
    let popped = queue.process_next_event(
        &vec![DeliveryResponse::Delivered, DeliveryResponse::Delivered],
        NOW + 61,
    );
    assert!(popped.is_some());
    assert_eq!(queue.database.failed_events[0].resolved_at, Some(NOW + 61));
}

#[test]
fn four_failures_with_cap_three_end_terminally_failed() {
    let mut queue = broker_with_subscription();
    publish_ada(&mut queue);

    // first attempt fails: row inserted with no retries made
    queue.process_next_event(&vec![DeliveryResponse::ServerError], NOW);
    assert_eq!(queue.database.failed_events[0].retries, 0);

    // three retry cycles, each failing, drive the count to the cap
    let mut t = NOW;
    for expected_retries in 1..=3i16 {
        t += 1_000;
        assert_eq!(queue.enqueue_due_retries(t), 1);
        queue.process_next_event(&vec![DeliveryResponse::ServerError], t);
        let row = &queue.database.failed_events[0];
        assert_eq!(row.retries, expected_retries);
        // linear backoff: (retries + 1) minutes from the attempt
        assert_eq!(row.retry_time, t + 60 * (expected_retries as i64 + 1));
    }

    // at the cap the event is terminally failed: never re-injected
    assert_eq!(queue.enqueue_due_retries(t + 1_000_000), 0);
    let row = &queue.database.failed_events[0];
    assert_eq!(row.retries, 3);
    assert!(row.resolved_at.is_none());
    assert!(queue.database.published_events[0].fulfilled_at.is_none());
}

#[test]
fn transport_error_records_nothing() {
    let mut queue = broker_with_subscription();
    publish_ada(&mut queue);
    queue.process_next_event(&vec![DeliveryResponse::NoResponse], NOW);
    assert!(queue.database.failed_events.is_empty());
    assert!(queue.database.published_events[0].fulfilled_at.is_none());
}

#[test]
fn full_channel_keeps_the_event_persisted() {
    let mut queue = broker_with_subscription();
    for _ in 0..50 {
        publish_ada(&mut queue);
    }
    assert_eq!(queue.queue.len(), 50);
    let outcome = queue.publish(&PublishEventRequest {
        event_type: String::from("user.created"),
        payload: String::from("{\"name\":\"Ada\"}"),
    });
    let id = match outcome {
        PublishOutcome::PublishedNotSaved { id } => id,
        _ => panic!("expected the channel to refuse the event"),
    };
    // the event is persisted even though the channel refused it
    assert!(queue.database.published_events.iter().any(|r| r.id == id));
    assert_eq!(queue.queue.len(), 50);
}

#[test]
fn scheduler_does_not_reinject_before_the_new_retry_time() {
    let mut queue = broker_with_subscription();
    publish_ada(&mut queue);
    queue.process_next_event(&vec![DeliveryResponse::ServerError], NOW);

    // retry fails: the retry time moves two minutes out from the attempt
    assert_eq!(queue.enqueue_due_retries(NOW + 61), 1);
    let t = NOW + 61;
    queue.process_next_event(&vec![DeliveryResponse::ServerError], t);
    assert_eq!(queue.database.failed_events[0].retries, 1);
    assert_eq!(queue.database.failed_events[0].retry_time, t + 120);

    // until that instant passes, polls re-inject nothing
    assert_eq!(queue.enqueue_due_retries(t + 119), 0);
    assert_eq!(queue.enqueue_due_retries(t + 120), 1);
}
