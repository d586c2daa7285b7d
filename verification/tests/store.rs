//! The in-memory storage driver and the data model around it.

use ventrix::errors::EventTypeAlreadyExistsError;
use ventrix::errors::EventTypeNotFoundError;
use ventrix::errors::InvalidPropertyDef;
use ventrix::errors::ParsingRecordToStructError;
use ventrix::errors::ServiceAlreadyExistsError;
use ventrix::errors::ServiceNotFoundError;
use ventrix::persistence::InMemoryDatabase;
use ventrix::persistence::ListenToEventError;
use ventrix::queue::DispatchQueue;
use ventrix::types::EventTypeDetails;
use ventrix::types::FailedEventRow;
use ventrix::types::ListenToEventReq;
use ventrix::types::NewEventTypeRequest;
use ventrix::types::RegisterServiceRequest;
use ventrix::types::ServiceDetails;
use ventrix::types::VentrixEvent;

fn mailer_request() -> RegisterServiceRequest {
    RegisterServiceRequest { name: String::from("mailer"), url: String::from("http://mailer.local") }
}

fn user_created_request() -> NewEventTypeRequest {
    NewEventTypeRequest {
        name: String::from("user.created"),
        description: String::from("a user was created"),
        payload_definition: String::from("{\"type\":\"object\"}"),
    }
}

fn event(id: u128) -> VentrixEvent {
    VentrixEvent {
        id,
        event_type: String::from("user.created"),
        payload: String::from("{}"),
        retry_details: None,
    }
}

#[test]
fn service_names_are_unique() {
    let mut db = InMemoryDatabase::new();
    db.register_service(&mailer_request()).unwrap();
    let err = db.register_service(&mailer_request()).unwrap_err();
    assert_eq!(err.message, "Service: \"mailer\" already exists");
    assert_eq!(db.services.len(), 1);
}

#[test]
fn removing_an_unknown_service_is_refused() {
    let mut db = InMemoryDatabase::new();
    let err = db.remove_service(&String::from("ghost")).unwrap_err();
    assert_eq!(err.message, "Service: \"ghost\" not found");

    db.register_service(&mailer_request()).unwrap();
    db.remove_service(&String::from("mailer")).unwrap();
    assert!(db.services.is_empty());
}

#[test]
fn event_type_names_are_unique() {
    let mut db = InMemoryDatabase::new();
    db.register_event_type(&user_created_request()).unwrap();
    let err = db.register_event_type(&user_created_request()).unwrap_err();
    assert_eq!(err.message, "Event type: \"user.created\" already exists");
    assert_eq!(db.event_types.len(), 1);
}

#[test]
fn schema_lookup_answers_the_stored_text() {
    let mut db = InMemoryDatabase::new();
    db.register_event_type(&user_created_request()).unwrap();
    let schema = db.get_schema_for_event_type(&String::from("user.created")).unwrap();
    assert_eq!(schema.payload_definition, "{\"type\":\"object\"}");

    let err = db.get_schema_for_event_type(&String::from("ghost")).unwrap_err();
    assert_eq!(err.message, "EventType: \"ghost\" not found");
}

#[test]
fn subscribing_needs_service_and_event_type() {
    let mut db = InMemoryDatabase::new();
    let req = ListenToEventReq {
        service_name: String::from("mailer"),
        event_type: String::from("user.created"),
        endpoint: String::from("/on-user"),
    };
    match db.register_service_for_event_type(&req) {
        Err(ListenToEventError::ServiceNotFound(e)) => {
            assert_eq!(e.message, "Service: \"mailer\" not found");
        },
        _ => panic!("expected a service-not-found refusal"),
    }
    db.register_service(&mailer_request()).unwrap();
    match db.register_service_for_event_type(&req) {
        Err(ListenToEventError::EventTypeNotFound(e)) => {
            assert_eq!(e.message, "EventType: \"user.created\" not found");
        },
        _ => panic!("expected an event-type-not-found refusal"),
    }
    db.register_event_type(&user_created_request()).unwrap();
    db.register_service_for_event_type(&req).unwrap();

    let subscribers = db.get_service_by_event_type(&String::from("user.created"));
    assert_eq!(subscribers.len(), 1);
    assert_eq!(subscribers[0].name, "mailer");
    assert_eq!(subscribers[0].url, "http://mailer.local");
    assert_eq!(subscribers[0].endpoint, "/on-user");
    assert!(db.get_service_by_event_type(&String::from("other")).is_empty());
}

#[test]
fn saving_twice_keeps_one_row_per_id() {
    let mut db = InMemoryDatabase::new();
    db.save_published_event(&event(7));
    db.fulfil_event(7, 500).unwrap();
    assert_eq!(db.published_events[0].fulfilled_at, Some(500));

    // an upsert replaces the row and clears the fulfillment mark
    db.save_published_event(&event(7));
    assert_eq!(db.published_events.len(), 1);
    assert!(db.published_events[0].fulfilled_at.is_none());
}

#[test]
fn fulfil_of_unknown_event_reports_its_id() {
    let mut db = InMemoryDatabase::new();
    let err = db.fulfil_event(12345678901234567890, 500).unwrap_err();
    assert_eq!(err.message, "Event: \"12345678901234567890\" not found");
}

#[test]
fn failed_rows_are_keyed_by_event() {
    let mut db = InMemoryDatabase::new();
    // a failure for an event that was never published is refused
    assert!(db.add_failed_event(&event(7), 1_000).is_err());

    db.save_published_event(&event(7));
    db.add_failed_event(&event(7), 1_000).unwrap();
    // recording the failure again changes nothing
    db.add_failed_event(&event(7), 2_000).unwrap();
    assert_eq!(db.failed_events.len(), 1);
    assert_eq!(db.failed_events[0].event_id, 7);
    assert_eq!(db.failed_events[0].retries, 0);
    assert_eq!(db.failed_events[0].retry_time, 1_060);
    assert_eq!(db.failed_events[0].created_at, 1_000);
}

#[test]
fn due_selection_filters_cap_time_and_resolution() {
    let mut db = InMemoryDatabase::new();
    for id in 1..=4u128 {
        db.save_published_event(&event(id));
        db.add_failed_event(&event(id), 1_000).unwrap();
    }
    // row 1 is resolved, row 2 is at the cap, row 3 is not yet due
    db.resolve_failed_event(1, 1_100).unwrap();
    db.update_retry_time(2, 1_060, 3).unwrap();
    db.update_retry_time(3, 9_999, 1).unwrap();

    let due = db.get_failed_events(2_000);
    assert_eq!(due.len(), 1);
    assert_eq!(due[0].id, 4);
    let details = due[0].retry_details.as_ref().unwrap();
    assert_eq!(details.retry_count, 0);
    assert_eq!(details.retry_time, 1_060);

    // a retry time is due the moment it is reached, not before
    assert!(db.get_failed_events(1_059).is_empty());
    assert_eq!(db.get_failed_events(1_060).len(), 1);
}

#[test]
fn update_retry_time_touches_only_its_event() {
    let mut db = InMemoryDatabase::new();
    db.save_published_event(&event(1));
    db.save_published_event(&event(2));
    db.add_failed_event(&event(1), 1_000).unwrap();
    db.add_failed_event(&event(2), 1_000).unwrap();

    db.update_retry_time(1, 5_000, 2).unwrap();
    assert_eq!(db.failed_events[0].retry_time, 5_000);
    assert_eq!(db.failed_events[0].retries, 2);
    assert_eq!(db.failed_events[1].retry_time, 1_060);
    assert_eq!(db.failed_events[1].retries, 0);

    let err = db.update_retry_time(9, 5_000, 1).unwrap_err();
    assert_eq!(err.message, "Event: \"9\" not found");
}

#[test]
fn dispatch_queue_is_first_in_first_out_and_bounded() {
    let mut queue = DispatchQueue::new(2);
    assert_eq!(queue.capacity(), 2);
    assert!(queue.try_enqueue(event(1)));
    assert!(queue.try_enqueue(event(2)));
    assert!(!queue.try_enqueue(event(3)));
    assert_eq!(queue.len(), 2);
    assert_eq!(queue.dequeue().unwrap().id, 1);
    assert!(queue.try_enqueue(event(3)));
    assert_eq!(queue.dequeue().unwrap().id, 2);
    assert_eq!(queue.dequeue().unwrap().id, 3);
    assert!(queue.dequeue().is_none());
}

#[test]
fn an_event_is_rebuilt_from_its_failed_row() {
    let row = FailedEventRow {
        id: 42,
        event_type: String::from("user.created"),
        payload: String::from("{\"name\":\"Ada\"}"),
        retry_time: 7_000,
        retries: 2,
    };
    let rebuilt = VentrixEvent::from_failed_event(&row);
    assert_eq!(rebuilt.id, 42);
    assert_eq!(rebuilt.event_type, "user.created");
    assert_eq!(rebuilt.payload, "{\"name\":\"Ada\"}");
    let details = rebuilt.retry_details.unwrap();
    assert_eq!(details.retry_count, 2);
    assert_eq!(details.retry_time, 7_000);
}

#[test]
fn detail_constructors_keep_their_fields() {
    let service = ServiceDetails::new(String::from("/hook"));
    assert_eq!(service.endpoint, "/hook");
    let details = EventTypeDetails::new(String::from("desc"), String::from("{}"));
    assert_eq!(details.description, "desc");
    assert_eq!(details.payload_def, "{}");
}

#[test]
fn error_constructors_quote_the_offending_name() {
    assert_eq!(
        EventTypeAlreadyExistsError::new(String::from("user.created")).message,
        "Event type: \"user.created\" already exists"
    );
    assert_eq!(
        ServiceAlreadyExistsError::new(String::from("mailer")).message,
        "Service: \"mailer\" already exists"
    );
    assert_eq!(ServiceNotFoundError::new("mailer").message, "Service: \"mailer\" not found");
    assert_eq!(
        EventTypeNotFoundError::new("user.created").message,
        "EventType: \"user.created\" not found"
    );
    assert_eq!(
        ParsingRecordToStructError::new(String::from("Service")).message,
        "Could not parse record into struct: \"Service\""
    );
    assert_eq!(InvalidPropertyDef::new(String::from("broken")).message, "broken");
}
