//! Data model of the broker: events, retry bookkeeping, registration
//! requests, and the rows the storage driver traffics in.
//!
//! Timestamps are UTC epoch seconds held in `i64`; event identifiers are
//! 128-bit UUID values held in `u128`. Payloads and schemas are opaque JSON
//! text.

use vstd::prelude::*;

verus! {

/// Retry attempts allowed per failed event before it is terminally failed.
pub const RETRY_CAP: i16 = 3;

/// Capacity of the bounded dispatch channel feeding the delivery worker.
pub const DEFAULT_QUEUE_CAPACITY: usize = 50;

/// Seconds the retry scheduler sleeps between polls.
pub const RETRY_SWEEP_INTERVAL_SECONDS: i64 = 30;

/// Seconds in one minute; the retry backoff is linear in minutes.
pub const SECONDS_PER_MINUTE: i64 = 60;

/// Upper bound on accepted clock readings, leaving room for the largest
/// backoff step so that retry-time arithmetic cannot overflow.
pub const MAX_TIMESTAMP: i64 = i64::MAX - 1000;

/// Retry bookkeeping carried by an event that is in flight as a retry.
#[derive(Clone, Copy)]
pub struct RetryDetails {
    /// Retry attempts already made for the event.
    pub retry_count: i16,
    /// Earliest instant at which the scheduler may re-inject the event.
    pub retry_time: i64,
}

/// The canonical event record passing through the dispatch channel.
pub struct VentrixEvent {
    pub id: u128,
    pub event_type: String,
    pub payload: String,
    /// Present exactly when the event is in flight as a retry.
    pub retry_details: Option<RetryDetails>,
}

/// A `failed_events` row joined with its published event, as handed back by
/// the storage driver when the scheduler asks for due retries.
pub struct FailedEventRow {
    pub id: u128,
    pub event_type: String,
    pub payload: String,
    pub retry_time: i64,
    pub retries: i16,
}

impl VentrixEvent {
    /// Reconstructs the dispatchable event for a due failed row, with the
    /// retry details populated so the worker can tell a retry attempt from
    /// a first attempt.
    pub fn from_failed_event(failed_event: &FailedEventRow) -> (r: Self)
        ensures
            r.id == failed_event.id,
            r.event_type == failed_event.event_type,
            r.payload == failed_event.payload,
            r.retry_details == Some(
                RetryDetails {
                    retry_count: failed_event.retries,
                    retry_time: failed_event.retry_time,
                },
            ),
    {
        Self {
            id: failed_event.id,
            event_type: failed_event.event_type.clone(),
            payload: failed_event.payload.clone(),
            retry_details: Some(
                RetryDetails { retry_count: failed_event.retries, retry_time: failed_event.retry_time },
            ),
        }
    }

    /// A copy of the event, field for field.
    pub fn duplicate(&self) -> (r: Self)
        ensures
            r == *self,
    {
        Self {
            id: self.id,
            event_type: self.event_type.clone(),
            payload: self.payload.clone(),
            retry_details: self.retry_details,
        }
    }
}

/// Caller-visible details of a registered service.
pub struct ServiceDetails {
    pub endpoint: String,
}

impl ServiceDetails {
    pub fn new(endpoint: String) -> (r: Self)
        ensures
            r.endpoint == endpoint,
    {
        Self { endpoint }
    }
}

/// Stored details of a registered event type.
pub struct EventTypeDetails {
    pub description: String,
    /// JSON text of the payload schema.
    pub payload_def: String,
}

impl EventTypeDetails {
    pub fn new(description: String, payload_def: String) -> (r: Self)
        ensures
            r.description == description,
            r.payload_def == payload_def,
    {
        Self { description, payload_def }
    }
}

/// Body answered to a successful listen request.
pub struct ListenToEventResponse {
    pub message: String,
}

/// Body of a publish request.
pub struct PublishEventRequest {
    pub event_type: String,
    pub payload: String,
}

/// Body of an event type registration request. The schema arrives as JSON
/// text and is validated structurally before it is stored.
pub struct NewEventTypeRequest {
    pub name: String,
    pub description: String,
    pub payload_definition: String,
}

/// A stored event type row.
pub struct EventType {
    pub id: String,
    pub name: String,
    pub description: String,
    pub payload_definition: String,
}

/// Body of a listen (subscribe) request.
pub struct ListenToEventReq {
    pub service_name: String,
    pub event_type: String,
    pub endpoint: String,
}

/// The schema text fetched for an event type at publish time.
#[derive(Debug)]
pub struct PayloadSchema {
    pub payload_definition: String,
}

/// Where one delivery of an event must go: the subscriber's name, base URL,
/// and callback path.
pub struct EventFulfillmentDetails {
    pub name: String,
    pub url: String,
    pub endpoint: String,
}

impl EventFulfillmentDetails {
    /// A copy of the details, field for field.
    pub fn duplicate(&self) -> (r: Self)
        ensures
            r == *self,
    {
        Self { name: self.name.clone(), url: self.url.clone(), endpoint: self.endpoint.clone() }
    }
}

/// A `failed_events` row as the storage driver keeps it.
pub struct FailedEvent {
    pub id: u128,
    pub event_id: u128,
    pub retry_time: i64,
    pub created_at: i64,
    pub retries: i16,
    /// Set once a retry succeeds; null while retries are pending and for
    /// terminally failed events.
    pub resolved_at: Option<i64>,
}

/// Outcome of handing a freshly persisted event to the dispatch channel.
pub enum VentrixQueueResponse {
    /// The event was persisted and enqueued for delivery.
    PublishedAndSaved(String),
    /// The event was persisted but could not be enqueued.
    PublishedNotSaved(String),
}

/// A stored service row.
pub struct Service {
    pub id: u128,
    pub name: String,
    pub url: String,
}

impl Service {
    /// A copy of the service row, field for field.
    pub fn duplicate(&self) -> (r: Self)
        ensures
            r == *self,
    {
        Self { id: self.id, name: self.name.clone(), url: self.url.clone() }
    }
}

/// Body of a service registration request.
pub struct RegisterServiceRequest {
    pub name: String,
    pub url: String,
}

/// Body of a service removal request.
pub struct DeleteServiceRequest {
    pub name: String,
}

/// Event type registration body used by the control plane's older wire
/// format, where the schema travels as an opaque description string.
pub struct NewEventType {
    pub name: String,
    pub description: String,
    pub payload_description: String,
}

/// Listen request of the older wire format, without a callback path.
pub struct ListenToEvent {
    pub service_name: String,
    pub event_type: String,
}

/// A newsletter-style subscription form body.
pub struct FormData {
    pub email: String,
    pub name: String,
}

} // verus!
