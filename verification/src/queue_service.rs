//! The broker core: the publish pipeline, the delivery worker's
//! bookkeeping, and the retry scheduler's re-injection pass.
//!
//! HTTP itself happens outside; the worker's decisions are stated here as
//! functions of the event and of each subscriber's response, and the
//! storage effects of one full fan-out pass are pinned down by
//! [`spec_deliver`].

use vstd::prelude::*;
use crate::errors::EventTypeNotFoundError;
use crate::persistence::published_count;
use crate::persistence::spec_add_failed;
use crate::persistence::spec_fulfil;
use crate::persistence::spec_resolve_failed;
use crate::persistence::spec_save_published;
use crate::persistence::spec_update_retry;
use crate::persistence::subscribers_of;
use crate::persistence::due_events;
use crate::persistence::lemma_published_count_unique;
use crate::persistence::DbModel;
use crate::persistence::InMemoryDatabase;
use crate::persistence::InsertDataResponse;
use crate::persistence::ListenToEventError;
use crate::queue::DispatchQueue;
use crate::runtime::fresh_uuid_128;
use crate::schema_validator::payload_is_valid;
use crate::schema_validator::payload_valid;
use crate::types::EventFulfillmentDetails;
use crate::types::ListenToEventReq;
use crate::types::PublishEventRequest;
use crate::types::VentrixEvent;
use crate::types::DEFAULT_QUEUE_CAPACITY;
use crate::types::MAX_TIMESTAMP;
use crate::types::RETRY_CAP;
use crate::types::SECONDS_PER_MINUTE;

verus! {

/// Whether a listen request created a new entry for its event type or
/// joined an existing one.
pub enum ListenToEventResult {
    NewEntry,
    Existed,
}

/// One subscriber's answer to a delivery POST.
#[derive(Clone, Copy, PartialEq, Eq, Structural, Debug)]
pub enum DeliveryResponse {
    /// An HTTP response with a 2xx status.
    Delivered,
    /// An HTTP response with a non-2xx status.
    ServerError,
    /// A transport error: no HTTP response at all.
    NoResponse,
}

/// What the worker must record for one subscriber's response, and whether
/// the fan-out pass ends there.
pub enum DeliveryAction {
    /// A 2xx answer: resolve the failed row first when this was a retry,
    /// then mark the event fulfilled.
    Fulfil { resolve_first: bool },
    /// A first-attempt non-2xx answer: insert the event's failed row.
    RecordFailure,
    /// A non-2xx answer during a retry: move the retry bookkeeping forward
    /// and end this pass; the remaining subscribers wait for the next
    /// cycle.
    ScheduleRetry { retry_time: i64, retries: i16 },
    /// A transport error: nothing is recorded.
    Ignore,
}

/// The instant a failed event becomes due again after one more non-2xx
/// answer: linear backoff, one minute more per attempt already made.
pub open spec fn retry_backoff_time(now: i64, prior_retries: i16) -> int {
    now + SECONDS_PER_MINUTE * (prior_retries + 2)
}

/// The snapshot after the worker recorded a 2xx answer: the failed row is
/// resolved when the event was in flight as a retry, and the event is
/// marked fulfilled either way.
pub open spec fn spec_on_success(m: DbModel, event: VentrixEvent, now: i64) -> DbModel {
    let resolved = if event.retry_details is Some {
        spec_resolve_failed(m, event.id, now)
    } else {
        m
    };
    spec_fulfil(resolved, event.id, now)
}

/// The snapshot after the worker recorded one subscriber's response.
pub open spec fn spec_delivery_step(
    m: DbModel,
    event: VentrixEvent,
    response: DeliveryResponse,
    now: i64,
) -> DbModel {
    match response {
        DeliveryResponse::Delivered => spec_on_success(m, event, now),
        DeliveryResponse::NoResponse => m,
        DeliveryResponse::ServerError => match event.retry_details {
            Some(details) => spec_update_retry(
                m,
                event.id,
                retry_backoff_time(now, details.retry_count) as i64,
                (details.retry_count + 1) as i16,
            ),
            None => spec_add_failed(m, event.id, now),
        },
    }
}

/// Whether recording this response ends the fan-out pass: only a non-2xx
/// answer during a retry does.
pub open spec fn delivery_stops(event: VentrixEvent, response: DeliveryResponse) -> bool {
    response is ServerError && event.retry_details is Some
}

/// The snapshot after one full fan-out pass for an event, given the
/// responses of its subscribers in order. The pass folds
/// [`spec_delivery_step`] over the responses and ends early when a retry
/// sees a non-2xx answer.
pub open spec fn spec_deliver(
    m: DbModel,
    event: VentrixEvent,
    responses: Seq<DeliveryResponse>,
    now: i64,
) -> DbModel
    decreases responses.len(),
{
    if responses.len() == 0 {
        m
    } else {
        let next = spec_delivery_step(m, event, responses[0], now);
        if delivery_stops(event, responses[0]) {
            next
        } else {
            spec_deliver(next, event, responses.drop_first(), now)
        }
    }
}

/// Decides what one subscriber's response means for the event's records,
/// without touching storage. The delivery loop performs the returned
/// action through the storage interface.
pub fn classify_delivery_response(event: &VentrixEvent, response: &DeliveryResponse, now: i64) -> (r:
    DeliveryAction)
    requires
        0 <= now <= MAX_TIMESTAMP,
        event.retry_details is Some ==> 0 <= event.retry_details.unwrap().retry_count < RETRY_CAP,
    ensures
        r == (match *response {
            DeliveryResponse::Delivered => DeliveryAction::Fulfil {
                resolve_first: event.retry_details is Some,
            },
            DeliveryResponse::NoResponse => DeliveryAction::Ignore,
            DeliveryResponse::ServerError => match event.retry_details {
                Some(details) => DeliveryAction::ScheduleRetry {
                    retry_time: retry_backoff_time(now, details.retry_count) as i64,
                    retries: (details.retry_count + 1) as i16,
                },
                None => DeliveryAction::RecordFailure,
            },
        }),
{
    match response {
        DeliveryResponse::Delivered => DeliveryAction::Fulfil {
            resolve_first: event.retry_details.is_some(),
        },
        DeliveryResponse::NoResponse => DeliveryAction::Ignore,
        DeliveryResponse::ServerError => match &event.retry_details {
            Some(details) => {
                let retries = details.retry_count + 1;
                let minutes_to_wait = retries + 1;
                let retry_time = now + SECONDS_PER_MINUTE * (minutes_to_wait as i64);
                DeliveryAction::ScheduleRetry { retry_time, retries }
            },
            None => DeliveryAction::RecordFailure,
        },
    }
}

/// Bookkeeping after one subscriber answered 2xx: a retry resolves the
/// event's failed row first, then the event is marked fulfilled. Update
/// failures are absorbed, as the delivery itself succeeded.
pub fn on_success_response(database: &mut InMemoryDatabase, event: &VentrixEvent, now: i64)
    requires
        old(database)@.wf(),
    ensures
        final(database)@.wf(),
        final(database)@ == spec_on_success(old(database)@, *event, now),
{
    if event.retry_details.is_some() {
        let _ = database.resolve_failed_event(event.id, now);
    }
    let _ = database.fulfil_event(event.id, now);
}

/// Records one subscriber's response through the storage interface and
/// says whether the fan-out pass ends here. Storage refusals are absorbed,
/// mirroring the worker's log-and-continue policy.
pub fn handle_delivery_response(
    database: &mut InMemoryDatabase,
    event: &VentrixEvent,
    response: &DeliveryResponse,
    now: i64,
) -> (stop: bool)
    requires
        old(database)@.wf(),
        0 <= now <= MAX_TIMESTAMP,
        event.retry_details is Some ==> 0 <= event.retry_details.unwrap().retry_count < RETRY_CAP,
    ensures
        final(database)@.wf(),
        stop == delivery_stops(*event, *response),
        final(database)@ == spec_delivery_step(old(database)@, *event, *response, now),
{
    match classify_delivery_response(event, response, now) {
        DeliveryAction::Fulfil { .. } => {
            on_success_response(database, event, now);
            false
        },
        DeliveryAction::Ignore => false,
        DeliveryAction::ScheduleRetry { retry_time, retries } => {
            let _ = database.update_retry_time(event.id, retry_time, retries);
            true
        },
        DeliveryAction::RecordFailure => {
            let _ = database.add_failed_event(event, now);
            false
        },
    }
}

/// The delivery target for one subscriber: its base URL with the callback
/// path appended.
pub fn destination_url(url: &String, endpoint: &String) -> (r: String)
    ensures
        r@ == url@ + endpoint@,
{
    let mut out = url.clone();
    out.append(endpoint.as_str());
    out
}

/// One full fan-out pass for an event: each subscriber's response, in
/// order, drives the bookkeeping of [`handle_delivery_response`]; a
/// non-2xx answer during a retry ends the pass for the remaining
/// subscribers.
pub fn send_to_listening_services(
    database: &mut InMemoryDatabase,
    event: &VentrixEvent,
    details_for_listening_services: &Vec<EventFulfillmentDetails>,
    responses: &Vec<DeliveryResponse>,
    now: i64,
)
    requires
        old(database)@.wf(),
        0 <= now <= MAX_TIMESTAMP,
        event.retry_details is Some ==> 0 <= event.retry_details.unwrap().retry_count < RETRY_CAP,
        responses@.len() == details_for_listening_services@.len(),
    ensures
        final(database)@.wf(),
        final(database)@ == spec_deliver(old(database)@, *event, responses@, now),
{
    let mut i: usize = 0;
    proof {
        assert(responses@.skip(0) =~= responses@);
    }
    while i < responses.len()
        invariant
            database@.wf(),
            0 <= i <= responses@.len(),
            0 <= now <= MAX_TIMESTAMP,
            event.retry_details is Some ==> 0 <= event.retry_details.unwrap().retry_count
                < RETRY_CAP,
            spec_deliver(old(database)@, *event, responses@, now) == spec_deliver(
                database@,
                *event,
                responses@.skip(i as int),
                now,
            ),
        decreases responses@.len() - i,
    {
        proof {
            assert(responses@.skip(i as int)[0] == responses@[i as int]);
            assert(responses@.skip(i as int).drop_first() =~= responses@.skip(i + 1));
        }
        let ghost db_before = database@;
        let stop = handle_delivery_response(database, event, &responses[i], now);
        if stop {
            proof {
                assert(spec_deliver(db_before, *event, responses@.skip(i as int), now)
                    == database@);
            }
            return ;
        }
        i = i + 1;
    }
    proof {
        assert(responses@.skip(responses@.len() as int) =~= Seq::<DeliveryResponse>::empty());
    }
}

/// Why a publish call was refused; nothing was persisted or enqueued.
pub enum PublishRejection {
    /// No schema is registered for the event type.
    SchemaMissing(EventTypeNotFoundError),
    /// The payload does not match the registered schema, which is echoed
    /// back for the caller.
    PayloadMismatch { expected_schema: String },
}

/// What became of a publish call.
pub enum PublishOutcome {
    /// The event was persisted and enqueued for delivery.
    PublishedAndSaved { id: u128 },
    /// The event was persisted, but the dispatch channel refused it.
    PublishedNotSaved { id: u128 },
    /// The event was refused; nothing was persisted or enqueued.
    Rejected(PublishRejection),
}

/// The dispatch channel refused the event, which is handed back.
pub struct SendEventError {
    pub event: VentrixEvent,
}

/// The broker: the bounded dispatch queue and the storage driver it feeds.
pub struct VentrixQueue {
    pub queue: DispatchQueue,
    pub database: InMemoryDatabase,
}

impl VentrixQueue {
    /// The queue respects its bound and the store is consistent.
    pub open spec fn wf(self) -> bool {
        &&& self.queue.wf()
        &&& self.database@.wf()
    }

    /// A broker over the given store, with an empty dispatch queue of the
    /// default capacity.
    pub fn new(database: InMemoryDatabase) -> (r: Self)
        ensures
            r.queue@ == Seq::<VentrixEvent>::empty(),
            r.queue.spec_capacity() == DEFAULT_QUEUE_CAPACITY,
            r.database == database,
            database@.wf() ==> r.wf(),
    {
        Self { queue: DispatchQueue::new(DEFAULT_QUEUE_CAPACITY), database }
    }

    /// Records a subscription through the storage interface.
    pub fn listen_to_event(&mut self, listen_to_event_req: &ListenToEventReq) -> (r: Result<
        InsertDataResponse,
        ListenToEventError,
    >)
        requires
            old(self).wf(),
        ensures
            final(self).wf(),
            final(self).queue == old(self).queue,
            final(self).database@.services == old(self).database@.services,
            final(self).database@.event_types == old(self).database@.event_types,
            final(self).database@.published_events == old(self).database@.published_events,
            final(self).database@.failed_events == old(self).database@.failed_events,
            match r {
                Ok(_) => {
                    &&& old(self).database@.has_service(listen_to_event_req.service_name@)
                    &&& old(self).database@.has_event_type(listen_to_event_req.event_type@)
                    &&& final(self).database@.subscriptions.len() == old(
                        self,
                    ).database@.subscriptions.len() + 1
                    &&& final(self).database@.subscriptions.drop_last() == old(
                        self,
                    ).database@.subscriptions
                    &&& final(self).database@.subscriptions.last().event_type
                        == listen_to_event_req.event_type
                    &&& final(self).database@.subscriptions.last().fulfillment.endpoint
                        == listen_to_event_req.endpoint
                },
                Err(ListenToEventError::ServiceNotFound(_)) => {
                    &&& !old(self).database@.has_service(listen_to_event_req.service_name@)
                    &&& final(self).database@ == old(self).database@
                },
                Err(ListenToEventError::EventTypeNotFound(_)) => {
                    &&& !old(self).database@.has_event_type(listen_to_event_req.event_type@)
                    &&& final(self).database@ == old(self).database@
                },
            },
    {
        self.database.register_service_for_event_type(listen_to_event_req)
    }

    /// Hands an already persisted event to the dispatch channel; a full
    /// channel hands it back.
    pub fn publish_event(&mut self, event: VentrixEvent) -> (r: Result<(), SendEventError>)
        requires
            old(self).wf(),
        ensures
            final(self).wf(),
            final(self).database == old(self).database,
            final(self).queue.spec_capacity() == old(self).queue.spec_capacity(),
            r is Ok <==> old(self).queue@.len() < old(self).queue.spec_capacity(),
            match r {
                Ok(_) => final(self).queue@ == old(self).queue@.push(event),
                Err(e) => final(self).queue@ == old(self).queue@ && e.event == event,
            },
    {
        if self.queue.len() < self.queue.capacity() {
            let _ = self.queue.try_enqueue(event);
            Ok(())
        } else {
            Err(SendEventError { event })
        }
    }

    /// The publish entry point: assigns a fresh id, fetches the payload
    /// schema for the event type, validates the payload, persists the
    /// event, and enqueues it for delivery. Exactly one published row
    /// carries the new id afterwards; a rejected event leaves no trace.
    pub fn publish(&mut self, request: &PublishEventRequest) -> (r: PublishOutcome)
        requires
            old(self).wf(),
        ensures
            final(self).wf(),
            final(self).queue.spec_capacity() == old(self).queue.spec_capacity(),
            match r {
                PublishOutcome::Rejected(rejection) => {
                    &&& final(self).database == old(self).database
                    &&& final(self).queue == old(self).queue
                    &&& match rejection {
                        PublishRejection::SchemaMissing(e) => {
                            &&& !old(self).database@.has_event_type(request.event_type@)
                            &&& e.message@ == "EventType: \""@ + request.event_type@
                                + "\" not found"@
                        },
                        PublishRejection::PayloadMismatch { expected_schema } => exists|i: int|
                            0 <= i < old(self).database@.event_types.len() && (#[trigger] old(
                                self,
                            ).database@.event_types[i]).name@ == request.event_type@
                                && expected_schema
                                == old(self).database@.event_types[i].details.payload_def
                                && !payload_valid(request.payload@, expected_schema@),
                    }
                },
                PublishOutcome::PublishedAndSaved { id } => {
                    &&& exists|i: int|
                        0 <= i < old(self).database@.event_types.len() && (#[trigger] old(
                            self,
                        ).database@.event_types[i]).name@ == request.event_type@ && payload_valid(
                            request.payload@,
                            old(self).database@.event_types[i].details.payload_def@,
                        )
                    &&& final(self).database@ == spec_save_published(
                        old(self).database@,
                        id,
                        request.event_type,
                        request.payload,
                    )
                    &&& published_count(final(self).database@.published_events, id) == 1
                    &&& old(self).queue@.len() < old(self).queue.spec_capacity()
                    &&& final(self).queue@ == old(self).queue@.push(
                        VentrixEvent {
                            id,
                            event_type: request.event_type,
                            payload: request.payload,
                            retry_details: None,
                        },
                    )
                },
                PublishOutcome::PublishedNotSaved { id } => {
                    &&& exists|i: int|
                        0 <= i < old(self).database@.event_types.len() && (#[trigger] old(
                            self,
                        ).database@.event_types[i]).name@ == request.event_type@ && payload_valid(
                            request.payload@,
                            old(self).database@.event_types[i].details.payload_def@,
                        )
                    &&& final(self).database@ == spec_save_published(
                        old(self).database@,
                        id,
                        request.event_type,
                        request.payload,
                    )
                    &&& published_count(final(self).database@.published_events, id) == 1
                    &&& old(self).queue@.len() >= old(self).queue.spec_capacity()
                    &&& final(self).queue@ == old(self).queue@
                },
            },
    {
        let id = fresh_uuid_128();
        let event = VentrixEvent {
            id,
            event_type: request.event_type.clone(),
            payload: request.payload.clone(),
            retry_details: None,
        };
        let schema = match self.database.get_schema_for_event_type(&request.event_type) {
            Ok(schema) => schema,
            Err(e) => {
                return PublishOutcome::Rejected(PublishRejection::SchemaMissing(e));
            },
        };
        if !payload_is_valid(event.payload.as_str(), schema.payload_definition.as_str()) {
            return PublishOutcome::Rejected(
                PublishRejection::PayloadMismatch { expected_schema: schema.payload_definition },
            );
        }
        let _ = self.database.save_published_event(&event);
        proof {
            lemma_published_count_unique(self.database@.published_events, id);
        }
        if self.queue.try_enqueue(event) {
            PublishOutcome::PublishedAndSaved { id }
        } else {
            PublishOutcome::PublishedNotSaved { id }
        }
    }

    /// One pass of the retry scheduler at `now`: asks storage for the due
    /// failed events and re-injects them, in storage order, until the
    /// dispatch channel is full; the rest wait for the next poll. Answers
    /// how many were re-injected.
    pub fn enqueue_due_retries(&mut self, now: i64) -> (n: usize)
        requires
            old(self).wf(),
        ensures
            final(self).wf(),
            final(self).database == old(self).database,
            final(self).queue.spec_capacity() == old(self).queue.spec_capacity(),
            n <= due_events(
                old(self).database@.failed_events,
                old(self).database@.published_events,
                now,
            ).len(),
            final(self).queue@ == old(self).queue@ + due_events(
                old(self).database@.failed_events,
                old(self).database@.published_events,
                now,
            ).take(n as int),
            n < due_events(
                old(self).database@.failed_events,
                old(self).database@.published_events,
                now,
            ).len() ==> old(self).queue@.len() + n == old(self).queue.spec_capacity(),
    {
        let due = self.database.get_failed_events(now);
        let ghost due_seq = due@;
        let mut i: usize = 0;
        let mut sent: usize = 0;
        proof {
            assert(old(self).queue@ + due_seq.take(0) =~= old(self).queue@);
        }
        while i < due.len()
            invariant
                self.queue.wf(),
                self.database == old(self).database,
                self.queue.spec_capacity() == old(self).queue.spec_capacity(),
                due_seq == due@,
                due_seq == due_events(
                    old(self).database@.failed_events,
                    old(self).database@.published_events,
                    now,
                ),
                0 <= sent <= i <= due_seq.len(),
                self.queue@ == old(self).queue@ + due_seq.take(sent as int),
                sent < i ==> old(self).queue@.len() + sent == old(self).queue.spec_capacity(),
                sent == i || sent < i,
            decreases due_seq.len() - i,
    {
            let ghost queue_before = self.queue@;
            let ok = self.queue.try_enqueue(due[i].duplicate());
            if ok {
                proof {
                    assert(due_seq.take(sent + 1) =~= due_seq.take(sent as int).push(
                        due_seq[sent as int],
                    ));
                    assert(self.queue@ =~= old(self).queue@ + due_seq.take(sent + 1));
                }
                sent = sent + 1;
            } else {
                proof {
                    assert(queue_before.len() >= old(self).queue.spec_capacity());
                    assert(old(self).queue@.len() + sent >= old(self).queue.spec_capacity());
                }
            }
            i = i + 1;
        }
        sent
    }

    /// One worker step: pops the oldest event and, given each subscriber's
    /// response in order, performs the fan-out bookkeeping. An event
    /// without subscribers terminates without delivery. Answers the popped
    /// event, if there was one.
    pub fn process_next_event(&mut self, responses: &Vec<DeliveryResponse>, now: i64) -> (r: Option<
        VentrixEvent,
    >)
        requires
            old(self).wf(),
            0 <= now <= MAX_TIMESTAMP,
            old(self).queue@.len() > 0 ==> {
                let event = old(self).queue@[0];
                &&& (event.retry_details is Some ==> 0 <= event.retry_details.unwrap().retry_count
                    < RETRY_CAP)
                &&& responses@.len() == subscribers_of(
                    old(self).database@.subscriptions,
                    event.event_type@,
                ).len()
            },
        ensures
            final(self).wf(),
            final(self).queue.spec_capacity() == old(self).queue.spec_capacity(),
            old(self).queue@.len() == 0 ==> r is None && final(self).database == old(self).database
                && final(self).queue@ == old(self).queue@,
            old(self).queue@.len() > 0 ==> {
                &&& r == Some(old(self).queue@[0])
                &&& final(self).queue@ == old(self).queue@.drop_first()
                &&& final(self).database@ == spec_deliver(
                    old(self).database@,
                    old(self).queue@[0],
                    responses@,
                    now,
                )
            },
    {
        match self.queue.dequeue() {
            None => None,
            Some(event) => {
                let details = self.database.get_service_by_event_type(&event.event_type);
                send_to_listening_services(&mut self.database, &event, &details, responses, now);
                Some(event)
            },
        }
    }
}

} // verus!
