//! The storage interface's in-memory driver, verified against a
//! mathematical snapshot of its tables.
//!
//! The driver owns five tables: services, event types, subscriptions,
//! published events and failed events. Its view (`DbModel`) is the tuple of
//! those tables as sequences; every operation states exactly how it moves
//! the snapshot.

use vstd::prelude::*;
use crate::errors::dec_digits;
use crate::errors::u128_to_string;
use crate::errors::EventNotFoundError;
use crate::errors::EventTypeAlreadyExistsError;
use crate::errors::EventTypeNotFoundError;
use crate::errors::ServiceAlreadyExistsError;
use crate::errors::ServiceNotFoundError;
use crate::runtime::fresh_uuid_128;
use crate::types::EventFulfillmentDetails;
use crate::types::EventTypeDetails;
use crate::types::FailedEvent;
use crate::types::ListenToEventReq;
use crate::types::NewEventTypeRequest;
use crate::types::PayloadSchema;
use crate::types::RegisterServiceRequest;
use crate::types::RetryDetails;
use crate::types::Service;
use crate::types::VentrixEvent;
use crate::types::FailedEventRow;
use crate::types::MAX_TIMESTAMP;
use crate::types::RETRY_CAP;
use crate::types::SECONDS_PER_MINUTE;

verus! {

/// Driver's answer to a successful insert.
#[derive(Debug, PartialEq, Eq, Structural)]
pub enum InsertDataResponse {
    InMemory,
    Postgres(u64),
}

/// Driver's answer to a successful delete.
#[derive(Debug, PartialEq, Eq, Structural)]
pub enum DeleteDataResponse {
    InMemory,
    Postgres(u64),
}

/// Driver's answer to a successful update.
#[derive(Debug, PartialEq, Eq, Structural)]
pub enum UpdateDataResponse {
    InMemory,
    Postgres(u64),
}

/// Why a listen (subscribe) request was refused.
#[derive(Debug)]
pub enum ListenToEventError {
    /// The named service is not registered.
    ServiceNotFound(ServiceNotFoundError),
    /// The named event type is not registered.
    EventTypeNotFound(EventTypeNotFoundError),
}

/// A stored event type: its unique name plus details.
pub struct EventTypeRecord {
    pub name: String,
    pub details: EventTypeDetails,
}

/// A stored subscription: an event type name and where deliveries of that
/// type must go.
pub struct Subscription {
    pub event_type: String,
    pub fulfillment: EventFulfillmentDetails,
}

/// A stored published event (an `events_published` row).
pub struct PublishedEventRecord {
    pub id: u128,
    pub event_type: String,
    pub payload: String,
    /// Set once a delivery cycle for the event completed successfully.
    pub fulfilled_at: Option<i64>,
}

/// The in-memory storage driver.
pub struct InMemoryDatabase {
    pub services: Vec<Service>,
    pub event_types: Vec<EventTypeRecord>,
    pub subscriptions: Vec<Subscription>,
    pub published_events: Vec<PublishedEventRecord>,
    pub failed_events: Vec<FailedEvent>,
}

/// Mathematical snapshot of the driver's tables.
#[verifier::ext_equal]
pub struct DbModel {
    pub services: Seq<Service>,
    pub event_types: Seq<EventTypeRecord>,
    pub subscriptions: Seq<Subscription>,
    pub published_events: Seq<PublishedEventRecord>,
    pub failed_events: Seq<FailedEvent>,
}

impl View for InMemoryDatabase {
    type V = DbModel;

    open spec fn view(&self) -> DbModel {
        DbModel {
            services: self.services@,
            event_types: self.event_types@,
            subscriptions: self.subscriptions@,
            published_events: self.published_events@,
            failed_events: self.failed_events@,
        }
    }
}

impl DbModel {
    /// Some service of this name is registered.
    pub open spec fn has_service(self, name: Seq<char>) -> bool {
        exists|i: int| 0 <= i < self.services.len() && self.services[i].name@ == name
    }

    /// Some event type of this name is registered.
    pub open spec fn has_event_type(self, name: Seq<char>) -> bool {
        exists|i: int| 0 <= i < self.event_types.len() && self.event_types[i].name@ == name
    }

    /// Some published event carries this id.
    pub open spec fn has_published(self, id: u128) -> bool {
        published_has_id(self.published_events, id)
    }

    /// Some failed-event row references this event id.
    pub open spec fn has_failed(self, event_id: u128) -> bool {
        failed_has_event_id(self.failed_events, event_id)
    }

    /// Consistency of the tables: service and event type names are unique,
    /// published ids are unique, an event has at most one failed row, every
    /// failed row references a published event, and retry counts never pass
    /// the cap.
    pub open spec fn wf(self) -> bool {
        &&& unique_service_names(self.services)
        &&& unique_event_type_names(self.event_types)
        &&& unique_published_ids(self.published_events)
        &&& unique_failed_event_ids(self.failed_events)
        &&& failed_rows_bounded(self.failed_events)
        &&& failed_rows_reference_published(self.failed_events, self.published_events)
    }
}

/// Some row of the published table carries this id.
pub open spec fn published_has_id(published: Seq<PublishedEventRecord>, id: u128) -> bool {
    exists|j: int| 0 <= j < published.len() && (#[trigger] published[j]).id == id
}

/// Some row of the failed-event table references this event id.
pub open spec fn failed_has_event_id(failed: Seq<FailedEvent>, event_id: u128) -> bool {
    exists|j: int| 0 <= j < failed.len() && (#[trigger] failed[j]).event_id == event_id
}

/// No two services share a name.
pub open spec fn unique_service_names(s: Seq<Service>) -> bool {
    forall|i: int, j: int|
        0 <= i < j < s.len() ==> (#[trigger] s[i]).name@ != (#[trigger] s[j]).name@
}

/// No two event types share a name.
pub open spec fn unique_event_type_names(s: Seq<EventTypeRecord>) -> bool {
    forall|i: int, j: int|
        0 <= i < j < s.len() ==> (#[trigger] s[i]).name@ != (#[trigger] s[j]).name@
}

/// No two published events share an id.
pub open spec fn unique_published_ids(s: Seq<PublishedEventRecord>) -> bool {
    forall|i: int, j: int| 0 <= i < j < s.len() ==> (#[trigger] s[i]).id != (#[trigger] s[j]).id
}

/// No two failed-event rows reference the same event.
pub open spec fn unique_failed_event_ids(s: Seq<FailedEvent>) -> bool {
    forall|i: int, j: int|
        0 <= i < j < s.len() ==> (#[trigger] s[i]).event_id != (#[trigger] s[j]).event_id
}

/// Every failed-event row keeps its retry count within the cap.
pub open spec fn failed_rows_bounded(s: Seq<FailedEvent>) -> bool {
    forall|i: int| 0 <= i < s.len() ==> 0 <= (#[trigger] s[i]).retries <= RETRY_CAP
}

/// Every failed-event row references a published event.
pub open spec fn failed_rows_reference_published(
    s: Seq<FailedEvent>,
    published: Seq<PublishedEventRecord>,
) -> bool {
    forall|i: int| 0 <= i < s.len() ==> published_has_id(published, (#[trigger] s[i]).event_id)
}

/// The fulfillment details of every subscription to `event_type`, in
/// storage order.
pub open spec fn subscribers_of(subs: Seq<Subscription>, event_type: Seq<char>) -> Seq<
    EventFulfillmentDetails,
>
    decreases subs.len(),
{
    if subs.len() == 0 {
        Seq::empty()
    } else {
        let prefix = subscribers_of(subs.drop_last(), event_type);
        if subs.last().event_type@ == event_type {
            prefix.push(subs.last().fulfillment)
        } else {
            prefix
        }
    }
}

impl InMemoryDatabase {
    /// An empty store.
    pub fn new() -> (r: Self)
        ensures
            r@.wf(),
            r@.services.len() == 0,
            r@.event_types.len() == 0,
            r@.subscriptions.len() == 0,
            r@.published_events.len() == 0,
            r@.failed_events.len() == 0,
    {
        Self {
            services: Vec::new(),
            event_types: Vec::new(),
            subscriptions: Vec::new(),
            published_events: Vec::new(),
            failed_events: Vec::new(),
        }
    }

    /// Index of the first service of this name.
    fn service_index(&self, name: &String) -> (r: Option<usize>)
        ensures
            match r {
                Some(i) => 0 <= i < self@.services.len() && self@.services[i as int].name@
                    == name@,
                None => !self@.has_service(name@),
            },
    {
        let mut i: usize = 0;
        while i < self.services.len()
            invariant
                0 <= i <= self@.services.len(),
                forall|j: int| 0 <= j < i ==> (#[trigger] self@.services[j]).name@ != name@,
            decreases self@.services.len() - i,
        {
            if self.services[i].name == *name {
                return Some(i);
            }
            i = i + 1;
        }
        None
    }

    /// Index of the first event type of this name.
    fn event_type_index(&self, name: &String) -> (r: Option<usize>)
        ensures
            match r {
                Some(i) => 0 <= i < self@.event_types.len() && self@.event_types[i as int].name@
                    == name@,
                None => !self@.has_event_type(name@),
            },
    {
        let mut i: usize = 0;
        while i < self.event_types.len()
            invariant
                0 <= i <= self@.event_types.len(),
                forall|j: int| 0 <= j < i ==> (#[trigger] self@.event_types[j]).name@ != name@,
            decreases self@.event_types.len() - i,
        {
            if self.event_types[i].name == *name {
                return Some(i);
            }
            i = i + 1;
        }
        None
    }

    /// Index of the published event with this id.
    fn published_index(&self, id: u128) -> (r: Option<usize>)
        ensures
            match r {
                Some(i) => 0 <= i < self@.published_events.len()
                    && self@.published_events[i as int].id == id,
                None => !self@.has_published(id),
            },
    {
        let mut i: usize = 0;
        while i < self.published_events.len()
            invariant
                0 <= i <= self@.published_events.len(),
                forall|j: int| 0 <= j < i ==> (#[trigger] self@.published_events[j]).id != id,
            decreases self@.published_events.len() - i,
        {
            if self.published_events[i].id == id {
                return Some(i);
            }
            i = i + 1;
        }
        None
    }

    /// Index of the failed-event row referencing this event id.
    fn failed_index(&self, event_id: u128) -> (r: Option<usize>)
        ensures
            match r {
                Some(i) => 0 <= i < self@.failed_events.len()
                    && self@.failed_events[i as int].event_id == event_id,
                None => !self@.has_failed(event_id),
            },
    {
        let mut i: usize = 0;
        while i < self.failed_events.len()
            invariant
                0 <= i <= self@.failed_events.len(),
                forall|j: int| 0 <= j < i ==> (#[trigger] self@.failed_events[j]).event_id
                    != event_id,
            decreases self@.failed_events.len() - i,
        {
            if self.failed_events[i].event_id == event_id {
                return Some(i);
            }
            i = i + 1;
        }
        None
    }

    /// Registers a service under a unique name; refused when the name is
    /// taken. The service's id is drawn fresh.
    pub fn register_service(&mut self, reg_service_req: &RegisterServiceRequest) -> (r: Result<
        InsertDataResponse,
        ServiceAlreadyExistsError,
    >)
        requires
            old(self)@.wf(),
        ensures
            final(self)@.wf(),
            final(self)@.event_types == old(self)@.event_types,
            final(self)@.subscriptions == old(self)@.subscriptions,
            final(self)@.published_events == old(self)@.published_events,
            final(self)@.failed_events == old(self)@.failed_events,
            match r {
                Ok(resp) => {
                    &&& !old(self)@.has_service(reg_service_req.name@)
                    &&& resp == InsertDataResponse::InMemory
                    &&& final(self)@.services.len() == old(self)@.services.len() + 1
                    &&& final(self)@.services.drop_last() == old(self)@.services
                    &&& final(self)@.services.last().name == reg_service_req.name
                    &&& final(self)@.services.last().url == reg_service_req.url
                },
                Err(e) => {
                    &&& old(self)@.has_service(reg_service_req.name@)
                    &&& final(self)@ == old(self)@
                    &&& e.message@ == "Service: \""@ + reg_service_req.name@
                        + "\" already exists"@
                },
            },
    {
        match self.service_index(&reg_service_req.name) {
            Some(_) => Err(ServiceAlreadyExistsError::new(reg_service_req.name.clone())),
            None => {
                let id = fresh_uuid_128();
                let service = Service {
                    id,
                    name: reg_service_req.name.clone(),
                    url: reg_service_req.url.clone(),
                };
                self.services.push(service);
                proof {
                    let s_old = old(self)@.services;
                    let s_new = self@.services;
                    assert(s_new.drop_last() =~= s_old);
                    assert forall|a: int, b: int| 0 <= a < b < s_new.len() implies (
                    #[trigger] s_new[a]).name@ != (#[trigger] s_new[b]).name@ by {
                        if b == s_new.len() - 1 {
                            assert(s_new[a] == s_old[a]);
                            assert(s_new[b].name@ == reg_service_req.name@);
                        } else {
                            assert(s_new[a] == s_old[a]);
                            assert(s_new[b] == s_old[b]);
                        }
                    }
                }
                Ok(InsertDataResponse::InMemory)
            },
        }
    }

    /// Removes the service of this name; refused when no such service
    /// exists. Subscriptions already recorded for the service stay.
    pub fn remove_service(&mut self, service_name: &String) -> (r: Result<
        DeleteDataResponse,
        ServiceNotFoundError,
    >)
        requires
            old(self)@.wf(),
        ensures
            final(self)@.wf(),
            final(self)@.event_types == old(self)@.event_types,
            final(self)@.subscriptions == old(self)@.subscriptions,
            final(self)@.published_events == old(self)@.published_events,
            final(self)@.failed_events == old(self)@.failed_events,
            match r {
                Ok(resp) => {
                    &&& resp == DeleteDataResponse::InMemory
                    &&& exists|i: int|
                        0 <= i < old(self)@.services.len() && (#[trigger] old(self)@.services[i]).name@ == service_name@ && final(self)@.services == old(self)@.services.remove(i)
                },
                Err(e) => {
                    &&& !old(self)@.has_service(service_name@)
                    &&& final(self)@ == old(self)@
                    &&& e.message@ == "Service: \""@ + service_name@ + "\" not found"@
                },
            },
    {
        match self.service_index(service_name) {
            Some(i) => {
                self.services.remove(i);
                proof {
                    let s_old = old(self)@.services;
                    let s_new = self@.services;
                    s_old.remove_ensures(i as int);
                    assert(s_new =~= s_old.remove(i as int));
                    assert forall|a: int, b: int| 0 <= a < b < s_new.len() implies (
                    #[trigger] s_new[a]).name@ != (#[trigger] s_new[b]).name@ by {
                        let a_old = if a < i { a } else { a + 1 };
                        let b_old = if b < i { b } else { b + 1 };
                        assert(s_new[a] == s_old[a_old]);
                        assert(s_new[b] == s_old[b_old]);
                    }
                }
                Ok(DeleteDataResponse::InMemory)
            },
            None => Err(ServiceNotFoundError::new(service_name.as_str())),
        }
    }

    /// Registers an event type under a unique name; refused when the name
    /// is taken.
    pub fn register_event_type(&mut self, new_event_type_req: &NewEventTypeRequest) -> (r: Result<
        InsertDataResponse,
        EventTypeAlreadyExistsError,
    >)
        requires
            old(self)@.wf(),
        ensures
            final(self)@.wf(),
            final(self)@.services == old(self)@.services,
            final(self)@.subscriptions == old(self)@.subscriptions,
            final(self)@.published_events == old(self)@.published_events,
            final(self)@.failed_events == old(self)@.failed_events,
            match r {
                Ok(resp) => {
                    &&& !old(self)@.has_event_type(new_event_type_req.name@)
                    &&& resp == InsertDataResponse::InMemory
                    &&& final(self)@.event_types.len() == old(self)@.event_types.len() + 1
                    &&& final(self)@.event_types.drop_last() == old(self)@.event_types
                    &&& final(self)@.event_types.last().name == new_event_type_req.name
                    &&& final(self)@.event_types.last().details.description
                        == new_event_type_req.description
                    &&& final(self)@.event_types.last().details.payload_def
                        == new_event_type_req.payload_definition
                },
                Err(e) => {
                    &&& old(self)@.has_event_type(new_event_type_req.name@)
                    &&& final(self)@ == old(self)@
                    &&& e.message@ == "Event type: \""@ + new_event_type_req.name@
                        + "\" already exists"@
                },
            },
    {
        match self.event_type_index(&new_event_type_req.name) {
            Some(_) => Err(EventTypeAlreadyExistsError::new(new_event_type_req.name.clone())),
            None => {
                let details = EventTypeDetails::new(
                    new_event_type_req.description.clone(),
                    new_event_type_req.payload_definition.clone(),
                );
                let record = EventTypeRecord { name: new_event_type_req.name.clone(), details };
                self.event_types.push(record);
                proof {
                    let s_old = old(self)@.event_types;
                    let s_new = self@.event_types;
                    assert(s_new.drop_last() =~= s_old);
                    assert forall|a: int, b: int| 0 <= a < b < s_new.len() implies (
                    #[trigger] s_new[a]).name@ != (#[trigger] s_new[b]).name@ by {
                        if b == s_new.len() - 1 {
                            assert(s_new[a] == s_old[a]);
                            assert(s_new[b].name@ == new_event_type_req.name@);
                        } else {
                            assert(s_new[a] == s_old[a]);
                            assert(s_new[b] == s_old[b]);
                        }
                    }
                }
                Ok(InsertDataResponse::InMemory)
            },
        }
    }

    /// The service of this name, or an error when none is registered.
    pub fn get_service(&self, name: &String) -> (r: Result<Service, ServiceNotFoundError>)
        ensures
            match r {
                Ok(service) => exists|i: int|
                    0 <= i < self@.services.len() && (#[trigger] self@.services[i]).name@ == name@
                        && service == self@.services[i],
                Err(e) => {
                    &&& !self@.has_service(name@)
                    &&& e.message@ == "Service: \""@ + name@ + "\" not found"@
                },
            },
    {
        match self.service_index(name) {
            Some(i) => Ok(self.services[i].duplicate()),
            None => Err(ServiceNotFoundError::new(name.as_str())),
        }
    }

    /// The payload schema stored for this event type, or an error when the
    /// event type is unknown.
    pub fn get_schema_for_event_type(&self, event_type: &String) -> (r: Result<
        PayloadSchema,
        EventTypeNotFoundError,
    >)
        ensures
            match r {
                Ok(schema) => exists|i: int|
                    0 <= i < self@.event_types.len() && (#[trigger] self@.event_types[i]).name@
                        == event_type@ && schema.payload_definition
                        == self@.event_types[i].details.payload_def,
                Err(e) => {
                    &&& !self@.has_event_type(event_type@)
                    &&& e.message@ == "EventType: \""@ + event_type@ + "\" not found"@
                },
            },
    {
        match self.event_type_index(event_type) {
            Some(i) => Ok(
                PayloadSchema {
                    payload_definition: self.event_types[i].details.payload_def.clone(),
                },
            ),
            None => Err(EventTypeNotFoundError::new(event_type.as_str())),
        }
    }

    /// Subscribes the named service to the named event type at the given
    /// callback path. Both the service and the event type must already be
    /// registered; duplicate subscriptions are tolerated.
    pub fn register_service_for_event_type(&mut self, listen_to_event_req: &ListenToEventReq) -> (r:
        Result<InsertDataResponse, ListenToEventError>)
        requires
            old(self)@.wf(),
        ensures
            final(self)@.wf(),
            final(self)@.services == old(self)@.services,
            final(self)@.event_types == old(self)@.event_types,
            final(self)@.published_events == old(self)@.published_events,
            final(self)@.failed_events == old(self)@.failed_events,
            match r {
                Ok(resp) => {
                    &&& old(self)@.has_service(listen_to_event_req.service_name@)
                    &&& old(self)@.has_event_type(listen_to_event_req.event_type@)
                    &&& resp == InsertDataResponse::InMemory
                    &&& final(self)@.subscriptions.len() == old(self)@.subscriptions.len() + 1
                    &&& final(self)@.subscriptions.drop_last() == old(self)@.subscriptions
                    &&& final(self)@.subscriptions.last().event_type
                        == listen_to_event_req.event_type
                    &&& final(self)@.subscriptions.last().fulfillment.endpoint
                        == listen_to_event_req.endpoint
                    &&& exists|i: int|
                        0 <= i < old(self)@.services.len() && (#[trigger] old(self)@.services[i]).name@ == listen_to_event_req.service_name@ && final(self)@.subscriptions.last().fulfillment.name == old(self)@.services[i].name
                            && final(self)@.subscriptions.last().fulfillment.url == old(self)@.services[i].url
                },
                Err(ListenToEventError::ServiceNotFound(e)) => {
                    &&& !old(self)@.has_service(listen_to_event_req.service_name@)
                    &&& final(self)@ == old(self)@
                    &&& e.message@ == "Service: \""@ + listen_to_event_req.service_name@
                        + "\" not found"@
                },
                Err(ListenToEventError::EventTypeNotFound(e)) => {
                    &&& old(self)@.has_service(listen_to_event_req.service_name@)
                    &&& !old(self)@.has_event_type(listen_to_event_req.event_type@)
                    &&& final(self)@ == old(self)@
                    &&& e.message@ == "EventType: \""@ + listen_to_event_req.event_type@
                        + "\" not found"@
                },
            },
    {
        let service = match self.service_index(&listen_to_event_req.service_name) {
            Some(i) => self.services[i].duplicate(),
            None => {
                return Err(
                    ListenToEventError::ServiceNotFound(
                        ServiceNotFoundError::new(listen_to_event_req.service_name.as_str()),
                    ),
                );
            },
        };
        if self.event_type_index(&listen_to_event_req.event_type).is_none() {
            return Err(
                ListenToEventError::EventTypeNotFound(
                    EventTypeNotFoundError::new(listen_to_event_req.event_type.as_str()),
                ),
            );
        }
        let subscription = Subscription {
            event_type: listen_to_event_req.event_type.clone(),
            fulfillment: EventFulfillmentDetails {
                name: service.name,
                url: service.url,
                endpoint: listen_to_event_req.endpoint.clone(),
            },
        };
        self.subscriptions.push(subscription);
        proof {
            assert(self@.subscriptions.drop_last() =~= old(self)@.subscriptions);
        }
        Ok(InsertDataResponse::InMemory)
    }

    /// The fulfillment details of every subscriber to this event type, in
    /// the order the subscriptions were recorded.
    pub fn get_service_by_event_type(&self, event_type: &String) -> (r: Vec<
        EventFulfillmentDetails,
    >)
        ensures
            r@ == subscribers_of(self@.subscriptions, event_type@),
    {
        let mut out: Vec<EventFulfillmentDetails> = Vec::new();
        let mut i: usize = 0;
        proof {
            assert(self@.subscriptions.take(0) =~= Seq::<Subscription>::empty());
        }
        while i < self.subscriptions.len()
            invariant
                0 <= i <= self@.subscriptions.len(),
                out@ == subscribers_of(self@.subscriptions.take(i as int), event_type@),
            decreases self@.subscriptions.len() - i,
        {
            proof {
                assert(self@.subscriptions.take(i + 1).drop_last() =~= self@.subscriptions.take(
                    i as int,
                ));
                assert(self@.subscriptions.take(i + 1).last() == self@.subscriptions[i as int]);
            }
            if self.subscriptions[i].event_type == *event_type {
                out.push(self.subscriptions[i].fulfillment.duplicate());
            }
            i = i + 1;
        }
        proof {
            assert(self@.subscriptions.take(self@.subscriptions.len() as int)
                =~= self@.subscriptions);
        }
        out
    }
}

impl Default for InMemoryDatabase {
    /// An empty store.
    fn default() -> (r: Self)
        ensures
            r@.wf(),
            r@.services.len() == 0,
            r@.event_types.len() == 0,
            r@.subscriptions.len() == 0,
            r@.published_events.len() == 0,
            r@.failed_events.len() == 0,
    {
        Self::new()
    }
}

/// A failed-event row is due for re-injection: unresolved, under the retry
/// cap, and past its retry time.
pub open spec fn is_due(f: FailedEvent, now: i64) -> bool {
    f.resolved_at is None && f.retries < RETRY_CAP && f.retry_time <= now
}

/// The first published event carrying this id, if any.
pub open spec fn find_published(s: Seq<PublishedEventRecord>, id: u128) -> Option<
    PublishedEventRecord,
>
    decreases s.len(),
{
    if s.len() == 0 {
        None
    } else if s[0].id == id {
        Some(s[0])
    } else {
        find_published(s.drop_first(), id)
    }
}

/// When the published ids are unique and position `i` matches, the lookup
/// answers exactly that row.
pub proof fn lemma_find_published_unique(s: Seq<PublishedEventRecord>, id: u128, i: int)
    requires
        unique_published_ids(s),
        0 <= i < s.len(),
        s[i].id == id,
    ensures
        find_published(s, id) == Some(s[i]),
    decreases s.len(),
{
    if s[0].id == id {
        if i != 0 {
            assert(s[0].id != s[i].id);
        }
    } else {
        let t = s.drop_first();
        assert forall|a: int, b: int| 0 <= a < b < t.len() implies (#[trigger] t[a]).id != (
        #[trigger] t[b]).id by {
            assert(t[a] == s[a + 1]);
            assert(t[b] == s[b + 1]);
        }
        assert(t[i - 1] == s[i]);
        lemma_find_published_unique(t, id, i - 1);
    }
}

/// When no row matches, the lookup answers nothing.
pub proof fn lemma_find_published_none(s: Seq<PublishedEventRecord>, id: u128)
    requires
        forall|j: int| 0 <= j < s.len() ==> (#[trigger] s[j]).id != id,
    ensures
        find_published(s, id) is None,
    decreases s.len(),
{
    if s.len() > 0 {
        let t = s.drop_first();
        assert forall|j: int| 0 <= j < t.len() implies (#[trigger] t[j]).id != id by {
            assert(t[j] == s[j + 1]);
        }
        lemma_find_published_none(t, id);
    }
}

/// How many published rows carry this id.
pub open spec fn published_count(s: Seq<PublishedEventRecord>, id: u128) -> nat
    decreases s.len(),
{
    if s.len() == 0 {
        0
    } else {
        published_count(s.drop_last(), id) + if s.last().id == id {
            1nat
        } else {
            0nat
        }
    }
}

/// How many failed-event rows reference this event.
pub open spec fn failed_count(s: Seq<FailedEvent>, event_id: u128) -> nat
    decreases s.len(),
{
    if s.len() == 0 {
        0
    } else {
        failed_count(s.drop_last(), event_id) + if s.last().event_id == event_id {
            1nat
        } else {
            0nat
        }
    }
}

/// Under unique published ids, an id occurs exactly once when it occurs at
/// all.
pub proof fn lemma_published_count_unique(s: Seq<PublishedEventRecord>, id: u128)
    requires
        unique_published_ids(s),
    ensures
        published_count(s, id) == if exists|i: int|
            0 <= i < s.len() && (#[trigger] s[i]).id == id {
            1nat
        } else {
            0nat
        },
    decreases s.len(),
{
    if s.len() > 0 {
        let t = s.drop_last();
        assert forall|a: int, b: int| 0 <= a < b < t.len() implies (#[trigger] t[a]).id != (
        #[trigger] t[b]).id by {
            assert(t[a] == s[a]);
            assert(t[b] == s[b]);
        }
        lemma_published_count_unique(t, id);
        if s.last().id == id {
            assert forall|a: int| 0 <= a < t.len() implies (#[trigger] t[a]).id != id by {
                assert(t[a] == s[a]);
                assert(s[a].id != s[s.len() - 1].id);
            }
            assert(s[s.len() - 1].id == id);
        } else {
            if exists|i: int| 0 <= i < s.len() && (#[trigger] s[i]).id == id {
                let i = choose|i: int| 0 <= i < s.len() && (#[trigger] s[i]).id == id;
                assert(i < s.len() - 1);
                assert(t[i] == s[i]);
            }
        }
    }
}

/// Under at most one failed row per event, an event id occurs exactly once
/// when it occurs at all.
pub proof fn lemma_failed_count_unique(s: Seq<FailedEvent>, event_id: u128)
    requires
        unique_failed_event_ids(s),
    ensures
        failed_count(s, event_id) == if exists|i: int|
            0 <= i < s.len() && (#[trigger] s[i]).event_id == event_id {
            1nat
        } else {
            0nat
        },
    decreases s.len(),
{
    if s.len() > 0 {
        let t = s.drop_last();
        assert forall|a: int, b: int| 0 <= a < b < t.len() implies (#[trigger] t[a]).event_id != (
        #[trigger] t[b]).event_id by {
            assert(t[a] == s[a]);
            assert(t[b] == s[b]);
        }
        lemma_failed_count_unique(t, event_id);
        if s.last().event_id == event_id {
            assert forall|a: int| 0 <= a < t.len() implies (#[trigger] t[a]).event_id != event_id
                by {
                assert(t[a] == s[a]);
                assert(s[a].event_id != s[s.len() - 1].event_id);
            }
            assert(s[s.len() - 1].event_id == event_id);
        } else {
            if exists|i: int| 0 <= i < s.len() && (#[trigger] s[i]).event_id == event_id {
                let i = choose|i: int| 0 <= i < s.len() && (#[trigger] s[i]).event_id == event_id;
                assert(i < s.len() - 1);
                assert(t[i] == s[i]);
            }
        }
    }
}

/// The snapshot after upserting a published event: the row is replaced when
/// the id is already present, appended otherwise, and its fulfillment mark
/// is cleared either way.
pub open spec fn spec_save_published(
    m: DbModel,
    id: u128,
    event_type: String,
    payload: String,
) -> DbModel {
    let fresh = PublishedEventRecord { id, event_type, payload, fulfilled_at: None };
    DbModel {
        services: m.services,
        event_types: m.event_types,
        subscriptions: m.subscriptions,
        published_events: if m.has_published(id) {
            m.published_events.map_values(
                |r: PublishedEventRecord|
                    if r.id == id {
                        fresh
                    } else {
                        r
                    },
            )
        } else {
            m.published_events.push(fresh)
        },
        failed_events: m.failed_events,
    }
}

/// The snapshot after marking a published event fulfilled at `now`; rows
/// with other ids are untouched, and a missing id leaves the snapshot as it
/// was.
pub open spec fn spec_fulfil(m: DbModel, event_id: u128, now: i64) -> DbModel {
    DbModel {
        services: m.services,
        event_types: m.event_types,
        subscriptions: m.subscriptions,
        published_events: m.published_events.map_values(
            |r: PublishedEventRecord|
                if r.id == event_id {
                    PublishedEventRecord {
                        id: r.id,
                        event_type: r.event_type,
                        payload: r.payload,
                        fulfilled_at: Some(now),
                    }
                } else {
                    r
                },
        ),
        failed_events: m.failed_events,
    }
}

/// The snapshot after recording a first delivery failure at `now`: one new
/// failed-event row with no retries yet, due one minute later. Nothing
/// happens when the event already has a failed row, and an event that was
/// never published is refused by the driver instead.
pub open spec fn spec_add_failed(m: DbModel, event_id: u128, now: i64) -> DbModel {
    if m.has_published(event_id) && !m.has_failed(event_id) {
        DbModel {
            services: m.services,
            event_types: m.event_types,
            subscriptions: m.subscriptions,
            published_events: m.published_events,
            failed_events: m.failed_events.push(new_failed_row(event_id, now)),
        }
    } else {
        m
    }
}

/// The failed-event row the in-memory driver inserts for a first failure at
/// `now`: keyed by the event id, zero retries, due one minute later.
pub open spec fn new_failed_row(event_id: u128, now: i64) -> FailedEvent {
    FailedEvent {
        id: event_id,
        event_id,
        retry_time: (now + SECONDS_PER_MINUTE) as i64,
        created_at: now,
        retries: 0,
        resolved_at: None,
    }
}

/// The snapshot after moving a failed event's next retry to `retry_time`
/// with `retries` attempts recorded; rows for other events are untouched.
pub open spec fn spec_update_retry(
    m: DbModel,
    event_id: u128,
    retry_time: i64,
    retries: i16,
) -> DbModel {
    DbModel {
        services: m.services,
        event_types: m.event_types,
        subscriptions: m.subscriptions,
        published_events: m.published_events,
        failed_events: m.failed_events.map_values(
            |f: FailedEvent|
                if f.event_id == event_id {
                    FailedEvent {
                        id: f.id,
                        event_id: f.event_id,
                        retry_time,
                        created_at: f.created_at,
                        retries,
                        resolved_at: f.resolved_at,
                    }
                } else {
                    f
                },
        ),
    }
}

/// The snapshot after resolving a failed event at `now`; rows for other
/// events are untouched.
pub open spec fn spec_resolve_failed(m: DbModel, event_id: u128, now: i64) -> DbModel {
    DbModel {
        services: m.services,
        event_types: m.event_types,
        subscriptions: m.subscriptions,
        published_events: m.published_events,
        failed_events: m.failed_events.map_values(
            |f: FailedEvent|
                if f.event_id == event_id {
                    FailedEvent {
                        id: f.id,
                        event_id: f.event_id,
                        retry_time: f.retry_time,
                        created_at: f.created_at,
                        retries: f.retries,
                        resolved_at: Some(now),
                    }
                } else {
                    f
                },
        ),
    }
}

/// The events the scheduler must re-inject at `now`: for every due failed
/// row, the published event it references, dressed with the row's retry
/// details, in storage order.
pub open spec fn due_events(
    failed: Seq<FailedEvent>,
    published: Seq<PublishedEventRecord>,
    now: i64,
) -> Seq<VentrixEvent>
    decreases failed.len(),
{
    if failed.len() == 0 {
        Seq::empty()
    } else {
        let prefix = due_events(failed.drop_last(), published, now);
        let f = failed.last();
        if is_due(f, now) && find_published(published, f.event_id) is Some {
            let p = find_published(published, f.event_id).unwrap();
            prefix.push(
                VentrixEvent {
                    id: p.id,
                    event_type: p.event_type,
                    payload: p.payload,
                    retry_details: Some(
                        RetryDetails { retry_count: f.retries, retry_time: f.retry_time },
                    ),
                },
            )
        } else {
            prefix
        }
    }
}

/// Replacing published rows without touching their ids keeps the ids unique
/// and keeps every failed row's reference intact.
proof fn lemma_published_pointwise_ids(
    s_old: Seq<PublishedEventRecord>,
    s_new: Seq<PublishedEventRecord>,
    failed: Seq<FailedEvent>,
)
    requires
        s_new.len() == s_old.len(),
        forall|k: int| 0 <= k < s_old.len() ==> (#[trigger] s_new[k]).id == s_old[k].id,
        unique_published_ids(s_old),
        failed_rows_reference_published(failed, s_old),
    ensures
        unique_published_ids(s_new),
        failed_rows_reference_published(failed, s_new),
{
    assert forall|a: int, b: int| 0 <= a < b < s_new.len() implies (#[trigger] s_new[a]).id != (
    #[trigger] s_new[b]).id by {
        assert(s_new[a].id == s_old[a].id);
        assert(s_new[b].id == s_old[b].id);
        assert(s_old[a].id != s_old[b].id);
    }
    assert forall|i: int| 0 <= i < failed.len() implies published_has_id(
        s_new,
        (#[trigger] failed[i]).event_id,
    ) by {
        assert(published_has_id(s_old, failed[i].event_id));
        let j = choose|j: int|
            0 <= j < s_old.len() && (#[trigger] s_old[j]).id == failed[i].event_id;
        assert(s_new[j].id == failed[i].event_id);
    }
}

/// Replacing failed rows without touching their event ids keeps one row per
/// event, keeps the references intact, and keeps the retry bound when the
/// replacements respect it.
proof fn lemma_failed_pointwise(
    f_old: Seq<FailedEvent>,
    f_new: Seq<FailedEvent>,
    published: Seq<PublishedEventRecord>,
)
    requires
        f_new.len() == f_old.len(),
        forall|k: int| 0 <= k < f_old.len() ==> (#[trigger] f_new[k]).event_id
            == f_old[k].event_id,
        forall|k: int| 0 <= k < f_old.len() ==> 0 <= (#[trigger] f_new[k]).retries <= RETRY_CAP,
        unique_failed_event_ids(f_old),
        failed_rows_reference_published(f_old, published),
    ensures
        unique_failed_event_ids(f_new),
        failed_rows_bounded(f_new),
        failed_rows_reference_published(f_new, published),
{
    assert forall|a: int, b: int| 0 <= a < b < f_new.len() implies (#[trigger] f_new[a]).event_id
        != (#[trigger] f_new[b]).event_id by {
        assert(f_new[a].event_id == f_old[a].event_id);
        assert(f_new[b].event_id == f_old[b].event_id);
        assert(f_old[a].event_id != f_old[b].event_id);
    }
    assert forall|i: int| 0 <= i < f_new.len() implies published_has_id(
        published,
        (#[trigger] f_new[i]).event_id,
    ) by {
        assert(published_has_id(published, f_old[i].event_id));
    }
}

impl InMemoryDatabase {
    /// Upserts a published event: the row for the event's id is created, or
    /// replaced with its fulfillment mark cleared. Exactly one row carries
    /// the id afterwards.
    pub fn save_published_event(&mut self, event: &VentrixEvent) -> (r: InsertDataResponse)
        requires
            old(self)@.wf(),
        ensures
            final(self)@.wf(),
            final(self)@ == spec_save_published(
                old(self)@,
                event.id,
                event.event_type,
                event.payload,
            ),
            final(self)@.has_published(event.id),
            r == InsertDataResponse::InMemory,
    {
        let record = PublishedEventRecord {
            id: event.id,
            event_type: event.event_type.clone(),
            payload: event.payload.clone(),
            fulfilled_at: None,
        };
        match self.published_index(event.id) {
            Some(i) => {
                self.published_events[i] = record;
                proof {
                    let s_old = old(self)@.published_events;
                    let s_new = self@.published_events;
                    let target = spec_save_published(
                        old(self)@,
                        event.id,
                        event.event_type,
                        event.payload,
                    );
                    assert forall|k: int| 0 <= k < s_new.len() implies s_new[k]
                        == target.published_events[k] by {
                        if k != i {
                            assert(s_old[k].id != s_old[i as int].id);
                        }
                    }
                    assert(s_new =~= target.published_events);
                    assert forall|k: int| 0 <= k < s_new.len() implies (#[trigger] s_new[k]).id
                        == s_old[k].id by {
                        if k != i {
                            assert(s_new[k] == s_old[k]);
                        }
                    }
                    lemma_published_pointwise_ids(s_old, s_new, self@.failed_events);
                    assert(self@ =~= target);
                    assert(s_new[i as int].id == event.id);
                }
            },
            None => {
                self.published_events.push(record);
                proof {
                    let s_old = old(self)@.published_events;
                    let s_new = self@.published_events;
                    let target = spec_save_published(
                        old(self)@,
                        event.id,
                        event.event_type,
                        event.payload,
                    );
                    assert(s_new =~= target.published_events);
                    assert forall|a: int, b: int| 0 <= a < b < s_new.len() implies (
                    #[trigger] s_new[a]).id != (#[trigger] s_new[b]).id by {
                        if b == s_new.len() - 1 {
                            assert(s_new[a] == s_old[a]);
                        } else {
                            assert(s_new[a] == s_old[a]);
                            assert(s_new[b] == s_old[b]);
                        }
                    }
                    assert forall|x: int| 0 <= x < self@.failed_events.len() implies
                        published_has_id(s_new, (#[trigger] self@.failed_events[x]).event_id) by {
                        assert(published_has_id(s_old, self@.failed_events[x].event_id));
                        let j = choose|j: int|
                            0 <= j < s_old.len() && (#[trigger] s_old[j]).id
                                == self@.failed_events[x].event_id;
                        assert(s_new[j] == s_old[j]);
                    }
                    assert(self@ =~= target);
                    assert(s_new[s_new.len() - 1].id == event.id);
                }
            },
        }
        InsertDataResponse::InMemory
    }

    /// Marks the published event fulfilled at `now`. Rows for other events
    /// are untouched; an unknown id is refused and changes nothing.
    pub fn fulfil_event(&mut self, event_id: u128, now: i64) -> (r: Result<
        UpdateDataResponse,
        EventNotFoundError,
    >)
        requires
            old(self)@.wf(),
        ensures
            final(self)@.wf(),
            final(self)@ == spec_fulfil(old(self)@, event_id, now),
            r is Ok <==> old(self)@.has_published(event_id),
            match r {
                Ok(resp) => resp == UpdateDataResponse::InMemory,
                Err(e) => e.message@ == "Event: \""@ + dec_digits(event_id as nat)
                    + "\" not found"@,
            },
    {
        match self.published_index(event_id) {
            Some(i) => {
                let patched = PublishedEventRecord {
                    id: self.published_events[i].id,
                    event_type: self.published_events[i].event_type.clone(),
                    payload: self.published_events[i].payload.clone(),
                    fulfilled_at: Some(now),
                };
                self.published_events[i] = patched;
                proof {
                    let s_old = old(self)@.published_events;
                    let s_new = self@.published_events;
                    let target = spec_fulfil(old(self)@, event_id, now);
                    assert forall|k: int| 0 <= k < s_new.len() implies s_new[k]
                        == target.published_events[k] by {
                        if k != i {
                            assert(s_old[k].id != s_old[i as int].id);
                        }
                    }
                    assert(s_new =~= target.published_events);
                    assert forall|k: int| 0 <= k < s_new.len() implies (#[trigger] s_new[k]).id
                        == s_old[k].id by {
                        if k != i {
                            assert(s_new[k] == s_old[k]);
                        }
                    }
                    lemma_published_pointwise_ids(s_old, s_new, self@.failed_events);
                    assert(self@ =~= target);
                }
                Ok(UpdateDataResponse::InMemory)
            },
            None => {
                proof {
                    let s = self@.published_events;
                    let target = spec_fulfil(old(self)@, event_id, now);
                    assert forall|k: int| 0 <= k < s.len() implies target.published_events[k]
                        == s[k] by {
                        assert(s[k].id != event_id);
                    }
                    assert(target.published_events =~= s);
                    assert(self@ =~= target);
                }
                Err(EventNotFoundError::new(u128_to_string(event_id).as_str()))
            },
        }
    }

    /// Records a first delivery failure for the event at `now`: inserts its
    /// failed-event row with no retries, due one minute later. An event
    /// that already has a failed row keeps it unchanged; an event that was
    /// never published is refused.
    pub fn add_failed_event(&mut self, event: &VentrixEvent, now: i64) -> (r: Result<
        InsertDataResponse,
        EventNotFoundError,
    >)
        requires
            old(self)@.wf(),
            0 <= now <= MAX_TIMESTAMP,
        ensures
            final(self)@.wf(),
            final(self)@ == spec_add_failed(old(self)@, event.id, now),
            r is Ok <==> old(self)@.has_published(event.id),
            match r {
                Ok(resp) => resp == InsertDataResponse::InMemory,
                Err(e) => e.message@ == "Event: \""@ + dec_digits(event.id as nat)
                    + "\" not found"@,
            },
    {
        if self.published_index(event.id).is_none() {
            proof {
                assert(self@ =~= spec_add_failed(old(self)@, event.id, now));
            }
            return Err(EventNotFoundError::new(u128_to_string(event.id).as_str()));
        }
        match self.failed_index(event.id) {
            Some(_) => {
                proof {
                    assert(self@ =~= spec_add_failed(old(self)@, event.id, now));
                }
                Ok(InsertDataResponse::InMemory)
            },
            None => {
                let row = FailedEvent {
                    id: event.id,
                    event_id: event.id,
                    retry_time: now + SECONDS_PER_MINUTE,
                    created_at: now,
                    retries: 0,
                    resolved_at: None,
                };
                self.failed_events.push(row);
                proof {
                    let f_old = old(self)@.failed_events;
                    let f_new = self@.failed_events;
                    assert(f_new =~= spec_add_failed(old(self)@, event.id, now).failed_events);
                    assert forall|a: int, b: int| 0 <= a < b < f_new.len() implies (
                    #[trigger] f_new[a]).event_id != (#[trigger] f_new[b]).event_id by {
                        if b == f_new.len() - 1 {
                            assert(f_new[a] == f_old[a]);
                        } else {
                            assert(f_new[a] == f_old[a]);
                            assert(f_new[b] == f_old[b]);
                        }
                    }
                    assert forall|x: int| 0 <= x < f_new.len() implies 0 <= (
                    #[trigger] f_new[x]).retries <= RETRY_CAP by {
                        if x < f_new.len() - 1 {
                            assert(f_new[x] == f_old[x]);
                        }
                    }
                    assert forall|x: int| 0 <= x < f_new.len() implies published_has_id(
                        self@.published_events,
                        (#[trigger] f_new[x]).event_id,
                    ) by {
                        if x < f_new.len() - 1 {
                            assert(f_new[x] == f_old[x]);
                            assert(published_has_id(self@.published_events, f_old[x].event_id));
                        }
                    }
                    assert(self@ =~= spec_add_failed(old(self)@, event.id, now));
                }
                Ok(InsertDataResponse::InMemory)
            },
        }
    }

    /// Moves the failed event's next retry to `new_retry_time` with
    /// `retries` attempts recorded. Rows for other events are untouched; an
    /// event without a failed row is refused and changes nothing.
    pub fn update_retry_time(&mut self, event_id: u128, new_retry_time: i64, retries: i16) -> (r:
        Result<UpdateDataResponse, EventNotFoundError>)
        requires
            old(self)@.wf(),
            0 <= retries <= RETRY_CAP,
        ensures
            final(self)@.wf(),
            final(self)@ == spec_update_retry(old(self)@, event_id, new_retry_time, retries),
            r is Ok <==> old(self)@.has_failed(event_id),
            match r {
                Ok(resp) => resp == UpdateDataResponse::InMemory,
                Err(e) => e.message@ == "Event: \""@ + dec_digits(event_id as nat)
                    + "\" not found"@,
            },
    {
        match self.failed_index(event_id) {
            Some(i) => {
                let patched = FailedEvent {
                    id: self.failed_events[i].id,
                    event_id: self.failed_events[i].event_id,
                    retry_time: new_retry_time,
                    created_at: self.failed_events[i].created_at,
                    retries,
                    resolved_at: self.failed_events[i].resolved_at,
                };
                self.failed_events[i] = patched;
                proof {
                    let f_old = old(self)@.failed_events;
                    let f_new = self@.failed_events;
                    let target = spec_update_retry(old(self)@, event_id, new_retry_time, retries);
                    assert forall|k: int| 0 <= k < f_new.len() implies f_new[k]
                        == target.failed_events[k] by {
                        if k != i {
                            assert(f_old[k].event_id != f_old[i as int].event_id);
                        }
                    }
                    assert(f_new =~= target.failed_events);
                    assert forall|k: int| 0 <= k < f_new.len() implies (
                    #[trigger] f_new[k]).event_id == f_old[k].event_id by {
                        if k != i {
                            assert(f_new[k] == f_old[k]);
                        }
                    }
                    assert forall|k: int| 0 <= k < f_new.len() implies 0 <= (
                    #[trigger] f_new[k]).retries <= RETRY_CAP by {
                        if k != i {
                            assert(f_new[k] == f_old[k]);
                        }
                    }
                    lemma_failed_pointwise(f_old, f_new, self@.published_events);
                    assert(self@ =~= target);
                }
                Ok(UpdateDataResponse::InMemory)
            },
            None => {
                proof {
                    let f = self@.failed_events;
                    let target = spec_update_retry(old(self)@, event_id, new_retry_time, retries);
                    assert forall|k: int| 0 <= k < f.len() implies target.failed_events[k] == f[k]
                        by {
                        assert(f[k].event_id != event_id);
                    }
                    assert(target.failed_events =~= f);
                    assert(self@ =~= target);
                }
                Err(EventNotFoundError::new(u128_to_string(event_id).as_str()))
            },
        }
    }

    /// Marks the failed event resolved at `now`. Rows for other events are
    /// untouched; an event without a failed row is refused and changes
    /// nothing.
    pub fn resolve_failed_event(&mut self, event_id: u128, now: i64) -> (r: Result<
        UpdateDataResponse,
        EventNotFoundError,
    >)
        requires
            old(self)@.wf(),
        ensures
            final(self)@.wf(),
            final(self)@ == spec_resolve_failed(old(self)@, event_id, now),
            r is Ok <==> old(self)@.has_failed(event_id),
            match r {
                Ok(resp) => resp == UpdateDataResponse::InMemory,
                Err(e) => e.message@ == "Event: \""@ + dec_digits(event_id as nat)
                    + "\" not found"@,
            },
    {
        match self.failed_index(event_id) {
            Some(i) => {
                let patched = FailedEvent {
                    id: self.failed_events[i].id,
                    event_id: self.failed_events[i].event_id,
                    retry_time: self.failed_events[i].retry_time,
                    created_at: self.failed_events[i].created_at,
                    retries: self.failed_events[i].retries,
                    resolved_at: Some(now),
                };
                self.failed_events[i] = patched;
                proof {
                    let f_old = old(self)@.failed_events;
                    let f_new = self@.failed_events;
                    let target = spec_resolve_failed(old(self)@, event_id, now);
                    assert forall|k: int| 0 <= k < f_new.len() implies f_new[k]
                        == target.failed_events[k] by {
                        if k != i {
                            assert(f_old[k].event_id != f_old[i as int].event_id);
                        }
                    }
                    assert(f_new =~= target.failed_events);
                    assert forall|k: int| 0 <= k < f_new.len() implies (
                    #[trigger] f_new[k]).event_id == f_old[k].event_id by {
                        if k != i {
                            assert(f_new[k] == f_old[k]);
                        }
                    }
                    assert forall|k: int| 0 <= k < f_new.len() implies 0 <= (
                    #[trigger] f_new[k]).retries <= RETRY_CAP by {
                        if k != i {
                            assert(f_new[k] == f_old[k]);
                        }
                    }
                    lemma_failed_pointwise(f_old, f_new, self@.published_events);
                    assert(self@ =~= target);
                }
                Ok(UpdateDataResponse::InMemory)
            },
            None => {
                proof {
                    let f = self@.failed_events;
                    let target = spec_resolve_failed(old(self)@, event_id, now);
                    assert forall|k: int| 0 <= k < f.len() implies target.failed_events[k] == f[k]
                        by {
                        assert(f[k].event_id != event_id);
                    }
                    assert(target.failed_events =~= f);
                    assert(self@ =~= target);
                }
                Err(EventNotFoundError::new(u128_to_string(event_id).as_str()))
            },
        }
    }

    /// The events due for re-injection at `now`: every unresolved failed
    /// row under the retry cap whose retry time has passed, joined with its
    /// published event and dressed with its retry details.
    pub fn get_failed_events(&self, now: i64) -> (r: Vec<VentrixEvent>)
        requires
            self@.wf(),
        ensures
            r@ == due_events(self@.failed_events, self@.published_events, now),
    {
        let mut out: Vec<VentrixEvent> = Vec::new();
        let mut i: usize = 0;
        proof {
            assert(self@.failed_events.take(0) =~= Seq::<FailedEvent>::empty());
        }
        while i < self.failed_events.len()
            invariant
                self@.wf(),
                0 <= i <= self@.failed_events.len(),
                out@ == due_events(self@.failed_events.take(i as int), self@.published_events, now),
            decreases self@.failed_events.len() - i,
        {
            proof {
                assert(self@.failed_events.take(i + 1).drop_last() =~= self@.failed_events.take(
                    i as int,
                ));
                assert(self@.failed_events.take(i + 1).last() == self@.failed_events[i as int]);
            }
            let due_now = self.failed_events[i].resolved_at.is_none()
                && self.failed_events[i].retries < RETRY_CAP
                && self.failed_events[i].retry_time <= now;
            if due_now {
                match self.published_index(self.failed_events[i].event_id) {
                    Some(p) => {
                        let row = FailedEventRow {
                            id: self.published_events[p].id,
                            event_type: self.published_events[p].event_type.clone(),
                            payload: self.published_events[p].payload.clone(),
                            retry_time: self.failed_events[i].retry_time,
                            retries: self.failed_events[i].retries,
                        };
                        out.push(VentrixEvent::from_failed_event(&row));
                        proof {
                            lemma_find_published_unique(
                                self@.published_events,
                                self@.failed_events[i as int].event_id,
                                p as int,
                            );
                        }
                    },
                    None => {
                        proof {
                            lemma_find_published_none(
                                self@.published_events,
                                self@.failed_events[i as int].event_id,
                            );
                        }
                    },
                }
            }
            i = i + 1;
        }
        proof {
            assert(self@.failed_events.take(self@.failed_events.len() as int)
                =~= self@.failed_events);
        }
        out
    }
}

/// Marking an event fulfilled keeps the snapshot consistent and keeps
/// every table's membership: only a fulfillment mark changes.
pub proof fn lemma_spec_fulfil_wf(m: DbModel, event_id: u128, now: i64)
    requires
        m.wf(),
    ensures
        spec_fulfil(m, event_id, now).wf(),
        spec_fulfil(m, event_id, now).failed_events == m.failed_events,
        forall|x: u128| published_has_id(spec_fulfil(m, event_id, now).published_events, x)
            == published_has_id(m.published_events, x),
{
    let m2 = spec_fulfil(m, event_id, now);
    assert forall|k: int| 0 <= k < m.published_events.len() implies (
    #[trigger] m2.published_events[k]).id == m.published_events[k].id by {}
    lemma_published_pointwise_ids(m.published_events, m2.published_events, m.failed_events);
    assert forall|x: u128| published_has_id(m2.published_events, x) == published_has_id(
        m.published_events,
        x,
    ) by {
        if published_has_id(m.published_events, x) {
            let j = choose|j: int|
                0 <= j < m.published_events.len() && (#[trigger] m.published_events[j]).id == x;
            assert(m2.published_events[j].id == x);
        }
        if published_has_id(m2.published_events, x) {
            let j = choose|j: int|
                0 <= j < m2.published_events.len() && (#[trigger] m2.published_events[j]).id == x;
            assert(m.published_events[j].id == x);
        }
    }
}

/// Resolving a failed event keeps the snapshot consistent; only the
/// resolution mark changes, so membership, retry counts and retry times
/// are untouched.
pub proof fn lemma_spec_resolve_wf(m: DbModel, event_id: u128, now: i64)
    requires
        m.wf(),
    ensures
        spec_resolve_failed(m, event_id, now).wf(),
        spec_resolve_failed(m, event_id, now).published_events == m.published_events,
        forall|x: u128| failed_has_event_id(spec_resolve_failed(m, event_id, now).failed_events, x)
            == failed_has_event_id(m.failed_events, x),
{
    let m2 = spec_resolve_failed(m, event_id, now);
    assert forall|k: int| 0 <= k < m.failed_events.len() implies (
    #[trigger] m2.failed_events[k]).event_id == m.failed_events[k].event_id && 0 <= (
    m2.failed_events[k]).retries <= RETRY_CAP by {}
    lemma_failed_pointwise(m.failed_events, m2.failed_events, m.published_events);
    assert forall|x: u128| failed_has_event_id(m2.failed_events, x) == failed_has_event_id(
        m.failed_events,
        x,
    ) by {
        if failed_has_event_id(m.failed_events, x) {
            let j = choose|j: int|
                0 <= j < m.failed_events.len() && (#[trigger] m.failed_events[j]).event_id == x;
            assert(m2.failed_events[j].event_id == x);
        }
        if failed_has_event_id(m2.failed_events, x) {
            let j = choose|j: int|
                0 <= j < m2.failed_events.len() && (#[trigger] m2.failed_events[j]).event_id == x;
            assert(m.failed_events[j].event_id == x);
        }
    }
}

/// Moving a failed event's retry bookkeeping keeps the snapshot
/// consistent when the recorded count respects the cap; membership is
/// untouched.
pub proof fn lemma_spec_update_retry_wf(m: DbModel, event_id: u128, retry_time: i64, retries: i16)
    requires
        m.wf(),
        0 <= retries <= RETRY_CAP,
    ensures
        spec_update_retry(m, event_id, retry_time, retries).wf(),
        spec_update_retry(m, event_id, retry_time, retries).published_events
            == m.published_events,
        forall|x: u128|
            failed_has_event_id(
                spec_update_retry(m, event_id, retry_time, retries).failed_events,
                x,
            ) == failed_has_event_id(m.failed_events, x),
{
    let m2 = spec_update_retry(m, event_id, retry_time, retries);
    assert forall|k: int| 0 <= k < m.failed_events.len() implies (
    #[trigger] m2.failed_events[k]).event_id == m.failed_events[k].event_id && 0 <= (
    m2.failed_events[k]).retries <= RETRY_CAP by {}
    lemma_failed_pointwise(m.failed_events, m2.failed_events, m.published_events);
    assert forall|x: u128| failed_has_event_id(m2.failed_events, x) == failed_has_event_id(
        m.failed_events,
        x,
    ) by {
        if failed_has_event_id(m.failed_events, x) {
            let j = choose|j: int|
                0 <= j < m.failed_events.len() && (#[trigger] m.failed_events[j]).event_id == x;
            assert(m2.failed_events[j].event_id == x);
        }
        if failed_has_event_id(m2.failed_events, x) {
            let j = choose|j: int|
                0 <= j < m2.failed_events.len() && (#[trigger] m2.failed_events[j]).event_id == x;
            assert(m.failed_events[j].event_id == x);
        }
    }
}

/// Recording a first failure keeps the snapshot consistent: at most one
/// new row appears, and only when the event is published and had none.
pub proof fn lemma_spec_add_failed_wf(m: DbModel, event_id: u128, now: i64)
    requires
        m.wf(),
        0 <= now <= MAX_TIMESTAMP,
    ensures
        spec_add_failed(m, event_id, now).wf(),
        spec_add_failed(m, event_id, now).published_events == m.published_events,
        m.has_published(event_id) && !m.has_failed(event_id) ==> spec_add_failed(
            m,
            event_id,
            now,
        ).failed_events == m.failed_events.push(new_failed_row(event_id, now)),
        !(m.has_published(event_id) && !m.has_failed(event_id)) ==> spec_add_failed(
            m,
            event_id,
            now,
        ) == m,
        forall|x: u128| failed_has_event_id(spec_add_failed(m, event_id, now).failed_events, x)
            == (failed_has_event_id(m.failed_events, x) || (x == event_id && m.has_published(
            event_id,
        ))),
{
    let m2 = spec_add_failed(m, event_id, now);
    if m.has_published(event_id) && !m.has_failed(event_id) {
        let f_old = m.failed_events;
        let f_new = m2.failed_events;
        assert forall|a: int, b: int| 0 <= a < b < f_new.len() implies (
        #[trigger] f_new[a]).event_id != (#[trigger] f_new[b]).event_id by {
            if b == f_new.len() - 1 {
                assert(f_new[a] == f_old[a]);
            } else {
                assert(f_new[a] == f_old[a]);
                assert(f_new[b] == f_old[b]);
            }
        }
        assert forall|x: int| 0 <= x < f_new.len() implies 0 <= (#[trigger] f_new[x]).retries
            <= RETRY_CAP by {
            if x < f_new.len() - 1 {
                assert(f_new[x] == f_old[x]);
            }
        }
        assert forall|x: int| 0 <= x < f_new.len() implies published_has_id(
            m2.published_events,
            (#[trigger] f_new[x]).event_id,
        ) by {
            if x < f_new.len() - 1 {
                assert(f_new[x] == f_old[x]);
                assert(published_has_id(m.published_events, f_old[x].event_id));
            }
        }
        assert forall|x: u128| failed_has_event_id(m2.failed_events, x) == (failed_has_event_id(
            m.failed_events,
            x,
        ) || (x == event_id && m.has_published(event_id))) by {
            if failed_has_event_id(m.failed_events, x) {
                let j = choose|j: int|
                    0 <= j < m.failed_events.len() && (#[trigger] m.failed_events[j]).event_id
                        == x;
                assert(m2.failed_events[j].event_id == x);
            }
            if x == event_id {
                assert(m2.failed_events[m2.failed_events.len() - 1].event_id == x);
            }
            if failed_has_event_id(m2.failed_events, x) && x != event_id {
                let j = choose|j: int|
                    0 <= j < m2.failed_events.len() && (#[trigger] m2.failed_events[j]).event_id
                        == x;
                assert(j < m.failed_events.len());
                assert(m.failed_events[j].event_id == x);
            }
        }
    }
}

} // verus!
