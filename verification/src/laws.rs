//! Broker-wide guarantees, stated and proved over the storage snapshot.
//!
//! Each law speaks about one full fan-out pass ([`spec_deliver`]) or about
//! the retry scheduler's selection ([`due_events`]), for every store, every
//! event and every pattern of subscriber responses.

use vstd::prelude::*;
use crate::persistence::due_events;
use crate::persistence::failed_count;
use crate::persistence::failed_rows_bounded;
use crate::persistence::find_published;
use crate::persistence::is_due;
use crate::persistence::lemma_failed_count_unique;
use crate::persistence::lemma_spec_add_failed_wf;
use crate::persistence::lemma_spec_fulfil_wf;
use crate::persistence::new_failed_row;
use crate::persistence::spec_fulfil;
use crate::persistence::spec_resolve_failed;
use crate::persistence::spec_update_retry;
use crate::persistence::DbModel;
use crate::persistence::PublishedEventRecord;
use crate::queue_service::spec_deliver;
use crate::queue_service::spec_delivery_step;
use crate::queue_service::DeliveryResponse;
use crate::types::FailedEvent;
use crate::types::RetryDetails;
use crate::types::VentrixEvent;
use crate::types::MAX_TIMESTAMP;
use crate::types::RETRY_CAP;

verus! {

/// Some published row carries this id and is marked fulfilled.
pub open spec fn fulfilled_marked(published: Seq<PublishedEventRecord>, id: u128) -> bool {
    exists|k: int|
        0 <= k < published.len() && (#[trigger] published[k]).id == id && published[k].fulfilled_at
            is Some
}

/// Some failed row references this event and is marked resolved.
pub open spec fn resolved_marked(failed: Seq<FailedEvent>, event_id: u128) -> bool {
    exists|k: int|
        0 <= k < failed.len() && (#[trigger] failed[k]).event_id == event_id
            && failed[k].resolved_at is Some
}

/// A lookup that finds a row answers a row carrying the asked id.
proof fn lemma_find_published_id(s: Seq<PublishedEventRecord>, id: u128)
    ensures
        find_published(s, id) is Some ==> find_published(s, id).unwrap().id == id,
    decreases s.len(),
{
    if s.len() > 0 && s[0].id != id {
        lemma_find_published_id(s.drop_first(), id);
    }
}

/// At any observation point of a consistent store, no failed row has more
/// retries than the cap allows.
pub proof fn lemma_retry_cap_observed(m: DbModel)
    requires
        m.wf(),
    ensures
        forall|i: int|
            0 <= i < m.failed_events.len() ==> (#[trigger] m.failed_events[i]).retries
                <= RETRY_CAP,
{
}

/// Everything the scheduler re-injects comes from a due failed row: one
/// that is unresolved, under the retry cap, and past its retry time; the
/// re-injected event carries exactly that row's retry details.
pub proof fn lemma_due_events_only_due(
    failed: Seq<FailedEvent>,
    published: Seq<PublishedEventRecord>,
    now: i64,
)
    ensures
        forall|k: int|
            0 <= k < due_events(failed, published, now).len() ==> exists|i: int|
                0 <= i < failed.len() && is_due(#[trigger] failed[i], now) && (
                #[trigger] due_events(failed, published, now)[k]).id == failed[i].event_id
                    && due_events(failed, published, now)[k].retry_details == Some(
                    RetryDetails {
                        retry_count: failed[i].retries,
                        retry_time: failed[i].retry_time,
                    },
                ),
    decreases failed.len(),
{
    if failed.len() > 0 {
        let prefix_rows = failed.drop_last();
        lemma_due_events_only_due(prefix_rows, published, now);
        let prefix = due_events(prefix_rows, published, now);
        let whole = due_events(failed, published, now);
        lemma_find_published_id(published, failed.last().event_id);
        assert forall|k: int| 0 <= k < whole.len() implies exists|i: int|
            0 <= i < failed.len() && is_due(#[trigger] failed[i], now) && (#[trigger] whole[k]).id
                == failed[i].event_id && whole[k].retry_details == Some(
                RetryDetails {
                    retry_count: failed[i].retries,
                    retry_time: failed[i].retry_time,
                },
            ) by {
            if k < prefix.len() {
                let i = choose|i: int|
                    0 <= i < prefix_rows.len() && is_due(#[trigger] prefix_rows[i], now) && (
                    prefix[k]).id == prefix_rows[i].event_id && prefix[k].retry_details == Some(
                        RetryDetails {
                            retry_count: prefix_rows[i].retries,
                            retry_time: prefix_rows[i].retry_time,
                        },
                    );
                assert(prefix_rows[i] == failed[i]);
                assert(whole[k] == prefix[k]);
            } else {
                assert(is_due(failed[failed.len() - 1], now));
            }
        }
    }
}

/// Each re-injected event is in flight as a retry: its retry details are
/// present, under the cap, and already due.
pub proof fn lemma_due_events_in_cap(
    failed: Seq<FailedEvent>,
    published: Seq<PublishedEventRecord>,
    now: i64,
)
    requires
        failed_rows_bounded(failed),
    ensures
        forall|k: int|
            0 <= k < due_events(failed, published, now).len() ==> {
                let e = #[trigger] due_events(failed, published, now)[k];
                &&& e.retry_details is Some
                &&& 0 <= e.retry_details.unwrap().retry_count < RETRY_CAP
                &&& e.retry_details.unwrap().retry_time <= now
            },
    decreases failed.len(),
{
    if failed.len() > 0 {
        assert forall|j: int| 0 <= j < failed.drop_last().len() implies 0 <= (
        #[trigger] failed.drop_last()[j]).retries <= RETRY_CAP by {
            assert(failed.drop_last()[j] == failed[j]);
        }
        lemma_due_events_in_cap(failed.drop_last(), published, now);
        let prefix = due_events(failed.drop_last(), published, now);
        let whole = due_events(failed, published, now);
        assert forall|k: int| 0 <= k < whole.len() implies {
            let e = #[trigger] whole[k];
            &&& e.retry_details is Some
            &&& 0 <= e.retry_details.unwrap().retry_count < RETRY_CAP
            &&& e.retry_details.unwrap().retry_time <= now
        } by {
            if k < prefix.len() {
                assert(whole[k] == prefix[k]);
            }
        }
    }
}

/// A first delivery pass touches the failed table in exactly one way:
/// when some subscriber answered non-2xx and the event had no failed row,
/// its fresh row is appended; otherwise the failed table stays as it was.
pub proof fn lemma_deliver_first_attempt(
    m: DbModel,
    event: VentrixEvent,
    responses: Seq<DeliveryResponse>,
    now: i64,
)
    requires
        m.wf(),
        m.has_published(event.id),
        event.retry_details is None,
        0 <= now <= MAX_TIMESTAMP,
    ensures
        spec_deliver(m, event, responses, now).wf(),
        spec_deliver(m, event, responses, now).failed_events == (if !m.has_failed(event.id) && (
        exists|i: int| 0 <= i < responses.len() && (#[trigger] responses[i]) is ServerError) {
            m.failed_events.push(new_failed_row(event.id, now))
        } else {
            m.failed_events
        }),
    decreases responses.len(),
{
    if responses.len() > 0 {
        let rest = responses.drop_first();
        let m1 = spec_delivery_step(m, event, responses[0], now);
        assert forall|j: int| 0 <= j < rest.len() implies (#[trigger] rest[j]) == responses[j + 1]
            by {}
        match responses[0] {
            DeliveryResponse::Delivered => {
                lemma_spec_fulfil_wf(m, event.id, now);
                lemma_deliver_first_attempt(m1, event, rest, now);
                assert(m1.failed_events == m.failed_events);
                if exists|i: int|
                    0 <= i < responses.len() && (#[trigger] responses[i]) is ServerError {
                    let i = choose|i: int|
                        0 <= i < responses.len() && (#[trigger] responses[i]) is ServerError;
                    assert(rest[i - 1] is ServerError);
                }
            },
            DeliveryResponse::NoResponse => {
                lemma_deliver_first_attempt(m1, event, rest, now);
                if exists|i: int|
                    0 <= i < responses.len() && (#[trigger] responses[i]) is ServerError {
                    let i = choose|i: int|
                        0 <= i < responses.len() && (#[trigger] responses[i]) is ServerError;
                    assert(rest[i - 1] is ServerError);
                }
            },
            DeliveryResponse::ServerError => {
                lemma_spec_add_failed_wf(m, event.id, now);
                lemma_deliver_first_attempt(m1, event, rest, now);
                assert(m1.has_failed(event.id));
                assert(responses[0] is ServerError);
            },
        }
    }
}

/// For every event whose first delivery attempt saw at least one non-2xx
/// answer, exactly one failed row references it afterwards: unresolved,
/// with no retries made, due one minute later.
pub proof fn lemma_first_failure_recorded_once(
    m: DbModel,
    event: VentrixEvent,
    responses: Seq<DeliveryResponse>,
    now: i64,
)
    requires
        m.wf(),
        m.has_published(event.id),
        !m.has_failed(event.id),
        event.retry_details is None,
        0 <= now <= MAX_TIMESTAMP,
        exists|i: int| 0 <= i < responses.len() && (#[trigger] responses[i]) is ServerError,
    ensures
        ({
            let m2 = spec_deliver(m, event, responses, now);
            &&& failed_count(m2.failed_events, event.id) == 1
            &&& m2.failed_events.last() == new_failed_row(event.id, now)
            &&& m2.failed_events.last().retries == 0
            &&& m2.failed_events.last().resolved_at is None
        }),
{
    lemma_deliver_first_attempt(m, event, responses, now);
    let m2 = spec_deliver(m, event, responses, now);
    assert(m2.failed_events == m.failed_events.push(new_failed_row(event.id, now)));
    assert(m2.failed_events[m2.failed_events.len() - 1].event_id == event.id);
    lemma_failed_count_unique(m2.failed_events, event.id);
}

/// One recorded response of a retry pass keeps an existing fulfillment
/// mark and an existing resolution mark.
proof fn lemma_step_preserves_marks(
    m: DbModel,
    event: VentrixEvent,
    response: DeliveryResponse,
    now: i64,
)
    requires
        event.retry_details is Some,
        fulfilled_marked(m.published_events, event.id),
        resolved_marked(m.failed_events, event.id),
    ensures
        fulfilled_marked(spec_delivery_step(m, event, response, now).published_events, event.id),
        resolved_marked(spec_delivery_step(m, event, response, now).failed_events, event.id),
{
    let m2 = spec_delivery_step(m, event, response, now);
    let k = choose|k: int|
        0 <= k < m.published_events.len() && (#[trigger] m.published_events[k]).id == event.id
            && m.published_events[k].fulfilled_at is Some;
    let j = choose|j: int|
        0 <= j < m.failed_events.len() && (#[trigger] m.failed_events[j]).event_id == event.id
            && m.failed_events[j].resolved_at is Some;
    assert(m2.published_events.len() == m.published_events.len());
    assert(m2.published_events[k].id == event.id && m2.published_events[k].fulfilled_at is Some);
    assert(m2.failed_events.len() == m.failed_events.len());
    assert(m2.failed_events[j].event_id == event.id && m2.failed_events[j].resolved_at is Some);
}

/// A whole retry pass keeps an existing fulfillment mark and an existing
/// resolution mark.
proof fn lemma_deliver_preserves_marks(
    m: DbModel,
    event: VentrixEvent,
    responses: Seq<DeliveryResponse>,
    now: i64,
)
    requires
        event.retry_details is Some,
        fulfilled_marked(m.published_events, event.id),
        resolved_marked(m.failed_events, event.id),
    ensures
        fulfilled_marked(spec_deliver(m, event, responses, now).published_events, event.id),
        resolved_marked(spec_deliver(m, event, responses, now).failed_events, event.id),
    decreases responses.len(),
{
    if responses.len() > 0 {
        let m1 = spec_delivery_step(m, event, responses[0], now);
        lemma_step_preserves_marks(m, event, responses[0], now);
        if !(responses[0] is ServerError) {
            lemma_deliver_preserves_marks(m1, event, responses.drop_first(), now);
        }
    }
}

/// For every failed event that succeeds on retry — some subscriber
/// answers 2xx before any answers non-2xx in that pass — its failed row
/// ends resolved and the event ends fulfilled.
pub proof fn lemma_retry_success_resolves_and_fulfils(
    m: DbModel,
    event: VentrixEvent,
    responses: Seq<DeliveryResponse>,
    now: i64,
)
    requires
        m.wf(),
        m.has_published(event.id),
        m.has_failed(event.id),
        event.retry_details is Some,
        exists|i: int|
            0 <= i < responses.len() && (#[trigger] responses[i]) is Delivered && (forall|j: int|
                0 <= j < i ==> !((#[trigger] responses[j]) is ServerError)),
    ensures
        fulfilled_marked(spec_deliver(m, event, responses, now).published_events, event.id),
        resolved_marked(spec_deliver(m, event, responses, now).failed_events, event.id),
    decreases responses.len(),
{
    let i = choose|i: int|
        0 <= i < responses.len() && (#[trigger] responses[i]) is Delivered && (forall|j: int|
            0 <= j < i ==> !((#[trigger] responses[j]) is ServerError));
    let m1 = spec_delivery_step(m, event, responses[0], now);
    let rest = responses.drop_first();
    assert forall|j: int| 0 <= j < rest.len() implies (#[trigger] rest[j]) == responses[j + 1]
        by {}
    if responses[0] is Delivered {
        let resolved = spec_resolve_failed(m, event.id, now);
        let jr = choose|j: int|
            0 <= j < m.failed_events.len() && (#[trigger] m.failed_events[j]).event_id == event.id;
        assert(resolved.failed_events[jr].event_id == event.id && resolved.failed_events[jr].resolved_at
            is Some);
        let jp = choose|j: int|
            0 <= j < m.published_events.len() && (#[trigger] m.published_events[j]).id
                == event.id;
        assert(m1 == spec_fulfil(resolved, event.id, now));
        assert(m1.published_events[jp].id == event.id && m1.published_events[jp].fulfilled_at
            is Some);
        assert(m1.failed_events == resolved.failed_events);
        lemma_deliver_preserves_marks(m1, event, rest, now);
    } else {
        assert(i > 0);
        assert(responses[0] is NoResponse);
        assert(m1 == m);
        assert(rest[i - 1] is Delivered);
        assert forall|j: int| 0 <= j < i - 1 implies !((#[trigger] rest[j]) is ServerError) by {
            assert(rest[j] == responses[j + 1]);
        }
        lemma_retry_success_resolves_and_fulfils(m1, event, rest, now);
    }
}

/// Once a retry pass has recorded a non-2xx answer and moved the event's
/// retry time forward, the scheduler does not re-inject that event at any
/// instant before the new retry time.
pub proof fn lemma_updated_retry_not_reinjected(
    m: DbModel,
    event_id: u128,
    retry_time: i64,
    retries: i16,
    t: i64,
)
    requires
        m.wf(),
        t < retry_time,
    ensures
        ({
            let m2 = spec_update_retry(m, event_id, retry_time, retries);
            forall|k: int|
                0 <= k < due_events(m2.failed_events, m2.published_events, t).len() ==> (
                #[trigger] due_events(m2.failed_events, m2.published_events, t)[k]).id != event_id
        }),
{
    let m2 = spec_update_retry(m, event_id, retry_time, retries);
    lemma_due_events_only_due(m2.failed_events, m2.published_events, t);
    assert forall|k: int|
        0 <= k < due_events(m2.failed_events, m2.published_events, t).len() implies (
    #[trigger] due_events(m2.failed_events, m2.published_events, t)[k]).id != event_id by {
        let i = choose|i: int|
            0 <= i < m2.failed_events.len() && is_due(#[trigger] m2.failed_events[i], t)
                && (due_events(m2.failed_events, m2.published_events, t)[k]).id
                == m2.failed_events[i].event_id && due_events(
                m2.failed_events,
                m2.published_events,
                t,
            )[k].retry_details == Some(
                RetryDetails {
                    retry_count: m2.failed_events[i].retries,
                    retry_time: m2.failed_events[i].retry_time,
                },
            );
        if m2.failed_events[i].event_id == event_id {
            assert(m.failed_events[i].event_id == event_id);
            assert(m2.failed_events[i].retry_time == retry_time);
            assert(!is_due(m2.failed_events[i], t));
        }
    }
}

/// An event whose failed row has reached the retry cap is never
/// re-injected again, at any instant.
pub proof fn lemma_capped_event_never_reinjected(m: DbModel, event_id: u128, t: i64)
    requires
        m.wf(),
        forall|i: int|
            0 <= i < m.failed_events.len() && (#[trigger] m.failed_events[i]).event_id == event_id
                ==> m.failed_events[i].retries >= RETRY_CAP,
    ensures
        forall|k: int|
            0 <= k < due_events(m.failed_events, m.published_events, t).len() ==> (
            #[trigger] due_events(m.failed_events, m.published_events, t)[k]).id != event_id,
{
    lemma_due_events_only_due(m.failed_events, m.published_events, t);
    assert forall|k: int|
        0 <= k < due_events(m.failed_events, m.published_events, t).len() implies (
    #[trigger] due_events(m.failed_events, m.published_events, t)[k]).id != event_id by {
        let i = choose|i: int|
            0 <= i < m.failed_events.len() && is_due(#[trigger] m.failed_events[i], t)
                && (due_events(m.failed_events, m.published_events, t)[k]).id
                == m.failed_events[i].event_id && due_events(
                m.failed_events,
                m.published_events,
                t,
            )[k].retry_details == Some(
                RetryDetails {
                    retry_count: m.failed_events[i].retries,
                    retry_time: m.failed_events[i].retry_time,
                },
            );
        if m.failed_events[i].event_id == event_id {
            assert(m.failed_events[i].retries >= RETRY_CAP);
            assert(!is_due(m.failed_events[i], t));
        }
    }
}

} // verus!
