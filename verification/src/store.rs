//! The event store: durable repository for events and devices. It owns the
//! schema invariants (positional, monotonic ids; device references in range)
//! and the query semantics (filter matching, per-kind summaries, full-tuple
//! device dedup).
//!
//! Ordering guarantee chosen for the open question of filtered queries: every
//! query returns events in insertion order, which coincides with timestamp
//! capture order; the unfiltered listing therefore comes in timestamp order.

use vstd::prelude::*;
use crate::domain::{
    CreateEventRequest, CreateEventRequestModel, Device, DeviceModel, DeviceRequest,
    DeviceRequestModel, Event, EventKind, EventModel, EventSummary,
};
use crate::opt_view;

verus! {

/// An underlying storage failure, with internal detail for logging. Queries
/// never return partial results: they fail as a whole with this.
#[derive(Debug)]
pub struct StoreError {
    pub detail: Option<String>,
}

/// Mathematical model of a store: the event log and the device table, in
/// insertion order.
pub struct StoreModel {
    pub events: Seq<EventModel>,
    pub devices: Seq<DeviceModel>,
}

/// The schema invariant: ids are positional and monotonic (the `i`-th row has
/// id `i + 1`), and every device reference of an event names an existing
/// device row.
pub open spec fn store_inv(m: StoreModel) -> bool {
    &&& forall|i: int| 0 <= i < m.events.len() ==> (#[trigger] m.events[i]).id == i + 1
    &&& forall|i: int| 0 <= i < m.devices.len() ==> (#[trigger] m.devices[i]).id == i + 1
    &&& forall|i: int|
        0 <= i < m.events.len() ==> ((#[trigger] m.events[i]).device_id matches Some(d) ==> 1
            <= d <= m.devices.len())
}

/// Whether an event matches a pair of optional filters: an absent filter
/// matches everything; a present one matches exactly the events carrying that
/// value (an anonymous event never matches a user filter).
pub open spec fn event_matches(
    e: EventModel,
    user_id: Option<Seq<char>>,
    post_id: Option<Seq<char>>,
) -> bool {
    &&& (user_id matches Some(u) ==> e.user_id == Option::Some(u))
    &&& (post_id matches Some(p) ==> e.post_id == p)
}

/// The filter-matching predicate as a function value, so that every use names
/// the same function.
pub open spec fn filter_pred(
    user_id: Option<Seq<char>>,
    post_id: Option<Seq<char>>,
) -> spec_fn(EventModel) -> bool {
    |e: EventModel| event_matches(e, user_id, post_id)
}

/// The kind-selection predicate as a function value.
pub open spec fn kind_pred(k: EventKind) -> spec_fn(EventModel) -> bool {
    |e: EventModel| e.kind == k
}

/// The events matching both filters, in their order in `s`.
pub open spec fn matching_events(
    s: Seq<EventModel>,
    user_id: Option<Seq<char>>,
    post_id: Option<Seq<char>>,
) -> Seq<EventModel> {
    s.filter(filter_pred(user_id, post_id))
}

/// How many events of `s` are of kind `k`.
pub open spec fn count_of_kind(s: Seq<EventModel>, k: EventKind) -> nat {
    s.filter(kind_pred(k)).len()
}

/// Whether a device row carries exactly the submitted field tuple, absent
/// fields included: the dedup key of the device table.
pub open spec fn device_tuple_matches(dev: DeviceModel, d: DeviceRequestModel) -> bool {
    &&& dev.os == d.os
    &&& dev.browser == d.browser
    &&& dev.screen_resolution == d.screen_resolution
    &&& dev.language == d.language
}

/// The index of the first device row carrying the tuple `d`, if any.
pub open spec fn first_device_match(devs: Seq<DeviceModel>, d: DeviceRequestModel) -> Option<int>
    decreases devs.len(),
{
    if devs.len() == 0 {
        Option::None
    } else if device_tuple_matches(devs[0], d) {
        Option::Some(0)
    } else {
        match first_device_match(devs.drop_first(), d) {
            Option::Some(i) => Option::Some(i + 1),
            Option::None => Option::None,
        }
    }
}

/// The device row a fresh tuple is persisted as.
pub open spec fn fresh_device(devs: Seq<DeviceModel>, d: DeviceRequestModel) -> DeviceModel {
    DeviceModel {
        id: devs.len() as int + 1,
        os: d.os,
        browser: d.browser,
        language: d.language,
        screen_resolution: d.screen_resolution,
    }
}

/// The dedup-upsert of a device tuple: the device table after the submission,
/// and the id of the row the tuple now lives in. An already-present tuple is
/// reused, never duplicated.
pub open spec fn upsert_device(devs: Seq<DeviceModel>, d: DeviceRequestModel) -> (
    Seq<DeviceModel>,
    int,
) {
    match first_device_match(devs, d) {
        Option::Some(i) => (devs, devs[i].id),
        Option::None => (devs.push(fresh_device(devs, d)), devs.len() as int + 1),
    }
}

/// The event row a creation request is persisted as, given the store it is
/// appended to, the resolved identity and the server-assigned timestamp.
pub open spec fn created_event(
    m: StoreModel,
    req: CreateEventRequestModel,
    user_id: Option<Seq<char>>,
    ts: int,
) -> EventModel {
    EventModel {
        id: m.events.len() as int + 1,
        user_id: user_id,
        device_id: match req.device {
            Option::Some(d) => Option::Some(upsert_device(m.devices, d).1),
            Option::None => Option::None,
        },
        post_id: req.post_id,
        kind: req.kind,
        timestamp: ts,
    }
}

/// The store after a creation request: the device tuple (if any) is persisted
/// first, by dedup-upsert, then the event referencing it is appended.
pub open spec fn store_after_create(
    m: StoreModel,
    req: CreateEventRequestModel,
    user_id: Option<Seq<char>>,
    ts: int,
) -> StoreModel {
    StoreModel {
        events: m.events.push(created_event(m, req, user_id, ts)),
        devices: match req.device {
            Option::Some(d) => upsert_device(m.devices, d).0,
            Option::None => m.devices,
        },
    }
}

/// The model of a vector of events.
pub open spec fn events_model(v: Seq<Event>) -> Seq<EventModel> {
    v.map_values(|e: Event| e@)
}

/// The model of a vector of devices.
pub open spec fn devices_model(v: Seq<Device>) -> Seq<DeviceModel> {
    v.map_values(|d: Device| d@)
}

/// Filtering commutes with appending one element: the element is kept iff it
/// satisfies the predicate.
proof fn lemma_filter_push<A>(s: Seq<A>, pred: spec_fn(A) -> bool, x: A)
    ensures
        s.push(x).filter(pred) == (if pred(x) {
            s.filter(pred).push(x)
        } else {
            s.filter(pred)
        }),
{
    reveal(Seq::filter);
    assert(s.push(x).drop_last() =~= s);
    assert(s.push(x).last() == x);
}

/// If no device before position `i` carries the tuple, the first match is at
/// `i` when row `i` carries it, and there is none when `i` is the end.
proof fn lemma_first_match_at(devs: Seq<DeviceModel>, d: DeviceRequestModel, i: int)
    requires
        0 <= i <= devs.len(),
        forall|j: int| 0 <= j < i ==> !device_tuple_matches(devs[j], d),
    ensures
        (i < devs.len() && device_tuple_matches(devs[i], d)) ==> first_device_match(devs, d)
            == Option::Some(i),
        i == devs.len() ==> first_device_match(devs, d) is None,
    decreases devs.len(),
{
    if devs.len() > 0 && !device_tuple_matches(devs[0], d) && i >= 1 {
        assert forall|j: int| 0 <= j < i - 1 implies !device_tuple_matches(
            devs.drop_first()[j],
            d,
        ) by {
            assert(devs.drop_first()[j] == devs[j + 1]);
        }
        lemma_first_match_at(devs.drop_first(), d, i - 1);
        if i < devs.len() && device_tuple_matches(devs[i], d) {
            assert(devs.drop_first()[i - 1] == devs[i]);
        }
    }
}

/// When the table has no match at all, no row carries the tuple.
proof fn lemma_no_match_when_none(devs: Seq<DeviceModel>, d: DeviceRequestModel)
    requires
        first_device_match(devs, d) is None,
    ensures
        forall|j: int| 0 <= j < devs.len() ==> !device_tuple_matches(devs[j], d),
    decreases devs.len(),
{
    if devs.len() > 0 {
        lemma_no_match_when_none(devs.drop_first(), d);
        assert forall|j: int| 0 <= j < devs.len() implies !device_tuple_matches(devs[j], d) by {
            if j > 0 {
                assert(devs[j] == devs.drop_first()[j - 1]);
            }
        }
    }
}

/// Device dedup: submitting the identical device tuple in two consecutive
/// event creations yields no second device row, and both created events
/// reference the same device id.
pub proof fn lemma_device_dedup(
    m: StoreModel,
    r1: CreateEventRequestModel,
    r2: CreateEventRequestModel,
    u1: Option<Seq<char>>,
    u2: Option<Seq<char>>,
    ts1: int,
    ts2: int,
    d: DeviceRequestModel,
)
    requires
        r1.device == Option::Some(d),
        r2.device == Option::Some(d),
    ensures
        ({
            let m1 = store_after_create(m, r1, u1, ts1);
            let m2 = store_after_create(m1, r2, u2, ts2);
            &&& m2.devices == m1.devices
            &&& m2.events.last().device_id == m1.events.last().device_id
            &&& m2.events.len() == m.events.len() + 2
        }),
{
    let m1 = store_after_create(m, r1, u1, ts1);
    let m2 = store_after_create(m1, r2, u2, ts2);
    match first_device_match(m.devices, d) {
        Option::Some(i) => {
            assert(m1.devices == m.devices);
        },
        Option::None => {
            lemma_no_match_when_none(m.devices, d);
            let fresh = fresh_device(m.devices, d);
            let devs2 = m.devices.push(fresh);
            assert(device_tuple_matches(fresh, d));
            assert forall|j: int| 0 <= j < devs2.len() - 1 implies !device_tuple_matches(
                devs2[j],
                d,
            ) by {
                assert(devs2[j] == m.devices[j]);
            }
            lemma_first_match_at(devs2, d, m.devices.len() as int);
            assert(first_device_match(devs2, d) == Option::Some(m.devices.len() as int));
        },
    }
}

/// With both filters absent every event matches, so the unfiltered query
/// returns the whole log, in its stored (insertion, hence timestamp-capture)
/// order.
pub proof fn lemma_unfiltered_matches_all(s: Seq<EventModel>)
    ensures
        matching_events(s, Option::None, Option::None) == s,
    decreases s.len(),
{
    if s.len() == 0 {
        assert(matching_events(s, Option::None, Option::None) =~= s);
    } else {
        lemma_unfiltered_matches_all(s.drop_last());
        assert(s.drop_last().push(s.last()) =~= s);
        lemma_filter_push(s.drop_last(), filter_pred(Option::None, Option::None), s.last());
        assert(matching_events(s, Option::None, Option::None) =~= s);
    }
}

/// The summary counts of any event sequence partition it: every event is of
/// exactly one kind.
proof fn lemma_counts_partition(s: Seq<EventModel>)
    ensures
        count_of_kind(s, EventKind::View) + count_of_kind(s, EventKind::Like) + count_of_kind(
            s,
            EventKind::Share,
        ) == s.len(),
    decreases s.len(),
{
    if s.len() == 0 {
        assert(s.filter(kind_pred(EventKind::View)) =~= Seq::<EventModel>::empty());
        assert(s.filter(kind_pred(EventKind::Like)) =~= Seq::<EventModel>::empty());
        assert(s.filter(kind_pred(EventKind::Share)) =~= Seq::<EventModel>::empty());
    } else {
        let s0 = s.drop_last();
        lemma_counts_partition(s0);
        assert(s0.push(s.last()) =~= s);
        lemma_filter_push(s0, kind_pred(EventKind::View), s.last());
        lemma_filter_push(s0, kind_pred(EventKind::Like), s.last());
        lemma_filter_push(s0, kind_pred(EventKind::Share), s.last());
    }
}

/// The per-kind summary counts over a filter sum to the number of events the
/// same filter selects, for any filter combination.
pub proof fn lemma_summary_counts_sum(
    s: Seq<EventModel>,
    user_id: Option<Seq<char>>,
    post_id: Option<Seq<char>>,
)
    ensures
        ({
            let sel = matching_events(s, user_id, post_id);
            count_of_kind(sel, EventKind::View) + count_of_kind(sel, EventKind::Like)
                + count_of_kind(sel, EventKind::Share) == sel.len()
        }),
{
    lemma_counts_partition(matching_events(s, user_id, post_id));
}

/// An event created with no resolved identity is stored anonymous: its user
/// id is absent.
pub proof fn lemma_anonymous_event(
    m: StoreModel,
    req: CreateEventRequestModel,
    ts: int,
)
    ensures
        store_after_create(m, req, Option::None, ts).events.last().user_id is None,
{
}

/// A repository of events and devices. `model` is the contents, `wf` the
/// schema invariant an implementation maintains, and `infallible` says
/// whether every call is answered without a storage failure (true of the
/// in-memory store, not of a networked one).
pub trait EventRepository: Sized {
    spec fn model(&self) -> StoreModel;

    spec fn wf(&self) -> bool;

    spec fn infallible(&self) -> bool;

    /// All events matching both filters, in insertion order; an absent filter
    /// matches everything.
    fn find_events(&self, user_id: &Option<String>, post_id: &Option<String>) -> (r: Result<
        Vec<Event>,
        StoreError,
    >)
        requires
            self.wf(),
        ensures
            r matches Ok(v) ==> events_model(v@) == matching_events(
                self.model().events,
                opt_view(*user_id),
                opt_view(*post_id),
            ),
            self.infallible() ==> r is Ok,
    ;

    /// Per-kind counts over the same filter semantics as `find_events`;
    /// missing categories report zero.
    fn find_event_summary(&self, user_id: &Option<String>, post_id: &Option<String>) -> (r: Result<
        EventSummary,
        StoreError,
    >)
        requires
            self.wf(),
        ensures
            r matches Ok(s) ==> ({
                let sel = matching_events(self.model().events, opt_view(*user_id), opt_view(*post_id));
                &&& s.views == count_of_kind(sel, EventKind::View)
                &&& s.likes == count_of_kind(sel, EventKind::Like)
                &&& s.shares == count_of_kind(sel, EventKind::Share)
            }),
            self.infallible() ==> r is Ok,
    ;

    /// Persists the device tuple first (if present, by dedup-upsert), then
    /// the event referencing it, with a store-assigned timestamp; returns the
    /// new event id. Validates nothing: validation is the caller's
    /// responsibility. On failure no event row is appended; at worst the
    /// device upsert alone has happened (an orphaned row, reused later).
    fn create_event(&mut self, event: CreateEventRequest, user_id: Option<String>) -> (r: Result<
        i64,
        StoreError,
    >)
        requires
            old(self).wf(),
            old(self).model().events.len() < i64::MAX,
            old(self).model().devices.len() < i64::MAX,
        ensures
            final(self).wf(),
            final(self).infallible() == old(self).infallible(),
            r matches Ok(id) ==> ({
                &&& exists|ts: int|
                    final(self).model() == store_after_create(
                        old(self).model(),
                        event@,
                        opt_view(user_id),
                        ts,
                    )
                &&& id == old(self).model().events.len() + 1
            }),
            r is Err ==> ({
                &&& final(self).model().events == old(self).model().events
                &&& (final(self).model().devices == old(self).model().devices || (event@.device
                    matches Some(d) && final(self).model().devices == upsert_device(
                    old(self).model().devices,
                    d,
                ).0))
            }),
            old(self).infallible() ==> r is Ok,
    ;

    /// The unfiltered device listing, in insertion order.
    fn find_devices(&self) -> (r: Result<Vec<Device>, StoreError>)
        requires
            self.wf(),
        ensures
            r matches Ok(v) ==> devices_model(v@) == self.model().devices,
            self.infallible() ==> r is Ok,
    ;
}

/// Relies on chrono's `Utc::now` (read through `timestamp_millis`): the
/// current UTC time as milliseconds since the Unix epoch. The value depends
/// on the machine's clock, so nothing is promised of it; the call expects the
/// clock not to predate the Unix epoch.
#[verifier::external_body]
fn now_unix_millis() -> i64 {
    chrono::Utc::now().timestamp_millis()
}

/// Whether an event carries exactly the values both filters ask for.
fn event_matches_filter(e: &Event, user_id: &Option<String>, post_id: &Option<String>) -> (r:
    bool)
    ensures
        r == event_matches(e@, opt_view(*user_id), opt_view(*post_id)),
{
    let user_ok = match user_id {
        Option::Some(u) => match &e.user_id {
            Option::Some(eu) => *eu == *u,
            Option::None => false,
        },
        Option::None => true,
    };
    let post_ok = match post_id {
        Option::Some(p) => e.post_id == *p,
        Option::None => true,
    };
    user_ok && post_ok
}

/// Whether a device row carries exactly the submitted field tuple.
fn device_request_matches(dev: &Device, d: &DeviceRequest) -> (r: bool)
    ensures
        r == device_tuple_matches(dev@, d@),
{
    crate::opt_str_eq(&dev.os, &d.os) && crate::opt_str_eq(&dev.browser, &d.browser)
        && crate::opt_str_eq(&dev.screen_resolution, &d.screen_resolution) && crate::opt_str_eq(
        &dev.language,
        &d.language,
    )
}

/// The concrete in-memory store: the event log and the device table as plain
/// vectors, in insertion order. It never fails.
pub struct InMemoryStore {
    pub events: Vec<Event>,
    pub devices: Vec<Device>,
}

impl InMemoryStore {
    /// An empty store.
    pub fn new() -> (r: Self)
        ensures
            r.wf(),
            r.infallible(),
            r.model().events == Seq::<EventModel>::empty(),
            r.model().devices == Seq::<DeviceModel>::empty(),
    {
        let r = InMemoryStore { events: Vec::new(), devices: Vec::new() };
        proof {
            assert(r.model().events =~= Seq::<EventModel>::empty());
            assert(r.model().devices =~= Seq::<DeviceModel>::empty());
        }
        r
    }

    /// The whole event log, in insertion (and so timestamp-capture) order.
    pub fn find_all_events(&self) -> (r: Vec<Event>)
        ensures
            events_model(r@) == self.model().events,
    {
        let mut out: Vec<Event> = Vec::new();
        let n = self.events.len();
        let mut i: usize = 0;
        proof {
            assert(events_model(out@) =~= self.model().events.subrange(0, 0));
        }
        while i < n
            invariant
                i <= n,
                n == self.events.len(),
                events_model(out@) == events_model(self.events@).subrange(0, i as int),
            decreases n - i,
        {
            let ghost out0 = out@;
            out.push(self.events[i].clone());
            proof {
                assert(events_model(out@) =~= events_model(out0).push(self.events@[i as int]@));
                assert(events_model(self.events@).subrange(0, (i + 1) as int) =~= events_model(
                    self.events@,
                ).subrange(0, i as int).push(events_model(self.events@)[i as int]));
            }
            i += 1;
        }
        proof {
            assert(events_model(self.events@).subrange(0, n as int) =~= events_model(
                self.events@,
            ));
        }
        out
    }

    /// Looks an event up by id; "not found" is an explicit empty result, not
    /// an error.
    pub fn find_event_by_id(&self, id: i64) -> (r: Option<Event>)
        requires
            self.wf(),
        ensures
            match r {
                Option::Some(e) => 1 <= id <= self.model().events.len() && e@
                    == self.model().events[id - 1],
                Option::None => id < 1 || id > self.model().events.len(),
            },
    {
        let n = self.events.len();
        let mut i: usize = 0;
        while i < n
            invariant
                i <= n,
                n == self.events.len(),
                self.wf(),
                forall|j: int| 0 <= j < i ==> (#[trigger] self.model().events[j]).id != id,
            decreases n - i,
        {
            if self.events[i].id == id {
                proof {
                    assert(self.model().events[i as int].id == i + 1);
                }
                return Option::Some(self.events[i].clone());
            }
            i += 1;
        }
        proof {
            if 1 <= id <= self.model().events.len() {
                assert(self.model().events[id - 1].id == id);
                assert(self.model().events[id - 1].id != id);
            }
        }
        Option::None
    }
}

impl EventRepository for InMemoryStore {
    open spec fn model(&self) -> StoreModel {
        StoreModel { events: events_model(self.events@), devices: devices_model(self.devices@) }
    }

    open spec fn wf(&self) -> bool {
        store_inv(self.model())
    }

    open spec fn infallible(&self) -> bool {
        true
    }

    fn find_events(&self, user_id: &Option<String>, post_id: &Option<String>) -> (r: Result<
        Vec<Event>,
        StoreError,
    >) {
        let ghost uv = opt_view(*user_id);
        let ghost pv = opt_view(*post_id);
        let ghost ms = events_model(self.events@);
        let mut out: Vec<Event> = Vec::new();
        let n = self.events.len();
        let mut i: usize = 0;
        proof {
            assert(ms.subrange(0, 0) =~= Seq::<EventModel>::empty());
            assert(events_model(out@) =~= Seq::<EventModel>::empty());
            assert(matching_events(Seq::<EventModel>::empty(), uv, pv) =~= Seq::<
                EventModel,
            >::empty());
        }
        while i < n
            invariant
                i <= n,
                n == self.events.len(),
                ms == events_model(self.events@),
                uv == opt_view(*user_id),
                pv == opt_view(*post_id),
                events_model(out@) == matching_events(ms.subrange(0, i as int), uv, pv),
            decreases n - i,
        {
            let e = &self.events[i];
            let ghost out0 = out@;
            if event_matches_filter(e, user_id, post_id) {
                out.push(e.clone());
            }
            proof {
                let prefix = ms.subrange(0, i as int);
                assert(ms.subrange(0, (i + 1) as int) =~= prefix.push(ms[i as int]));
                lemma_filter_push(prefix, filter_pred(uv, pv), ms[i as int]);
                if event_matches(e@, uv, pv) {
                    assert(events_model(out@) =~= events_model(out0).push(e@));
                }
            }
            i += 1;
        }
        proof {
            assert(ms.subrange(0, n as int) =~= ms);
        }
        Result::Ok(out)
    }

    fn find_event_summary(&self, user_id: &Option<String>, post_id: &Option<String>) -> (r: Result<
        EventSummary,
        StoreError,
    >) {
        let ghost uv = opt_view(*user_id);
        let ghost pv = opt_view(*post_id);
        let ghost ms = events_model(self.events@);
        let mut views: usize = 0;
        let mut likes: usize = 0;
        let mut shares: usize = 0;
        let n = self.events.len();
        let mut i: usize = 0;
        proof {
            assert(ms.subrange(0, 0) =~= Seq::<EventModel>::empty());
            assert(matching_events(Seq::<EventModel>::empty(), uv, pv) =~= Seq::<
                EventModel,
            >::empty());
            assert(Seq::<EventModel>::empty().filter(kind_pred(EventKind::View)) =~= Seq::<
                EventModel,
            >::empty());
            assert(Seq::<EventModel>::empty().filter(kind_pred(EventKind::Like)) =~= Seq::<
                EventModel,
            >::empty());
            assert(Seq::<EventModel>::empty().filter(kind_pred(EventKind::Share)) =~= Seq::<
                EventModel,
            >::empty());
        }
        while i < n
            invariant
                i <= n,
                n == self.events.len(),
                ms == events_model(self.events@),
                uv == opt_view(*user_id),
                pv == opt_view(*post_id),
                views == count_of_kind(
                    matching_events(ms.subrange(0, i as int), uv, pv),
                    EventKind::View,
                ),
                likes == count_of_kind(
                    matching_events(ms.subrange(0, i as int), uv, pv),
                    EventKind::Like,
                ),
                shares == count_of_kind(
                    matching_events(ms.subrange(0, i as int), uv, pv),
                    EventKind::Share,
                ),
                views <= i,
                likes <= i,
                shares <= i,
            decreases n - i,
        {
            let e = &self.events[i];
            if event_matches_filter(e, user_id, post_id) {
                match e.kind {
                    EventKind::View => views += 1,
                    EventKind::Like => likes += 1,
                    EventKind::Share => shares += 1,
                }
            }
            proof {
                let prefix = ms.subrange(0, i as int);
                let sel = matching_events(prefix, uv, pv);
                assert(ms.subrange(0, (i + 1) as int) =~= prefix.push(ms[i as int]));
                lemma_filter_push(prefix, filter_pred(uv, pv), ms[i as int]);
                lemma_filter_push(sel, kind_pred(EventKind::View), ms[i as int]);
                lemma_filter_push(sel, kind_pred(EventKind::Like), ms[i as int]);
                lemma_filter_push(sel, kind_pred(EventKind::Share), ms[i as int]);
            }
            i += 1;
        }
        proof {
            assert(ms.subrange(0, n as int) =~= ms);
        }
        Result::Ok(EventSummary { views, likes, shares })
    }

    fn create_event(&mut self, event: CreateEventRequest, user_id: Option<String>) -> (r: Result<
        i64,
        StoreError,
    >) {
        let ghost m0 = self.model();
        let ghost uv = opt_view(user_id);
        let device_id: Option<i64> = match &event.device {
            Option::Some(d) => Option::Some(self.upsert_device_row(d)),
            Option::None => Option::None,
        };
        let ts = now_unix_millis();
        let id = self.events.len() as i64 + 1;
        let ghost mid_events = self.events@;
        let e = Event {
            id,
            user_id,
            device_id,
            post_id: event.post_id,
            kind: event.kind,
            timestamp: ts,
        };
        self.events.push(e);
        proof {
            let created = created_event(m0, event@, uv, ts as int);
            assert(events_model(self.events@) =~= events_model(mid_events).push(e@));
            assert(e@ == created);
            assert(self.model() == store_after_create(m0, event@, uv, ts as int));
            let after = store_after_create(m0, event@, uv, ts as int);
            assert forall|j: int| 0 <= j < after.events.len() implies (#[trigger] after.events[j]).id
                == j + 1 by {
                if j < m0.events.len() {
                    assert(after.events[j] == m0.events[j]);
                }
            }
            assert forall|j: int|
                0 <= j < after.events.len() implies ((#[trigger] after.events[j]).device_id
                matches Some(dd) ==> 1 <= dd <= after.devices.len()) by {
                if j < m0.events.len() {
                    assert(after.events[j] == m0.events[j]);
                    assert(m0.devices.len() <= after.devices.len());
                }
            }
            assert(exists|t: int|
                final(self).model() == store_after_create(m0, event@, uv, t));
        }
        Result::Ok(id)
    }

    fn find_devices(&self) -> (r: Result<Vec<Device>, StoreError>) {
        let mut out: Vec<Device> = Vec::new();
        let n = self.devices.len();
        let mut i: usize = 0;
        proof {
            assert(devices_model(out@) =~= devices_model(self.devices@).subrange(0, 0));
        }
        while i < n
            invariant
                i <= n,
                n == self.devices.len(),
                devices_model(out@) == devices_model(self.devices@).subrange(0, i as int),
            decreases n - i,
        {
            let ghost out0 = out@;
            out.push(self.devices[i].clone());
            proof {
                assert(devices_model(out@) =~= devices_model(out0).push(
                    self.devices@[i as int]@,
                ));
                assert(devices_model(self.devices@).subrange(0, (i + 1) as int) =~= devices_model(
                    self.devices@,
                ).subrange(0, i as int).push(devices_model(self.devices@)[i as int]));
            }
            i += 1;
        }
        proof {
            assert(devices_model(self.devices@).subrange(0, n as int) =~= devices_model(
                self.devices@,
            ));
        }
        Result::Ok(out)
    }
}

impl InMemoryStore {
    /// The dedup-upsert of one device tuple: reuses the first row carrying
    /// the identical tuple, else appends a fresh row; returns the row's id.
    fn upsert_device_row(&mut self, d: &DeviceRequest) -> (id: i64)
        requires
            store_inv(old(self).model()),
            old(self).model().devices.len() < i64::MAX,
        ensures
            final(self).events == old(self).events,
            devices_model(final(self).devices@) == upsert_device(
                devices_model(old(self).devices@),
                d@,
            ).0,
            id as int == upsert_device(devices_model(old(self).devices@), d@).1,
            1 <= id as int <= devices_model(final(self).devices@).len(),
            old(self).model().devices.len() <= devices_model(final(self).devices@).len(),
            store_inv(final(self).model()),
    {
        let n = self.devices.len();
        let mut i: usize = 0;
        while i < n
            invariant
                i <= n,
                n == self.devices.len(),
                *self == *old(self),
                store_inv(self.model()),
                forall|j: int|
                    0 <= j < i ==> !device_tuple_matches(
                        devices_model(self.devices@)[j],
                        d@,
                    ),
            decreases n - i,
        {
            let dev = &self.devices[i];
            if device_request_matches(dev, d) {
                proof {
                    lemma_first_match_at(devices_model(self.devices@), d@, i as int);
                }
                return dev.id;
            }
            i += 1;
        }
        proof {
            lemma_first_match_at(devices_model(self.devices@), d@, n as int);
        }
        let id = self.devices.len() as i64 + 1;
        let dev = Device {
            id,
            os: crate::clone_opt_string(&d.os),
            browser: crate::clone_opt_string(&d.browser),
            language: crate::clone_opt_string(&d.language),
            screen_resolution: crate::clone_opt_string(&d.screen_resolution),
        };
        self.devices.push(dev);
        proof {
            let old_devs = devices_model(old(self).devices@);
            assert(dev@ == fresh_device(old_devs, d@));
            assert(devices_model(self.devices@) =~= old_devs.push(fresh_device(old_devs, d@)));
            assert forall|j: int|
                0 <= j < devices_model(self.devices@).len() implies (#[trigger] devices_model(
                self.devices@,
            )[j]).id == j + 1 by {
                if j < old_devs.len() {
                    assert(devices_model(self.devices@)[j] == old_devs[j]);
                }
            }
        }
        id
    }
}

} // verus!
