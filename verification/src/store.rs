//! A model of the event-store the watcher talks to: named buckets holding
//! intervals of events, with create-bucket idempotence and the documented
//! heartbeat merge rule. The watcher's correctness around coalescing is
//! delegated entirely to this contract, so the contract itself is stated and
//! proved here, against an in-memory store implementing the documented rule.

use vstd::prelude::*;

use crate::event::Event;
use crate::event::EventModel;

verus! {

/// The identity of a bucket: a stable id, a type tag, the client that owns
/// it, and a hostname.
pub struct BucketInfo {
    pub id: String,
    pub bucket_type: String,
    pub client: String,
    pub hostname: String,
}

/// The mathematical model of a bucket identity.
pub struct BucketInfoModel {
    pub id: Seq<char>,
    pub bucket_type: Seq<char>,
    pub client: Seq<char>,
    pub hostname: Seq<char>,
}

impl View for BucketInfo {
    type V = BucketInfoModel;

    open spec fn view(&self) -> BucketInfoModel {
        BucketInfoModel {
            id: self.id@,
            bucket_type: self.bucket_type@,
            client: self.client@,
            hostname: self.hostname@,
        }
    }
}

/// One bucket of the store: its identity and its stored intervals, oldest
/// first.
pub struct StoredBucket {
    pub info: BucketInfo,
    pub events: Vec<Event>,
}

/// The mathematical model of a bucket.
pub struct BucketModel {
    pub info: BucketInfoModel,
    pub events: Seq<EventModel>,
}

impl View for StoredBucket {
    type V = BucketModel;

    open spec fn view(&self) -> BucketModel {
        BucketModel { info: self.info@, events: self.events@.map_values(|e: Event| e@) }
    }
}

/// Whether some bucket of the store has the given id.
pub open spec fn has_bucket(s: Seq<BucketModel>, id: Seq<char>) -> bool {
    exists|i: int| #![trigger s[i]] 0 <= i < s.len() && s[i].info.id == id
}

/// The index of the bucket with the given id, where one exists.
pub open spec fn bucket_index(s: Seq<BucketModel>, id: Seq<char>) -> int {
    choose|i: int| 0 <= i < s.len() && s[i].info.id == id
}

/// An event the store can hold: a non-negative timestamp and duration whose
/// end still fits in a signed 64-bit number of seconds.
pub open spec fn event_wf(e: EventModel) -> bool {
    0 <= e.timestamp && 0 <= e.duration && e.end() <= i64::MAX
}

/// All events of a bucket are storable.
pub open spec fn events_wf(evs: Seq<EventModel>) -> bool {
    forall|k: int| 0 <= k < evs.len() ==> event_wf(#[trigger] evs[k])
}

/// No two buckets share an id.
pub open spec fn distinct_ids(s: Seq<BucketModel>) -> bool {
    forall|i: int, j: int|
        #![trigger s[i], s[j]]
        0 <= i < s.len() && 0 <= j < s.len() && i != j ==> s[i].info.id != s[j].info.id
}

/// The store invariant: ids are unique and every stored event is storable.
pub open spec fn store_wf(s: Seq<BucketModel>) -> bool {
    distinct_ids(s) && forall|i: int| 0 <= i < s.len() ==> events_wf(#[trigger] s[i].events)
}

/// Whether a heartbeat merges into the most recent stored interval: the data
/// payloads are equal and the gap between the interval's end and the
/// heartbeat's start is at most the merge window.
pub open spec fn merges(last: EventModel, ev: EventModel, pulsetime: int) -> bool {
    last.data == ev.data && ev.timestamp - last.end() <= pulsetime
}

/// The interval that results from merging a heartbeat into the most recent
/// one: it keeps that interval's start and data and extends its end to cover
/// the heartbeat.
pub open spec fn merged(last: EventModel, ev: EventModel) -> EventModel {
    EventModel {
        timestamp: last.timestamp,
        duration: (if last.end() >= ev.end() {
            last.end()
        } else {
            ev.end()
        }) - last.timestamp,
        data: last.data,
    }
}

/// The documented heartbeat rule on a bucket's intervals: merge into the
/// most recent interval when `merges` holds of it, otherwise append a new
/// interval.
pub open spec fn merge_step(evs: Seq<EventModel>, ev: EventModel, pulsetime: int) -> Seq<
    EventModel,
> {
    if evs.len() > 0 && merges(evs.last(), ev, pulsetime) {
        evs.update(evs.len() - 1, merged(evs.last(), ev))
    } else {
        evs.push(ev)
    }
}

/// The create-bucket rule: a new empty bucket is appended unless one with
/// the same id already exists, in which case nothing changes.
pub open spec fn register_model(s: Seq<BucketModel>, info: BucketInfoModel) -> Seq<BucketModel> {
    if has_bucket(s, info.id) {
        s
    } else {
        s.push(BucketModel { info, events: Seq::empty() })
    }
}

/// What a create-bucket request reported.
#[derive(Clone, Copy, Debug, PartialEq, Eq, Structural)]
pub enum CreateOutcome {
    /// The bucket did not exist and was created.
    Created,
    /// A bucket with this id already existed; nothing changed.
    AlreadyExists,
}

/// What a heartbeat reported.
#[derive(Clone, Copy, Debug, PartialEq, Eq, Structural)]
pub enum HeartbeatOutcome {
    /// The event was merged into the bucket's most recent interval.
    Merged,
    /// The event was appended as a new interval.
    Inserted,
    /// No bucket with the given id exists; nothing changed.
    NoSuchBucket,
}

/// The in-memory event-store implementing the documented contract.
pub struct StubStore {
    pub buckets: Vec<StoredBucket>,
}

impl View for StubStore {
    type V = Seq<BucketModel>;

    open spec fn view(&self) -> Seq<BucketModel> {
        self.buckets@.map_values(|b: StoredBucket| b@)
    }
}

impl StubStore {
    /// The store invariant.
    pub open spec fn wf(self) -> bool {
        store_wf(self@)
    }

    /// An empty store: no buckets at all.
    pub fn new() -> (r: StubStore)
        ensures
            r@ == Seq::<BucketModel>::empty(),
            r.wf(),
    {
        let r = StubStore { buckets: Vec::new() };
        proof {
            assert(r@ =~= Seq::<BucketModel>::empty());
        }
        r
    }

    /// The index of the bucket with the given id, if any.
    fn find_index(&self, id: &String) -> (r: Option<usize>)
        ensures
            r matches Some(i) ==> i < self@.len() && self@[i as int].info.id == id@,
            r is None ==> !has_bucket(self@, id@),
    {
        let mut i: usize = 0;
        while i < self.buckets.len()
            invariant
                i <= self.buckets.len(),
                self@.len() == self.buckets@.len(),
                forall|k: int| #![trigger self@[k]] 0 <= k < i ==> self@[k].info.id != id@,
            decreases self.buckets.len() - i,
        {
            if self.buckets[i].info.id == *id {
                return Some(i);
            }
            i += 1;
        }
        None
    }

    /// Issue a create-bucket request: idempotent, with "already exists"
    /// reported as such and changing nothing.
    pub fn create_bucket(&mut self, info: BucketInfo) -> (r: CreateOutcome)
        requires
            old(self).wf(),
        ensures
            final(self).wf(),
            final(self)@ == register_model(old(self)@, info@),
            r == CreateOutcome::AlreadyExists <==> has_bucket(old(self)@, info@.id),
    {
        match self.find_index(&info.id) {
            Some(_) => CreateOutcome::AlreadyExists,
            None => {
                let ghost old_view = self@;
                self.buckets.push(StoredBucket { info, events: Vec::new() });
                proof {
                    assert(self@ =~= old_view.push(self@.last()));
                    assert(self@.last().events =~= Seq::<EventModel>::empty());
                }
                CreateOutcome::Created
            },
        }
    }

    /// Ensure the watcher's bucket exists: create it, treating "already
    /// exists" as success. On this store registration itself cannot fail.
    pub fn ensure_bucket(&mut self, info: BucketInfo) -> (r: Result<(), ()>)
        requires
            old(self).wf(),
        ensures
            final(self).wf(),
            final(self)@ == register_model(old(self)@, info@),
            r is Ok,
    {
        let _ = self.create_bucket(info);
        Ok(())
    }

    /// Submit one heartbeat to the bucket with the given id, with the given
    /// merge window in seconds: the documented rule decides whether it merges
    /// into the most recent interval or starts a new one.
    pub fn heartbeat(&mut self, bucket_id: &String, ev: Event, pulsetime: u64) -> (r:
        HeartbeatOutcome)
        requires
            old(self).wf(),
            event_wf(ev@),
            pulsetime <= i64::MAX,
        ensures
            final(self).wf(),
            !has_bucket(old(self)@, bucket_id@) ==> (r == HeartbeatOutcome::NoSuchBucket
                && final(self)@ == old(self)@),
            has_bucket(old(self)@, bucket_id@) ==> ({
                let i = bucket_index(old(self)@, bucket_id@);
                let evs = old(self)@[i].events;
                &&& final(self)@ == old(self)@.update(
                    i,
                    BucketModel {
                        info: old(self)@[i].info,
                        events: merge_step(evs, ev@, pulsetime as int),
                    },
                )
                &&& r == (if evs.len() > 0 && merges(evs.last(), ev@, pulsetime as int) {
                    HeartbeatOutcome::Merged
                } else {
                    HeartbeatOutcome::Inserted
                })
            }),
    {
        match self.find_index(bucket_id) {
            None => HeartbeatOutcome::NoSuchBucket,
            Some(i) => {
                proof {
                    lemma_bucket_index_is(self@, bucket_id@, i as int);
                }
                let ghost old_view = self@;
                let mut bucket = self.buckets.remove(i);
                let ghost old_events = bucket@.events;
                let n = bucket.events.len();
                let outcome: HeartbeatOutcome;
                if n > 0 && Self::merges_exec(&bucket.events[n - 1], &ev, pulsetime) {
                    let last = bucket.events.remove(n - 1);
                    let last_end = last.timestamp + last.duration;
                    let ev_end = ev.timestamp + ev.duration;
                    let new_end = if last_end >= ev_end {
                        last_end
                    } else {
                        ev_end
                    };
                    let grown = Event {
                        timestamp: last.timestamp,
                        duration: new_end - last.timestamp,
                        data: last.data,
                    };
                    bucket.events.push(grown);
                    proof {
                        assert(bucket@.events =~= merge_step(old_events, ev@, pulsetime as int));
                    }
                    outcome = HeartbeatOutcome::Merged;
                } else {
                    bucket.events.push(ev);
                    proof {
                        assert(bucket@.events =~= merge_step(old_events, ev@, pulsetime as int));
                    }
                    outcome = HeartbeatOutcome::Inserted;
                }
                let ghost new_bucket_model = bucket@;
                self.buckets.insert(i, bucket);
                proof {
                    assert(self@ =~= old_view.update(i as int, new_bucket_model));
                }
                outcome
            },
        }
    }

    /// Whether a heartbeat merges with the given stored interval, computed
    /// over the live values.
    fn merges_exec(last: &Event, ev: &Event, pulsetime: u64) -> (r: bool)
        requires
            event_wf(last@),
            event_wf(ev@),
            pulsetime <= i64::MAX,
        ensures
            r == merges(last@, ev@, pulsetime as int),
    {
        let data_equal = last.data.location == ev.data.location && last.data.address
            == ev.data.address;
        let last_end = last.timestamp + last.duration;
        data_equal && ev.timestamp - last_end <= pulsetime as i64
    }
}

/// In a store with distinct ids, the index found for an id is the index.
pub proof fn lemma_bucket_index_is(s: Seq<BucketModel>, id: Seq<char>, i: int)
    requires
        distinct_ids(s),
        0 <= i < s.len(),
        s[i].info.id == id,
    ensures
        bucket_index(s, id) == i,
        has_bucket(s, id),
{
    assert(has_bucket(s, id));
    let j = bucket_index(s, id);
    assert(0 <= j < s.len() && s[j].info.id == id);
}

/// Registering the same bucket twice is idempotent: the second registration
/// changes nothing, so there is never a duplicate bucket.
pub proof fn lemma_registration_idempotent(s: Seq<BucketModel>, info: BucketInfoModel)
    ensures
        register_model(register_model(s, info), info) == register_model(s, info),
{
    if !has_bucket(s, info.id) {
        let s1 = register_model(s, info);
        assert(s1[s.len() as int].info.id == info.id);
        assert(has_bucket(s1, info.id));
    }
}

/// The heartbeat coalescing contract, from a fresh bucket: two consecutive
/// heartbeats with identical data and a gap at most the merge window yield
/// exactly one stored interval spanning both; with a larger gap they yield
/// two separate intervals.
pub proof fn lemma_heartbeat_coalescing(e1: EventModel, e2: EventModel, pulsetime: int)
    requires
        e1.data == e2.data,
    ensures
        e2.timestamp - e1.end() <= pulsetime ==> ({
            let stored = merge_step(merge_step(Seq::empty(), e1, pulsetime), e2, pulsetime);
            &&& stored.len() == 1
            &&& stored[0].timestamp == e1.timestamp
            &&& stored[0].end() == (if e1.end() >= e2.end() {
                e1.end()
            } else {
                e2.end()
            })
            &&& stored[0].data == e1.data
        }),
        e2.timestamp - e1.end() > pulsetime ==> merge_step(
            merge_step(Seq::empty(), e1, pulsetime),
            e2,
            pulsetime,
        ) =~= seq![e1, e2],
{
    let s1 = merge_step(Seq::empty(), e1, pulsetime);
    assert(s1 =~= seq![e1]);
    assert(s1.last() == e1);
}

} // verus!
