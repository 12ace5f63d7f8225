//! Events: the timestamped, duration-tagged records the watcher submits to
//! the event-store, built fresh from each tick's sample. The watcher keeps no
//! event history of its own.

use vstd::prelude::*;

use crate::sample::Sample;

verus! {

/// The flat string-valued payload of an event: the formatted location and
/// the address, exactly as sampled.
pub struct EventData {
    pub location: String,
    pub address: String,
}

/// The mathematical model of an event payload.
pub struct EventDataModel {
    pub location: Seq<char>,
    pub address: Seq<char>,
}

impl View for EventData {
    type V = EventDataModel;

    open spec fn view(&self) -> EventDataModel {
        EventDataModel { location: self.location@, address: self.address@ }
    }
}

/// One event: a UTC timestamp in whole seconds since the epoch, a duration
/// in whole seconds, and the payload.
pub struct Event {
    pub timestamp: i64,
    pub duration: i64,
    pub data: EventData,
}

/// The mathematical model of an event.
pub struct EventModel {
    pub timestamp: int,
    pub duration: int,
    pub data: EventDataModel,
}

impl View for Event {
    type V = EventModel;

    open spec fn view(&self) -> EventModel {
        EventModel { timestamp: self.timestamp as int, duration: self.duration as int, data: self.data@ }
    }
}

impl EventModel {
    /// When the event's interval ends.
    pub open spec fn end(self) -> int {
        self.timestamp + self.duration
    }
}

/// Relies on `chrono::Utc::now` and `chrono::DateTime::timestamp`: the
/// current UTC time in whole seconds since the epoch. Nothing is promised of
/// the value: it depends on the machine's clock.
#[verifier::external_body]
pub(crate) fn now_unix_seconds() -> i64 {
    chrono::Utc::now().timestamp()
}

/// Build the event for one tick: the given timestamp, the tick's duration,
/// and the sample's location and address as payload.
pub fn build_event(sample: &Sample, timestamp: i64, duration_seconds: u64) -> (r: Event)
    requires
        duration_seconds <= i64::MAX,
    ensures
        r@.timestamp == timestamp,
        r@.duration == duration_seconds,
        r@.data.location == sample@.location,
        r@.data.address == sample@.address,
{
    Event {
        timestamp,
        duration: duration_seconds as i64,
        data: EventData { location: sample.location.clone(), address: sample.address.clone() },
    }
}

/// Build the event for one tick, timestamped with the clock's current UTC
/// time. Whatever the clock returned, the duration and the payload are those
/// of the tick.
pub fn make_event(sample: &Sample, duration_seconds: u64) -> (r: Event)
    requires
        duration_seconds <= i64::MAX,
    ensures
        r@.duration == duration_seconds,
        r@.data.location == sample@.location,
        r@.data.address == sample@.address,
{
    let now = now_unix_seconds();
    build_event(sample, now, duration_seconds)
}

} // verus!
