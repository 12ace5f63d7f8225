//! The polling loop's decisions. Each tick the loop waits one interval,
//! asks the location provider for candidates, and hands what came back to
//! `tick_at`, which decides the tick's action: submit a heartbeat built from
//! the first candidate, or skip the tick. No failure ever maps to a terminal
//! action: the watcher keeps trying forever on a best-effort basis.

use vstd::prelude::*;
use vstd::string::StringExecFns;

use crate::config::Config;
use crate::event::Event;
use crate::event::EventDataModel;
use crate::event::EventModel;
use crate::event::build_event;
use crate::event::now_unix_seconds;
use crate::sample::Candidate;
use crate::sample::CandidateModel;
use crate::sample::SampleOutcome;
use crate::sample::classify_outcome;
use crate::sample::location_model;
use crate::store::BucketInfo;
use crate::store::lemma_heartbeat_coalescing;
use crate::store::merge_step;

verus! {

/// Why a tick submitted nothing.
pub enum SkipReason {
    /// The provider returned zero candidates.
    NoCandidates,
    /// The provider failed; the message describes the failure.
    ProviderFailed(String),
}

/// The mathematical model of a skip reason.
pub enum SkipModel {
    NoCandidates,
    ProviderFailed(Seq<char>),
}

impl View for SkipReason {
    type V = SkipModel;

    open spec fn view(&self) -> SkipModel {
        match self {
            SkipReason::NoCandidates => SkipModel::NoCandidates,
            SkipReason::ProviderFailed(m) => SkipModel::ProviderFailed(m@),
        }
    }
}

/// What one tick decided.
pub enum TickAction {
    /// Submit this event through the heartbeat contract, with this merge
    /// window in seconds.
    Heartbeat { event: Event, pulsetime: u64 },
    /// Submit nothing this tick; the loop proceeds to the next tick.
    Skip { reason: SkipReason },
}

/// The mathematical model of a tick's action.
pub enum TickModel {
    Heartbeat { event: EventModel, pulsetime: int },
    Skip { reason: SkipModel },
}

impl View for TickAction {
    type V = TickModel;

    open spec fn view(&self) -> TickModel {
        match self {
            TickAction::Heartbeat { event, pulsetime } => TickModel::Heartbeat {
                event: event@,
                pulsetime: *pulsetime as int,
            },
            TickAction::Skip { reason } => TickModel::Skip { reason: reason@ },
        }
    }
}

/// The model of what the provider returned on one tick.
pub open spec fn answer_model(answer: Result<Vec<Candidate>, String>) -> Result<
    Seq<CandidateModel>,
    Seq<char>,
> {
    match answer {
        Ok(cs) => Ok(cs@.map_values(|c: Candidate| c@)),
        Err(m) => Err(m@),
    }
}

/// The tick's decision: from the interval, the provider's answer and the
/// current time alone. A failed or empty answer is a skip, never a terminal
/// action; a non-empty answer becomes a heartbeat of the first candidate,
/// lasting one interval, with the merge window equal to the interval.
pub open spec fn tick_decision(
    interval: int,
    answer: Result<Seq<CandidateModel>, Seq<char>>,
    now: int,
) -> TickModel {
    match answer {
        Ok(cs) => if cs.len() == 0 {
            TickModel::Skip { reason: SkipModel::NoCandidates }
        } else {
            TickModel::Heartbeat {
                event: EventModel {
                    timestamp: now,
                    duration: interval,
                    data: EventDataModel {
                        location: location_model(cs[0].longitude, cs[0].latitude),
                        address: cs[0].address,
                    },
                },
                pulsetime: interval,
            }
        },
        Err(m) => TickModel::Skip { reason: SkipModel::ProviderFailed(m) },
    }
}

/// Decide one tick's action from the provider's answer and the given time.
pub fn tick_at(config: &Config, answer: Result<Vec<Candidate>, String>, now: i64) -> (r:
    TickAction)
    requires
        config.wf(),
    ensures
        r@ == tick_decision(config.polling_interval as int, answer_model(answer), now as int),
{
    let ghost model = answer_model(answer);
    match classify_outcome(answer) {
        SampleOutcome::Found(sample) => {
            let event = build_event(&sample, now, config.polling_interval);
            TickAction::Heartbeat { event, pulsetime: config.polling_interval }
        },
        SampleOutcome::Empty => TickAction::Skip { reason: SkipReason::NoCandidates },
        SampleOutcome::Failed(message) => TickAction::Skip {
            reason: SkipReason::ProviderFailed(message),
        },
    }
}

/// Decide one tick's action, timestamping a heartbeat with the clock's
/// current UTC time: whatever the clock returned, the action is the tick's
/// decision for that time.
pub fn tick(config: &Config, answer: Result<Vec<Candidate>, String>) -> (r: TickAction)
    requires
        config.wf(),
    ensures
        exists|now: int|
            r@ == tick_decision(config.polling_interval as int, answer_model(answer), now),
{
    let now = now_unix_seconds();
    let r = tick_at(config, answer, now);
    proof {
        assert(r@ == tick_decision(
            config.polling_interval as int,
            answer_model(answer),
            now as int,
        ));
    }
    r
}

/// Tick isolation: the loop holds no state across ticks, so each tick's
/// action is a function of that tick's own answer alone. A tick whose
/// provider call failed decides a skip, never a terminal action, and a later
/// tick with a successful answer decides a heartbeat of its first candidate
/// exactly as if no failure had come before it.
pub proof fn lemma_tick_isolation(
    interval: int,
    failure: Seq<char>,
    candidates: Seq<CandidateModel>,
    t1: int,
    t2: int,
)
    requires
        candidates.len() > 0,
    ensures
        tick_decision(interval, Err(failure), t1) == (TickModel::Skip {
            reason: SkipModel::ProviderFailed(failure),
        }),
        tick_decision(interval, Ok(candidates), t2) == (TickModel::Heartbeat {
            event: EventModel {
                timestamp: t2,
                duration: interval,
                data: EventDataModel {
                    location: location_model(candidates[0].longitude, candidates[0].latitude),
                    address: candidates[0].address,
                },
            },
            pulsetime: interval,
        }),
{
}

/// The watcher's defining reporting behavior: two consecutive ticks that see
/// the same candidate decide heartbeats with equal data and a merge window
/// of one interval, so whenever the second tick starts within that window of
/// the first heartbeat's end, the store holds exactly one interval, starting
/// at the first tick and with the first tick's data, rather than a chain of
/// point events.
pub proof fn lemma_steady_location_coalesces(
    interval: int,
    candidates: Seq<CandidateModel>,
    t1: int,
    t2: int,
)
    requires
        candidates.len() > 0,
        t2 - (t1 + interval) <= interval,
    ensures
        ({
            let data = EventDataModel {
                location: location_model(candidates[0].longitude, candidates[0].latitude),
                address: candidates[0].address,
            };
            let e1 = EventModel { timestamp: t1, duration: interval, data };
            let e2 = EventModel { timestamp: t2, duration: interval, data };
            let stored = merge_step(merge_step(Seq::empty(), e1, interval), e2, interval);
            &&& tick_decision(interval, Ok(candidates), t1) == (TickModel::Heartbeat {
                event: e1,
                pulsetime: interval,
            })
            &&& tick_decision(interval, Ok(candidates), t2) == (TickModel::Heartbeat {
                event: e2,
                pulsetime: interval,
            })
            &&& stored.len() == 1
            &&& stored[0].timestamp == t1
            &&& stored[0].data == data
        }),
{
    let data = EventDataModel {
        location: location_model(candidates[0].longitude, candidates[0].latitude),
        address: candidates[0].address,
    };
    let e1 = EventModel { timestamp: t1, duration: interval, data };
    let e2 = EventModel { timestamp: t2, duration: interval, data };
    lemma_heartbeat_coalescing(e1, e2, interval);
}

/// The identity under which the watcher registers its bucket: the stable
/// bucket id, the event type tag, and the client name.
pub fn watcher_bucket() -> (r: BucketInfo)
    ensures
        r@.id == "aw-watcher-network"@,
        r@.bucket_type == "currently-playing"@,
        r@.client == "aw-watcher-network"@,
        r@.hostname == ""@,
{
    proof {
        reveal_strlit("");
        assert(""@ =~= Seq::<char>::empty());
    }
    BucketInfo {
        id: String::from_str("aw-watcher-network"),
        bucket_type: String::from_str("currently-playing"),
        client: String::from_str("aw-watcher-network"),
        hostname: String::new(),
    }
}

/// How a registration attempt against the live event-store ended.
pub struct RegistrationError {
    /// What the transport reported.
    pub message: String,
}

/// Map the transport's report of a create-bucket request to the
/// registrar's result: any response at all is success, since the store
/// answers "already exists" with an ordinary response; only a transport
/// failure is an error, and the caller logs it and starts the loop anyway.
pub fn registration_result(transport: Result<(), String>) -> (r: Result<(), RegistrationError>)
    ensures
        transport is Ok <==> r is Ok,
        transport matches Err(m) ==> (r matches Err(e) && e.message@ == m@),
{
    match transport {
        Ok(()) => Ok(()),
        Err(message) => Err(RegistrationError { message }),
    }
}

} // verus!
