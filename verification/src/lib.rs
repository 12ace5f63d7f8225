//! A watcher that samples the machine's Wi-Fi-derived location and reports it
//! as a time-series event stream to a local activity-tracking service.
//!
//! This crate holds the verified core: configuration clamping, candidate
//! selection and formatting, event construction, the heartbeat coalescing
//! contract, idempotent bucket registration, and the per-tick step function.
//! The surrounding process (file and network I/O, the async timer loop) lives
//! outside the library and calls into it with plain values.

mod cli;
mod config;
mod event;
mod sample;
mod store;
mod watcher;

pub use cli::CliAction;
pub use cli::CliActionModel;
pub use cli::DEFAULT_PORT;
pub use cli::TESTING_PORT;
pub use cli::cli_decision;
pub use cli::cli_decision_from;
pub use cli::parse_args;
pub use cli::parse_u16;
pub use cli::parsed_u16;
pub use cli::parses_as_u16;
pub use config::Config;
pub use config::ConfigError;
pub use config::MIN_POLLING_INTERVAL;
pub use config::clamped;
pub use config::default_config_text;
pub use config::effective_interval;
pub use config::lemma_config_clamp;
pub use config::load_config;
pub use config::toml_polling_interval;
pub use event::Event;
pub use event::EventData;
pub use event::EventDataModel;
pub use event::EventModel;
pub use event::build_event;
pub use event::make_event;
pub use sample::Candidate;
pub use sample::CandidateModel;
pub use sample::Sample;
pub use sample::SampleModel;
pub use sample::SampleOutcome;
pub use sample::classify_outcome;
pub use sample::format_location;
pub use sample::location_model;
pub use sample::sample_from_candidate;
pub use sample::sample_model;
pub use store::BucketInfo;
pub use store::BucketInfoModel;
pub use store::BucketModel;
pub use store::CreateOutcome;
pub use store::HeartbeatOutcome;
pub use store::StoredBucket;
pub use store::StubStore;
pub use store::bucket_index;
pub use store::distinct_ids;
pub use store::event_wf;
pub use store::events_wf;
pub use store::has_bucket;
pub use store::lemma_bucket_index_is;
pub use store::lemma_heartbeat_coalescing;
pub use store::lemma_registration_idempotent;
pub use store::merge_step;
pub use store::merged;
pub use store::merges;
pub use store::register_model;
pub use store::store_wf;
pub use watcher::RegistrationError;
pub use watcher::SkipModel;
pub use watcher::SkipReason;
pub use watcher::TickAction;
pub use watcher::TickModel;
pub use watcher::answer_model;
pub use watcher::lemma_steady_location_coalesces;
pub use watcher::lemma_tick_isolation;
pub use watcher::registration_result;
pub use watcher::tick;
pub use watcher::tick_at;
pub use watcher::tick_decision;
pub use watcher::watcher_bucket;
