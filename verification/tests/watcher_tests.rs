use aw_watcher_network::Candidate;
use aw_watcher_network::CliAction;
use aw_watcher_network::Config;
use aw_watcher_network::ConfigError;
use aw_watcher_network::CreateOutcome;
use aw_watcher_network::HeartbeatOutcome;
use aw_watcher_network::SampleOutcome;
use aw_watcher_network::SkipReason;
use aw_watcher_network::StubStore;
use aw_watcher_network::TickAction;
use aw_watcher_network::classify_outcome;
use aw_watcher_network::default_config_text;
use aw_watcher_network::effective_interval;
use aw_watcher_network::format_location;
use aw_watcher_network::load_config;
use aw_watcher_network::parse_args;
use aw_watcher_network::parse_u16;
use aw_watcher_network::registration_result;
use aw_watcher_network::sample_from_candidate;
use aw_watcher_network::tick_at;
use aw_watcher_network::watcher_bucket;
use aw_watcher_network::Event;
use aw_watcher_network::EventData;
use aw_watcher_network::build_event;
use aw_watcher_network::make_event;
use aw_watcher_network::Sample;

fn args(list: &[&str]) -> Vec<String> {
    list.iter().map(|s| s.to_string()).collect()
}

fn candidate(longitude: f64, latitude: f64, address: &str) -> Candidate {
    Candidate {
        longitude: format!("{}", longitude),
        latitude: format!("{}", latitude),
        address: address.to_string(),
    }
}

fn event(timestamp: i64, duration: i64, location: &str, address: &str) -> Event {
    Event {
        timestamp,
        duration,
        data: EventData {
            location: location.to_string(),
            address: address.to_string(),
        },
    }
}

// Config clamp: below the floor the effective interval is exactly the floor;
// at or above it, exactly the configured value.
#[test]
fn clamp_below_floor() {
    assert_eq!(effective_interval(0), 10);
    assert_eq!(effective_interval(5), 10);
    assert_eq!(effective_interval(9), 10);
    assert_eq!(effective_interval(-3), 10);
}

#[test]
fn clamp_at_and_above_floor() {
    assert_eq!(effective_interval(10), 10);
    assert_eq!(effective_interval(11), 11);
    assert_eq!(effective_interval(3600), 3600);
}

#[test]
fn load_clamps_low_interval() {
    let config = load_config("polling_interval = 5").unwrap();
    assert_eq!(config, Config { polling_interval: 10 });
}

#[test]
fn load_keeps_high_interval() {
    let config = load_config("polling_interval = 42").unwrap();
    assert_eq!(config, Config { polling_interval: 42 });
}

#[test]
fn load_rejects_bad_toml() {
    assert_eq!(load_config("polling_interval = ["), Err(ConfigError::InvalidToml));
}

#[test]
fn load_rejects_missing_interval() {
    assert_eq!(load_config("other_key = 3"), Err(ConfigError::InvalidInterval));
}

#[test]
fn load_rejects_non_integer_interval() {
    assert_eq!(
        load_config("polling_interval = \"fast\""),
        Err(ConfigError::InvalidInterval)
    );
}

// Default bootstrap: the text written to a fresh config file loads to the
// default interval, so a first run proceeds without manual intervention.
#[test]
fn default_text_loads_to_default_interval() {
    let text = default_config_text();
    assert_eq!(text, "polling_interval=10");
    let config = load_config(&text).unwrap();
    assert_eq!(config, Config { polling_interval: 10 });
}

// Idempotent registration: a second ensure with identical arguments
// produces no error and no duplicate bucket.
#[test]
fn registration_is_idempotent() {
    let mut store = StubStore::new();
    assert!(store.ensure_bucket(watcher_bucket()).is_ok());
    assert_eq!(store.buckets.len(), 1);
    assert!(store.ensure_bucket(watcher_bucket()).is_ok());
    assert_eq!(store.buckets.len(), 1);
    assert_eq!(store.buckets[0].info.id, "aw-watcher-network");
    assert_eq!(store.buckets[0].info.bucket_type, "currently-playing");
}

#[test]
fn create_reports_already_exists() {
    let mut store = StubStore::new();
    assert_eq!(store.create_bucket(watcher_bucket()), CreateOutcome::Created);
    assert_eq!(store.create_bucket(watcher_bucket()), CreateOutcome::AlreadyExists);
    assert_eq!(store.buckets.len(), 1);
}

// Heartbeat coalescing: identical data within the merge window yields one
// stored interval spanning both heartbeats.
#[test]
fn heartbeats_within_window_coalesce() {
    let mut store = StubStore::new();
    store.create_bucket(watcher_bucket());
    let id = "aw-watcher-network".to_string();
    let first = store.heartbeat(&id, event(100, 10, "1.5,2.5", "somewhere"), 30);
    assert_eq!(first, HeartbeatOutcome::Inserted);
    let second = store.heartbeat(&id, event(112, 10, "1.5,2.5", "somewhere"), 30);
    assert_eq!(second, HeartbeatOutcome::Merged);
    assert_eq!(store.buckets[0].events.len(), 1);
    let stored = &store.buckets[0].events[0];
    assert_eq!(stored.timestamp, 100);
    assert_eq!(stored.duration, 22);
    assert_eq!(stored.data.location, "1.5,2.5");
}

// Heartbeat coalescing: a gap larger than the merge window yields two
// separate intervals.
#[test]
fn heartbeats_past_window_stay_separate() {
    let mut store = StubStore::new();
    store.create_bucket(watcher_bucket());
    let id = "aw-watcher-network".to_string();
    store.heartbeat(&id, event(100, 10, "1.5,2.5", "somewhere"), 30);
    let second = store.heartbeat(&id, event(200, 10, "1.5,2.5", "somewhere"), 30);
    assert_eq!(second, HeartbeatOutcome::Inserted);
    assert_eq!(store.buckets[0].events.len(), 2);
    assert_eq!(store.buckets[0].events[0].timestamp, 100);
    assert_eq!(store.buckets[0].events[0].duration, 10);
    assert_eq!(store.buckets[0].events[1].timestamp, 200);
}

#[test]
fn heartbeats_with_different_data_stay_separate() {
    let mut store = StubStore::new();
    store.create_bucket(watcher_bucket());
    let id = "aw-watcher-network".to_string();
    store.heartbeat(&id, event(100, 10, "1.5,2.5", "somewhere"), 30);
    let second = store.heartbeat(&id, event(112, 10, "3.5,4.5", "elsewhere"), 30);
    assert_eq!(second, HeartbeatOutcome::Inserted);
    assert_eq!(store.buckets[0].events.len(), 2);
}

// The loop end to end against the stub store: steady samples coalesce into
// one growing interval, and a failed tick in between neither stops the loop
// nor breaks the chain, as long as the next heartbeat lands in the window.
#[test]
fn steady_location_ticks_coalesce_in_store() {
    let config = Config { polling_interval: 10 };
    let mut store = StubStore::new();
    store.create_bucket(watcher_bucket());
    let id = "aw-watcher-network".to_string();
    let answers: Vec<(i64, Result<Vec<Candidate>, String>)> = vec![
        (100, Ok(vec![candidate(1.5, 2.5, "somewhere")])),
        (110, Ok(vec![candidate(1.5, 2.5, "somewhere")])),
        (121, Err("scan failed".to_string())),
        (130, Ok(vec![candidate(1.5, 2.5, "somewhere")])),
    ];
    for (now, answer) in answers {
        match tick_at(&config, answer, now) {
            TickAction::Heartbeat { event, pulsetime } => {
                store.heartbeat(&id, event, pulsetime);
            }
            TickAction::Skip { .. } => {}
        }
    }
    assert_eq!(store.buckets[0].events.len(), 1);
    assert_eq!(store.buckets[0].events[0].timestamp, 100);
    assert_eq!(store.buckets[0].events[0].duration, 40);
}

#[test]
fn heartbeat_to_unknown_bucket_reports_it() {
    let mut store = StubStore::new();
    let id = "nobody-home".to_string();
    let outcome = store.heartbeat(&id, event(100, 10, "1.5,2.5", "somewhere"), 30);
    assert_eq!(outcome, HeartbeatOutcome::NoSuchBucket);
    assert_eq!(store.buckets.len(), 0);
}

// Tick isolation: a provider failure on one tick decides a skip, and a
// success on the next tick decides a heartbeat, unaffected by the failure.
#[test]
fn failed_tick_then_successful_tick() {
    let config = Config { polling_interval: 10 };
    let failed = tick_at(&config, Err("no wifi".to_string()), 100);
    match failed {
        TickAction::Skip { reason: SkipReason::ProviderFailed(message) } => {
            assert_eq!(message, "no wifi");
        }
        _ => panic!("a provider failure must decide a skip"),
    }
    let ok = tick_at(&config, Ok(vec![candidate(1.5, 2.5, "somewhere")]), 110);
    match ok {
        TickAction::Heartbeat { event, pulsetime } => {
            assert_eq!(event.timestamp, 110);
            assert_eq!(event.duration, 10);
            assert_eq!(event.data.location, "1.5,2.5");
            assert_eq!(event.data.address, "somewhere");
            assert_eq!(pulsetime, 10);
        }
        _ => panic!("a successful answer must decide a heartbeat"),
    }
}

#[test]
fn empty_answer_skips_without_failing() {
    let config = Config { polling_interval: 10 };
    let action = tick_at(&config, Ok(Vec::new()), 100);
    assert!(matches!(action, TickAction::Skip { reason: SkipReason::NoCandidates }));
}

#[test]
fn tick_selects_first_candidate() {
    let config = Config { polling_interval: 15 };
    let answer = Ok(vec![
        candidate(1.0, 2.0, "first"),
        candidate(3.0, 4.0, "second"),
    ]);
    match tick_at(&config, answer, 50) {
        TickAction::Heartbeat { event, pulsetime } => {
            assert_eq!(event.data.location, "1,2");
            assert_eq!(event.data.address, "first");
            assert_eq!(pulsetime, 15);
        }
        _ => panic!("a successful answer must decide a heartbeat"),
    }
}

// Location formatting: the candidate's coordinates, comma-separated, in the
// provider's native precision.
#[test]
fn location_formatting() {
    let sample = sample_from_candidate(&candidate(-122.4194, 37.7749, "San Francisco"));
    assert_eq!(sample.location, "-122.4194,37.7749");
    assert_eq!(sample.address, "San Francisco");
}

#[test]
fn format_location_joins_with_comma() {
    assert_eq!(format_location("-122.4194", "37.7749"), "-122.4194,37.7749");
    assert_eq!(format_location("", ""), ",");
}

#[test]
fn classify_finds_first_candidate() {
    let outcome = classify_outcome(Ok(vec![candidate(1.5, 2.5, "somewhere")]));
    match outcome {
        SampleOutcome::Found(sample) => {
            assert_eq!(sample.location, "1.5,2.5");
            assert_eq!(sample.address, "somewhere");
        }
        _ => panic!("one candidate must be found"),
    }
}

#[test]
fn classify_empty_and_failed() {
    assert!(matches!(classify_outcome(Ok(Vec::new())), SampleOutcome::Empty));
    let failed = classify_outcome(Err("offline".to_string()));
    match failed {
        SampleOutcome::Failed(message) => assert_eq!(message, "offline"),
        _ => panic!("an error must classify as failed"),
    }
}

#[test]
fn build_event_carries_sample_and_times() {
    let sample = Sample {
        location: "1.5,2.5".to_string(),
        address: "somewhere".to_string(),
    };
    let event = build_event(&sample, 1234, 10);
    assert_eq!(event.timestamp, 1234);
    assert_eq!(event.duration, 10);
    assert_eq!(event.data.location, "1.5,2.5");
    assert_eq!(event.data.address, "somewhere");
}

#[test]
fn make_event_carries_sample_and_duration() {
    let sample = Sample {
        location: "1.5,2.5".to_string(),
        address: "somewhere".to_string(),
    };
    let event = make_event(&sample, 25);
    assert_eq!(event.duration, 25);
    assert_eq!(event.data.location, "1.5,2.5");
    assert_eq!(event.data.address, "somewhere");
}

// The startup command line.
#[test]
fn cli_default_port() {
    assert!(matches!(parse_args(&args(&["watcher"])), CliAction::Run { port: 5600 }));
}

#[test]
fn cli_port_flag() {
    let action = parse_args(&args(&["watcher", "--port", "8080"]));
    assert!(matches!(action, CliAction::Run { port: 8080 }));
}

#[test]
fn cli_testing_flag() {
    let action = parse_args(&args(&["watcher", "--testing"]));
    assert!(matches!(action, CliAction::Run { port: 5699 }));
}

#[test]
fn cli_help_flag() {
    assert!(matches!(parse_args(&args(&["watcher", "--help"])), CliAction::ShowHelp));
}

#[test]
fn cli_first_recognized_flag_wins() {
    let action = parse_args(&args(&["watcher", "--verbose", "--testing", "--port", "1"]));
    assert!(matches!(action, CliAction::Run { port: 5699 }));
}

#[test]
fn cli_invalid_port_values() {
    assert!(matches!(parse_args(&args(&["watcher", "--port"])), CliAction::Invalid));
    assert!(matches!(
        parse_args(&args(&["watcher", "--port", "abc"])),
        CliAction::Invalid
    ));
    assert!(matches!(
        parse_args(&args(&["watcher", "--port", "70000"])),
        CliAction::Invalid
    ));
}

#[test]
fn port_parsing() {
    assert_eq!(parse_u16("0"), Some(0));
    assert_eq!(parse_u16("5699"), Some(5699));
    assert_eq!(parse_u16("+123"), Some(123));
    assert_eq!(parse_u16("65535"), Some(65535));
    assert_eq!(parse_u16("65536"), None);
    assert_eq!(parse_u16(""), None);
    assert_eq!(parse_u16("+"), None);
    assert_eq!(parse_u16("12x"), None);
    assert_eq!(parse_u16("-1"), None);
}

#[test]
fn registration_result_maps_transport() {
    assert!(registration_result(Ok(())).is_ok());
    let error = registration_result(Err("connection refused".to_string()));
    assert_eq!(error.unwrap_err().message, "connection refused");
}
