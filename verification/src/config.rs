//! Configuration for the watcher: a single polling interval in seconds, read
//! from a TOML document and clamped at load time so the event-store is never
//! polled too aggressively.

use vstd::prelude::*;
use vstd::string::StringExecFns;

verus! {

/// The smallest polling interval the scheduler will ever run at, in seconds.
/// Configured values below this are clamped up at load time, never rejected.
pub const MIN_POLLING_INTERVAL: u64 = 10;

/// The watcher's configuration, read once at startup.
#[derive(Clone, Copy, Debug, PartialEq, Eq, Structural)]
pub struct Config {
    /// Seconds between two ticks of the polling loop.
    pub polling_interval: u64,
}

impl Config {
    /// The configuration invariant: the interval is at or above the floor,
    /// and small enough to be used as a signed number of seconds.
    pub open spec fn wf(self) -> bool {
        MIN_POLLING_INTERVAL <= self.polling_interval <= i64::MAX
    }
}

/// Why a configuration text was rejected.
#[derive(Clone, Copy, Debug, PartialEq, Eq, Structural)]
pub enum ConfigError {
    /// The text is not a TOML document.
    InvalidToml,
    /// The document has no `polling_interval` key, or its value is not an
    /// integer.
    InvalidInterval,
}

/// The clamped interval: values below the floor become the floor, values at
/// or above it are kept.
pub open spec fn clamped(configured: int) -> int {
    if configured < MIN_POLLING_INTERVAL {
        MIN_POLLING_INTERVAL as int
    } else {
        configured
    }
}

/// The integer at key `polling_interval` of the TOML document `text`:
/// `Err(())` if the text is not a TOML document, `Ok(None)` if it is one
/// without an integer at that key.
pub uninterp spec fn toml_polling_interval(text: Seq<char>) -> Result<Option<i64>, ()>;

/// Relies on `toml::from_str`, `toml::Value::get` and `toml::Value::as_integer`:
/// parses the text as a TOML document and extracts the integer at key
/// `polling_interval`. The result depends on the text alone.
#[verifier::external_body]
fn read_polling_interval(text: &str) -> (r: Result<Option<i64>, ()>)
    ensures
        r == toml_polling_interval(text@),
{
    match toml::from_str::<toml::Value>(text) {
        Ok(doc) => match doc.get("polling_interval") {
            Some(value) => Ok(value.as_integer()),
            None => Ok(None),
        },
        Err(_) => Err(()),
    }
}

/// Clamp a configured interval to the effective interval the scheduler uses.
pub fn effective_interval(configured: i64) -> (r: u64)
    ensures
        r == clamped(configured as int),
        configured < MIN_POLLING_INTERVAL ==> r == MIN_POLLING_INTERVAL,
        configured >= MIN_POLLING_INTERVAL ==> r == configured as u64,
{
    if configured < MIN_POLLING_INTERVAL as i64 {
        MIN_POLLING_INTERVAL
    } else {
        configured as u64
    }
}

/// Load the configuration from the text of the config file.
///
/// A text that is not a TOML document, or one without an integer
/// `polling_interval`, is rejected; an interval below the floor is clamped
/// up, never rejected.
pub fn load_config(text: &str) -> (r: Result<Config, ConfigError>)
    ensures
        toml_polling_interval(text@) is Err ==> r == Err::<Config, ConfigError>(
            ConfigError::InvalidToml,
        ),
        toml_polling_interval(text@) == Ok::<Option<i64>, ()>(None) ==> r == Err::<
            Config,
            ConfigError,
        >(ConfigError::InvalidInterval),
        forall|i: i64|
            toml_polling_interval(text@) == Ok::<Option<i64>, ()>(Some(i)) ==> r == Ok::<
                Config,
                ConfigError,
            >((Config { polling_interval: clamped(i as int) as u64 })),
        r matches Ok(c) ==> c.wf(),
{
    match read_polling_interval(text) {
        Err(()) => Err(ConfigError::InvalidToml),
        Ok(None) => Err(ConfigError::InvalidInterval),
        Ok(Some(i)) => Ok(Config { polling_interval: effective_interval(i) }),
    }
}

/// The content written to a fresh config file when none exists: the default
/// polling interval, spelled exactly as the watcher has always written it.
pub fn default_config_text() -> (r: String)
    ensures
        r@ == "polling_interval=10"@,
{
    String::from_str("polling_interval=10")
}

/// For any configured interval below the floor the effective interval is
/// exactly the floor; at or above the floor it is exactly the configured
/// value.
pub proof fn lemma_config_clamp(configured: int)
    ensures
        configured < MIN_POLLING_INTERVAL ==> clamped(configured) == MIN_POLLING_INTERVAL,
        configured >= MIN_POLLING_INTERVAL ==> clamped(configured) == configured,
{
}

} // verus!
