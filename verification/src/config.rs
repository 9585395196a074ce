//! The immutable specification tree a supervisor is built from: flocks of
//! processes, each with a display name, a shell command, and a watch policy.
//!
//! Durations are carried as whole milliseconds so that debounce arithmetic
//! stays exact; the embedding program converts its configuration format
//! (where the debounce may be given in fractional seconds) before handing
//! the tree to this library.

use vstd::prelude::*;

verus! {

/// Debounce applied when file watching is enabled without an explicit
/// debounce, in milliseconds.
pub const DEFAULT_DEBOUNCE_MS: u64 = 2000;

/// Debounce applied when an explicit watch entry omits its duration, in
/// milliseconds.
pub const OMITTED_DEBOUNCE_MS: u64 = 1000;

/// Watch policy of one process: either a plain on/off switch, or enabled
/// with an optional debounce duration of its own.
#[derive(Debug, Clone, PartialEq, Eq)]
pub enum WatchConfig {
    /// Watching switched on or off with the default debounce.
    Enabled(bool),
    /// Watching on, with the debounce given in milliseconds, or the
    /// fallback duration when omitted.
    WithDebounce { debounce_millis: Option<u64> },
}

impl WatchConfig {
    /// Whether file-change events should drive this process at all.
    pub open spec fn spec_is_enabled(&self) -> bool {
        match self {
            WatchConfig::Enabled(enabled) => *enabled,
            WatchConfig::WithDebounce { .. } => true,
        }
    }

    /// Whether file-change events should drive this process at all.
    #[verifier::when_used_as_spec(spec_is_enabled)]
    pub fn is_enabled(&self) -> (r: bool)
        ensures
            r == self.spec_is_enabled(),
    {
        match self {
            WatchConfig::Enabled(enabled) => *enabled,
            WatchConfig::WithDebounce { .. } => true,
        }
    }

    /// The debounce window this policy asks for, in milliseconds.
    pub open spec fn spec_debounce_duration(&self) -> u64 {
        match self {
            WatchConfig::Enabled(true) => DEFAULT_DEBOUNCE_MS,
            WatchConfig::Enabled(false) => 0,
            WatchConfig::WithDebounce { debounce_millis: Some(ms) } => *ms,
            WatchConfig::WithDebounce { debounce_millis: None } => OMITTED_DEBOUNCE_MS,
        }
    }

    /// The debounce window this policy asks for, in milliseconds: zero when
    /// watching is disabled, the default when merely enabled, the given
    /// duration (or the omitted-entry fallback) otherwise.
    #[verifier::when_used_as_spec(spec_debounce_duration)]
    pub fn debounce_duration(&self) -> (r: u64)
        ensures
            r == self.spec_debounce_duration(),
    {
        match self {
            WatchConfig::Enabled(true) => DEFAULT_DEBOUNCE_MS,
            WatchConfig::Enabled(false) => 0,
            WatchConfig::WithDebounce { debounce_millis: Some(ms) } => *ms,
            WatchConfig::WithDebounce { debounce_millis: None } => OMITTED_DEBOUNCE_MS,
        }
    }
}

impl Default for WatchConfig {
    /// Watching is off unless the configuration asks for it.
    fn default() -> (r: Self)
        ensures
            r == WatchConfig::Enabled(false),
    {
        WatchConfig::Enabled(false)
    }
}

/// One process of a flock: its display name, the shell text run through the
/// user's login shell, and its watch policy.
#[derive(Debug, Clone, PartialEq, Eq)]
pub struct FlockProcessConfig {
    pub display_name: String,
    pub command: String,
    pub watch: WatchConfig,
}

/// A named, ordered group of processes launched and managed together.
#[derive(Debug, Clone, PartialEq, Eq)]
pub struct FlockConfig {
    pub display_name: String,
    pub processes: Vec<FlockProcessConfig>,
}

/// The whole specification tree: every flock, in configuration order.
#[derive(Debug, Clone, PartialEq, Eq)]
pub struct AppConfig {
    pub flocks: Vec<FlockConfig>,
}

} // verus!
