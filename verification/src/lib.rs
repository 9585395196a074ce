//! A process-supervision core for terminal-resident developer workflows.
//!
//! The library models the supervision engine of a "flock" runner: named
//! groups of long-running shell commands, each attached to a pseudo-terminal,
//! optionally restarted when source files change. The pieces verified here
//! are the per-process state machine, the file-change debounce scheduler,
//! the graceful-shutdown escalation protocol, and the flock registry that
//! the UI loop drives. All operating-system work (spawning into a PTY,
//! sending signals, watching the file system, drawing the terminal) is left
//! to the embedding program, which feeds this core plain values: the current
//! time in milliseconds, probe results, and completion notifications.

pub mod config;
pub mod error;
pub mod process;
pub mod shutdown;
pub mod state;
pub mod watcher;

pub use config::AppConfig;
pub use config::FlockConfig;
pub use config::FlockProcessConfig;
pub use config::WatchConfig;
