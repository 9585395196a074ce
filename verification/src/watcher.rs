//! The abstract file-change signal.
//!
//! A process-wide watcher (owned by the embedding program) observes the
//! working directory tree and broadcasts one coalesced "something changed"
//! signal per detection, with no path payload. This module holds only the
//! event type the supervision core consumes; starting the watcher, its
//! subscriber plumbing and its detection interval are the embedding
//! program's concern.

use vstd::prelude::*;

verus! {

/// The one signal a watcher delivers.
#[derive(Debug, Clone, Copy, PartialEq, Eq, Structural)]
pub enum WatcherEvent {
    /// Something under the watched tree was modified, created or removed.
    FileChanged,
}

} // verus!
