//! The error taxonomy of the supervisor.
//!
//! Configuration errors are fatal at startup; program errors split into
//! initialisation failures and failures while the control loop runs. Local,
//! expected conditions (a child already exited, a timer not yet expired, no
//! event pending) are ordinary state, never errors. Payloads are the
//! human-readable descriptions the embedding program renders; it keeps its
//! own mirror types for the error traits of its libraries.

use vstd::prelude::*;

verus! {

/// A failure while loading or understanding the configuration file.
#[derive(Debug, Clone)]
pub enum FlokConfigError {
    /// A condition this program anticipates, already described.
    Known(String),
    /// An input/output failure outside this program's anticipation.
    UnknownStdIo(String),
    /// A deserialisation failure outside this program's anticipation.
    UnknownSerDe(String),
    /// Anything else.
    Unknown(String),
}

/// A failure while bringing the program up: the terminal could not be
/// prepared or the first draw failed.
#[derive(Debug, Clone)]
pub enum FlokProgramInitError {
    /// An input/output failure while initialising.
    UnknownStdIo(String),
    /// Anything else.
    Unknown(String),
}

/// A failure while the control loop runs: a launch that could not spawn,
/// a watcher that could not start, or a terminal read that failed.
#[derive(Debug, Clone)]
pub enum FlokProgramExecutionError {
    /// A condition this program anticipates, already described.
    Known(String),
    /// An input/output failure while running.
    UnknownStdIo(String),
}

/// A failure of the running program, split by phase.
#[derive(Debug, Clone)]
pub enum FlokProgramError {
    /// The program could not come up.
    Init(FlokProgramInitError),
    /// The program failed while running.
    Execution(FlokProgramExecutionError),
}

/// Any failure the program can report: a configuration problem or a
/// program problem.
#[derive(Debug, Clone)]
pub enum FlokError {
    /// The configuration could not be loaded.
    Config(FlokConfigError),
    /// The program failed after loading it.
    Program(FlokProgramError),
}

} // verus!
