use vstd::prelude::*;

verus! {

/// Failure taxonomy of the engine, as the orchestrator reacts to each kind.
///
/// Startup connect failures and shutdown close failures propagate to the
/// caller of the run; every steady-state, per-batch failure is recovered
/// locally and never aborts the stream.
#[derive(Debug, Clone, PartialEq, Eq)]
pub enum Error {
    /// Not connected, or a connect attempt failed; aborts startup.
    Connection(String),
    /// Transient loss of the source; drives the feeder's reconnect loop and
    /// is never surfaced to the caller of the run.
    Disconnection,
    /// Graceful exhaustion of the source; not a failure.
    EOF,
    /// Malformed or missing settings; fatal to the task that observes it.
    Config(String),
    /// A pipeline transform or buffer merge failure; per-item, non-fatal.
    Process(String),
    /// Any other error; logged and treated as transient.
    Unknown(String),
}

impl Error {
    /// A fatal error halts the feeder outright; a transient one lets its
    /// loop continue (possibly through a reconnect).
    pub open spec fn is_fatal(self) -> bool {
        self is Config
    }
}

} // verus!
