use vstd::prelude::*;

verus! {

/// Why a request to the worker did not produce a response.
#[derive(Debug, Clone, PartialEq, Eq)]
pub enum BridgeError {
    /// The worker executable is missing or could not be spawned.
    Launch(String),
    /// Writing, flushing or reading the worker's pipes failed, or the worker
    /// closed its output.
    Io(String),
    /// The payload is not a JSON object, or the worker's response line is
    /// blank or not JSON.
    Protocol(String),
    /// The lock around the bridge was poisoned by a panicking holder.
    StateUnusable(String),
    /// An exchange with the worker is still open: a request is outstanding.
    ExchangeOpen,
    /// Every request identifier that fits in a `u64` has been used.
    IdsExhausted,
}

} // verus!
