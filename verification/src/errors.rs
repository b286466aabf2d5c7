//! Errors reported to requesters. Each error is local to one request: a
//! failing request never poisons the engine.

use vstd::prelude::*;

verus! {

/// Outcome reported through a completion when a request cannot be served.
#[derive(Clone, Copy, Debug, PartialEq, Eq, Structural)]
pub enum LogError {
    /// The physical append was rejected; reported uniformly to every
    /// completion of the failed batch.
    AppendFailed,
    /// The physical read was rejected, or the requested offset is not in
    /// the log.
    ReadFailed,
    /// The engine dropped the request without answering it.
    Cancelled,
    /// The engine is gone: the ingress channel rejected the request.
    EngineGone,
}

} // verus!
