//! The producer-side façade and the engine's run loop.
//!
//! An `AsyncLog` is a cheap-to-clone handle holding the ingress sender.
//! Each operation enqueues one request carrying a fresh one-shot
//! completion channel and returns the receiving half as a `LogFuture`.
//! The `Runner` owns the engine and the ingress receiver; a host thread
//! drives `step_blocking` in a loop, while tests drive `step` by hand.

use vstd::prelude::*;

use crate::channel::channel_new;
use crate::channel::channel_recv;
use crate::channel::channel_send;
use crate::channel::channel_sender_clone;
use crate::channel::channel_try_recv;
use crate::clock::Clock;
use crate::commitlog_api::log_new;
use crate::commitlog_api::opts_index_max_items;
use crate::commitlog_api::opts_new;
use crate::commitlog_api::opts_segment_max_bytes;
use crate::engine::AppendRequest;
use crate::engine::Completion;
use crate::engine::Engine;
use crate::engine::LogConfig;
use crate::engine::LogRequest;
use crate::engine::ReadPosition;
use crate::errors::LogError;
use crate::messages::Messages;

verus! {

/// Waits for the engine's reply to one request.
#[verifier::reject_recursive_types(R)]
pub struct LogFuture<R> {
    /// The receiving half of the request's completion channel.
    pub rx: std::sync::mpsc::Receiver<Result<R, LogError>>,
}

impl<R> LogFuture<R> {
    /// The reply if it has arrived: `None` while the engine has not
    /// answered yet, and a cancellation error once the engine dropped
    /// the request without answering.
    pub fn poll(&self) -> Option<Result<R, LogError>> {
        match channel_try_recv(&self.rx) {
            Ok(Some(v)) => Some(v),
            Ok(None) => None,
            Err(()) => Some(Err(LogError::Cancelled)),
        }
    }

    /// Blocks for the reply; a cancellation error once the engine
    /// dropped the request without answering.
    pub fn wait(&self) -> Result<R, LogError> {
        match channel_recv(&self.rx) {
            Ok(v) => v,
            Err(()) => Err(LogError::Cancelled),
        }
    }
}

/// Cloneable façade submitting requests to the engine.
pub struct AsyncLog {
    /// The ingress sender feeding the engine.
    pub ingress: std::sync::mpsc::Sender<LogRequest>,
}

impl Clone for AsyncLog {
    /// Another handle feeding the same engine.
    fn clone(&self) -> Self {
        AsyncLog { ingress: channel_sender_clone(&self.ingress) }
    }
}

impl AsyncLog {
    /// Submits one request; when the engine is gone, fails the reply
    /// channel locally instead, so the caller's future resolves to an
    /// engine-gone error rather than hanging.
    fn submit<R>(&self, req: LogRequest, failed: Completion<R>, rx: std::sync::mpsc::Receiver<
        Result<R, LogError>,
    >) -> LogFuture<R> {
        match channel_send(&self.ingress, req) {
            Ok(()) => {},
            Err(_) => {
                let _ = channel_send(&failed, Err(LogError::EngineGone));
            },
        }
        LogFuture { rx }
    }

    /// Enqueues an append of one payload; the future resolves to the
    /// assigned offset, or to an error.
    pub fn append(&self, payload: Vec<u8>) -> LogFuture<u64> {
        let (tx, rx) = channel_new();
        let failed = channel_sender_clone(&tx);
        let req = LogRequest::Append(AppendRequest { payload, completion: tx });
        self.submit(req, failed, rx)
    }

    /// Enqueues an offset query; the future resolves to the highest
    /// assigned offset, or zero on an empty log.
    pub fn last_offset(&self) -> LogFuture<u64> {
        let (tx, rx) = channel_new();
        let failed = channel_sender_clone(&tx);
        self.submit(LogRequest::LastOffset(tx), failed, rx)
    }

    /// Enqueues a read from the given position under a byte budget; the
    /// future resolves to a batch of messages, or to an error.
    pub fn read(&self, position: ReadPosition, limit: usize) -> LogFuture<Messages> {
        let (tx, rx) = channel_new();
        let failed = channel_sender_clone(&tx);
        self.submit(LogRequest::Read(position, limit, tx), failed, rx)
    }

    /// Creates or opens the log under the configured directory and wires
    /// an engine to a fresh handle. `None` when the directory cannot be
    /// opened. The engine starts clean, with a full pool of the
    /// configured capacity, no acknowledgments yet, and its flush timer
    /// anchored at the given clock reading.
    pub fn open(cfg: &LogConfig, now_ms: u64) -> (r: Option<(Runner, AsyncLog)>)
        requires
            cfg.wf(),
        ensures
            r matches Some(pair) ==> {
                &&& pair.0.wf()
                &&& !pair.0.engine.dirty
                &&& pair.0.engine.last_flush_ms == now_ms
                &&& pair.0.engine.flush_interval_ms == cfg.flush_interval_ms
                &&& pair.0.engine.acks@.len() == 0
                &&& pair.0.engine.pool.cap() == cfg.pool_capacity
                &&& pair.0.engine.pool.available() == cfg.pool_capacity
            },
    {
        let mut opts = opts_new(cfg.log_dir.as_str());
        opts_index_max_items(&mut opts, cfg.index_max_items);
        opts_segment_max_bytes(&mut opts, cfg.segment_max_bytes);
        match log_new(opts) {
            Some(log) => {
                let engine = Engine::new(log, cfg, now_ms);
                let (tx, rx) = channel_new();
                Some((Runner { engine, ingress: rx }, AsyncLog { ingress: tx }))
            },
            None => None,
        }
    }
}

/// Everything drained from the ingress in one go, and whether any sender
/// is still alive.
fn drain_ready(rx: &std::sync::mpsc::Receiver<LogRequest>) -> (Vec<LogRequest>, bool) {
    let mut out: Vec<LogRequest> = Vec::new();
    let mut connected = true;
    while out.len() < usize::MAX
        decreases usize::MAX - out@.len(),
    {
        match channel_try_recv(rx) {
            Ok(Some(req)) => {
                out.push(req);
            },
            Ok(None) => {
                break;
            },
            Err(()) => {
                connected = false;
                break;
            },
        }
    }
    (out, connected)
}

/// Owns the engine and the ingress receiver; the consumer side of the
/// log.
pub struct Runner {
    /// The engine.
    pub engine: Engine,
    /// The receiving half of the ingress channel.
    pub ingress: std::sync::mpsc::Receiver<LogRequest>,
}

impl Runner {
    /// The runner's invariant.
    pub open spec fn wf(self) -> bool {
        self.engine.wf()
    }

    /// One engine step without blocking: drains whatever is pending,
    /// applies it, and consults the flush timer. Returns whether any
    /// handle is still alive. Entries are only ever appended, never
    /// dropped or reordered.
    pub fn step<C: Clock>(&mut self, clock: &mut C) -> (connected: bool)
        requires
            old(self).wf(),
        ensures
            final(self).wf(),
            old(self).engine.entries().is_prefix_of(final(self).engine.entries()),
    {
        let (reqs, connected) = drain_ready(&self.ingress);
        self.engine.process_batch(reqs);
        let now: u64 = clock.now_ms();
        let _ = self.engine.poll_flush_at(now);
        connected
    }

    /// One engine step, blocking for the first request: everything that
    /// arrived behind it is drained and applied as one run, then the
    /// flush timer is consulted. Returns false once every handle is
    /// gone; the host keeps calling until then.
    pub fn step_blocking<C: Clock>(&mut self, clock: &mut C) -> (connected: bool)
        requires
            old(self).wf(),
        ensures
            final(self).wf(),
            old(self).engine.entries().is_prefix_of(final(self).engine.entries()),
    {
        match channel_recv(&self.ingress) {
            Ok(first) => {
                let mut reqs: Vec<LogRequest> = Vec::new();
                reqs.push(first);
                let (mut more, _still_connected) = drain_ready(&self.ingress);
                reqs.append(&mut more);
                self.engine.process_batch(reqs);
                let now: u64 = clock.now_ms();
                let _ = self.engine.poll_flush_at(now);
                true
            },
            Err(()) => {
                proof {
                    crate::engine::lemma_prefix_reflexive(self.engine.entries());
                }
                false
            },
        }
    }
}

} // verus!
